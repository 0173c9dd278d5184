use rustsbi_k210::boot::{
    delegate, isa_name, mp_hook, Boot, BootEvent, DELEGATED_EXCEPTIONS, DELEGATED_INTERRUPTS,
};
use rustsbi_k210::hart::Op;
use rustsbi_k210::service::{send_ipi_many, set_timer, MAX_HART_ID};

#[test]
fn primary_hart_is_done_at_once() {
    let (stage, ops) = mp_hook(Boot::Start, BootEvent::Hart { id: 0 });
    assert_eq!(stage, Boot::Primary);
    assert_eq!(ops, Vec::<Op>::new());
    assert_eq!(stage.is_primary(), Some(true));
}

#[test]
fn secondary_hart_parks_until_the_doorbell_rings() {
    let (stage, ops) = mp_hook(Boot::Start, BootEvent::Hart { id: 1 });
    assert_eq!(stage, Boot::Parked { hart: 1 });
    assert_eq!(ops, vec![Op::ClearSoftware { hart: 1 }, Op::SetMie(0x8)]);
    assert_eq!(stage.is_primary(), None);

    let (stage, ops) = mp_hook(stage, BootEvent::Woken { mip: 0 });
    assert_eq!(stage, Boot::Parked { hart: 1 });
    assert_eq!(ops, Vec::<Op>::new());

    let (stage, ops) = mp_hook(stage, BootEvent::Woken { mip: !0x8 });
    assert_eq!(stage, Boot::Parked { hart: 1 });
    assert_eq!(ops, Vec::<Op>::new());

    let (stage, ops) = mp_hook(stage, BootEvent::Woken { mip: 0x8 });
    assert_eq!(stage, Boot::Secondary);
    assert_eq!(ops, vec![Op::ClearMie(0x8), Op::ClearSoftware { hart: 1 }]);
    assert_eq!(stage.is_primary(), Some(false));
}

#[test]
fn start_up_ignores_what_it_does_not_wait_for() {
    assert_eq!(mp_hook(Boot::Start, BootEvent::Woken { mip: 0x8 }), (Boot::Start, vec![]));
    assert_eq!(mp_hook(Boot::Parked { hart: 1 }, BootEvent::Hart { id: 0 }), (Boot::Parked { hart: 1 }, vec![]));
    assert_eq!(mp_hook(Boot::Primary, BootEvent::Hart { id: 1 }), (Boot::Primary, vec![]));
    assert_eq!(mp_hook(Boot::Secondary, BootEvent::Woken { mip: 0x8 }), (Boot::Secondary, vec![]));
    assert_eq!(Boot::Start.is_primary(), None);
}

#[test]
fn delegation_hands_timer_and_software_interrupts_and_six_exceptions_down() {
    let ops = delegate();
    assert_eq!(
        ops,
        vec![
            Op::SetMideleg(1 << 5),
            Op::SetMideleg(1 << 1),
            Op::SetMedeleg(1 << 0),
            Op::SetMedeleg(1 << 3),
            Op::SetMedeleg(1 << 8),
            Op::SetMedeleg(1 << 1),
            Op::SetMedeleg(1 << 5),
            Op::SetMedeleg(1 << 7),
            Op::SetMie(1 << 3),
        ]
    );
    let mut mideleg = 0u64;
    let mut medeleg = 0u64;
    for op in ops {
        match op {
            Op::SetMideleg(mask) => mideleg |= mask,
            Op::SetMedeleg(mask) => medeleg |= mask,
            _ => {}
        }
    }
    assert_eq!(mideleg, DELEGATED_INTERRUPTS);
    assert_eq!(medeleg, DELEGATED_EXCEPTIONS);
    assert_eq!(mideleg, 0x22);
    assert_eq!(medeleg, 0x1AB);
}

#[test]
fn ipi_pulses_each_named_hart() {
    assert_eq!(MAX_HART_ID, 1);
    assert_eq!(send_ipi_many(0), Vec::<Op>::new());
    assert_eq!(send_ipi_many(0b01), vec![Op::RaiseSoftware { hart: 0 }, Op::ClearSoftware { hart: 0 }]);
    assert_eq!(send_ipi_many(0b10), vec![Op::RaiseSoftware { hart: 1 }, Op::ClearSoftware { hart: 1 }]);
    assert_eq!(
        send_ipi_many(0b11),
        vec![
            Op::RaiseSoftware { hart: 0 },
            Op::ClearSoftware { hart: 0 },
            Op::RaiseSoftware { hart: 1 },
            Op::ClearSoftware { hart: 1 },
        ]
    );
}

#[test]
fn ipi_ignores_harts_that_do_not_exist() {
    assert_eq!(send_ipi_many(0b100), Vec::<Op>::new());
    assert_eq!(send_ipi_many(u64::MAX), send_ipi_many(0b11));
    assert_eq!(send_ipi_many(!0b01), send_ipi_many(0b10));
}

#[test]
fn timer_writes_the_deadline_and_clears_the_pending_interrupt() {
    assert_eq!(
        set_timer(1, 0x1_0000_0000),
        vec![Op::WriteDeadline { hart: 1, deadline: 0x1_0000_0000 }, Op::ClearMip(0x80)]
    );
    assert_eq!(set_timer(0, u64::MAX), vec![Op::WriteDeadline { hart: 0, deadline: u64::MAX }, Op::ClearMip(0x80)]);
}

fn misa(width: u64, letters: &str) -> u64 {
    letters.bytes().fold(width << 62, |bits, letter| bits | 1 << (letter - b'A'))
}

#[test]
fn isa_name_spells_width_and_extensions() {
    assert_eq!(isa_name(misa(2, "IMAFDC")), Some(b"RV64ACDFIM".to_vec()));
    assert_eq!(isa_name(misa(2, "IMAFDCSU")), Some(b"RV64ACDFIMSU".to_vec()));
    assert_eq!(isa_name(misa(1, "I")), Some(b"RV32I".to_vec()));
    assert_eq!(isa_name(misa(3, "ZA")), Some(b"RV128AZ".to_vec()));
    assert_eq!(isa_name(misa(2, "")), Some(b"RV64".to_vec()));
    assert_eq!(isa_name(0x8000_0000_0014_112D), Some(b"RV64ACDFIMSU".to_vec()));
}

#[test]
fn isa_name_lists_all_twenty_six_letters_in_order() {
    assert_eq!(isa_name((2 << 62) | 0x3FF_FFFF), Some(b"RV64ABCDEFGHIJKLMNOPQRSTUVWXYZ".to_vec()));
}

#[test]
fn isa_name_ignores_bits_that_are_no_letters() {
    assert_eq!(isa_name((2 << 62) | (1 << 26) | (1 << 40) | 1), Some(b"RV64A".to_vec()));
}

#[test]
fn isa_name_is_missing_without_a_width() {
    assert_eq!(isa_name(0), None);
    assert_eq!(isa_name(0x0014_112D), None);
    assert_eq!(isa_name((1 << 62) - 1), None);
}
