use vstd::prelude::*;
use crate::hart::{Hart, Op, MACHINE_SOFT, SUPERVISOR_SOFT, SUPERVISOR_TIMER};

verus! {

/// The hart that initialises the machine. Every other hart waits for it.
pub const PRIMARY_HART: u64 = 0;

/// Where the start-up of one hart stands, and with it what the platform has
/// to do next.
#[derive(Clone, Copy, Debug, PartialEq, Eq, Structural)]
pub enum Boot {
    /// Read the hart's identifier and report it as `BootEvent::Hart`.
    Start,
    /// Wait for an interrupt, then read `mip` and report it as
    /// `BootEvent::Woken`.
    Parked { hart: u64 },
    /// Done: this hart initialises memory and the devices.
    Primary,
    /// Done: this hart finds the machine initialised.
    Secondary,
}

/// What the platform reports during start-up.
#[derive(Clone, Copy, Debug, PartialEq, Eq, Structural)]
pub enum BootEvent {
    /// The identifier of the hart.
    Hart { id: u64 },
    /// The hart woke up, with this value in `mip`.
    Woken { mip: u64 },
}

impl Boot {
    /// Whether this hart is the one that initialises the machine, once that
    /// is decided.
    pub open spec fn decided(self) -> Option<bool> {
        match self {
            Boot::Primary => Some(true),
            Boot::Secondary => Some(false),
            _ => None,
        }
    }

    /// Tells whether this hart initialises the machine, once that is decided.
    pub fn is_primary(&self) -> (primary: Option<bool>)
        ensures
            primary == self.decided(),
    {
        match self {
            Boot::Primary => Some(true),
            Boot::Secondary => Some(false),
            _ => None,
        }
    }
}

/// Whether `mip` shows the doorbell of the primary hart: a pending machine
/// software interrupt.
pub open spec fn doorbell_rang(mip: u64) -> bool {
    mip & MACHINE_SOFT != 0
}

/// The step that start-up takes at `stage` when `event` arrives, and the
/// writes that go with it.
///
/// The primary hart is done at once. Any other hart clears its doorbell,
/// enables the machine software interrupt and parks. Each time it wakes it
/// looks at `mip`: if the doorbell has not rung it parks again, else it
/// disables the interrupt, clears the doorbell and is done. An event that the
/// stage does not wait for changes nothing.
pub open spec fn boot_step(stage: Boot, event: BootEvent) -> (Boot, Seq<Op>) {
    match (stage, event) {
        (Boot::Start, BootEvent::Hart { id }) => if id == PRIMARY_HART {
            (Boot::Primary, Seq::<Op>::empty())
        } else {
            (Boot::Parked { hart: id }, seq![Op::ClearSoftware { hart: id }, Op::SetMie(MACHINE_SOFT)])
        },
        (Boot::Parked { hart }, BootEvent::Woken { mip }) => if doorbell_rang(mip) {
            (Boot::Secondary, seq![Op::ClearMie(MACHINE_SOFT), Op::ClearSoftware { hart }])
        } else {
            (Boot::Parked { hart }, Seq::<Op>::empty())
        },
        _ => (stage, Seq::<Op>::empty()),
    }
}

/// Decides, one step at a time, whether this hart initialises the machine,
/// and holds every other hart back until the primary hart rings.
pub fn mp_hook(stage: Boot, event: BootEvent) -> (next: (Boot, Vec<Op>))
    ensures
        next.0 == boot_step(stage, event).0,
        next.1@ == boot_step(stage, event).1,
{
    let mut ops: Vec<Op> = Vec::new();
    match (stage, event) {
        (Boot::Start, BootEvent::Hart { id }) => {
            if id == PRIMARY_HART {
                (Boot::Primary, ops)
            } else {
                ops.push(Op::ClearSoftware { hart: id });
                ops.push(Op::SetMie(MACHINE_SOFT));
                assert(ops@ =~= seq![Op::ClearSoftware { hart: id }, Op::SetMie(MACHINE_SOFT)]);
                (Boot::Parked { hart: id }, ops)
            }
        },
        (Boot::Parked { hart }, BootEvent::Woken { mip }) => {
            if mip & MACHINE_SOFT != 0 {
                ops.push(Op::ClearMie(MACHINE_SOFT));
                ops.push(Op::ClearSoftware { hart });
                assert(ops@ =~= seq![Op::ClearMie(MACHINE_SOFT), Op::ClearSoftware { hart }]);
                (Boot::Secondary, ops)
            } else {
                (Boot::Parked { hart }, ops)
            }
        },
        _ => (stage, ops),
    }
}

/// A secondary hart that was parked and then released has its machine
/// software interrupt as it would be had the enable bit been cleared once,
/// and its doorbell is low. Nothing else on the hart has changed.
pub proof fn parking_leaves_no_trace(hart: Hart, id: u64, mip: u64)
    requires
        id != PRIMARY_HART,
        doorbell_rang(mip),
    ensures
        boot_step(Boot::Start, BootEvent::Hart { id }).0 == (Boot::Parked { hart: id }),
        boot_step(Boot::Parked { hart: id }, BootEvent::Woken { mip }).0 == Boot::Secondary,
        hart.run(boot_step(Boot::Start, BootEvent::Hart { id }).1).run(
            boot_step(Boot::Parked { hart: id }, BootEvent::Woken { mip }).1,
        ) == (Hart { mie: hart.mie & !MACHINE_SOFT, software: hart.software.insert(id, false), ..hart }),
{
    let parked = hart.run(boot_step(Boot::Start, BootEvent::Hart { id }).1);
    hart.run_two(Op::ClearSoftware { hart: id }, Op::SetMie(MACHINE_SOFT));
    parked.run_two(Op::ClearMie(MACHINE_SOFT), Op::ClearSoftware { hart: id });
    let mie = hart.mie;
    assert((mie | 0x8u64) & !0x8u64 == mie & !0x8u64) by (bit_vector);
    assert(hart.software.insert(id, false).insert(id, false) =~= hart.software.insert(id, false));
}

/// Exceptions that the supervisor handles without the firmware, as bits of
/// `medeleg`: a misaligned instruction fetch.
pub const DELEGATE_INSTRUCTION_MISALIGNED: u64 = 0x1;

/// An instruction access fault.
pub const DELEGATE_INSTRUCTION_FAULT: u64 = 0x2;

/// A breakpoint.
pub const DELEGATE_BREAKPOINT: u64 = 0x8;

/// A load access fault.
pub const DELEGATE_LOAD_FAULT: u64 = 0x20;

/// A store access fault.
pub const DELEGATE_STORE_FAULT: u64 = 0x80;

/// An environment call from user mode.
pub const DELEGATE_USER_ENV_CALL: u64 = 0x100;

/// All delegated exceptions together.
pub const DELEGATED_EXCEPTIONS: u64 = 0x1AB;

/// All delegated interrupts together: the supervisor's timer and software
/// interrupts.
pub const DELEGATED_INTERRUPTS: u64 = 0x22;

/// The writes that set up delegation, once per hart, before the supervisor
/// is entered. The last one enables the machine software interrupt, by which
/// the harts signal each other.
pub open spec fn delegation_ops() -> Seq<Op> {
    seq![
        Op::SetMideleg(SUPERVISOR_TIMER),
        Op::SetMideleg(SUPERVISOR_SOFT),
        Op::SetMedeleg(DELEGATE_INSTRUCTION_MISALIGNED),
        Op::SetMedeleg(DELEGATE_BREAKPOINT),
        Op::SetMedeleg(DELEGATE_USER_ENV_CALL),
        Op::SetMedeleg(DELEGATE_INSTRUCTION_FAULT),
        Op::SetMedeleg(DELEGATE_LOAD_FAULT),
        Op::SetMedeleg(DELEGATE_STORE_FAULT),
        Op::SetMie(MACHINE_SOFT),
    ]
}

/// Lists the writes that set up delegation.
pub fn delegate() -> (ops: Vec<Op>)
    ensures
        ops@ == delegation_ops(),
{
    let mut ops: Vec<Op> = Vec::new();
    ops.push(Op::SetMideleg(SUPERVISOR_TIMER));
    ops.push(Op::SetMideleg(SUPERVISOR_SOFT));
    ops.push(Op::SetMedeleg(DELEGATE_INSTRUCTION_MISALIGNED));
    ops.push(Op::SetMedeleg(DELEGATE_BREAKPOINT));
    ops.push(Op::SetMedeleg(DELEGATE_USER_ENV_CALL));
    ops.push(Op::SetMedeleg(DELEGATE_INSTRUCTION_FAULT));
    ops.push(Op::SetMedeleg(DELEGATE_LOAD_FAULT));
    ops.push(Op::SetMedeleg(DELEGATE_STORE_FAULT));
    ops.push(Op::SetMie(MACHINE_SOFT));
    assert(ops@ =~= delegation_ops());
    ops
}

/// After delegation is set up, the two delegation masks hold the delegated
/// classes on top of what they held, the machine software interrupt is
/// enabled, and nothing else on the hart has changed.
pub proof fn delegation_effect(hart: Hart)
    ensures
        hart.run(delegation_ops()) == (Hart {
            mideleg: hart.mideleg | DELEGATED_INTERRUPTS,
            medeleg: hart.medeleg | DELEGATED_EXCEPTIONS,
            mie: hart.mie | MACHINE_SOFT,
            ..hart
        }),
{
    let interrupts = seq![Op::SetMideleg(SUPERVISOR_TIMER), Op::SetMideleg(SUPERVISOR_SOFT)];
    let first = seq![
        Op::SetMedeleg(DELEGATE_INSTRUCTION_MISALIGNED),
        Op::SetMedeleg(DELEGATE_BREAKPOINT),
        Op::SetMedeleg(DELEGATE_USER_ENV_CALL),
    ];
    let second = seq![
        Op::SetMedeleg(DELEGATE_INSTRUCTION_FAULT),
        Op::SetMedeleg(DELEGATE_LOAD_FAULT),
        Op::SetMedeleg(DELEGATE_STORE_FAULT),
        Op::SetMie(MACHINE_SOFT),
    ];
    assert(delegation_ops() =~= interrupts + first + second);
    hart.run_concat(interrupts + first, second);
    hart.run_concat(interrupts, first);
    hart.run_two(Op::SetMideleg(SUPERVISOR_TIMER), Op::SetMideleg(SUPERVISOR_SOFT));
    let a = hart.run(interrupts);
    a.run_three(
        Op::SetMedeleg(DELEGATE_INSTRUCTION_MISALIGNED),
        Op::SetMedeleg(DELEGATE_BREAKPOINT),
        Op::SetMedeleg(DELEGATE_USER_ENV_CALL),
    );
    let b = a.run(first);
    b.run_four(
        Op::SetMedeleg(DELEGATE_INSTRUCTION_FAULT),
        Op::SetMedeleg(DELEGATE_LOAD_FAULT),
        Op::SetMedeleg(DELEGATE_STORE_FAULT),
        Op::SetMie(MACHINE_SOFT),
    );
    let i = hart.mideleg;
    let e = hart.medeleg;
    assert((i | 0x20u64) | 0x2u64 == i | 0x22u64 && (((((e | 0x1u64) | 0x8u64) | 0x100u64) | 0x2u64)
        | 0x20u64) | 0x80u64 == e | 0x1ABu64) by (bit_vector);
}

/// Number of single-letter extensions that `misa` can report.
pub const ISA_LETTERS: u64 = 26;

/// The name of the register width that the top two bits of `misa` report,
/// in ASCII, if they report one.
pub open spec fn isa_width(misa: u64) -> Option<Seq<u8>> {
    if misa >> 62 == 1 {
        Some(seq![0x52u8, 0x56, 0x33, 0x32])
    } else if misa >> 62 == 2 {
        Some(seq![0x52u8, 0x56, 0x36, 0x34])
    } else if misa >> 62 == 3 {
        Some(seq![0x52u8, 0x56, 0x31, 0x32, 0x38])
    } else {
        None
    }
}

/// Whether `misa` reports the extension with the given place in the
/// alphabet, `A` being the first.
pub open spec fn has_extension(misa: u64, place: u64) -> bool {
    place < ISA_LETTERS && (misa >> place) & 1 == 1
}

/// The letters of the extensions that `misa` reports among the first
/// `count` of the alphabet, in ASCII and in alphabetical order.
pub open spec fn isa_letters(misa: u64, count: nat) -> Seq<u8>
    decreases count,
{
    if count == 0 {
        Seq::<u8>::empty()
    } else {
        let place = (count - 1) as u64;
        if has_extension(misa, place) {
            isa_letters(misa, (count - 1) as nat).push((0x41 + place) as u8)
        } else {
            isa_letters(misa, (count - 1) as nat)
        }
    }
}

/// The name of the instruction set that `misa` reports: the register width
/// and then the letters of the extensions. A hart that does not implement
/// `misa` reads zero there and has no name.
pub open spec fn isa_name_of(misa: u64) -> Option<Seq<u8>> {
    match isa_width(misa) {
        Some(width) => Some(width + isa_letters(misa, ISA_LETTERS as nat)),
        None => None,
    }
}

/// Spells the name of the instruction set for the start-up banner.
pub fn isa_name(misa: u64) -> (name: Option<Vec<u8>>)
    ensures
        match isa_name_of(misa) {
            Some(spelled) => name.is_some() && name.unwrap()@ == spelled,
            None => name.is_none(),
        },
{
    let mut name: Vec<u8> = Vec::new();
    name.push(0x52);
    name.push(0x56);
    match misa >> 62 {
        1 => {
            name.push(0x33);
            name.push(0x32);
        },
        2 => {
            name.push(0x36);
            name.push(0x34);
        },
        3 => {
            name.push(0x31);
            name.push(0x32);
            name.push(0x38);
        },
        _ => {
            return None;
        },
    }
    let ghost width = name@;
    assert(isa_width(misa) == Some(width)) by {
        assert(width =~= isa_width(misa).unwrap());
    }
    let mut place: u64 = 0;
    while place < ISA_LETTERS
        invariant
            place <= ISA_LETTERS,
            name@ == width + isa_letters(misa, place as nat),
        decreases ISA_LETTERS - place,
    {
        if (misa >> place) & 1 == 1 {
            let letter: u8 = 0x41 + place as u8;
            name.push(letter);
            assert(name@ =~= width + isa_letters(misa, place as nat).push((0x41 + place) as u8));
        }
        place = place + 1;
    }
    Some(name)
}

/// The name lists every reported extension once and no other letter: an
/// upper-case letter is in the list exactly when its bit is set.
pub proof fn isa_letters_are_the_set_bits(misa: u64, count: nat, letter: u8)
    requires
        count <= ISA_LETTERS,
    ensures
        isa_letters(misa, count).contains(letter) <==> 0x41 <= letter < 0x41 + count && has_extension(
            misa,
            (letter - 0x41) as u64,
        ),
    decreases count,
{
    if count > 0 {
        let place = (count - 1) as u64;
        let before = isa_letters(misa, (count - 1) as nat);
        isa_letters_are_the_set_bits(misa, (count - 1) as nat, letter);
        if has_extension(misa, place) {
            let last = (0x41 + place) as u8;
            assert(before.push(last).last() == last);
            assert forall|i: int| 0 <= i < before.len() implies before.push(last)[i] == before[i] by {}
            if before.push(last).contains(letter) {
                let i = choose|i: int| 0 <= i < before.push(last).len() && before.push(last)[i] == letter;
                if i < before.len() {
                    assert(before[i] == letter);
                }
            }
            if before.contains(letter) {
                let i = choose|i: int| 0 <= i < before.len() && before[i] == letter;
                assert(before.push(last)[i] == letter);
            }
            if letter == last {
                assert(before.push(last)[before.len() as int] == letter);
            }
        }
    }
}

} // verus!
