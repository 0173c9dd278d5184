use rustsbi_k210::fatal::Fatal;
use rustsbi_k210::frame::{set_rd, slot_of_register, Slot, TrapFrame, FRAME_BYTES, FRAME_SLOTS, SLOT_BYTES};

const SAVED: [(u8, Slot); 16] = [
    (1, Slot::Ra),
    (5, Slot::T0),
    (6, Slot::T1),
    (7, Slot::T2),
    (28, Slot::T3),
    (29, Slot::T4),
    (30, Slot::T5),
    (31, Slot::T6),
    (10, Slot::A0),
    (11, Slot::A1),
    (12, Slot::A2),
    (13, Slot::A3),
    (14, Slot::A4),
    (15, Slot::A5),
    (16, Slot::A6),
    (17, Slot::A7),
];

fn values(frame: &TrapFrame) -> [u64; 16] {
    [
        frame.ra, frame.t0, frame.t1, frame.t2, frame.t3, frame.t4, frame.t5, frame.t6, frame.a0,
        frame.a1, frame.a2, frame.a3, frame.a4, frame.a5, frame.a6, frame.a7,
    ]
}

fn numbered() -> TrapFrame {
    TrapFrame {
        ra: 100,
        t0: 101,
        t1: 102,
        t2: 103,
        t3: 104,
        t4: 105,
        t5: 106,
        t6: 107,
        a0: 108,
        a1: 109,
        a2: 110,
        a3: 111,
        a4: 112,
        a5: 113,
        a6: 114,
        a7: 115,
    }
}

#[test]
fn frame_has_sixteen_slots_of_eight_bytes() {
    assert_eq!(FRAME_SLOTS, 16);
    assert_eq!(SLOT_BYTES, 8);
    assert_eq!(FRAME_BYTES, 128);
    assert_eq!(values(&TrapFrame::zeroed()), [0u64; 16]);
}

#[test]
fn slots_lie_in_the_order_of_the_frame() {
    for (position, (_, slot)) in SAVED.iter().enumerate() {
        assert_eq!(slot.offset(), 8 * position as u64);
        assert_eq!(numbered().get(*slot), 100 + position as u64);
    }
}

#[test]
fn slot_of_register_knows_the_sixteen_saved_registers() {
    for (rd, slot) in SAVED.iter() {
        assert_eq!(slot_of_register(*rd), Some(*slot));
    }
    let saved: Vec<u8> = SAVED.iter().map(|(rd, _)| *rd).collect();
    for rd in 0..=255u8 {
        if !saved.contains(&rd) {
            assert_eq!(slot_of_register(rd), None);
        }
    }
}

#[test]
fn set_writes_one_slot_only() {
    for (position, (_, slot)) in SAVED.iter().enumerate() {
        let mut frame = numbered();
        frame.set(*slot, 0xDEAD_BEEF_0000_0001);
        let mut expected = values(&numbered());
        expected[position] = 0xDEAD_BEEF_0000_0001;
        assert_eq!(values(&frame), expected);
    }
}

#[test]
fn set_rd_stores_in_the_slot_of_the_register() {
    for (position, (rd, _)) in SAVED.iter().enumerate() {
        let mut frame = numbered();
        assert_eq!(set_rd(&mut frame, *rd, u64::MAX), Ok(()));
        let mut expected = values(&numbered());
        expected[position] = u64::MAX;
        assert_eq!(values(&frame), expected);
    }
}

#[test]
fn set_rd_stores_the_return_address() {
    let mut frame = TrapFrame::zeroed();
    assert_eq!(set_rd(&mut frame, 1, 0x8002_0000), Ok(()));
    assert_eq!(frame.ra, 0x8002_0000);
}

#[test]
fn set_rd_refuses_registers_that_are_not_saved() {
    for rd in [0u8, 2, 3, 4, 8, 9, 18, 19, 20, 21, 22, 23, 24, 25, 26, 27, 32, 200, 255] {
        let mut frame = numbered();
        assert_eq!(set_rd(&mut frame, rd, 7), Err(Fatal::InvalidDestination { rd }));
        assert_eq!(frame, numbered());
    }
}
