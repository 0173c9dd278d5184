use vstd::prelude::*;
use crate::fatal::Fatal;

verus! {

/// Number of registers that a trap saves.
pub const FRAME_SLOTS: usize = 16;

/// Size in bytes of one saved register.
pub const SLOT_BYTES: u64 = 8;

/// Size in bytes of a whole frame on the stack.
pub const FRAME_BYTES: u64 = 128;

/// One of the sixteen caller-saved registers that survive a trap: the return
/// address, seven temporaries and eight argument registers.
#[derive(Clone, Copy, Debug, PartialEq, Eq, Structural)]
pub enum Slot {
    Ra,
    T0,
    T1,
    T2,
    T3,
    T4,
    T5,
    T6,
    A0,
    A1,
    A2,
    A3,
    A4,
    A5,
    A6,
    A7,
}

impl Slot {
    /// Position of the register in the frame, which is the order in which the
    /// registers are stored on entry and loaded on exit.
    pub open spec fn index(self) -> int {
        match self {
            Slot::Ra => 0,
            Slot::T0 => 1,
            Slot::T1 => 2,
            Slot::T2 => 3,
            Slot::T3 => 4,
            Slot::T4 => 5,
            Slot::T5 => 6,
            Slot::T6 => 7,
            Slot::A0 => 8,
            Slot::A1 => 9,
            Slot::A2 => 10,
            Slot::A3 => 11,
            Slot::A4 => 12,
            Slot::A5 => 13,
            Slot::A6 => 14,
            Slot::A7 => 15,
        }
    }

    /// Architectural number of the register: `x1`, `x5`..`x7`, `x10`..`x17`
    /// and `x28`..`x31`.
    pub open spec fn register(self) -> int {
        match self {
            Slot::Ra => 1,
            Slot::T0 => 5,
            Slot::T1 => 6,
            Slot::T2 => 7,
            Slot::A0 => 10,
            Slot::A1 => 11,
            Slot::A2 => 12,
            Slot::A3 => 13,
            Slot::A4 => 14,
            Slot::A5 => 15,
            Slot::A6 => 16,
            Slot::A7 => 17,
            Slot::T3 => 28,
            Slot::T4 => 29,
            Slot::T5 => 30,
            Slot::T6 => 31,
        }
    }

    /// Byte offset of the slot from the frame's base address.
    pub fn offset(self) -> (bytes: u64)
        ensures
            bytes == self.index() * SLOT_BYTES,
            bytes + SLOT_BYTES <= FRAME_BYTES,
    {
        match self {
            Slot::Ra => 0,
            Slot::T0 => 8,
            Slot::T1 => 16,
            Slot::T2 => 24,
            Slot::T3 => 32,
            Slot::T4 => 40,
            Slot::T5 => 48,
            Slot::T6 => 56,
            Slot::A0 => 64,
            Slot::A1 => 72,
            Slot::A2 => 80,
            Slot::A3 => 88,
            Slot::A4 => 96,
            Slot::A5 => 104,
            Slot::A6 => 112,
            Slot::A7 => 120,
        }
    }
}

/// The slot that holds register `x<rd>`, if a trap saves that register.
pub open spec fn saved_slot(rd: u8) -> Option<Slot> {
    if rd == 1 {
        Some(Slot::Ra)
    } else if 5 <= rd <= 7 {
        Some(if rd == 5 { Slot::T0 } else if rd == 6 { Slot::T1 } else { Slot::T2 })
    } else if 10 <= rd <= 17 {
        Some(
            if rd == 10 {
                Slot::A0
            } else if rd == 11 {
                Slot::A1
            } else if rd == 12 {
                Slot::A2
            } else if rd == 13 {
                Slot::A3
            } else if rd == 14 {
                Slot::A4
            } else if rd == 15 {
                Slot::A5
            } else if rd == 16 {
                Slot::A6
            } else {
                Slot::A7
            },
        )
    } else if 28 <= rd <= 31 {
        Some(if rd == 28 { Slot::T3 } else if rd == 29 { Slot::T4 } else if rd == 30 { Slot::T5 } else { Slot::T6 })
    } else {
        None
    }
}

/// `saved_slot` is the inverse of `Slot::register`: a register number has a
/// slot exactly when some slot carries that number, and then it is that slot.
pub proof fn saved_slot_inverts_register(rd: u8, slot: Slot)
    ensures
        saved_slot(rd) == Some(slot) <==> slot.register() == rd,
        saved_slot(rd).is_none() <==> forall|s: Slot| s.register() != rd,
{
    if saved_slot(rd).is_some() {
        assert(saved_slot(rd).unwrap().register() == rd);
    }
}

/// Exactly sixteen register numbers are saved, and no two share a slot.
pub proof fn slots_are_distinct(a: Slot, b: Slot)
    ensures
        0 <= a.index() < FRAME_SLOTS,
        a.index() == b.index() <==> a == b,
        a.register() == b.register() <==> a == b,
{
}

/// Finds the slot of register `x<rd>`.
pub fn slot_of_register(rd: u8) -> (slot: Option<Slot>)
    ensures
        slot == saved_slot(rd),
{
    match rd {
        1 => Some(Slot::Ra),
        5 => Some(Slot::T0),
        6 => Some(Slot::T1),
        7 => Some(Slot::T2),
        10 => Some(Slot::A0),
        11 => Some(Slot::A1),
        12 => Some(Slot::A2),
        13 => Some(Slot::A3),
        14 => Some(Slot::A4),
        15 => Some(Slot::A5),
        16 => Some(Slot::A6),
        17 => Some(Slot::A7),
        28 => Some(Slot::T3),
        29 => Some(Slot::T4),
        30 => Some(Slot::T5),
        31 => Some(Slot::T6),
        _ => None,
    }
}

/// The registers saved across a trap, in the order in which they lie on the
/// stack. Whoever holds the frame may read and overwrite any slot; what it
/// leaves there is what the interrupted context finds in its registers.
#[derive(Clone, Copy, Debug, PartialEq, Eq, Structural)]
pub struct TrapFrame {
    pub ra: u64,
    pub t0: u64,
    pub t1: u64,
    pub t2: u64,
    pub t3: u64,
    pub t4: u64,
    pub t5: u64,
    pub t6: u64,
    pub a0: u64,
    pub a1: u64,
    pub a2: u64,
    pub a3: u64,
    pub a4: u64,
    pub a5: u64,
    pub a6: u64,
    pub a7: u64,
}

impl View for TrapFrame {
    type V = Seq<u64>;

    /// The sixteen values by position.
    open spec fn view(&self) -> Seq<u64> {
        seq![
            self.ra,
            self.t0,
            self.t1,
            self.t2,
            self.t3,
            self.t4,
            self.t5,
            self.t6,
            self.a0,
            self.a1,
            self.a2,
            self.a3,
            self.a4,
            self.a5,
            self.a6,
            self.a7,
        ]
    }
}

impl TrapFrame {
    /// The frame that differs from `self` in `slot` alone, which holds `value`.
    pub open spec fn with(self, slot: Slot, value: u64) -> TrapFrame {
        match slot {
            Slot::Ra => TrapFrame { ra: value, ..self },
            Slot::T0 => TrapFrame { t0: value, ..self },
            Slot::T1 => TrapFrame { t1: value, ..self },
            Slot::T2 => TrapFrame { t2: value, ..self },
            Slot::T3 => TrapFrame { t3: value, ..self },
            Slot::T4 => TrapFrame { t4: value, ..self },
            Slot::T5 => TrapFrame { t5: value, ..self },
            Slot::T6 => TrapFrame { t6: value, ..self },
            Slot::A0 => TrapFrame { a0: value, ..self },
            Slot::A1 => TrapFrame { a1: value, ..self },
            Slot::A2 => TrapFrame { a2: value, ..self },
            Slot::A3 => TrapFrame { a3: value, ..self },
            Slot::A4 => TrapFrame { a4: value, ..self },
            Slot::A5 => TrapFrame { a5: value, ..self },
            Slot::A6 => TrapFrame { a6: value, ..self },
            Slot::A7 => TrapFrame { a7: value, ..self },
        }
    }

    /// Two frames with the same sixteen values are the same frame.
    pub proof fn view_is_injective(self, other: TrapFrame)
        ensures
            self@ == other@ <==> self == other,
            self@.len() == FRAME_SLOTS,
    {
        if self@ == other@ {
            assert(self@[0] == other@[0]);
            assert(self@[1] == other@[1]);
            assert(self@[2] == other@[2]);
            assert(self@[3] == other@[3]);
            assert(self@[4] == other@[4]);
            assert(self@[5] == other@[5]);
            assert(self@[6] == other@[6]);
            assert(self@[7] == other@[7]);
            assert(self@[8] == other@[8]);
            assert(self@[9] == other@[9]);
            assert(self@[10] == other@[10]);
            assert(self@[11] == other@[11]);
            assert(self@[12] == other@[12]);
            assert(self@[13] == other@[13]);
            assert(self@[14] == other@[14]);
            assert(self@[15] == other@[15]);
        }
    }

    /// Writing a slot changes the value at the slot's position and no other.
    pub proof fn with_updates_view(self, slot: Slot, value: u64)
        ensures
            self.with(slot, value)@ == self@.update(slot.index(), value),
    {
        assert(self.with(slot, value)@ =~= self@.update(slot.index(), value));
    }

    /// A frame with every slot zero.
    pub fn zeroed() -> (frame: TrapFrame)
        ensures
            forall|slot: Slot| #[trigger] frame@[slot.index()] == 0,
    {
        TrapFrame {
            ra: 0,
            t0: 0,
            t1: 0,
            t2: 0,
            t3: 0,
            t4: 0,
            t5: 0,
            t6: 0,
            a0: 0,
            a1: 0,
            a2: 0,
            a3: 0,
            a4: 0,
            a5: 0,
            a6: 0,
            a7: 0,
        }
    }

    /// Reads one slot.
    pub fn get(&self, slot: Slot) -> (value: u64)
        ensures
            value == self@[slot.index()],
    {
        match slot {
            Slot::Ra => self.ra,
            Slot::T0 => self.t0,
            Slot::T1 => self.t1,
            Slot::T2 => self.t2,
            Slot::T3 => self.t3,
            Slot::T4 => self.t4,
            Slot::T5 => self.t5,
            Slot::T6 => self.t6,
            Slot::A0 => self.a0,
            Slot::A1 => self.a1,
            Slot::A2 => self.a2,
            Slot::A3 => self.a3,
            Slot::A4 => self.a4,
            Slot::A5 => self.a5,
            Slot::A6 => self.a6,
            Slot::A7 => self.a7,
        }
    }

    /// Overwrites one slot and leaves the other fifteen as they were.
    pub fn set(&mut self, slot: Slot, value: u64)
        ensures
            *final(self) == old(self).with(slot, value),
            final(self)@ == old(self)@.update(slot.index(), value),
    {
        proof {
            self.with_updates_view(slot, value);
        }
        match slot {
            Slot::Ra => self.ra = value,
            Slot::T0 => self.t0 = value,
            Slot::T1 => self.t1 = value,
            Slot::T2 => self.t2 = value,
            Slot::T3 => self.t3 = value,
            Slot::T4 => self.t4 = value,
            Slot::T5 => self.t5 = value,
            Slot::T6 => self.t6 = value,
            Slot::A0 => self.a0 = value,
            Slot::A1 => self.a1 = value,
            Slot::A2 => self.a2 = value,
            Slot::A3 => self.a3 = value,
            Slot::A4 => self.a4 = value,
            Slot::A5 => self.a5 = value,
            Slot::A6 => self.a6 = value,
            Slot::A7 => self.a7 = value,
        }
    }
}

/// Stores `value` in the slot of destination register `x<rd>`.
///
/// Succeeds exactly for the sixteen saved registers. Any other destination
/// cannot be served, since the register is not in the frame: the frame is
/// left untouched and the error names the register.
pub fn set_rd(trap_frame: &mut TrapFrame, rd: u8, value: u64) -> (stored: Result<(), Fatal>)
    ensures
        match saved_slot(rd) {
            Some(slot) => stored == Ok::<(), Fatal>(()) && final(trap_frame)@ == old(trap_frame)@.update(
                slot.index(),
                value,
            ) && *final(trap_frame) == old(trap_frame).with(slot, value),
            None => stored == Err::<(), Fatal>(Fatal::InvalidDestination { rd }) && *final(trap_frame)
                == *old(trap_frame),
        },
{
    match slot_of_register(rd) {
        Some(slot) => {
            trap_frame.set(slot, value);
            Ok(())
        },
        None => Err(Fatal::InvalidDestination { rd }),
    }
}

} // verus!
