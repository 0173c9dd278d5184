use vstd::prelude::*;
use std::collections::HashMap;
use crate::frame::{Slot, TrapFrame, FRAME_BYTES, SLOT_BYTES};

verus! {

broadcast use vstd::std_specs::hash::group_hash_axioms;

/// The stack pointer after a frame was allocated below `sp`.
pub open spec fn lowered(sp: u64) -> u64 {
    if sp >= FRAME_BYTES {
        (sp - FRAME_BYTES) as u64
    } else {
        (sp + 0x1_0000_0000_0000_0000 - FRAME_BYTES) as u64
    }
}

/// The stack pointer after the frame at `sp` was released.
pub open spec fn raised(sp: u64) -> u64 {
    if sp + FRAME_BYTES <= u64::MAX {
        (sp + FRAME_BYTES) as u64
    } else {
        (sp + FRAME_BYTES - 0x1_0000_0000_0000_0000) as u64
    }
}

/// How far `address` lies above `at`, going round the end of the address
/// space if need be.
pub open spec fn distance(at: u64, address: u64) -> int {
    if address >= at {
        address - at
    } else {
        address + 0x1_0000_0000_0000_0000 - at
    }
}

/// Whether `address` is that of a slot of the frame at `at`.
pub open spec fn in_frame(at: u64, address: u64) -> bool {
    distance(at, address) < FRAME_BYTES && distance(at, address) % (SLOT_BYTES as int) == 0
}

/// The address of a slot of the frame at `at`.
pub open spec fn slot_address(at: u64, slot: Slot) -> u64 {
    if at + slot.index() * SLOT_BYTES <= u64::MAX {
        (at + slot.index() * SLOT_BYTES) as u64
    } else {
        (at + slot.index() * SLOT_BYTES - 0x1_0000_0000_0000_0000) as u64
    }
}

/// What a load from `address` finds. Memory that was never written reads zero.
pub open spec fn read(memory: Map<u64, u64>, address: u64) -> u64 {
    if memory.contains_key(address) {
        memory[address]
    } else {
        0
    }
}

/// Memory after `frame` was stored at `at`: the sixteen slots lie there in
/// the order of the frame, and every other address is as it was.
pub open spec fn stored(memory: Map<u64, u64>, at: u64, frame: TrapFrame) -> Map<u64, u64> {
    Map::new(
        |address: u64| memory.contains_key(address) || in_frame(at, address),
        |address: u64|
            if in_frame(at, address) {
                frame@[distance(at, address) / (SLOT_BYTES as int)]
            } else {
                memory[address]
            },
    )
}

/// The frame that lies in memory at `at`.
pub open spec fn loaded(memory: Map<u64, u64>, at: u64) -> TrapFrame {
    TrapFrame {
        ra: read(memory, slot_address(at, Slot::Ra)),
        t0: read(memory, slot_address(at, Slot::T0)),
        t1: read(memory, slot_address(at, Slot::T1)),
        t2: read(memory, slot_address(at, Slot::T2)),
        t3: read(memory, slot_address(at, Slot::T3)),
        t4: read(memory, slot_address(at, Slot::T4)),
        t5: read(memory, slot_address(at, Slot::T5)),
        t6: read(memory, slot_address(at, Slot::T6)),
        a0: read(memory, slot_address(at, Slot::A0)),
        a1: read(memory, slot_address(at, Slot::A1)),
        a2: read(memory, slot_address(at, Slot::A2)),
        a3: read(memory, slot_address(at, Slot::A3)),
        a4: read(memory, slot_address(at, Slot::A4)),
        a5: read(memory, slot_address(at, Slot::A5)),
        a6: read(memory, slot_address(at, Slot::A6)),
        a7: read(memory, slot_address(at, Slot::A7)),
    }
}

/// The part of a hart that trap entry and trap exit work on: the stack
/// pointer, the sentinel slot and the memory that holds the stacks.
///
/// `mscratch` is the sentinel slot. While the firmware itself runs it is
/// zero. While a lower privilege level runs it holds the stack pointer of the
/// firmware, which is never zero. That is how an entry tells the two apart.
#[derive(Debug)]
pub struct Sequencer {
    pub sp: u64,
    pub mscratch: u64,
    /// One entry for each trap that is being handled, the outermost first:
    /// the stack pointer of the lower-privilege context that the trap
    /// interrupted, or nothing if it interrupted the firmware.
    pub interrupted: Vec<Option<u64>>,
    /// Memory by address, one doubleword at each address that was written.
    pub memory: HashMap<u64, u64>,
}

/// What the sequencer holds, as plain values.
pub struct SequencerView {
    pub sp: u64,
    pub mscratch: u64,
    pub interrupted: Seq<Option<u64>>,
    pub memory: Map<u64, u64>,
}

impl View for Sequencer {
    type V = SequencerView;

    open spec fn view(&self) -> SequencerView {
        SequencerView {
            sp: self.sp,
            mscratch: self.mscratch,
            interrupted: self.interrupted@,
            memory: self.memory@,
        }
    }
}

impl SequencerView {
    /// Whether the firmware itself is running.
    pub open spec fn top_level_active(self) -> bool {
        self.mscratch == 0
    }

    /// Number of traps that are being handled.
    pub open spec fn depth(self) -> nat {
        self.interrupted.len()
    }

    /// The state after a trap was entered with `registers` live.
    ///
    /// The stack pointer and the sentinel are exchanged. If a stack pointer
    /// came out of the sentinel, a lower level was interrupted: the frame
    /// goes on the firmware's stack and the interrupted stack pointer is kept
    /// for the exit. If zero came out, the firmware was interrupted: the
    /// frame goes on the stack that was in use. Either way the sentinel is
    /// zero from here on, a frame is allocated below the stack pointer, and
    /// the sixteen registers are stored in it.
    pub open spec fn entered(self, registers: TrapFrame) -> SequencerView {
        if self.mscratch != 0 {
            SequencerView {
                sp: lowered(self.mscratch),
                mscratch: 0,
                interrupted: self.interrupted.push(Some(self.sp)),
                memory: stored(self.memory, lowered(self.mscratch), registers),
            }
        } else {
            SequencerView {
                sp: lowered(self.sp),
                mscratch: 0,
                interrupted: self.interrupted.push(None),
                memory: stored(self.memory, lowered(self.sp), registers),
            }
        }
    }

    /// The state after the innermost trap was left: the frame is released and
    /// the exchange of the entry is undone. Memory keeps what it held.
    pub open spec fn left(self) -> SequencerView {
        match self.interrupted.last() {
            Some(lower) => SequencerView {
                sp: lower,
                mscratch: raised(self.sp),
                interrupted: self.interrupted.drop_last(),
                ..self
            },
            None => SequencerView { sp: raised(self.sp), interrupted: self.interrupted.drop_last(), ..self },
        }
    }

    /// The state after the handler has written `frame` back over the frame
    /// of the innermost trap.
    pub open spec fn handled(self, frame: TrapFrame) -> SequencerView {
        SequencerView { memory: stored(self.memory, self.sp, frame), ..self }
    }
}

/// The sixteen slots of a frame are the sixteen addresses eight bytes apart
/// from its base, each slot at the place of its index.
pub proof fn frame_layout(at: u64, slot: Slot)
    ensures
        in_frame(at, slot_address(at, slot)),
        distance(at, slot_address(at, slot)) == slot.index() * SLOT_BYTES,
        forall|address: u64|
            in_frame(at, address) <==> exists|other: Slot| address == #[trigger] slot_address(at, other),
{
    assert forall|address: u64| in_frame(at, address) implies exists|other: Slot|
        address == #[trigger] slot_address(at, other) by {
        let d = distance(at, address);
        let other = if d == 0 {
            Slot::Ra
        } else if d == 8 {
            Slot::T0
        } else if d == 16 {
            Slot::T1
        } else if d == 24 {
            Slot::T2
        } else if d == 32 {
            Slot::T3
        } else if d == 40 {
            Slot::T4
        } else if d == 48 {
            Slot::T5
        } else if d == 56 {
            Slot::T6
        } else if d == 64 {
            Slot::A0
        } else if d == 72 {
            Slot::A1
        } else if d == 80 {
            Slot::A2
        } else if d == 88 {
            Slot::A3
        } else if d == 96 {
            Slot::A4
        } else if d == 104 {
            Slot::A5
        } else if d == 112 {
            Slot::A6
        } else {
            Slot::A7
        };
        assert(address == slot_address(at, other));
    }
    assert forall|address: u64|
        (exists|other: Slot| address == #[trigger] slot_address(at, other)) implies in_frame(
        at,
        address,
    ) by {
        let other = choose|other: Slot| address == #[trigger] slot_address(at, other);
        assert(distance(at, slot_address(at, other)) == other.index() * SLOT_BYTES);
    }
}

/// Memory after the sixteen slots of `frame` were written one after the
/// other, first to last.
pub open spec fn slot_by_slot(memory: Map<u64, u64>, at: u64, frame: TrapFrame) -> Map<u64, u64> {
    memory.insert(slot_address(at, Slot::Ra), frame.ra).insert(
        slot_address(at, Slot::T0),
        frame.t0,
    ).insert(slot_address(at, Slot::T1), frame.t1).insert(slot_address(at, Slot::T2), frame.t2).insert(
        slot_address(at, Slot::T3),
        frame.t3,
    ).insert(slot_address(at, Slot::T4), frame.t4).insert(slot_address(at, Slot::T5), frame.t5).insert(
        slot_address(at, Slot::T6),
        frame.t6,
    ).insert(slot_address(at, Slot::A0), frame.a0).insert(slot_address(at, Slot::A1), frame.a1).insert(
        slot_address(at, Slot::A2),
        frame.a2,
    ).insert(slot_address(at, Slot::A3), frame.a3).insert(slot_address(at, Slot::A4), frame.a4).insert(
        slot_address(at, Slot::A5),
        frame.a5,
    ).insert(slot_address(at, Slot::A6), frame.a6).insert(slot_address(at, Slot::A7), frame.a7)
}

/// Writing the slots one after the other stores the frame.
pub proof fn slot_by_slot_is_stored(memory: Map<u64, u64>, at: u64, frame: TrapFrame)
    ensures
        slot_by_slot(memory, at, frame) == stored(memory, at, frame),
{
    let chain = slot_by_slot(memory, at, frame);
    let whole = stored(memory, at, frame);
    assert forall|address: u64| chain.contains_key(address) == whole.contains_key(address) && (
    chain.contains_key(address) ==> chain[address] == whole[address]) by {
        frame_layout(at, Slot::Ra);
    }
    assert(chain =~= whole);
}

/// A frame that was stored is the frame that a load finds.
pub proof fn load_finds_what_was_stored(memory: Map<u64, u64>, at: u64, frame: TrapFrame)
    ensures
        loaded(stored(memory, at, frame), at) == frame,
{
}

/// Storing a frame changes no address outside the frame.
pub proof fn store_stays_in_the_frame(memory: Map<u64, u64>, at: u64, frame: TrapFrame, address: u64)
    requires
        !in_frame(at, address),
    ensures
        read(stored(memory, at, frame), address) == read(memory, address),
        stored(memory, at, frame).contains_key(address) == memory.contains_key(address),
{
}

/// The frame of a trap and the frame of a trap taken while it is handled
/// share no address, so neither store can reach the other frame.
pub proof fn nested_frames_are_apart(at: u64, address: u64)
    ensures
        !(in_frame(at, address) && in_frame(lowered(at), address)),
        raised(lowered(at)) == at,
{
}

/// Storing to the frame of a nested trap leaves the outer frame as it lies.
pub proof fn nested_store_spares_the_outer_frame(memory: Map<u64, u64>, at: u64, inner: TrapFrame)
    ensures
        loaded(stored(memory, lowered(at), inner), at) == loaded(memory, at),
{
    assert forall|slot: Slot|
        read(stored(memory, lowered(at), inner), #[trigger] slot_address(at, slot)) == read(
            memory,
            slot_address(at, slot),
        ) by {
        frame_layout(at, slot);
        nested_frames_are_apart(at, slot_address(at, slot));
    }
}

impl Sequencer {
    /// The sequencer of a hart that runs the firmware on the stack at `sp`,
    /// with no trap taken yet and nothing in memory.
    pub fn new(sp: u64) -> (sequencer: Sequencer)
        ensures
            sequencer@ == (SequencerView {
                sp,
                mscratch: 0,
                interrupted: Seq::<Option<u64>>::empty(),
                memory: Map::<u64, u64>::empty(),
            }),
    {
        Sequencer { sp, mscratch: 0, interrupted: Vec::new(), memory: HashMap::new() }
    }

    /// Loads one doubleword.
    pub fn peek(&self, address: u64) -> (value: u64)
        ensures
            value == read(self@.memory, address),
    {
        match self.memory.get(&address) {
            Some(value) => *value,
            None => 0,
        }
    }

    /// Stores one doubleword.
    pub fn poke(&mut self, address: u64, value: u64)
        ensures
            final(self)@ == (SequencerView { memory: old(self)@.memory.insert(address, value), ..old(self)@ }),
    {
        self.memory.insert(address, value);
    }

    /// Stores `frame` at `at`, slot by slot in the order of the frame.
    pub fn store(&mut self, at: u64, frame: &TrapFrame)
        ensures
            final(self)@ == (SequencerView { memory: stored(old(self)@.memory, at, *frame), ..old(self)@ }),
    {
        self.poke(at, frame.ra);
        self.poke(at.wrapping_add(8), frame.t0);
        self.poke(at.wrapping_add(16), frame.t1);
        self.poke(at.wrapping_add(24), frame.t2);
        self.poke(at.wrapping_add(32), frame.t3);
        self.poke(at.wrapping_add(40), frame.t4);
        self.poke(at.wrapping_add(48), frame.t5);
        self.poke(at.wrapping_add(56), frame.t6);
        self.poke(at.wrapping_add(64), frame.a0);
        self.poke(at.wrapping_add(72), frame.a1);
        self.poke(at.wrapping_add(80), frame.a2);
        self.poke(at.wrapping_add(88), frame.a3);
        self.poke(at.wrapping_add(96), frame.a4);
        self.poke(at.wrapping_add(104), frame.a5);
        self.poke(at.wrapping_add(112), frame.a6);
        self.poke(at.wrapping_add(120), frame.a7);
        proof {
            slot_by_slot_is_stored(old(self)@.memory, at, *frame);
        }
    }

    /// Loads the frame at `at`.
    pub fn load(&self, at: u64) -> (frame: TrapFrame)
        ensures
            frame == loaded(self@.memory, at),
    {
        TrapFrame {
            ra: self.peek(at),
            t0: self.peek(at.wrapping_add(8)),
            t1: self.peek(at.wrapping_add(16)),
            t2: self.peek(at.wrapping_add(24)),
            t3: self.peek(at.wrapping_add(32)),
            t4: self.peek(at.wrapping_add(40)),
            t5: self.peek(at.wrapping_add(48)),
            t6: self.peek(at.wrapping_add(56)),
            a0: self.peek(at.wrapping_add(64)),
            a1: self.peek(at.wrapping_add(72)),
            a2: self.peek(at.wrapping_add(80)),
            a3: self.peek(at.wrapping_add(88)),
            a4: self.peek(at.wrapping_add(96)),
            a5: self.peek(at.wrapping_add(104)),
            a6: self.peek(at.wrapping_add(112)),
            a7: self.peek(at.wrapping_add(120)),
        }
    }

    /// Enters a trap: picks the stack, allocates the frame and stores the
    /// sixteen registers in it. Returns the address of the frame, which is
    /// what the handler is given.
    pub fn enter(&mut self, registers: &TrapFrame) -> (at: u64)
        ensures
            final(self)@ == old(self)@.entered(*registers),
            at == final(self)@.sp,
    {
        if self.mscratch != 0 {
            let lower = self.sp;
            self.sp = self.mscratch.wrapping_sub(FRAME_BYTES);
            self.mscratch = 0;
            self.interrupted.push(Some(lower));
        } else {
            self.sp = self.sp.wrapping_sub(FRAME_BYTES);
            self.interrupted.push(None);
        }
        let at = self.sp;
        self.store(at, registers);
        at
    }

    /// Leaves the innermost trap: loads the sixteen registers from the frame,
    /// releases it and gives the stack back.
    pub fn leave(&mut self) -> (registers: TrapFrame)
        requires
            old(self)@.depth() > 0,
        ensures
            registers == loaded(old(self)@.memory, old(self)@.sp),
            final(self)@ == old(self)@.left(),
    {
        let registers = self.load(self.sp);
        let released = self.sp.wrapping_add(FRAME_BYTES);
        match self.interrupted.pop() {
            Some(Some(lower)) => {
                self.sp = lower;
                self.mscratch = released;
            },
            _ => {
                self.sp = released;
            },
        }
        registers
    }
}

/// Leaving undoes entering. After a trap was entered and left again, the
/// registers hold what the handler left in the frame, the stack pointer, the
/// sentinel and the traps in progress are as before the entry, and while the
/// trap was handled the sentinel was zero. A handler that leaves the frame
/// alone gives back the registers bit for bit.
pub proof fn leave_undoes_enter(state: SequencerView, registers: TrapFrame, frame: TrapFrame)
    ensures
        state.entered(registers).top_level_active(),
        state.entered(registers).depth() == state.depth() + 1,
        loaded(state.entered(registers).memory, state.entered(registers).sp) == registers,
        loaded(state.entered(registers).handled(frame).memory, state.entered(registers).sp) == frame,
        state.entered(registers).handled(frame).left() == (SequencerView {
            memory: state.entered(registers).handled(frame).memory,
            ..state
        }),
        forall|address: u64|
            !in_frame(state.entered(registers).sp, address) ==> #[trigger] read(
                state.entered(registers).handled(frame).memory,
                address,
            ) == read(state.memory, address),
{
    let inside = state.entered(registers);
    load_finds_what_was_stored(state.memory, inside.sp, registers);
    load_finds_what_was_stored(inside.memory, inside.sp, frame);
    if state.mscratch != 0 {
        assert(inside.interrupted.last() == Some(state.sp));
        assert(inside.interrupted.drop_last() =~= state.interrupted);
        assert(raised(lowered(state.mscratch)) == state.mscratch);
    } else {
        assert(inside.interrupted.last() == None::<u64>);
        assert(inside.interrupted.drop_last() =~= state.interrupted);
        assert(raised(lowered(state.sp)) == state.sp);
    }
}

/// A trap taken while a trap is being handled is sequenced like any other.
/// It finds the sentinel zero and leaves it zero, its frame lies below the
/// outer frame and shares no address with it, and when it is left the outer
/// handler finds its own frame, the stack pointer and the sentinel as they
/// were before the inner trap.
pub proof fn nested_trap_restores_outer(
    state: SequencerView,
    outer: TrapFrame,
    live: TrapFrame,
    inner: TrapFrame,
)
    ensures
        ({
            let first = state.entered(outer);
            let second = first.entered(live);
            let back = second.handled(inner).left();
            &&& first.mscratch == 0 && second.mscratch == 0 && back.mscratch == 0
            &&& second.sp == lowered(first.sp)
            &&& second.interrupted.last() == None::<u64>
            &&& loaded(second.handled(inner).memory, second.sp) == inner
            &&& back.sp == first.sp
            &&& back.interrupted == first.interrupted
            &&& loaded(back.memory, back.sp) == outer
            &&& back.left() == (SequencerView { memory: back.memory, ..state })
        }),
{
    let first = state.entered(outer);
    let second = first.entered(live);
    let back = second.handled(inner).left();
    leave_undoes_enter(state, outer, outer);
    leave_undoes_enter(first, live, inner);
    load_finds_what_was_stored(state.memory, first.sp, outer);
    nested_store_spares_the_outer_frame(first.memory, first.sp, live);
    nested_store_spares_the_outer_frame(second.memory, first.sp, inner);
    assert(first.interrupted.drop_last() =~= state.interrupted);
    assert(raised(lowered(first.sp)) == first.sp);
}

} // verus!
