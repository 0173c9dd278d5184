use vstd::prelude::*;
use crate::cause::{classify, trap_cause, TrapCause};
use crate::emulate::{
    decode, decoded, instruction_word, legacy_root, paged_status, root_from_satp, status_with_paging,
    word_of, Emulated,
};
use crate::fatal::Fatal;
use crate::firmware::{Firmware, FirmwareView};
use crate::forward::{forward, forwarded};
use crate::frame::{saved_slot, slot_of_register, Slot, TrapFrame};
use crate::hart::Op;
use crate::sbi::{deliver, delivered, dispatch, dispatched, SbiCall, SbiRet};

verus! {

/// Width in bytes of every instruction that the firmware steps over.
pub const INSTRUCTION_BYTES: u64 = 4;

/// The program counter of the instruction after the one at `pc`.
pub open spec fn next_pc(pc: u64) -> u64 {
    if pc + INSTRUCTION_BYTES <= u64::MAX {
        (pc + INSTRUCTION_BYTES) as u64
    } else {
        (pc + INSTRUCTION_BYTES - 0x1_0000_0000_0000_0000) as u64
    }
}

/// The address two bytes after `pc`, where the upper half of the instruction
/// at `pc` lies.
pub open spec fn upper_half_at(pc: u64) -> u64 {
    if pc + 2 <= u64::MAX {
        (pc + 2) as u64
    } else {
        (pc + 2 - 0x1_0000_0000_0000_0000) as u64
    }
}

/// What the platform reports to the handler.
#[derive(Clone, Copy, Debug, PartialEq, Eq, Structural)]
pub enum Event {
    /// The hart has trapped. The four values are those of the registers of
    /// the same names, read on entry.
    Trap { mcause: u64, mepc: u64, mtval: u64, mip: u64 },
    /// The two halves of the instruction that were asked for.
    Instruction { low: u16, high: u16 },
    /// The machine time.
    Time { now: u64 },
    /// The page-table root configuration and the machine status.
    Paging { satp: u64, mstatus: u64 },
    /// The answer of the standard service table.
    Answer { error: u64, value: u64 },
}

/// Where the handling of a trap stands, and with it what the platform has to
/// do next.
#[derive(Clone, Copy, Debug, PartialEq, Eq, Structural)]
pub enum Stage {
    /// Nothing is pending. After a trap: return to the interrupted context.
    /// The next event is the next trap.
    Ready,
    /// Load the halfwords at the two addresses with the privilege of the
    /// interrupted context, and report them as `Event::Instruction`.
    Fetching { low_at: u64, high_at: u64 },
    /// Read the machine time and report it as `Event::Time`.
    Timing { mepc: u64, slot: Slot },
    /// Read `satp` and `mstatus` and report them as `Event::Paging`.
    Translating { mepc: u64 },
    /// Pass the request to the standard service table and report what it
    /// returns as `Event::Answer`.
    Calling { mepc: u64, call: SbiCall },
    /// Report the condition and park the hart. No event leads out of here.
    Halted(Fatal),
}

/// One step of the handler: where it stands afterwards, what is to be written
/// to the hart, and what became of the frame and of the firmware state.
pub struct Turn {
    pub stage: Stage,
    pub ops: Seq<Op>,
    pub frame: TrapFrame,
    pub firmware: FirmwareView,
}

/// The step taken when the hart traps.
pub open spec fn on_trap(
    mcause: u64,
    mepc: u64,
    mtval: u64,
    mip: u64,
    frame: TrapFrame,
    firmware: FirmwareView,
) -> Turn {
    match trap_cause(mcause) {
        TrapCause::SupervisorEnvCall => {
            let done = dispatched(frame, firmware, mip);
            match done.call {
                Some(call) => Turn {
                    stage: Stage::Calling { mepc, call },
                    ops: done.ops,
                    frame: done.frame,
                    firmware: done.firmware,
                },
                None => Turn {
                    stage: Stage::Ready,
                    ops: done.ops.push(Op::WriteMepc(next_pc(mepc))),
                    frame: done.frame,
                    firmware: done.firmware,
                },
            }
        },
        TrapCause::IllegalInstruction => Turn {
            stage: Stage::Fetching { low_at: mepc, high_at: upper_half_at(mepc) },
            ops: Seq::<Op>::empty(),
            frame,
            firmware,
        },
        TrapCause::Unhandled => Turn {
            stage: Stage::Halted(Fatal::UnhandledTrap { mcause, mepc, mtval }),
            ops: Seq::<Op>::empty(),
            frame,
            firmware,
        },
        interrupt => Turn { stage: Stage::Ready, ops: forwarded(interrupt), frame, firmware },
    }
}

/// The step taken when the instruction at `mepc` has been fetched.
pub open spec fn on_instruction(
    mepc: u64,
    low: u16,
    high: u16,
    frame: TrapFrame,
    firmware: FirmwareView,
) -> Turn {
    let stage = match decoded(word_of(low, high)) {
        Emulated::ReadTime { rd } => match saved_slot(rd) {
            Some(slot) => Stage::Timing { mepc, slot },
            None => Stage::Halted(Fatal::InvalidDestination { rd }),
        },
        Emulated::FlushTranslation => Stage::Translating { mepc },
        Emulated::Unknown => Stage::Halted(
            Fatal::InvalidInstruction { mepc, instruction: word_of(low, high) },
        ),
    };
    Turn { stage, ops: Seq::<Op>::empty(), frame, firmware }
}

/// The step that ends a time read: the time goes to the destination's slot,
/// and the program counter past the instruction.
pub open spec fn on_time(mepc: u64, slot: Slot, now: u64, frame: TrapFrame, firmware: FirmwareView) -> Turn {
    Turn {
        stage: Stage::Ready,
        ops: seq![Op::WriteMepc(next_pc(mepc))],
        frame: frame.with(slot, now),
        firmware,
    }
}

/// The step that ends a translation flush: the root goes to the legacy
/// register, paging is forced on, the cache is flushed by the legacy
/// instruction, and the program counter goes past the instruction.
pub open spec fn on_paging(
    mepc: u64,
    satp: u64,
    mstatus: u64,
    frame: TrapFrame,
    firmware: FirmwareView,
) -> Turn {
    Turn {
        stage: Stage::Ready,
        ops: seq![
            Op::WriteSptbr(legacy_root(satp)),
            Op::WriteMstatus(paged_status(mstatus)),
            Op::FlushTlb,
            Op::WriteMepc(next_pc(mepc)),
        ],
        frame,
        firmware,
    }
}

/// The step that ends a call to the standard service table: the answer goes
/// to the first two argument registers, and the program counter past the
/// call.
pub open spec fn on_answer(mepc: u64, ret: SbiRet, frame: TrapFrame, firmware: FirmwareView) -> Turn {
    Turn {
        stage: Stage::Ready,
        ops: seq![Op::WriteMepc(next_pc(mepc))],
        frame: delivered(frame, ret),
        firmware,
    }
}

/// The step that the handler takes at `stage` when `event` arrives.
///
/// Each stage waits for one kind of event. Once halted, the handler stays
/// halted whatever arrives. An event that the stage does not wait for halts
/// the handler as well, with the frame and the firmware state untouched.
pub open spec fn transition(stage: Stage, event: Event, frame: TrapFrame, firmware: FirmwareView) -> Turn {
    match (stage, event) {
        (Stage::Halted(fatal), _) => Turn {
            stage: Stage::Halted(fatal),
            ops: Seq::<Op>::empty(),
            frame,
            firmware,
        },
        (Stage::Ready, Event::Trap { mcause, mepc, mtval, mip }) => on_trap(
            mcause,
            mepc,
            mtval,
            mip,
            frame,
            firmware,
        ),
        (Stage::Fetching { low_at, high_at }, Event::Instruction { low, high }) => on_instruction(
            low_at,
            low,
            high,
            frame,
            firmware,
        ),
        (Stage::Timing { mepc, slot }, Event::Time { now }) => on_time(mepc, slot, now, frame, firmware),
        (Stage::Translating { mepc }, Event::Paging { satp, mstatus }) => on_paging(
            mepc,
            satp,
            mstatus,
            frame,
            firmware,
        ),
        (Stage::Calling { mepc, call }, Event::Answer { error, value }) => on_answer(
            mepc,
            SbiRet { error, value },
            frame,
            firmware,
        ),
        _ => Turn {
            stage: Stage::Halted(Fatal::UnexpectedEvent),
            ops: Seq::<Op>::empty(),
            frame,
            firmware,
        },
    }
}

/// Steps the program counter over one instruction.
pub fn advance(pc: u64) -> (next: u64)
    ensures
        next == next_pc(pc),
{
    pc.wrapping_add(INSTRUCTION_BYTES)
}

/// Handles a trap, one step at a time.
///
/// The platform calls this with `Stage::Ready` and `Event::Trap` when the
/// hart traps, performs the writes that come back, in order, and does what
/// the new stage asks for. While the stage asks for a value, it calls again
/// with that stage and the value. At `Stage::Ready` it returns to the
/// interrupted context; at `Stage::Halted` it never does.
pub fn step(stage: Stage, event: Event, frame: &mut TrapFrame, firmware: &mut Firmware) -> (next: (
    Stage,
    Vec<Op>,
))
    ensures
        next.0 == transition(stage, event, *old(frame), old(firmware)@).stage,
        next.1@ == transition(stage, event, *old(frame), old(firmware)@).ops,
        *final(frame) == transition(stage, event, *old(frame), old(firmware)@).frame,
        final(firmware)@ == transition(stage, event, *old(frame), old(firmware)@).firmware,
{
    match (stage, event) {
        (Stage::Halted(fatal), _) => (Stage::Halted(fatal), Vec::new()),
        (Stage::Ready, Event::Trap { mcause, mepc, mtval, mip }) => match classify(mcause) {
            TrapCause::SupervisorEnvCall => {
                let (mut ops, call) = dispatch(frame, firmware, mip);
                match call {
                    Some(call) => (Stage::Calling { mepc, call }, ops),
                    None => {
                        ops.push(Op::WriteMepc(advance(mepc)));
                        (Stage::Ready, ops)
                    },
                }
            },
            TrapCause::IllegalInstruction => (
                Stage::Fetching { low_at: mepc, high_at: mepc.wrapping_add(2) },
                Vec::new(),
            ),
            TrapCause::Unhandled => (
                Stage::Halted(Fatal::UnhandledTrap { mcause, mepc, mtval }),
                Vec::new(),
            ),
            interrupt => (Stage::Ready, forward(interrupt)),
        },
        (Stage::Fetching { low_at, high_at }, Event::Instruction { low, high }) => {
            let word = instruction_word(low, high);
            let stage = match decode(word) {
                Emulated::ReadTime { rd } => match slot_of_register(rd) {
                    Some(slot) => Stage::Timing { mepc: low_at, slot },
                    None => Stage::Halted(Fatal::InvalidDestination { rd }),
                },
                Emulated::FlushTranslation => Stage::Translating { mepc: low_at },
                Emulated::Unknown => Stage::Halted(
                    Fatal::InvalidInstruction { mepc: low_at, instruction: word },
                ),
            };
            (stage, Vec::new())
        },
        (Stage::Timing { mepc, slot }, Event::Time { now }) => {
            frame.set(slot, now);
            let mut ops: Vec<Op> = Vec::new();
            ops.push(Op::WriteMepc(advance(mepc)));
            assert(ops@ =~= seq![Op::WriteMepc(next_pc(mepc))]);
            (Stage::Ready, ops)
        },
        (Stage::Translating { mepc }, Event::Paging { satp, mstatus }) => {
            let mut ops: Vec<Op> = Vec::new();
            ops.push(Op::WriteSptbr(root_from_satp(satp)));
            ops.push(Op::WriteMstatus(status_with_paging(mstatus)));
            ops.push(Op::FlushTlb);
            ops.push(Op::WriteMepc(advance(mepc)));
            assert(ops@ =~= seq![
                Op::WriteSptbr(legacy_root(satp)),
                Op::WriteMstatus(paged_status(mstatus)),
                Op::FlushTlb,
                Op::WriteMepc(next_pc(mepc)),
            ]);
            (Stage::Ready, ops)
        },
        (Stage::Calling { mepc, call }, Event::Answer { error, value }) => {
            deliver(frame, SbiRet { error, value });
            let mut ops: Vec<Op> = Vec::new();
            ops.push(Op::WriteMepc(advance(mepc)));
            assert(ops@ =~= seq![Op::WriteMepc(next_pc(mepc))]);
            (Stage::Ready, ops)
        },
        _ => (Stage::Halted(Fatal::UnexpectedEvent), Vec::new()),
    }
}

} // verus!
