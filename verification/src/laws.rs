//! What holds of the trap handler as a whole, proved from the definitions of
//! its steps.

use vstd::prelude::*;
use crate::cause::{trap_cause, TrapCause};
use crate::emulate::{decoded, word_of, Emulated};
use crate::fatal::Fatal;
use crate::firmware::FirmwareView;
use crate::forward::{after_forward, forward_effect, forwarded};
use crate::frame::{saved_slot, Slot, TrapFrame};
use crate::hart::{Hart, Op, MACHINE_EXTERNAL, MACHINE_SOFT, MACHINE_TIMER, SUPERVISOR_SOFT};
use crate::sbi::{low_byte, routed, Route, NO_DATA};
use crate::sequencer::{leave_undoes_enter, loaded, SequencerView};
use crate::trap::{next_pc, transition, upper_half_at, Event, Stage, Turn};

verus! {

/// What the platform will answer when the handler asks.
pub struct Answers {
    /// The halfword at the faulting program counter.
    pub low: u16,
    /// The halfword two bytes further on.
    pub high: u16,
    /// The machine time.
    pub now: u64,
    pub satp: u64,
    pub mstatus: u64,
    /// The error code of the standard service table.
    pub error: u64,
    /// The return value of the standard service table.
    pub value: u64,
}

impl Answers {
    /// The event with which the platform answers a stage.
    pub open spec fn to(self, stage: Stage) -> Event {
        match stage {
            Stage::Timing { .. } => Event::Time { now: self.now },
            Stage::Translating { .. } => Event::Paging { satp: self.satp, mstatus: self.mstatus },
            Stage::Calling { .. } => Event::Answer { error: self.error, value: self.value },
            _ => Event::Instruction { low: self.low, high: self.high },
        }
    }
}

/// Whether a stage asks for nothing more: the trap is over, one way or the
/// other.
pub open spec fn settled(stage: Stage) -> bool {
    stage == Stage::Ready || stage is Halted
}

/// The handling of one trap from entry to the end: the steps that the
/// handler takes when the platform answers with `answers`, with their writes
/// in the order in which they are handed out.
pub open spec fn handled(trap: Event, answers: Answers, frame: TrapFrame, firmware: FirmwareView) -> Turn {
    let first = transition(Stage::Ready, trap, frame, firmware);
    if settled(first.stage) {
        first
    } else {
        let second = transition(first.stage, answers.to(first.stage), first.frame, first.firmware);
        if settled(second.stage) {
            Turn { ops: first.ops + second.ops, ..second }
        } else {
            let third = transition(second.stage, answers.to(second.stage), second.frame, second.firmware);
            Turn { ops: first.ops + second.ops + third.ops, ..third }
        }
    }
}

/// Every trap is over after three steps at most: the handler never waits
/// for the platform a third time.
pub proof fn every_trap_settles(trap: Event, answers: Answers, frame: TrapFrame, firmware: FirmwareView)
    requires
        trap is Trap,
    ensures
        settled(handled(trap, answers, frame, firmware).stage),
{
}

/// The slots that the handling of a trap may write: the first two argument
/// registers on a supervisor call (the second one not on a console read, and
/// neither on a console write), the decoded destination on a time read, and
/// none on anything else.
pub open spec fn may_write(trap: Event, answers: Answers, frame: TrapFrame, slot: Slot) -> bool {
    match trap {
        Event::Trap { mcause, .. } => match trap_cause(mcause) {
            TrapCause::SupervisorEnvCall => match routed(frame.a7, frame.a6) {
                Route::ConsolePut => false,
                Route::ConsoleGet => slot == Slot::A0,
                _ => slot == Slot::A0 || slot == Slot::A1,
            },
            TrapCause::IllegalInstruction => match decoded(word_of(answers.low, answers.high)) {
                Emulated::ReadTime { rd } => saved_slot(rd) == Some(slot),
                _ => false,
            },
            _ => false,
        },
        _ => false,
    }
}

/// Whatever the trap and whatever the platform answers, every saved
/// register that the handling may not write holds at the end what it held on
/// entry.
pub proof fn registers_survive(
    trap: Event,
    answers: Answers,
    frame: TrapFrame,
    firmware: FirmwareView,
    slot: Slot,
)
    requires
        !may_write(trap, answers, frame, slot),
    ensures
        handled(trap, answers, frame, firmware).frame@[slot.index()] == frame@[slot.index()],
{
}

/// From the entry of a trap to its exit: the registers are stored, the
/// handler works on the frame, and the registers are loaded from what it
/// left. Every saved register that the handling may not write is after the
/// exit, bit for bit, what it was before the entry, and the stack pointer,
/// the sentinel and the traps in progress are as before.
pub proof fn traps_preserve_registers(
    state: SequencerView,
    registers: TrapFrame,
    trap: Event,
    answers: Answers,
    firmware: FirmwareView,
    slot: Slot,
)
    requires
        !may_write(trap, answers, registers, slot),
    ensures
        ({
            let inside = state.entered(registers);
            let frame = loaded(inside.memory, inside.sp);
            let done = handled(trap, answers, frame, firmware);
            let back = inside.handled(done.frame);
            &&& frame == registers
            &&& loaded(back.memory, back.sp)@[slot.index()] == registers@[slot.index()]
            &&& back.left().sp == state.sp
            &&& back.left().mscratch == state.mscratch
            &&& back.left().interrupted == state.interrupted
        }),
{
    let done = handled(trap, answers, registers, firmware);
    leave_undoes_enter(state, registers, done.frame);
    registers_survive(trap, answers, registers, firmware, slot);
}

/// A single step never writes a register but in these three places: on a
/// supervisor call, when the time arrives, and when the standard table has
/// answered.
pub proof fn steps_keep_the_frame(stage: Stage, event: Event, frame: TrapFrame, firmware: FirmwareView)
    ensures
        transition(stage, event, frame, firmware).frame != frame ==> {
            ||| stage == Stage::Ready && event is Trap
            ||| stage is Timing && event is Time
            ||| stage is Calling && event is Answer
        },
{
}

/// Passing the machine software interrupt on, arming interrupts again and
/// passing it on once more: each time the supervisor's software interrupt
/// is the one bit raised and the machine software enable the one bit
/// cleared, and from the first cycle on the hart does not move any more.
pub proof fn forwarding_does_not_drift(
    hart: Hart,
    frame: TrapFrame,
    firmware: FirmwareView,
    interrupt: Event,
    call: Event,
)
    requires
        interrupt matches Event::Trap { mcause, .. } && trap_cause(mcause) == TrapCause::MachineSoft,
        call matches Event::Trap { mcause, .. } && trap_cause(mcause) == TrapCause::SupervisorEnvCall,
        routed(frame.a7, frame.a6) == Route::RearmInterrupts,
    ensures
        ({
            let first = transition(Stage::Ready, interrupt, frame, firmware);
            let rearm = transition(Stage::Ready, call, first.frame, first.firmware);
            let second = transition(Stage::Ready, interrupt, rearm.frame, rearm.firmware);
            let once = hart.run(first.ops);
            let armed = once.run(rearm.ops);
            let twice = armed.run(second.ops);
            &&& first.stage == Stage::Ready && rearm.stage == Stage::Ready && second.stage == Stage::Ready
            &&& first.frame == frame && first.firmware == firmware
            &&& once == (Hart { mip: hart.mip | SUPERVISOR_SOFT, mie: hart.mie & !MACHINE_SOFT, ..hart })
            &&& twice == (Hart { mip: armed.mip | SUPERVISOR_SOFT, mie: armed.mie & !MACHINE_SOFT, ..armed })
            &&& twice == armed
            &&& twice.run(rearm.ops).run(second.ops) == twice
        }),
{
    let first = transition(Stage::Ready, interrupt, frame, firmware);
    let rearm = transition(Stage::Ready, call, first.frame, first.firmware);
    let second = transition(Stage::Ready, interrupt, rearm.frame, rearm.firmware);
    let mepc = call->mepc;
    let once = hart.run(first.ops);
    forward_effect(hart, TrapCause::MachineSoft);
    assert(rearm.ops =~= seq![
        Op::SetMie(MACHINE_EXTERNAL),
        Op::SetMie(MACHINE_TIMER),
        Op::WriteMepc(next_pc(mepc)),
    ]);
    once.run_three(Op::SetMie(MACHINE_EXTERNAL), Op::SetMie(MACHINE_TIMER), Op::WriteMepc(next_pc(mepc)));
    let armed = once.run(rearm.ops);
    forward_effect(armed, TrapCause::MachineSoft);
    let twice = armed.run(second.ops);
    let mie = hart.mie;
    let mip = hart.mip;
    assert((mip | 0x2u64) | 0x2u64 == mip | 0x2u64 && ((((mie & !0x8u64) | 0x800u64) | 0x80u64)
        & !0x8u64) == (((mie & !0x8u64) | 0x800u64) | 0x80u64) && ((((mie & !0x8u64) | 0x800u64)
        | 0x80u64) | 0x800u64) | 0x80u64 == (((mie & !0x8u64) | 0x800u64) | 0x80u64))
        by (bit_vector);
    assert(twice == armed);
    twice.run_three(Op::SetMie(MACHINE_EXTERNAL), Op::SetMie(MACHINE_TIMER), Op::WriteMepc(next_pc(mepc)));
    forward_effect(twice.run(rearm.ops), TrapCause::MachineSoft);
}

/// A time read with a saved destination puts the time that the platform
/// reports in the slot of that destination and in no other, and moves the
/// program counter on by four; it writes nothing else to the hart and
/// nothing to the firmware state. With any other destination it halts, with
/// the frame as it was.
pub proof fn time_read_round_trip(
    trap: Event,
    answers: Answers,
    frame: TrapFrame,
    firmware: FirmwareView,
    rd: u8,
)
    requires
        trap matches Event::Trap { mcause, .. } && trap_cause(mcause) == TrapCause::IllegalInstruction,
        decoded(word_of(answers.low, answers.high)) == (Emulated::ReadTime { rd }),
    ensures
        transition(Stage::Ready, trap, frame, firmware).stage == (Stage::Fetching {
            low_at: trap->mepc,
            high_at: upper_half_at(trap->mepc),
        }),
        match saved_slot(rd) {
            Some(slot) => handled(trap, answers, frame, firmware) == (Turn {
                stage: Stage::Ready,
                ops: seq![Op::WriteMepc(next_pc(trap->mepc))],
                frame: frame.with(slot, answers.now),
                firmware,
            }) && handled(trap, answers, frame, firmware).frame@ == frame@.update(
                slot.index(),
                answers.now,
            ),
            None => handled(trap, answers, frame, firmware) == (Turn {
                stage: Stage::Halted(Fatal::InvalidDestination { rd }),
                ops: Seq::<Op>::empty(),
                frame,
                firmware,
            }),
        },
{
    let mepc = trap->mepc;
    let first = transition(Stage::Ready, trap, frame, firmware);
    let second = transition(first.stage, answers.to(first.stage), first.frame, first.firmware);
    match saved_slot(rd) {
        Some(slot) => {
            frame.with_updates_view(slot, answers.now);
            assert(first.ops + second.ops + seq![Op::WriteMepc(next_pc(mepc))] =~= seq![
                Op::WriteMepc(next_pc(mepc)),
            ]);
        },
        None => {
            assert(first.ops + second.ops =~= Seq::<Op>::empty());
        },
    }
}

/// The program counter after an instruction is four bytes further on, and
/// wraps at the end of the address space.
pub proof fn next_pc_is_four_on(pc: u64)
    ensures
        next_pc(pc) == (pc + 4) % 0x1_0000_0000_0000_0000,
{
}

/// Registering the device-interrupt entry and then arming interrupts leaves
/// the external and the timer interrupt enabled and the registered entry
/// equal to the address that the first call supplied.
pub proof fn bootstrap_sequence(
    hart: Hart,
    registration: TrapFrame,
    rearm: TrapFrame,
    firmware: FirmwareView,
    first_call: Event,
    second_call: Event,
)
    requires
        first_call matches Event::Trap { mcause, .. } && trap_cause(mcause) == TrapCause::SupervisorEnvCall,
        second_call matches Event::Trap { mcause, .. } && trap_cause(mcause)
            == TrapCause::SupervisorEnvCall,
        routed(registration.a7, registration.a6) == Route::RegisterDeviceEntry,
        routed(rearm.a7, rearm.a6) == Route::RearmInterrupts,
    ensures
        ({
            let first = transition(Stage::Ready, first_call, registration, firmware);
            let second = transition(Stage::Ready, second_call, rearm, first.firmware);
            let after = hart.run(first.ops).run(second.ops);
            &&& first.stage == Stage::Ready && second.stage == Stage::Ready
            &&& second.firmware.device_interrupt_entry == registration.a0
            &&& second.firmware.console == firmware.console
            &&& after.mie & MACHINE_EXTERNAL == MACHINE_EXTERNAL
            &&& after.mie & MACHINE_TIMER == MACHINE_TIMER
            &&& after == (Hart {
                mie: hart.mie | (MACHINE_EXTERNAL | MACHINE_TIMER),
                mepc: next_pc(second_call->mepc),
                ..hart
            })
            &&& first.frame == (TrapFrame { a0: 0, a1: 0, ..registration })
            &&& second.frame == (TrapFrame { a0: 0, a1: 0, ..rearm })
        }),
{
    let first = transition(Stage::Ready, first_call, registration, firmware);
    let second = transition(Stage::Ready, second_call, rearm, first.firmware);
    assert(first.ops =~= seq![Op::SetMie(MACHINE_EXTERNAL), Op::WriteMepc(next_pc(first_call->mepc))]);
    assert(second.ops =~= seq![
        Op::SetMie(MACHINE_EXTERNAL),
        Op::SetMie(MACHINE_TIMER),
        Op::WriteMepc(next_pc(second_call->mepc)),
    ]);
    hart.run_two(Op::SetMie(MACHINE_EXTERNAL), Op::WriteMepc(next_pc(first_call->mepc)));
    hart.run(first.ops).run_three(
        Op::SetMie(MACHINE_EXTERNAL),
        Op::SetMie(MACHINE_TIMER),
        Op::WriteMepc(next_pc(second_call->mepc)),
    );
    let mie = hart.mie;
    assert(((mie | 0x800u64) | 0x800u64) | 0x80u64 == mie | (0x800u64 | 0x80u64) && (mie | (0x800u64
        | 0x80u64)) & 0x800u64 == 0x800u64 && (mie | (0x800u64 | 0x80u64)) & 0x80u64 == 0x80u64)
        by (bit_vector);
}

/// A console write puts the low byte of the first argument on the sink,
/// behind what is already there, and changes no register. A console read
/// never waits: it is over in the one step, with the oldest waiting byte in
/// the first argument register, or with the no-data value if none waits.
/// Both move the program counter past the call and write nothing else.
pub proof fn console_calls_never_wait(
    trap: Event,
    answers: Answers,
    frame: TrapFrame,
    firmware: FirmwareView,
)
    requires
        trap matches Event::Trap { mcause, .. } && trap_cause(mcause) == TrapCause::SupervisorEnvCall,
        routed(frame.a7, frame.a6) == Route::ConsolePut || routed(frame.a7, frame.a6)
            == Route::ConsoleGet,
    ensures
        ({
            let done = handled(trap, answers, frame, firmware);
            let console = firmware.console;
            &&& done.stage == Stage::Ready
            &&& done.ops == seq![Op::WriteMepc(next_pc(trap->mepc))]
            &&& done.firmware.device_interrupt_entry == firmware.device_interrupt_entry
            &&& routed(frame.a7, frame.a6) == Route::ConsolePut ==> {
                &&& done.frame == frame
                &&& done.firmware.console == console.written(seq![low_byte(frame.a0)])
            }
            &&& routed(frame.a7, frame.a6) == Route::ConsoleGet ==> {
                &&& done.firmware.console.output == console.output
                &&& console.front().is_none() ==> {
                    &&& done.frame == (TrapFrame { a0: NO_DATA, ..frame })
                    &&& done.firmware.console == console
                }
                &&& console.front().is_some() ==> {
                    &&& done.frame == (TrapFrame { a0: console.input[0] as u64, ..frame })
                    &&& done.firmware.console.input == console.input.skip(1)
                }
            }
        }),
{
    assert(handled(trap, answers, frame, firmware).ops =~= seq![Op::WriteMepc(next_pc(trap->mepc))]);
}

/// A trap with a cause that the firmware does not model halts the handler
/// at once: the condition carries the cause, the program counter and the
/// trap value, nothing is written to the hart, and the frame and the
/// firmware state are as they were.
pub proof fn unhandled_trap_halts(
    mcause: u64,
    mepc: u64,
    mtval: u64,
    mip: u64,
    answers: Answers,
    frame: TrapFrame,
    firmware: FirmwareView,
)
    requires
        trap_cause(mcause) == TrapCause::Unhandled,
    ensures
        handled(Event::Trap { mcause, mepc, mtval, mip }, answers, frame, firmware) == (Turn {
            stage: Stage::Halted(Fatal::UnhandledTrap { mcause, mepc, mtval }),
            ops: Seq::<Op>::empty(),
            frame,
            firmware,
        }),
{
}

/// A halted handler stays halted. Whatever the platform reports, it does
/// not go back to `Stage::Ready`, hands out no write and touches neither the
/// frame nor the firmware state: control never returns to the interrupted
/// context.
pub proof fn halt_is_final(fatal: Fatal, event: Event, frame: TrapFrame, firmware: FirmwareView)
    ensures
        transition(Stage::Halted(fatal), event, frame, firmware) == (Turn {
            stage: Stage::Halted(fatal),
            ops: Seq::<Op>::empty(),
            frame,
            firmware,
        }),
{
}

/// An interrupt never changes the frame or the firmware state, and its
/// handling is over in one step.
pub proof fn interrupts_leave_the_frame(
    trap: Event,
    answers: Answers,
    frame: TrapFrame,
    firmware: FirmwareView,
    hart: Hart,
)
    requires
        trap matches Event::Trap { mcause, .. } && (trap_cause(mcause) == TrapCause::MachineSoft
            || trap_cause(mcause) == TrapCause::MachineTimer || trap_cause(mcause)
            == TrapCause::MachineExternal),
    ensures
        handled(trap, answers, frame, firmware) == (Turn {
            stage: Stage::Ready,
            ops: forwarded(trap_cause(trap->mcause)),
            frame,
            firmware,
        }),
        hart.run(handled(trap, answers, frame, firmware).ops) == after_forward(
            hart,
            trap_cause(trap->mcause),
        ),
{
    forward_effect(hart, trap_cause(trap->mcause));
}

} // verus!
