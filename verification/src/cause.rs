use vstd::prelude::*;
use riscv::register::mcause::{Exception, Interrupt};

verus! {

/// The closed set of trap causes that the firmware tells apart.
#[derive(Clone, Copy, Debug, PartialEq, Eq, Structural)]
pub enum TrapCause {
    /// An environment call made by the supervisor.
    SupervisorEnvCall,
    /// The machine software interrupt.
    MachineSoft,
    /// The machine timer interrupt.
    MachineTimer,
    /// The machine external interrupt.
    MachineExternal,
    /// An instruction that the hart does not implement.
    IllegalInstruction,
    /// Any other cause. It is never masked: the firmware halts on it.
    Unhandled,
}

/// The top bit of `mcause`, which is set for interrupts and clear for exceptions.
pub const INTERRUPT_FLAG: u64 = 0x8000_0000_0000_0000;

/// Whether `mcause` reports an interrupt.
pub open spec fn is_interrupt(mcause: u64) -> bool {
    mcause >= INTERRUPT_FLAG
}

/// The code field of `mcause`: everything below the interrupt flag.
pub open spec fn cause_code(mcause: u64) -> u64 {
    if mcause >= INTERRUPT_FLAG {
        (mcause - INTERRUPT_FLAG) as u64
    } else {
        mcause
    }
}

/// The cause that an interrupt code stands for.
pub open spec fn interrupt_cause(code: u64) -> TrapCause {
    if code == 3 {
        TrapCause::MachineSoft
    } else if code == 7 {
        TrapCause::MachineTimer
    } else if code == 11 {
        TrapCause::MachineExternal
    } else {
        TrapCause::Unhandled
    }
}

/// The cause that an exception code stands for.
pub open spec fn exception_cause(code: u64) -> TrapCause {
    if code == 2 {
        TrapCause::IllegalInstruction
    } else if code == 9 {
        TrapCause::SupervisorEnvCall
    } else {
        TrapCause::Unhandled
    }
}

/// The cause that a value of `mcause` stands for.
pub open spec fn trap_cause(mcause: u64) -> TrapCause {
    if is_interrupt(mcause) {
        interrupt_cause(cause_code(mcause))
    } else {
        exception_cause(cause_code(mcause))
    }
}

/// Decodes an interrupt code with `riscv::register::mcause::Interrupt::from`.
///
/// Trusted: that function names code 3 the machine software interrupt, code 7
/// the machine timer interrupt and code 11 the machine external interrupt.
/// Every other name it gives (user and supervisor interrupts, unknown codes)
/// is one that the firmware does not handle.
#[verifier::external_body]
fn decode_interrupt(code: usize) -> (cause: TrapCause)
    ensures
        cause == interrupt_cause(code as u64),
{
    match Interrupt::from(code) {
        Interrupt::MachineSoft => TrapCause::MachineSoft,
        Interrupt::MachineTimer => TrapCause::MachineTimer,
        Interrupt::MachineExternal => TrapCause::MachineExternal,
        _ => TrapCause::Unhandled,
    }
}

/// Decodes an exception code with `riscv::register::mcause::Exception::from`.
///
/// Trusted: that function names code 2 the illegal instruction and code 9 the
/// environment call from supervisor mode. Every other name it gives is one
/// that the firmware does not handle.
#[verifier::external_body]
fn decode_exception(code: usize) -> (cause: TrapCause)
    ensures
        cause == exception_cause(code as u64),
{
    match Exception::from(code) {
        Exception::IllegalInstruction => TrapCause::IllegalInstruction,
        Exception::SupervisorEnvCall => TrapCause::SupervisorEnvCall,
        _ => TrapCause::Unhandled,
    }
}

/// Classifies a trap by the value that the hart left in `mcause`.
pub fn classify(mcause: u64) -> (cause: TrapCause)
    ensures
        cause == trap_cause(mcause),
{
    let interrupt = mcause & INTERRUPT_FLAG != 0;
    let code = mcause & 0x7FFF_FFFF_FFFF_FFFF;
    assert((mcause & 0x8000_0000_0000_0000 != 0) == (mcause >= 0x8000_0000_0000_0000)) by (bit_vector);
    assert(mcause >= 0x8000_0000_0000_0000 ==> mcause & 0x7FFF_FFFF_FFFF_FFFF == mcause
        - 0x8000_0000_0000_0000) by (bit_vector);
    assert(mcause < 0x8000_0000_0000_0000 ==> mcause & 0x7FFF_FFFF_FFFF_FFFF == mcause)
        by (bit_vector);
    if code > usize::MAX as u64 {
        // A code this large has no name on any hart.
        TrapCause::Unhandled
    } else if interrupt {
        decode_interrupt(code as usize)
    } else {
        decode_exception(code as usize)
    }
}

/// Every value of `mcause` has exactly one cause, and the five handled causes
/// are each a single value: anything else is unhandled.
pub proof fn handled_causes_are_exact(mcause: u64)
    ensures
        trap_cause(mcause) == TrapCause::SupervisorEnvCall <==> mcause == 9,
        trap_cause(mcause) == TrapCause::IllegalInstruction <==> mcause == 2,
        trap_cause(mcause) == TrapCause::MachineSoft <==> mcause == INTERRUPT_FLAG + 3,
        trap_cause(mcause) == TrapCause::MachineTimer <==> mcause == INTERRUPT_FLAG + 7,
        trap_cause(mcause) == TrapCause::MachineExternal <==> mcause == INTERRUPT_FLAG + 11,
{
}

} // verus!
