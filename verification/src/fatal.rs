use vstd::prelude::*;

verus! {

/// A condition after which the hart must not run the interrupted context again.
///
/// The firmware has no layer below it to recover with: on any of these the
/// platform reports the fields and parks the hart forever.
#[derive(Clone, Copy, Debug, PartialEq, Eq, Structural)]
pub enum Fatal {
    /// A trap whose cause the firmware does not model.
    UnhandledTrap { mcause: u64, mepc: u64, mtval: u64 },
    /// An illegal instruction that is neither of the two emulated ones.
    InvalidInstruction { mepc: u64, instruction: u32 },
    /// A time read whose destination register is not saved in the trap frame.
    InvalidDestination { rd: u8 },
    /// The platform answered with something the handler had not asked for.
    UnexpectedEvent,
}

} // verus!
