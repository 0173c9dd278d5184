use vstd::prelude::*;
use crate::serial::{Console, ConsoleView};

verus! {

/// The state that the firmware keeps from one trap to the next.
///
/// There is one of these for the whole machine. It is created once, before
/// the first trap, and from then on only the supervisor-call dispatcher
/// writes to it: the device-interrupt entry through the registration call,
/// the console through the two legacy console calls.
#[derive(Debug)]
pub struct Firmware {
    /// Address at which the supervisor wants machine external interrupts to
    /// arrive. Zero until the supervisor registers one; never cleared.
    pub device_interrupt_entry: u64,
    pub console: Console,
}

/// What the firmware state holds, as plain values.
pub struct FirmwareView {
    pub device_interrupt_entry: u64,
    pub console: ConsoleView,
}

impl View for Firmware {
    type V = FirmwareView;

    open spec fn view(&self) -> FirmwareView {
        FirmwareView { device_interrupt_entry: self.device_interrupt_entry, console: self.console@ }
    }
}

impl Firmware {
    /// The state at boot: no entry registered, the console as given.
    pub fn new(console: Console) -> (firmware: Firmware)
        ensures
            firmware@ == (FirmwareView { device_interrupt_entry: 0, console: console@ }),
    {
        Firmware { device_interrupt_entry: 0, console }
    }
}

} // verus!
