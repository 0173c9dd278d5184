use vstd::prelude::*;
use crate::firmware::{Firmware, FirmwareView};
use crate::frame::TrapFrame;
use crate::hart::{Op, MACHINE_EXTERNAL, MACHINE_TIMER};
use crate::serial::{getchar, putchar};

verus! {

/// Extension of the call that registers the device-interrupt entry.
pub const DEVICE_ENTRY_EXTENSION: u64 = 0x0A00_0004;

/// Function of the call that registers the device-interrupt entry.
pub const DEVICE_ENTRY_FUNCTION: u64 = 0x210;

/// Extension of the call that arms interrupt delivery again.
pub const REARM_EXTENSION: u64 = 0x0A00_0005;

/// Legacy call that arms the timer.
pub const LEGACY_SET_TIMER: u64 = 0x0;

/// Legacy call that writes a byte to the console.
pub const LEGACY_CONSOLE_PUTCHAR: u64 = 0x1;

/// Legacy call that reads a byte from the console.
pub const LEGACY_CONSOLE_GETCHAR: u64 = 0x2;

/// What a console read returns when no byte is waiting: minus one, seen as an
/// unsigned register value.
pub const NO_DATA: u64 = 0xFFFF_FFFF_FFFF_FFFF;

/// Where a supervisor call goes.
#[derive(Clone, Copy, Debug, PartialEq, Eq, Structural)]
pub enum Route {
    /// Record the device-interrupt entry and enable external interrupts.
    RegisterDeviceEntry,
    /// Enable external and timer interrupts again.
    RearmInterrupts,
    /// Write a byte to the console.
    ConsolePut,
    /// Read a byte from the console.
    ConsoleGet,
    /// Everything else: the standard service table.
    Standard,
}

/// The route of a call, by the extension and function that the caller named.
/// The two calls of this board and the two console calls come before the
/// standard table.
pub open spec fn routed(extension: u64, function: u64) -> Route {
    if extension == DEVICE_ENTRY_EXTENSION && function == DEVICE_ENTRY_FUNCTION {
        Route::RegisterDeviceEntry
    } else if extension == REARM_EXTENSION {
        Route::RearmInterrupts
    } else if extension == LEGACY_CONSOLE_PUTCHAR {
        Route::ConsolePut
    } else if extension == LEGACY_CONSOLE_GETCHAR {
        Route::ConsoleGet
    } else {
        Route::Standard
    }
}

/// Chooses the route of a call.
pub fn route(extension: u64, function: u64) -> (chosen: Route)
    ensures
        chosen == routed(extension, function),
{
    if extension == DEVICE_ENTRY_EXTENSION && function == DEVICE_ENTRY_FUNCTION {
        Route::RegisterDeviceEntry
    } else if extension == REARM_EXTENSION {
        Route::RearmInterrupts
    } else if extension == LEGACY_CONSOLE_PUTCHAR {
        Route::ConsolePut
    } else if extension == LEGACY_CONSOLE_GETCHAR {
        Route::ConsoleGet
    } else {
        Route::Standard
    }
}

/// A request for the standard service table, as taken from the argument
/// registers of the caller.
#[derive(Clone, Copy, Debug, PartialEq, Eq, Structural)]
pub struct SbiCall {
    /// Extension identifier, from `a7`.
    pub extension: u64,
    /// Function identifier, from `a6`.
    pub function: u64,
    /// First parameter, from `a0`.
    pub arg0: u64,
    /// Second parameter, from `a1`.
    pub arg1: u64,
    /// Third parameter, from `a2`.
    pub arg2: u64,
    /// Fourth parameter, from `a3`.
    pub arg3: u64,
}

/// The answer of the standard service table.
#[derive(Clone, Copy, Debug, PartialEq, Eq, Structural)]
pub struct SbiRet {
    /// Error code, for `a0`.
    pub error: u64,
    /// Return value, for `a1`.
    pub value: u64,
}

/// The byte that a register holds in its lowest eight bits.
pub open spec fn low_byte(value: u64) -> u8 {
    (value % 0x100) as u8
}

/// The request that a frame holds.
pub open spec fn request_of(frame: TrapFrame) -> SbiCall {
    SbiCall {
        extension: frame.a7,
        function: frame.a6,
        arg0: frame.a0,
        arg1: frame.a1,
        arg2: frame.a2,
        arg3: frame.a3,
    }
}

/// Whether a call asks for the one extra write of the standard route: it is
/// the legacy timer call, and a machine timer interrupt is pending. The
/// external interrupt is then enabled again, so that a timer interrupt that
/// came in during the call cannot stay masked for good.
pub open spec fn unmasks_external(extension: u64, mip: u64) -> bool {
    extension == LEGACY_SET_TIMER && mip & MACHINE_TIMER != 0
}

/// What dispatching a supervisor call comes to.
pub struct Dispatch {
    /// The frame after the call, but for the answer of the standard table.
    pub frame: TrapFrame,
    pub firmware: FirmwareView,
    /// What to write to the hart, the program counter apart.
    pub ops: Seq<Op>,
    /// The request to pass to the standard table, if the call goes there.
    pub call: Option<SbiCall>,
}

/// What dispatching the call in `frame` comes to, with `mip` as the hart
/// showed it on entry.
pub open spec fn dispatched(frame: TrapFrame, firmware: FirmwareView, mip: u64) -> Dispatch {
    match routed(frame.a7, frame.a6) {
        Route::RegisterDeviceEntry => Dispatch {
            frame: TrapFrame { a0: 0, a1: 0, ..frame },
            firmware: FirmwareView { device_interrupt_entry: frame.a0, ..firmware },
            ops: seq![Op::SetMie(MACHINE_EXTERNAL)],
            call: None,
        },
        Route::RearmInterrupts => Dispatch {
            frame: TrapFrame { a0: 0, a1: 0, ..frame },
            firmware,
            ops: seq![Op::SetMie(MACHINE_EXTERNAL), Op::SetMie(MACHINE_TIMER)],
            call: None,
        },
        Route::ConsolePut => Dispatch {
            frame,
            firmware: FirmwareView { console: firmware.console.written(seq![low_byte(frame.a0)]), ..firmware },
            ops: Seq::<Op>::empty(),
            call: None,
        },
        Route::ConsoleGet => Dispatch {
            frame: TrapFrame {
                a0: match firmware.console.front() {
                    Some(byte) => byte as u64,
                    None => NO_DATA,
                },
                ..frame
            },
            firmware: FirmwareView { console: firmware.console.advanced(), ..firmware },
            ops: Seq::<Op>::empty(),
            call: None,
        },
        Route::Standard => Dispatch {
            frame,
            firmware,
            ops: if unmasks_external(frame.a7, mip) {
                seq![Op::SetMie(MACHINE_EXTERNAL)]
            } else {
                Seq::<Op>::empty()
            },
            call: Some(request_of(frame)),
        },
    }
}

/// Dispatches the supervisor call that `frame` holds.
///
/// The four calls that the firmware serves itself are carried out here, on
/// the frame and on the firmware state. A call for the standard table is
/// handed back as a request; its answer goes into the frame with
/// [`deliver`].
pub fn dispatch(frame: &mut TrapFrame, firmware: &mut Firmware, mip: u64) -> (out: (
    Vec<Op>,
    Option<SbiCall>,
))
    ensures
        *final(frame) == dispatched(*old(frame), old(firmware)@, mip).frame,
        final(firmware)@ == dispatched(*old(frame), old(firmware)@, mip).firmware,
        out.0@ == dispatched(*old(frame), old(firmware)@, mip).ops,
        out.1 == dispatched(*old(frame), old(firmware)@, mip).call,
{
    let mut ops: Vec<Op> = Vec::new();
    match route(frame.a7, frame.a6) {
        Route::RegisterDeviceEntry => {
            firmware.device_interrupt_entry = frame.a0;
            ops.push(Op::SetMie(MACHINE_EXTERNAL));
            frame.a0 = 0;
            frame.a1 = 0;
            assert(ops@ =~= seq![Op::SetMie(MACHINE_EXTERNAL)]);
            (ops, None)
        },
        Route::RearmInterrupts => {
            ops.push(Op::SetMie(MACHINE_EXTERNAL));
            ops.push(Op::SetMie(MACHINE_TIMER));
            frame.a0 = 0;
            frame.a1 = 0;
            assert(ops@ =~= seq![Op::SetMie(MACHINE_EXTERNAL), Op::SetMie(MACHINE_TIMER)]);
            (ops, None)
        },
        Route::ConsolePut => {
            let value = frame.a0;
            assert(value & 0xFF == value % 0x100) by (bit_vector);
            putchar(&mut firmware.console, (value & 0xFF) as u8);
            (ops, None)
        },
        Route::ConsoleGet => {
            frame.a0 = match getchar(&mut firmware.console) {
                Some(byte) => byte as u64,
                None => NO_DATA,
            };
            (ops, None)
        },
        Route::Standard => {
            if frame.a7 == LEGACY_SET_TIMER && mip & MACHINE_TIMER != 0 {
                ops.push(Op::SetMie(MACHINE_EXTERNAL));
                assert(ops@ =~= seq![Op::SetMie(MACHINE_EXTERNAL)]);
            }
            let call = SbiCall {
                extension: frame.a7,
                function: frame.a6,
                arg0: frame.a0,
                arg1: frame.a1,
                arg2: frame.a2,
                arg3: frame.a3,
            };
            (ops, Some(call))
        },
    }
}

/// The frame after the answer of the standard table was written to it.
pub open spec fn delivered(frame: TrapFrame, ret: SbiRet) -> TrapFrame {
    TrapFrame { a0: ret.error, a1: ret.value, ..frame }
}

/// Writes the answer of the standard table into the first two argument
/// registers.
pub fn deliver(frame: &mut TrapFrame, ret: SbiRet)
    ensures
        *final(frame) == delivered(*old(frame), ret),
{
    frame.a0 = ret.error;
    frame.a1 = ret.value;
}

} // verus!
