use rustsbi_k210::fatal::Fatal;
use rustsbi_k210::firmware::Firmware;
use rustsbi_k210::forward::{forward, EXTERNAL_MARK};
use rustsbi_k210::cause::TrapCause;
use rustsbi_k210::frame::{Slot, TrapFrame};
use rustsbi_k210::hart::{
    Op, MACHINE_EXTERNAL, MACHINE_SOFT, MACHINE_TIMER, SUPERVISOR_SOFT, SUPERVISOR_TIMER,
};
use rustsbi_k210::sbi::{
    deliver, dispatch, route, Route, SbiCall, SbiRet, DEVICE_ENTRY_EXTENSION, DEVICE_ENTRY_FUNCTION,
    LEGACY_SET_TIMER, REARM_EXTENSION,
};
use rustsbi_k210::serial::Console;
use rustsbi_k210::trap::{advance, step, Event, Stage, INSTRUCTION_BYTES};

const SOFT: u64 = (1 << 63) | 3;
const TIMER: u64 = (1 << 63) | 7;
const EXTERNAL: u64 = (1 << 63) | 11;
const ECALL: u64 = 9;
const ILLEGAL: u64 = 2;

/// The registers that the writes act on, for following them in a test.
#[derive(Clone, Copy, Debug, PartialEq, Eq)]
struct Registers {
    mie: u64,
    mip: u64,
    stval: u64,
    mepc: u64,
    sptbr: u64,
    mstatus: u64,
    flushes: u64,
}

impl Registers {
    fn with(mie: u64, mip: u64) -> Registers {
        Registers { mie, mip, stval: 0, mepc: 0, sptbr: 0, mstatus: 0, flushes: 0 }
    }

    fn run(mut self, ops: &[Op]) -> Registers {
        for op in ops {
            match *op {
                Op::SetMie(mask) => self.mie |= mask,
                Op::ClearMie(mask) => self.mie &= !mask,
                Op::SetMip(mask) => self.mip |= mask,
                Op::ClearMip(mask) => self.mip &= !mask,
                Op::WriteStval(value) => self.stval = value,
                Op::WriteMepc(value) => self.mepc = value,
                Op::WriteSptbr(value) => self.sptbr = value,
                Op::WriteMstatus(value) => self.mstatus = value,
                Op::FlushTlb => self.flushes += 1,
                other => panic!("a trap handler has no business writing {:?}", other),
            }
        }
        self
    }
}

fn numbered() -> TrapFrame {
    TrapFrame {
        ra: 100,
        t0: 101,
        t1: 102,
        t2: 103,
        t3: 104,
        t4: 105,
        t5: 106,
        t6: 107,
        a0: 108,
        a1: 109,
        a2: 110,
        a3: 111,
        a4: 112,
        a5: 113,
        a6: 114,
        a7: 115,
    }
}

fn firmware() -> Firmware {
    Firmware::new(Console::new())
}

fn trap(mcause: u64, mepc: u64) -> Event {
    Event::Trap { mcause, mepc, mtval: 0xBAD, mip: 0 }
}

fn untouched(firmware: &Firmware) -> bool {
    firmware.device_interrupt_entry == 0
        && !firmware.console.attached
        && firmware.console.input.is_empty()
        && firmware.console.output.is_empty()
}

#[test]
fn machine_software_interrupt_is_forwarded() {
    let mut frame = numbered();
    let mut fw = firmware();
    let (stage, ops) = step(Stage::Ready, trap(SOFT, 0x8002_0000), &mut frame, &mut fw);
    assert_eq!(stage, Stage::Ready);
    assert_eq!(ops, vec![Op::SetMip(0x2), Op::ClearMie(0x8)]);
    assert_eq!(frame, numbered());
    assert!(untouched(&fw));
}

#[test]
fn machine_timer_interrupt_is_forwarded() {
    let mut frame = numbered();
    let mut fw = firmware();
    let (stage, ops) = step(Stage::Ready, trap(TIMER, 0x8002_0000), &mut frame, &mut fw);
    assert_eq!(stage, Stage::Ready);
    assert_eq!(ops, vec![Op::SetMip(0x20), Op::ClearMie(0x800), Op::ClearMie(0x80)]);
    assert_eq!(frame, numbered());
    assert!(untouched(&fw));
}

#[test]
fn machine_external_interrupt_is_forwarded_as_software_interrupt() {
    let mut frame = numbered();
    let mut fw = firmware();
    let (stage, ops) = step(Stage::Ready, trap(EXTERNAL, 0x8002_0000), &mut frame, &mut fw);
    assert_eq!(stage, Stage::Ready);
    assert_eq!(EXTERNAL_MARK, 9);
    assert_eq!(
        ops,
        vec![Op::WriteStval(9), Op::SetMip(0x2), Op::ClearMie(0x800), Op::ClearMie(0x80)]
    );
    assert_eq!(frame, numbered());
    assert!(untouched(&fw));
}

#[test]
fn forward_has_nothing_to_pass_on_for_exceptions() {
    assert_eq!(forward(TrapCause::SupervisorEnvCall), Vec::<Op>::new());
    assert_eq!(forward(TrapCause::IllegalInstruction), Vec::<Op>::new());
    assert_eq!(forward(TrapCause::Unhandled), Vec::<Op>::new());
    assert_eq!(forward(TrapCause::MachineSoft), vec![Op::SetMip(SUPERVISOR_SOFT), Op::ClearMie(MACHINE_SOFT)]);
}

#[test]
fn interrupt_bits_have_their_architected_places() {
    assert_eq!(MACHINE_SOFT, 1 << 3);
    assert_eq!(MACHINE_TIMER, 1 << 7);
    assert_eq!(MACHINE_EXTERNAL, 1 << 11);
    assert_eq!(SUPERVISOR_SOFT, 1 << 1);
    assert_eq!(SUPERVISOR_TIMER, 1 << 5);
}

#[test]
fn forwarding_software_interrupt_twice_does_not_drift() {
    let start = Registers::with(0xAAA, 0x080);
    let mut fw = firmware();

    let mut frame = numbered();
    let (_, soft) = step(Stage::Ready, trap(SOFT, 0x100), &mut frame, &mut fw);
    let once = start.run(&soft);
    assert_eq!(once, Registers { mie: 0xAA2, mip: 0x082, ..start });

    let mut call = numbered();
    call.a7 = REARM_EXTENSION;
    let (stage, rearm) = step(Stage::Ready, trap(ECALL, 0x200), &mut call, &mut fw);
    assert_eq!(stage, Stage::Ready);
    let armed = once.run(&rearm);
    assert_eq!(armed, Registers { mie: 0xAA2, mip: 0x082, mepc: 0x204, ..start });

    let (_, again) = step(Stage::Ready, trap(SOFT, 0x100), &mut frame, &mut fw);
    assert_eq!(again, soft);
    let twice = armed.run(&again);
    assert_eq!(twice, armed);
    assert_eq!(twice.run(&rearm).run(&again), twice);
    assert_eq!(frame, numbered());
}

#[test]
fn forwarding_software_interrupt_sets_one_bit_and_clears_one_bit() {
    for (mie, mip) in [(0u64, 0u64), (u64::MAX, 0), (0, u64::MAX), (0x888, 0x2), (0x8, 0x0)] {
        let mut frame = numbered();
        let mut fw = firmware();
        let (_, ops) = step(Stage::Ready, trap(SOFT, 0), &mut frame, &mut fw);
        let after = Registers::with(mie, mip).run(&ops);
        assert_eq!(after, Registers { mie: mie & !0x8, mip: mip | 0x2, ..Registers::with(mie, mip) });
    }
}

#[test]
fn registration_then_rearm_enables_external_and_timer() {
    let mut fw = firmware();
    let start = Registers::with(0x008, 0);

    let mut frame = numbered();
    frame.a7 = DEVICE_ENTRY_EXTENSION;
    frame.a6 = DEVICE_ENTRY_FUNCTION;
    frame.a0 = 0x8020_0040;
    let (stage, first) = step(Stage::Ready, trap(ECALL, 0x8002_0010), &mut frame, &mut fw);
    assert_eq!(stage, Stage::Ready);
    assert_eq!(first, vec![Op::SetMie(0x800), Op::WriteMepc(0x8002_0014)]);
    assert_eq!(
        frame,
        TrapFrame { a0: 0, a1: 0, a6: DEVICE_ENTRY_FUNCTION, a7: DEVICE_ENTRY_EXTENSION, ..numbered() }
    );
    assert_eq!(fw.device_interrupt_entry, 0x8020_0040);

    frame.a7 = REARM_EXTENSION;
    frame.a0 = 0x77;
    frame.a1 = 0x88;
    let (stage, second) = step(Stage::Ready, trap(ECALL, 0x8002_0020), &mut frame, &mut fw);
    assert_eq!(stage, Stage::Ready);
    assert_eq!(second, vec![Op::SetMie(0x800), Op::SetMie(0x80), Op::WriteMepc(0x8002_0024)]);
    assert_eq!(frame.a0, 0);
    assert_eq!(frame.a1, 0);

    let after = start.run(&first).run(&second);
    assert_eq!(after.mie & MACHINE_EXTERNAL, MACHINE_EXTERNAL);
    assert_eq!(after.mie & MACHINE_TIMER, MACHINE_TIMER);
    assert_eq!(after, Registers { mie: 0x888, mepc: 0x8002_0024, ..start });
    assert_eq!(fw.device_interrupt_entry, 0x8020_0040);
}

#[test]
fn rearm_ignores_the_function() {
    for function in [0u64, 0x210, u64::MAX] {
        assert_eq!(route(REARM_EXTENSION, function), Route::RearmInterrupts);
    }
}

#[test]
fn registration_extension_with_another_function_goes_to_the_standard_table() {
    assert_eq!(route(DEVICE_ENTRY_EXTENSION, DEVICE_ENTRY_FUNCTION), Route::RegisterDeviceEntry);
    assert_eq!(route(DEVICE_ENTRY_EXTENSION, 0x211), Route::Standard);
    assert_eq!(route(DEVICE_ENTRY_EXTENSION, 0), Route::Standard);

    let mut fw = firmware();
    let mut frame = numbered();
    frame.a7 = DEVICE_ENTRY_EXTENSION;
    frame.a6 = 0x211;
    let (stage, ops) = step(Stage::Ready, trap(ECALL, 0x40), &mut frame, &mut fw);
    assert_eq!(
        stage,
        Stage::Calling {
            mepc: 0x40,
            call: SbiCall {
                extension: DEVICE_ENTRY_EXTENSION,
                function: 0x211,
                arg0: 108,
                arg1: 109,
                arg2: 110,
                arg3: 111,
            },
        }
    );
    assert_eq!(ops, Vec::<Op>::new());
    assert_eq!(fw.device_interrupt_entry, 0);
}

#[test]
fn route_knows_the_console_calls_and_the_standard_table() {
    assert_eq!(route(1, 99), Route::ConsolePut);
    assert_eq!(route(2, 99), Route::ConsoleGet);
    assert_eq!(route(0, 0), Route::Standard);
    assert_eq!(route(0x10, 0), Route::Standard);
    assert_eq!(route(0x5449_4D45, 0), Route::Standard);
    assert_eq!(route(u64::MAX, 0), Route::Standard);
}

#[test]
fn standard_call_is_handed_out_and_its_answer_delivered() {
    let mut fw = firmware();
    let mut frame = numbered();
    frame.a7 = 0x10;
    frame.a6 = 3;
    let (stage, ops) = step(Stage::Ready, trap(ECALL, 0x8002_0400), &mut frame, &mut fw);
    let call = SbiCall { extension: 0x10, function: 3, arg0: 108, arg1: 109, arg2: 110, arg3: 111 };
    assert_eq!(stage, Stage::Calling { mepc: 0x8002_0400, call });
    assert_eq!(ops, Vec::<Op>::new());
    assert_eq!(frame, TrapFrame { a6: 3, a7: 0x10, ..numbered() });

    let answer = Event::Answer { error: (-2i64) as u64, value: 0 };
    let (stage, ops) = step(stage, answer, &mut frame, &mut fw);
    assert_eq!(stage, Stage::Ready);
    assert_eq!(ops, vec![Op::WriteMepc(0x8002_0404)]);
    assert_eq!(frame, TrapFrame { a0: (-2i64) as u64, a1: 0, a6: 3, a7: 0x10, ..numbered() });
    assert!(untouched(&fw));
}

#[test]
fn legacy_timer_call_unmasks_external_interrupt_when_timer_is_pending() {
    let mut fw = firmware();
    let mut frame = numbered();
    frame.a7 = LEGACY_SET_TIMER;
    let pending = Event::Trap { mcause: ECALL, mepc: 0x10, mtval: 0, mip: 0x80 };
    let (stage, ops) = step(Stage::Ready, pending, &mut frame, &mut fw);
    assert!(matches!(stage, Stage::Calling { mepc: 0x10, .. }));
    assert_eq!(ops, vec![Op::SetMie(0x800)]);

    let mut frame = numbered();
    frame.a7 = LEGACY_SET_TIMER;
    let quiet = Event::Trap { mcause: ECALL, mepc: 0x10, mtval: 0, mip: !0x80 };
    let (_, ops) = step(Stage::Ready, quiet, &mut frame, &mut fw);
    assert_eq!(ops, Vec::<Op>::new());

    let mut frame = numbered();
    frame.a7 = 0x5449_4D45;
    let (_, ops) = step(Stage::Ready, pending, &mut frame, &mut fw);
    assert_eq!(ops, Vec::<Op>::new());
}

#[test]
fn dispatch_and_deliver_work_on_the_frame_alone() {
    let mut fw = firmware();
    let mut frame = numbered();
    frame.a7 = 0x0073_5049;
    let (ops, call) = dispatch(&mut frame, &mut fw, 0);
    assert_eq!(ops, Vec::<Op>::new());
    assert_eq!(
        call,
        Some(SbiCall { extension: 0x0073_5049, function: 114, arg0: 108, arg1: 109, arg2: 110, arg3: 111 })
    );
    deliver(&mut frame, SbiRet { error: 5, value: 6 });
    assert_eq!(frame, TrapFrame { a0: 5, a1: 6, a7: 0x0073_5049, ..numbered() });
}

const SAVED: [(u8, Slot); 16] = [
    (1, Slot::Ra),
    (5, Slot::T0),
    (6, Slot::T1),
    (7, Slot::T2),
    (28, Slot::T3),
    (29, Slot::T4),
    (30, Slot::T5),
    (31, Slot::T6),
    (10, Slot::A0),
    (11, Slot::A1),
    (12, Slot::A2),
    (13, Slot::A3),
    (14, Slot::A4),
    (15, Slot::A5),
    (16, Slot::A6),
    (17, Slot::A7),
];

#[test]
fn time_read_lands_in_the_destination_for_all_sixteen_encodings() {
    for (rd, slot) in SAVED.iter() {
        let mut fw = firmware();
        let mut frame = numbered();
        let mepc = 0x8002_1000u64;
        let (stage, ops) = step(Stage::Ready, trap(ILLEGAL, mepc), &mut frame, &mut fw);
        assert_eq!(stage, Stage::Fetching { low_at: mepc, high_at: mepc + 2 });
        assert_eq!(ops, Vec::<Op>::new());

        let word = 0xC010_2073u32 | ((*rd as u32) << 7);
        let fetched = Event::Instruction { low: word as u16, high: (word >> 16) as u16 };
        let (stage, ops) = step(stage, fetched, &mut frame, &mut fw);
        assert_eq!(stage, Stage::Timing { mepc, slot: *slot });
        assert_eq!(ops, Vec::<Op>::new());
        assert_eq!(frame, numbered());

        let now = 0x0123_4567_89AB_CDEF;
        let (stage, ops) = step(stage, Event::Time { now }, &mut frame, &mut fw);
        assert_eq!(stage, Stage::Ready);
        assert_eq!(ops, vec![Op::WriteMepc(mepc + 4)]);
        let mut expected = numbered();
        expected.set(*slot, now);
        assert_eq!(frame, expected);
        assert_eq!(frame.get(*slot), now);
        assert!(untouched(&fw));
    }
}

#[test]
fn time_read_into_an_unsaved_register_is_fatal() {
    for rd in [0u8, 2, 3, 4, 8, 9, 18, 19, 20, 21, 22, 23, 24, 25, 26, 27] {
        let mut fw = firmware();
        let mut frame = numbered();
        let (stage, _) = step(Stage::Ready, trap(ILLEGAL, 0x500), &mut frame, &mut fw);
        let word = 0xC010_2073u32 | ((rd as u32) << 7);
        let fetched = Event::Instruction { low: word as u16, high: (word >> 16) as u16 };
        let (stage, ops) = step(stage, fetched, &mut frame, &mut fw);
        assert_eq!(stage, Stage::Halted(Fatal::InvalidDestination { rd }));
        assert_eq!(ops, Vec::<Op>::new());
        assert_eq!(frame, numbered());
    }
}

#[test]
fn translation_fence_is_emulated_with_the_legacy_registers() {
    let mut fw = firmware();
    let mut frame = numbered();
    let mepc = 0xFFFF_FFFF_C000_2000u64;
    let (stage, _) = step(Stage::Ready, trap(ILLEGAL, mepc), &mut frame, &mut fw);
    let fetched = Event::Instruction { low: 0x0073, high: 0x1200 };
    let (stage, ops) = step(stage, fetched, &mut frame, &mut fw);
    assert_eq!(stage, Stage::Translating { mepc });
    assert_eq!(ops, Vec::<Op>::new());

    let paging = Event::Paging { satp: (8 << 60) | 0x8_0456, mstatus: 0x0000_000A_0000_1800 };
    let (stage, ops) = step(stage, paging, &mut frame, &mut fw);
    assert_eq!(stage, Stage::Ready);
    assert_eq!(
        ops,
        vec![
            Op::WriteSptbr(0x8_0456),
            Op::WriteMstatus(0x0000_000A_0900_1800),
            Op::FlushTlb,
            Op::WriteMepc(mepc + 4),
        ]
    );
    assert_eq!(frame, numbered());
    assert!(untouched(&fw));
    let after = Registers::with(0x888, 0x22).run(&ops);
    assert_eq!(
        after,
        Registers {
            sptbr: 0x8_0456,
            mstatus: 0x0000_000A_0900_1800,
            flushes: 1,
            mepc: mepc + 4,
            ..Registers::with(0x888, 0x22)
        }
    );
}

#[test]
fn any_other_illegal_instruction_is_fatal() {
    let mut fw = firmware();
    let mut frame = numbered();
    let (stage, _) = step(Stage::Ready, trap(ILLEGAL, 0x8002_0ABC), &mut frame, &mut fw);
    let fetched = Event::Instruction { low: 0x0073, high: 0x1050 };
    let (stage, ops) = step(stage, fetched, &mut frame, &mut fw);
    assert_eq!(
        stage,
        Stage::Halted(Fatal::InvalidInstruction { mepc: 0x8002_0ABC, instruction: 0x1050_0073 })
    );
    assert_eq!(ops, Vec::<Op>::new());
    assert_eq!(frame, numbered());
}

#[test]
fn unhandled_trap_halts_and_never_resumes() {
    for mcause in [0u64, 1, 3, 4, 5, 6, 7, 8, 11, 12, 13, 15, (1 << 63) | 1, (1 << 63) | 5, (1 << 63) | 9] {
        let mut fw = firmware();
        let mut frame = numbered();
        let event = Event::Trap { mcause, mepc: 0x8002_0004, mtval: 0x1234, mip: 0xAAA };
        let (stage, ops) = step(Stage::Ready, event, &mut frame, &mut fw);
        let fatal = Fatal::UnhandledTrap { mcause, mepc: 0x8002_0004, mtval: 0x1234 };
        assert_eq!(stage, Stage::Halted(fatal));
        assert_eq!(ops, Vec::<Op>::new());
        assert_eq!(frame, numbered());
        assert!(untouched(&fw));

        for later in [
            Event::Trap { mcause: SOFT, mepc: 0, mtval: 0, mip: 0 },
            Event::Trap { mcause: ECALL, mepc: 0, mtval: 0, mip: 0 },
            Event::Instruction { low: 0x2073, high: 0xC010 },
            Event::Time { now: 1 },
            Event::Paging { satp: 1, mstatus: 1 },
            Event::Answer { error: 0, value: 0 },
        ] {
            let (next, ops) = step(stage, later, &mut frame, &mut fw);
            assert_eq!(next, Stage::Halted(fatal));
            assert_eq!(ops, Vec::<Op>::new());
            assert_eq!(frame, numbered());
            assert!(untouched(&fw));
        }
    }
}

#[test]
fn event_that_was_not_asked_for_halts() {
    let stages = [
        Stage::Ready,
        Stage::Fetching { low_at: 0, high_at: 2 },
        Stage::Timing { mepc: 0, slot: Slot::A0 },
        Stage::Translating { mepc: 0 },
        Stage::Calling {
            mepc: 0,
            call: SbiCall { extension: 0, function: 0, arg0: 0, arg1: 0, arg2: 0, arg3: 0 },
        },
    ];
    let events = [
        Event::Trap { mcause: SOFT, mepc: 0, mtval: 0, mip: 0 },
        Event::Instruction { low: 0x2073, high: 0xC010 },
        Event::Time { now: 1 },
        Event::Paging { satp: 1, mstatus: 1 },
        Event::Answer { error: 0, value: 0 },
    ];
    for (i, stage) in stages.iter().enumerate() {
        for (j, event) in events.iter().enumerate() {
            if i != j {
                let mut fw = firmware();
                let mut frame = numbered();
                let (next, ops) = step(*stage, *event, &mut frame, &mut fw);
                assert_eq!(next, Stage::Halted(Fatal::UnexpectedEvent));
                assert_eq!(ops, Vec::<Op>::new());
                assert_eq!(frame, numbered());
                assert!(untouched(&fw));
            }
        }
    }
}

#[test]
fn program_counter_advances_by_four_and_wraps() {
    assert_eq!(INSTRUCTION_BYTES, 4);
    assert_eq!(advance(0), 4);
    assert_eq!(advance(0x8002_0000), 0x8002_0004);
    assert_eq!(advance(u64::MAX - 4), u64::MAX);
    assert_eq!(advance(u64::MAX - 3), 0);
    assert_eq!(advance(u64::MAX), 3);
}

#[test]
fn upper_half_of_the_instruction_is_fetched_two_bytes_on() {
    let mut fw = firmware();
    let mut frame = numbered();
    let (stage, _) = step(Stage::Ready, trap(ILLEGAL, 0x8002_0ABE), &mut frame, &mut fw);
    assert_eq!(stage, Stage::Fetching { low_at: 0x8002_0ABE, high_at: 0x8002_0AC0 });
    let (stage, _) = step(Stage::Ready, trap(ILLEGAL, u64::MAX - 1), &mut frame, &mut fw);
    assert_eq!(stage, Stage::Fetching { low_at: u64::MAX - 1, high_at: 0 });
}

#[test]
fn registers_outside_the_answer_survive_a_call() {
    let mut fw = firmware();
    let mut frame = numbered();
    frame.a7 = 0x5352_5354;
    let (stage, _) = step(Stage::Ready, trap(ECALL, 0), &mut frame, &mut fw);
    let (_, _) = step(stage, Event::Answer { error: 1, value: 2 }, &mut frame, &mut fw);
    let after = frame;
    let before = TrapFrame { a7: 0x5352_5354, ..numbered() };
    assert_eq!(TrapFrame { a0: before.a0, a1: before.a1, ..after }, before);
    assert_eq!((after.a0, after.a1), (1, 2));
}
