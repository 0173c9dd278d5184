use vstd::prelude::*;
use crate::cause::TrapCause;
use crate::hart::{Hart, Op, MACHINE_EXTERNAL, MACHINE_SOFT, MACHINE_TIMER, SUPERVISOR_SOFT, SUPERVISOR_TIMER};

verus! {

/// The value left in the supervisor's trap value register when a machine
/// external interrupt is passed on. The supervisor tells by it that the
/// software interrupt it sees stands for an external one.
pub const EXTERNAL_MARK: u64 = 9;

/// The writes that pass a machine-level interrupt on to the supervisor.
///
/// Each raises one pending bit of the supervisor and then turns off the
/// machine-level sources that would trap again before the supervisor has
/// acted. A cause that is no interrupt has nothing to pass on.
pub open spec fn forwarded(cause: TrapCause) -> Seq<Op> {
    match cause {
        TrapCause::MachineSoft => seq![Op::SetMip(SUPERVISOR_SOFT), Op::ClearMie(MACHINE_SOFT)],
        TrapCause::MachineTimer => seq![
            Op::SetMip(SUPERVISOR_TIMER),
            Op::ClearMie(MACHINE_EXTERNAL),
            Op::ClearMie(MACHINE_TIMER),
        ],
        TrapCause::MachineExternal => seq![
            Op::WriteStval(EXTERNAL_MARK),
            Op::SetMip(SUPERVISOR_SOFT),
            Op::ClearMie(MACHINE_EXTERNAL),
            Op::ClearMie(MACHINE_TIMER),
        ],
        _ => Seq::<Op>::empty(),
    }
}

/// Decides what to write to pass a machine-level interrupt on.
pub fn forward(cause: TrapCause) -> (ops: Vec<Op>)
    ensures
        ops@ == forwarded(cause),
{
    let mut ops: Vec<Op> = Vec::new();
    match cause {
        TrapCause::MachineSoft => {
            ops.push(Op::SetMip(SUPERVISOR_SOFT));
            ops.push(Op::ClearMie(MACHINE_SOFT));
        },
        TrapCause::MachineTimer => {
            ops.push(Op::SetMip(SUPERVISOR_TIMER));
            ops.push(Op::ClearMie(MACHINE_EXTERNAL));
            ops.push(Op::ClearMie(MACHINE_TIMER));
        },
        TrapCause::MachineExternal => {
            ops.push(Op::WriteStval(EXTERNAL_MARK));
            ops.push(Op::SetMip(SUPERVISOR_SOFT));
            ops.push(Op::ClearMie(MACHINE_EXTERNAL));
            ops.push(Op::ClearMie(MACHINE_TIMER));
        },
        _ => {},
    }
    assert(ops@ =~= forwarded(cause));
    ops
}

/// The hart after a machine-level interrupt was passed on.
pub open spec fn after_forward(hart: Hart, cause: TrapCause) -> Hart {
    match cause {
        TrapCause::MachineSoft => Hart {
            mip: hart.mip | SUPERVISOR_SOFT,
            mie: hart.mie & !MACHINE_SOFT,
            ..hart
        },
        TrapCause::MachineTimer => Hart {
            mip: hart.mip | SUPERVISOR_TIMER,
            mie: hart.mie & !(MACHINE_EXTERNAL | MACHINE_TIMER),
            ..hart
        },
        TrapCause::MachineExternal => Hart {
            stval: EXTERNAL_MARK,
            mip: hart.mip | SUPERVISOR_SOFT,
            mie: hart.mie & !(MACHINE_EXTERNAL | MACHINE_TIMER),
            ..hart
        },
        _ => hart,
    }
}

/// Passing an interrupt on touches `mip`, `mie` and, for the external
/// interrupt, `stval`, and nothing else: one pending bit of the supervisor is
/// raised, the documented machine-level enables are cleared, and every other
/// bit of both registers is as before.
pub proof fn forward_effect(hart: Hart, cause: TrapCause)
    ensures
        hart.run(forwarded(cause)) == after_forward(hart, cause),
{
    let mie = hart.mie;
    assert((mie & !0x800u64) & !0x80u64 == mie & !(0x800u64 | 0x80u64)) by (bit_vector);
    match cause {
        TrapCause::MachineSoft => {
            hart.run_two(Op::SetMip(SUPERVISOR_SOFT), Op::ClearMie(MACHINE_SOFT));
        },
        TrapCause::MachineTimer => {
            hart.run_three(
                Op::SetMip(SUPERVISOR_TIMER),
                Op::ClearMie(MACHINE_EXTERNAL),
                Op::ClearMie(MACHINE_TIMER),
            );
        },
        TrapCause::MachineExternal => {
            hart.run_four(
                Op::WriteStval(EXTERNAL_MARK),
                Op::SetMip(SUPERVISOR_SOFT),
                Op::ClearMie(MACHINE_EXTERNAL),
                Op::ClearMie(MACHINE_TIMER),
            );
        },
        _ => {
            hart.run_empty();
        },
    }
}

/// Passing the same interrupt on twice leaves the hart where passing it on
/// once left it.
pub proof fn forward_is_idempotent(hart: Hart, cause: TrapCause)
    ensures
        after_forward(after_forward(hart, cause), cause) == after_forward(hart, cause),
{
    let mie = hart.mie;
    let mip = hart.mip;
    assert((mip | 0x2u64) | 0x2u64 == mip | 0x2u64) by (bit_vector);
    assert((mip | 0x20u64) | 0x20u64 == mip | 0x20u64) by (bit_vector);
    assert((mie & !0x8u64) & !0x8u64 == mie & !0x8u64) by (bit_vector);
    assert((mie & !(0x800u64 | 0x80u64)) & !(0x800u64 | 0x80u64) == mie & !(0x800u64 | 0x80u64))
        by (bit_vector);
}

} // verus!
