use vstd::prelude::*;
use crate::hart::{Hart, Op, MACHINE_TIMER};

verus! {

/// The highest hart identifier that an inter-processor interrupt can name.
pub const MAX_HART_ID: u64 = 1;

/// Whether a hart mask names `hart`: bit `hart` of the mask is set, and the
/// hart exists.
pub open spec fn targeted(hart_mask: u64, hart: u64) -> bool {
    hart <= MAX_HART_ID && (hart_mask >> hart) & 1 == 1
}

/// The writes that signal the targeted harts among the first `harts`, lowest
/// first. Each target's line is asserted and released at once: the interrupt
/// is a pulse, never a level that stays.
pub open spec fn pulses(hart_mask: u64, harts: nat) -> Seq<Op>
    decreases harts,
{
    if harts == 0 {
        Seq::<Op>::empty()
    } else {
        let hart = (harts - 1) as u64;
        if targeted(hart_mask, hart) {
            pulses(hart_mask, (harts - 1) as nat).push(Op::RaiseSoftware { hart }).push(
                Op::ClearSoftware { hart },
            )
        } else {
            pulses(hart_mask, (harts - 1) as nat)
        }
    }
}

/// The targeted harts among the first `harts`, lowest first.
pub open spec fn targets(hart_mask: u64, harts: nat) -> Seq<u64>
    decreases harts,
{
    if harts == 0 {
        Seq::<u64>::empty()
    } else {
        let hart = (harts - 1) as u64;
        if targeted(hart_mask, hart) {
            targets(hart_mask, (harts - 1) as nat).push(hart)
        } else {
            targets(hart_mask, (harts - 1) as nat)
        }
    }
}

/// Decides what to write to send a software interrupt to the harts that
/// `hart_mask` names, bit `i` standing for hart `i`.
pub fn send_ipi_many(hart_mask: u64) -> (ops: Vec<Op>)
    ensures
        ops@ == pulses(hart_mask, (MAX_HART_ID + 1) as nat),
{
    let mut ops: Vec<Op> = Vec::new();
    let mut hart: u64 = 0;
    while hart <= MAX_HART_ID
        invariant
            hart <= MAX_HART_ID + 1,
            ops@ == pulses(hart_mask, hart as nat),
        decreases MAX_HART_ID + 1 - hart,
    {
        if (hart_mask >> hart) & 1 == 1 {
            ops.push(Op::RaiseSoftware { hart });
            ops.push(Op::ClearSoftware { hart });
        }
        hart = hart + 1;
    }
    ops
}

/// After the pulses, every targeted hart has been rung exactly once, lowest
/// first, and its line is low again; the lines of the other harts and the
/// rest of the machine are as before.
pub proof fn pulses_effect(machine: Hart, hart_mask: u64, harts: nat)
    requires
        harts <= MAX_HART_ID + 1,
    ensures
        machine.run(pulses(hart_mask, harts)).rings == machine.rings + targets(hart_mask, harts),
        forall|hart: u64|
            hart < harts && targeted(hart_mask, hart) ==> !#[trigger] machine.run(
                pulses(hart_mask, harts),
            ).line(hart),
        forall|hart: u64|
            !(hart < harts && targeted(hart_mask, hart)) ==> #[trigger] machine.run(
                pulses(hart_mask, harts),
            ).line(hart) == machine.line(hart),
        machine.run(pulses(hart_mask, harts)) == (Hart {
            rings: machine.run(pulses(hart_mask, harts)).rings,
            software: machine.run(pulses(hart_mask, harts)).software,
            ..machine
        }),
    decreases harts,
{
    if harts == 0 {
        machine.run_empty();
        assert(machine.rings + targets(hart_mask, harts) =~= machine.rings);
    } else {
        let below = (harts - 1) as nat;
        let hart = below as u64;
        pulses_effect(machine, hart_mask, below);
        let before = machine.run(pulses(hart_mask, below));
        let after = machine.run(pulses(hart_mask, harts));
        if targeted(hart_mask, hart) {
            let raised = pulses(hart_mask, below).push(Op::RaiseSoftware { hart });
            machine.run_push(pulses(hart_mask, below), Op::RaiseSoftware { hart });
            machine.run_push(raised, Op::ClearSoftware { hart });
            assert(machine.rings + targets(hart_mask, harts) =~= (machine.rings + targets(
                hart_mask,
                below,
            )).push(hart));
        }
        assert forall|other: u64| other != hart || !targeted(hart_mask, hart) implies #[trigger] after.line(
            other,
        ) == before.line(other) by {}
        assert forall|other: u64| other < harts && targeted(hart_mask, other) implies !#[trigger] after.line(
            other,
        ) by {
            if other != hart {
                assert(!before.line(other));
            }
        }
        assert forall|other: u64| !(other < harts && targeted(hart_mask, other)) implies #[trigger] after.line(
            other,
        ) == machine.line(other) by {
            assert(before.line(other) == machine.line(other));
        }
    }
}

/// The writes that arm the one-shot timer of `hart` for the absolute time
/// `deadline`: the compare register is written, and the machine timer
/// interrupt that may be left pending from the last deadline is cleared.
pub open spec fn timer_ops(hart: u64, deadline: u64) -> Seq<Op> {
    seq![Op::WriteDeadline { hart, deadline }, Op::ClearMip(MACHINE_TIMER)]
}

/// Decides what to write to arm the timer of `hart`.
pub fn set_timer(hart: u64, stime_value: u64) -> (ops: Vec<Op>)
    ensures
        ops@ == timer_ops(hart, stime_value),
{
    let mut ops: Vec<Op> = Vec::new();
    ops.push(Op::WriteDeadline { hart, deadline: stime_value });
    ops.push(Op::ClearMip(MACHINE_TIMER));
    assert(ops@ =~= timer_ops(hart, stime_value));
    ops
}

/// After the timer is armed, the hart's compare register holds the deadline,
/// no machine timer interrupt is pending, and nothing else has changed.
pub proof fn timer_effect(machine: Hart, hart: u64, deadline: u64)
    ensures
        machine.run(timer_ops(hart, deadline)) == (Hart {
            deadlines: machine.deadlines.insert(hart, deadline),
            mip: machine.mip & !MACHINE_TIMER,
            ..machine
        }),
{
    machine.run_two(Op::WriteDeadline { hart, deadline }, Op::ClearMip(MACHINE_TIMER));
}

} // verus!
