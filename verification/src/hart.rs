use vstd::prelude::*;

verus! {

/// Machine software interrupt, as a bit of `mie` and of `mip`.
pub const MACHINE_SOFT: u64 = 0x8;

/// Machine timer interrupt, as a bit of `mie` and of `mip`.
pub const MACHINE_TIMER: u64 = 0x80;

/// Machine external interrupt, as a bit of `mie` and of `mip`.
pub const MACHINE_EXTERNAL: u64 = 0x800;

/// Supervisor software interrupt, as a bit of `mip` and of `mideleg`.
pub const SUPERVISOR_SOFT: u64 = 0x2;

/// Supervisor timer interrupt, as a bit of `mip` and of `mideleg`.
pub const SUPERVISOR_TIMER: u64 = 0x20;

/// One write to the hart or to the interrupt controller next to it.
///
/// The handlers of this crate decide; the platform carries out. Every
/// decision that changes privileged state is handed over as a list of these,
/// to be performed in order.
#[derive(Clone, Copy, Debug, PartialEq, Eq, Structural)]
pub enum Op {
    /// Set the bits of the mask in `mie`.
    SetMie(u64),
    /// Clear the bits of the mask in `mie`.
    ClearMie(u64),
    /// Set the bits of the mask in `mip`.
    SetMip(u64),
    /// Clear the bits of the mask in `mip`.
    ClearMip(u64),
    /// Set the bits of the mask in `mideleg`.
    SetMideleg(u64),
    /// Set the bits of the mask in `medeleg`.
    SetMedeleg(u64),
    /// Write the supervisor trap value register.
    WriteStval(u64),
    /// Write the machine exception program counter.
    WriteMepc(u64),
    /// Write the legacy page-table root register.
    WriteSptbr(u64),
    /// Write the machine status register.
    WriteMstatus(u64),
    /// Issue the legacy flush of the address-translation cache.
    FlushTlb,
    /// Assert the software-interrupt line of a hart.
    RaiseSoftware { hart: u64 },
    /// Release the software-interrupt line of a hart.
    ClearSoftware { hart: u64 },
    /// Write the timer compare register of a hart.
    WriteDeadline { hart: u64, deadline: u64 },
}

/// What the writes of [`Op`] act on: the privileged registers of one hart and
/// the lines of the interrupt controller that the firmware drives.
///
/// This is a specification object. It gives each write its meaning, so that
/// what a handler hands out can be judged by the state it leads to.
pub struct Hart {
    pub mie: u64,
    pub mip: u64,
    pub mideleg: u64,
    pub medeleg: u64,
    pub stval: u64,
    pub mepc: u64,
    pub sptbr: u64,
    pub mstatus: u64,
    /// Number of translation-cache flushes issued so far.
    pub flushes: nat,
    /// Level of each hart's software-interrupt line; an absent hart reads low.
    pub software: Map<u64, bool>,
    /// The harts whose line was asserted, in the order of the assertions.
    pub rings: Seq<u64>,
    /// Timer compare value of each hart.
    pub deadlines: Map<u64, u64>,
}

impl Hart {
    /// The state after one write.
    pub open spec fn apply(self, op: Op) -> Hart {
        match op {
            Op::SetMie(mask) => Hart { mie: self.mie | mask, ..self },
            Op::ClearMie(mask) => Hart { mie: self.mie & !mask, ..self },
            Op::SetMip(mask) => Hart { mip: self.mip | mask, ..self },
            Op::ClearMip(mask) => Hart { mip: self.mip & !mask, ..self },
            Op::SetMideleg(mask) => Hart { mideleg: self.mideleg | mask, ..self },
            Op::SetMedeleg(mask) => Hart { medeleg: self.medeleg | mask, ..self },
            Op::WriteStval(value) => Hart { stval: value, ..self },
            Op::WriteMepc(value) => Hart { mepc: value, ..self },
            Op::WriteSptbr(value) => Hart { sptbr: value, ..self },
            Op::WriteMstatus(value) => Hart { mstatus: value, ..self },
            Op::FlushTlb => Hart { flushes: self.flushes + 1, ..self },
            Op::RaiseSoftware { hart } => Hart {
                software: self.software.insert(hart, true),
                rings: self.rings.push(hart),
                ..self
            },
            Op::ClearSoftware { hart } => Hart { software: self.software.insert(hart, false), ..self },
            Op::WriteDeadline { hart, deadline } => Hart {
                deadlines: self.deadlines.insert(hart, deadline),
                ..self
            },
        }
    }

    /// The state after a list of writes, performed first to last.
    pub open spec fn run(self, ops: Seq<Op>) -> Hart
        decreases ops.len(),
    {
        if ops.len() == 0 {
            self
        } else {
            self.run(ops.drop_last()).apply(ops.last())
        }
    }

    /// Whether the software-interrupt line of `hart` is asserted.
    pub open spec fn line(self, hart: u64) -> bool {
        self.software.contains_key(hart) && self.software[hart]
    }

    /// Running nothing changes nothing.
    pub proof fn run_empty(self)
        ensures
            self.run(Seq::<Op>::empty()) == self,
    {
    }

    /// Running a list and then one more write is running the longer list.
    pub proof fn run_push(self, ops: Seq<Op>, op: Op)
        ensures
            self.run(ops.push(op)) == self.run(ops).apply(op),
    {
        assert(ops.push(op).drop_last() =~= ops);
    }

    /// Running two lists in a row is running their concatenation.
    pub proof fn run_concat(self, first: Seq<Op>, second: Seq<Op>)
        ensures
            self.run(first + second) == self.run(first).run(second),
        decreases second.len(),
    {
        if second.len() == 0 {
            assert(first + second =~= first);
        } else {
            self.run_concat(first, second.drop_last());
            assert((first + second).drop_last() =~= first + second.drop_last());
        }
    }

    /// A list of one write.
    pub proof fn run_one(self, a: Op)
        ensures
            self.run(seq![a]) == self.apply(a),
    {
        assert(seq![a] =~= Seq::<Op>::empty().push(a));
        self.run_push(Seq::<Op>::empty(), a);
    }

    /// A list of two writes.
    pub proof fn run_two(self, a: Op, b: Op)
        ensures
            self.run(seq![a, b]) == self.apply(a).apply(b),
    {
        self.run_one(a);
        assert(seq![a, b] =~= seq![a].push(b));
        self.run_push(seq![a], b);
    }

    /// A list of three writes.
    pub proof fn run_three(self, a: Op, b: Op, c: Op)
        ensures
            self.run(seq![a, b, c]) == self.apply(a).apply(b).apply(c),
    {
        self.run_two(a, b);
        assert(seq![a, b, c] =~= seq![a, b].push(c));
        self.run_push(seq![a, b], c);
    }

    /// A list of four writes.
    pub proof fn run_four(self, a: Op, b: Op, c: Op, d: Op)
        ensures
            self.run(seq![a, b, c, d]) == self.apply(a).apply(b).apply(c).apply(d),
    {
        self.run_three(a, b, c);
        assert(seq![a, b, c, d] =~= seq![a, b, c].push(d));
        self.run_push(seq![a, b, c], d);
    }
}

} // verus!
