//! AArch64: the virtual and the physical counter.
//!
//! Both tick at `CNTFRQ_EL0` rather than at core frequency. The virtual one
//! is what a system hands its processes and what no hypervisor traps; the
//! physical one is what the hardware ticks, and has to be asked for.
use crate::arch::insn::{between, between_forward, bracket, least_elapsed, scalar_kernel, timed, Insn};
use crate::child::ChildOutcome;
use vstd::prelude::*;

verus! {

/// `CNTVCT_EL0` with no barrier.
pub fn cntvct_raw() -> (plan: Vec<Insn>)
    ensures
        plan@ == seq![Insn::Cntvct],
{
    let plan: Vec<Insn> = vec![Insn::Cntvct];
    assert(plan@ =~= seq![Insn::Cntvct]);
    plan
}

/// `ISB` and `CNTVCT_EL0`: the ordered read of an interval boundary.
pub fn cntvct_isb() -> (plan: Vec<Insn>)
    ensures
        plan@ == isb_read(false),
{
    let plan: Vec<Insn> = vec![Insn::Isb, Insn::Cntvct];
    assert(plan@ =~= isb_read(false));
    plan
}

/// The fully ordered virtual read: memory traffic first, and nothing after.
pub fn cntvct_ordered() -> (plan: Vec<Insn>)
    ensures
        plan@ == seq![Insn::DsbSy, Insn::Isb, Insn::Cntvct, Insn::Isb],
{
    let plan: Vec<Insn> = vec![Insn::DsbSy, Insn::Isb, Insn::Cntvct, Insn::Isb];
    assert(plan@ =~= seq![Insn::DsbSy, Insn::Isb, Insn::Cntvct, Insn::Isb]);
    plan
}

/// `CNTPCT_EL0` with no barrier.
pub fn cntpct_raw() -> (plan: Vec<Insn>)
    ensures
        plan@ == seq![Insn::Cntpct],
{
    let plan: Vec<Insn> = vec![Insn::Cntpct];
    assert(plan@ =~= seq![Insn::Cntpct]);
    plan
}

/// `ISB` and `CNTPCT_EL0`.
pub fn cntpct_isb() -> (plan: Vec<Insn>)
    ensures
        plan@ == isb_read(true),
{
    let plan: Vec<Insn> = vec![Insn::Isb, Insn::Cntpct];
    assert(plan@ =~= isb_read(true));
    plan
}

/// The fully ordered physical read.
pub fn cntpct_ordered() -> (plan: Vec<Insn>)
    ensures
        plan@ == seq![Insn::DsbSy, Insn::Isb, Insn::Cntpct, Insn::Isb],
{
    let plan: Vec<Insn> = vec![Insn::DsbSy, Insn::Isb, Insn::Cntpct, Insn::Isb];
    assert(plan@ =~= seq![Insn::DsbSy, Insn::Isb, Insn::Cntpct, Insn::Isb]);
    plan
}

/// The selected counter, with no barrier.
pub open spec fn bare_read(physical: bool) -> Seq<Insn> {
    if physical {
        seq![Insn::Cntpct]
    } else {
        seq![Insn::Cntvct]
    }
}

/// The selected counter behind an `ISB`.
pub open spec fn isb_read(physical: bool) -> Seq<Insn> {
    if physical {
        seq![Insn::Isb, Insn::Cntpct]
    } else {
        seq![Insn::Isb, Insn::Cntvct]
    }
}

/// Which of the two counters reads use. The virtual one, until the physical
/// one is asked for and permitted.
#[derive(Debug, Clone, Copy, PartialEq, Eq, Structural)]
pub struct CounterChoice {
    pub physical: bool,
}

impl Default for CounterChoice {
    fn default() -> (choice: CounterChoice)
        ensures
            !choice.physical,
    {
        CounterChoice { physical: false }
    }
}

impl CounterChoice {
    /// Whether reads use `CNTPCT_EL0`.
    pub fn physical_selected(&self) -> (physical: bool)
        ensures
            physical == self.physical,
    {
        self.physical
    }

    /// Selects the counter.
    pub fn select_physical(&mut self, on: bool)
        ensures
            final(self).physical == on,
    {
        self.physical = on;
    }

    /// The selected counter, unordered.
    pub fn counter_raw(&self) -> (plan: Vec<Insn>)
        ensures
            plan@ == bare_read(self.physical),
    {
        if self.physical_selected() {
            cntpct_raw()
        } else {
            cntvct_raw()
        }
    }

    /// The selected counter, ordered by an `ISB`.
    pub fn counter_isb(&self) -> (plan: Vec<Insn>)
        ensures
            plan@ == isb_read(self.physical),
    {
        if self.physical_selected() {
            cntpct_isb()
        } else {
            cntvct_isb()
        }
    }
}

/// How it was found out whether `CNTPCT_EL0` may be read. An instruction that
/// is not permitted is a signal rather than an error, so a hosted process
/// tries it where a failure cannot hurt.
#[derive(Debug, Clone, Copy, PartialEq, Eq, Structural)]
pub enum PermissionProbe {
    /// With no system underneath, the read is always allowed.
    Freestanding,
    /// A forked child tried it.
    Forked { outcome: ChildOutcome },
    /// It was tried under an exception handler that steps over it.
    Handled { installed: bool, faulted: bool },
}

impl PermissionProbe {
    pub open spec fn permits(self) -> bool {
        match self {
            PermissionProbe::Freestanding => true,
            PermissionProbe::Forked { outcome } => outcome.well(),
            PermissionProbe::Handled { installed, faulted } => installed && !faulted,
        }
    }
}

/// Whether `CNTPCT_EL0` may be read at all.
pub fn physical_permitted(probe: PermissionProbe) -> (permitted: bool)
    ensures
        permitted == probe.permits(),
{
    match probe {
        PermissionProbe::Freestanding => true,
        PermissionProbe::Forked { outcome } => outcome.ended_well(),
        PermissionProbe::Handled { installed, faulted } => installed && !faulted,
    }
}

/// The status of an instruction that does not exist or is not allowed.
pub const ILLEGAL_INSTRUCTION: u32 = 0xC000_001D;

/// What an exception handler tells the system.
#[derive(Debug, Clone, Copy, PartialEq, Eq, Structural)]
pub enum HandlerAnswer {
    /// Go on behind the four bytes of the instruction.
    StepOver { to: u64 },
    /// Someone else's exception.
    PassOn,
}

/// The probe's exception handler: it recognises one faulting address, the
/// probe's own, and passes every other exception on untouched.
pub fn probe_handler(code: u32, address: u64, site: u64) -> (answer: HandlerAnswer)
    requires
        address <= u64::MAX - 4,
    ensures
        answer == (if code == ILLEGAL_INSTRUCTION && address == site {
            HandlerAnswer::StepOver { to: (address + 4) as u64 }
        } else {
            HandlerAnswer::PassOn
        }),
{
    if code == ILLEGAL_INSTRUCTION && address == site {
        HandlerAnswer::StepOver { to: address + 4 }
    } else {
        HandlerAnswer::PassOn
    }
}

/// How many reads one timed batch makes.
pub const READ_BATCH: u64 = 64;

/// The shortest batch, in whole nanoseconds per read.
pub open spec fn cost_of(least: int, hz: int) -> int {
    crate::num::capped(least * 1_000_000_000, u64::MAX as int) / hz / 64
}

/// Nanoseconds per read, from several batches of reads timed with the
/// virtual counter.
pub fn read_cost_ns(hz: u64, batches: &[(u64, u64)]) -> (ns: u64)
    ensures
        hz == 0 ==> ns == 0,
        hz > 0 && batches.len() == 0 ==> ns == cost_of(u64::MAX as int, hz as int),
        hz > 0 && batches.len() > 0 ==> exists|least: u64|
            crate::arch::insn::least_of_all(crate::arch::insn::all_elapsed(batches@), least) && ns
                == #[trigger] cost_of(least as int, hz as int),
{
    if hz == 0 {
        return 0;
    }
    let best: u64 = match least_elapsed(batches) {
        Some(least) => least,
        None => u64::MAX,
    };
    let ns: u64 = crate::num::saturating_mul_u64(best, 1_000_000_000) / hz / READ_BATCH;
    assert(ns == cost_of(best as int, hz as int));
    ns
}

/// The least of several timed pairs, or zero where there is none.
pub open spec fn floor_of(pairs: Seq<(u64, u64)>, floor: u64) -> bool {
    if pairs.len() == 0 {
        floor == 0
    } else {
        crate::arch::insn::least_of_all(crate::arch::insn::all_elapsed(pairs), floor)
    }
}

fn floor(pairs: &[(u64, u64)]) -> (least: u64)
    ensures
        floor_of(pairs@, least),
{
    match least_elapsed(pairs) {
        Some(least) => least,
        None => 0,
    }
}

/// The cost of a bare pair of reads and of a synchronised one, in counter
/// units, from many of each. Anything above the least is interference.
pub fn barrier_cost_pair(bare: &[(u64, u64)], synchronised: &[(u64, u64)]) -> (costs: (u64, u64))
    ensures
        floor_of(bare@, costs.0),
        floor_of(synchronised@, costs.1),
{
    (floor(bare), floor(synchronised))
}

/// The instructions of a barrier-cost probe.
pub open spec fn barrier_probe(iterations: u32) -> Seq<Insn> {
    crate::arch::insn::bracketed(isb_read(false), Insn::DmbSy, iterations, isb_read(false))
}

/// Plans `iterations` back-to-back `DMB SY`s between two counter reads.
pub fn probe_barrier_plan(iterations: u32) -> (plan: Vec<Insn>)
    ensures
        plan@ == barrier_probe(iterations),
{
    bracket(cntvct_isb(), Insn::DmbSy, iterations, cntvct_isb())
}

/// Ticks between the two reads of a barrier-cost probe.
pub fn probe_barrier_ticks(start: u64, end: u64) -> (ticks: u64)
    ensures
        ticks == crate::arch::insn::elapsed(start, end),
{
    between(start, end)
}

/// Back-to-back counter reads: the measurement floor.
pub fn read_overhead_ticks(first: u64, second: u64) -> (ticks: u64)
    ensures
        ticks == crate::arch::insn::forward(first, second),
{
    between_forward(first, second)
}

/// Some work between two ordered reads of the virtual counter.
pub open spec fn timed_work(work: Seq<Insn>) -> Seq<Insn> {
    isb_read(false) + work + isb_read(false)
}

/// Plans a probe of one load.
pub fn probe_load_ticks() -> (plan: Vec<Insn>)
    ensures
        plan@ == timed_work(seq![Insn::Load]),
{
    let work: Vec<Insn> = vec![Insn::Load];
    assert(work@ =~= seq![Insn::Load]);
    timed(cntvct_isb(), work, cntvct_isb())
}

/// Plans a probe of one load with a full system barrier on both sides.
pub fn probe_load_dsb_ticks() -> (plan: Vec<Insn>)
    ensures
        plan@ == seq![Insn::DsbSy] + timed_work(seq![Insn::Load, Insn::DsbSy]),
{
    let work: Vec<Insn> = vec![Insn::Load, Insn::DsbSy];
    assert(work@ =~= seq![Insn::Load, Insn::DsbSy]);
    let mut plan: Vec<Insn> = vec![Insn::DsbSy];
    assert(plan@ =~= seq![Insn::DsbSy]);
    let mut rest: Vec<Insn> = timed(cntvct_isb(), work, cntvct_isb());
    plan.append(&mut rest);
    plan
}

/// Plans a probe of one store, completed by a barrier.
pub fn probe_store_ticks() -> (plan: Vec<Insn>)
    ensures
        plan@ == timed_work(seq![Insn::Store, Insn::DmbSy]),
{
    let work: Vec<Insn> = vec![Insn::Store, Insn::DmbSy];
    assert(work@ =~= seq![Insn::Store, Insn::DmbSy]);
    timed(cntvct_isb(), work, cntvct_isb())
}

/// Plans a probe of one load behind a prefetch of its line.
pub fn probe_prefetch_load_ticks() -> (plan: Vec<Insn>)
    ensures
        plan@ == seq![Insn::PrefetchKeep] + timed_work(seq![Insn::Load]),
{
    let mut plan: Vec<Insn> = vec![Insn::PrefetchKeep];
    assert(plan@ =~= seq![Insn::PrefetchKeep]);
    let mut rest: Vec<Insn> = probe_load_ticks();
    plan.append(&mut rest);
    plan
}

/// The read that a vector family's probes start from.
pub fn counter() -> (plan: Vec<Insn>)
    ensures
        plan@ == isb_read(false),
{
    cntvct_isb()
}

/// Plans a probe of one vector load.
pub fn vector_load_ticks() -> (plan: Vec<Insn>)
    ensures
        plan@ == timed_work(seq![Insn::VectorLoad]),
{
    let work: Vec<Insn> = vec![Insn::VectorLoad];
    assert(work@ =~= seq![Insn::VectorLoad]);
    timed(cntvct_isb(), work, cntvct_isb())
}

/// Plans a probe of one vector operation.
pub fn vector_xor_ticks() -> (plan: Vec<Insn>)
    ensures
        plan@ == timed_work(seq![Insn::VectorXor]),
{
    let work: Vec<Insn> = vec![Insn::VectorXor];
    assert(work@ =~= seq![Insn::VectorXor]);
    timed(cntvct_isb(), work, cntvct_isb())
}

/// The barrier's cost on a vector family's path: the same probe.
pub fn barrier_ticks(iterations: u32) -> (plan: Vec<Insn>)
    ensures
        plan@ == barrier_probe(iterations),
{
    probe_barrier_plan(iterations)
}

/// The scalar loop.
pub fn kernel_scalar(loops: usize) -> (word: u64)
    ensures
        word == crate::arch::insn::scalar_rounds(loops as nat),
{
    scalar_kernel(loops)
}

/// The physical counter is read only where it was selected, so a process that
/// never asked for it never executes an instruction it may not.
pub proof fn virtual_reads_stay_virtual(iterations: u32)
    ensures
        !bare_read(false).contains(Insn::Cntpct),
        !isb_read(false).contains(Insn::Cntpct),
        !barrier_probe(iterations).contains(Insn::Cntpct),
        !timed_work(seq![Insn::Load]).contains(Insn::Cntpct),
        !timed_work(seq![Insn::Store, Insn::DmbSy]).contains(Insn::Cntpct),
        !timed_work(seq![Insn::VectorLoad]).contains(Insn::Cntpct),
        !timed_work(seq![Insn::VectorXor]).contains(Insn::Cntpct),
{
}

} // verus!
