//! 32-bit ARM: the generic timer's virtual count where user space may read
//! it, and the monotonic clock in nanoseconds where it may not.
//!
//! Cores before the virtualization extensions have no generic timer, and
//! where there is one the kernel decides who may read it. Either way the
//! instruction is a signal where it is not allowed, so a forked child tries.
use crate::arch::insn::{between, between_forward, bracket, scalar_kernel, timed, Insn};
use crate::child::ChildOutcome;
use crate::machine::Target;
use vstd::prelude::*;

verus! {

/// The bit of the hardware capabilities that stands for NEON.
pub const HWCAP_NEON: u64 = 0x1000;

/// What `CNTFRQ` says, where the generic timer may be read: with no system
/// underneath it always may, in a process only where the build has ARMv7
/// instructions to ask with and a child that tried came back.
pub open spec fn timer_rate(target: Target, outcome: ChildOutcome, cntfrq: u32) -> Option<u32> {
    if target.freestanding || (target.v7 && outcome.well()) {
        Some(cntfrq)
    } else {
        None
    }
}

/// Whether the generic timer is readable, and its rate. The rate is read only
/// once that is known.
pub fn generic_timer(target: Target, outcome: ChildOutcome, cntfrq: u32) -> (rate: Option<u32>)
    ensures
        rate == timer_rate(target, outcome, cntfrq),
{
    if target.freestanding {
        return Some(cntfrq);
    }
    if !target.v7 {
        return None;
    }
    if outcome.ended_well() {
        Some(cntfrq)
    } else {
        None
    }
}

/// The code a child exits with after it read the timer: a rate of zero is no
/// timer.
pub fn probe_exit_code(cntfrq: u32) -> (code: i32)
    ensures
        code == (if cntfrq != 0 {
            0int
        } else {
            2
        }),
{
    if cntfrq != 0 {
        0
    } else {
        2
    }
}

/// Whether the counter is the generic timer (ticks) rather than the monotonic
/// clock (nanoseconds).
pub fn uses_generic_timer(rate: Option<u32>) -> (ticks: bool)
    ensures
        ticks == (rate is Some),
{
    rate.is_some()
}

/// One read of the counter.
pub open spec fn bare_read(rate: Option<u32>) -> Seq<Insn> {
    if rate is Some {
        seq![Insn::Cntvct]
    } else {
        seq![Insn::Monotonic]
    }
}

/// One read of the counter between two `ISB`s, which only ARMv7 has.
pub open spec fn isb_read(v7: bool, rate: Option<u32>) -> Seq<Insn> {
    if v7 {
        seq![Insn::Isb] + bare_read(rate) + seq![Insn::Isb]
    } else {
        bare_read(rate)
    }
}

/// Raw counter read.
pub fn counter_raw(rate: Option<u32>) -> (plan: Vec<Insn>)
    ensures
        plan@ == bare_read(rate),
{
    let plan: Vec<Insn> = if uses_generic_timer(rate) {
        vec![Insn::Cntvct]
    } else {
        vec![Insn::Monotonic]
    };
    assert(plan@ =~= bare_read(rate));
    plan
}

/// Ordered read for either end of an interval.
pub fn counter_isb(v7: bool, rate: Option<u32>) -> (plan: Vec<Insn>)
    ensures
        plan@ == isb_read(v7, rate),
{
    let mut plan: Vec<Insn> = Vec::new();
    if v7 {
        plan.push(Insn::Isb);
    }
    let mut read: Vec<Insn> = counter_raw(rate);
    plan.append(&mut read);
    if v7 {
        plan.push(Insn::Isb);
    }
    assert(plan@ =~= isb_read(v7, rate));
    plan
}

/// The barrier: `DMB` where the architecture has it.
pub open spec fn barrier(v7: bool) -> Insn {
    if v7 {
        Insn::Dmb
    } else {
        Insn::FullFence
    }
}

/// The barrier: `DMB` where the architecture has it, a fence before.
pub fn dmb(v7: bool) -> (insn: Insn)
    ensures
        insn == barrier(v7),
{
    if v7 {
        Insn::Dmb
    } else {
        Insn::FullFence
    }
}

/// The counter's rate: the timer's, or a gigahertz for nanoseconds.
pub open spec fn rate_of(rate: Option<u32>) -> Option<u64> {
    match rate {
        Some(hz) => if hz == 0 {
            None
        } else {
            Some(hz as u64)
        },
        None => Some(1_000_000_000),
    }
}

/// The counter's rate. A timer that states none has none.
pub fn counter_hz(rate: Option<u32>) -> (hz: Option<u64>)
    ensures
        hz == rate_of(rate),
{
    match rate {
        Some(hz) => if hz == 0 {
            None
        } else {
            Some(hz as u64)
        },
        None => Some(1_000_000_000),
    }
}

/// Back-to-back ordered reads: the measurement floor.
pub fn read_overhead(first: u64, second: u64) -> (units: u64)
    ensures
        units == crate::arch::insn::forward(first, second),
{
    between_forward(first, second)
}

/// The instructions of a barrier-cost probe.
pub open spec fn barrier_probe(v7: bool, rate: Option<u32>, iterations: u32) -> Seq<Insn> {
    crate::arch::insn::bracketed(isb_read(v7, rate), barrier(v7), iterations, isb_read(v7, rate))
}

/// Plans `iterations` back-to-back barriers between two counter reads.
pub fn probe_barrier_plan(v7: bool, rate: Option<u32>, iterations: u32) -> (plan: Vec<Insn>)
    ensures
        plan@ == barrier_probe(v7, rate, iterations),
{
    bracket(counter_isb(v7, rate), dmb(v7), iterations, counter_isb(v7, rate))
}

/// Units between the two reads of a barrier-cost probe.
pub fn probe_barrier(start: u64, end: u64) -> (units: u64)
    ensures
        units == crate::arch::insn::elapsed(start, end),
{
    between(start, end)
}

/// Some work between two ordered reads.
pub open spec fn timed_work(v7: bool, rate: Option<u32>, work: Seq<Insn>) -> Seq<Insn> {
    isb_read(v7, rate) + work + isb_read(v7, rate)
}

/// Plans a probe of one load.
pub fn probe_load(v7: bool, rate: Option<u32>) -> (plan: Vec<Insn>)
    ensures
        plan@ == timed_work(v7, rate, seq![Insn::Load]),
{
    let work: Vec<Insn> = vec![Insn::Load];
    assert(work@ =~= seq![Insn::Load]);
    timed(counter_isb(v7, rate), work, counter_isb(v7, rate))
}

/// The read that a vector family's probes start from.
pub fn counter(v7: bool, rate: Option<u32>) -> (plan: Vec<Insn>)
    ensures
        plan@ == isb_read(v7, rate),
{
    counter_isb(v7, rate)
}

/// Plans a probe of one vector load.
pub fn vector_load_units(v7: bool, rate: Option<u32>) -> (plan: Vec<Insn>)
    ensures
        plan@ == timed_work(v7, rate, seq![Insn::VectorLoad]),
{
    let work: Vec<Insn> = vec![Insn::VectorLoad];
    assert(work@ =~= seq![Insn::VectorLoad]);
    timed(counter_isb(v7, rate), work, counter_isb(v7, rate))
}

/// Plans a probe of one vector operation.
pub fn vector_xor_units(v7: bool, rate: Option<u32>) -> (plan: Vec<Insn>)
    ensures
        plan@ == timed_work(v7, rate, seq![Insn::VectorXor]),
{
    let work: Vec<Insn> = vec![Insn::VectorXor];
    assert(work@ =~= seq![Insn::VectorXor]);
    timed(counter_isb(v7, rate), work, counter_isb(v7, rate))
}

/// The scalar loop.
pub fn kernel_scalar(loops: usize) -> (word: u64)
    ensures
        word == crate::arch::insn::scalar_rounds(loops as nat),
{
    scalar_kernel(loops)
}

/// A process that was not shown that it may read the timer never plans to:
/// every read it is handed asks the monotonic clock.
pub proof fn refused_timers_are_not_read(v7: bool, iterations: u32)
    ensures
        !bare_read(None).contains(Insn::Cntvct),
        !isb_read(v7, None).contains(Insn::Cntvct),
        !barrier_probe(v7, None, iterations).contains(Insn::Cntvct),
        !timed_work(v7, None, seq![Insn::Load]).contains(Insn::Cntvct),
        !timed_work(v7, None, seq![Insn::VectorLoad]).contains(Insn::Cntvct),
        !timed_work(v7, None, seq![Insn::VectorXor]).contains(Insn::Cntvct),
{
}

} // verus!
