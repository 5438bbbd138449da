//! PowerPC: the Time Base and its rate.
use crate::arch::insn::{between, between_forward, bracket, scalar_kernel, timed, Insn};
use crate::text::{chars_of, lines, parse_unsigned, same, split_once, trim, Trim};
use vstd::prelude::*;

verus! {

/// One read of the Time Base: one instruction on a 64-bit part, the halves of
/// [`crate::arch::insn::join_halves`] on a 32-bit one.
pub open spec fn bare_read(wide: bool) -> Seq<Insn> {
    if wide {
        seq![Insn::Timebase]
    } else {
        seq![Insn::TimebaseUpper, Insn::TimebaseLower, Insn::TimebaseUpper]
    }
}

/// The start of an interval: nothing of the work begins before the read.
pub open spec fn start_read(wide: bool) -> Seq<Insn> {
    bare_read(wide).push(Insn::Isync)
}

/// The end of an interval: the read waits for all of the work.
pub open spec fn end_read(wide: bool) -> Seq<Insn> {
    seq![Insn::Isync] + bare_read(wide)
}

/// The Time Base, with no ordering.
pub fn timebase_raw(wide: bool) -> (plan: Vec<Insn>)
    ensures
        plan@ == bare_read(wide),
{
    let plan: Vec<Insn> = if wide {
        vec![Insn::Timebase]
    } else {
        vec![Insn::TimebaseUpper, Insn::TimebaseLower, Insn::TimebaseUpper]
    };
    assert(plan@ =~= bare_read(wide));
    plan
}

/// The Time Base for the start of an interval.
pub fn timebase_start(wide: bool) -> (plan: Vec<Insn>)
    ensures
        plan@ == start_read(wide),
{
    let mut plan: Vec<Insn> = timebase_raw(wide);
    plan.push(Insn::Isync);
    plan
}

/// The Time Base for the end of an interval.
pub fn timebase_end(wide: bool) -> (plan: Vec<Insn>)
    ensures
        plan@ == end_read(wide),
{
    let mut plan: Vec<Insn> = vec![Insn::Isync];
    let mut read: Vec<Insn> = timebase_raw(wide);
    plan.append(&mut read);
    assert(plan@ =~= end_read(wide));
    plan
}

/// The fully ordered read, for work that touches memory: `sync` waits for
/// stores, which `isync` alone does not.
pub fn timebase_ordered(wide: bool) -> (plan: Vec<Insn>)
    ensures
        plan@ == seq![Insn::Sync] + end_read(wide).push(Insn::Isync),
{
    let mut plan: Vec<Insn> = vec![Insn::Sync];
    let mut read: Vec<Insn> = timebase_end(wide);
    plan.append(&mut read);
    plan.push(Insn::Isync);
    assert(plan@ =~= seq![Insn::Sync] + end_read(wide).push(Insn::Isync));
    plan
}

/// The rate one line states: `timebase : <hz>`, and not zero.
pub open spec fn line_rate(line: Seq<char>) -> Option<int> {
    match crate::text::parted(line, ':') {
        Some((key, value)) => {
            if crate::text::trimmed(key, Trim::Space) == "timebase"@ {
                match crate::text::unsigned_value(
                    crate::text::trimmed(value, Trim::Space),
                    10,
                    u64::MAX as int,
                ) {
                    Some(hz) => if hz > 0 {
                        Some(hz)
                    } else {
                        None
                    },
                    None => None,
                }
            } else {
                None
            }
        },
        None => None,
    }
}

/// The rate of the first line that states one.
pub open spec fn first_rate(lines: Seq<Seq<char>>) -> Option<int>
    decreases lines.len(),
{
    if lines.len() == 0 {
        None
    } else if line_rate(lines[0]) is Some {
        line_rate(lines[0])
    } else {
        first_rate(lines.skip(1))
    }
}

fn read_line_rate(line: &[char]) -> (hz: Option<u64>)
    ensures
        match hz {
            Some(hz) => line_rate(line@) == Some(hz as int),
            None => line_rate(line@) is None,
        },
{
    match split_once(line, ':') {
        Some((key, value)) => {
            if !same(trim(key, Trim::Space), "timebase") {
                return None;
            }
            match parse_unsigned(trim(value, Trim::Space), 10, u64::MAX) {
                Some(hz) => if hz > 0 {
                    Some(hz)
                } else {
                    None
                },
                None => None,
            }
        },
        None => None,
    }
}

/// Takes the `timebase : <hz>` line out of what the kernel says of the
/// processor.
pub fn parse_cpuinfo_timebase(text: &str) -> (hz: Option<u64>)
    ensures
        match hz {
            Some(hz) => first_rate(crate::text::text_lines(text@)) == Some(hz as int),
            None => first_rate(crate::text::text_lines(text@)) is None,
        },
{
    let chars: Vec<char> = chars_of(text);
    let parts: Vec<&[char]> = lines(chars.as_slice());
    let ghost all = crate::text::text_lines(text@);
    let mut i: usize = 0;
    assert(all.skip(0) =~= all);
    while i < parts.len()
        invariant
            i <= parts.len(),
            all == crate::text::parts_view(parts@),
            all == crate::text::text_lines(text@),
            first_rate(all) == first_rate(all.skip(i as int)),
        decreases parts.len() - i,
    {
        let rate: Option<u64> = read_line_rate(parts[i]);
        assert(all.skip(i as int)[0] == parts@[i as int]@);
        if rate.is_some() {
            return rate;
        }
        assert(all.skip(i as int).skip(1) =~= all.skip(i + 1));
        i = i + 1;
    }
    None
}

/// The rate in a hosted process, from what the kernel says of the processor.
pub fn timebase_hz(cpuinfo: &Option<String>) -> (hz: Option<u64>)
    ensures
        match cpuinfo {
            Some(text) => match hz {
                Some(hz) => first_rate(crate::text::text_lines(text@)) == Some(hz as int),
                None => first_rate(crate::text::text_lines(text@)) is None,
            },
            None => hz is None,
        },
{
    match cpuinfo {
        Some(text) => parse_cpuinfo_timebase(text.as_str()),
        None => None,
    }
}

/// The rate a kernel with no system under it read from the device tree, or
/// zero while it has not.
#[derive(Debug, Clone, Copy, PartialEq, Eq, Structural)]
pub struct TimebaseRate {
    pub hz: u32,
}

impl Default for TimebaseRate {
    fn default() -> (rate: TimebaseRate)
        ensures
            rate.hz == 0,
    {
        TimebaseRate { hz: 0 }
    }
}

impl TimebaseRate {
    /// The recorded rate, if one was.
    pub fn timebase_hz(&self) -> (hz: Option<u64>)
        ensures
            hz == (if self.hz == 0 {
                None
            } else {
                Some(self.hz as u64)
            }),
    {
        if self.hz == 0 {
            None
        } else {
            Some(self.hz as u64)
        }
    }

    /// Records the rate. One that does not fit is refused rather than
    /// truncated: a wrong divisor is worse than none.
    pub fn set_timebase_hz(&mut self, hz: u64)
        ensures
            final(self).hz == (if hz <= u32::MAX {
                hz as u32
            } else {
                old(self).hz
            }),
    {
        if hz <= u32::MAX as u64 {
            self.hz = hz as u32;
        }
    }
}

/// The instructions of a barrier-cost probe.
pub open spec fn barrier_probe(wide: bool, iterations: u32) -> Seq<Insn> {
    crate::arch::insn::bracketed(start_read(wide), Insn::Sync, iterations, end_read(wide))
}

/// Plans `iterations` back-to-back `sync`s between two counter reads.
pub fn probe_barrier_plan(wide: bool, iterations: u32) -> (plan: Vec<Insn>)
    ensures
        plan@ == barrier_probe(wide, iterations),
{
    bracket(timebase_start(wide), Insn::Sync, iterations, timebase_end(wide))
}

/// Ticks between the two reads of a barrier-cost probe.
pub fn probe_barrier_ticks(start: u64, end: u64) -> (ticks: u64)
    ensures
        ticks == crate::arch::insn::elapsed(start, end),
{
    between(start, end)
}

/// Back-to-back ordered reads: the measurement floor.
pub fn read_overhead_ticks(first: u64, second: u64) -> (ticks: u64)
    ensures
        ticks == crate::arch::insn::forward(first, second),
{
    between_forward(first, second)
}

/// Some work between an ordered start read and an ordered end read.
pub open spec fn timed_work(wide: bool, work: Seq<Insn>) -> Seq<Insn> {
    start_read(wide) + work + end_read(wide)
}

/// Plans a probe of one load.
pub fn probe_load_ticks(wide: bool) -> (plan: Vec<Insn>)
    ensures
        plan@ == timed_work(wide, seq![Insn::Load]),
{
    let work: Vec<Insn> = vec![Insn::Load];
    assert(work@ =~= seq![Insn::Load]);
    timed(timebase_start(wide), work, timebase_end(wide))
}

/// Plans a probe of one load with `sync` on both sides.
pub fn probe_load_sync_ticks(wide: bool) -> (plan: Vec<Insn>)
    ensures
        plan@ == seq![Insn::Sync] + timed_work(wide, seq![Insn::Load, Insn::Sync]),
{
    let work: Vec<Insn> = vec![Insn::Load, Insn::Sync];
    assert(work@ =~= seq![Insn::Load, Insn::Sync]);
    let mut plan: Vec<Insn> = vec![Insn::Sync];
    assert(plan@ =~= seq![Insn::Sync]);
    let mut rest: Vec<Insn> = timed(timebase_start(wide), work, timebase_end(wide));
    plan.append(&mut rest);
    plan
}

/// Plans a probe of one store, completed by `sync`.
pub fn probe_store_ticks(wide: bool) -> (plan: Vec<Insn>)
    ensures
        plan@ == timed_work(wide, seq![Insn::Store, Insn::Sync]),
{
    let work: Vec<Insn> = vec![Insn::Store, Insn::Sync];
    assert(work@ =~= seq![Insn::Store, Insn::Sync]);
    timed(timebase_start(wide), work, timebase_end(wide))
}

/// Plans a probe of one load behind a touch of its line.
pub fn probe_prefetch_load_ticks(wide: bool) -> (plan: Vec<Insn>)
    ensures
        plan@ == seq![Insn::Touch] + timed_work(wide, seq![Insn::Load]),
{
    let mut plan: Vec<Insn> = vec![Insn::Touch];
    assert(plan@ =~= seq![Insn::Touch]);
    let mut rest: Vec<Insn> = probe_load_ticks(wide);
    plan.append(&mut rest);
    plan
}

/// The read that a vector family's probes start from.
pub fn counter(wide: bool) -> (plan: Vec<Insn>)
    ensures
        plan@ == start_read(wide),
{
    timebase_start(wide)
}

/// Plans a probe of one vector load.
pub fn vector_load_ticks(wide: bool) -> (plan: Vec<Insn>)
    ensures
        plan@ == timed_work(wide, seq![Insn::VectorLoad]),
{
    let work: Vec<Insn> = vec![Insn::VectorLoad];
    assert(work@ =~= seq![Insn::VectorLoad]);
    timed(timebase_start(wide), work, timebase_end(wide))
}

/// Plans a probe of one vector operation.
pub fn vector_xor_ticks(wide: bool) -> (plan: Vec<Insn>)
    ensures
        plan@ == timed_work(wide, seq![Insn::VectorXor]),
{
    let work: Vec<Insn> = vec![Insn::VectorXor];
    assert(work@ =~= seq![Insn::VectorXor]);
    timed(timebase_start(wide), work, timebase_end(wide))
}

/// The barrier's cost on a vector family's path: the same probe.
pub fn barrier_ticks(wide: bool, iterations: u32) -> (plan: Vec<Insn>)
    ensures
        plan@ == barrier_probe(wide, iterations),
{
    probe_barrier_plan(wide, iterations)
}

/// The scalar loop.
pub fn kernel_scalar(loops: usize) -> (word: u64)
    ensures
        word == crate::arch::insn::scalar_rounds(loops as nat),
{
    scalar_kernel(loops)
}

} // verus!
