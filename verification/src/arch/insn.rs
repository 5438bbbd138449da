//! The instructions counter reads are made of, and what their readings mean.
use vstd::prelude::*;

verus! {

/// One instruction of a counter read, a barrier or a spin hint.
#[derive(Debug, Clone, Copy, PartialEq, Eq, Structural)]
pub enum Insn {
    /// x86: drains the pipeline.
    Cpuid,
    Lfence,
    Mfence,
    Pause,
    Rdtsc,
    /// x86: the counter, and the processor it was read on. Newer parts only.
    Rdtscp,
    /// ARM: instruction synchronisation.
    Isb,
    /// AArch64: waits for every memory access to complete.
    DsbSy,
    /// AArch64: full memory barrier.
    DmbSy,
    /// 32-bit ARM: memory barrier.
    Dmb,
    /// AArch64: the spin hint.
    Yield,
    /// ARM: the virtual counter.
    Cntvct,
    /// AArch64: the physical counter.
    Cntpct,
    /// PowerPC: context synchronisation.
    Isync,
    /// PowerPC: completes every storage access.
    Sync,
    /// PowerPC: the low-priority hint.
    LowPriority,
    /// PowerPC: the whole Time Base.
    Timebase,
    /// PowerPC, 32-bit: the Time Base's upper half.
    TimebaseUpper,
    /// PowerPC, 32-bit: the Time Base's lower half.
    TimebaseLower,
    /// RISC-V: orders all earlier accesses before later ones.
    Fence,
    /// RISC-V: the spin hint.
    RiscvPause,
    /// RISC-V: the whole `time` counter.
    Time,
    /// RISC-V, 32-bit: the upper half of `time`.
    TimeUpper,
    /// RISC-V, 32-bit: the lower half of `time`.
    TimeLower,
    /// The system's monotonic clock, in nanoseconds.
    Monotonic,
    /// A sequentially consistent fence.
    FullFence,
    /// Whatever the compiler offers as a spin hint.
    SpinHint,
    /// x86: drops a line from every cache level.
    Clflush,
    /// x86: fetches a line into every cache level.
    PrefetchT0,
    /// AArch64: fetches a line into the first cache level.
    PrefetchKeep,
    /// PowerPC: touches a line.
    Touch,
    /// RISC-V: the whole `cycle` counter.
    Cycle,
    /// RISC-V, 32-bit: the upper half of `cycle`.
    CycleUpper,
    /// RISC-V, 32-bit: the lower half of `cycle`.
    CycleLower,
    /// RISC-V: the whole `instret` counter.
    Instret,
    /// RISC-V, 32-bit: the upper half of `instret`.
    InstretUpper,
    /// RISC-V, 32-bit: the lower half of `instret`.
    InstretLower,
    /// One load of the word under test.
    Load,
    /// One store to the word under test.
    Store,
    /// One load of a vector of the family under test.
    VectorLoad,
    /// Two vector loads, their combination, and a vector store.
    VectorXor,
}

/// Units between two readings of a counter that may have wrapped.
pub open spec fn elapsed(start: u64, end: u64) -> u64 {
    ((end - start) % 0x1_0000_0000_0000_0000) as u64
}

/// Units between two readings, none where the second is behind the first.
pub open spec fn forward(first: u64, second: u64) -> u64 {
    (if second >= first {
        second - first
    } else {
        0
    }) as u64
}

/// Units between two readings of a counter that may have wrapped.
pub fn between(start: u64, end: u64) -> (units: u64)
    ensures
        units == elapsed(start, end),
{
    end.wrapping_sub(start)
}

/// Units between two readings, none where the second is behind the first.
pub fn between_forward(first: u64, second: u64) -> (units: u64)
    ensures
        units == forward(first, second),
{
    second.saturating_sub(first)
}

/// Two readings with `iterations` barriers between them, and at least one.
pub open spec fn bracketed(
    start: Seq<Insn>,
    barrier: Insn,
    iterations: u32,
    end: Seq<Insn>,
) -> Seq<Insn> {
    start + Seq::new(
        if iterations == 0 {
            1
        } else {
            iterations as nat
        },
        |i: int| barrier,
    ) + end
}

/// Plans `iterations` back-to-back barriers between two counter reads.
pub fn bracket(start: Vec<Insn>, barrier: Insn, iterations: u32, end: Vec<Insn>) -> (plan: Vec<
    Insn,
>)
    ensures
        plan@ == bracketed(start@, barrier, iterations, end@),
{
    let n: u32 = if iterations == 0 {
        1
    } else {
        iterations
    };
    let mut plan: Vec<Insn> = start;
    let ghost before = start@;
    let mut i: u32 = 0;
    assert(plan@ =~= before + Seq::new(0, |i: int| barrier));
    while i < n
        invariant
            i <= n,
            plan@ == before + Seq::new(i as nat, |i: int| barrier),
        decreases n - i,
    {
        plan.push(barrier);
        i = i + 1;
        assert(plan@ =~= before + Seq::new(i as nat, |i: int| barrier));
    }
    let mut rest: Vec<Insn> = end;
    plan.append(&mut rest);
    assert(plan@ =~= bracketed(start@, barrier, iterations, end@));
    plan
}

/// Plans some work between two counter reads.
pub fn timed(start: Vec<Insn>, work: Vec<Insn>, end: Vec<Insn>) -> (plan: Vec<Insn>)
    ensures
        plan@ == start@ + work@ + end@,
{
    let mut plan: Vec<Insn> = start;
    let mut middle: Vec<Insn> = work;
    let mut rest: Vec<Insn> = end;
    plan.append(&mut middle);
    plan.append(&mut rest);
    assert(plan@ =~= start@ + work@ + end@);
    plan
}

/// What a walk over a pattern's branches leaves in its accumulator: an odd
/// byte adds one, an even one triples.
pub open spec fn branched(pattern: Seq<u8>) -> u64
    decreases pattern.len(),
{
    if pattern.len() == 0 {
        0
    } else if pattern.last() % 2 == 1 {
        branched(pattern.drop_last()).wrapping_add(1)
    } else {
        branched(pattern.drop_last()).wrapping_mul(3)
    }
}

/// Walks a pattern as a sequence of branches that depend on its bytes: the
/// work of a branch probe.
pub fn branch_walk(pattern: &[u8]) -> (acc: u64)
    ensures
        acc == branched(pattern@),
{
    let mut acc: u64 = 0;
    let mut i: usize = 0;
    assert(pattern@.take(0) =~= Seq::empty());
    while i < pattern.len()
        invariant
            i <= pattern.len(),
            acc == branched(pattern@.take(i as int)),
        decreases pattern.len() - i,
    {
        assert(pattern@.take(i + 1).drop_last() =~= pattern@.take(i as int));
        assert(pattern@.take(i + 1).last() == pattern@[i as int]);
        if pattern[i] % 2 == 1 {
            acc = acc.wrapping_add(1);
        } else {
            acc = acc.wrapping_mul(3);
        }
        i = i + 1;
    }
    assert(pattern@.take(i as int) =~= pattern@);
    acc
}

/// Whether a link, where there is one, leads to another.
pub open spec fn leads(links: Seq<Option<usize>>, at: Option<usize>) -> bool {
    at matches Some(i) ==> i < links.len()
}

/// Where a chase over a list of links ends: after some links, or where there
/// is none.
pub open spec fn chased(links: Seq<Option<usize>>, first: Option<usize>, steps: nat) -> Option<
    usize,
>
    decreases steps,
{
    if steps == 0 {
        first
    } else {
        match chased(links, first, (steps - 1) as nat) {
            Some(at) => links[at as int],
            None => None,
        }
    }
}

/// Follows the links of a list, each read only once the one before it is
/// known: the work of a pointer-chase probe.
pub fn pointer_chase(links: &[Option<usize>], first: Option<usize>, steps: usize) -> (last: Option<
    usize,
>)
    requires
        leads(links@, first),
        forall|i: int| 0 <= i < links.len() ==> leads(links@, #[trigger] links@[i]),
    ensures
        last == chased(links@, first, steps as nat),
        leads(links@, last),
{
    let mut at: Option<usize> = first;
    let mut i: usize = 0;
    while i < steps
        invariant
            i <= steps,
            at == chased(links@, first, i as nat),
            leads(links@, at),
            forall|i: int| 0 <= i < links.len() ==> leads(links@, #[trigger] links@[i]),
        decreases steps - i,
    {
        match at {
            Some(link) => {
                at = links[link];
            },
            None => {
                proof {
                    lemma_chase_stops(links@, first, i as nat, steps as nat);
                }
                return None;
            },
        }
        i = i + 1;
    }
    at
}

/// A chase that has come to the end of its list stays there.
proof fn lemma_chase_stops(
    links: Seq<Option<usize>>,
    first: Option<usize>,
    steps: nat,
    more: nat,
)
    requires
        steps <= more,
        chased(links, first, steps) is None,
    ensures
        chased(links, first, more) is None,
    decreases more - steps,
{
    if steps < more {
        lemma_chase_stops(links, first, steps, (more - 1) as nat);
    }
}

/// A chase can be broken off and gone on with: it ends where it would have.
pub proof fn chases_compose(
    links: Seq<Option<usize>>,
    first: Option<usize>,
    steps: nat,
    more: nat,
)
    ensures
        chased(links, chased(links, first, steps), more) == chased(links, first, steps + more),
    decreases more,
{
    if more > 0 {
        chases_compose(links, first, steps, (more - 1) as nat);
    }
}

/// A 64-bit counter read as halves: good only where the upper half did not
/// change around the lower one.
pub open spec fn halves(upper: u32, lower: u32, upper_again: u32) -> Option<int> {
    if upper == upper_again {
        Some(upper * 0x1_0000_0000 + lower)
    } else {
        None
    }
}

/// Joins an upper half, a lower half and the upper half again. `None` means
/// that the lower half carried in between, and the three are read anew.
pub fn join_halves(upper: u32, lower: u32, upper_again: u32) -> (whole: Option<u64>)
    ensures
        match whole {
            Some(whole) => halves(upper, lower, upper_again) == Some(whole as int),
            None => halves(upper, lower, upper_again) is None,
        },
{
    if upper == upper_again {
        Some(upper as u64 * 0x1_0000_0000 + lower as u64)
    } else {
        None
    }
}

/// Halves that agree are a reading of the counter: where it only moved
/// forward, and by less than a whole turn of its upper half, what they join
/// to is what it showed when the lower half was read.
pub proof fn agreeing_halves_are_a_reading(first: u64, middle: u64, last: u64)
    requires
        first <= middle <= last,
    ensures
        ({
            let upper = (first / 0x1_0000_0000) as u32;
            let lower = (middle % 0x1_0000_0000) as u32;
            let upper_again = (last / 0x1_0000_0000) as u32;
            halves(upper, lower, upper_again) matches Some(whole) ==> whole == middle
        }),
{
}

/// A value no other of `values` is below.
pub open spec fn least_of_all(values: Seq<u64>, least: u64) -> bool {
    &&& values.contains(least)
    &&& forall|i: int| 0 <= i < values.len() ==> least <= #[trigger] values[i]
}

/// The units of each pair of readings.
pub open spec fn all_elapsed(pairs: Seq<(u64, u64)>) -> Seq<u64> {
    pairs.map_values(|pair: (u64, u64)| elapsed(pair.0, pair.1))
}

/// The shortest of several timed pairs.
pub fn least_elapsed(pairs: &[(u64, u64)]) -> (least: Option<u64>)
    ensures
        match least {
            Some(least) => least_of_all(all_elapsed(pairs@), least),
            None => pairs.len() == 0,
        },
{
    if pairs.len() == 0 {
        return None;
    }
    let ghost all = all_elapsed(pairs@);
    let mut least: u64 = between(pairs[0].0, pairs[0].1);
    let ghost mut at: int = 0;
    let mut i: usize = 1;
    assert(all[0] == least);
    while i < pairs.len()
        invariant
            1 <= i <= pairs.len(),
            all == all_elapsed(pairs@),
            0 <= at < i,
            all[at] == least,
            forall|k: int| 0 <= k < i ==> least <= #[trigger] all[k],
        decreases pairs.len() - i,
    {
        let units: u64 = between(pairs[i].0, pairs[i].1);
        assert(all[i as int] == units);
        if units < least {
            least = units;
            proof {
                at = i as int;
            }
        }
        i = i + 1;
    }
    assert(all.contains(least));
    Some(least)
}

/// One round of the scalar loop: rotate right by seven, then mix a constant
/// in twice.
pub open spec fn scalar_round(x: u64) -> u64 {
    (((x << 57u64) | (x >> 7u64)) ^ 0xD1B5_4A32_D192_ED03u64).wrapping_add(
        0xD1B5_4A32_D192_ED03u64,
    )
}

/// The word after `loops` rounds.
pub open spec fn scalar_rounds(loops: nat) -> u64
    decreases loops,
{
    if loops == 0 {
        0x9E37_79B9_7F4A_7C15
    } else {
        scalar_round(scalar_rounds((loops - 1) as nat))
    }
}

/// The scalar loop of every 64-bit word machine.
pub fn scalar_kernel(loops: usize) -> (word: u64)
    ensures
        word == scalar_rounds(loops as nat),
{
    let mut x: u64 = 0x9E37_79B9_7F4A_7C15;
    let mut i: usize = 0;
    while i < loops
        invariant
            i <= loops,
            x == scalar_rounds(i as nat),
        decreases loops - i,
    {
        x = ((x << 57u64) | (x >> 7u64)) ^ 0xD1B5_4A32_D192_ED03u64;
        x = x.wrapping_add(0xD1B5_4A32_D192_ED03u64);
        i = i + 1;
    }
    x
}

/// No round loses anything: two words that a round makes equal were equal. So
/// the loop never runs into a value that stops depending on what came before.
pub proof fn scalar_rounds_lose_nothing(x: u64, y: u64)
    requires
        scalar_round(x) == scalar_round(y),
    ensures
        x == y,
{
    let a = (x << 57u64) | (x >> 7u64);
    let b = (y << 57u64) | (y >> 7u64);
    let c = 0xD1B5_4A32_D192_ED03u64;
    assert((a ^ c) == (b ^ c));
    assert(x == y) by (bit_vector)
        requires
            ((x << 57u64) | (x >> 7u64)) ^ 0xD1B5_4A32_D192_ED03u64 == ((y << 57u64) | (y >> 7u64))
                ^ 0xD1B5_4A32_D192_ED03u64,
    ;
}

} // verus!
