//! RISC-V: the `time` counter, its rate, and whether the hart has vectors.
use crate::arch::insn::{between, between_forward, bracket, scalar_kernel, timed, Insn};
use vstd::prelude::*;

verus! {

/// One read of `time`: one instruction on a 64-bit hart, the halves of
/// [`crate::arch::insn::join_halves`] on a 32-bit one.
pub open spec fn bare_read(wide: bool) -> Seq<Insn> {
    if wide {
        seq![Insn::Time]
    } else {
        seq![Insn::TimeUpper, Insn::TimeLower, Insn::TimeUpper]
    }
}

/// `time` for the start of an interval: read, then a fence.
pub open spec fn start_read(wide: bool) -> Seq<Insn> {
    bare_read(wide).push(Insn::Fence)
}

/// `time` for the end of an interval: a fence, then read.
pub open spec fn end_read(wide: bool) -> Seq<Insn> {
    seq![Insn::Fence] + bare_read(wide)
}

/// `time`, with no ordering.
pub fn rdtime_raw(wide: bool) -> (plan: Vec<Insn>)
    ensures
        plan@ == bare_read(wide),
{
    let plan: Vec<Insn> = if wide {
        vec![Insn::Time]
    } else {
        vec![Insn::TimeUpper, Insn::TimeLower, Insn::TimeUpper]
    };
    assert(plan@ =~= bare_read(wide));
    plan
}

/// `time` for the start of an interval.
pub fn rdtime_start(wide: bool) -> (plan: Vec<Insn>)
    ensures
        plan@ == start_read(wide),
{
    let mut plan: Vec<Insn> = rdtime_raw(wide);
    plan.push(Insn::Fence);
    plan
}

/// `time` for the end of an interval.
pub fn rdtime_end(wide: bool) -> (plan: Vec<Insn>)
    ensures
        plan@ == end_read(wide),
{
    let mut plan: Vec<Insn> = vec![Insn::Fence];
    let mut read: Vec<Insn> = rdtime_raw(wide);
    plan.append(&mut read);
    assert(plan@ =~= end_read(wide));
    plan
}

/// One big-endian 32-bit cell.
pub open spec fn cell(bytes: Seq<u8>, at: int) -> int {
    bytes[at] * 0x100_0000 + bytes[at + 1] * 0x1_0000 + bytes[at + 2] * 0x100 + bytes[at + 3]
}

/// The frequency a device-tree property states: one or two cells, not zero.
pub open spec fn dt_frequency(bytes: Seq<u8>) -> Option<int> {
    let hz = if bytes.len() == 4 {
        cell(bytes, 0)
    } else if bytes.len() == 8 {
        cell(bytes, 0) * 0x1_0000_0000 + cell(bytes, 4)
    } else {
        0
    };
    if hz > 0 {
        Some(hz)
    } else {
        None
    }
}

fn read_cell(bytes: &[u8], at: usize) -> (value: u64)
    requires
        at + 4 <= bytes.len(),
    ensures
        value == cell(bytes@, at as int),
        value <= u32::MAX,
{
    bytes[at] as u64 * 0x100_0000 + bytes[at + 1] as u64 * 0x1_0000 + bytes[at + 2] as u64 * 0x100
        + bytes[at + 3] as u64
}

/// A device-tree frequency: one or two big-endian 32-bit cells.
pub fn parse_dt_frequency(bytes: &[u8]) -> (hz: Option<u64>)
    ensures
        match hz {
            Some(hz) => dt_frequency(bytes@) == Some(hz as int),
            None => dt_frequency(bytes@) is None,
        },
{
    let hz: u64 = if bytes.len() == 4 {
        read_cell(bytes, 0)
    } else if bytes.len() == 8 {
        read_cell(bytes, 0) * 0x1_0000_0000 + read_cell(bytes, 4)
    } else {
        return None;
    };
    if hz > 0 {
        Some(hz)
    } else {
        None
    }
}

/// What a kernel with no system under it was told about its hart, once it
/// had read the device tree. It cannot ask the hart itself.
#[derive(Debug, Clone, Copy, PartialEq, Eq, Structural)]
pub struct HartFacts {
    /// The rate of `time`, or zero while it is not known.
    pub timebase: u32,
    pub vector: bool,
}

impl Default for HartFacts {
    fn default() -> (facts: HartFacts)
        ensures
            facts == (HartFacts { timebase: 0, vector: false }),
    {
        HartFacts { timebase: 0, vector: false }
    }
}

impl HartFacts {
    /// The recorded rate, if one was.
    pub fn timebase_hz(&self) -> (hz: Option<u64>)
        ensures
            hz == (if self.timebase == 0 {
                None
            } else {
                Some(self.timebase as u64)
            }),
    {
        if self.timebase == 0 {
            None
        } else {
            Some(self.timebase as u64)
        }
    }

    /// Records the rate. One that does not fit is refused rather than
    /// truncated: a wrong divisor is worse than none.
    pub fn set_timebase_hz(&mut self, hz: u64)
        ensures
            *final(self) == (if hz <= u32::MAX {
                HartFacts { timebase: hz as u32, ..*old(self) }
            } else {
                *old(self)
            }),
    {
        if hz <= u32::MAX as u64 {
            self.timebase = hz as u32;
        }
    }

    /// Records whether the hart implements vectors.
    pub fn set_vector_available(&mut self, present: bool)
        ensures
            *final(self) == (HartFacts { vector: present, ..*old(self) }),
    {
        self.vector = present;
    }

    /// What [`HartFacts::set_vector_available`] recorded.
    pub fn vector_available(&self) -> (present: bool)
        ensures
            present == self.vector,
    {
        self.vector
    }
}

/// The rate of `time` in a hosted process, from the property the device tree
/// holds.
pub fn timebase_hz(property: &Option<Vec<u8>>) -> (hz: Option<u64>)
    ensures
        match property {
            Some(bytes) => match hz {
                Some(hz) => dt_frequency(bytes@) == Some(hz as int),
                None => dt_frequency(bytes@) is None,
            },
            None => hz is None,
        },
{
    match property {
        Some(bytes) => parse_dt_frequency(bytes.as_slice()),
        None => None,
    }
}

/// How many bytes stand before the first underscore or NUL.
pub open spec fn letters(isa: Seq<u8>) -> int
    decreases isa.len(),
{
    if isa.len() == 0 || isa[0] == 0x5f || isa[0] == 0 {
        0
    } else {
        1 + letters(isa.skip(1))
    }
}

/// Whether an ISA string names the vector extension: a `v` among its
/// single-letter extensions, behind `rv32` or `rv64`.
pub open spec fn names_vector(isa: Seq<u8>) -> bool {
    let n = letters(isa);
    &&& n > 4
    &&& (isa[0] == 0x72 || isa[0] == 0x52)
    &&& (isa[1] == 0x76 || isa[1] == 0x56)
    &&& exists|i: int| 4 <= i < n && (#[trigger] isa[i] == 0x76 || isa[i] == 0x56)
}

fn count_letters(isa: &[u8]) -> (n: usize)
    ensures
        n == letters(isa@),
        n <= isa.len(),
{
    let mut n: usize = 0;
    assert(isa@.skip(0) =~= isa@);
    while n < isa.len() && isa[n] != 0x5f && isa[n] != 0
        invariant
            n <= isa.len(),
            letters(isa@) == n + letters(isa@.skip(n as int)),
        decreases isa.len() - n,
    {
        assert(isa@.skip(n as int).skip(1) =~= isa@.skip(n + 1));
        n = n + 1;
    }
    n
}

/// Whether an ISA string names the vector extension.
pub fn isa_string_has_vector(isa: &[u8]) -> (vector: bool)
    ensures
        vector == names_vector(isa@),
{
    let n: usize = count_letters(isa);
    if n <= 4 || (isa[0] != 0x72 && isa[0] != 0x52) || (isa[1] != 0x76 && isa[1] != 0x56) {
        return false;
    }
    let mut i: usize = 4;
    while i < n
        invariant
            4 <= i <= n <= isa.len(),
            n == letters(isa@),
            forall|k: int| 4 <= k < i ==> #[trigger] isa@[k] != 0x76 && isa@[k] != 0x56,
            isa@[0] == 0x72 || isa@[0] == 0x52,
            isa@[1] == 0x76 || isa@[1] == 0x56,
        decreases n - i,
    {
        if isa[i] == 0x76 || isa[i] == 0x56 {
            return true;
        }
        i = i + 1;
    }
    false
}

/// The instructions of a fence-cost probe.
pub open spec fn barrier_probe(wide: bool, iterations: u32) -> Seq<Insn> {
    crate::arch::insn::bracketed(start_read(wide), Insn::Fence, iterations, end_read(wide))
}

/// Plans `iterations` back-to-back fences between two counter reads.
pub fn probe_barrier_plan(wide: bool, iterations: u32) -> (plan: Vec<Insn>)
    ensures
        plan@ == barrier_probe(wide, iterations),
{
    bracket(rdtime_start(wide), Insn::Fence, iterations, rdtime_end(wide))
}

/// Ticks between the two reads of a fence-cost probe.
pub fn probe_barrier_ticks(start: u64, end: u64) -> (ticks: u64)
    ensures
        ticks == crate::arch::insn::elapsed(start, end),
{
    between(start, end)
}

/// Back-to-back ordered reads: the measurement floor.
pub fn read_overhead_ticks(first: u64, second: u64) -> (ticks: u64)
    ensures
        ticks == crate::arch::insn::forward(first, second),
{
    between_forward(first, second)
}

/// One read of a counter that is whole on a 64-bit hart and halves on a
/// 32-bit one.
pub open spec fn read_of(wide: bool, whole: Insn, upper: Insn, lower: Insn) -> Seq<Insn> {
    if wide {
        seq![whole]
    } else {
        seq![upper, lower, upper]
    }
}

/// `cycle`. Whoever runs it must have been let: the level above enables it.
pub fn rdcycle_raw(wide: bool) -> (plan: Vec<Insn>)
    ensures
        plan@ == read_of(wide, Insn::Cycle, Insn::CycleUpper, Insn::CycleLower),
{
    let plan: Vec<Insn> = if wide {
        vec![Insn::Cycle]
    } else {
        vec![Insn::CycleUpper, Insn::CycleLower, Insn::CycleUpper]
    };
    assert(plan@ =~= read_of(wide, Insn::Cycle, Insn::CycleUpper, Insn::CycleLower));
    plan
}

/// `instret`, under the same condition.
pub fn rdinstret_raw(wide: bool) -> (plan: Vec<Insn>)
    ensures
        plan@ == read_of(wide, Insn::Instret, Insn::InstretUpper, Insn::InstretLower),
{
    let plan: Vec<Insn> = if wide {
        vec![Insn::Instret]
    } else {
        vec![Insn::InstretUpper, Insn::InstretLower, Insn::InstretUpper]
    };
    assert(plan@ =~= read_of(wide, Insn::Instret, Insn::InstretUpper, Insn::InstretLower));
    plan
}

/// Some work between an ordered start read and an ordered end read.
pub open spec fn timed_work(wide: bool, work: Seq<Insn>) -> Seq<Insn> {
    start_read(wide) + work + end_read(wide)
}

/// Plans a probe of one load.
pub fn probe_load_ticks(wide: bool) -> (plan: Vec<Insn>)
    ensures
        plan@ == timed_work(wide, seq![Insn::Load]),
{
    let work: Vec<Insn> = vec![Insn::Load];
    assert(work@ =~= seq![Insn::Load]);
    timed(rdtime_start(wide), work, rdtime_end(wide))
}

/// Plans a probe of one store, completed by the end read's fence.
pub fn probe_store_ticks(wide: bool) -> (plan: Vec<Insn>)
    ensures
        plan@ == timed_work(wide, seq![Insn::Store]),
{
    let work: Vec<Insn> = vec![Insn::Store];
    assert(work@ =~= seq![Insn::Store]);
    timed(rdtime_start(wide), work, rdtime_end(wide))
}

/// The read that a vector family's probes start from.
pub fn counter(wide: bool) -> (plan: Vec<Insn>)
    ensures
        plan@ == start_read(wide),
{
    rdtime_start(wide)
}

/// Plans a probe of one vector load.
pub fn vector_load_ticks(wide: bool) -> (plan: Vec<Insn>)
    ensures
        plan@ == timed_work(wide, seq![Insn::VectorLoad]),
{
    let work: Vec<Insn> = vec![Insn::VectorLoad];
    assert(work@ =~= seq![Insn::VectorLoad]);
    timed(rdtime_start(wide), work, rdtime_end(wide))
}

/// Plans a probe of one vector operation.
pub fn vector_xor_ticks(wide: bool) -> (plan: Vec<Insn>)
    ensures
        plan@ == timed_work(wide, seq![Insn::VectorXor]),
{
    let work: Vec<Insn> = vec![Insn::VectorXor];
    assert(work@ =~= seq![Insn::VectorXor]);
    timed(rdtime_start(wide), work, rdtime_end(wide))
}

/// The barrier's cost on a vector family's path: the same probe.
pub fn barrier_ticks(wide: bool, iterations: u32) -> (plan: Vec<Insn>)
    ensures
        plan@ == barrier_probe(wide, iterations),
{
    probe_barrier_plan(wide, iterations)
}

/// The scalar loop.
pub fn kernel_scalar(loops: usize) -> (word: u64)
    ensures
        word == crate::arch::insn::scalar_rounds(loops as nat),
{
    scalar_kernel(loops)
}

/// A `v` inside a multi-letter extension does not count: what stands behind
/// the first underscore changes nothing.
pub proof fn only_single_letters_name_vector(isa: Seq<u8>, rest: Seq<u8>)
    requires
        letters(isa) == isa.len(),
    ensures
        names_vector(isa.push(0x5f) + rest) == names_vector(isa),
{
    lemma_letters_stop(isa, rest);
    let longer = isa.push(0x5f) + rest;
    assert forall|i: int| 0 <= i < isa.len() implies longer[i] == isa[i] by {}
    if names_vector(isa) {
        let i = choose|i: int| 4 <= i < letters(isa) && (isa[i] == 0x76 || isa[i] == 0x56);
        assert(longer[i] == isa[i]);
    }
    if names_vector(longer) {
        let i = choose|i: int|
            4 <= i < letters(longer) && (longer[i] == 0x76 || longer[i] == 0x56);
        assert(longer[i] == isa[i]);
    }
}

proof fn lemma_letters_stop(isa: Seq<u8>, rest: Seq<u8>)
    requires
        letters(isa) == isa.len(),
    ensures
        letters(isa.push(0x5f) + rest) == isa.len(),
    decreases isa.len(),
{
    let longer = isa.push(0x5f) + rest;
    if isa.len() > 0 {
        lemma_letters_fit(isa.skip(1));
        assert(isa[0] != 0x5f && isa[0] != 0);
        lemma_letters_stop(isa.skip(1), rest);
        assert(longer.skip(1) =~= isa.skip(1).push(0x5f) + rest);
        assert(longer[0] == isa[0]);
    } else {
        assert(longer[0] == 0x5f);
    }
}

proof fn lemma_letters_fit(isa: Seq<u8>)
    ensures
        0 <= letters(isa) <= isa.len(),
    decreases isa.len(),
{
    if isa.len() > 0 {
        lemma_letters_fit(isa.skip(1));
    }
}

} // verus!
