//! x86: CPUID leaves, and which instructions a counter read is made of.
//!
//! `RDTSC`, the fences and `CPUID` exist on every part. `RDTSCP` does not: on
//! anything older than Nehalem and Barcelona it is an invalid opcode. So a
//! counter read is first worked out as a sequence of instructions, from what
//! `CPUID` says, and only then executed.
use crate::arch::insn::{between, between_forward, bracket, timed, Insn};
use crate::bytes::test32;
use vstd::prelude::*;

verus! {

/// The four registers one `CPUID` fills.
#[derive(Debug, Clone, Copy, PartialEq, Eq, Structural)]
pub struct Registers {
    pub eax: u32,
    pub ebx: u32,
    pub ecx: u32,
    pub edx: u32,
}

/// What one leaf and subleaf answered.
#[derive(Debug, Clone, Copy, PartialEq, Eq, Structural)]
pub struct CpuidLeaf {
    pub leaf: u32,
    pub subleaf: u32,
    pub registers: Registers,
}

/// The leaves that were read from a processor, and `XCR0`.
#[derive(Debug)]
pub struct CpuidTable {
    pub leaves: Vec<CpuidLeaf>,
    /// What `XGETBV` answers, or zero where it may not be executed.
    pub xcr0: u64,
}

/// What `leaves` answers for a leaf: the first entry for it, or zeros.
pub open spec fn answer(leaves: Seq<CpuidLeaf>, leaf: u32, subleaf: u32) -> Registers
    decreases leaves.len(),
{
    if leaves.len() == 0 {
        Registers { eax: 0, ebx: 0, ecx: 0, edx: 0 }
    } else if leaves[0].leaf == leaf && leaves[0].subleaf == subleaf {
        leaves[0].registers
    } else {
        answer(leaves.skip(1), leaf, subleaf)
    }
}

impl CpuidTable {
    /// What the processor answers for a leaf and subleaf.
    pub open spec fn at(self, leaf: u32, subleaf: u32) -> Registers {
        answer(self.leaves@, leaf, subleaf)
    }

    /// Looks up a leaf and subleaf.
    pub fn cpuid(&self, leaf: u32, subleaf: u32) -> (registers: Registers)
        ensures
            registers == self.at(leaf, subleaf),
    {
        let mut i: usize = 0;
        assert(self.leaves@.skip(0) =~= self.leaves@);
        while i < self.leaves.len()
            invariant
                i <= self.leaves.len(),
                answer(self.leaves@.skip(i as int), leaf, subleaf) == self.at(leaf, subleaf),
            decreases self.leaves.len() - i,
        {
            let entry: CpuidLeaf = self.leaves[i];
            if entry.leaf == leaf && entry.subleaf == subleaf {
                return entry.registers;
            }
            assert(self.leaves@.skip(i as int).skip(1) =~= self.leaves@.skip(i + 1));
            i = i + 1;
        }
        assert(self.leaves@.skip(i as int).len() == 0);
        Registers { eax: 0, ebx: 0, ecx: 0, edx: 0 }
    }

    /// Whether this processor implements `RDTSCP`: `CPUID.80000001H:EDX[27]`,
    /// where that leaf exists.
    pub open spec fn rdtscp(self) -> bool {
        self.at(0x8000_0000, 0).eax >= 0x8000_0001 && crate::bytes::bit32(
            self.at(0x8000_0001, 0).edx,
            27,
        )
    }

    /// `XCR0` where the operating system has enabled XSAVE, zero elsewhere.
    pub open spec fn enabled_state(self) -> u64 {
        if crate::bytes::bit32(self.at(1, 0).ecx, 27) {
            self.xcr0
        } else {
            0
        }
    }
}

/// Highest standard CPUID leaf the processor answers.
pub fn cpuid_max_leaf(cpu: &CpuidTable) -> (leaf: u32)
    ensures
        leaf == cpu.at(0, 0).eax,
{
    cpu.cpuid(0, 0).eax
}

/// `XCR0` when the operating system advertises XSAVE, zero otherwise.
pub fn xcr0_safe(cpu: &CpuidTable) -> (state: u64)
    ensures
        state == cpu.enabled_state(),
{
    if test32(cpu.cpuid(1, 0).ecx, 27) {
        cpu.xcr0
    } else {
        0
    }
}

/// Whether this processor implements `RDTSCP`.
pub fn has_rdtscp(cpu: &CpuidTable) -> (present: bool)
    ensures
        present == cpu.rdtscp(),
{
    cpu.cpuid(0x8000_0000, 0).eax >= 0x8000_0001 && test32(cpu.cpuid(0x8000_0001, 0).edx, 27)
}

// ---------------------------------------------------------------------------
// Counter reads as instruction sequences
// ---------------------------------------------------------------------------

/// `RDTSC` alone: the cheapest and least ordered read.
pub open spec fn raw_read() -> Seq<Insn> {
    seq![Insn::Rdtsc]
}

/// `LFENCE` and `RDTSC`: drains earlier loads, the standard interval start.
pub open spec fn lfence_read() -> Seq<Insn> {
    seq![Insn::Lfence, Insn::Rdtsc]
}

/// `MFENCE`, `LFENCE` and `RDTSC`: orders earlier stores as well.
pub open spec fn mfence_read() -> Seq<Insn> {
    seq![Insn::Mfence, Insn::Lfence, Insn::Rdtsc]
}

/// `RDTSCP` and `LFENCE`: waits for older instructions to retire.
pub open spec fn rdtscp_read() -> Seq<Insn> {
    seq![Insn::Rdtscp, Insn::Lfence]
}

/// The interval end for this processor: `RDTSCP` where it exists, and where
/// it does not the ordering that matters from `LFENCE`.
pub open spec fn portable_end(rdtscp: bool) -> Seq<Insn> {
    if rdtscp {
        rdtscp_read()
    } else {
        lfence_read()
    }
}

/// Whether a sequence can be executed on this processor.
pub open spec fn executable(plan: Seq<Insn>, rdtscp: bool) -> bool {
    plan.contains(Insn::Rdtscp) ==> rdtscp
}

/// `RDTSC` alone.
pub fn rdtsc_raw() -> (plan: Vec<Insn>)
    ensures
        plan@ == raw_read(),
{
    let plan: Vec<Insn> = vec![Insn::Rdtsc];
    assert(plan@ =~= raw_read());
    plan
}

/// `LFENCE` and `RDTSC`.
pub fn rdtsc_lfence() -> (plan: Vec<Insn>)
    ensures
        plan@ == lfence_read(),
{
    let plan: Vec<Insn> = vec![Insn::Lfence, Insn::Rdtsc];
    assert(plan@ =~= lfence_read());
    plan
}

/// `MFENCE`, `LFENCE` and `RDTSC`.
pub fn rdtsc_mfence() -> (plan: Vec<Insn>)
    ensures
        plan@ == mfence_read(),
{
    let plan: Vec<Insn> = vec![Insn::Mfence, Insn::Lfence, Insn::Rdtsc];
    assert(plan@ =~= mfence_read());
    plan
}

/// `RDTSCP` and `LFENCE`, where the processor has `RDTSCP`.
pub fn rdtscp_lfence(cpu: &CpuidTable) -> (plan: Option<Vec<Insn>>)
    ensures
        match plan {
            Some(plan) => cpu.rdtscp() && plan@ == rdtscp_read(),
            None => !cpu.rdtscp(),
        },
{
    if has_rdtscp(cpu) {
        let plan: Vec<Insn> = vec![Insn::Rdtscp, Insn::Lfence];
        assert(plan@ =~= rdtscp_read());
        Some(plan)
    } else {
        None
    }
}

/// An interval-end counter read that works on every part.
pub fn tsc_end_portable(cpu: &CpuidTable) -> (plan: Vec<Insn>)
    ensures
        plan@ == portable_end(cpu.rdtscp()),
{
    match rdtscp_lfence(cpu) {
        Some(plan) => plan,
        None => rdtsc_lfence(),
    }
}

/// The legacy backend's interval start: `CPUID`, then `RDTSC`.
pub fn tsc_start_serialising() -> (plan: Vec<Insn>)
    ensures
        plan@ == seq![Insn::Cpuid] + raw_read(),
{
    let plan: Vec<Insn> = vec![Insn::Cpuid, Insn::Rdtsc];
    assert(plan@ =~= seq![Insn::Cpuid] + raw_read());
    plan
}

/// The legacy backend's interval end: the portable end read, then `CPUID`.
pub fn tsc_end_serialising(cpu: &CpuidTable) -> (plan: Vec<Insn>)
    ensures
        plan@ == portable_end(cpu.rdtscp()).push(Insn::Cpuid),
{
    let mut plan: Vec<Insn> = tsc_end_portable(cpu);
    plan.push(Insn::Cpuid);
    plan
}

/// `IA32_TSC_AUX` as `RDTSCP` returned it, or `None` on a processor with no
/// `RDTSCP` to read it with. Saying so is better than a zero that reads as
/// core 0.
pub fn tsc_aux_checked(cpu: &CpuidTable, aux: u32) -> (core: Option<u32>)
    ensures
        core == (if cpu.rdtscp() {
            Some(aux)
        } else {
            None
        }),
{
    if has_rdtscp(cpu) {
        Some(aux)
    } else {
        None
    }
}

/// `IA32_TSC_AUX` alone: zero on a part with no `RDTSCP`.
pub fn tsc_aux(cpu: &CpuidTable, aux: u32) -> (core: u32)
    ensures
        core == (if cpu.rdtscp() {
            aux
        } else {
            0
        }),
{
    match tsc_aux_checked(cpu, aux) {
        Some(core) => core,
        None => 0,
    }
}

/// The instructions of a fence-cost probe: a fenced start read, at least one
/// `LFENCE`, and the portable end read.
pub open spec fn barrier_probe(iterations: u32, rdtscp: bool) -> Seq<Insn> {
    crate::arch::insn::bracketed(lfence_read(), Insn::Lfence, iterations, portable_end(rdtscp))
}

/// Plans `iterations` back-to-back `LFENCE`s between two counter reads.
pub fn probe_barrier_plan(cpu: &CpuidTable, iterations: u32) -> (plan: Vec<Insn>)
    ensures
        plan@ == barrier_probe(iterations, cpu.rdtscp()),
{
    bracket(rdtsc_lfence(), Insn::Lfence, iterations, tsc_end_portable(cpu))
}

/// Cycles between the two reads of a fence-cost probe, on a counter that may
/// have wrapped.
pub fn probe_barrier_cycles(start: u64, end: u64) -> (cycles: u64)
    ensures
        cycles == crate::arch::insn::elapsed(start, end),
{
    between(start, end)
}

/// The floor below which no measurement is real: two back-to-back reads, the
/// second one never counting as before the first.
pub fn read_overhead_cycles(first: u64, second: u64) -> (cycles: u64)
    ensures
        cycles == crate::arch::insn::forward(first, second),
{
    between_forward(first, second)
}

/// Some work between a fenced start read and the portable end read.
pub open spec fn timed_work(work: Seq<Insn>, rdtscp: bool) -> Seq<Insn> {
    lfence_read() + work + portable_end(rdtscp)
}

/// Plans a probe of one load, fenced on both sides.
pub fn probe_load_cycles(cpu: &CpuidTable) -> (plan: Vec<Insn>)
    ensures
        plan@ == timed_work(seq![Insn::Load], cpu.rdtscp()),
{
    let work: Vec<Insn> = vec![Insn::Load];
    assert(work@ =~= seq![Insn::Load]);
    timed(rdtsc_lfence(), work, tsc_end_portable(cpu))
}

/// Plans a probe of one store, drained before the end read.
pub fn probe_store_cycles(cpu: &CpuidTable) -> (plan: Vec<Insn>)
    ensures
        plan@ == timed_work(seq![Insn::Store, Insn::Mfence], cpu.rdtscp()),
{
    let work: Vec<Insn> = vec![Insn::Store, Insn::Mfence];
    assert(work@ =~= seq![Insn::Store, Insn::Mfence]);
    timed(rdtsc_lfence(), work, tsc_end_portable(cpu))
}

/// Plans a probe of one load behind a flush of its line.
pub fn probe_flush_reload_cycles(cpu: &CpuidTable) -> (plan: Vec<Insn>)
    ensures
        plan@ == seq![Insn::Clflush, Insn::Mfence] + timed_work(seq![Insn::Load], cpu.rdtscp()),
{
    let mut plan: Vec<Insn> = vec![Insn::Clflush, Insn::Mfence];
    assert(plan@ =~= seq![Insn::Clflush, Insn::Mfence]);
    let mut load: Vec<Insn> = probe_load_cycles(cpu);
    plan.append(&mut load);
    plan
}

/// Plans a probe of one load behind a prefetch of its line.
pub fn probe_prefetch_reload_cycles(cpu: &CpuidTable) -> (plan: Vec<Insn>)
    ensures
        plan@ == seq![Insn::PrefetchT0, Insn::Lfence] + timed_work(
            seq![Insn::Load],
            cpu.rdtscp(),
        ),
{
    let mut plan: Vec<Insn> = vec![Insn::PrefetchT0, Insn::Lfence];
    assert(plan@ =~= seq![Insn::PrefetchT0, Insn::Lfence]);
    let mut load: Vec<Insn> = probe_load_cycles(cpu);
    plan.append(&mut load);
    plan
}

/// The read that a vector family's probes start from.
pub fn counter() -> (plan: Vec<Insn>)
    ensures
        plan@ == lfence_read(),
{
    rdtsc_lfence()
}

/// Plans a probe of one vector load.
pub fn vector_load_cycles(cpu: &CpuidTable) -> (plan: Vec<Insn>)
    ensures
        plan@ == timed_work(seq![Insn::VectorLoad], cpu.rdtscp()),
{
    let work: Vec<Insn> = vec![Insn::VectorLoad];
    assert(work@ =~= seq![Insn::VectorLoad]);
    timed(rdtsc_lfence(), work, tsc_end_portable(cpu))
}

/// Plans a probe of one vector operation.
pub fn vector_xor_cycles(cpu: &CpuidTable) -> (plan: Vec<Insn>)
    ensures
        plan@ == timed_work(seq![Insn::VectorXor], cpu.rdtscp()),
{
    let work: Vec<Insn> = vec![Insn::VectorXor];
    assert(work@ =~= seq![Insn::VectorXor]);
    timed(rdtsc_lfence(), work, tsc_end_portable(cpu))
}

/// Whatever the processor, every planned read can be executed on it: no plan
/// holds `RDTSCP` where `CPUID` does not declare it.
pub proof fn plans_are_executable(iterations: u32, rdtscp: bool)
    ensures
        executable(raw_read(), rdtscp),
        executable(lfence_read(), rdtscp),
        executable(mfence_read(), rdtscp),
        executable(portable_end(rdtscp), rdtscp),
        executable(seq![Insn::Cpuid] + raw_read(), rdtscp),
        executable(portable_end(rdtscp).push(Insn::Cpuid), rdtscp),
        executable(barrier_probe(iterations, rdtscp), rdtscp),
        executable(timed_work(seq![Insn::Load], rdtscp), rdtscp),
        executable(timed_work(seq![Insn::Store, Insn::Mfence], rdtscp), rdtscp),
        executable(timed_work(seq![Insn::VectorLoad], rdtscp), rdtscp),
        executable(timed_work(seq![Insn::VectorXor], rdtscp), rdtscp),
{
}

/// One round of the scalar loop: rotate by seven, then mix a constant in
/// twice. The word is as wide as a register.
pub open spec fn scalar_round(x: usize) -> usize {
    (((x << 7usize) | (x >> ((usize::BITS - 7) as usize))) ^ 0xD192_ED03usize).wrapping_add(
        0xD192_ED03usize,
    )
}

/// The word after `loops` rounds.
pub open spec fn scalar_rounds(loops: nat) -> usize
    decreases loops,
{
    if loops == 0 {
        0x9E37_79B9
    } else {
        scalar_round(scalar_rounds((loops - 1) as nat))
    }
}

/// The scalar loop, on a word as wide as a register.
pub fn kernel_scalar(loops: usize) -> (word: u64)
    ensures
        word == scalar_rounds(loops as nat),
{
    let mut x: usize = 0x9E37_79B9;
    let mut i: usize = 0;
    let rest: usize = (usize::BITS - 7) as usize;
    while i < loops
        invariant
            i <= loops,
            rest == usize::BITS - 7,
            x == scalar_rounds(i as nat),
        decreases loops - i,
    {
        x = ((x << 7usize) | (x >> rest)) ^ 0xD192_ED03usize;
        x = x.wrapping_add(0xD192_ED03usize);
        i = i + 1;
    }
    x as u64
}

} // verus!
