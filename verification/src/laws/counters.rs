//! How each processor's counter is read, instruction by instruction.
use crate::arch::aarch64::{cost_of, probe_handler, CounterChoice, HandlerAnswer, PermissionProbe};
use crate::arch::arm32::timer_rate;
use crate::arch::insn::{all_elapsed, branched, elapsed, forward, halves, least_of_all, Insn};
use crate::arch::riscv::{dt_frequency, names_vector};
use crate::arch::x86::{answer, CpuidLeaf, CpuidTable};
use crate::arch::{
    aarch64, arm32, declared_rate, floor_reads, full_barrier, has_physical_counter,
    physical_counter_check, powerpc, riscv, source_of, spin_hint, x86, Arch, CounterHost,
    CounterSource, CounterSourceError, PhysicalCounterCheck,
};
use crate::child::ChildOutcome;
use crate::machine::{Machine, Target};
use vstd::prelude::*;

verus! {

/// The cheapest read of each processor is its counter and nothing else; where
/// a register holds only half of it, the upper half is read again behind the
/// lower one.
pub proof fn the_raw_read_is_the_counter_alone(host: CounterHost)
    ensures
        match host.target.machine {
            Machine::X86 | Machine::X86Wide => host.raw_read() == seq![Insn::Rdtsc],
            Machine::Aarch64 => host.raw_read() == (if host.choice.physical {
                seq![Insn::Cntpct]
            } else {
                seq![Insn::Cntvct]
            }),
            Machine::PowerPcWide => host.raw_read() == seq![Insn::Timebase],
            Machine::PowerPc => host.raw_read() == seq![
                Insn::TimebaseUpper,
                Insn::TimebaseLower,
                Insn::TimebaseUpper,
            ],
            Machine::RiscVWide => host.raw_read() == seq![Insn::Time],
            Machine::RiscV => host.raw_read() == seq![
                Insn::TimeUpper,
                Insn::TimeLower,
                Insn::TimeUpper,
            ],
            Machine::Arm => host.raw_read() == (if host.timer is Some {
                seq![Insn::Cntvct]
            } else {
                seq![Insn::Monotonic]
            }),
            Machine::Other => host.raw_read() == seq![Insn::Monotonic],
        },
{
}

/// An interval starts behind what came before it, or before what follows it,
/// as the processor's barriers have it.
pub proof fn an_interval_starts_behind_a_barrier(host: CounterHost)
    ensures
        match host.target.machine {
            Machine::X86 | Machine::X86Wide => host.start_read() == seq![
                Insn::Lfence,
                Insn::Rdtsc,
            ],
            Machine::Aarch64 => host.start_read() == seq![Insn::Isb] + host.raw_read(),
            Machine::PowerPc | Machine::PowerPcWide => host.start_read() == host.raw_read()
                + seq![Insn::Isync],
            Machine::RiscV | Machine::RiscVWide => host.start_read() == host.raw_read()
                + seq![Insn::Fence],
            Machine::Arm => host.start_read() == (if host.target.v7 {
                seq![Insn::Isb] + host.raw_read() + seq![Insn::Isb]
            } else {
                host.raw_read()
            }),
            Machine::Other => host.start_read() == host.raw_read(),
        },
{
    assert(host.target.machine is Aarch64 ==> host.start_read() =~= seq![Insn::Isb]
        + host.raw_read());
    assert(host.target.machine is PowerPc || host.target.machine is PowerPcWide
        ==> host.start_read() =~= host.raw_read() + seq![Insn::Isync]);
    assert(host.target.machine is RiscV || host.target.machine is RiscVWide ==> host.start_read()
        =~= host.raw_read() + seq![Insn::Fence]);
}

/// An interval ends behind all of its work.
pub proof fn an_interval_ends_behind_its_work(host: CounterHost)
    ensures
        match host.target.machine {
            Machine::X86 | Machine::X86Wide => host.end_read() == (if host.cpuid.rdtscp() {
                seq![Insn::Rdtscp, Insn::Lfence]
            } else {
                seq![Insn::Lfence, Insn::Rdtsc]
            }),
            Machine::Aarch64 => host.end_read() == seq![Insn::Isb] + host.raw_read(),
            Machine::PowerPc | Machine::PowerPcWide => host.end_read() == seq![Insn::Isync]
                + host.raw_read(),
            Machine::RiscV | Machine::RiscVWide => host.end_read() == seq![Insn::Fence]
                + host.raw_read(),
            Machine::Arm => host.end_read() == (if host.target.v7 {
                seq![Insn::Isb] + host.raw_read() + seq![Insn::Isb]
            } else {
                host.raw_read()
            }),
            Machine::Other => host.end_read() == host.raw_read(),
        },
{
    assert(host.target.machine is Aarch64 ==> host.end_read() =~= seq![Insn::Isb]
        + host.raw_read());
    assert(host.target.machine is PowerPc || host.target.machine is PowerPcWide
        ==> host.end_read() =~= seq![Insn::Isync] + host.raw_read());
    assert(host.target.machine is RiscV || host.target.machine is RiscVWide ==> host.end_read()
        =~= seq![Insn::Fence] + host.raw_read());
}

/// The barrier of each processor, between two reads, as often as asked and
/// once at least. On AArch64 both reads are of the virtual counter.
pub proof fn barriers_are_timed_between_two_reads(host: CounterHost, iterations: u32)
    ensures
        ({
            let plan = host.barrier_probe(iterations);
            let n: int = if iterations == 0 {
                1
            } else {
                iterations as int
            };
            let barrier = match host.target.machine {
                Machine::X86 | Machine::X86Wide => Insn::Lfence,
                Machine::Aarch64 => Insn::DmbSy,
                Machine::PowerPc | Machine::PowerPcWide => Insn::Sync,
                Machine::RiscV | Machine::RiscVWide => Insn::Fence,
                Machine::Arm => if host.target.v7 {
                    Insn::Dmb
                } else {
                    Insn::FullFence
                },
                Machine::Other => Insn::FullFence,
            };
            let (first, second) = if host.target.machine is Aarch64 {
                (seq![Insn::Isb, Insn::Cntvct], seq![Insn::Isb, Insn::Cntvct])
            } else {
                (host.start_read(), host.end_read())
            };
            &&& plan.len() == first.len() + n + second.len()
            &&& plan.take(first.len() as int) == first
            &&& plan.skip(first.len() + n) == second
            &&& forall|i: int| first.len() <= i < first.len() + n ==> #[trigger] plan[i] == barrier
            &&& floor_reads(host) == (first, second)
        }),
{
    let plan = host.barrier_probe(iterations);
    let n: int = if iterations == 0 {
        1
    } else {
        iterations as int
    };
    let (first, second) = if host.target.machine is Aarch64 {
        (seq![Insn::Isb, Insn::Cntvct], seq![Insn::Isb, Insn::Cntvct])
    } else {
        (host.start_read(), host.end_read())
    };
    assert(plan.take(first.len() as int) =~= first);
    assert(plan.skip(first.len() + n) =~= second);
}

/// While it waits a processor is told so by its own hint, and its full barrier
/// is its own.
pub proof fn hints_and_barriers_are_the_processors_own(target: Target)
    ensures
        match target.machine {
            Machine::X86 | Machine::X86Wide => spin_hint(Arch::family(target.machine)) == Insn::Pause
                && full_barrier(target) == Insn::Mfence,
            Machine::Aarch64 => spin_hint(Arch::family(target.machine)) == Insn::Yield
                && full_barrier(target) == Insn::DmbSy,
            Machine::PowerPc | Machine::PowerPcWide => spin_hint(Arch::family(target.machine))
                == Insn::LowPriority && full_barrier(target) == Insn::Sync,
            Machine::RiscV | Machine::RiscVWide => spin_hint(Arch::family(target.machine))
                == Insn::RiscvPause && full_barrier(target) == Insn::Fence,
            Machine::Arm => spin_hint(Arch::family(target.machine)) == Insn::SpinHint
                && full_barrier(target) == (if target.v7 {
                Insn::Dmb
            } else {
                Insn::FullFence
            }),
            Machine::Other => spin_hint(Arch::family(target.machine)) == Insn::SpinHint
                && full_barrier(target) == Insn::FullFence,
        },
{
}

/// A counter that went round is subtracted round the same way, so that the
/// end is the start and the difference; two reads in a row are at least
/// nothing apart.
pub proof fn differences_go_round(start: u64, end: u64)
    ensures
        start <= end ==> elapsed(start, end) == end - start,
        start > end ==> elapsed(start, end) == end - start + 0x1_0000_0000_0000_0000,
        start <= end ==> forward(start, end) == end - start,
        start > end ==> forward(start, end) == 0,
{
}

/// Halves make a whole where the upper one did not change in between.
pub proof fn halves_make_a_whole(upper: u32, lower: u32, again: u32)
    ensures
        upper == again ==> halves(upper, lower, again) == Some(
            upper as int * 0x1_0000_0000 + lower,
        ),
        upper != again ==> halves(upper, lower, again) is None,
{
}

/// What a branch probe counts: an odd byte one more, an even byte three times
/// as much.
pub proof fn branches_count_odd_and_even(pattern: Seq<u8>, byte: u8)
    ensures
        branched(Seq::empty()) == 0,
        byte % 2 == 1 ==> branched(pattern.push(byte)) == branched(pattern).wrapping_add(1),
        byte % 2 == 0 ==> branched(pattern.push(byte)) == branched(pattern).wrapping_mul(3),
{
    assert(pattern.push(byte).drop_last() =~= pattern);
}

/// Names: the family, down to width and byte order where there are several.
pub proof fn families_have_their_names(target: Target)
    ensures
        ({
            let name = Arch::family(target.machine).label(target);
            match target.machine {
                Machine::X86 | Machine::X86Wide => name == "x86"@,
                Machine::Aarch64 => name == "arm64"@,
                Machine::PowerPc => name == "ppc"@,
                Machine::PowerPcWide => name == (if target.little_endian {
                    "ppc64le"@
                } else {
                    "ppc64"@
                }),
                Machine::RiscV => name == "riscv32"@,
                Machine::RiscVWide => name == "riscv64"@,
                Machine::Arm => name == "arm"@,
                Machine::Other => name == "portable"@,
            }
        }),
{
}

/// Only AArch64 has a physical counter to choose, and there the choice is what
/// was selected.
pub proof fn only_aarch64_has_a_choice(machine: Machine, choice: CounterChoice, has: bool)
    requires
        call_ensures(has_physical_counter, (machine,), has),
    ensures
        has <==> machine is Aarch64,
        source_of(machine, choice) is Physical <==> machine is Aarch64 && choice.physical,
        CounterSource::Virtual.label(Machine::Aarch64) == "cntvct_el0"@,
        CounterSource::Physical.label(Machine::Aarch64) == "cntpct_el0"@,
        !(machine is Aarch64) ==> CounterSource::Virtual.label(machine)
            == "architectural counter"@,
        !(machine is Aarch64) ==> CounterSource::Physical.label(machine)
            == "physical counter (unavailable)"@,
{
}

/// The physical counter may be read with no system underneath, where a child
/// that tried ended well, or where it was tried under a handler and did not
/// fault.
pub proof fn permission_is_shown_by_trying(outcome: ChildOutcome, installed: bool, faulted: bool)
    ensures
        PermissionProbe::Freestanding.permits(),
        (PermissionProbe::Forked { outcome }).permits() <==> outcome.well(),
        (PermissionProbe::Handled { installed, faulted }).permits() <==> installed && !faulted,
{
}

/// Only the probe's own illegal instruction is stepped over, by four bytes.
pub proof fn only_the_probes_fault_is_stepped_over(
    code: u32,
    address: u64,
    site: u64,
    answer: HandlerAnswer,
)
    requires
        address <= u64::MAX - 4,
        call_ensures(probe_handler, (code, address, site), answer),
    ensures
        code == 0xC000_001D && address == site ==> answer == (HandlerAnswer::StepOver {
            to: (address + 4) as u64,
        }),
        code != 0xC000_001D || address != site ==> answer is PassOn,
{
}

/// A physical counter is called trapped where a read of it takes more than a
/// hundred nanoseconds and more than ten times the virtual one's.
pub proof fn a_trapped_counter_is_ten_times_slower(
    machine: Machine,
    probe: PermissionProbe,
    virtual_ns: u64,
    physical_ns: u64,
    check: Option<PhysicalCounterCheck>,
)
    requires
        call_ensures(physical_counter_check, (machine, probe, virtual_ns, physical_ns), check),
    ensures
        check is Some <==> machine is Aarch64 && probe.permits(),
        check matches Some(c) ==> c.virtual_read_ns == virtual_ns && c.physical_read_ns
            == physical_ns && (c.trapped <==> physical_ns > 100 && physical_ns > 10 * virtual_ns),
{
}

/// A read's cost is a batch's time over its 64 reads, in whole nanoseconds.
pub proof fn a_batch_is_sixty_four_reads(least: int, hz: int, ns: int)
    requires
        0 <= least,
        least * 1_000_000_000 <= u64::MAX,
        hz > 0,
    ensures
        cost_of(least, hz) == ns <==> ns * 64 * hz <= least * 1_000_000_000 < (ns + 1) * 64 * hz,
{
    let total = least * 1_000_000_000;
    let per = total / hz;
    let cost = per / 64;
    assert(per * hz <= total < (per + 1) * hz) by (nonlinear_arith)
        requires
            hz > 0,
            per == total / hz,
    ;
    assert(cost * 64 <= per <= cost * 64 + 63);
    assert(cost * 64 * hz <= total) by (nonlinear_arith)
        requires
            hz > 0,
            cost * 64 <= per,
            per * hz <= total,
    ;
    assert(total < (cost + 1) * 64 * hz) by (nonlinear_arith)
        requires
            hz > 0,
            per + 1 <= (cost + 1) * 64,
            total < (per + 1) * hz,
    ;
    if ns < cost {
        assert((ns + 1) * 64 * hz <= cost * 64 * hz) by (nonlinear_arith)
            requires
                ns + 1 <= cost,
                hz > 0,
        ;
    }
    if ns > cost {
        assert((cost + 1) * 64 * hz <= ns * 64 * hz) by (nonlinear_arith)
            requires
                cost + 1 <= ns,
                hz > 0,
        ;
    }
}

/// The least of several timings is one of them, and none is shorter.
pub proof fn the_least_is_one_of_them(pairs: Seq<(u64, u64)>, least: u64, i: int)
    requires
        least_of_all(all_elapsed(pairs), least),
        0 <= i < pairs.len(),
    ensures
        least <= elapsed(pairs[i].0, pairs[i].1),
        exists|k: int|
            0 <= k < pairs.len() && least == elapsed(
                (#[trigger] pairs[k]).0,
                pairs[k].1,
            ),
{
    let all = all_elapsed(pairs);
    assert(all[i] == elapsed(pairs[i].0, pairs[i].1));
    let k = choose|k: int| 0 <= k < all.len() && all[k] == least;
    assert(all[k] == elapsed(pairs[k].0, pairs[k].1));
}

/// The stated rate: AArch64's frequency register where it is not zero, the
/// timebase on PowerPC and RISC-V; on 32-bit ARM the timer's, or a gigahertz
/// where the clock is read in nanoseconds. x86 states none.
pub proof fn the_stated_rate(
    machine: Machine,
    cntfrq: u64,
    timebase: Option<u64>,
    timer: Option<u32>,
)
    ensures
        match machine {
            Machine::Aarch64 => declared_rate(machine, cntfrq, timebase, timer) == (if cntfrq == 0 {
                None
            } else {
                Some(cntfrq)
            }),
            Machine::PowerPc
            | Machine::PowerPcWide
            | Machine::RiscV
            | Machine::RiscVWide => declared_rate(machine, cntfrq, timebase, timer) == timebase,
            Machine::Arm => declared_rate(machine, cntfrq, timebase, timer) == (match timer {
                Some(hz) => if hz == 0 {
                    None
                } else {
                    Some(hz as u64)
                },
                None => Some(1_000_000_000u64),
            }),
            Machine::X86 | Machine::X86Wide | Machine::Other => declared_rate(
                machine,
                cntfrq,
                timebase,
                timer,
            ) is None,
        },
{
}

/// A 32-bit ARM timer is read with no system underneath, or where ARMv7 has
/// the instruction and a child that tried ended well; a child reports a rate
/// of zero by the code 2.
pub proof fn a_timer_is_read_where_it_may_be(
    target: Target,
    outcome: ChildOutcome,
    cntfrq: u32,
    code: i32,
    ticks: bool,
)
    requires
        call_ensures(arm32::probe_exit_code, (cntfrq,), code),
        call_ensures(arm32::uses_generic_timer, (timer_rate(target, outcome, cntfrq),), ticks),
    ensures
        ticks <==> target.freestanding || target.v7 && outcome.well(),
        timer_rate(target, outcome, cntfrq) matches Some(rate) ==> ticks && rate == cntfrq,
        cntfrq == 0 ==> code == 2,
        cntfrq != 0 ==> code == 0,
{
}

/// A device tree states a rate in one or two cells of four bytes, the high
/// byte first; zero is none.
pub proof fn a_rate_is_one_or_two_cells(bytes: Seq<u8>)
    ensures
        bytes.len() == 4 ==> {
            let hz = ((bytes[0] * 256 + bytes[1]) * 256 + bytes[2]) * 256 + bytes[3];
            &&& hz > 0 ==> dt_frequency(bytes) == Some(hz)
            &&& hz == 0 ==> dt_frequency(bytes) is None
        },
        bytes.len() == 8 ==> {
            let high = ((bytes[0] * 256 + bytes[1]) * 256 + bytes[2]) * 256 + bytes[3];
            let low = ((bytes[4] * 256 + bytes[5]) * 256 + bytes[6]) * 256 + bytes[7];
            let hz = high * 0x1_0000_0000 + low;
            &&& hz > 0 ==> dt_frequency(bytes) == Some(hz)
            &&& hz == 0 ==> dt_frequency(bytes) is None
        },
        bytes.len() != 4 && bytes.len() != 8 ==> dt_frequency(bytes) is None,
{
}

proof fn lemma_letters(isa: Seq<u8>, n: int)
    requires
        0 <= n <= isa.len(),
        forall|i: int| 0 <= i < n ==> #[trigger] isa[i] != 0x5f && isa[i] != 0,
        n < isa.len() ==> isa[n] == 0x5f || isa[n] == 0,
    ensures
        riscv::letters(isa) == n,
    decreases isa.len(),
{
    if isa.len() > 0 && n > 0 {
        let rest = isa.skip(1);
        assert forall|i: int| 0 <= i < n - 1 implies #[trigger] rest[i] != 0x5f && rest[i] != 0 by {
            assert(rest[i] == isa[i + 1]);
        }
        lemma_letters(rest, n - 1);
        assert(isa[0] != 0x5f && isa[0] != 0);
    }
}

/// An ISA string has vectors where it begins with `rv` and four characters,
/// and a `v` stands among the single letters behind them, before the first
/// underscore or the end; capitals do not matter.
pub proof fn a_v_behind_the_width_names_vectors(isa: Seq<u8>, n: int)
    requires
        0 <= n <= isa.len(),
        forall|i: int| 0 <= i < n ==> #[trigger] isa[i] as int != '_' as int && isa[i] != 0,
        n < isa.len() ==> isa[n] as int == '_' as int || isa[n] == 0,
    ensures
        names_vector(isa) <==> {
            &&& n > 4
            &&& isa[0] as int == 'r' as int || isa[0] as int == 'R' as int
            &&& isa[1] as int == 'v' as int || isa[1] as int == 'V' as int
            &&& exists|i: int|
                4 <= i < n && (#[trigger] isa[i] as int == 'v' as int || isa[i] as int
                    == 'V' as int)
        },
{
    lemma_letters(isa, n);
    if names_vector(isa) {
        let i = choose|i: int| 4 <= i < n && (isa[i] == 0x76 || isa[i] == 0x56);
        assert(isa[i] as int == 'v' as int || isa[i] as int == 'V' as int);
    }
}

/// A leaf is answered by the first entry for it and its subleaf, and by zeros
/// where there is none.
pub proof fn a_leaf_is_answered_by_its_entry(
    leaves: Seq<CpuidLeaf>,
    leaf: u32,
    subleaf: u32,
    i: int,
)
    requires
        0 <= i <= leaves.len(),
        forall|j: int|
            0 <= j < i ==> (#[trigger] leaves[j]).leaf != leaf || leaves[j].subleaf != subleaf,
        i < leaves.len() ==> leaves[i].leaf == leaf && leaves[i].subleaf == subleaf,
    ensures
        i < leaves.len() ==> answer(leaves, leaf, subleaf) == leaves[i].registers,
        i == leaves.len() ==> {
            let r = answer(leaves, leaf, subleaf);
            r.eax == 0 && r.ebx == 0 && r.ecx == 0 && r.edx == 0
        },
    decreases leaves.len(),
{
    if leaves.len() > 0 && i > 0 {
        assert(leaves[0].leaf != leaf || leaves[0].subleaf != subleaf);
        let rest = leaves.skip(1);
        assert forall|j: int| 0 <= j < i - 1 implies (#[trigger] rest[j]).leaf != leaf
            || rest[j].subleaf != subleaf by {
            assert(rest[j] == leaves[j + 1]);
        }
        a_leaf_is_answered_by_its_entry(rest, leaf, subleaf, i - 1);
    }
}

/// A child ended well where no signal ended it (the low seven bits of its
/// status) and its code (the second byte) is zero.
pub proof fn a_child_ends_well_with_code_zero(status: i32)
    requires
        0 <= status,
    ensures
        (ChildOutcome::Ended { status }).well() <==> status % 128 == 0 && status / 256 % 256 == 0,
        !ChildOutcome::NotForked.well(),
        !ChildOutcome::NotWaitedFor.well(),
{
    assert(0 <= status ==> (status & 0x7f == 0 <==> status % 128 == 0) && ((status >> 8) & 0xff == 0
        <==> status / 256 % 256 == 0)) by (bit_vector);
}

/// Work on x86 is timed between a fenced read and the end read; a store is
/// drained first, a flushed line written back before, a prefetched one waited
/// for.
pub proof fn x86_probes_time_their_work(
    host: CounterHost,
    load: Vec<Insn>,
    store: Vec<Insn>,
    flushed: Vec<Insn>,
    prefetched: Vec<Insn>,
    vector: Vec<Insn>,
    combined: Vec<Insn>,
)
    requires
        host.target.machine is X86 || host.target.machine is X86Wide,
        call_ensures(x86::probe_load_cycles, (&host.cpuid,), load),
        call_ensures(x86::probe_store_cycles, (&host.cpuid,), store),
        call_ensures(x86::probe_flush_reload_cycles, (&host.cpuid,), flushed),
        call_ensures(x86::probe_prefetch_reload_cycles, (&host.cpuid,), prefetched),
        call_ensures(x86::vector_load_cycles, (&host.cpuid,), vector),
        call_ensures(x86::vector_xor_cycles, (&host.cpuid,), combined),
    ensures
        load@ == host.start_read() + seq![Insn::Load] + host.end_read(),
        store@ == host.start_read() + seq![Insn::Store, Insn::Mfence] + host.end_read(),
        flushed@ == seq![Insn::Clflush, Insn::Mfence] + load@,
        prefetched@ == seq![Insn::PrefetchT0, Insn::Lfence] + load@,
        vector@ == host.start_read() + seq![Insn::VectorLoad] + host.end_read(),
        combined@ == host.start_read() + seq![Insn::VectorXor] + host.end_read(),
{
}

/// The serialising pair puts CPUID outside the work on both sides, and the
/// processor's number is known only where RDTSCP hands it out.
pub proof fn serialising_reads_stand_outside(
    cpu: CpuidTable,
    start: Vec<Insn>,
    end: Vec<Insn>,
    aux: u32,
    core: Option<u32>,
    shown: u32,
)
    requires
        call_ensures(x86::tsc_start_serialising, (), start),
        call_ensures(x86::tsc_end_serialising, (&cpu,), end),
        call_ensures(x86::tsc_aux_checked, (&cpu, aux), core),
        call_ensures(x86::tsc_aux, (&cpu, aux), shown),
    ensures
        start@ == seq![Insn::Cpuid, Insn::Rdtsc],
        cpu.rdtscp() ==> end@ == seq![Insn::Rdtscp, Insn::Lfence, Insn::Cpuid] && core == Some(aux)
            && shown == aux,
        !cpu.rdtscp() ==> end@ == seq![Insn::Lfence, Insn::Rdtsc, Insn::Cpuid] && core is None
            && shown == 0,
{
    assert(start@ =~= seq![Insn::Cpuid, Insn::Rdtsc]);
}

/// The fully ordered reads wait for memory before and hold back what follows.
pub proof fn ordered_reads_are_closed_on_both_sides(
    virtual_read: Vec<Insn>,
    physical_read: Vec<Insn>,
    wide: bool,
    timebase: Vec<Insn>,
)
    requires
        call_ensures(aarch64::cntvct_ordered, (), virtual_read),
        call_ensures(aarch64::cntpct_ordered, (), physical_read),
        call_ensures(powerpc::timebase_ordered, (wide,), timebase),
    ensures
        virtual_read@ == seq![Insn::DsbSy, Insn::Isb, Insn::Cntvct, Insn::Isb],
        physical_read@ == seq![Insn::DsbSy, Insn::Isb, Insn::Cntpct, Insn::Isb],
        timebase@.len() == 3 + powerpc::bare_read(wide).len(),
        timebase@[0] == Insn::Sync && timebase@[1] == Insn::Isync && timebase@.last() == Insn::Isync,
        wide ==> timebase@[2] == Insn::Timebase,
        !wide ==> timebase@[2] == Insn::TimebaseUpper && timebase@[3] == Insn::TimebaseLower
            && timebase@[4] == Insn::TimebaseUpper,
{
}

/// Work elsewhere is timed the same way, between the processor's own reads.
pub proof fn other_probes_time_their_work(
    wide: bool,
    arm: Vec<Insn>,
    fenced: Vec<Insn>,
    power: Vec<Insn>,
    synced: Vec<Insn>,
    stored: Vec<Insn>,
    touched: Vec<Insn>,
    risc: Vec<Insn>,
    risc_store: Vec<Insn>,
)
    requires
        call_ensures(aarch64::probe_load_ticks, (), arm),
        call_ensures(aarch64::probe_load_dsb_ticks, (), fenced),
        call_ensures(powerpc::probe_load_ticks, (wide,), power),
        call_ensures(powerpc::probe_load_sync_ticks, (wide,), synced),
        call_ensures(powerpc::probe_store_ticks, (wide,), stored),
        call_ensures(powerpc::probe_prefetch_load_ticks, (wide,), touched),
        call_ensures(riscv::probe_load_ticks, (wide,), risc),
        call_ensures(riscv::probe_store_ticks, (wide,), risc_store),
    ensures
        arm@ == seq![Insn::Isb, Insn::Cntvct, Insn::Load, Insn::Isb, Insn::Cntvct],
        fenced@ == seq![
            Insn::DsbSy,
            Insn::Isb,
            Insn::Cntvct,
            Insn::Load,
            Insn::DsbSy,
            Insn::Isb,
            Insn::Cntvct,
        ],
        power@ == powerpc::bare_read(wide) + seq![Insn::Isync, Insn::Load, Insn::Isync]
            + powerpc::bare_read(wide),
        synced@ == seq![Insn::Sync] + powerpc::bare_read(wide) + seq![
            Insn::Isync,
            Insn::Load,
            Insn::Sync,
            Insn::Isync,
        ] + powerpc::bare_read(wide),
        stored@ == powerpc::bare_read(wide) + seq![
            Insn::Isync,
            Insn::Store,
            Insn::Sync,
            Insn::Isync,
        ] + powerpc::bare_read(wide),
        touched@ == seq![Insn::Touch] + power@,
        risc@ == riscv::bare_read(wide) + seq![Insn::Fence, Insn::Load, Insn::Fence]
            + riscv::bare_read(wide),
        risc_store@ == riscv::bare_read(wide) + seq![Insn::Fence, Insn::Store, Insn::Fence]
            + riscv::bare_read(wide),
{
    assert(arm@ =~= seq![Insn::Isb, Insn::Cntvct, Insn::Load, Insn::Isb, Insn::Cntvct]);
    assert(fenced@ =~= seq![
        Insn::DsbSy,
        Insn::Isb,
        Insn::Cntvct,
        Insn::Load,
        Insn::DsbSy,
        Insn::Isb,
        Insn::Cntvct,
    ]);
    assert(power@ =~= powerpc::bare_read(wide) + seq![Insn::Isync, Insn::Load, Insn::Isync]
        + powerpc::bare_read(wide));
    assert(touched@ =~= seq![Insn::Touch] + power@);
}

/// A timebase line is the word `timebase`, a colon and a rate that is not
/// zero, whatever white space stands round them.
pub proof fn a_timebase_line_states_its_rate(
    line: Seq<char>,
    key: Seq<char>,
    value: Seq<char>,
    hz: int,
)
    requires
        crate::text::parted(line, ':') == Some((key, value)),
    ensures
        powerpc::line_rate(line) == Some(hz) <==> {
            &&& crate::text::trimmed(key, crate::text::Trim::Space) == "timebase"@
            &&& crate::text::unsigned_value(
                crate::text::trimmed(value, crate::text::Trim::Space),
                10,
                u64::MAX as int,
            ) == Some(hz)
            &&& hz > 0
        },
{
}

/// The first line that states a rate states the machine's.
pub proof fn the_first_rate_counts(lines: Seq<Seq<char>>, i: int)
    requires
        0 <= i < lines.len(),
        powerpc::line_rate(lines[i]) is Some,
        forall|j: int| 0 <= j < i ==> powerpc::line_rate(#[trigger] lines[j]) is None,
    ensures
        powerpc::first_rate(lines) == powerpc::line_rate(lines[i]),
    decreases lines.len(),
{
    if i > 0 {
        assert(powerpc::line_rate(lines[0]) is None);
        let rest = lines.skip(1);
        assert forall|j: int| 0 <= j < i - 1 implies powerpc::line_rate(
            #[trigger] rest[j],
        ) is None by {
            assert(rest[j] == lines[j + 1]);
        }
        the_first_rate_counts(rest, i - 1);
    }
}

/// Why the physical counter was refused, in words.
pub proof fn refusals_are_told_in_words()
    ensures
        CounterSourceError::NoPhysicalCounter.text()
            == "this architecture has no separate physical counter (only AArch64 does)"@,
        CounterSourceError::NotPermitted.text()
            == "the operating system does not let this process read CNTPCT_EL0"@,
{
}

} // verus!
