//! What is measured: the instructions of each probe, and what its readings
//! come to.
use crate::arch::insn::Insn;
use crate::arch::x86::CpuidTable;
use crate::arch::{aarch64, arm32, powerpc, riscv, x86, CounterHost};
use crate::harness::PassCounts;
use crate::hypervisor::ExitCost;
use vstd::prelude::*;

verus! {

/// The distance from one reading of a 64-bit counter to a later one, which
/// may have passed its end.
pub open spec fn around(start: u64, end: u64) -> int {
    if end >= start {
        end - start
    } else {
        end + 0x1_0000_0000_0000_0000 - start
    }
}

pub(crate) proof fn lemma_around(start: u64, end: u64)
    ensures
        crate::arch::insn::elapsed(start, end) == around(start, end),
{
    assert((end - start) % 0x1_0000_0000_0000_0000 == around(start, end));
}

/// What a barrier took is the distance of its two readings, over the end of
/// the counter where it wrapped.
pub proof fn a_barrier_took_the_distance_of_its_readings(
    start: u64,
    end: u64,
    intel: u64,
    arm: u64,
    power: u64,
    risc: u64,
    old_arm: u64,
)
    requires
        call_ensures(x86::probe_barrier_cycles, (start, end), intel),
        call_ensures(aarch64::probe_barrier_ticks, (start, end), arm),
        call_ensures(powerpc::probe_barrier_ticks, (start, end), power),
        call_ensures(riscv::probe_barrier_ticks, (start, end), risc),
        call_ensures(arm32::probe_barrier, (start, end), old_arm),
    ensures
        intel == around(start, end),
        arm == around(start, end),
        power == around(start, end),
        risc == around(start, end),
        old_arm == around(start, end),
{
    lemma_around(start, end);
}

/// What a read costs is how far two in a row moved on, and nothing where the
/// second is behind the first.
pub proof fn a_read_costs_how_far_two_moved_on(
    first: u64,
    second: u64,
    intel: u64,
    arm: u64,
    power: u64,
    risc: u64,
    between: u64,
)
    requires
        call_ensures(x86::read_overhead_cycles, (first, second), intel),
        call_ensures(aarch64::read_overhead_ticks, (first, second), arm),
        call_ensures(powerpc::read_overhead_ticks, (first, second), power),
        call_ensures(riscv::read_overhead_ticks, (first, second), risc),
        call_ensures(crate::arch::insn::between_forward, (first, second), between),
    ensures
        second >= first ==> first + intel == second,
        second < first ==> intel == 0,
        arm == intel && power == intel && risc == intel && between == intel,
{
}

/// The least of several readings is one of them and no more than any.
pub proof fn the_least_is_no_more_than_any(
    pairs: &[(u64, u64)],
    least: Option<u64>,
    readings: &[u64],
    lowest: Option<u64>,
    i: int,
)
    requires
        call_ensures(crate::arch::insn::least_elapsed, (pairs,), least),
        call_ensures(crate::hypervisor::least_of, (readings,), lowest),
    ensures
        least is None <==> pairs@.len() == 0,
        lowest is None <==> readings@.len() == 0,
        least matches Some(n) ==> 0 <= i < pairs@.len() ==> n <= around(pairs@[i].0, pairs@[i].1),
        least matches Some(n) ==> exists|j: int|
            0 <= j < pairs@.len() && n == around((#[trigger] pairs@[j]).0, pairs@[j].1),
        lowest matches Some(n) ==> 0 <= i < readings@.len() ==> n <= readings@[i],
        lowest matches Some(n) ==> readings@.contains(n),
{
    if 0 <= i < pairs@.len() {
        lemma_around(pairs@[i].0, pairs@[i].1);
        assert(crate::arch::insn::all_elapsed(pairs@)[i] == crate::arch::insn::elapsed(
            pairs@[i].0,
            pairs@[i].1,
        ));
    }
    if let Some(n) = least {
        let all = crate::arch::insn::all_elapsed(pairs@);
        let j = choose|j: int| 0 <= j < all.len() && all[j] == n;
        lemma_around(pairs@[j].0, pairs@[j].1);
        assert(n == around(pairs@[j].0, pairs@[j].1));
    }
}

/// The cost of a barrier and of none at all are the least of their own
/// readings, zero where there are none.
pub proof fn each_cost_is_its_own_least(
    bare: &[(u64, u64)],
    synchronised: &[(u64, u64)],
    costs: (u64, u64),
    i: int,
)
    requires
        call_ensures(aarch64::barrier_cost_pair, (bare, synchronised), costs),
    ensures
        bare@.len() == 0 ==> costs.0 == 0,
        synchronised@.len() == 0 ==> costs.1 == 0,
        0 <= i < bare@.len() ==> costs.0 <= around(bare@[i].0, bare@[i].1),
        0 <= i < synchronised@.len() ==> costs.1 <= around(synchronised@[i].0, synchronised@[i].1),
        bare@.len() > 0 ==> exists|j: int|
            0 <= j < bare@.len() && costs.0 == around((#[trigger] bare@[j]).0, bare@[j].1),
        synchronised@.len() > 0 ==> exists|j: int|
            0 <= j < synchronised@.len() && costs.1 == around(
                (#[trigger] synchronised@[j]).0,
                synchronised@[j].1,
            ),
{
    lemma_floor(bare@, costs.0, i);
    lemma_floor(synchronised@, costs.1, i);
}

proof fn lemma_floor(pairs: Seq<(u64, u64)>, floor: u64, i: int)
    requires
        aarch64::floor_of(pairs, floor),
    ensures
        pairs.len() == 0 ==> floor == 0,
        0 <= i < pairs.len() ==> floor <= around(pairs[i].0, pairs[i].1),
        pairs.len() > 0 ==> exists|j: int|
            0 <= j < pairs.len() && floor == around((#[trigger] pairs[j]).0, pairs[j].1),
{
    let all = crate::arch::insn::all_elapsed(pairs);
    if 0 <= i < pairs.len() {
        lemma_around(pairs[i].0, pairs[i].1);
        assert(all[i] == crate::arch::insn::elapsed(pairs[i].0, pairs[i].1));
    }
    if pairs.len() > 0 {
        let j = choose|j: int| 0 <= j < all.len() && all[j] == floor;
        lemma_around(pairs[j].0, pairs[j].1);
        assert(floor == around(pairs[j].0, pairs[j].1));
    }
}

/// A trap's cost is the least of the traps beside the least of the plain
/// reads, and suggests an exit where it is over twenty times as much.
pub proof fn a_trap_is_weighed_against_plain_reads(
    plain: &[u64],
    traps: &[u64],
    cost: Option<ExitCost>,
)
    requires
        call_ensures(crate::hypervisor::measure_trap_cost, (plain, traps), cost),
    ensures
        cost is Some <==> plain@.len() > 0 && traps@.len() > 0,
        cost matches Some(c) ==> plain@.contains(c.baseline_cycles) && traps@.contains(
            c.trap_cycles,
        ),
        cost matches Some(c) ==> forall|i: int|
            0 <= i < plain@.len() ==> c.baseline_cycles <= #[trigger] plain@[i],
        cost matches Some(c) ==> forall|i: int|
            0 <= i < traps@.len() ==> c.trap_cycles <= #[trigger] traps@[i],
        cost matches Some(c) ==> (c.suggests_exit <==> c.baseline_cycles > 0 && c.trap_cycles > 20
            * c.baseline_cycles),
{
}

/// The least cycles of the passes are one pass's own and no more than any's.
pub proof fn the_cheapest_pass_counts(passes: &[PassCounts], cycles: Option<u64>, i: int)
    requires
        call_ensures(crate::harness::ring0_cycles_per_op, (passes,), cycles),
    ensures
        cycles is None <==> passes@.len() == 0,
        cycles matches Some(n) ==> 0 <= i < passes@.len() ==> n <= passes@[i].cycles,
        cycles matches Some(n) ==> exists|j: int|
            0 <= j < passes@.len() && (#[trigger] passes@[j]).cycles == n,
{
}

/// Two halves of a counter are one reading where the upper half did not
/// change meanwhile.
pub proof fn halves_are_joined_where_they_agree(
    upper: u32,
    lower: u32,
    again: u32,
    whole: Option<u64>,
)
    requires
        call_ensures(crate::arch::insn::join_halves, (upper, lower, again), whole),
    ensures
        whole is Some <==> upper == again,
        whole matches Some(n) ==> n == 0x1_0000_0000 * upper + lower,
{
}

/// A vector load is timed as a load is, with a vector's own instruction, and
/// so is a vector's exclusive or.
pub proof fn vectors_are_timed_with_their_own_instructions(
    arm_load: Vec<Insn>,
    arm_xor: Vec<Insn>,
    power_load: Vec<Insn>,
    power_xor: Vec<Insn>,
    risc_load: Vec<Insn>,
    risc_xor: Vec<Insn>,
)
    requires
        call_ensures(aarch64::vector_load_ticks, (), arm_load),
        call_ensures(aarch64::vector_xor_ticks, (), arm_xor),
        call_ensures(powerpc::vector_load_ticks, (true,), power_load),
        call_ensures(powerpc::vector_xor_ticks, (true,), power_xor),
        call_ensures(riscv::vector_load_ticks, (true,), risc_load),
        call_ensures(riscv::vector_xor_ticks, (true,), risc_xor),
    ensures
        arm_load@ == seq![Insn::Isb, Insn::Cntvct, Insn::VectorLoad, Insn::Isb, Insn::Cntvct],
        arm_xor@ == seq![Insn::Isb, Insn::Cntvct, Insn::VectorXor, Insn::Isb, Insn::Cntvct],
        power_load@ == seq![
            Insn::Timebase,
            Insn::Isync,
            Insn::VectorLoad,
            Insn::Isync,
            Insn::Timebase,
        ],
        power_xor@ == seq![
            Insn::Timebase,
            Insn::Isync,
            Insn::VectorXor,
            Insn::Isync,
            Insn::Timebase,
        ],
        risc_load@ == seq![Insn::Time, Insn::Fence, Insn::VectorLoad, Insn::Fence, Insn::Time],
        risc_xor@ == seq![Insn::Time, Insn::Fence, Insn::VectorXor, Insn::Fence, Insn::Time],
{
}

/// A 32-bit ARM's probes are timed between two of its own readings.
pub proof fn an_old_arm_is_timed_between_two_readings(
    rate: u32,
    load: Vec<Insn>,
    vector: Vec<Insn>,
    combined: Vec<Insn>,
)
    requires
        call_ensures(arm32::probe_load, (true, Some(rate)), load),
        call_ensures(arm32::vector_load_units, (true, Some(rate)), vector),
        call_ensures(arm32::vector_xor_units, (true, Some(rate)), combined),
    ensures
        load@ == seq![
            Insn::Isb,
            Insn::Cntvct,
            Insn::Isb,
            Insn::Load,
            Insn::Isb,
            Insn::Cntvct,
            Insn::Isb,
        ],
        vector@ == seq![
            Insn::Isb,
            Insn::Cntvct,
            Insn::Isb,
            Insn::VectorLoad,
            Insn::Isb,
            Insn::Cntvct,
            Insn::Isb,
        ],
        combined@ == seq![
            Insn::Isb,
            Insn::Cntvct,
            Insn::Isb,
            Insn::VectorXor,
            Insn::Isb,
            Insn::Cntvct,
            Insn::Isb,
        ],
{
}

/// RISC-V's cycles and retired instructions are read with their own
/// instructions: whole where registers are wide, else the upper half, the
/// lower and the upper again.
pub proof fn cycles_and_instructions_are_read_as_themselves(
    cycles: Vec<Insn>,
    cycle_halves: Vec<Insn>,
    retired: Vec<Insn>,
    retired_halves: Vec<Insn>,
)
    requires
        call_ensures(riscv::rdcycle_raw, (true,), cycles),
        call_ensures(riscv::rdcycle_raw, (false,), cycle_halves),
        call_ensures(riscv::rdinstret_raw, (true,), retired),
        call_ensures(riscv::rdinstret_raw, (false,), retired_halves),
    ensures
        cycles@ == seq![Insn::Cycle],
        cycle_halves@ == seq![Insn::CycleUpper, Insn::CycleLower, Insn::CycleUpper],
        retired@ == seq![Insn::Instret],
        retired_halves@ == seq![Insn::InstretUpper, Insn::InstretLower, Insn::InstretUpper],
{
}

/// The bare reads name the counter they read.
pub proof fn bare_reads_are_one_instruction(
    virtual_read: Vec<Insn>,
    physical_read: Vec<Insn>,
    fenced: Vec<Insn>,
    time: Vec<Insn>,
    timebase: Vec<Insn>,
)
    requires
        call_ensures(aarch64::cntvct_raw, (), virtual_read),
        call_ensures(aarch64::cntpct_raw, (), physical_read),
        call_ensures(aarch64::cntpct_isb, (), fenced),
        call_ensures(riscv::rdtime_raw, (true,), time),
        call_ensures(powerpc::timebase_raw, (true,), timebase),
    ensures
        virtual_read@ == seq![Insn::Cntvct],
        physical_read@ == seq![Insn::Cntpct],
        fenced@ == seq![Insn::Isb, Insn::Cntpct],
        time@ == seq![Insn::Time],
        timebase@ == seq![Insn::Timebase],
{
}

/// The core's number comes with the counter only where the processor has the
/// instruction that reads both.
pub proof fn the_core_comes_with_rdtscp(host: CounterHost, aux: u32, core: Option<u32>)
    requires
        call_ensures(crate::arch::counter_aux, (&host, aux), core),
    ensures
        core is Some <==> (host.target.machine is X86 || host.target.machine is X86Wide)
            && host.cpuid.rdtscp(),
        core matches Some(n) ==> n == aux,
{
}

/// An end that every x86 can run is ordered behind the work, whichever
/// instructions the processor has.
pub proof fn a_portable_end_is_ordered(cpu: CpuidTable, plan: Vec<Insn>)
    requires
        call_ensures(x86::tsc_end_portable, (&cpu,), plan),
    ensures
        cpu.rdtscp() ==> plan@ == seq![Insn::Rdtscp, Insn::Lfence],
        !cpu.rdtscp() ==> plan@ == seq![Insn::Lfence, Insn::Rdtsc],
{
}

/// Following links one by one is following the first and then the rest.
pub proof fn a_chase_follows_the_links(
    links: Seq<Option<usize>>,
    first: usize,
    steps: nat,
)
    ensures
        crate::arch::insn::chased(links, None, steps) is None,
        crate::arch::insn::chased(links, Some(first), 0) == Some(first),
        crate::arch::insn::chased(links, Some(first), steps + 1) == crate::arch::insn::chased(
            links,
            links[first as int],
            steps,
        ),
    decreases steps,
{
    if steps > 0 {
        a_chase_follows_the_links(links, first, (steps - 1) as nat);
    } else {
        assert(crate::arch::insn::chased(links, Some(first), 0) == Some(first));
    }
}

} // verus!
