//! What clocks show and what a calibration makes of it.
use crate::arch::insn::forward;
use crate::clock::{
    best_case, calibrate_cycles_per_ns, calibrate_route, costs, least, measure_wrapper_overhead,
    route_samples, CalibrationReadings, ClockRoute, NanoclockSnapshot, RouteCalibration, RouteHost,
    SnapshotReadings, StableClockConfig, StableClockState, WrapperKind,
};
use vstd::prelude::*;

verus! {

/// A route exists on its own processors: x86's with the instruction it needs,
/// the cycle count where Linux hands it out, the vector one where there are
/// vectors. The system's clocks exist everywhere.
pub proof fn routes_exist_on_their_processors(host: RouteHost)
    ensures
        ({
            let machine = host.counter.target.machine;
            let x86 = machine is X86 || machine is X86Wide;
            let power = machine is PowerPc || machine is PowerPcWide;
            &&& ClockRoute::Auto.available(host)
            &&& ClockRoute::WallRealtimeNs.available(host)
            &&& ClockRoute::MonotonicNs.available(host)
            &&& ClockRoute::X86RdtscRaw.available(host) <==> x86
            &&& ClockRoute::X86RdtscLfence.available(host) <==> x86
            &&& ClockRoute::X86RdtscMfence.available(host) <==> x86
            &&& ClockRoute::X86RdtscpLfence.available(host) <==> x86 && host.counter.cpuid.rdtscp()
            &&& ClockRoute::Arm64Cntfrq.available(host) <==> machine is Aarch64
            &&& ClockRoute::Arm64Cntvct.available(host) <==> machine is Aarch64
            &&& ClockRoute::Arm64CntvctIsb.available(host) <==> machine is Aarch64
            &&& ClockRoute::LinuxPerfCycles.available(host) <==> host.counter.target.linux
                && host.perf
            &&& ClockRoute::BestSimdCounter.available(host) <==> host.simd
            &&& ClockRoute::PpcTimebase.available(host) <==> power
            &&& ClockRoute::PpcTimebaseIsync.available(host) <==> power
            &&& ClockRoute::RiscvRdtime.available(host) <==> machine is RiscV || machine is RiscVWide
            &&& ClockRoute::Arm32Counter.available(host) <==> machine is Arm
        }),
{
}

/// Routes are shown by these names.
pub proof fn routes_are_shown_by_name()
    ensures
        ClockRoute::Auto.label() == "auto"@,
        ClockRoute::WallRealtimeNs.label() == "wall-realtime-ns"@,
        ClockRoute::MonotonicNs.label() == "monotonic-ns"@,
        ClockRoute::X86RdtscRaw.label() == "x86-rdtsc-raw"@,
        ClockRoute::X86RdtscLfence.label() == "x86-lfence-rdtsc"@,
        ClockRoute::X86RdtscMfence.label() == "x86-mfence-lfence-rdtsc"@,
        ClockRoute::X86RdtscpLfence.label() == "x86-rdtscp-lfence"@,
        ClockRoute::Arm64Cntfrq.label() == "arm64-cntfrq-el0"@,
        ClockRoute::Arm64Cntvct.label() == "arm64-cntvct-el0"@,
        ClockRoute::Arm64CntvctIsb.label() == "arm64-isb-cntvct-el0"@,
        ClockRoute::LinuxPerfCycles.label() == "linux-perf-cycles"@,
        ClockRoute::BestSimdCounter.label() == "best-simd-counter"@,
        ClockRoute::PpcTimebase.label() == "ppc-mftb"@,
        ClockRoute::PpcTimebaseIsync.label() == "ppc-isync-mftb"@,
        ClockRoute::RiscvRdtime.label() == "riscv-rdtime"@,
        ClockRoute::Arm32Counter.label() == "arm32-isb-cntvct"@,
{
}

/// A route that was asked for is taken where it exists; otherwise the best.
pub proof fn a_route_is_taken_where_it_exists(route: ClockRoute, host: RouteHost)
    ensures
        !(route is Auto) && route.available(host) ==> route.resolved(host) == route,
        route is Auto || !route.available(host) ==> route.resolved(host) == host.best_route(),
{
}

/// A route is found by its name whatever its capitals, and nothing else is.
pub proof fn a_route_is_found_by_its_name(routes: Seq<ClockRoute>, name: Seq<char>)
    ensures
        match ClockRoute::first_of(routes, name) {
            Some(route) => routes.contains(route) && crate::text::lowered(route.label())
                == crate::text::lowered(name),
            None => forall|i: int|
                0 <= i < routes.len() ==> crate::text::lowered((#[trigger] routes[i]).label())
                    != crate::text::lowered(name),
        },
    decreases routes.len(),
{
    if routes.len() > 0 {
        if crate::text::lowered(routes[0].label()) == crate::text::lowered(name) {
            assert(routes.contains(routes[0]));
        } else {
            let rest = routes.skip(1);
            a_route_is_found_by_its_name(rest, name);
            if let Some(route) = ClockRoute::first_of(rest, name) {
                let i = choose|i: int| 0 <= i < rest.len() && rest[i] == route;
                assert(routes[i + 1] == route);
            } else {
                assert forall|i: int| 0 <= i < routes.len() implies crate::text::lowered(
                    (#[trigger] routes[i]).label(),
                ) != crate::text::lowered(name) by {
                    if i > 0 {
                        assert(rest[i - 1] == routes[i]);
                    }
                }
            }
        }
    }
}

/// Which bindings are measured for real, and that a loop runs once at least.
pub proof fn native_bindings_are_measured(
    kind: WrapperKind,
    native: bool,
    iterations: u32,
    calls: u32,
)
    requires
        call_ensures(WrapperKind::is_measured_natively, (kind,), native),
        call_ensures(measure_wrapper_overhead, (kind, iterations), calls),
    ensures
        native <==> kind is CApi || kind is DllBoundary || kind is RustFfi,
        iterations >= 1 ==> calls == iterations,
        iterations == 0 ==> calls == 1,
{
}

/// Bindings are shown by these names.
pub proof fn bindings_are_shown_by_name()
    ensures
        WrapperKind::CApi.label() == "c-api"@,
        WrapperKind::DllBoundary.label() == "dll-boundary"@,
        WrapperKind::PythonCtypes.label() == "python-ctypes"@,
        WrapperKind::PythonCffi.label() == "python-cffi"@,
        WrapperKind::NodeFfi.label() == "node-ffi"@,
        WrapperKind::LuaFfi.label() == "lua-ffi"@,
        WrapperKind::JavaJna.label() == "java-jna"@,
        WrapperKind::CsharpPinvoke.label() == "csharp-pinvoke"@,
        WrapperKind::GoCgo.label() == "go-cgo"@,
        WrapperKind::RustFfi.label() == "rust-ffi"@,
        WrapperKind::ZigFfi.label() == "zig-ffi"@,
{
}

proof fn lemma_costs(pairs: Seq<(u64, u64)>)
    ensures
        least(costs(pairs)) == u64::MAX || exists|i: int|
            0 <= i < pairs.len() && forward((#[trigger] pairs[i]).0, pairs[i].1) > 0 && forward(
                pairs[i].0,
                pairs[i].1,
            ) == least(costs(pairs)),
    decreases pairs.len(),
{
    if pairs.len() > 0 {
        let shorter = pairs.drop_last();
        lemma_costs(shorter);
        let d = forward(pairs.last().0, pairs.last().1);
        if d > 0 {
            assert(costs(pairs).drop_last() =~= costs(shorter));
        }
        if least(costs(pairs)) != u64::MAX {
            if d > 0 && d == least(costs(pairs)) {
                let i = pairs.len() - 1;
                assert(pairs[i] == pairs.last());
                assert(forward(pairs[i].0, pairs[i].1) > 0);
            } else {
                assert(least(costs(pairs)) == least(costs(shorter)));
                let i = choose|i: int|
                    0 <= i < shorter.len() && forward((#[trigger] shorter[i]).0, shorter[i].1) > 0
                        && forward(shorter[i].0, shorter[i].1) == least(costs(shorter));
                assert(pairs[i] == shorter[i]);
                assert(forward(pairs[i].0, pairs[i].1) > 0);
            }
        }
    }
}

/// A best case is one of the distances that are not zero, and no such distance
/// is shorter; where there is none it is zero.
pub proof fn the_best_case_is_the_shortest_real_one(pairs: Seq<(u64, u64)>, i: int)
    requires
        0 <= i < pairs.len(),
        forall|k: int|
            0 <= k < pairs.len() ==> forward((#[trigger] pairs[k]).0, pairs[k].1) < u64::MAX,
    ensures
        forward(pairs[i].0, pairs[i].1) > 0 ==> 0 < best_case(pairs) <= forward(
            pairs[i].0,
            pairs[i].1,
        ),
        best_case(pairs) > 0 ==> exists|k: int|
            0 <= k < pairs.len() && forward((#[trigger] pairs[k]).0, pairs[k].1) == best_case(
                pairs,
            ),
        (forall|k: int|
            0 <= k < pairs.len() ==> forward((#[trigger] pairs[k]).0, pairs[k].1) == 0)
            ==> best_case(pairs) == 0,
{
    lemma_costs(pairs);
    if forward(pairs[i].0, pairs[i].1) > 0 {
        crate::clock::best_case_is_least(pairs, i);
        lemma_reached(pairs, i);
    }
}

proof fn lemma_reached(pairs: Seq<(u64, u64)>, i: int)
    requires
        0 <= i < pairs.len(),
        0 < forward(pairs[i].0, pairs[i].1) < u64::MAX,
    ensures
        least(costs(pairs)) <= forward(pairs[i].0, pairs[i].1),
        0 < least(costs(pairs)),
    decreases pairs.len(),
{
    let shorter = pairs.drop_last();
    let d = forward(pairs.last().0, pairs.last().1);
    lemma_positive(pairs);
    if d > 0 {
        assert(costs(pairs).drop_last() =~= costs(shorter));
    }
    if i < shorter.len() {
        assert(shorter[i] == pairs[i]);
        lemma_reached(shorter, i);
    }
}

proof fn lemma_positive(pairs: Seq<(u64, u64)>)
    ensures
        0 < least(costs(pairs)),
    decreases pairs.len(),
{
    if pairs.len() > 0 {
        let shorter = pairs.drop_last();
        lemma_positive(shorter);
        let d = forward(pairs.last().0, pairs.last().1);
        if d > 0 {
            assert(costs(pairs).drop_last() =~= costs(shorter));
        }
    }
}

/// A snapshot holds each reading under its own name, and zero for each counter
/// that another processor has.
pub proof fn a_snapshot_holds_its_own_counters(
    s: NanoclockSnapshot,
    host: RouteHost,
    r: SnapshotReadings,
)
    requires
        s.records(host, r),
    ensures
        s.unix_time_ns == r.unix_time_ns && s.monotonic_ns == r.monotonic_ns,
        s.process_time_ns == r.process_time_ns && s.thread_time_ns == r.thread_time_ns,
        s.selected_overhead_units == r.barrier_units && s.cpu_index == r.cpu_index,
        s.simd_counter == r.simd_counter && s.simd_counter_ns == r.simd_counter_ns,
        s.native_overhead_units == r.native_overhead_units && s.ffi_overhead_units
            == r.ffi_overhead_units,
        s.route == host.best_route() && s.selected_raw_units == r.selected_raw,
        host.counter.target.machine is X86 || host.counter.target.machine is X86Wide ==> {
            &&& s.rdtsc_raw == r.rdtsc_raw && s.rdtsc_lfence == r.rdtsc_lfence && s.rdtsc_mfence
                == r.rdtsc_mfence
            &&& host.counter.cpuid.rdtscp() ==> s.rdtscp_lfence == r.rdtscp_lfence && s.rdtscp_aux
                == r.rdtscp_aux
            &&& !host.counter.cpuid.rdtscp() ==> s.rdtscp_lfence == 0 && s.rdtscp_aux == 0
        },
        !(host.counter.target.machine is X86 || host.counter.target.machine is X86Wide) ==> {
            s.rdtsc_raw == 0 && s.rdtsc_lfence == 0 && s.rdtsc_mfence == 0 && s.rdtscp_lfence == 0
                && s.rdtscp_aux == 0
        },
        host.counter.target.machine is Aarch64 ==> {
            s.cntfrq_el0 == r.cntfrq_el0 && s.cntvct_el0 == r.cntvct_el0 && s.cntvct_isb
                == r.cntvct_isb && s.cntvct_ns == r.cntvct_ns
        },
        !(host.counter.target.machine is Aarch64) ==> {
            s.cntfrq_el0 == 0 && s.cntvct_el0 == 0 && s.cntvct_isb == 0 && s.cntvct_ns == 0
        },
        host.counter.target.linux ==> s.perf_cycles == r.perf_cycles && s.perf_pmu_count
            == r.perf_pmu_count,
        !host.counter.target.linux ==> s.perf_cycles is None && s.perf_pmu_count == 0,
{
}

/// A snapshot is virtualized unless its platform is native.
pub proof fn a_snapshot_knows_its_platform(s: NanoclockSnapshot, virtualized: bool)
    requires
        call_ensures(NanoclockSnapshot::is_virtualized, (&s,), virtualized),
    ensures
        s.timing_impact is Native ==> !virtualized,
        s.timing_impact is HardwareAssisted || s.timing_impact is Emulated ==> virtualized,
{
}

/// A calibration takes its window from the readings: units and nanoseconds
/// forward from start to end, the thread migrated where it is known to have
/// been on two processors, pinned where that was asked for and worked.
pub proof fn a_calibration_is_its_window(
    host: RouteHost,
    config: StableClockConfig,
    steady: bool,
    r: CalibrationReadings,
    state: StableClockState,
    usable: bool,
)
    requires
        call_ensures(calibrate_cycles_per_ns, (&host, &config, steady, &r), state),
        call_ensures(StableClockState::is_usable, (&state,), usable),
    ensures
        state.route == config.route.resolved(host),
        state.pinned <==> config.pin_cpu && r.pinned,
        state.migrated <==> (r.cpu_before matches Some(a) && r.cpu_after matches Some(b) && a != b),
        state.cpu_before == r.cpu_before && state.cpu_after == r.cpu_after,
        state.is_invariant == steady,
        state.raw_start == r.raw_start && state.raw_end == r.raw_end,
        r.raw_end >= r.raw_start ==> state.elapsed_units == r.raw_end - r.raw_start,
        r.raw_end < r.raw_start ==> state.elapsed_units == 0,
        r.wall_end_ns >= r.wall_start_ns ==> state.elapsed_ns == r.wall_end_ns - r.wall_start_ns,
        r.wall_end_ns < r.wall_start_ns ==> state.elapsed_ns == 0,
        state.read_overhead_units == r.read_overhead_units,
        state.kernel_timecall_overhead_units == r.kernel_timecall_overhead_units,
        state.api_call_overhead_units == r.api_call_overhead_units,
        usable <==> r.raw_end > r.raw_start && r.wall_end_ns > r.wall_start_ns && (state.migrated
            ==> state.pinned),
{
}

/// A route's calibration reads as often as asked, a hundred thousand times
/// where nothing was, and is otherwise its window.
pub proof fn a_route_is_calibrated_by_its_window(
    host: RouteHost,
    route: ClockRoute,
    samples: u32,
    pin: bool,
    r: CalibrationReadings,
    out: RouteCalibration,
    has: bool,
    reads: u32,
)
    requires
        call_ensures(calibrate_route, (&host, route, samples, pin, &r), out),
        call_ensures(RouteCalibration::has_rates, (&out,), has),
        call_ensures(route_samples, (samples,), reads),
    ensures
        samples > 0 ==> reads == samples && out.samples == samples,
        samples == 0 ==> reads == 100_000 && out.samples == 100_000,
        out.route == route.resolved(host),
        out.pinned <==> pin && r.pinned,
        out.migrated <==> (r.cpu_before matches Some(a) && r.cpu_after matches Some(b) && a != b),
        r.raw_end >= r.raw_start ==> out.elapsed_raw_units == r.raw_end - r.raw_start,
        r.raw_end < r.raw_start ==> out.elapsed_raw_units == 0,
        r.wall_end_ns >= r.wall_start_ns ==> out.elapsed_ns == r.wall_end_ns - r.wall_start_ns,
        r.wall_end_ns < r.wall_start_ns ==> out.elapsed_ns == 0,
        has <==> r.raw_end > r.raw_start && r.wall_end_ns > r.wall_start_ns,
{
}

/// The window is never empty.
pub proof fn the_window_is_never_empty(config: StableClockConfig, ms: u32)
    requires
        call_ensures(StableClockConfig::window_ms, (&config,), ms),
    ensures
        config.calibration_ms > 0 ==> ms == config.calibration_ms,
        config.calibration_ms == 0 ==> ms == 1,
{
}

} // verus!
