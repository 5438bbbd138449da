//! Clock routes, snapshots and calibrations.
use nanochrono::arch::aarch64::CounterChoice;
use nanochrono::arch::insn::Insn;
use nanochrono::arch::x86::{CpuidLeaf, CpuidTable, Registers};
use nanochrono::arch::CounterHost;
use nanochrono::backend::Backend;
use nanochrono::clock::{
    calibrate_cycles_per_ns, calibrate_route, measure_api_call_overhead,
    measure_kernel_timecall_overhead, measure_wrapper_overhead, route_samples,
    CalibrationReadings, ClockRoute, NanoclockSnapshot, RouteHost, RoutePlan, SnapshotReadings,
    StableClockConfig, WrapperKind,
};
use nanochrono::hypervisor::{Hypervisor, TimingImpact};
use nanochrono::machine::{Machine, Target};
use std::time::Instant;

fn host(machine: Machine, rdtscp: bool, perf: bool, simd: bool) -> RouteHost {
    let mut leaves = Vec::new();
    if rdtscp {
        leaves.push(CpuidLeaf {
            leaf: 0x8000_0000,
            subleaf: 0,
            registers: Registers { eax: 0x8000_0008, ebx: 0, ecx: 0, edx: 0 },
        });
        leaves.push(CpuidLeaf {
            leaf: 0x8000_0001,
            subleaf: 0,
            registers: Registers { eax: 0, ebx: 0, ecx: 0, edx: 1 << 27 },
        });
    }
    RouteHost {
        counter: CounterHost {
            target: Target {
                machine,
                little_endian: true,
                simd: true,
                v7: true,
                freestanding: false,
                linux: true,
            },
            cpuid: CpuidTable { leaves, xcr0: 0 },
            choice: CounterChoice::default(),
            timer: Some(19_200_000),
        },
        perf,
        simd,
    }
}

fn hosts() -> Vec<RouteHost> {
    let mut all = Vec::new();
    for machine in [
        Machine::X86,
        Machine::X86Wide,
        Machine::Aarch64,
        Machine::PowerPc,
        Machine::PowerPcWide,
        Machine::RiscV,
        Machine::RiscVWide,
        Machine::Arm,
        Machine::Other,
    ] {
        for bits in 0..8 {
            all.push(host(machine, bits & 1 != 0, bits & 2 != 0, bits & 4 != 0));
        }
    }
    all
}

#[test]
fn best_route_is_available() {
    for host in hosts() {
        assert!(ClockRoute::best(&host).is_available(&host));
    }
}

#[test]
fn auto_never_survives_resolution() {
    for host in hosts() {
        assert_ne!(ClockRoute::Auto.resolve(&host), ClockRoute::Auto);
    }
}

#[test]
fn unavailable_routes_fall_back() {
    for host in hosts() {
        for route in ClockRoute::all() {
            let resolved = route.resolve(&host);
            assert!(
                resolved.is_available(&host),
                "{} resolved to unavailable {}",
                route.name(),
                resolved.name()
            );
        }
    }
}

fn execute(plan: &[Insn], since: &Instant) -> u64 {
    let mut reading = 0;
    for insn in plan {
        if matches!(
            insn,
            Insn::Rdtsc
                | Insn::Rdtscp
                | Insn::Cntvct
                | Insn::Cntpct
                | Insn::Timebase
                | Insn::TimebaseLower
                | Insn::Time
                | Insn::TimeLower
                | Insn::Monotonic
        ) {
            reading = since.elapsed().as_nanos() as u64;
        }
    }
    reading
}

fn perform(plan: &RoutePlan, since: &Instant) -> u64 {
    match plan {
        RoutePlan::Wall | RoutePlan::Monotonic => since.elapsed().as_nanos() as u64,
        RoutePlan::DeclaredRate => 24_000_000,
        RoutePlan::Counter { plan } => execute(plan, since),
        RoutePlan::PerfCycles { otherwise } => execute(otherwise, since),
    }
}

#[test]
fn counter_routes_advance() {
    for host in [
        host(Machine::X86Wide, true, false, true),
        host(Machine::Aarch64, false, false, true),
        host(Machine::Other, false, false, false),
    ] {
        let since = Instant::now();
        let route = ClockRoute::best(&host);
        let a = route.read_raw(&host, perform(&route.plan(&host), &since));
        while since.elapsed().as_millis() < 2 {}
        let b = route.read_raw(&host, perform(&route.plan(&host), &since));
        assert!(b > a, "{} did not advance", route.name());
    }
}

fn readings() -> SnapshotReadings {
    SnapshotReadings {
        unix_time_ns: 1_700_000_000_000_000_000,
        monotonic_ns: 5_000,
        process_time_ns: 400,
        thread_time_ns: 300,
        selected_raw: 9_000,
        selected_converted: 3_000,
        barrier_units: 25,
        rdtsc_raw: 1,
        rdtsc_lfence: 2,
        rdtsc_mfence: 3,
        rdtscp_lfence: 4,
        rdtscp_aux: 5,
        cntfrq_el0: 6,
        cntvct_el0: 7,
        cntvct_isb: 8,
        cntvct_ns: 9,
        perf_cycles: None,
        perf_pmu_count: 0,
        simd_counter: 10,
        simd_counter_ns: 11,
        native_overhead_units: 12,
        ffi_overhead_units: 13,
        cpu_index: 2,
    }
}

#[test]
fn snapshot_fills_wall_and_monotonic() {
    let host = host(Machine::X86Wide, true, false, true);
    let snap = NanoclockSnapshot::capture(
        &host,
        Backend::Avx2,
        Some("AVX2".to_string()),
        Hypervisor::Kvm,
        TimingImpact::HardwareAssisted,
        &readings(),
    );
    assert!(snap.unix_time_ns > 1_600_000_000_000_000_000);
    assert!(snap.monotonic_ns > 0);
    assert_eq!(snap.route, ClockRoute::best(&host));
    assert_eq!(snap.selected_raw_units, 9_000);
    assert!(snap.is_virtualized());
    assert_eq!(snap.simd_name(), "AVX2");
}

fn window(raw_start: u64, raw_end: u64, start: u64, end: u64) -> CalibrationReadings {
    CalibrationReadings {
        cpu_before: Some(1),
        cpu_after: Some(1),
        pinned: true,
        raw_start,
        raw_end,
        wall_start_ns: start,
        wall_end_ns: end,
        read_overhead_units: 20,
        kernel_timecall_overhead_units: 40,
        api_call_overhead_units: 60,
    }
}

#[test]
fn short_calibration_produces_a_usable_factor() {
    let host = host(Machine::X86Wide, true, false, true);
    let config = StableClockConfig {
        pin_cpu: false,
        warmup_ms: 0,
        calibration_ms: 20,
        require_no_migration: false,
        ..Default::default()
    };
    let state =
        calibrate_cycles_per_ns(&host, &config, true, &window(100, 60_000_100, 0, 20_000_000));
    assert_eq!((state.elapsed_units, state.elapsed_ns), (60_000_000, 20_000_000));
    assert!(state.is_usable(), "calibration produced no factor");
    assert!(config.window_ms() >= 20);
}

#[test]
fn a_migrated_calibration_is_not_usable_unpinned() {
    let host = host(Machine::X86Wide, true, false, true);
    let moved = CalibrationReadings {
        cpu_after: Some(2),
        pinned: false,
        ..window(100, 60_000_100, 0, 20_000_000)
    };
    let state = calibrate_cycles_per_ns(&host, &StableClockConfig::default(), true, &moved);
    assert!(state.migrated && !state.is_usable());
    // An empty window gives no factor.
    let empty = window(100, 100, 5, 5);
    let state = calibrate_cycles_per_ns(&host, &StableClockConfig::default(), true, &empty);
    assert!(!state.is_usable());
}

#[test]
fn a_route_is_calibrated_over_its_samples() {
    let host = host(Machine::X86Wide, true, false, true);
    let out = calibrate_route(&host, ClockRoute::Auto, 100, true, &window(0, 3_000, 0, 1_000));
    assert_eq!(out.route, ClockRoute::best(&host));
    assert_eq!((out.elapsed_raw_units, out.elapsed_ns), (3_000, 1_000));
    assert!(out.has_rates());
    assert!(route_samples(0) > 0);
}

#[test]
fn routes_are_found_by_their_names() {
    for route in ClockRoute::all() {
        assert_eq!(ClockRoute::find(route.name()), Some(route));
    }
    assert_eq!(ClockRoute::find("sundial"), None);
    assert_eq!(ClockRoute::all().len(), 15);
    assert!(!ClockRoute::all().contains(&ClockRoute::Auto));
    assert_eq!(ClockRoute::default(), ClockRoute::Auto);
}

#[test]
fn a_route_without_its_own_counter_reads_none_of_another() {
    let x86 = host(Machine::X86Wide, true, false, true);
    assert!(matches!(ClockRoute::WallRealtimeNs.plan(&x86), RoutePlan::Wall));
    assert!(ClockRoute::X86RdtscRaw.read_counter(&x86).contains(&Insn::Rdtsc));
    let (raw, ns) = ClockRoute::X86RdtscRaw.read(&x86, 9_000, 3_000);
    assert_eq!((raw, ns), (9_000, 3_000));
}

#[test]
fn best_cases_are_the_least_of_their_pairs() {
    assert_eq!(measure_kernel_timecall_overhead(&[(10, 90), (100, 130), (200, 260)]), 30);
    assert_eq!(measure_api_call_overhead(&[(0, 55), (60, 100)]), 40);
    assert_eq!(measure_api_call_overhead(&[]), 0);
}

#[test]
fn wrappers_are_measured_or_stand_for_a_baseline() {
    assert!(WrapperKind::RustFfi.is_measured_natively());
    assert!(!WrapperKind::PythonCtypes.is_measured_natively());
    assert_eq!(WrapperKind::all().len(), 11);
    assert!(measure_wrapper_overhead(WrapperKind::CApi, 100) > 0);
}
