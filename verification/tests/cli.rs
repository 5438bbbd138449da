//! The command line: its arguments, what they select, and what is printed.
use nanochrono::arch::aarch64::CounterChoice;
use nanochrono::arch::x86::CpuidTable;
use nanochrono::arch::{CounterHost, CounterSourceError, PhysicalCounterCheck};
use nanochrono::backend::Backend;
use nanochrono::bench::{Algorithm, BenchHost, BenchKernel, BenchMode, CryptoWork};
use nanochrono::cli::{
    refresh_ms, request_backend, select_kernels, selection_error, unknown_backend,
    BackendRequest, ClockArgs, DetailMode, SelectionError, TimeZoneMode,
};
use nanochrono::cli_report::{
    audit_verdict, drill_cases, physical_counter_error, still_cooling, unit_name, write_catalog,
    write_clock, write_dispatch, write_host_sync, write_integrity, write_ns_clock, write_perf,
    write_physical_counter, write_probe, write_route_calibration, write_simd_row,
    write_stable_calibration, write_wrapper, write_wrapper_head, ClockFaces, DrillRow,
    IntegrityStats, Ring0Counts, TimebaseReading,
};
use nanochrono::clock::{
    ClockRoute, NanoclockSnapshot, RouteCalibration, RouteHost, SnapshotReadings,
    StableClockState, WrapperKind, STABILITY_ADVICE,
};
use nanochrono::cpu::CpuFeatures;
use nanochrono::dispatch::{Dispatcher, Offer, Overrides};
use nanochrono::hypervisor::{
    ClockPairing, Confidence, HostSync, Hypervisor, HypervisorReport, TimingImpact,
};
use nanochrono::machine::{Machine, Target};
use nanochrono::simd::{SimdCatalogue, SimdFamily};

fn target() -> Target {
    Target {
        machine: Machine::X86Wide,
        little_endian: true,
        simd: true,
        v7: false,
        freestanding: false,
        linux: true,
    }
}

fn counter() -> CounterHost {
    CounterHost {
        target: target(),
        cpuid: CpuidTable { leaves: Vec::new(), xcr0: 0 },
        choice: CounterChoice::default(),
        timer: None,
    }
}

fn features() -> CpuFeatures {
    CpuFeatures { sse2: true, avx2: true, invariant_counter: true, ..Default::default() }
}

fn host() -> BenchHost {
    BenchHost {
        features: features(),
        target: target(),
        algorithms: vec![Algorithm { name: "SHA-256".to_string(), work: CryptoWork::Sha256 }],
        raw: Vec::new(),
        af_alg: false,
        drivers: Vec::new(),
        ring0: None,
    }
}

fn clock_args() -> ClockArgs {
    ClockArgs { simple: false, nano: false, utc: false, utc_offset: None, ntp: None }
}

#[test]
fn clock_flags_choose_the_face() {
    assert_eq!(clock_args().detail(), DetailMode::Nano);
    assert_eq!(ClockArgs { simple: true, ..clock_args() }.detail(), DetailMode::Simple);
    assert_eq!(clock_args().zone(), TimeZoneMode::Local);
    assert_eq!(ClockArgs { utc: true, ..clock_args() }.zone(), TimeZoneMode::Utc);
    assert!(matches!(
        ClockArgs { utc_offset: Some(-3), ..clock_args() }.zone(),
        TimeZoneMode::CustomOffset(_)
    ));
    assert!(refresh_ms(DetailMode::Simple) > refresh_ms(DetailMode::Nano));
}

#[test]
fn backends_are_asked_for_by_name() {
    let (f, t) = (features(), target());
    assert_eq!(request_backend(&None, &f, &t), BackendRequest::Detected);
    assert_eq!(
        request_backend(&Some("avx2".to_string()), &f, &t),
        BackendRequest::Use(Backend::Avx2)
    );
    assert_eq!(
        request_backend(&Some("neon".to_string()), &f, &t),
        BackendRequest::Unsupported(Backend::Neon)
    );
    assert_eq!(request_backend(&Some("abacus".to_string()), &f, &t), BackendRequest::Unknown);
    assert!(unknown_backend("abacus").contains("abacus"));
}

#[test]
fn kernels_are_selected_by_name_or_all_at_once() {
    let host = host();
    let all = select_kernels(BenchMode::CpuIsa, &host, "all").expect("rows");
    assert!(all.contains(&BenchKernel::Scalar));
    assert!(all.iter().all(|k| k.mode() == BenchMode::CpuIsa && k.is_available(&host)));
    let one = select_kernels(BenchMode::Crypto, &host, "SHA-256").expect("a row");
    assert_eq!(one, vec![BenchKernel::Crypto(0)]);
    assert_eq!(
        select_kernels(BenchMode::Crypto, &host, "rot13"),
        Err(SelectionError::UnknownKernel)
    );
    assert_eq!(
        select_kernels(BenchMode::CryptoRaw, &host, "all"),
        Err(SelectionError::NothingToRun)
    );
    assert!(selection_error(SelectionError::UnknownKernel, BenchMode::Crypto, "rot13")
        .contains("rot13"));
}

#[test]
fn the_dispatch_table_names_every_backend() {
    let d = Dispatcher::resolve(
        Offer {
            features: features(),
            counter: counter(),
            perf: false,
            simd: SimdCatalogue { families: Vec::new(), widest: None },
            crypto: Vec::new(),
        },
        &Overrides { backend: None, simd: None, route: None },
    );
    let mut out = String::new();
    write_dispatch(&mut out, &d, &HypervisorReport::default());
    assert!(out.contains("\n\nBACKEND           AVAILABLE   SELECTED\n"));
    let row = format!("{:<16} {:>10} {:>10}\n", Backend::Avx2.name(), "yes", "yes");
    assert!(out.contains(&row), "{out}");
    assert_eq!(out.lines().count(), d.report(&HypervisorReport::default()).lines().count() + 24);
}

#[test]
fn the_catalogue_lists_what_there_is() {
    let mut out = String::new();
    write_catalog(
        &mut out,
        &Some("Fast Chip".to_string()),
        &features(),
        &HypervisorReport::default(),
        &SimdCatalogue {
            families: vec![SimdFamily { name: "AVX2".to_string(), available: true }],
            widest: Some(0),
        },
        &vec![32],
        &RouteHost { counter: counter(), perf: false, simd: true },
        &host(),
    );
    assert!(out.starts_with("cpu: Fast Chip\ninvariant counter: yes\nplatform: "), "{out}");
    assert!(out.contains("\nSIMD FAMILIES\n  AVX2               32 B  yes\n"), "{out}");
    assert!(out.contains("\nCLOCK ROUTES\n") && out.contains("\nBENCHMARK MODES\n"));
}

#[test]
fn host_clocks_are_shown_with_what_is_missing() {
    let mut sync = HostSync {
        paravirtual_clocksource: Some("kvm-clock".to_string()),
        pairing: Some(ClockPairing { host_offset_ns: -7, host_ns: 100, guest_realtime_ns: 107 }),
        queries: 1,
        advice: "fine".to_string(),
    };
    let mut out = String::new();
    write_host_sync(&mut out, &sync, true, 55);
    assert_eq!(
        out,
        "paravirtual clocksource : kvm-clock\n\
         monotonic follows host  : yes\n\
         host clock pairing      : available (ptp_kvm)\n  \
         host clock            : 100 ns\n  \
         guest realtime        : 107 ns\n  \
         guest monotonic raw   : 55 ns\n  \
         host is ahead by      : -7 ns\n\nfine\n"
    );
    sync.pairing = None;
    sync.paravirtual_clocksource = None;
    let mut out = String::new();
    write_host_sync(&mut out, &sync, false, 0);
    assert!(out.starts_with("paravirtual clocksource : none\nmonotonic follows host  : no\n"));
    assert!(out.contains("/dev/ptpN"));
}

#[test]
fn a_cooling_module_says_how_long() {
    assert_eq!(
        still_cooling(Some(2_001), "try later"),
        "the module refused: still cooling down — 3 s left. try later"
    );
    assert_eq!(still_cooling(None, "x"), "the module refused: still cooling down. x");
    assert_eq!(still_cooling(Some(u64::MAX), ""),
        format!("the module refused: still cooling down — {} s left. ", u64::MAX.div_ceil(1000)));
}

#[test]
fn the_physical_counter_comes_with_its_warnings() {
    let mut out = String::new();
    let report = HypervisorReport {
        hypervisor: Hypervisor::Kvm,
        confidence: Confidence::Confirmed,
        ..Default::default()
    };
    write_physical_counter(
        &mut out,
        Machine::Aarch64,
        &report,
        Some(PhysicalCounterCheck {
            virtual_read_ns: 20,
            physical_read_ns: 2_000,
            trapped: true,
        }),
    );
    assert!(out.starts_with("counter: cntpct_el0 (physical)\nwarning: "), "{out}");
    assert!(out.contains("this system is virtualized (KVM)"), "{out}");
    assert!(out.ends_with("2000 ns physical vs 20 ns virtual — the physical read is being trapped\n"));
    assert_eq!(
        physical_counter_error(CounterSourceError::NotPermitted),
        format!("error: --physical-counter: {}\n", CounterSourceError::NotPermitted.message())
    );
}

#[test]
fn the_drill_climbs_from_nothing_to_hopeless() {
    let cases = drill_cases();
    assert_eq!(cases[0].bits, Vec::<u32>::new());
    assert_eq!(cases[5].bits, vec![1, 2, 75, 107, 140, 172]);
    let rows = vec![DrillRow {
        label: "nothing".to_string(),
        tier: "clean".to_string(),
        held: true,
    }];
    let stats =
        IntegrityStats { checks: 9, ecc_corrections: 0, tmr_corrections: 0, unrecoverable: 0 };
    let mut out = String::new();
    write_integrity(&mut out, &Some((rows, Vec::new())), &stats);
    assert!(out.contains(&format!("{:<34} {:<22} {}\n", "nothing", "clean", "yes")), "{out}");
    assert!(out.ends_with("\n\nNo stored-state corruption observed.\n"));
    let damaged = IntegrityStats { tmr_corrections: 1, ..stats };
    assert!(stats.is_clean() && !damaged.is_clean());
    let mut out = String::new();
    write_integrity(&mut out, &None, &damaged);
    assert!(out.starts_with(
        "checks          : 9\necc corrections : 0\ntmr corrections : 1\nunrecoverable   : 0\n\n"
    ));
    assert!(out.contains("State was repaired"));
}

fn snapshot() -> NanoclockSnapshot {
    NanoclockSnapshot::capture(
        &RouteHost { counter: counter(), perf: false, simd: false },
        Backend::Avx2,
        None,
        Hypervisor::Absent,
        TimingImpact::Native,
        &SnapshotReadings {
            unix_time_ns: 1,
            monotonic_ns: 2,
            process_time_ns: 3,
            thread_time_ns: 4,
            selected_raw: 5,
            selected_converted: 6,
            barrier_units: 7,
            rdtsc_raw: 8,
            rdtsc_lfence: 9,
            rdtsc_mfence: 10,
            rdtscp_lfence: 11,
            rdtscp_aux: 12,
            cntfrq_el0: 13,
            cntvct_el0: 14,
            cntvct_isb: 15,
            cntvct_ns: 16,
            perf_cycles: Some(17),
            perf_pmu_count: 1,
            simd_counter: 18,
            simd_counter_ns: 19,
            native_overhead_units: 20,
            ffi_overhead_units: 21,
            cpu_index: 22,
        },
    )
}

fn counts() -> Ring0Counts {
    Ring0Counts {
        event: "cycles".to_string(),
        enabled: false,
        npmu: 8,
        raw: 100,
        enabled_ns: 10,
        running_ns: 5,
        scaled: 200,
    }
}

#[test]
fn clock_samples_show_their_faces() {
    let faces = ClockFaces {
        display: "12:00:00".to_string(),
        local: "11:59:59".to_string(),
        face: "12:00".to_string(),
    };
    let mut out = String::new();
    write_clock(&mut out, &snapshot(), &faces, false, 30, 31);
    assert_eq!(out, "display_time=12:00:00\nraw_local_no_ntp=11:59:59\nclock_face=12:00\n");
    let mut out = String::new();
    write_clock(&mut out, &snapshot(), &faces, true, 30, 31);
    assert!(out.ends_with("read_overhead=20 kernel_timecall=30 api_call=31\n"), "{out}");
}

#[test]
fn every_raw_counter_is_shown() {
    let mut out = String::new();
    write_ns_clock(
        &mut out,
        &snapshot(),
        "2026-01-01",
        &target(),
        &TimebaseReading { raw: 0, hz: None },
        &Some(counts()),
    );
    assert!(out.contains(
        "x64 rdtsc=8 lfence_rdtsc=9 mfence_lfence_rdtsc=10 rdtscp_lfence=0 aux=0\n\
         perf_cycles=17 (1 PMU event(s), via perf_event_open)\n\
         ring0_cycles=200 (raw=100 npmu=8 enabled_ns=10 running_ns=5, via /proc/nanochrono)\n"
    ), "{out}");
    assert!(out.ends_with("overhead native=20 units  ffi=21 units\n"));
    let mut out = String::new();
    write_ns_clock(
        &mut out,
        &snapshot(),
        "2026-01-01",
        &Target { machine: Machine::RiscVWide, linux: false, ..target() },
        &TimebaseReading { raw: 77, hz: Some(10_000_000) },
        &None,
    );
    assert!(out.contains("riscv64 timebase=77 timebase_hz=10000000\n"), "{out}");
}

#[test]
fn both_rings_are_counted() {
    let mut out = String::new();
    write_perf(&mut out, None, 0, &Some(counts()));
    assert!(out.starts_with("ring3_cycles=unavailable (0 PMU event(s)"), "{out}");
    assert!(out.contains("ring0_scaled=200 (multiplexing-corrected; the number to use)\n"));
    assert!(out.contains("counting is disabled"));
    let mut out = String::new();
    write_perf(&mut out, Some(5), 2, &None);
    assert!(out.starts_with("ring3_cycles=5 (2 PMU event(s)"), "{out}");
    assert!(out.contains("ring0=unavailable\n"));
}

#[test]
fn calibrations_are_shown_with_where_they_ran() {
    let route = RouteCalibration {
        route: ClockRoute::X86RdtscLfence,
        samples: 100,
        pinned: false,
        cpu_before: Some(1),
        cpu_after: None,
        migrated: true,
        elapsed_raw_units: 3_000,
        elapsed_ns: 1_000,
        read_overhead_units: 20,
        kernel_timecall_overhead_units: 40,
        api_call_overhead_units: 60,
    };
    let mut out = String::new();
    write_route_calibration(&mut out, &route, "3000000000.000", "0.333333", u32::MAX);
    assert!(out.contains(" samples=100 pinned=no cpu_before=1 cpu_after=4294967295 migrated=yes\n"));
    assert!(out.contains("re-run with --pin-cpu N"), "{out}");
    let state = StableClockState {
        route: ClockRoute::X86RdtscLfence,
        pinned: true,
        cpu_before: Some(1),
        cpu_after: Some(1),
        migrated: false,
        is_invariant: true,
        raw_start: 10,
        raw_end: 3_010,
        elapsed_units: 3_000,
        elapsed_ns: 1_000,
        read_overhead_units: 20,
        kernel_timecall_overhead_units: 40,
        api_call_overhead_units: 60,
    };
    let mut out = String::new();
    write_stable_calibration(&mut out, &state, "3.000000", "0.333333", u32::MAX);
    assert!(out.contains("usable: yes\nadvice: "), "{out}");
    assert!(out.ends_with(&format!("{STABILITY_ADVICE}\n")));
}

#[test]
fn tables_keep_their_columns() {
    let mut out = String::new();
    write_wrapper_head(&mut out);
    write_wrapper(&mut out, WrapperKind::RustFfi, 30, 10);
    write_wrapper(&mut out, WrapperKind::PythonCtypes, 30, 10);
    assert!(out.contains(&format!(
        "{:<18} {:>10} {:>10}  measured\n",
        WrapperKind::RustFfi.name(),
        30,
        10
    )));
    assert!(out.ends_with("  baseline\n"));
    let mut out = String::new();
    write_probe(&mut out, "clflush", None);
    write_probe(&mut out, "prefetch", Some(12));
    assert_eq!(
        out,
        format!("{:<18} {:>12}\n{:<18} {:>12}\n", "clflush", "unsupported", "prefetch", 12)
    );
    let mut out = String::new();
    write_simd_row(&mut out, "AVX2", 32, Some(1), None, Some(3));
    assert_eq!(out, format!("{:<16} {:>4} B {:>14} {:>14} {:>12}\n", "AVX2", 32, 1, 0, 3));
    assert_eq!(unit_name(Machine::X86Wide), "TSC cycles");
    assert_eq!(unit_name(Machine::Arm), "counter ticks");
    assert_ne!(audit_verdict(true), audit_verdict(false));
}
