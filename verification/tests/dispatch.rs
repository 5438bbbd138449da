//! What runs on this machine, and what an override may change of it.
use nanochrono::arch::aarch64::CounterChoice;
use nanochrono::arch::insn::Insn;
use nanochrono::arch::x86::{CpuidLeaf, CpuidTable, Registers};
use nanochrono::arch::CounterHost;
use nanochrono::backend::Backend;
use nanochrono::clock::ClockRoute;
use nanochrono::cpu::CpuFeatures;
use nanochrono::dispatch::{
    resolve_kernel, scalar_kernel, select_backend, select_route, select_simd, CryptoKernel,
    Dispatcher, KernelRun, Offer, Overrides, SelectionReason,
};
use nanochrono::hypervisor::HypervisorReport;
use nanochrono::machine::{Machine, Target};
use nanochrono::simd::{same_ignoring_case, SimdCatalogue, SimdFamily};
use std::time::Instant;

fn target() -> Target {
    Target {
        machine: Machine::X86Wide,
        little_endian: true,
        simd: true,
        v7: false,
        freestanding: false,
        linux: true,
    }
}

fn features() -> CpuFeatures {
    CpuFeatures { mmx: true, sse: true, sse2: true, avx: true, avx2: true, ..Default::default() }
}

fn counter() -> CounterHost {
    CounterHost {
        target: target(),
        cpuid: CpuidTable {
            leaves: vec![
                CpuidLeaf {
                    leaf: 0x8000_0000,
                    subleaf: 0,
                    registers: Registers { eax: 0x8000_0008, ebx: 0, ecx: 0, edx: 0 },
                },
                CpuidLeaf {
                    leaf: 0x8000_0001,
                    subleaf: 0,
                    registers: Registers { eax: 0, ebx: 0, ecx: 0, edx: 1 << 27 },
                },
            ],
            xcr0: 0,
        },
        choice: CounterChoice::default(),
        timer: None,
    }
}

fn families() -> SimdCatalogue {
    SimdCatalogue {
        families: vec![
            SimdFamily { name: "SSE2".to_string(), available: true },
            SimdFamily { name: "AVX2".to_string(), available: true },
            SimdFamily { name: "AVX-512".to_string(), available: false },
        ],
        widest: Some(1),
    }
}

fn offer() -> Offer {
    Offer {
        features: features(),
        counter: counter(),
        perf: false,
        simd: families(),
        crypto: vec![
            CryptoKernel { name: "AESENC".to_string(), available: true, built: true },
            CryptoKernel { name: "SHA256RNDS2".to_string(), available: true, built: false },
            CryptoKernel { name: "VPCLMUL".to_string(), available: false, built: true },
        ],
    }
}

fn nothing() -> Overrides {
    Overrides { backend: None, simd: None, route: None }
}

fn dispatcher() -> Dispatcher {
    Dispatcher::resolve(offer(), &nothing())
}

#[test]
fn global_is_stable_across_calls() {
    let a = Dispatcher::global(None, offer(), &nothing());
    let (backend, route) = (a.backend(), a.clock_route());
    let other = Offer { features: CpuFeatures::default(), ..offer() };
    let b = Dispatcher::global(Some(a), other, &nothing());
    assert_eq!(
        (backend, route),
        (b.backend(), b.clock_route()),
        "dispatcher must resolve exactly once"
    );
    assert_eq!(*b.features(), features());
}

#[test]
fn selected_backend_is_runnable() {
    let d = dispatcher();
    assert!(d.backend().is_available(&features(), &target()));
    assert!(d.simd_family().is_none_or(|f| d.catalogue.is_available(f)));
    assert!(d.clock_route().is_available(&d.host));
}

#[test]
fn every_advertised_kernel_executes() {
    let d = dispatcher();
    for (backend, available, _) in d.backend_matrix() {
        let result = d.run_kernel_for(backend, 32);
        assert_eq!(
            result.is_some(),
            available,
            "{} availability disagrees with dispatch",
            backend.name()
        );
    }
}

#[test]
fn every_advertised_crypto_kernel_executes() {
    let d = dispatcher();
    for (kernel, available) in d.crypto_matrix() {
        let result = d.run_crypto_kernel(kernel, 32);
        let dispatchable = available && d.crypto[kernel].built;
        assert_eq!(
            result.is_some(),
            dispatchable,
            "{} availability disagrees with dispatch",
            d.crypto[kernel].name
        );
    }
}

#[test]
fn crypto_loops_are_handed_their_count() {
    let d = dispatcher();
    let mut ran = 0;
    for (kernel, available) in d.crypto_matrix() {
        for loops in [0, 4096, 4097] {
            let run = d.run_crypto_kernel(kernel, loops);
            if available && d.crypto[kernel].built {
                assert_eq!(run, Some(KernelRun::Crypto { kernel, loops }));
                ran += 1;
            } else {
                assert_eq!(run, None);
            }
        }
    }
    assert!(ran > 0);
    assert_eq!(d.run_crypto_kernel(d.crypto.len(), 1), None);
}

#[test]
fn selected_kernel_does_work() {
    let d = dispatcher();
    assert_ne!(d.run_kernel(64), d.run_kernel(0));
    let bare = Dispatcher::resolve(
        Offer { features: CpuFeatures::default(), ..offer() },
        &nothing(),
    );
    assert_ne!(bare.run_kernel(64), bare.run_kernel(0));
}

fn execute(plan: &[Insn], since: &Instant) -> u64 {
    let mut reading = 0;
    for insn in plan {
        if matches!(insn, Insn::Rdtsc | Insn::Rdtscp) {
            reading = since.elapsed().as_nanos() as u64;
        }
    }
    reading
}

#[test]
fn counters_advance_through_the_table() {
    let d = dispatcher();
    let since = Instant::now();
    let a = execute(&d.counter_start(), &since);
    while since.elapsed().as_millis() < 2 {}
    let b = execute(&d.counter_end(), &since);
    assert!(b > a);
}

#[test]
fn report_names_the_selection() {
    let report = dispatcher().report(&HypervisorReport::default());
    assert!(report.contains("backend="));
    assert!(report.contains("route="));
}

#[test]
fn nonsense_override_is_rejected() {
    assert_eq!(Backend::parse("definitely-not-an-isa"), None);
    let (backend, reason) =
        select_backend(&features(), &target(), &Some("definitely-not-an-isa".to_string()));
    assert!(backend.is_available(&features(), &target()));
    assert_ne!(reason, SelectionReason::Overridden);
    assert_eq!(reason, SelectionReason::OverrideRejected);
    assert_eq!(backend, Backend::best(&features(), &target()));
}

#[test]
fn all_parsed_backends_resolve_to_a_kernel() {
    for backend in Backend::all() {
        let run = resolve_kernel(Machine::X86Wide, backend, 8);
        if backend.is_available(&features(), &target()) {
            match run {
                KernelRun::Scalar { word } => {
                    assert_eq!(word, scalar_kernel(Machine::X86Wide, 8))
                }
                KernelRun::Vector { backend: chosen, loops } => {
                    assert_eq!((chosen, loops), (backend, 8))
                }
                KernelRun::Crypto { .. } => panic!("a backend is no crypto loop"),
            }
        }
    }
}

#[test]
fn an_override_that_can_run_is_taken() {
    let f = features();
    assert_eq!(
        select_backend(&f, &target(), &Some("sse2".to_string())),
        (Backend::Sse2, SelectionReason::Overridden)
    );
    let (backend, reason) = select_backend(&f, &target(), &Some("neon".to_string()));
    assert!(backend.is_available(&f, &target()));
    assert_eq!(reason, SelectionReason::OverrideRejected);
    assert_eq!(
        select_backend(&CpuFeatures::default(), &target(), &None),
        (Backend::Legacy, SelectionReason::Fallback)
    );
    assert_eq!(select_backend(&f, &target(), &None).1, SelectionReason::Detected);
}

#[test]
fn simd_overrides_ignore_case() {
    assert!(same_ignoring_case("AVX-512", "avx-512") && !same_ignoring_case("avx", "avx2"));
    let simd = families();
    assert_eq!(
        select_simd(&simd, &Some("sse2".to_string())),
        (Some(0), SelectionReason::Overridden)
    );
    assert_eq!(
        select_simd(&simd, &Some("avx-512".to_string())),
        (Some(1), SelectionReason::OverrideRejected)
    );
    assert_eq!(select_simd(&simd, &None), (Some(1), SelectionReason::Detected));
    assert_eq!(simd.label(Some(1)), "AVX2");
    assert_eq!(simd.find("Sse2"), Some(0));
    assert_eq!(simd.best(), Some(1));
}

#[test]
fn route_overrides_are_held_to_the_machine() {
    let d = dispatcher();
    let (route, reason) = select_route(&d.host, &Some(ClockRoute::MonotonicNs.name().to_string()));
    assert_eq!((route, reason), (ClockRoute::MonotonicNs, SelectionReason::Overridden));
    let (route, reason) = select_route(&d.host, &Some(ClockRoute::Arm64Cntvct.name().to_string()));
    assert!(route.is_available(&d.host));
    assert_eq!(reason, SelectionReason::OverrideRejected);
}

#[test]
fn backends_settle_on_what_runs() {
    let (f, t) = (features(), target());
    assert_eq!(Backend::best(&f, &t), Backend::Avx2);
    assert_eq!(Backend::Neon.resolve(&f, &t), Backend::Avx2);
    assert_eq!(Backend::Sse.resolve(&f, &t), Backend::Sse);
    assert_eq!(Backend::default(), Backend::Legacy);
    assert!(Backend::Avx2.is_native(Machine::X86Wide));
    assert!(!Backend::Neon.is_native(Machine::X86Wide));
    assert!(Backend::Avx2.has_kernel(&t));
    for b in Backend::all() {
        assert_eq!(Backend::parse(b.name()), Some(b));
    }
    assert_eq!(Backend::all().len(), 22);
}
