//! The benchmark modes, their rows, their profiles and their reports.
use nanochrono::arch::aarch64::CounterChoice;
use nanochrono::arch::x86::CpuidTable;
use nanochrono::arch::CounterHost;
use nanochrono::backend::Backend;
use nanochrono::bench::{
    find_timing, Algorithm, BenchHost, BenchKernel, BenchMode, CryptoWork, KernelAlgorithm,
};
use nanochrono::cpu::CpuFeatures;
use nanochrono::dispatch::{CryptoKernel, Dispatcher, KernelRun, Offer, Overrides};
use nanochrono::harness::{
    cpu_flags, nonce_for, payload, plan_run, ring0_cycles_per_op, ring0_pass,
    ring3_cycles_per_op, run_pass, total_cycles,
    write_completed, write_handshake, write_header, write_negotiated, write_overhead, write_pass,
    write_summary, write_warmup, BenchConfig, BenchProfile, BenchReport, Handshake, HeaderFacts,
    Iteration, Negotiated, NoWorkload, PassCounts, PassRates, Ring0Pass, RunPlan, SummaryRates, Workload,
    CRYPTO_PAYLOAD_BYTES,
};
use nanochrono::kcrypto::{Driver, Ring0};
use nanochrono::machine::{Machine, Target};
use nanochrono::simd::SimdCatalogue;

fn target(linux: bool) -> Target {
    Target {
        machine: Machine::X86Wide,
        little_endian: true,
        simd: true,
        v7: false,
        freestanding: false,
        linux,
    }
}

fn features() -> CpuFeatures {
    CpuFeatures { sse: true, sse2: true, avx: true, avx2: true, ..Default::default() }
}

fn algorithms() -> Vec<Algorithm> {
    vec![
        Algorithm { name: "SHA-256".to_string(), work: CryptoWork::Sha256 },
        Algorithm { name: "HMAC-SHA-256".to_string(), work: CryptoWork::HmacSha256 },
        Algorithm { name: "AES-256-GCM".to_string(), work: CryptoWork::Aead },
    ]
}

fn raw() -> Vec<CryptoKernel> {
    vec![
        CryptoKernel { name: "AESENC".to_string(), available: true, built: true },
        CryptoKernel { name: "SHA256RNDS2".to_string(), available: false, built: true },
    ]
}

fn driver(name: &str, driver: &str, priority: i32) -> Driver {
    Driver {
        name: name.to_string(),
        driver: driver.to_string(),
        kind: "shash".to_string(),
        priority,
        module: "kernel".to_string(),
        internal: false,
        selftest_passed: true,
    }
}

fn host(linux: bool) -> BenchHost {
    BenchHost {
        features: features(),
        target: target(linux),
        algorithms: algorithms(),
        raw: raw(),
        af_alg: true,
        drivers: vec![driver("sha256", "sha256-avx2", 170)],
        ring0: Some(Ring0 {
            timings: vec![("sha256".to_string(), 10431)],
            payload_bytes: 16384,
            rounds: 64,
        }),
    }
}

fn table() -> Dispatcher {
    Dispatcher::resolve(
        Offer {
            features: features(),
            counter: CounterHost {
                target: target(true),
                cpuid: CpuidTable { leaves: Vec::new(), xcr0: 0 },
                choice: CounterChoice::default(),
                timer: None,
            },
            perf: false,
            simd: SimdCatalogue { families: Vec::new(), widest: None },
            crypto: raw(),
        },
        &Overrides { backend: None, simd: None, route: None },
    )
}

/// The kernel modes need Linux and a loaded module; here both are there.
fn everywhere() -> [BenchHost; 2] {
    [host(true), host(false)]
}

#[test]
fn every_mode_offers_rows() {
    for host in everywhere() {
        for mode in BenchMode::all(&host.target) {
            assert!(!BenchKernel::rows_for(mode, &host).is_empty(), "{mode:?}");
        }
    }
}

#[test]
fn rows_report_the_mode_they_came_from() {
    for host in everywhere() {
        for mode in BenchMode::all(&host.target) {
            for kernel in BenchKernel::rows_for(mode, &host) {
                assert_eq!(kernel.mode(), mode);
            }
        }
    }
}

#[test]
fn every_available_isa_kernel_runs() {
    let host = host(true);
    let table = table();
    for backend in Backend::all() {
        let config = BenchConfig {
            mode: BenchMode::CpuIsa,
            kernel: BenchKernel::Isa(backend),
            ..Default::default()
        };
        match plan_run(&config, &host) {
            RunPlan::Passes { workload } => {
                assert!(backend.is_available(&host.features, &host.target));
                assert!(workload.execute(&table, 8).is_some(), "{} failed", backend.name());
            }
            RunPlan::Refused { report } => {
                assert!(!backend.is_available(&host.features, &host.target));
                assert!(report.error.is_some(), "{} ran but is unsupported", backend.name());
            }
            other => panic!("{} is not a ring-3 row: {other:?}", backend.name()),
        }
    }
}

#[test]
fn unavailable_kernels_report_rather_than_fault() {
    let host = host(true);
    let unavailable =
        Backend::all().into_iter().find(|b| !b.is_available(&host.features, &host.target));
    let Some(backend) = unavailable else {
        return; // every backend runs here; nothing to check
    };
    let config = BenchConfig { kernel: BenchKernel::Isa(backend), ..Default::default() };
    let RunPlan::Refused { report } = plan_run(&config, &host) else {
        panic!("{} was not refused", backend.name());
    };
    assert!(report.error.is_some());
    assert!(report.passes.is_empty());
}

#[test]
fn profiles_describe_their_unit() {
    for host in everywhere() {
        for mode in BenchMode::all(&host.target) {
            for kernel in BenchKernel::rows_for(mode, &host) {
                let p = BenchProfile::for_kernel(kernel, &host, CRYPTO_PAYLOAD_BYTES, "16.0 KiB");
                assert!(!p.unit.is_empty());
                assert!(!p.description.is_empty());
                assert!(p.loops.iter().all(|&l| l > 0));
            }
        }
    }
}

#[test]
fn only_modes_that_apply_to_this_platform_are_offered() {
    for linux in [true, false] {
        let target = target(linux);
        for mode in BenchMode::all(&target) {
            assert!(
                mode.applies_to_this_platform(&target),
                "{} is offered here and does not apply to this platform",
                mode.name()
            );
        }
        let offered = BenchMode::all(&target).len();
        let applicable = [
            BenchMode::CpuIsa,
            BenchMode::Crypto,
            BenchMode::TlsHandshake,
            BenchMode::KernelCrypto,
            BenchMode::KernelCryptoRing0,
            BenchMode::CryptoRaw,
        ]
        .iter()
        .filter(|mode| mode.applies_to_this_platform(&target))
        .count();
        assert_eq!(
            offered, applicable,
            "the offered list and the platform predicate disagree"
        );
    }
}

#[test]
fn mode_labels_are_numbered_by_position() {
    for linux in [true, false] {
        let target = target(linux);
        for (i, mode) in BenchMode::all(&target).iter().enumerate() {
            let prefix = format!("Mode {}:", i + 1);
            assert!(
                mode.label(&target).starts_with(&prefix),
                "{} is not {prefix}",
                mode.label(&target)
            );
        }
    }
}

#[test]
fn the_platform_offers_the_expected_number_of_modes() {
    for linux in [true, false] {
        let expected = if linux { 6 } else { 4 };
        let all = BenchMode::all(&target(linux));
        assert_eq!(
            all.len(),
            expected,
            "expected {expected} modes on this platform, got {:?}",
            all.iter().map(|m| m.name()).collect::<Vec<_>>()
        );
    }
}

#[test]
fn every_row_belongs_to_the_mode_that_lists_it() {
    for host in everywhere() {
        for mode in BenchMode::all(&host.target) {
            for kernel in BenchKernel::rows_for(mode, &host) {
                assert_eq!(
                    kernel.mode(),
                    mode,
                    "{} is listed under {} but belongs to {}",
                    kernel.name(&host),
                    mode.name(),
                    kernel.mode().name()
                );
            }
        }
    }
}

#[test]
fn every_ring0_row_has_a_ring3_counterpart() {
    let host = host(true);
    for kernel in BenchKernel::rows_for(BenchMode::KernelCryptoRing0, &host) {
        let BenchKernel::Ring0(algorithm) = kernel else {
            panic!("{} is not a ring-0 row", kernel.name(&host));
        };
        assert!(
            algorithm.is_hash(),
            "{} is not a hash; ring 0 measures shash only",
            algorithm.name()
        );
        assert!(
            BenchKernel::rows_for(BenchMode::KernelCrypto, &host)
                .contains(&BenchKernel::Kernel(algorithm)),
            "{} has no ring-3 counterpart to compare against",
            algorithm.name()
        );
    }
}

#[test]
fn kernel_algorithms_name_what_the_kernel_calls_them() {
    assert_eq!(KernelAlgorithm::Sha3_256.algorithm(), "sha3-256");
    assert_eq!(KernelAlgorithm::AesCbc.algorithm(), "cbc(aes)");
    assert_eq!(KernelAlgorithm::Sha512.digest_len(), 64);
    assert_eq!(KernelAlgorithm::Crc32c.digest_len(), 4);
    assert!(KernelAlgorithm::hashes().iter().all(|a| a.is_hash()));
    assert_eq!(KernelAlgorithm::all().len(), 7);
    let drivers = vec![
        driver("sha256", "sha256-generic", 100),
        driver("sha256", "sha256-avx2", 170),
    ];
    assert_eq!(
        KernelAlgorithm::Sha256.driver(&drivers).map(|d| d.driver.as_str()),
        Some("sha256-avx2")
    );
    assert!(KernelAlgorithm::Sha1.driver(&drivers).is_none());
}

#[test]
fn a_mode_is_available_only_where_something_in_it_runs() {
    let mut host = host(true);
    assert!(BenchMode::CryptoRaw.is_available(&host));
    assert!(BenchMode::KernelCryptoRing0.is_available(&host));
    host.raw[0].available = false;
    assert!(!BenchMode::CryptoRaw.is_available(&host));
    host.ring0 = None;
    assert!(!BenchMode::KernelCryptoRing0.is_available(&host));
    host.af_alg = false;
    assert!(!BenchMode::KernelCrypto.is_available(&host));
    assert!(BenchMode::CpuIsa.is_available(&host));
}

#[test]
fn timings_are_found_by_name() {
    let report = host(true).ring0.expect("a report");
    assert_eq!(find_timing(&report, "sha256"), Some(10431));
    assert_eq!(find_timing(&report, "sha512"), None);
}

#[test]
fn the_payload_steps_by_a_prime() {
    let bytes = payload();
    assert_eq!(bytes.len(), CRYPTO_PAYLOAD_BYTES);
    assert_eq!(&bytes[..3], &[0, 31, 62]);
    assert_eq!(bytes[9], 23);
    assert_eq!(bytes[256], 0);
}

#[test]
fn nonces_carry_the_counter_little_end_first() {
    assert_eq!(nonce_for(0x0102, 12), vec![2, 1, 0, 0, 0, 0, 0, 0, 0, 0, 0, 0]);
    assert_ne!(nonce_for(7, 12), nonce_for(8, 12));
}

#[test]
fn workloads_exist_for_everything_measured_here() {
    let host = host(true);
    assert_eq!(Workload::new(BenchKernel::Tls, &host), Err(NoWorkload::MeasuredByTls));
    assert_eq!(
        Workload::new(BenchKernel::Ring0(KernelAlgorithm::Sha1), &host),
        Err(NoWorkload::MeasuredByRing0)
    );
    assert_eq!(Workload::new(BenchKernel::Crypto(1), &host), Ok(Workload::Hash { hmac: true }));
    assert_eq!(Workload::new(BenchKernel::Crypto(2), &host), Ok(Workload::Aead));
    assert!(!NoWorkload::MeasuredByTls.message().is_empty());
}

#[test]
fn a_hash_is_kept_in_the_sink() {
    let hash = Workload::Hash { hmac: false };
    let digest = vec![1u8, 0, 0, 0, 0, 0, 0, 0, 9, 9];
    assert_eq!(hash.keep(0, 0, Some(&digest)), Iteration::Next { sink: 1 });
    assert_eq!(hash.keep(1, 2, Some(&digest)), Iteration::Next { sink: 2 });
    // A sealed buffer is kept by its last word.
    assert_eq!(
        Workload::Aead.keep(0, 5, Some(&digest)),
        Iteration::Next { sink: 0x0909_0000_0000_0000 }
    );
    // An output shorter than a word leaves the sink alone.
    let kernel = Workload::Kernel { algorithm: KernelAlgorithm::Crc32c, room: 4 };
    assert_eq!(kernel.keep(7, 1, Some(&vec![1, 2, 3, 4])), Iteration::Next { sink: 7 });
    let eight = vec![2u8, 0, 0, 0, 0, 0, 0, 0];
    assert_eq!(kernel.keep(7, 1, Some(&eight)), Iteration::Next { sink: 7 + (2 ^ 1) });
}

#[test]
fn a_failed_sealing_leaves_the_pass_and_a_failed_kernel_call_does_not() {
    let Iteration::Stop { outcome } = Workload::Aead.keep(0x55, 5, None) else {
        panic!("a failure goes on");
    };
    assert_eq!(outcome, Some(0x55));
    let pass = run_pass(1, 2, 100, 10, 60, &[Some(3), outcome]);
    assert_eq!(
        pass,
        Some(PassCounts { pass: 1, repeats: 2, loops: 100, cycles: 50, sink: 3 ^ 0x55 })
    );
    let kernel = Workload::Kernel { algorithm: KernelAlgorithm::Sha1, room: 20 };
    let Iteration::Stop { outcome } = kernel.keep(0x55, 5, None) else {
        panic!("a failure goes on");
    };
    assert_eq!(outcome, None);
    assert_eq!(run_pass(1, 2, 100, 10, 60, &[Some(3), outcome]), None);
}

#[test]
fn the_scalar_row_runs_the_scalar_kernel() {
    let host = host(true);
    let workload = Workload::new(BenchKernel::Scalar, &host).expect("a workload");
    assert!(matches!(workload.execute(&table(), 16), Some(KernelRun::Scalar { .. })));
}

#[test]
fn a_raw_row_runs_its_crypto_loop() {
    let (host, table) = (host(true), table());
    for (kernel, loop_of) in raw().iter().enumerate() {
        let workload = Workload::new(BenchKernel::CryptoRaw(kernel), &host).expect("a workload");
        let run = workload.execute(&table, 300_000);
        assert_eq!(run, table.run_crypto_kernel(kernel, 300_000));
        let runs = loop_of.available && loop_of.built;
        assert_eq!(
            run,
            if runs { Some(KernelRun::Crypto { kernel, loops: 300_000 }) } else { None }
        );
    }
}

#[test]
fn a_refused_run_says_why() {
    let host = host(true);
    let report =
        BenchReport::failed(BenchKernel::Scalar, BenchMode::CpuIsa, &host, "no such kernel");
    assert_eq!(report.error.as_deref(), Some("no such kernel"));
    assert_eq!(report.mode, BenchMode::CpuIsa.name());
    assert!(report.log.contains("no such kernel"));
}

#[test]
fn totals_saturate() {
    assert_eq!(total_cycles(&[1, 2, 3]), 6);
    assert_eq!(total_cycles(&[u64::MAX, 1]), u64::MAX);
    assert_eq!(total_cycles(&[]), 0);
}

#[test]
fn a_ring0_pass_comes_from_the_module() {
    let host = host(true);
    assert_eq!(
        ring0_pass(&host.ring0, KernelAlgorithm::Sha256),
        Ok(Ring0Pass { loops: 64, cycles: 10431, bytes: 16384 })
    );
    assert!(ring0_pass(&host.ring0, KernelAlgorithm::Sha512).is_err());
    assert!(ring0_pass(&None, KernelAlgorithm::Sha256).is_err());
}

#[test]
fn the_best_ring3_round_is_the_one_compared() {
    assert_eq!(ring3_cycles_per_op(&[(10, 110), (200, 260), (300, 900)]), Some(60));
    assert_eq!(ring3_cycles_per_op(&[]), None);
}

#[test]
fn the_overhead_is_what_ring3_costs_more() {
    let mut log = String::new();
    write_overhead(&mut log, 150, 100, "1.50");
    assert!(log.contains("150") && log.contains("100") && log.contains("1.50"), "{log}");
}

#[test]
fn flags_are_listed_for_the_family() {
    let mut out = String::new();
    cpu_flags(&mut out, &features(), Machine::X86Wide);
    assert!(out.to_lowercase().contains("avx2"), "{out}");
}

#[test]
fn the_log_of_a_run_is_written_in_order() {
    let host = host(true);
    let config = BenchConfig::default();
    let facts = HeaderFacts {
        backend: "AVX2".to_string(),
        simd: "avx2".to_string(),
        counter_mhz: "2995.200".to_string(),
        ring0_size: "16.0 KiB".to_string(),
        provider: "rustls/ring".to_string(),
    };
    let mut log = String::new();
    write_header(&mut log, &config, &host, &facts);
    let header = log.len();
    assert!(header > 0);
    let profile = BenchProfile::for_kernel(config.kernel, &host, CRYPTO_PAYLOAD_BYTES, "16.0 KiB");
    write_warmup(&mut log, &profile, &config);
    assert!(log.len() > header);
    write_pass(
        &mut log,
        0,
        &PassCounts { pass: 1, repeats: 2, loops: 3, cycles: 400, sink: 0xAB },
        &PassRates {
            seconds: "0.100000".to_string(),
            mops: "12.345".to_string(),
            cycles_per_op: "3.210".to_string(),
            ns_per_op: "1.070".to_string(),
            mib_per_second: "9.870".to_string(),
        },
    );
    assert!(log.contains("12.345"));
    write_summary(
        &mut log,
        &profile.unit,
        1200,
        &SummaryRates {
            mean_mops: "12.000".to_string(),
            best_mops: "13.000".to_string(),
            worst_mops: "10.000".to_string(),
            best_ns_per_op: "1.000".to_string(),
            worst_ns_per_op: "2.000".to_string(),
            total_seconds: "0.300000".to_string(),
            spread: Some("23.1".to_string()),
        },
    );
    assert!(log.contains("23.1% spread between passes"));
    write_completed(&mut log);
    assert!(log.contains("status: completed successfully"));
}

#[test]
fn a_failed_first_handshake_ends_the_run() {
    let mut log = String::new();
    let failed = Handshake::Failed { error: "connection refused".to_string() };
    let done = Handshake::Done { summary: "12.3 ms".to_string() };
    assert!(!write_handshake(&mut log, 1, &failed, 0));
    assert!(write_handshake(&mut log, 1, &done, 0));
    assert!(log.contains("connection refused") && log.contains("12.3 ms"));
    write_negotiated(
        &mut log,
        &Negotiated {
            protocol: "TLSv1_3".to_string(),
            cipher_suite: "TLS13_AES_256_GCM_SHA384".to_string(),
            peer_certificates: 3,
            share: "41.0".to_string(),
        },
    );
    assert!(log.contains("TLS13_AES_256_GCM_SHA384"));
}

#[test]
fn a_pass_that_ended_early_is_not_counted() {
    let whole = run_pass(2, 3, 100, u64::MAX, 49, &[Some(1), Some(6), Some(2)]);
    assert_eq!(
        whole,
        Some(PassCounts { pass: 2, repeats: 3, loops: 100, cycles: 50, sink: 1 ^ 6 ^ 2 })
    );
    assert_eq!(run_pass(2, 3, 100, 0, 50, &[Some(1), None, Some(2)]), None);
    assert_eq!(run_pass(1, 0, 100, 5, 5, &[]).map(|p| p.sink), Some(0));
}

#[test]
fn the_fastest_ring0_pass_counts() {
    let pass = |cycles| PassCounts { pass: 1, repeats: 1, loops: 1, cycles, sink: 0 };
    assert_eq!(ring0_cycles_per_op(&[]), None);
    assert_eq!(ring0_cycles_per_op(&[pass(30), pass(10), pass(20)]), Some(10));
}

#[test]
fn a_refused_run_has_no_cycles() {
    let host = host(true);
    let config = BenchConfig {
        mode: BenchMode::CpuIsa,
        kernel: BenchKernel::Isa(Backend::Neon),
        ..Default::default()
    };
    match plan_run(&config, &host) {
        RunPlan::Refused { report } => {
            assert_eq!(report.total_cycles, 0);
            assert!(report.passes.is_empty());
        }
        other => panic!("{other:?}"),
    }
}
