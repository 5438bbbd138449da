//! What the commands say and do next, from one answer to the next.
use nanochrono::backend::Backend;
use nanochrono::bench::KernelAlgorithm;
use nanochrono::cli::{pin_warning, unsupported_backend, DetailMode};
use nanochrono::cli_report::live_cases;
use nanochrono::cli_session::{
    after_clock_sample, after_cooldown, after_counting_change, after_ns_clock_sample,
    after_reprobe, after_sample, after_scrub, audit_candidate, check_event, cooldown_warns, counting_changes,
    write_audit, write_cache_separation, write_ntp, write_ntp_line, write_once, write_probe_head,
    write_provider, write_simd_head, write_simd_units, write_stopwatch_head, write_tls,
    CacheSeparation, ClassTimings, CountingChange, ModuleReply, NtpReply, NtpSample, OnceFacts,
    Scrub, ScrubAnswer, TlsSample, ViewStep,
};
use nanochrono::clock::ClockRoute;
use nanochrono::harness::{bench_key, key_failed, session_failed};
use nanochrono::hypervisor::{Confidence, Hypervisor, HypervisorReport, TimingImpact};
use nanochrono::machine::Machine;
use nanochrono::ring0_perf::read_counts;

fn virtualized() -> HypervisorReport {
    HypervisorReport {
        hypervisor: Hypervisor::Kvm,
        confidence: Confidence::Confirmed,
        timing_impact: TimingImpact::HardwareAssisted,
        ..Default::default()
    }
}

#[test]
fn a_repair_is_noted_and_a_loss_stops() {
    assert_eq!(after_scrub(Scrub { repaired: true, usable: true }), ScrubAnswer::Note);
    assert_eq!(after_scrub(Scrub { repaired: false, usable: true }), ScrubAnswer::GoOn);
    assert_eq!(after_scrub(Scrub { repaired: false, usable: false }), ScrubAnswer::Stop);
}

#[test]
fn the_stopwatch_names_a_platform_that_is_virtual() {
    let mut out = String::new();
    write_stopwatch_head(
        &mut out,
        Backend::Sse2,
        "3000.000",
        ClockRoute::MonotonicNs,
        &HypervisorReport::default(),
    );
    assert_eq!(
        out,
        format!(
            "NanoChronometer stopwatch\nbackend={}  counter=3000.000 MHz  route={}\n\
             Press Ctrl+C to stop.\n\n",
            Backend::Sse2.name(),
            ClockRoute::MonotonicNs.name()
        )
    );

    let mut out = String::new();
    write_stopwatch_head(
        &mut out,
        Backend::Sse2,
        "3000.000",
        ClockRoute::MonotonicNs,
        &virtualized(),
    );
    let line = format!(
        "platform={}  {}\n",
        virtualized().summary(),
        TimingImpact::HardwareAssisted.advice()
    );
    assert!(out.contains(&line));
}

#[test]
fn one_sample_is_a_list_of_fields() {
    let facts = OnceFacts {
        backend: Backend::Sse2,
        counter_hz: 3_000_000_000,
        elapsed: "00:00:00:001:000:250".to_string(),
        read_overhead_units: 24,
        ffi_overhead_units: 30,
        drift_ppm: "+1.250".to_string(),
        integrity: "clean".to_string(),
    };
    let mut out = String::new();
    write_once(&mut out, &facts, &HypervisorReport::default());
    assert_eq!(
        out,
        format!(
            "backend={}\nplatform={}\ncounter_hz=3000000000\nelapsed=00:00:00:001:000:250\n\
             counter_read_overhead=24 units\nffi_overhead=30 units\ndrift=+1.250 ppm\n\
             calibration_integrity=clean\n",
            Backend::Sse2.name(),
            HypervisorReport::default().summary()
        )
    );
    let mut out = String::new();
    write_once(&mut out, &facts, &virtualized());
    assert!(out.ends_with(&format!("\nnote: {}\n", TimingImpact::HardwareAssisted.advice())));
}

#[test]
fn views_go_on_until_stopped() {
    assert_eq!(after_sample(true, false, 7), ViewStep::Again { wait_ms: 7 });
    assert_eq!(after_sample(false, false, 7), ViewStep::End);
    assert_eq!(after_sample(true, true, 7), ViewStep::End);
    assert_eq!(
        after_clock_sample(true, false, DetailMode::Nano),
        ViewStep::Again { wait_ms: 100 }
    );
    assert_eq!(
        after_clock_sample(true, false, DetailMode::Simple),
        ViewStep::Again { wait_ms: 250 }
    );
    assert_eq!(after_ns_clock_sample(true, false), ViewStep::Again { wait_ms: 250 });
    assert_eq!(after_ns_clock_sample(true, true), ViewStep::End);
}

fn ntp() -> NtpSample {
    NtpSample {
        server: "time.example".to_string(),
        stratum: 2,
        version: 4,
        leap_indicator: 0,
        precision_exp: -23,
        server_time: "2024-01-01 00:00:00.000000000".to_string(),
        offset_ms: "+0.125".to_string(),
        uncertainty_ms: "4.000".to_string(),
        delay_ms: "8.000".to_string(),
        socket_setup_units: 100,
        send_recv_units: 2000,
        kernel_timecall_overhead_units: 60,
        api_call_overhead_units: 40,
        migrated: false,
    }
}

#[test]
fn a_silent_time_server_is_a_status() {
    let mut out = String::new();
    write_ntp_line(&mut out, "time.example", &NtpReply::Sample(ntp()));
    assert_eq!(
        out,
        "ntp_server=time.example stratum=2 offset=+0.125 ms (+/- 4.000 ms) delay=8.000 ms \
         setup=100 units send_recv=2000 units migrated=no\n"
    );
    let mut out = String::new();
    write_ntp_line(
        &mut out,
        "time.example",
        &NtpReply::Failed { error: "timed out".to_string() },
    );
    assert_eq!(out, "ntp_server=time.example status=timed out\n");
}

#[test]
fn a_time_servers_answer_is_shown_whole() {
    let mut out = String::new();
    write_ntp(&mut out, &ntp());
    assert_eq!(
        out,
        "server=time.example\nstratum=2 version=4 leap=0 precision_exp=-23\n\
         server_time=2024-01-01 00:00:00.000000000\n\
         offset=+0.125 ms (+/- 4.000 ms)  delay=8.000 ms\n\
         socket_setup=100 units  send_recv=2000 units  kernel_timecall=60 units  \
         api_call=40 units\nmigrated=no\n"
    );
}

#[test]
fn a_provider_lists_what_it_offers_where_asked() {
    let mut out = String::new();
    write_provider(&mut out, "ring", &None);
    assert_eq!(out, "provider: ring\n");
    let mut out = String::new();
    let suites = vec!["AES_128_GCM".to_string(), "CHACHA20".to_string()];
    write_provider(&mut out, "ring", &Some((suites, vec!["X25519".to_string()])));
    assert_eq!(
        out,
        "provider: ring\ncipher suites:\n  AES_128_GCM\n  CHACHA20\n\
         key exchange groups:\n  X25519\n\n"
    );
}

#[test]
fn a_handshake_is_shown_phase_by_phase() {
    let mut out = String::new();
    write_tls(
        &mut out,
        &TlsSample {
            host: "example.org".to_string(),
            port: 443,
            protocol: "TLSv1_3".to_string(),
            cipher_suite: "AES_128_GCM".to_string(),
            peer_certificates: 3,
            resumed: true,
            resolve_ms: "1.000".to_string(),
            tcp_connect_ms: "2.000".to_string(),
            handshake_ms: "5.000".to_string(),
            total_ms: "8.000".to_string(),
            tls_percent: "62.5".to_string(),
        },
    );
    assert_eq!(
        out,
        "host=example.org:443\nprotocol=TLSv1_3 cipher_suite=AES_128_GCM\n\
         peer_certificates=3 resumed=yes\nresolve=1.000 ms\ntcp_connect=2.000 ms\n\
         tls_handshake=5.000 ms\ntotal=8.000 ms (TLS is 62.5% of it)\n"
    );
}

#[test]
fn probe_tables_have_their_heads() {
    let mut out = String::new();
    write_probe_head(&mut out);
    assert_eq!(out, format!("{:<18} {:>12}\n", "PROBE", "UNITS"));

    let mut out = String::new();
    write_cache_separation(
        &mut out,
        &CacheSeparation {
            cached_units: 40,
            flushed_units: 300,
            prefetched_units: 60,
            threshold_units: 170,
            separation: "7.50x".to_string(),
        },
    );
    assert_eq!(
        out,
        "\ncache separation: cached=40 flushed=300 prefetched=60 threshold=170 delta=7.50x\n"
    );

    let mut out = String::new();
    write_simd_head(&mut out);
    assert_eq!(
        out,
        format!(
            "SIMD probes (available families only, CPUID-gated):\n\n{:<16} {:>6} {:>14} {:>14} {:>12}\n",
            "FAMILY", "WIDTH", "VECTOR_LOAD", "VECTOR_XOR", "BARRIER"
        )
    );

    let mut out = String::new();
    write_simd_units(&mut out, Machine::X86Wide, "3000.0");
    assert_eq!(out, "\nunits are TSC cycles (3000.0 MHz calibrated)\n");
    let mut out = String::new();
    write_simd_units(&mut out, Machine::Aarch64, "24.0");
    assert_eq!(out, "\nunits are counter ticks (24.0 MHz calibrated)\n");
}

#[test]
fn the_audited_candidate_reads_every_byte() {
    let mut out = vec![0u8; 3];
    audit_candidate(&[0xA5, 0xA5], &mut out);
    assert_eq!(out, vec![0, 0, 0]);
    audit_candidate(&[0xA4, 0xA5, 0x25], &mut out);
    assert_eq!(out, vec![0x81, 0x81, 0x81]);
    audit_candidate(&[], &mut out);
    assert_eq!(out, vec![0, 0, 0]);
}

#[test]
fn an_audit_shows_both_classes() {
    let fixed =
        ClassTimings { count: 1000, min: 90, median: 100, mean: "101.5".to_string(), p99: 140 };
    let random =
        ClassTimings { count: 1000, min: 91, median: 100, mean: "101.7".to_string(), p99: 141 };
    let mut out = String::new();
    write_audit(&mut out, &fixed, &random, "0.412", false);
    assert!(out.starts_with(
        "samples=1000 per class\nfixed:  min=90 median=100 mean=101.5 p99=140\n\
         random: min=91 median=100 mean=101.7 p99=141\nwelch_t=0.412\n"
    ));
    assert!(out.ends_with(": no timing difference indicated\n"));
    let mut out = String::new();
    write_audit(&mut out, &fixed, &random, "9.100", true);
    assert!(out.ends_with(
        ": timing difference detected — investigate, or re-run pinned to a quiet core\n"
    ));
}

#[test]
fn a_refused_probe_is_an_error() {
    let path = "/proc/nanochrono";
    assert_eq!(
        after_reprobe(&ModuleReply::Done, path, "Wait."),
        Ok("module re-probed the hypervisor\n".to_string())
    );
    assert_eq!(
        after_reprobe(&ModuleReply::WouldBlock { next_ms: Some(4_001) }, path, "Wait."),
        Err("the module refused: still cooling down — 5 s left. Wait.".to_string())
    );
    assert_eq!(
        after_reprobe(&ModuleReply::WouldBlock { next_ms: None }, path, "Wait."),
        Err("the module refused: still cooling down. Wait.".to_string())
    );
    assert_eq!(
        after_reprobe(&ModuleReply::Failed { error: "denied".to_string() }, path, "Wait."),
        Err("cannot ask the module to re-probe (/proc/nanochrono): denied".to_string())
    );
}

#[test]
fn switching_the_cooldown_off_is_warned_of() {
    assert!(cooldown_warns(0));
    assert!(!cooldown_warns(1));
    assert_eq!(
        after_cooldown(30, &None, "/proc/nanochrono"),
        Ok("module re-probe cooldown = 30 s\n".to_string())
    );
    assert_eq!(
        after_cooldown(30, &Some("denied".to_string()), "/proc/nanochrono"),
        Err("cannot set the module's cooldown (/proc/nanochrono): denied".to_string())
    );
}

#[test]
fn counting_is_changed_in_order() {
    assert_eq!(
        counting_changes(true, true, false),
        vec![CountingChange::Select, CountingChange::Enable]
    );
    assert_eq!(counting_changes(false, false, true), vec![CountingChange::Disable]);
    assert!(counting_changes(false, false, false).is_empty());
    let denied = Some("denied".to_string());
    assert_eq!(
        after_counting_change(CountingChange::Select, "instr", &None),
        Ok("ring0 event selected: instr\n".to_string())
    );
    assert_eq!(
        after_counting_change(CountingChange::Select, "instr", &denied),
        Err("could not select instr in /proc/nanochrono: denied (module loaded? writable? try sudo)"
            .to_string())
    );
    assert_eq!(
        after_counting_change(CountingChange::Enable, "", &None),
        Ok("ring0 enabled\n".to_string())
    );
    assert_eq!(
        after_counting_change(CountingChange::Enable, "", &denied),
        Err("could not enable /proc/nanochrono: denied (try sudo)".to_string())
    );
    assert_eq!(
        after_counting_change(CountingChange::Disable, "", &None),
        Ok("ring0 disabled\n".to_string())
    );
    assert_eq!(
        after_counting_change(CountingChange::Disable, "", &denied),
        Err("could not disable /proc/nanochrono: denied (try sudo)".to_string())
    );
}

#[test]
fn only_two_events_can_be_counted() {
    assert_eq!(check_event("cycles"), Ok("cycles"));
    assert_eq!(check_event("instr"), Ok("instr"));
    assert!(check_event("branches").is_err());
    assert!(check_event("Cycles").is_err());
    assert!(check_event("").is_err());
}

#[test]
fn the_modules_counts_are_read_by_key() {
    let report = "version=2\nperf_event=cycles\nperf_enabled=1\nperf_npmu=3\nperf_raw=1000\n\
                  perf_enabled_ns=500\nperf_running_ns=250\nperf_scaled=2000\n";
    let counts = read_counts(&Some(report.to_string())).expect("an event is named");
    assert_eq!(counts.event, "cycles");
    assert!(counts.enabled);
    assert_eq!(counts.npmu, 3);
    assert_eq!(counts.raw, 1000);
    assert_eq!(counts.enabled_ns, 500);
    assert_eq!(counts.running_ns, 250);
    assert_eq!(counts.scaled, 2000);

    let bare = read_counts(&Some("perf_event=instr\nperf_raw=many\n".to_string()))
        .expect("an event is named");
    assert!(!bare.enabled);
    assert_eq!(bare.raw, 0);
    assert_eq!(bare.scaled, 0);

    assert!(read_counts(&None).is_none());
    assert!(read_counts(&Some("version=2\n".to_string())).is_none());
}

#[test]
fn live_drills_flip_state_in_use() {
    let cases = live_cases();
    assert_eq!(cases.len(), 3);
    assert_eq!(cases[0].bits, vec![40]);
    assert_eq!(cases[1].bits, vec![11, 46]);
    assert_eq!(cases[2].label, "clock factor, one exponent bit");
    assert_eq!(cases[2].bits, vec![52]);
}

#[test]
fn preparing_work_can_fail() {
    assert_eq!(bench_key(), vec![0x42u8; 32]);
    assert_eq!(key_failed("AES-256-GCM", "bad length"), "could not build AES-256-GCM key: bad length");
    assert_eq!(
        session_failed(KernelAlgorithm::Sha256, "no such file"),
        "could not open sha256 through AF_ALG: no such file"
    );
}

#[test]
fn warnings_name_what_was_asked_for() {
    assert_eq!(
        unsupported_backend(Backend::Avx2),
        format!(
            "warning: backend '{}' is not supported on this CPU; using the detected best\n",
            Backend::Avx2.name()
        )
    );
    assert_eq!(pin_warning(7), "warning: could not pin to CPU 7; results will be noisier\n");
}
