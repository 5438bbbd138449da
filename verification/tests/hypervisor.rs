//! What a machine says of running under a hypervisor, and what follows.
use nanochrono::arch::x86::{CpuidLeaf, CpuidTable, Registers};
use nanochrono::cpu::Vendor;
use nanochrono::hypervisor::{
    cached, counter_frequency_signature, cpuid_signatures, decode_signature, keep_reprobe,
    kernel_module_probe, kernel_module_reprobe, kernel_module_set_cooldown, latest, least_of,
    match_signature, measure_trap_cost, midr_signature, parse_kernel_report, read_kernel_module,
    read_midr_el1, read_registry_evidence, read_trimmed, reprobe, reprobe_cooldown_enabled,
    reprobe_wait_s, set_reprobe_cooldown_enabled, signature_bytes, ArmEvidence, ClockPairing,
    Confidence, DetailContext, DetectionSource, DmiHints, Evidence, ExitCost, HostSync,
    Hypervisor, HypervisorReport, KernelProbe, MacEvidence, PlatformFiles, ProcessorEvidence,
    RegistryEvidence, ReprobeError, TimingImpact,
};
use nanochrono::reprobe::{seconds_up, Gate};

fn files() -> PlatformFiles {
    PlatformFiles {
        hypervisor_type: None,
        device_tree: None,
        osrelease: None,
        clocksource: None,
        vmbus_devices: false,
        xen_directory: false,
        virtio_devices: false,
        cpuinfo: None,
    }
}

fn evidence(processor: ProcessorEvidence) -> Evidence {
    Evidence { processor, files: files(), registry: None, mac: None, module: None }
}

fn bare_metal() -> Evidence {
    evidence(ProcessorEvidence::X86(CpuidTable { leaves: Vec::new(), xcr0: 0 }))
}

fn leaf(leaf: u32, eax: u32, ebx: u32, ecx: u32, edx: u32) -> CpuidLeaf {
    CpuidLeaf { leaf, subleaf: 0, registers: Registers { eax, ebx, ecx, edx } }
}

fn word(bytes: &[u8; 4]) -> u32 {
    u32::from_le_bytes(*bytes)
}

/// A KVM guest that says so.
fn kvm_guest() -> CpuidTable {
    CpuidTable {
        leaves: vec![
            leaf(0, 7, word(b"Genu"), word(b"ntel"), word(b"ineI")),
            leaf(1, 0, 0, 1 << 31, 0),
            leaf(0x4000_0000, 0x4000_0010, word(b"KVMK"), word(b"VMKV"), word(b"M\0\0\0")),
            leaf(0x4000_0010, 2_995_200, 0, 0, 0),
        ],
        xcr0: 0,
    }
}

fn context() -> DetailContext {
    DetailContext {
        vendor: Some((Vendor::Intel, 0)),
        aarch64: false,
        exit_ratio: "12.5".to_string(),
        counter_mhz: "0.000".to_string(),
        sync: HostSync {
            paravirtual_clocksource: None,
            pairing: None,
            queries: 0,
            advice: "nothing to pair".to_string(),
        },
    }
}

#[test]
fn a_virtual_mac_is_identified_from_its_model_string() {
    let hints =
        DmiHints { sys_vendor: Some("VirtualMac2,1".to_string()), ..Default::default() };
    assert_eq!(hints.identify(), Some(Hypervisor::AppleVz));

    // A real Mac must not be mistaken for one.
    for real in ["Mac16,10", "MacBookPro18,3", "iMacPro1,1"] {
        let hints = DmiHints { sys_vendor: Some(real.to_string()), ..Default::default() };
        assert_eq!(hints.identify(), None, "{real} was called a VM");
    }
}

#[test]
fn native_platform_queries_confirm() {
    for source in [
        DetectionSource::MacSysctl,
        DetectionSource::WindowsRegistry,
        DetectionSource::CpuidVendorLeaf,
        DetectionSource::DeviceTree,
    ] {
        assert!(source.is_declared(), "{} must confirm", source.name());
        let mut report = HypervisorReport { sources: vec![source], ..Default::default() };
        report.conclude();
        assert_eq!(report.confidence, Confidence::Confirmed);
    }
}

#[test]
fn inferred_sources_never_confirm_on_their_own() {
    for source in [
        DetectionSource::ArmCounterFrequency,
        DetectionSource::ArmMidr,
        DetectionSource::ExitCostTiming,
    ] {
        assert!(!source.is_declared(), "{} must not confirm", source.name());
        let mut report = HypervisorReport { sources: vec![source], ..Default::default() };
        report.conclude();
        assert_eq!(
            report.confidence,
            Confidence::Suspected,
            "{} produced the wrong confidence",
            source.name()
        );
    }
}

#[test]
fn a_declaration_outranks_an_inference() {
    let mut report = HypervisorReport {
        sources: vec![DetectionSource::ArmCounterFrequency, DetectionSource::DeviceTree],
        ..Default::default()
    };
    report.conclude();
    assert_eq!(report.confidence, Confidence::Confirmed);
}

#[test]
fn counter_frequencies_separate_virtual_from_physical() {
    // QEMU's virt board cannot say which of TCG or KVM is underneath, so
    // it must not claim either.
    let qemu = counter_frequency_signature(62_500_000).expect("virt board recognised");
    assert!(!qemu.is_emulated(), "the virt board may well be KVM");

    // linux-user mode runs the counter off a nanosecond clock, which is
    // emulation and is reported as such.
    assert_eq!(counter_frequency_signature(1_000_000_000), Some(Hypervisor::QemuTcg));

    // The rates real parts actually run at must stay silent.
    for hz in [19_200_000, 24_000_000, 25_000_000, 26_000_000, 100_000_000] {
        assert_eq!(
            counter_frequency_signature(hz),
            None,
            "{hz} Hz is a physical oscillator and was flagged"
        );
    }
}

#[test]
fn vendor_uid_parses_only_when_complete() {
    let complete = parse_kernel_report(
        "version=1
hvc_ok=1
hvc_vendor_uid=b66fb428 e911c52e 564bcaa9 743a004d
",
    );
    assert_eq!(
        complete.hvc_vendor_uid,
        Some([0xb66f_b428, 0xe911_c52e, 0x564b_caa9, 0x743a_004d])
    );

    for malformed in [
        "hvc_vendor_uid=b66fb428 e911c52e",
        "hvc_vendor_uid=",
        "hvc_vendor_uid=b66fb428 e911c52e 564bcaa9 743a004d deadbeef",
        "hvc_vendor_uid=not hex at all here",
        "hvc_vendor_uid=b66fb428 e911c52e zz 564bcaa9 743a004d",
        "hvc_vendor_uid=b66fb428 e911c52e zz 743a004d",
    ] {
        assert_eq!(
            parse_kernel_report(malformed).hvc_vendor_uid,
            None,
            "{malformed:?} was accepted"
        );
    }
}

#[test]
fn a_malformed_uid_leaves_the_rest_of_the_report() {
    let text = "version=1\nhvc_ok=1\nhvc_vendor_uid=b66fb428 e911c52e zz 564bcaa9 743a004d\n";
    let probe = kernel_module_probe(&Some(text.to_string())).expect("a report of the module");
    assert_eq!(probe.version, 1);
    assert_eq!(probe.hvc_ok, Some(true));
    assert_eq!(probe.hvc_vendor_uid, None);
}

#[test]
fn detection_is_self_consistent() {
    for evidence in [bare_metal(), evidence(ProcessorEvidence::X86(kvm_guest()))] {
        let report = HypervisorReport::detect(DmiHints::default(), &evidence, None);

        // The verdict and the evidence must agree in both directions.
        assert_eq!(report.is_virtualized(), report.confidence != Confidence::Absent);
        if report.confidence == Confidence::Absent {
            assert!(report.sources.is_empty(), "{:?}", report.sources);
            assert_eq!(report.hypervisor, Hypervisor::Absent);
            assert_eq!(report.timing_impact, TimingImpact::Native);
        } else {
            assert!(!report.sources.is_empty());
        }
    }
}

#[test]
fn emulation_is_never_reported_as_native() {
    let mut report = HypervisorReport {
        hypervisor: Hypervisor::QemuTcg,
        sources: vec![DetectionSource::CpuidVendorLeaf],
        ..Default::default()
    };
    report.conclude();
    assert_eq!(report.timing_impact, TimingImpact::Emulated);
    assert_eq!(report.confidence, Confidence::Confirmed);
}

#[test]
fn timing_alone_only_suspects() {
    let mut report = HypervisorReport {
        sources: vec![DetectionSource::ExitCostTiming],
        ..Default::default()
    };
    report.conclude();
    assert_eq!(report.confidence, Confidence::Suspected);
    assert_eq!(report.hypervisor, Hypervisor::Absent);
    assert_eq!(report.timing_impact, TimingImpact::HardwareAssisted);
}

#[test]
fn a_hypercall_confirms_without_any_declaration() {
    let mut report = HypervisorReport {
        kernel: Some(KernelProbe { version: 1, vmcall_ok: Some(true), ..Default::default() }),
        ..Default::default()
    };
    report.conclude();
    assert_eq!(report.confidence, Confidence::Confirmed);
}

#[test]
fn every_signature_is_exactly_twelve_bytes() {
    for sig in cpuid_signatures() {
        assert_eq!(
            sig.len(),
            12,
            "{sig:?} signature is {} bytes; CPUID returns exactly 12",
            sig.len()
        );
    }
}

#[test]
fn known_signatures_resolve() {
    let kvm = signature_bytes(
        u32::from_le_bytes(*b"KVMK"),
        u32::from_le_bytes(*b"VMKV"),
        u32::from_le_bytes(*b"M\0\0\0"),
    );
    assert_eq!(match_signature(&kvm), Some(Hypervisor::Kvm));
    assert_eq!(decode_signature(&kvm).as_deref(), Some("KVMKVMKVM"));

    let tcg = signature_bytes(
        u32::from_le_bytes(*b"TCGT"),
        u32::from_le_bytes(*b"CGTC"),
        u32::from_le_bytes(*b"GTCG"),
    );
    assert_eq!(match_signature(&tcg), Some(Hypervisor::QemuTcg));
    assert!(Hypervisor::QemuTcg.is_emulated());
}

#[test]
fn empty_and_binary_signatures_are_rejected() {
    assert_eq!(decode_signature(&[0u8; 12]), None);
    assert_eq!(decode_signature(&[0xFFu8; 12]), None);
    let mut mixed = [0u8; 12];
    mixed[0] = 0x01;
    assert_eq!(decode_signature(&mixed), None);
}

#[test]
fn kernel_probe_parses_and_tolerates_junk() {
    let text = "version=1\nvmcall_ok=1\nvmmcall_ok=0\nhypercall_result=-1000\n\
                exit_cycles=1832\nunknown_key=whatever\nmalformed line\nvmx_available=1\n";
    let probe = read_kernel_module(text).expect("file exists");
    assert_eq!(probe.version, 1);
    assert_eq!(probe.vmcall_ok, Some(true));
    assert_eq!(probe.vmmcall_ok, Some(false));
    assert_eq!(probe.hvc_ok, None);
    assert_eq!(probe.hypercall_result, Some(-1000));
    assert_eq!(probe.exit_cycles, Some(1832));
    assert_eq!(probe.vmx_available, Some(true));
    assert!(probe.hypercall_accepted());
}

#[test]
fn a_missing_module_is_not_an_error() {
    assert!(kernel_module_probe(&None).is_none());
    let report = HypervisorReport::detect(DmiHints::default(), &bare_metal(), None);
    // Whether or not the module is loaded, detection produced a verdict.
    assert!(!report.detailed(&context()).is_empty());
}

#[test]
fn merged_module_report_is_a_hypervisor_probe() {
    let text = "version=4\narch=x86\nvmcall_ok=1\nexit_cycles=900\n\
                hypercall_probes=1\nhypercall_age_ms=2500\nhypercall_cooldown_s=10\n\
                hypercall_next_ms=7500\nperf_event=cycles\nperf_npmu=8\n";
    let probe = read_kernel_module(text).expect("merged report");
    assert_eq!(probe.vmcall_ok, Some(true));
    assert_eq!(probe.hypercall_probes, Some(1));
    assert_eq!(probe.hypercall_cooldown_s, Some(10));
    assert_eq!(probe.hypercall_next_ms, Some(7500));
}

#[test]
fn perf_module_report_is_not_a_hypervisor_probe() {
    let text = "source=perf\nevent=cycles\nenabled=1\nnpmu=8\nraw=1\n\
                enabled_ns=2\nrunning_ns=2\nscaled=1\n";
    assert!(read_kernel_module(text).is_none());
}

#[test]
fn dmi_matching_prefers_the_specific_product() {
    let hints = DmiHints {
        sys_vendor: Some("QEMU".into()),
        product_name: Some("VMware Virtual Platform".into()),
        bios_vendor: None,
    };
    assert_eq!(hints.identify(), Some(Hypervisor::VMware));

    let bare = DmiHints {
        sys_vendor: Some("LENOVO".into()),
        product_name: Some("83DF".into()),
        bios_vendor: Some("LENOVO".into()),
    };
    assert_eq!(bare.identify(), None);
}

#[test]
fn trap_probe_returns_a_usable_ratio_on_x86() {
    let Some(cost) = measure_trap_cost(&[40, 30, 35], &[160, 150, 900]) else {
        return; // nothing was measured
    };
    assert!(cost.trap_cycles > 0, "CPUID measured as free");
    assert!(cost.baseline_cycles > 0, "counter read measured as free");
    assert_eq!((cost.trap_cycles, cost.baseline_cycles), (150, 30));
    assert!(!cost.suggests_exit);
    assert!(ExitCost::of(30_000, 30).suggests_exit);
    // The ratio has to exceed the threshold.
    assert!(!ExitCost::of(600, 30).suggests_exit);
    assert!(ExitCost::of(601, 30).suggests_exit);
    assert!(!ExitCost::of(600, 0).suggests_exit);
    assert_eq!(least_of(&[5, 3, 9]), Some(3));
    assert_eq!(measure_trap_cost(&[], &[1]), None);
}

#[test]
fn every_impact_carries_advice() {
    for impact in
        [TimingImpact::Native, TimingImpact::HardwareAssisted, TimingImpact::Emulated]
    {
        assert!(!impact.advice().is_empty());
        assert!(!impact.name().is_empty());
    }
}

#[test]
fn a_zhaoxin_module_report_parses() {
    let probe = parse_kernel_report(
        "version=3\n\
         arch=x86\n\
         cpu_vendor=  Shanghai  \n\
         cpu_family=zhaoxin\n\
         centaur_max_leaf=0xc0000004\n\
         cpuid_hypervisor_bit=0\n\
         vmx_available=1\n\
         svm_available=0\n\
         vmcall_ok=0\n\
         vmmcall_ok=0\n",
    );
    assert_eq!(probe.cpu_family.as_deref(), Some("zhaoxin"));
    assert_eq!(probe.centaur_max_leaf, Some(0xC000_0004));
    assert_eq!(probe.vmx_available, Some(true));
    assert_eq!(probe.svm_available, Some(false));
}

#[test]
fn an_intel_report_has_no_centaur_range() {
    let probe = parse_kernel_report("version=3\narch=x86\ncpu_family=intel\nvmcall_ok=1\n");
    assert_eq!(probe.cpu_family.as_deref(), Some("intel"));
    assert_eq!(probe.centaur_max_leaf, None);
}

#[test]
fn a_malformed_centaur_leaf_is_not_taken_as_zero() {
    let probe = parse_kernel_report("centaur_max_leaf=not-a-number\n");
    assert_eq!(probe.centaur_max_leaf, None);
    let probe = parse_kernel_report("centaur_max_leaf=c0000004\n");
    assert_eq!(
        probe.centaur_max_leaf, None,
        "the module writes this with an 0x prefix; anything else is not its output"
    );
}

#[test]
fn a_guest_names_its_hypervisor_and_its_clock() {
    let report = HypervisorReport::detect(
        DmiHints::default(),
        &evidence(ProcessorEvidence::X86(kvm_guest())),
        None,
    );
    assert_eq!(report.hypervisor, Hypervisor::Kvm);
    assert_eq!(report.confidence, Confidence::Confirmed);
    assert_eq!(report.timing_impact, TimingImpact::HardwareAssisted);
    assert_eq!(report.signature.as_deref(), Some("KVMKVMKVM"));
    assert_eq!(report.max_hypervisor_leaf, Some(0x4000_0010));
    assert_eq!(report.declared_tsc_khz, Some(2_995_200));
    assert!(report.summary().contains("KVM"), "{}", report.summary());
    let detailed = report.detailed(&context());
    assert!(detailed.contains("KVMKVMKVM"), "{detailed}");
}

#[test]
fn a_paired_host_is_shown_in_detail() {
    let report = HypervisorReport::default();
    let mut c = context();
    c.sync = HostSync {
        paravirtual_clocksource: Some("kvm-clock".to_string()),
        pairing: Some(ClockPairing {
            host_offset_ns: -42,
            host_ns: 1_000,
            guest_realtime_ns: 1_042,
        }),
        queries: 3,
        advice: "paired".to_string(),
    };
    let detailed = report.detailed(&c);
    assert!(detailed.contains("kvm-clock") && detailed.contains("-42"), "{detailed}");
    assert_ne!(detailed, report.detailed(&context()));
}

#[test]
fn platform_files_name_what_runs_underneath() {
    let mut report = HypervisorReport::default();
    let mut f = files();
    f.hypervisor_type = Some("xen".to_string());
    report.detect_platform_files(&f);
    assert_eq!(report.hypervisor, Hypervisor::Xen);
    assert!(report.sources.contains(&DetectionSource::SysHypervisor));

    let mut report = HypervisorReport::default();
    let mut f = files();
    f.osrelease = Some("5.15.0-microsoft-standard-WSL2".to_string());
    report.detect_platform_files(&f);
    assert_eq!(report.hypervisor, Hypervisor::Wsl);

    let mut report = HypervisorReport::default();
    let mut f = files();
    f.clocksource = Some("kvm-clock".to_string());
    report.detect_platform_files(&f);
    assert!(report.sources.contains(&DetectionSource::Clocksource));
}

#[test]
fn arm_guests_are_only_suspected() {
    let mut report = HypervisorReport::default();
    report.detect_arm(&ArmEvidence {
        cntfrq: 62_500_000,
        ctr_el0: 0x8444_c004,
        midr_text: Some("0x00000000411fd070".to_string()),
    });
    report.conclude();
    assert_eq!(report.confidence, Confidence::Suspected);
    assert_eq!(report.arm_counter_hz, 62_500_000);
    assert_eq!(report.arm_midr_el1, 0x411f_d070);
    assert_eq!(read_midr_el1(&Some("0x10\n".to_string())), Some(0x10));
    assert_eq!(read_midr_el1(&None), None);
    assert_eq!(midr_signature(0x411f_d070), None);
}

#[test]
fn a_mac_says_so_and_names_it() {
    let mut report = HypervisorReport::default();
    report.detect_mac_sysctl(&MacEvidence {
        vmm_present: Some(1),
        hw_model: Some("VirtualMac2,1".to_string()),
    });
    assert_eq!(report.hypervisor, Hypervisor::AppleVz);
    let mut report = HypervisorReport::default();
    report.detect_mac_sysctl(&MacEvidence {
        vmm_present: Some(0),
        hw_model: Some("Mac16,10".to_string()),
    });
    assert!(report.sources.is_empty());
}

#[test]
fn the_registry_is_a_declaration() {
    let registry = RegistryEvidence {
        guest_parameters: true,
        system_manufacturer: Some("Microsoft Corporation".to_string()),
        system_product_name: Some("Virtual Machine".to_string()),
        bios_vendor: None,
    };
    let (hypervisor, _) = read_registry_evidence(&registry).expect("evidence");
    assert_eq!(hypervisor, Hypervisor::HyperV);
    let mut report = HypervisorReport::default();
    report.detect_windows_registry(&registry);
    assert!(report.sources.contains(&DetectionSource::WindowsRegistry));
    let silent = RegistryEvidence {
        guest_parameters: false,
        system_manufacturer: Some("LENOVO".to_string()),
        system_product_name: None,
        bios_vendor: None,
    };
    assert!(read_registry_evidence(&silent).is_none());
}

#[test]
fn a_source_is_noted_once() {
    let mut report = HypervisorReport::default();
    report.note(DetectionSource::Dmi);
    report.note(DetectionSource::Dmi);
    assert_eq!(report.sources, vec![DetectionSource::Dmi]);
    assert!(!report.has_kernel_module());
    report.merge_kernel_module(&Some("version=1\nvmcall_ok=1\n".to_string()));
    assert!(report.has_kernel_module());
}

#[test]
fn firmware_strings_come_from_the_smbios_table() {
    // Two structures, each with its strings behind it.
    let mut table = vec![0u8, 24, 0, 0, 1, 2];
    table.extend_from_slice(b"\0SeaBIOS\0\0");
    table.extend_from_slice(&[1, 27, 1, 0, 1, 2]);
    table.extend_from_slice(b"\0QEMU\0 Standard PC \0\0");
    let hints = DmiHints::from_smbios(&table);
    assert_eq!(hints.product_name.as_deref(), Some("SeaBIOS | QEMU | Standard PC"));
    assert_eq!(hints.identify(), Some(Hypervisor::Kvm));
    assert_eq!(DmiHints::from_smbios(&[]), DmiHints::default());
    // Too short to be a name, or not printable.
    assert_eq!(DmiHints::from_smbios(b"ab\0\x01xyz\0"), DmiHints::default());
}

#[test]
fn empty_files_say_nothing() {
    assert_eq!(read_trimmed(&Some("  QEMU \n".to_string())).as_deref(), Some("QEMU"));
    assert_eq!(read_trimmed(&Some(" \n".to_string())), None);
    assert_eq!(read_trimmed(&None), None);
    let hints = DmiHints::read(&Some("QEMU\n".to_string()), &None, &Some("\n".to_string()));
    assert_eq!(hints.sys_vendor.as_deref(), Some("QEMU"));
    assert_eq!(hints.bios_vendor, None);
    let declared = HypervisorReport::detect_declared_only(hints, &bare_metal());
    assert!(declared.is_virtualized());
}

#[test]
fn probing_again_waits_for_the_cooldown() {
    let mut d = cached(HypervisorReport::default(), 1_000);
    assert!(reprobe_cooldown_enabled(&d));
    assert_eq!(reprobe_wait_s(&d, 1_000), 10);
    assert_eq!(reprobe(&mut d, 2_000_001_000), Err(ReprobeError::CoolingDown { wait_s: 8 }));
    assert_eq!(reprobe(&mut d, 10_000_001_000), Ok(()));
    assert_eq!(reprobe_wait_s(&d, 10_000_001_000), 10);
    set_reprobe_cooldown_enabled(&mut d, false);
    assert_eq!(reprobe_wait_s(&d, 10_000_001_000), 0);
    assert_eq!(reprobe(&mut d, 10_000_001_001), Ok(()));
    keep_reprobe(
        &mut d,
        HypervisorReport { hypervisor: Hypervisor::Xen, ..Default::default() },
    );
    assert_eq!(latest(&d).hypervisor, Hypervisor::Xen);
    assert!(ReprobeError::CoolingDown { wait_s: 8 }.message().contains('8'));
    assert_eq!(seconds_up(1), 1);
    assert_eq!(seconds_up(2_000_000_000), 2);
}

#[test]
fn a_gate_opens_once_per_cooldown() {
    let mut gate = Gate::new();
    assert_eq!(gate.remaining_ns(5), 0);
    assert_eq!(gate.try_begin(5), Ok(()));
    assert_eq!(gate.try_begin(6), Err(9_999_999_999));
    assert_eq!(gate.remaining_ns(4_000_000_005), 6_000_000_000);
    assert_eq!(gate.try_begin(10_000_000_005), Ok(()));
}

#[test]
fn the_module_is_asked_in_its_own_words() {
    assert!(!kernel_module_reprobe().is_empty());
    assert!(kernel_module_set_cooldown(25).contains("25"));
    assert_eq!(Hypervisor::Other("Foo".to_string()).name(), "Foo");
    assert!(Hypervisor::Absent.is_none() && !Hypervisor::Kvm.is_none());
    assert_ne!(Confidence::Suspected.name(), Confidence::Confirmed.name());
}
