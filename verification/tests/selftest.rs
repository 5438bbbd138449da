//! The texts of the boot self-test.
use nanochrono::acpi_report::{
    report_acpi_namespace, report_controller, report_gpio, AcpiFacts, BusController, DeviceIds,
    Dsdt, GpioPin, GpioWindows, I2cHid, I2cResources, NamespaceFacts, Readiness, Ssdt,
};
use nanochrono::arch::x86::{CpuidLeaf, CpuidTable, Registers};
use nanochrono::cpu::{CpuFeatures, Vendor};
use nanochrono::hypercall_hal::HypercallInsn;
use nanochrono::machine::{Machine, Target};
use nanochrono::selftest::{
    dependent_chain, find_iommu, report_counter, report_cpu, report_dma, report_hypervisor,
    report_integrity, report_pmu, report_simd, report_usb, run, write_banner, yes_no,
    BootHypervisor, BusFacts, CounterRoute, CpuFacts, FamilyFacts, IntegrityFacts, PmuFacts,
    RateFacts, SelfTest, SimdProbe, UsbHost,
};

fn target(machine: Machine) -> Target {
    Target {
        machine,
        little_endian: true,
        simd: true,
        v7: true,
        freestanding: true,
        linux: false,
    }
}

#[test]
fn answers_are_words() {
    assert_eq!((yes_no(true), yes_no(false)), ("yes", "no"));
    let mut out = String::new();
    write_banner(&mut out, "4.0.0", &target(Machine::X86Wide));
    assert!(out.contains("4.0.0"), "{out}");
}

#[test]
fn usb_hosts_are_listed_with_what_they_need() {
    let mut out = String::new();
    report_usb(&mut out, &Vec::new());
    assert_eq!(
        out,
        "== USB host controllers ==\n  \
         none; input is whatever firmware translated to the 8042\n\n"
    );
    let mut out = String::new();
    report_usb(
        &mut out,
        &vec![UsbHost {
            vendor: 0x8086,
            device: 0xA0ED,
            kind: "xHCI".to_string(),
            bus: 0,
            slot: 0x14,
            function: 0,
            bar0: 0x6000_0000,
            xhci: Some((2, true)),
        }],
    );
    assert_eq!(
        out,
        "== USB host controllers ==\n  8086:a0ed  xHCI\n    00:14.0  bar0=0x60000000\n    \
         scratchpad pages : 2\n    owned by firmware: yes\n  \
         brought up by the input layer, once, when PS/2 finds nothing\n\n"
    );
}

#[test]
fn the_first_iommu_table_is_named() {
    assert_eq!(find_iommu(&vec![*b"FACP", *b"DMAR", *b"IVRS"]), "Intel VT-d (DMAR)");
    assert_eq!(find_iommu(&vec![*b"IVRS"]), "AMD-Vi (IVRS)");
    let mut out = String::new();
    report_dma(&mut out, &vec![*b"FACP"], 3, 4);
    assert_eq!(
        out,
        "== DMA protection ==\n  \
         iommu          : none described (not programmed by this kernel)\n  \
         bus mastering  : revoked on 3, kept on 4\n  \
         kept devices (bridges, display, USB hosts) can still reach all of memory\n\n"
    );
}

fn pmu() -> PmuFacts {
    PmuFacts {
        core_type: "performance".to_string(),
        interface: "intel architectural".to_string(),
        version: 5,
        general_counters: 8,
        general_width: 48,
        fixed_counters: 4,
        fixed_width: 48,
        available: true,
        route: CounterRoute::Fixed,
        route_name: "fixed".to_string(),
        cycles: Some(312_345),
        instructions: Some(400_000),
    }
}

#[test]
fn cycles_are_divided_without_a_float() {
    let mut out = String::new();
    report_pmu(&mut out, &pmu());
    assert_eq!(
        out,
        "== PMU (direct, no kernel) ==\n  core type      : performance\n  \
         interface      : intel architectural\n  version        : 5\n  \
         general        : 8 counters, 48 bits\n  fixed          : 4 counters, 48 bits\n  \
         counter route  : fixed\n  100000 dependent ops\n    cycles       : 312345\n    \
         cycles/op    : 3.12\n    instructions : 400000\n    ipc          : 1.28\n\n"
    );
    let mut out = String::new();
    report_pmu(&mut out, &PmuFacts { cycles: None, instructions: None, ..pmu() });
    assert!(out.contains("measurement discarded: the core type changed mid-run"), "{out}");
    let mut out = String::new();
    let unmoved =
        PmuFacts { route: CounterRoute::Nothing, route_name: "none".to_string(), ..pmu() };
    report_pmu(&mut out, &unmoved);
    assert!(out.ends_with(
        "  counter route  : none\n  no counter advanced; the measurement would be zeros\n\n"
    ));
    let mut out = String::new();
    report_pmu(&mut out, &PmuFacts { available: false, ..pmu() });
    assert!(out.ends_with("  no PMU on this core; skipping the measurement\n\n"));
}

#[test]
fn a_general_route_has_the_general_width() {
    assert_eq!(CounterRoute::General(3).counter_width(48, 40), 48);
    assert_eq!(CounterRoute::Fixed.counter_width(48, 40), 40);
    assert_eq!(CounterRoute::Nothing.counter_width(48, 40), 40);
    let narrow = PmuFacts { general_width: 40, ..pmu() };
    assert_eq!(narrow.instruction_width(), 48);
    let general = PmuFacts { general_width: 40, route: CounterRoute::General(0), ..pmu() };
    assert_eq!(general.instruction_width(), 40);
}

#[test]
fn the_chain_depends_on_every_step() {
    assert_eq!(dependent_chain(0), 0);
    assert_eq!(dependent_chain(2), 8);
    assert_eq!(dependent_chain(3), (8u64 + 2).rotate_left(3));
}

#[test]
fn jitter_is_the_spread_of_the_reads() {
    let mut out = String::new();
    report_counter(&mut out, &[(10, 30), (40, 75), (80, 98)], &RateFacts::Unstated);
    assert!(out.starts_with("== Counter ==\n  read overhead  : 18 units (min of "), "{out}");
    assert!(out.contains("  worst read     : 35 units\n  jitter         : 17 units\n"), "{out}");
    let mut out = String::new();
    let tree = RateFacts::DeviceTree { counter: "rdtime".to_string(), hz: Some(10_000_000) };
    report_counter(&mut out, &[(0, 1)], &tree);
    assert!(out.ends_with(
        "  counter        : rdtime (10000000 Hz, from the device tree)\n\n"
    ));
    let mut out = String::new();
    let timer =
        RateFacts::Timer { source: "cntpct_el0".to_string(), hz: 24_000_000, physical: true };
    report_counter(&mut out, &[(0, 1)], &timer);
    assert!(out.contains("physical counter — not recommended inside a VM"), "{out}");
}

fn integrity() -> IntegrityFacts {
    IntegrityFacts {
        clean: "clean".to_string(),
        one_bit: "ecc".to_string(),
        one_bit_recovered: true,
        two_bits: "tmr".to_string(),
        two_bits_recovered: false,
        checks: 3,
        ecc_corrections: 1,
        tmr_corrections: 1,
        unrecoverable: 0,
    }
}

#[test]
fn integrity_is_reported_to_the_last_line() {
    let mut out = String::new();
    report_integrity(&mut out, &integrity());
    assert_eq!(
        out,
        "== Stored-state integrity ==\n  clean          : clean\n  \
         one bit        : ecc (recovered: true)\n  \
         two bits       : tmr (recovered: false)\n  \
         checks=3 ecc=1 tmr=1 lost=0\n\nselftest complete; halting\n"
    );
}

fn guest() -> BootHypervisor {
    BootHypervisor {
        cpuid_bit: true,
        signature: "KVMKVMKVM".to_string(),
        max_leaf: 0x4000_0001,
        hypercall_ok: true,
        x86: Some((Some(HypercallInsn::Vmcall), Vendor::Intel)),
        hypercalls: 2,
        probes: 1,
        cooldown_s: 10,
        pairing: Some((1_000, 2_000)),
        virtualized: true,
    }
}

#[test]
fn the_boot_hypervisor_is_described() {
    let guest = guest();
    let mut out = String::new();
    report_hypervisor(&mut out, &guest);
    assert!(out.contains("  signature      : KVMKVMKVM\n  max hv leaf    : 0x40000001\n"), "{out}");
    assert!(out.contains("  host clock     : 1000 ns\n  paired counter : 2000\n"), "{out}");
    let mut out = String::new();
    report_hypervisor(
        &mut out,
        &BootHypervisor {
            cpuid_bit: false,
            signature: String::new(),
            max_leaf: 0,
            pairing: None,
            virtualized: false,
            x86: Some((None, Vendor::Amd)),
            ..guest
        },
    );
    assert!(out.contains("  signature      : none\n") && !out.contains("max hv leaf"), "{out}");
    assert!(out.contains("none (unknown vendor)"), "{out}");
    assert!(out.ends_with("  bare metal: the counter is physical\n\n"), "{out}");
}

#[test]
fn the_processor_is_described_by_its_family() {
    let features = CpuFeatures { sse2: true, avx: true, ..Default::default() };
    let mut facts = CpuFacts {
        target: target(Machine::X86Wide),
        features,
        irq_register: "cr8".to_string(),
        irq_outcome: "raised".to_string(),
        family: FamilyFacts::X86 {
            cpuid: CpuidTable {
                leaves: vec![
                    CpuidLeaf {
                        leaf: 0,
                        subleaf: 0,
                        registers: Registers {
                            eax: 0x0D,
                            ebx: u32::from_le_bytes(*b"  Sh"),
                            ecx: u32::from_le_bytes(*b"ai  "),
                            edx: u32::from_le_bytes(*b"angh"),
                        },
                    },
                    CpuidLeaf {
                        leaf: 0x0D,
                        subleaf: 0,
                        registers: Registers { eax: 0x207, ebx: 0, ecx: 0, edx: 0 },
                    },
                ],
                xcr0: 0,
            },
        },
    };
    let mut out = String::new();
    report_cpu(&mut out, &facts, &Vec::new());
    assert!(out.ends_with("  no family available on this CPU\n\n"), "{out}");
    assert!(out.starts_with("== CPU ==\n  irq priority   : cr8 = raised\n"), "{out}");
    let vendor = format!("  vendor         : {} (  Shanghai  )\n", Vendor::Zhaoxin.name());
    assert!(out.contains(&vendor), "{out}");
    assert!(out.contains("not trusted for this vendor; the counter is measured instead"));
    assert!(out.contains("  sse2=true avx=true avx2=false\n"), "{out}");
    assert!(out.contains("  xcr0=0x0 (supported 0x207)\n"), "{out}");
    assert!(out.contains("  backend: avx\n"), "{out}");
    facts.target = target(Machine::RiscVWide);
    facts.family = FamilyFacts::RiscV {
        sstatus: 0x2000,
        firmware: "OpenSBI".to_string(),
        firmware_version: 0x1_0003,
        firmware_spec: 0x0200_0000,
        cycle: true,
        instret: false,
    };
    let mut out = String::new();
    report_cpu(&mut out, &facts, &Vec::new());
    assert!(out.contains("  sstatus=0x2000 fs=1 vs=0\n"), "{out}");
    assert!(out.contains("  sbi            : OpenSBI 0x10003 (spec 2.0)\n"), "{out}");
}

#[test]
fn simd_probes_are_listed() {
    let mut out = String::new();
    report_simd(
        &mut out,
        &target(Machine::X86Wide),
        &vec![
            SimdProbe { name: "AVX2".to_string(), units: Some(40) },
            SimdProbe { name: "SSE".to_string(), units: None },
        ],
    );
    assert!(out.contains(&format!("  {:<12} xor 40 units\n", "AVX2")), "{out}");
    assert!(out.contains(&format!("  {:<12} probe declined\n", "SSE")), "{out}");
    let mut out = String::new();
    report_simd(&mut out, &target(Machine::X86Wide), &Vec::new());
    assert!(out.contains("  no family available on this CPU\n"), "{out}");
}

fn controller() -> BusController {
    BusController {
        path: b"\\_SB.PC00.I2C5".to_vec(),
        dsdt: None,
        ssdts: vec![None, Some(0x0019_0001)],
    }
}

#[test]
fn the_bus_controller_is_found_in_any_table() {
    let mut out = String::new();
    report_controller(&mut out, &controller());
    assert_eq!(
        out,
        "    controller   : \\_SB.PC00.I2C5\n    found in     : ssdt #2\n    \
         _ADR         : 0x190001 -> 25.1 (ssdt)\n"
    );
    let mut out = String::new();
    report_controller(&mut out, &BusController { dsdt: Some(0x0015_0000), ..controller() });
    assert!(out.ends_with("    _ADR         : 0x150000 -> 21.0 (dsdt)\n"), "{out}");
    let mut out = String::new();
    report_controller(&mut out, &BusController { ssdts: Vec::new(), path: vec![0xFF], ..controller() });
    assert_eq!(
        out,
        "    controller   : ?\n    _ADR         : no table declares this controller with one\n"
    );
}

#[test]
fn the_pin_says_how_it_is_gated() {
    let windows = |communities, readiness| {
        Some(GpioWindows { communities, platform: Some("ADL".to_string()), readiness })
    };
    let pin = |windows| GpioPin { pin: 327, controller: b"GPI0".to_vec(), windows };
    let mut out = String::new();
    report_gpio(&mut out, &pin(windows(1, Readiness::Table)));
    assert!(out.contains("    gpio windows : 1 community, part ADL\n"), "{out}");
    assert!(out.ends_with("    readiness    : gated by pin 327 (table)\n"), "{out}");
    let mut out = String::new();
    report_gpio(&mut out, &pin(windows(4, Readiness::Calibrating { watching: 12 })));
    assert!(out.contains("4 communities") && out.contains("12 candidate pads"), "{out}");
    let mut out = String::new();
    report_gpio(&mut out, &pin(None));
    assert!(out.ends_with("    gpio windows : none usable; the pin gate will poll blind\n"), "{out}");
}

fn namespace() -> NamespaceFacts {
    NamespaceFacts {
        devices: vec![
            DeviceIds { hid: true, cid: false },
            DeviceIds { hid: false, cid: false },
            DeviceIds { hid: true, cid: true },
        ],
        ssdts: vec![Ssdt { bytes: 100, devices: 4 }, Ssdt { bytes: 50, devices: 0 }],
        tables: vec![*b"FACP", *b"SSDT", [0xFF; 4]],
        i2c_hid: None,
        i2c_hid_elsewhere: None,
    }
}

#[test]
fn the_namespace_is_counted() {
    let facts = |dsdt| AcpiFacts {
        source: "loader".to_string(),
        xsdt: true,
        legacy_scan: false,
        dsdt,
    };
    let mut out = String::new();
    report_acpi_namespace(&mut out, &facts(Dsdt::Walked { bytes: 5_000, facts: namespace() }));
    assert_eq!(
        out,
        "== ACPI namespace ==\n  root table     : loader (xsdt)\n  \
         legacy scan    : finds nothing (UEFI boot: only the loader knows)\n  \
         dsdt           : 5000 bytes\n  devices        : 3 (2 with a _HID or _CID)\n  \
         ssdts          : 2 (150 bytes, 4 more devices)\n  \
         tables         : FACP SSDT ????\n  \
         i2c-hid        : no PNP0C50 device on this machine\n\n"
    );
    let mut out = String::new();
    report_acpi_namespace(&mut out, &facts(Dsdt::Missing));
    assert!(out.ends_with("  no DSDT, or one whose checksum did not verify\n\n"), "{out}");
    let mut out = String::new();
    report_acpi_namespace(&mut out, &facts(Dsdt::Misfit { bytes: 9 }));
    assert!(out.ends_with("  the table's length field does not fit the table\n\n"), "{out}");
}

#[test]
fn a_touchpad_is_described_down_to_its_pin() {
    let hid = I2cHid {
        path: b"\\_SB.PC00.I2C5.TPD0".to_vec(),
        hid: Some("ELAN0676".to_string()),
        resources: Some(I2cResources {
            slave: 0x15,
            speed: 400_000,
            descriptor: Some(1),
            evaluated: true,
            controller: controller(),
            pin: None,
        }),
    };
    let mut out = String::new();
    report_acpi_namespace(
        &mut out,
        &AcpiFacts {
            source: "scan".to_string(),
            xsdt: false,
            legacy_scan: true,
            dsdt: Dsdt::Walked {
                bytes: 1,
                facts: NamespaceFacts { i2c_hid: Some(hid), ..namespace() },
            },
        },
    );
    assert!(out.contains(
        "  i2c-hid        : \\_SB.PC00.I2C5.TPD0\n    _HID         : ELAN0676\n    \
         slave        : 0x15\n    bus speed    : 400000 Hz\n    descriptor   : 0x1\n    \
         resources    : from _CRS\n"
    ), "{out}");
    assert!(out.ends_with("    gpio pin     : none declared\n\n"), "{out}");
}

fn whole(machine: Machine, family: FamilyFacts) -> SelfTest {
    SelfTest {
        version: "4.0.0".to_string(),
        cpu: CpuFacts {
            target: target(machine),
            features: CpuFeatures::default(),
            irq_register: "tpr".to_string(),
            irq_outcome: "raised".to_string(),
            family,
        },
        probes: vec![SimdProbe { name: "AVX2".to_string(), units: Some(40) }],
        pmu: pmu(),
        reads: vec![(10, 30), (40, 75)],
        rate: RateFacts::Unstated,
        buses: BusFacts {
            usb_hosts: Vec::new(),
            signatures: vec![*b"DMAR"],
            revoked: 1,
            kept: 2,
            acpi: AcpiFacts {
                source: "loader".to_string(),
                xsdt: true,
                legacy_scan: false,
                dsdt: Dsdt::Missing,
            },
        },
        hypervisor: guest(),
        integrity: integrity(),
    }
}

fn headings(report: &str) -> Vec<&str> {
    report.lines().filter(|line| line.starts_with("== ")).collect()
}

#[test]
fn the_parts_come_in_their_order() {
    let cpuid = CpuidTable { leaves: Vec::new(), xcr0: 0 };
    let mut out = String::new();
    run(&mut out, &whole(Machine::X86Wide, FamilyFacts::X86 { cpuid }));
    assert!(out.starts_with("NanoChronometer 4.0.0 — freestanding\narch: "), "{out}");
    assert!(out.ends_with("selftest complete; halting\n"), "{out}");
    assert_eq!(
        headings(&out),
        [
            "== CPU ==",
            "== SIMD (state enabled by the boot stub) ==",
            "== PMU (direct, no kernel) ==",
            "== Counter ==",
            "== USB host controllers ==",
            "== DMA protection ==",
            "== ACPI namespace ==",
            "== Hypervisor ==",
            "== Stored-state integrity ==",
        ]
    );
    let mut out = String::new();
    run(&mut out, &whole(Machine::Arm, FamilyFacts::Arm));
    assert_eq!(
        headings(&out),
        [
            "== CPU ==",
            "== SIMD (state enabled by the boot stub) ==",
            "== PMU (direct, no kernel) ==",
            "== Counter ==",
            "== Hypervisor ==",
            "== Stored-state integrity ==",
        ]
    );
}
