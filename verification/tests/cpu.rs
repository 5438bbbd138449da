//! Processor features and vendors.
use nanochrono::arch::x86::{CpuidLeaf, CpuidTable, Registers};
use nanochrono::cpu::{
    brand_string, centaur_max_leaf, cross_check_with_windows, detect, detect_aarch64,
    detect_aarch64_registers, detect_arm32, detect_riscv, detect_x86, features, from_ppc_hwcap,
    from_pvr, hwcap2_has, riscv_with_vector, tidy_brand, vendor, vendor_signature, CpuEvidence,
    CpuFeatures, HostedArm, IdRegisters, Vendor, WindowsArm, WindowsX86, HWCAP_V, PPC_ARCH_2_07,
    PPC_ARCH_3_00, PPC_HAS_ALTIVEC, PPC_HAS_VEC_CRYPTO, PPC_HAS_VSX,
};
use nanochrono::hypercall_hal::{for_vendor_signature, HypercallInsn};

#[test]
fn hwcap_decodes_power9() {
    let f = from_ppc_hwcap(
        PPC_HAS_ALTIVEC | PPC_HAS_VSX,
        PPC_ARCH_2_07 | PPC_ARCH_3_00 | PPC_HAS_VEC_CRYPTO,
    );
    assert!(f.altivec && f.vsx && f.ppc_isa207 && f.ppc_isa300 && !f.ppc_isa31);
    assert!(f.ppc_vec_crypto);
}

#[test]
fn vsx_without_altivec_is_refused() {
    let f = from_ppc_hwcap(PPC_HAS_VSX, 0);
    assert!(!f.vsx && !f.altivec);
}

#[test]
fn unknown_pvrs_claim_nothing() {
    let f = from_pvr(0x1234_0000);
    assert_eq!(f, CpuFeatures { invariant_counter: true, ..Default::default() });
    assert!(from_pvr(0x004E_1202).ppc_isa300);
    assert!(!from_pvr(0x8023_0000).altivec, "e500mc has no AltiVec");
}

#[test]
fn the_vendor_signatures_are_exact() {
    assert_eq!(Vendor::from_signature(*b"GenuineIntel"), Vendor::Intel);
    assert_eq!(Vendor::from_signature(*b"AuthenticAMD"), Vendor::Amd);
    assert_eq!(Vendor::from_signature(*b"  Shanghai  "), Vendor::Zhaoxin);
    assert_eq!(Vendor::from_signature(*b"CentaurHauls"), Vendor::Centaur);

    // Every signature is twelve bytes; the register triple has no room
    // for more and no padding for less.
    for vendor in [Vendor::Intel, Vendor::Amd, Vendor::Zhaoxin, Vendor::Centaur] {
        assert_eq!(
            vendor.as_str().len(),
            12,
            "{} does not round-trip as twelve bytes",
            vendor.name()
        );
    }
}

#[test]
fn a_trimmed_zhaoxin_signature_does_not_match() {
    assert!(matches!(Vendor::from_signature(*b"Shanghai    "), Vendor::Other(_)));
    assert!(matches!(Vendor::from_signature(*b"  Shanghai\0\0"), Vendor::Other(_)));
}

#[test]
fn only_intel_states_a_trustworthy_counter_rate() {
    assert!(Vendor::Intel.states_a_trustworthy_tsc_rate());
    for vendor in
        [Vendor::Amd, Vendor::Zhaoxin, Vendor::Centaur, Vendor::Other(*b"____________")]
    {
        assert!(
            !vendor.states_a_trustworthy_tsc_rate(),
            "{} must fall through to measuring the counter",
            vendor.name()
        );
    }
}

#[test]
fn the_zhaoxin_lineage_is_grouped_correctly() {
    for vendor in [Vendor::Zhaoxin, Vendor::Centaur] {
        assert!(vendor.has_centaur_leaves(), "{}", vendor.name());
        assert!(vendor.uses_intel_architectural_pmu(), "{}", vendor.name());
    }
    assert!(Vendor::Intel.uses_intel_architectural_pmu());
    assert!(!Vendor::Intel.has_centaur_leaves());
    assert!(!Vendor::Amd.has_centaur_leaves());
    assert!(!Vendor::Amd.uses_intel_architectural_pmu());
}

fn leaf(leaf: u32, subleaf: u32, eax: u32, ebx: u32, ecx: u32, edx: u32) -> CpuidLeaf {
    CpuidLeaf { leaf, subleaf, registers: Registers { eax, ebx, ecx, edx } }
}

fn word(bytes: &[u8; 4]) -> u32 {
    u32::from_le_bytes(*bytes)
}

/// A processor that spells its vendor over EBX, EDX, ECX.
fn intel() -> CpuidTable {
    CpuidTable {
        leaves: vec![leaf(0, 0, 7, word(b"Genu"), word(b"ntel"), word(b"ineI"))],
        xcr0: 0,
    }
}

#[test]
fn this_machines_vendor_decodes_to_something_real() {
    let vendor = vendor(&intel());
    assert!(
        !matches!(vendor, Vendor::Other(_)) || vendor.as_str().is_ascii(),
        "the vendor decoded to something that is not even text: {:?}",
        vendor
    );
    // Whatever this machine is, the string has to be printable — a
    // scrambled register order produces bytes that are not.
    assert!(
        vendor.as_str().chars().all(|c| c.is_ascii_graphic() || c == ' '),
        "the vendor string is not printable: {:?}",
        vendor.as_str()
    );
    assert_eq!(vendor_signature(&intel()), *b"GenuineIntel");
}

#[test]
fn a_signature_that_is_no_text_is_named_so() {
    let vendor = Vendor::from_signature([0xFF; 12]);
    assert_eq!(vendor, Vendor::Other([0xFF; 12]));
    assert_ne!(vendor.as_str().len(), 12);
    assert_eq!(Vendor::from_signature(*b"HygonGenuine").as_str(), "HygonGenuine");
}

#[test]
fn every_known_vendor_maps_to_its_instruction() {
    assert_eq!(for_vendor_signature(b"GenuineIntel"), Some(HypercallInsn::Vmcall));
    assert_eq!(for_vendor_signature(b"  Shanghai  "), Some(HypercallInsn::Vmcall));
    assert_eq!(for_vendor_signature(b"CentaurHauls"), Some(HypercallInsn::Vmcall));
    assert_eq!(for_vendor_signature(b"AuthenticAMD"), Some(HypercallInsn::Vmmcall));
    assert_eq!(for_vendor_signature(b"HygonGenuine"), Some(HypercallInsn::Vmmcall));
}

#[test]
fn an_unknown_vendor_gets_no_hypercall() {
    assert_eq!(for_vendor_signature(b"GenuineIotel"), None);
    assert_eq!(for_vendor_signature(&[0; 12]), None);
}

#[test]
fn the_hypercall_follows_the_vendor_of_this_processor() {
    assert_eq!(nanochrono::hypercall_hal::detect(&intel()), Some(HypercallInsn::Vmcall));
    assert_eq!(HypercallInsn::Vmmcall.name(), "vmmcall");
}

/// An AVX2 machine, with the state it saves chosen by the caller.
fn avx2_machine(xcr0: u64) -> CpuidTable {
    CpuidTable {
        leaves: vec![
            leaf(0, 0, 7, word(b"Genu"), word(b"ntel"), word(b"ineI")),
            // OSXSAVE, AVX and SSE4.2; SSE and SSE2.
            leaf(1, 0, 0, 0, (1 << 27) | (1 << 28) | (1 << 20), (1 << 25) | (1 << 26)),
            leaf(7, 0, 0, 1 << 5, 0, 0),
        ],
        xcr0,
    }
}

#[test]
fn wide_features_wait_for_the_system_to_save_their_registers() {
    let enabled = detect_x86(&avx2_machine(7));
    assert!(enabled.avx && enabled.avx2 && enabled.sse42);
    let withheld = detect_x86(&avx2_machine(1));
    assert!(!withheld.avx && !withheld.avx2 && withheld.sse42);
}

#[test]
fn a_cross_check_only_takes_away() {
    let mut f = detect_x86(&avx2_machine(7));
    let all = WindowsX86 {
        xmmi: true,
        xmmi64: true,
        sse3: true,
        avx: true,
        avx2: true,
        avx512f: true,
    };
    let before = f;
    cross_check_with_windows(&mut f, &all);
    assert_eq!(f, before);
    cross_check_with_windows(&mut f, &WindowsX86 { avx: false, ..all });
    assert!(!f.avx);
}

#[test]
fn arm_registers_and_bits_decode() {
    let none = detect_aarch64_registers(&IdRegisters { isar0: 0, pfr0: 0, pfr1: 0, zfr0: 0 });
    assert!(none.neon && !none.sve && !none.arm_aes);
    let more = detect_aarch64_registers(&IdRegisters {
        isar0: (2 << 4) | (1 << 12),
        pfr0: 1 << 32,
        pfr1: 1 << 24,
        zfr0: 1,
    });
    assert!(more.arm_aes && more.arm_sha2 && more.sve && more.sve2 && more.sme);
    assert!(hwcap2_has(1 << 23, 23) && !hwcap2_has(1 << 23, 22));
    assert!(detect_arm32(0x1000).neon && !detect_arm32(0).neon);
    assert!(detect_riscv(1 << HWCAP_V).rvv && !detect_riscv(0).rvv);
    assert!(riscv_with_vector(true).rvv);
}

#[test]
fn hosted_arm_believes_the_system() {
    let mut h = HostedArm {
        sve: true,
        sve2: false,
        aes: true,
        sha2: true,
        pmull: true,
        hwcap2: 1 << 23,
        apple: None,
        windows: None,
    };
    let f = detect_aarch64(&h);
    assert!(f.neon && f.sve && f.sme && f.arm_aes);
    h.windows = Some(WindowsArm { vfp32: true, crypto: false });
    assert!(!detect_aarch64(&h).arm_aes);
}

#[test]
fn features_follow_the_evidence() {
    let evidence = CpuEvidence::Powerpc { hwcap: PPC_HAS_ALTIVEC, hwcap2: 0 };
    assert_eq!(detect(&evidence), from_ppc_hwcap(PPC_HAS_ALTIVEC, 0));
    assert_eq!(features(&evidence), detect(&evidence));
    assert_eq!(detect(&CpuEvidence::PowerpcPvr(0x004E_1202)), from_pvr(0x004E_1202));
}

#[test]
fn brands_are_tidied() {
    assert_eq!(tidy_brand("  Intel(R) Core(TM) i7 "), "Intel(R) Core(TM) i7");
    assert_eq!(brand_string(&intel()), None);
    let mut named = intel();
    named.leaves.push(leaf(0x8000_0000, 0, 0x8000_0004, 0, 0, 0));
    named.leaves.push(leaf(
        0x8000_0002,
        0,
        word(b"  Fa"),
        word(b"st  "),
        word(b"Chip"),
        0,
    ));
    assert_eq!(brand_string(&named).as_deref(), Some("Fast  Chip"));
}

#[test]
fn centaur_leaves_are_read_from_their_own_range() {
    let table =
        CpuidTable { leaves: vec![leaf(0xC000_0000, 0, 0xC000_0004, 0, 0, 0)], xcr0: 0 };
    assert_eq!(centaur_max_leaf(&table), 0xC000_0004);
    assert_eq!(centaur_max_leaf(&intel()), 0);
    let echo = CpuidTable { leaves: vec![leaf(0xC000_0000, 0, 0x16, 0, 0, 0)], xcr0: 0 };
    assert_eq!(centaur_max_leaf(&echo), 0);
}
