//! CPU feature detection.
//!
//! Every ISA extension that can be executed passes through here first. On x86
//! that means both a CPUID bit and an `XCR0` check: a processor can report
//! AVX-512 while the operating system has not enabled ZMM state, and executing
//! a ZMM instruction in that situation is an invalid opcode, not a slow path.
use crate::arch::arm32::HWCAP_NEON;
use crate::arch::x86::{cpuid_max_leaf, xcr0_safe, CpuidTable, Registers};
use crate::bytes::{bytes_are, push_le_bytes, test32, test64, twelve_bytes, until_nul, utf8_lossy, utf8_text};
use crate::text::{chars_of, string_of, trim, Trim};
use vstd::prelude::*;

verus! {

/// One flag per ISA extension that can be dispatched to.
#[derive(Debug, Clone, Copy, PartialEq, Eq, Structural)]
pub struct CpuFeatures {
    pub mmx: bool,
    pub sse: bool,
    pub sse2: bool,
    pub sse3: bool,
    pub ssse3: bool,
    pub sse41: bool,
    pub sse42: bool,
    pub aesni: bool,
    pub pclmulqdq: bool,
    pub shani: bool,
    pub avx: bool,
    pub f16c: bool,
    pub fma: bool,
    pub avx2: bool,
    pub avx_vnni: bool,
    pub vaes: bool,
    /// Carry-less multiply on YMM and ZMM lanes.
    pub vpclmulqdq: bool,
    pub avx512f: bool,
    pub avx512bw: bool,
    pub avx512vl: bool,
    pub avx512vnni: bool,
    pub neon: bool,
    pub sve: bool,
    pub sve2: bool,
    pub sme: bool,
    pub arm_aes: bool,
    pub arm_sha2: bool,
    /// PowerPC VMX, the vector unit Apple and Motorola called AltiVec.
    pub altivec: bool,
    /// PowerPC Vector-Scalar Extension (ISA 2.06, POWER7 onward).
    pub vsx: bool,
    /// ISA 2.07 (POWER8): the VSX integer and crypto additions.
    pub ppc_isa207: bool,
    /// ISA 3.0 (POWER9).
    pub ppc_isa300: bool,
    /// ISA 3.1 (POWER10).
    pub ppc_isa31: bool,
    /// The in-core AES/SHA vector crypto instructions.
    pub ppc_vec_crypto: bool,
    /// RISC-V vector extension, enabled for this process.
    pub rvv: bool,
    /// Whether the counter is immune to frequency and C-state changes.
    /// Without this, cycle deltas across a long interval are not comparable
    /// to wall time.
    pub invariant_counter: bool,
}

/// The name of one feature.
#[derive(Debug, Clone, Copy, PartialEq, Eq, Structural)]
pub enum Feature {
    Mmx,
    Sse,
    Sse2,
    Sse3,
    Ssse3,
    Sse41,
    Sse42,
    Aesni,
    Pclmulqdq,
    Shani,
    Avx,
    F16c,
    Fma,
    Avx2,
    AvxVnni,
    Vaes,
    Vpclmulqdq,
    Avx512f,
    Avx512bw,
    Avx512vl,
    Avx512vnni,
    Neon,
    Sve,
    Sve2,
    Sme,
    ArmAes,
    ArmSha2,
    Altivec,
    Vsx,
    PpcIsa207,
    PpcIsa300,
    PpcIsa31,
    PpcVecCrypto,
    Rvv,
    InvariantCounter,
}

impl CpuFeatures {
    /// No feature at all.
    pub open spec fn none() -> CpuFeatures {
        CpuFeatures {
            mmx: false,
            sse: false,
            sse2: false,
            sse3: false,
            ssse3: false,
            sse41: false,
            sse42: false,
            aesni: false,
            pclmulqdq: false,
            shani: false,
            avx: false,
            f16c: false,
            fma: false,
            avx2: false,
            avx_vnni: false,
            vaes: false,
            vpclmulqdq: false,
            avx512f: false,
            avx512bw: false,
            avx512vl: false,
            avx512vnni: false,
            neon: false,
            sve: false,
            sve2: false,
            sme: false,
            arm_aes: false,
            arm_sha2: false,
            altivec: false,
            vsx: false,
            ppc_isa207: false,
            ppc_isa300: false,
            ppc_isa31: false,
            ppc_vec_crypto: false,
            rvv: false,
            invariant_counter: false,
        }
    }

    /// Whether this set has a feature.
    pub open spec fn has(self, feature: Feature) -> bool {
        match feature {
            Feature::Mmx => self.mmx,
            Feature::Sse => self.sse,
            Feature::Sse2 => self.sse2,
            Feature::Sse3 => self.sse3,
            Feature::Ssse3 => self.ssse3,
            Feature::Sse41 => self.sse41,
            Feature::Sse42 => self.sse42,
            Feature::Aesni => self.aesni,
            Feature::Pclmulqdq => self.pclmulqdq,
            Feature::Shani => self.shani,
            Feature::Avx => self.avx,
            Feature::F16c => self.f16c,
            Feature::Fma => self.fma,
            Feature::Avx2 => self.avx2,
            Feature::AvxVnni => self.avx_vnni,
            Feature::Vaes => self.vaes,
            Feature::Vpclmulqdq => self.vpclmulqdq,
            Feature::Avx512f => self.avx512f,
            Feature::Avx512bw => self.avx512bw,
            Feature::Avx512vl => self.avx512vl,
            Feature::Avx512vnni => self.avx512vnni,
            Feature::Neon => self.neon,
            Feature::Sve => self.sve,
            Feature::Sve2 => self.sve2,
            Feature::Sme => self.sme,
            Feature::ArmAes => self.arm_aes,
            Feature::ArmSha2 => self.arm_sha2,
            Feature::Altivec => self.altivec,
            Feature::Vsx => self.vsx,
            Feature::PpcIsa207 => self.ppc_isa207,
            Feature::PpcIsa300 => self.ppc_isa300,
            Feature::PpcIsa31 => self.ppc_isa31,
            Feature::PpcVecCrypto => self.ppc_vec_crypto,
            Feature::Rvv => self.rvv,
            Feature::InvariantCounter => self.invariant_counter,
        }
    }

    /// The same set, with every field named.
    spec fn spelled_out(self) -> CpuFeatures {
        CpuFeatures {
            mmx: self.mmx,
            sse: self.sse,
            sse2: self.sse2,
            sse3: self.sse3,
            ssse3: self.ssse3,
            sse41: self.sse41,
            sse42: self.sse42,
            aesni: self.aesni,
            pclmulqdq: self.pclmulqdq,
            shani: self.shani,
            avx: self.avx,
            f16c: self.f16c,
            fma: self.fma,
            avx2: self.avx2,
            avx_vnni: self.avx_vnni,
            vaes: self.vaes,
            vpclmulqdq: self.vpclmulqdq,
            avx512f: self.avx512f,
            avx512bw: self.avx512bw,
            avx512vl: self.avx512vl,
            avx512vnni: self.avx512vnni,
            neon: self.neon,
            sve: self.sve,
            sve2: self.sve2,
            sme: self.sme,
            arm_aes: self.arm_aes,
            arm_sha2: self.arm_sha2,
            altivec: self.altivec,
            vsx: self.vsx,
            ppc_isa207: self.ppc_isa207,
            ppc_isa300: self.ppc_isa300,
            ppc_isa31: self.ppc_isa31,
            ppc_vec_crypto: self.ppc_vec_crypto,
            rvv: self.rvv,
            invariant_counter: self.invariant_counter,
        }
    }

    /// Whether every feature of this set is in the other one too.
    pub open spec fn within(self, other: CpuFeatures) -> bool {
        forall|feature: Feature| #[trigger] self.has(feature) ==> other.has(feature)
    }
}

impl Default for CpuFeatures {
    fn default() -> (features: CpuFeatures)
        ensures
            features == CpuFeatures::none(),
    {
        CpuFeatures {
            mmx: false,
            sse: false,
            sse2: false,
            sse3: false,
            ssse3: false,
            sse41: false,
            sse42: false,
            aesni: false,
            pclmulqdq: false,
            shani: false,
            avx: false,
            f16c: false,
            fma: false,
            avx2: false,
            avx_vnni: false,
            vaes: false,
            vpclmulqdq: false,
            avx512f: false,
            avx512bw: false,
            avx512vl: false,
            avx512vnni: false,
            neon: false,
            sve: false,
            sve2: false,
            sme: false,
            arm_aes: false,
            arm_sha2: false,
            altivec: false,
            vsx: false,
            ppc_isa207: false,
            ppc_isa300: false,
            ppc_isa31: false,
            ppc_vec_crypto: false,
            rvv: false,
            invariant_counter: false,
        }
    }
}

// ---------------------------------------------------------------------------
// x86
// ---------------------------------------------------------------------------

/// Whether the operating system saves YMM state: `XCR0` bits 1 and 2.
pub open spec fn ymm_enabled(xcr0: u64) -> bool {
    xcr0 & 0x6 == 0x6
}

/// Whether the operating system saves ZMM state: `XCR0` bits 1, 2, 5, 6 and 7.
pub open spec fn zmm_enabled(xcr0: u64) -> bool {
    xcr0 & 0xE6 == 0xE6
}

/// The features an x86 processor has and its operating system has enabled.
///
/// Nothing where the standard leaves do not reach `CPUID.1`; the bits of
/// `CPUID.7` only where that leaf exists, and those of its subleaf 1 only
/// where the leaf says so.
pub open spec fn x86_features(cpu: CpuidTable) -> CpuFeatures {
    let max = cpu.at(0, 0).eax;
    let ymm = ymm_enabled(cpu.enabled_state());
    let zmm = zmm_enabled(cpu.enabled_state());
    let ecx1 = cpu.at(1, 0).ecx;
    let edx1 = cpu.at(1, 0).edx;
    let seven = max >= 7;
    let ebx7 = cpu.at(7, 0).ebx;
    let ecx7 = cpu.at(7, 0).ecx;
    let avx2 = seven && crate::bytes::bit32(ebx7, 5) && ymm;
    if max < 1 {
        CpuFeatures::none()
    } else {
        CpuFeatures {
            mmx: crate::bytes::bit32(edx1, 23),
            sse: crate::bytes::bit32(edx1, 25),
            sse2: crate::bytes::bit32(edx1, 26),
            sse3: crate::bytes::bit32(ecx1, 0),
            pclmulqdq: crate::bytes::bit32(ecx1, 1),
            ssse3: crate::bytes::bit32(ecx1, 9),
            fma: crate::bytes::bit32(ecx1, 12) && ymm,
            sse41: crate::bytes::bit32(ecx1, 19),
            sse42: crate::bytes::bit32(ecx1, 20),
            aesni: crate::bytes::bit32(ecx1, 25),
            avx: crate::bytes::bit32(ecx1, 28) && ymm,
            f16c: crate::bytes::bit32(ecx1, 29) && ymm,
            avx2,
            shani: seven && crate::bytes::bit32(ebx7, 29),
            avx512f: seven && crate::bytes::bit32(ebx7, 16) && zmm,
            avx512bw: seven && crate::bytes::bit32(ebx7, 30) && zmm,
            avx512vl: seven && crate::bytes::bit32(ebx7, 31) && zmm,
            vaes: seven && crate::bytes::bit32(ecx7, 9) && ymm,
            vpclmulqdq: seven && crate::bytes::bit32(ecx7, 10) && ymm,
            avx512vnni: seven && crate::bytes::bit32(ecx7, 11) && zmm,
            avx_vnni: seven && cpu.at(7, 0).eax >= 1 && crate::bytes::bit32(cpu.at(7, 1).eax, 4)
                && ymm && avx2,
            invariant_counter: cpu.at(0x8000_0000, 0).eax >= 0x8000_0007 && crate::bytes::bit32(
                cpu.at(0x8000_0007, 0).edx,
                8,
            ),
            ..CpuFeatures::none()
        }
    }
}

/// What Windows answers to `IsProcessorFeaturePresent` on x86.
#[derive(Debug, Clone, Copy, PartialEq, Eq, Structural)]
pub struct WindowsX86 {
    pub xmmi: bool,
    pub xmmi64: bool,
    pub sse3: bool,
    pub avx: bool,
    pub avx2: bool,
    pub avx512f: bool,
}

/// The features left after Windows has had its say: each one Windows speaks of
/// only where it agrees, every AVX-512 subset behind the one AVX-512F answer,
/// and what needs AVX register state only where AVX is left.
pub open spec fn agreed_x86(f: CpuFeatures, w: WindowsX86) -> CpuFeatures {
    let avx = f.avx && w.avx;
    CpuFeatures {
        sse: f.sse && w.xmmi,
        sse2: f.sse2 && w.xmmi64,
        sse3: f.sse3 && w.sse3,
        avx,
        avx2: f.avx2 && w.avx2,
        avx512f: f.avx512f && w.avx512f,
        avx512bw: f.avx512bw && w.avx512f,
        avx512vl: f.avx512vl && w.avx512f,
        avx512vnni: f.avx512vnni && w.avx512f,
        f16c: f.f16c && avx,
        fma: f.fma && avx,
        avx_vnni: f.avx_vnni && avx,
        vaes: f.vaes && avx,
        vpclmulqdq: f.vpclmulqdq && avx,
        ..f
    }
}

/// Cross-checks CPUID against `IsProcessorFeaturePresent`.
///
/// CPUID says whether the silicon has a feature; Windows says whether this
/// process may use it. Both have to agree.
pub fn cross_check_with_windows(f: &mut CpuFeatures, w: &WindowsX86)
    ensures
        *final(f) == agreed_x86(*old(f), *w),
{
    let avx = f.avx && w.avx;
    *f =
    CpuFeatures {
        sse: f.sse && w.xmmi,
        sse2: f.sse2 && w.xmmi64,
        sse3: f.sse3 && w.sse3,
        avx,
        avx2: f.avx2 && w.avx2,
        avx512f: f.avx512f && w.avx512f,
        avx512bw: f.avx512bw && w.avx512f,
        avx512vl: f.avx512vl && w.avx512f,
        avx512vnni: f.avx512vnni && w.avx512f,
        f16c: f.f16c && avx,
        fma: f.fma && avx,
        avx_vnni: f.avx_vnni && avx,
        vaes: f.vaes && avx,
        vpclmulqdq: f.vpclmulqdq && avx,
        ..*f
    };
}

/// Detects the features of an x86 processor from its CPUID leaves.
pub fn detect_x86(cpu: &CpuidTable) -> (features: CpuFeatures)
    ensures
        features == x86_features(*cpu),
{
    let max_leaf: u32 = cpuid_max_leaf(cpu);
    if max_leaf < 1 {
        return CpuFeatures::default();
    }
    let one: Registers = cpu.cpuid(1, 0);
    let seven: Registers = cpu.cpuid(7, 0);
    let has_seven = max_leaf >= 7;
    let xcr0: u64 = xcr0_safe(cpu);
    let os_ymm = xcr0 & 0x6 == 0x6;
    let os_zmm = xcr0 & 0xE6 == 0xE6;
    let avx2 = has_seven && test32(seven.ebx, 5) && os_ymm;
    CpuFeatures {
        mmx: test32(one.edx, 23),
        sse: test32(one.edx, 25),
        sse2: test32(one.edx, 26),
        sse3: test32(one.ecx, 0),
        pclmulqdq: test32(one.ecx, 1),
        ssse3: test32(one.ecx, 9),
        fma: test32(one.ecx, 12) && os_ymm,
        sse41: test32(one.ecx, 19),
        sse42: test32(one.ecx, 20),
        aesni: test32(one.ecx, 25),
        avx: test32(one.ecx, 28) && os_ymm,
        f16c: test32(one.ecx, 29) && os_ymm,
        avx2,
        shani: has_seven && test32(seven.ebx, 29),
        avx512f: has_seven && test32(seven.ebx, 16) && os_zmm,
        avx512bw: has_seven && test32(seven.ebx, 30) && os_zmm,
        avx512vl: has_seven && test32(seven.ebx, 31) && os_zmm,
        vaes: has_seven && test32(seven.ecx, 9) && os_ymm,
        vpclmulqdq: has_seven && test32(seven.ecx, 10) && os_ymm,
        avx512vnni: has_seven && test32(seven.ecx, 11) && os_zmm,
        avx_vnni: avx2 && seven.eax >= 1 && test32(cpu.cpuid(7, 1).eax, 4),
        invariant_counter: cpu.cpuid(0x8000_0000, 0).eax >= 0x8000_0007 && test32(
            cpu.cpuid(0x8000_0007, 0).edx,
            8,
        ),
        ..CpuFeatures::default()
    }
}

// ---------------------------------------------------------------------------
// PowerPC
// ---------------------------------------------------------------------------

/// `AT_HWCAP`: the AltiVec unit.
pub const PPC_HAS_ALTIVEC: u64 = 0x1000_0000;

/// `AT_HWCAP`: the Vector-Scalar Extension.
pub const PPC_HAS_VSX: u64 = 0x0000_0080;

/// `AT_HWCAP2`: ISA 2.07.
pub const PPC_ARCH_2_07: u64 = 0x8000_0000;

/// `AT_HWCAP2`: the vector crypto instructions.
pub const PPC_HAS_VEC_CRYPTO: u64 = 0x0200_0000;

/// `AT_HWCAP2`: ISA 3.0.
pub const PPC_ARCH_3_00: u64 = 0x0080_0000;

/// `AT_HWCAP2`: ISA 3.1.
pub const PPC_ARCH_3_1: u64 = 0x0004_0000;

/// The features that the two PowerPC capability words declare. VSX extends
/// the AltiVec register file, so it counts only with AltiVec, and the crypto
/// instructions only with VSX.
pub open spec fn ppc_features(hwcap: u64, hwcap2: u64) -> CpuFeatures {
    let altivec = hwcap & PPC_HAS_ALTIVEC != 0;
    let vsx = altivec && hwcap & PPC_HAS_VSX != 0;
    CpuFeatures {
        altivec,
        vsx,
        ppc_isa207: hwcap2 & PPC_ARCH_2_07 != 0,
        ppc_isa300: hwcap2 & PPC_ARCH_3_00 != 0,
        ppc_isa31: hwcap2 & PPC_ARCH_3_1 != 0,
        ppc_vec_crypto: vsx && hwcap2 & PPC_HAS_VEC_CRYPTO != 0,
        invariant_counter: true,
        ..CpuFeatures::none()
    }
}

/// Decodes `AT_HWCAP` and `AT_HWCAP2` into features.
pub fn from_ppc_hwcap(hwcap: u64, hwcap2: u64) -> (features: CpuFeatures)
    ensures
        features == ppc_features(hwcap, hwcap2),
{
    let mut f = CpuFeatures::default();
    f.altivec = hwcap & PPC_HAS_ALTIVEC != 0;
    f.vsx = f.altivec && hwcap & PPC_HAS_VSX != 0;
    f.ppc_isa207 = hwcap2 & PPC_ARCH_2_07 != 0;
    f.ppc_isa300 = hwcap2 & PPC_ARCH_3_00 != 0;
    f.ppc_isa31 = hwcap2 & PPC_ARCH_3_1 != 0;
    f.ppc_vec_crypto = f.vsx && hwcap2 & PPC_HAS_VEC_CRYPTO != 0;
    f.invariant_counter = true;
    f
}

/// What a PowerPC core family has, from least to most.
#[derive(Debug, Clone, Copy, PartialEq, Eq, Structural)]
pub enum PpcLevel {
    /// Nothing to dispatch on.
    Base,
    /// AltiVec alone: G4, G5, Cell, POWER6, e6500.
    AltiVec,
    /// AltiVec and VSX: POWER7.
    Vsx,
    /// ISA 2.07 as well: POWER8.
    Isa207,
    /// ISA 3.0 as well: POWER9.
    Isa300,
    /// ISA 3.1 as well: POWER10 and POWER11.
    Isa31,
}

/// The level of the core family that a Processor Version Register names in
/// its upper half. Unknown parts get none.
pub open spec fn pvr_level(pvr: u32) -> PpcLevel {
    let version = pvr / 0x1_0000;
    if version == 0x000C || version == 0x800C || 0x8000 <= version <= 0x8004 || version == 0x0039
        || version == 0x003C || version == 0x0044 || version == 0x0045 || version == 0x0070
        || version == 0x003E || version == 0x8040 {
        PpcLevel::AltiVec
    } else if version == 0x003F || version == 0x004A {
        PpcLevel::Vsx
    } else if 0x004B <= version <= 0x004D {
        PpcLevel::Isa207
    } else if version == 0x004E {
        PpcLevel::Isa300
    } else if version == 0x0080 || version == 0x0082 {
        PpcLevel::Isa31
    } else {
        PpcLevel::Base
    }
}

/// The features of a core family: each level has those of the levels below
/// it, and the crypto instructions came with ISA 2.07.
pub open spec fn level_features(level: PpcLevel) -> CpuFeatures {
    let isa207 = level is Isa207 || level is Isa300 || level is Isa31;
    CpuFeatures {
        altivec: !(level is Base),
        vsx: level is Vsx || isa207,
        ppc_isa207: isa207,
        ppc_isa300: level is Isa300 || level is Isa31,
        ppc_isa31: level is Isa31,
        ppc_vec_crypto: isa207,
        invariant_counter: true,
        ..CpuFeatures::none()
    }
}

fn level_of_pvr(pvr: u32) -> (level: PpcLevel)
    ensures
        level == pvr_level(pvr),
{
    let version: u32 = pvr / 0x1_0000;
    if version == 0x000C || version == 0x800C || (0x8000 <= version && version <= 0x8004) {
        // 7400/7410, 745x/744x: G4.
        PpcLevel::AltiVec
    } else if version == 0x0039 || version == 0x003C || version == 0x0044 || version == 0x0045 {
        // 970, 970FX, 970MP, 970GX: G5.
        PpcLevel::AltiVec
    } else if version == 0x0070 || version == 0x003E || version == 0x8040 {
        // Cell PPE, POWER6, e6500.
        PpcLevel::AltiVec
    } else if version == 0x003F || version == 0x004A {
        PpcLevel::Vsx
    } else if 0x004B <= version && version <= 0x004D {
        PpcLevel::Isa207
    } else if version == 0x004E {
        PpcLevel::Isa300
    } else if version == 0x0080 || version == 0x0082 {
        PpcLevel::Isa31
    } else {
        PpcLevel::Base
    }
}

/// Features implied by a Processor Version Register. Unknown parts get none:
/// guessing wrong is an illegal instruction, guessing low is a slower probe.
pub fn from_pvr(pvr: u32) -> (features: CpuFeatures)
    ensures
        features == level_features(pvr_level(pvr)),
{
    let level: PpcLevel = level_of_pvr(pvr);
    let mut f = CpuFeatures::default();
    f.invariant_counter = true;
    match level {
        PpcLevel::Base => {},
        PpcLevel::AltiVec => {
            f.altivec = true;
        },
        PpcLevel::Vsx => {
            f.altivec = true;
            f.vsx = true;
        },
        PpcLevel::Isa207 => {
            f.altivec = true;
            f.vsx = true;
            f.ppc_isa207 = true;
            f.ppc_vec_crypto = true;
        },
        PpcLevel::Isa300 => {
            f.altivec = true;
            f.vsx = true;
            f.ppc_isa207 = true;
            f.ppc_isa300 = true;
            f.ppc_vec_crypto = true;
        },
        PpcLevel::Isa31 => {
            f.altivec = true;
            f.vsx = true;
            f.ppc_isa207 = true;
            f.ppc_isa300 = true;
            f.ppc_isa31 = true;
            f.ppc_vec_crypto = true;
        },
    }
    f
}

// ---------------------------------------------------------------------------
// ARM and RISC-V
// ---------------------------------------------------------------------------

/// A four-bit field of an AArch64 ID register.
pub open spec fn id_field(register: u64, shift: u64) -> u64 {
    (register >> shift) & 0xF
}

/// The AArch64 ID registers, as a kernel reads them at EL1.
#[derive(Debug, Clone, Copy, PartialEq, Eq, Structural)]
pub struct IdRegisters {
    pub isar0: u64,
    pub pfr0: u64,
    pub pfr1: u64,
    /// `ID_AA64ZFR0_EL1`, which exists only where SVE does.
    pub zfr0: u64,
}

/// The features that the ID registers declare. The SVE feature register
/// counts only where SVE is implemented.
pub open spec fn id_register_features(r: IdRegisters) -> CpuFeatures {
    let sve = id_field(r.pfr0, 32) >= 1;
    CpuFeatures {
        neon: true,
        invariant_counter: true,
        arm_aes: id_field(r.isar0, 4) >= 1,
        pclmulqdq: id_field(r.isar0, 4) >= 2,
        arm_sha2: id_field(r.isar0, 12) >= 1,
        sve,
        sve2: sve && id_field(r.zfr0, 0) >= 1,
        sme: id_field(r.pfr1, 24) >= 1,
        ..CpuFeatures::none()
    }
}

fn field(register: u64, shift: u64) -> (value: u64)
    requires
        shift < 64,
    ensures
        value == id_field(register, shift),
{
    (register >> shift) & 0xF
}

/// Detects the features of an AArch64 core from its ID registers.
pub fn detect_aarch64_registers(r: &IdRegisters) -> (features: CpuFeatures)
    ensures
        features == id_register_features(*r),
{
    let mut f = CpuFeatures::default();
    let aes: u64 = field(r.isar0, 4);
    f.neon = true;
    f.invariant_counter = true;
    f.arm_aes = aes >= 1;
    f.pclmulqdq = aes >= 2;
    f.arm_sha2 = field(r.isar0, 12) >= 1;
    f.sve = field(r.pfr0, 32) >= 1;
    f.sve2 = f.sve && field(r.zfr0, 0) >= 1;
    f.sme = field(r.pfr1, 24) >= 1;
    f
}

/// `HWCAP2_SME`, the bit number in the second capability word.
pub const HWCAP2_SME: u64 = 23;

/// Apple's capability buffer, the bits that are asked for.
#[derive(Debug, Clone, Copy, PartialEq, Eq, Structural)]
pub struct AppleCapabilities {
    pub sha256: bool,
    pub aes: bool,
    pub pmull: bool,
    pub sme: bool,
}

/// What Windows answers to `IsProcessorFeaturePresent` on AArch64.
#[derive(Debug, Clone, Copy, PartialEq, Eq, Structural)]
pub struct WindowsArm {
    pub vfp32: bool,
    pub crypto: bool,
}

/// What an operating system says of an AArch64 core.
#[derive(Debug, Clone, Copy, PartialEq, Eq, Structural)]
pub struct HostedArm {
    pub sve: bool,
    pub sve2: bool,
    pub aes: bool,
    pub sha2: bool,
    pub pmull: bool,
    /// `AT_HWCAP2`, or zero where there is no auxiliary vector.
    pub hwcap2: u64,
    pub apple: Option<AppleCapabilities>,
    pub windows: Option<WindowsArm>,
}

/// The features of an AArch64 core under an operating system. Apple's buffer
/// decides SME and can only add to the rest; Windows can only take away.
pub open spec fn hosted_arm_features(h: HostedArm) -> CpuFeatures {
    let base = CpuFeatures {
        neon: true,
        invariant_counter: true,
        sve: h.sve,
        sve2: h.sve2,
        arm_aes: h.aes,
        arm_sha2: h.sha2,
        pclmulqdq: h.pmull,
        sme: crate::bytes::bit64(h.hwcap2, HWCAP2_SME),
        ..CpuFeatures::none()
    };
    let apple = match h.apple {
        Some(a) => CpuFeatures {
            sme: a.sme,
            arm_aes: base.arm_aes || a.aes,
            arm_sha2: base.arm_sha2 || a.sha256,
            pclmulqdq: base.pclmulqdq || a.pmull,
            ..base
        },
        None => base,
    };
    match h.windows {
        Some(w) => agreed_arm(apple, w),
        None => apple,
    }
}

/// The features left after Windows on AArch64 has had its say.
pub open spec fn agreed_arm(f: CpuFeatures, w: WindowsArm) -> CpuFeatures {
    CpuFeatures {
        neon: f.neon && w.vfp32,
        arm_aes: f.arm_aes && w.crypto,
        arm_sha2: f.arm_sha2 && w.crypto,
        ..f
    }
}

/// Detects the features of an AArch64 core from what the operating system
/// says of it.
pub fn detect_aarch64(h: &HostedArm) -> (features: CpuFeatures)
    ensures
        features == hosted_arm_features(*h),
{
    let mut f = CpuFeatures::default();
    f.neon = true;
    f.invariant_counter = true;
    f.sve = h.sve;
    f.sve2 = h.sve2;
    f.arm_aes = h.aes;
    f.arm_sha2 = h.sha2;
    f.pclmulqdq = h.pmull;
    f.sme = hwcap2_has(h.hwcap2, HWCAP2_SME);
    if let Some(a) = h.apple {
        f.sme = a.sme;
        f.arm_aes = f.arm_aes || a.aes;
        f.arm_sha2 = f.arm_sha2 || a.sha256;
        f.pclmulqdq = f.pclmulqdq || a.pmull;
    }
    if let Some(w) = h.windows {
        f.neon = f.neon && w.vfp32;
        f.arm_aes = f.arm_aes && w.crypto;
        f.arm_sha2 = f.arm_sha2 && w.crypto;
    }
    f
}

/// Tests a bit of the second hardware-capability word.
pub fn hwcap2_has(hwcap2: u64, n: u64) -> (set: bool)
    requires
        n < 64,
    ensures
        set == crate::bytes::bit64(hwcap2, n),
{
    test64(hwcap2, n)
}

/// `AT_HWCAP` bit of the RISC-V `v` extension: its letter's place in the
/// alphabet.
pub const HWCAP_V: u64 = 21;

/// Detects RISC-V features from the single-letter extension word.
pub fn detect_riscv(hwcap: u64) -> (features: CpuFeatures)
    ensures
        features == riscv_features(crate::bytes::bit64(hwcap, HWCAP_V)),
{
    riscv_with_vector(test64(hwcap, HWCAP_V))
}

/// The features of a RISC-V hart with or without the vector extension.
pub open spec fn riscv_features(vector: bool) -> CpuFeatures {
    CpuFeatures { rvv: vector, invariant_counter: true, ..CpuFeatures::none() }
}

/// RISC-V with no operating system: what the device tree said of vectors.
pub fn riscv_with_vector(vector: bool) -> (features: CpuFeatures)
    ensures
        features == riscv_features(vector),
{
    let mut f = CpuFeatures::default();
    f.rvv = vector;
    f.invariant_counter = true;
    f
}

/// The features of a 32-bit ARM core with this `AT_HWCAP`.
pub open spec fn arm32_features(hwcap: u64) -> CpuFeatures {
    CpuFeatures {
        neon: hwcap & HWCAP_NEON != 0,
        invariant_counter: true,
        ..CpuFeatures::none()
    }
}

/// Detects 32-bit ARM features: NEON from `AT_HWCAP`, the kernel's word on
/// whether the unit exists and is enabled for user space.
pub fn detect_arm32(hwcap: u64) -> (features: CpuFeatures)
    ensures
        features == arm32_features(hwcap),
{
    let mut f = CpuFeatures::default();
    f.neon = hwcap & HWCAP_NEON != 0;
    f.invariant_counter = true;
    f
}

// ---------------------------------------------------------------------------
// All architectures
// ---------------------------------------------------------------------------

/// What a machine says of its processor.
#[derive(Debug)]
pub enum CpuEvidence {
    X86 { cpuid: CpuidTable, windows: Option<WindowsX86> },
    Aarch64(HostedArm),
    /// A kernel at EL1, which can read the ID registers.
    Aarch64Registers(IdRegisters),
    Powerpc { hwcap: u64, hwcap2: u64 },
    /// A kernel in supervisor state, which can read the version register.
    PowerpcPvr(u32),
    Riscv { hwcap: u64 },
    /// A kernel that has only the device tree's word.
    RiscvDeviceTree { vector: bool },
    Arm32 { hwcap: u64 },
    Other,
}

impl CpuEvidence {
    /// The features this evidence shows.
    pub open spec fn shown(self) -> CpuFeatures {
        match self {
            CpuEvidence::X86 { cpuid, windows } => {
                // A processor without `CPUID.1` has nothing to cross-check.
                match windows {
                    Some(w) => agreed_x86(x86_features(cpuid), w),
                    None => x86_features(cpuid),
                }
            },
            CpuEvidence::Aarch64(h) => hosted_arm_features(h),
            CpuEvidence::Aarch64Registers(r) => id_register_features(r),
            CpuEvidence::Powerpc { hwcap, hwcap2 } => ppc_features(hwcap, hwcap2),
            CpuEvidence::PowerpcPvr(pvr) => level_features(pvr_level(pvr)),
            CpuEvidence::Riscv { hwcap } => riscv_features(crate::bytes::bit64(hwcap, HWCAP_V)),
            CpuEvidence::RiscvDeviceTree { vector } => riscv_features(vector),
            CpuEvidence::Arm32 { hwcap } => arm32_features(hwcap),
            CpuEvidence::Other => CpuFeatures::none(),
        }
    }
}

/// Detects the feature set.
pub fn detect(evidence: &CpuEvidence) -> (features: CpuFeatures)
    ensures
        features == evidence.shown(),
{
    match evidence {
        CpuEvidence::X86 { cpuid, windows } => {
            let mut f: CpuFeatures = detect_x86(cpuid);
            if let Some(w) = windows {
                cross_check_with_windows(&mut f, w);
            }
            f
        },
        CpuEvidence::Aarch64(h) => detect_aarch64(h),
        CpuEvidence::Aarch64Registers(r) => detect_aarch64_registers(r),
        CpuEvidence::Powerpc { hwcap, hwcap2 } => from_ppc_hwcap(*hwcap, *hwcap2),
        CpuEvidence::PowerpcPvr(pvr) => from_pvr(*pvr),
        CpuEvidence::Riscv { hwcap } => detect_riscv(*hwcap),
        CpuEvidence::RiscvDeviceTree { vector } => riscv_with_vector(*vector),
        CpuEvidence::Arm32 { hwcap } => detect_arm32(*hwcap),
        CpuEvidence::Other => CpuFeatures::default(),
    }
}

/// Detected features for this machine.
pub fn features(evidence: &CpuEvidence) -> (features: CpuFeatures)
    ensures
        features == evidence.shown(),
{
    detect(evidence)
}

// ---------------------------------------------------------------------------
// The vendor
// ---------------------------------------------------------------------------

/// Who made an x86 processor, by the twelve bytes `CPUID.0H` returns.
///
/// What a part is decides which of its CPUID leaves can be believed: leaves
/// `15H` and `16H` state the counter's frequency exactly, and only Intel's are
/// trusted. Every other vendor's counter is measured.
#[derive(Debug, Clone, Copy, PartialEq, Eq)]
pub enum Vendor {
    Intel,
    Amd,
    /// `"  Shanghai  "`, spaces included.
    Zhaoxin,
    /// The lineage Zhaoxin continues.
    Centaur,
    /// A vendor string this does not recognise, kept so it can be shown.
    Other([u8; 12]),
}

/// The vendor that a signature names.
pub open spec fn vendor_of(signature: [u8; 12]) -> Vendor {
    if signature@ == crate::bytes::ascii("GenuineIntel"@) {
        Vendor::Intel
    } else if signature@ == crate::bytes::ascii("AuthenticAMD"@) {
        Vendor::Amd
    } else if signature@ == crate::bytes::ascii("  Shanghai  "@) {
        Vendor::Zhaoxin
    } else if signature@ == crate::bytes::ascii("CentaurHauls"@) {
        Vendor::Centaur
    } else {
        Vendor::Other(signature)
    }
}

impl Vendor {
    /// Decodes the twelve bytes `CPUID.0H` returns in EBX, EDX, ECX.
    ///
    /// That register order is the one the instruction defines; reading them
    /// as EBX, ECX, EDX spells `GenuntelineI`.
    pub fn from_signature(signature: [u8; 12]) -> (vendor: Vendor)
        ensures
            vendor == vendor_of(signature),
    {
        let bytes: &[u8] = signature.as_slice();
        if bytes_are(bytes, "GenuineIntel") {
            Vendor::Intel
        } else if bytes_are(bytes, "AuthenticAMD") {
            Vendor::Amd
        } else if bytes_are(bytes, "  Shanghai  ") {
            Vendor::Zhaoxin
        } else if bytes_are(bytes, "CentaurHauls") {
            Vendor::Centaur
        } else {
            Vendor::Other(signature)
        }
    }

    /// Whether `text` is this vendor's signature as written: the known one,
    /// or the raw bytes where they are text and a question mark where not.
    pub open spec fn written(self, text: Seq<char>) -> bool {
        match self {
            Vendor::Intel => text == "GenuineIntel"@,
            Vendor::Amd => text == "AuthenticAMD"@,
            Vendor::Zhaoxin => text == "  Shanghai  "@,
            Vendor::Centaur => text == "CentaurHauls"@,
            Vendor::Other(raw) => if vstd::utf8::valid_utf8(raw@) {
                vstd::utf8::encode_utf8(text) == raw@
            } else {
                text == "?"@
            },
        }
    }

    /// The signature as written, for display.
    pub fn as_str(&self) -> (text: &str)
        ensures
            self.written(text@),
    {
        match self {
            Vendor::Intel => "GenuineIntel",
            Vendor::Amd => "AuthenticAMD",
            Vendor::Zhaoxin => "  Shanghai  ",
            Vendor::Centaur => "CentaurHauls",
            Vendor::Other(raw) => match utf8_text(raw.as_slice()) {
                Some(text) => text,
                None => "?",
            },
        }
    }

    /// This vendor's readable name.
    pub open spec fn readable(self) -> Seq<char> {
        match self {
            Vendor::Intel => "Intel"@,
            Vendor::Amd => "AMD"@,
            Vendor::Zhaoxin => "Zhaoxin"@,
            Vendor::Centaur => "VIA/Centaur"@,
            Vendor::Other(_) => "unknown"@,
        }
    }

    /// A readable name.
    pub fn name(&self) -> (name: &'static str)
        ensures
            name@ == self.readable(),
    {
        match self {
            Vendor::Intel => "Intel",
            Vendor::Amd => "AMD",
            Vendor::Zhaoxin => "Zhaoxin",
            Vendor::Centaur => "VIA/Centaur",
            Vendor::Other(_) => "unknown",
        }
    }

    /// Whether `CPUID.15H` and `CPUID.16H` may be believed as a counter rate:
    /// Intel only. Everything else measures instead.
    pub fn states_a_trustworthy_tsc_rate(&self) -> (trusted: bool)
        ensures
            trusted == (self is Intel),
    {
        match self {
            Vendor::Intel => true,
            _ => false,
        }
    }

    /// Whether the part implements the Centaur extended CPUID range.
    pub fn has_centaur_leaves(&self) -> (has: bool)
        ensures
            has == (self is Zhaoxin || self is Centaur),
    {
        match self {
            Vendor::Zhaoxin => true,
            Vendor::Centaur => true,
            _ => false,
        }
    }

    /// Whether this part is Intel-compatible for the architectural PMU: Intel,
    /// Zhaoxin and Centaur are.
    pub fn uses_intel_architectural_pmu(&self) -> (compatible: bool)
        ensures
            compatible == (self is Intel || self is Zhaoxin || self is Centaur),
    {
        match self {
            Vendor::Intel => true,
            Vendor::Zhaoxin => true,
            Vendor::Centaur => true,
            _ => false,
        }
    }
}

/// The bytes of `CPUID.0H` in EBX, EDX, ECX order.
pub open spec fn signature_of(cpu: CpuidTable) -> Seq<u8> {
    crate::bytes::le_bytes(cpu.at(0, 0).ebx) + crate::bytes::le_bytes(cpu.at(0, 0).edx)
        + crate::bytes::le_bytes(cpu.at(0, 0).ecx)
}

/// The raw twelve-byte vendor string of `CPUID.0H`.
pub fn vendor_signature(cpu: &CpuidTable) -> (signature: [u8; 12])
    ensures
        signature@ == signature_of(*cpu),
{
    let r: Registers = cpu.cpuid(0, 0);
    twelve_bytes(r.ebx, r.edx, r.ecx)
}

/// Whether a vendor is the one whose signature a processor answers with.
pub open spec fn made_by(cpu: CpuidTable, vendor: Vendor) -> bool {
    exists|signature: [u8; 12]|
        signature@ == signature_of(cpu) && vendor == #[trigger] vendor_of(signature)
}

/// This processor's vendor.
pub fn vendor(cpu: &CpuidTable) -> (vendor: Vendor)
    ensures
        made_by(*cpu, vendor),
{
    Vendor::from_signature(vendor_signature(cpu))
}

/// The highest Centaur leaf: what leaf `C0000000H` answers where that lies
/// inside the range it describes, zero elsewhere.
pub open spec fn centaur_leaf(cpu: CpuidTable) -> u32 {
    let max = cpu.at(0xC000_0000, 0).eax;
    if 0xC000_0000 <= max <= 0xC000_FFFF {
        max
    } else {
        0
    }
}

/// The highest Centaur extended leaf this part answers, or zero.
pub fn centaur_max_leaf(cpu: &CpuidTable) -> (leaf: u32)
    ensures
        leaf == centaur_leaf(*cpu),
{
    let max: u32 = cpu.cpuid(0xC000_0000, 0).eax;
    if 0xC000_0000 <= max && max <= 0xC000_FFFF {
        max
    } else {
        0
    }
}

/// The bytes of one leaf in register order.
pub open spec fn register_bytes(r: Registers) -> Seq<u8> {
    crate::bytes::le_bytes(r.eax) + crate::bytes::le_bytes(r.ebx) + crate::bytes::le_bytes(r.ecx)
        + crate::bytes::le_bytes(r.edx)
}

/// The forty-eight bytes of the brand string.
pub open spec fn brand_bytes(cpu: CpuidTable) -> Seq<u8> {
    register_bytes(cpu.at(0x8000_0002, 0)) + register_bytes(cpu.at(0x8000_0003, 0))
        + register_bytes(cpu.at(0x8000_0004, 0))
}

fn push_registers(out: &mut Vec<u8>, r: Registers)
    ensures
        final(out)@ == old(out)@ + register_bytes(r),
{
    push_le_bytes(out, r.eax);
    push_le_bytes(out, r.ebx);
    push_le_bytes(out, r.ecx);
    push_le_bytes(out, r.edx);
    assert(out@ =~= old(out)@ + register_bytes(r));
}

/// Tidies a decoded brand string: white space off both ends.
pub fn tidy_brand(text: &str) -> (brand: String)
    ensures
        brand@ == crate::text::trimmed(text@, Trim::Space),
{
    string_of(trim(chars_of(text).as_slice(), Trim::Space))
}

/// The vendor's brand string, where the extended leaves reach it.
pub fn brand_string(cpu: &CpuidTable) -> (brand: Option<String>)
    ensures
        match brand {
            Some(brand) => cpu.at(0x8000_0000, 0).eax >= 0x8000_0004 && brand@
                == crate::text::trimmed(
                crate::bytes::lossy_text(crate::bytes::before_nul(brand_bytes(*cpu))),
                Trim::Space,
            ),
            None => cpu.at(0x8000_0000, 0).eax < 0x8000_0004,
        },
{
    if cpu.cpuid(0x8000_0000, 0).eax < 0x8000_0004 {
        return None;
    }
    let mut bytes: Vec<u8> = Vec::new();
    push_registers(&mut bytes, cpu.cpuid(0x8000_0002, 0));
    push_registers(&mut bytes, cpu.cpuid(0x8000_0003, 0));
    push_registers(&mut bytes, cpu.cpuid(0x8000_0004, 0));
    assert(bytes@ =~= brand_bytes(*cpu));
    let text: String = utf8_lossy(until_nul(bytes.as_slice()));
    Some(tidy_brand(text.as_str()))
}

// ---------------------------------------------------------------------------
// Laws
// ---------------------------------------------------------------------------

/// Without the register state enabled, no wider feature is ever reported:
/// none that needs YMM state without it, none that needs ZMM state without
/// it.
pub proof fn wide_features_need_enabled_state(cpu: CpuidTable)
    ensures
        !ymm_enabled(cpu.enabled_state()) ==> {
            let f = x86_features(cpu);
            !f.avx && !f.avx2 && !f.fma && !f.f16c && !f.avx_vnni && !f.vaes && !f.vpclmulqdq
        },
        !zmm_enabled(cpu.enabled_state()) ==> {
            let f = x86_features(cpu);
            !f.avx512f && !f.avx512bw && !f.avx512vl && !f.avx512vnni
        },
{
}

/// Where the operating system saves ZMM state it saves YMM state as well, so
/// AVX-512 is never reported without the state AVX needs.
pub proof fn zmm_state_holds_ymm_state(xcr0: u64)
    ensures
        zmm_enabled(xcr0) ==> ymm_enabled(xcr0),
{
    assert(xcr0 & 0xE6 == 0xE6 ==> xcr0 & 0x6 == 0x6) by (bit_vector);
}

/// The Windows cross-check on x86 can only ever remove a feature, never add
/// one.
pub proof fn cross_check_only_removes(f: CpuFeatures, w: WindowsX86)
    ensures
        agreed_x86(f, w).within(f),
{
    assert(f == f.spelled_out());
}

/// The Windows cross-check on AArch64 can only ever remove a feature, never
/// add one.
pub proof fn arm_cross_check_only_removes(f: CpuFeatures, w: WindowsArm)
    ensures
        agreed_arm(f, w).within(f),
{
    assert(f == f.spelled_out());
}

/// On PowerPC VSX is never reported without AltiVec, nor the crypto
/// instructions without VSX, whichever way the features were found.
pub proof fn vsx_implies_altivec(hwcap: u64, hwcap2: u64, pvr: u32)
    ensures
        ppc_features(hwcap, hwcap2).vsx ==> ppc_features(hwcap, hwcap2).altivec,
        ppc_features(hwcap, hwcap2).ppc_vec_crypto ==> ppc_features(hwcap, hwcap2).vsx,
        level_features(pvr_level(pvr)).vsx ==> level_features(pvr_level(pvr)).altivec,
        level_features(pvr_level(pvr)).ppc_vec_crypto ==> level_features(pvr_level(pvr)).vsx,
{
}

/// A vendor that is recognised is written as the signature that names it.
pub proof fn known_vendors_round_trip(signature: [u8; 12], text: Seq<char>)
    requires
        !(vendor_of(signature) is Other),
        vendor_of(signature).written(text),
    ensures
        crate::bytes::ascii(text) == signature@,
{
}

/// Every known signature has exactly the twelve characters the registers
/// hold.
pub proof fn known_signatures_fill_the_registers(vendor: Vendor, text: Seq<char>)
    requires
        !(vendor is Other),
        vendor.written(text),
    ensures
        text.len() == 12,
{
    reveal_strlit("GenuineIntel");
    reveal_strlit("AuthenticAMD");
    reveal_strlit("  Shanghai  ");
    reveal_strlit("CentaurHauls");
}

} // verus!
