//! What a processor is said to have, and by which bits it says so.
use crate::arch::x86::{CpuidTable, Registers};
use crate::cpu::{
    signature_of, vendor_of, ymm_enabled, zmm_enabled, CpuEvidence, CpuFeatures, HostedArm,
    IdRegisters, Vendor, WindowsX86,
};
use crate::hypercall_hal::{defined_by, HypercallInsn};
use crate::laws::{holds, lemma_bit32, lemma_bit64, lemma_spells, spells};
use vstd::arithmetic::power2::*;
use vstd::prelude::*;

verus! {

// ---------------------------------------------------------------------------
// x86
// ---------------------------------------------------------------------------
/// The features that CPUID shows by themselves.
pub open spec fn shown_by_cpuid(cpu: CpuidTable) -> CpuFeatures {
    CpuEvidence::X86 { cpuid: cpu, windows: None }.shown()
}

/// Leaf 1 says which of the older extensions there are, each by one bit of EDX
/// or ECX; those that need no wider registers are there by that bit alone.
pub proof fn leaf_one_shows_the_old_extensions(cpu: CpuidTable)
    requires
        cpu.at(0, 0).eax >= 1,
    ensures
        ({
            let f = shown_by_cpuid(cpu);
            let ecx = cpu.at(1, 0).ecx as int;
            let edx = cpu.at(1, 0).edx as int;
            &&& f.mmx <==> holds(edx, 0x80_0000)
            &&& f.sse <==> holds(edx, 0x200_0000)
            &&& f.sse2 <==> holds(edx, 0x400_0000)
            &&& f.sse3 <==> holds(ecx, 1)
            &&& f.pclmulqdq <==> holds(ecx, 2)
            &&& f.ssse3 <==> holds(ecx, 0x200)
            &&& f.sse41 <==> holds(ecx, 0x8_0000)
            &&& f.sse42 <==> holds(ecx, 0x10_0000)
            &&& f.aesni <==> holds(ecx, 0x200_0000)
        }),
{
    let ecx = cpu.at(1, 0).ecx;
    let edx = cpu.at(1, 0).edx;
    lemma2_to64();
    lemma_bit32(edx, 23);
    lemma_bit32(edx, 25);
    lemma_bit32(edx, 26);
    lemma_bit32(ecx, 0);
    lemma_bit32(ecx, 1);
    lemma_bit32(ecx, 9);
    lemma_bit32(ecx, 19);
    lemma_bit32(ecx, 20);
    lemma_bit32(ecx, 25);
}

/// The system saves the 256-bit registers where it has turned XSAVE on (leaf
/// 1, ECX bit 27) and enabled bits 1 and 2 of XCR0, and the 512-bit ones where
/// bits 5, 6 and 7 are enabled as well.
pub proof fn wide_registers_are_saved_by_xcr0(cpu: CpuidTable)
    ensures
        ({
            let xcr0 = cpu.xcr0 as int;
            let on = holds(cpu.at(1, 0).ecx as int, 0x800_0000);
            let wide = on && holds(xcr0, 2) && holds(xcr0, 4);
            &&& ymm_enabled(cpu.enabled_state()) <==> wide
            &&& zmm_enabled(cpu.enabled_state()) <==> wide && holds(xcr0, 0x20) && holds(xcr0, 0x40)
                && holds(xcr0, 0x80)
        }),
{
    lemma2_to64();
    lemma_bit32(cpu.at(1, 0).ecx, 27);
    let x = cpu.xcr0;
    assert((x & 0x6 == 0x6 <==> x / 2 % 2 == 1 && x / 4 % 2 == 1) && (x & 0xE6 == 0xE6 <==> x / 2 % 2
        == 1 && x / 4 % 2 == 1 && x / 0x20 % 2 == 1 && x / 0x40 % 2 == 1 && x / 0x80 % 2 == 1)
        && 0u64 & 0x6 == 0 && 0u64 & 0xE6 == 0) by (bit_vector);
}

/// What needs the 256-bit registers is there by its bit only where the system
/// saves them.
pub proof fn wide_extensions_need_saved_registers(cpu: CpuidTable)
    requires
        cpu.at(0, 0).eax >= 7,
    ensures
        ({
            let f = shown_by_cpuid(cpu);
            let wide = ymm_enabled(cpu.enabled_state());
            let ecx = cpu.at(1, 0).ecx as int;
            let ebx7 = cpu.at(7, 0).ebx as int;
            let ecx7 = cpu.at(7, 0).ecx as int;
            &&& f.fma <==> wide && holds(ecx, 0x1000)
            &&& f.avx <==> wide && holds(ecx, 0x1000_0000)
            &&& f.f16c <==> wide && holds(ecx, 0x2000_0000)
            &&& f.avx2 <==> wide && holds(ebx7, 0x20)
            &&& f.vaes <==> wide && holds(ecx7, 0x200)
            &&& f.vpclmulqdq <==> wide && holds(ecx7, 0x400)
            &&& f.avx_vnni <==> wide && holds(ebx7, 0x20) && cpu.at(7, 0).eax >= 1 && holds(
                cpu.at(7, 1).eax as int,
                0x10,
            )
            &&& f.shani <==> holds(ebx7, 0x2000_0000)
        }),
{
    lemma2_to64();
    lemma_bit32(cpu.at(1, 0).ecx, 12);
    lemma_bit32(cpu.at(1, 0).ecx, 28);
    lemma_bit32(cpu.at(1, 0).ecx, 29);
    lemma_bit32(cpu.at(7, 0).ebx, 5);
    lemma_bit32(cpu.at(7, 0).ebx, 29);
    lemma_bit32(cpu.at(7, 0).ecx, 9);
    lemma_bit32(cpu.at(7, 0).ecx, 10);
    lemma_bit32(cpu.at(7, 1).eax, 4);
}

/// What needs the 512-bit registers is there by its bit of leaf 7 only where
/// the system saves them.
pub proof fn the_widest_extensions_need_saved_registers(cpu: CpuidTable)
    requires
        cpu.at(0, 0).eax >= 7,
    ensures
        ({
            let f = shown_by_cpuid(cpu);
            let widest = zmm_enabled(cpu.enabled_state());
            let ebx7 = cpu.at(7, 0).ebx as int;
            let ecx7 = cpu.at(7, 0).ecx as int;
            &&& f.avx512f <==> widest && holds(ebx7, 0x1_0000)
            &&& f.avx512bw <==> widest && holds(ebx7, 0x4000_0000)
            &&& f.avx512vl <==> widest && holds(ebx7, 0x8000_0000)
            &&& f.avx512vnni <==> widest && holds(ecx7, 0x800)
        }),
{
    lemma2_to64();
    lemma_bit32(cpu.at(7, 0).ebx, 16);
    lemma_bit32(cpu.at(7, 0).ebx, 30);
    lemma_bit32(cpu.at(7, 0).ebx, 31);
    lemma_bit32(cpu.at(7, 0).ecx, 11);
}

/// A leaf that the processor does not reach shows nothing, and the counter is
/// invariant by bit 8 of EDX in the leaf for it, where the extended leaves
/// reach that. Nothing of another architecture is ever shown.
pub proof fn unreached_leaves_show_nothing(cpu: CpuidTable)
    ensures
        ({
            let f = shown_by_cpuid(cpu);
            let max = cpu.at(0, 0).eax;
            &&& max < 1 ==> f == CpuFeatures::none()
            &&& max < 7 ==> !f.avx2 && !f.shani && !f.avx512f && !f.avx512bw && !f.avx512vl && !f.vaes
                && !f.vpclmulqdq && !f.avx512vnni && !f.avx_vnni
            &&& max >= 1 ==> (f.invariant_counter <==> cpu.at(0x8000_0000, 0).eax >= 0x8000_0007
                && holds(cpu.at(0x8000_0007, 0).edx as int, 0x100))
            &&& !f.neon && !f.sve && !f.sve2 && !f.sme && !f.arm_aes && !f.arm_sha2
            &&& !f.altivec && !f.vsx && !f.ppc_isa207 && !f.ppc_isa300 && !f.ppc_isa31
                && !f.ppc_vec_crypto && !f.rvv
        }),
{
    lemma2_to64();
    lemma_bit32(cpu.at(0x8000_0007, 0).edx, 8);
}

/// What Windows denies is gone: each of the extensions that it is asked about
/// goes with its own answer, every 512-bit one with AVX-512's, and what works
/// in AVX registers with AVX's. What it is not asked about stays.
pub proof fn what_windows_denies_is_gone(cpu: CpuidTable, w: WindowsX86)
    ensures
        ({
            let f = shown_by_cpuid(cpu);
            let left = CpuEvidence::X86 { cpuid: cpu, windows: Some(w) }.shown();
            &&& left.sse <==> f.sse && w.xmmi
            &&& left.sse2 <==> f.sse2 && w.xmmi64
            &&& left.sse3 <==> f.sse3 && w.sse3
            &&& left.avx <==> f.avx && w.avx
            &&& left.avx2 <==> f.avx2 && w.avx2
            &&& left.avx512f <==> f.avx512f && w.avx512f
            &&& left.avx512bw <==> f.avx512bw && w.avx512f
            &&& left.avx512vl <==> f.avx512vl && w.avx512f
            &&& left.avx512vnni <==> f.avx512vnni && w.avx512f
            &&& left.f16c <==> f.f16c && f.avx && w.avx
            &&& left.fma <==> f.fma && f.avx && w.avx
            &&& left.avx_vnni <==> f.avx_vnni && f.avx && w.avx
            &&& left.vaes <==> f.vaes && f.avx && w.avx
            &&& left.vpclmulqdq <==> f.vpclmulqdq && f.avx && w.avx
            &&& left.mmx == f.mmx && left.ssse3 == f.ssse3 && left.sse41 == f.sse41 && left.sse42
                == f.sse42
            &&& left.aesni == f.aesni && left.pclmulqdq == f.pclmulqdq && left.shani == f.shani
                && left.invariant_counter == f.invariant_counter
        }),
{
}

// ---------------------------------------------------------------------------
// PowerPC
// ---------------------------------------------------------------------------
/// The kernel's two words show a PowerPC unit each by one bit; VSX needs
/// AltiVec, and the crypto instructions need VSX.
pub proof fn powerpc_units_are_shown_by_the_kernel(hwcap: u64, hwcap2: u64)
    ensures
        ({
            let f = CpuEvidence::Powerpc { hwcap, hwcap2 }.shown();
            &&& f.altivec <==> holds(hwcap as int, 0x1000_0000)
            &&& f.vsx <==> f.altivec && holds(hwcap as int, 0x80)
            &&& f.ppc_isa207 <==> holds(hwcap2 as int, 0x8000_0000)
            &&& f.ppc_isa300 <==> holds(hwcap2 as int, 0x80_0000)
            &&& f.ppc_isa31 <==> holds(hwcap2 as int, 0x4_0000)
            &&& f.ppc_vec_crypto <==> f.vsx && holds(hwcap2 as int, 0x200_0000)
            &&& f.invariant_counter
            &&& !f.neon && !f.sse2 && !f.avx && !f.rvv
        }),
{
    assert((hwcap & 0x1000_0000 != 0 <==> hwcap / 0x1000_0000 % 2 == 1) && (hwcap & 0x80 != 0 <==>
        hwcap / 0x80 % 2 == 1) && (hwcap2 & 0x8000_0000 != 0 <==> hwcap2 / 0x8000_0000 % 2 == 1)
        && (hwcap2 & 0x80_0000 != 0 <==> hwcap2 / 0x80_0000 % 2 == 1) && (hwcap2 & 0x4_0000 != 0
        <==> hwcap2 / 0x4_0000 % 2 == 1) && (hwcap2 & 0x200_0000 != 0 <==> hwcap2 / 0x200_0000 % 2
        == 1)) by (bit_vector);
}

/// A version register names its core in its upper half, whatever the revision
/// below: POWER7 has VSX, POWER8 ISA 2.07 and its crypto instructions, POWER9
/// ISA 3.0, POWER10 and POWER11 ISA 3.1, each with what came before; the older
/// vector cores AltiVec alone.
pub proof fn a_core_is_known_by_its_version(pvr: u32, version: int, revision: int)
    requires
        0 <= revision < 0x1_0000,
        0 <= version,
        pvr == version * 0x1_0000 + revision,
    ensures
        ({
            let f = CpuEvidence::PowerpcPvr(pvr).shown();
            let power7 = version == 0x3F || version == 0x4A;
            let power8 = version == 0x4B || version == 0x4C || version == 0x4D;
            let power9 = version == 0x4E;
            let power10 = version == 0x80 || version == 0x82;
            let older = version == 0x0C || version == 0x800C || version == 0x8000 || version
                == 0x8001 || version == 0x8002 || version == 0x8003 || version == 0x8004 || version
                == 0x39 || version == 0x3C || version == 0x44 || version == 0x45 || version == 0x70
                || version == 0x3E || version == 0x8040;
            &&& f.altivec <==> older || power7 || power8 || power9 || power10
            &&& f.vsx <==> power7 || power8 || power9 || power10
            &&& f.ppc_isa207 <==> power8 || power9 || power10
            &&& f.ppc_vec_crypto <==> power8 || power9 || power10
            &&& f.ppc_isa300 <==> power9 || power10
            &&& f.ppc_isa31 <==> power10
            &&& f.invariant_counter
            &&& !f.neon && !f.sse2 && !f.avx && !f.rvv
        }),
{
    assert(pvr / 0x1_0000 == version);
}

// ---------------------------------------------------------------------------
// ARM and RISC-V
// ---------------------------------------------------------------------------
proof fn lemma_id_field(register: u64, shift: u64)
    requires
        shift == 0 || shift == 4 || shift == 12 || shift == 24 || shift == 32,
    ensures
        shift == 0 ==> crate::cpu::id_field(register, shift) == register % 16,
        shift == 4 ==> crate::cpu::id_field(register, shift) == register / 0x10 % 16,
        shift == 12 ==> crate::cpu::id_field(register, shift) == register / 0x1000 % 16,
        shift == 24 ==> crate::cpu::id_field(register, shift) == register / 0x100_0000 % 16,
        shift == 32 ==> crate::cpu::id_field(register, shift) == register / 0x1_0000_0000 % 16,
{
    assert((register >> 0u64) & 0xF == register % 16 && (register >> 4u64) & 0xF == register / 0x10
        % 16 && (register >> 12u64) & 0xF == register / 0x1000 % 16 && (register >> 24u64) & 0xF
        == register / 0x100_0000 % 16 && (register >> 32u64) & 0xF == register / 0x1_0000_0000 % 16)
        by (bit_vector);
}

/// The ID registers show an AArch64 unit by a field of four bits: AES and the
/// polynomial multiply behind it at bit 4 of ISAR0, SHA-2 at bit 12, SVE at bit
/// 32 of PFR0, SME at bit 24 of PFR1; and SVE2 at the foot of ZFR0, where there
/// is SVE.
pub proof fn id_registers_show_units_by_fields(r: IdRegisters)
    ensures
        ({
            let f = CpuEvidence::Aarch64Registers(r).shown();
            &&& f.neon && f.invariant_counter
            &&& f.arm_aes <==> r.isar0 / 0x10 % 16 >= 1
            &&& f.pclmulqdq <==> r.isar0 / 0x10 % 16 >= 2
            &&& f.arm_sha2 <==> r.isar0 / 0x1000 % 16 >= 1
            &&& f.sve <==> r.pfr0 / 0x1_0000_0000 % 16 >= 1
            &&& f.sve2 <==> f.sve && r.zfr0 % 16 >= 1
            &&& f.sme <==> r.pfr1 / 0x100_0000 % 16 >= 1
            &&& !f.sse2 && !f.avx && !f.altivec && !f.vsx && !f.rvv
        }),
{
    lemma_id_field(r.isar0, 4);
    lemma_id_field(r.isar0, 12);
    lemma_id_field(r.pfr0, 32);
    lemma_id_field(r.zfr0, 0);
    lemma_id_field(r.pfr1, 24);
}

/// Under a system an AArch64 core has what the system reports of it; SME by
/// bit 23 of the second capability word, unless Apple's buffer says. Apple can
/// add AES, SHA-2 and the polynomial multiply; Windows can deny NEON, and AES
/// with SHA-2.
pub proof fn a_hosted_core_has_what_is_reported(h: HostedArm)
    ensures
        ({
            let f = CpuEvidence::Aarch64(h).shown();
            let aes = h.aes || (h.apple matches Some(a) && a.aes);
            let sha2 = h.sha2 || (h.apple matches Some(a) && a.sha256);
            &&& f.neon <==> (h.windows matches Some(w) ==> w.vfp32)
            &&& f.arm_aes <==> aes && (h.windows matches Some(w) ==> w.crypto)
            &&& f.arm_sha2 <==> sha2 && (h.windows matches Some(w) ==> w.crypto)
            &&& f.pclmulqdq <==> h.pmull || (h.apple matches Some(a) && a.pmull)
            &&& f.sve == h.sve && f.sve2 == h.sve2
            &&& f.sme <==> match h.apple {
                Some(a) => a.sme,
                None => holds(h.hwcap2 as int, 0x80_0000),
            }
            &&& f.invariant_counter
            &&& !f.sse2 && !f.avx && !f.altivec && !f.vsx && !f.rvv
        }),
{
    lemma2_to64();
    lemma_bit64(h.hwcap2, 23);
}

/// A RISC-V hart has vectors by the bit of its letter, or by the device tree's
/// word; a 32-bit ARM core has NEON by bit 12.
pub proof fn letters_and_bits_show_vectors(hwcap: u64, vector: bool)
    ensures
        (CpuEvidence::Riscv { hwcap }).shown() == (CpuFeatures {
            rvv: holds(hwcap as int, 0x20_0000),
            invariant_counter: true,
            ..CpuFeatures::none()
        }),
        (CpuEvidence::RiscvDeviceTree { vector }).shown() == (CpuFeatures {
            rvv: vector,
            invariant_counter: true,
            ..CpuFeatures::none()
        }),
        (CpuEvidence::Arm32 { hwcap }).shown() == (CpuFeatures {
            neon: holds(hwcap as int, 0x1000),
            invariant_counter: true,
            ..CpuFeatures::none()
        }),
        CpuEvidence::Other.shown() == CpuFeatures::none(),
{
    lemma2_to64();
    lemma_bit64(hwcap, 21);
    assert(hwcap & 0x1000 != 0 <==> hwcap / 0x1000 % 2 == 1) by (bit_vector);
}

// ---------------------------------------------------------------------------
// Vendors
// ---------------------------------------------------------------------------
/// A text of twelve characters is spelled by EBX, EDX and ECX, in this order,
/// each low byte first.
pub open spec fn vendor_spells(r: Registers, text: Seq<char>) -> bool {
    &&& text.len() == 12
    &&& (r.ebx % 0x100) as int == text[0] as int
    &&& (r.ebx / 0x100 % 0x100) as int == text[1] as int
    &&& (r.ebx / 0x1_0000 % 0x100) as int == text[2] as int
    &&& (r.ebx / 0x100_0000) as int == text[3] as int
    &&& (r.edx % 0x100) as int == text[4] as int
    &&& (r.edx / 0x100 % 0x100) as int == text[5] as int
    &&& (r.edx / 0x1_0000 % 0x100) as int == text[6] as int
    &&& (r.edx / 0x100_0000) as int == text[7] as int
    &&& (r.ecx % 0x100) as int == text[8] as int
    &&& (r.ecx / 0x100 % 0x100) as int == text[9] as int
    &&& (r.ecx / 0x1_0000 % 0x100) as int == text[10] as int
    &&& (r.ecx / 0x100_0000) as int == text[11] as int
}

/// Whether a text is twelve ASCII characters.
spec fn plain(text: Seq<char>) -> bool {
    text.len() == 12 && forall|i: int| 0 <= i < text.len() ==> (#[trigger] text[i]) as int <= 127
}

proof fn lemma_plain()
    ensures
        plain("GenuineIntel"@),
        plain("AuthenticAMD"@),
        plain("  Shanghai  "@),
        plain("CentaurHauls"@),
        plain("HygonGenuine"@),
        "GenuineIntel"@[0] == 'G',
        "AuthenticAMD"@[0] == 'A',
        "  Shanghai  "@[0] == ' ',
        "CentaurHauls"@[0] == 'C',
        "HygonGenuine"@[0] == 'H',
{
    reveal_strlit("GenuineIntel");
    reveal_strlit("AuthenticAMD");
    reveal_strlit("  Shanghai  ");
    reveal_strlit("CentaurHauls");
    reveal_strlit("HygonGenuine");
}

/// The vendor's bytes are read in the order EBX, EDX, ECX.
pub proof fn the_vendor_is_read_from_three_registers(cpu: CpuidTable, text: Seq<char>)
    requires
        text.len() == 12,
    ensures
        spells(signature_of(cpu), text) <==> vendor_spells(cpu.at(0, 0), text),
{
    let s = signature_of(cpu);
    let r = cpu.at(0, 0);
    assert(s.len() == 12);
    assert(s[0] == (r.ebx % 0x100) as u8);
    assert(s[1] == (r.ebx / 0x100 % 0x100) as u8);
    assert(s[2] == (r.ebx / 0x1_0000 % 0x100) as u8);
    assert(s[3] == (r.ebx / 0x100_0000) as u8);
    assert(s[4] == (r.edx % 0x100) as u8);
    assert(s[5] == (r.edx / 0x100 % 0x100) as u8);
    assert(s[6] == (r.edx / 0x1_0000 % 0x100) as u8);
    assert(s[7] == (r.edx / 0x100_0000) as u8);
    assert(s[8] == (r.ecx % 0x100) as u8);
    assert(s[9] == (r.ecx / 0x100 % 0x100) as u8);
    assert(s[10] == (r.ecx / 0x1_0000 % 0x100) as u8);
    assert(s[11] == (r.ecx / 0x100_0000) as u8);
    if vendor_spells(r, text) {
        assert forall|i: int| 0 <= i < text.len() implies (#[trigger] s[i]) as int
            == text[i] as int by {
            if i == 0 || i == 1 || i == 2 || i == 3 || i == 4 || i == 5 {
            } else if i == 6 || i == 7 || i == 8 || i == 9 || i == 10 {
            } else {
                assert(i == 11);
            }
        }
    }
}

/// Each vendor is known by its own twelve bytes and by no others.
pub proof fn each_vendor_is_known_by_its_own_name(signature: [u8; 12])
    ensures
        vendor_of(signature) is Intel <==> spells(signature@, "GenuineIntel"@),
        vendor_of(signature) is Amd <==> spells(signature@, "AuthenticAMD"@),
        vendor_of(signature) is Zhaoxin <==> spells(signature@, "  Shanghai  "@),
        vendor_of(signature) is Centaur <==> spells(signature@, "CentaurHauls"@),
        vendor_of(signature) matches Vendor::Other(raw) ==> raw == signature,
{
    lemma_plain();
    lemma_spells(signature@, "GenuineIntel"@);
    lemma_spells(signature@, "AuthenticAMD"@);
    lemma_spells(signature@, "  Shanghai  "@);
    lemma_spells(signature@, "CentaurHauls"@);
    if signature@.len() == 12 {
        assert(signature@[0] as int >= 0);
    }
}

/// The vendors that follow Intel's virtualization are called with `vmcall`,
/// those that follow AMD's with `vmmcall`, and no other is called at all.
pub proof fn each_vendor_has_its_own_hypercall(signature: Seq<u8>)
    ensures
        defined_by(signature) == Some(HypercallInsn::Vmcall) <==> spells(
            signature,
            "GenuineIntel"@,
        ) || spells(signature, "  Shanghai  "@) || spells(signature, "CentaurHauls"@),
        defined_by(signature) == Some(HypercallInsn::Vmmcall) <==> spells(
            signature,
            "AuthenticAMD"@,
        ) || spells(signature, "HygonGenuine"@),
        HypercallInsn::Vmcall.mnemonic() == "vmcall"@,
        HypercallInsn::Vmmcall.mnemonic() == "vmmcall"@,
{
    lemma_plain();
    lemma_spells(signature, "GenuineIntel"@);
    lemma_spells(signature, "AuthenticAMD"@);
    lemma_spells(signature, "  Shanghai  "@);
    lemma_spells(signature, "CentaurHauls"@);
    lemma_spells(signature, "HygonGenuine"@);
    if signature.len() == 12 {
        assert(signature[0] as int >= 0);
    }
}

/// A counter rate that CPUID states is believed of Intel only; the extended
/// range is Zhaoxin's and its forerunner's; and these two count as Intel does.
pub proof fn what_a_vendor_is_trusted_with(vendor: Vendor, trusted: bool, has: bool, like: bool)
    requires
        call_ensures(Vendor::states_a_trustworthy_tsc_rate, (&vendor,), trusted),
        call_ensures(Vendor::has_centaur_leaves, (&vendor,), has),
        call_ensures(Vendor::uses_intel_architectural_pmu, (&vendor,), like),
    ensures
        trusted <==> vendor is Intel,
        has <==> vendor is Zhaoxin || vendor is Centaur,
        like <==> !(vendor is Amd) && !(vendor is Other),
{
}

/// Vendors are shown by their common names.
pub proof fn vendors_are_shown_by_name()
    ensures
        Vendor::Intel.readable() == "Intel"@,
        Vendor::Amd.readable() == "AMD"@,
        Vendor::Zhaoxin.readable() == "Zhaoxin"@,
        Vendor::Centaur.readable() == "VIA/Centaur"@,
        forall|raw: [u8; 12]| #[trigger] Vendor::Other(raw).readable() == "unknown"@,
{
}

/// The Centaur range is believed where it reaches into itself.
pub proof fn the_centaur_range_begins_at_c(cpu: CpuidTable)
    ensures
        ({
            let top = cpu.at(0xC000_0000, 0).eax;
            &&& top / 0x1_0000 == 0xC000 ==> crate::cpu::centaur_leaf(cpu) == top
            &&& top / 0x1_0000 != 0xC000 ==> crate::cpu::centaur_leaf(cpu) == 0
        }),
{
}

/// A leaf is read in the order EAX, EBX, ECX, EDX, each low byte first.
pub proof fn a_leaf_is_read_in_register_order(r: Registers)
    ensures
        crate::cpu::register_bytes(r) == seq![
            (r.eax % 0x100) as u8,
            (r.eax / 0x100 % 0x100) as u8,
            (r.eax / 0x1_0000 % 0x100) as u8,
            (r.eax / 0x100_0000) as u8,
            (r.ebx % 0x100) as u8,
            (r.ebx / 0x100 % 0x100) as u8,
            (r.ebx / 0x1_0000 % 0x100) as u8,
            (r.ebx / 0x100_0000) as u8,
            (r.ecx % 0x100) as u8,
            (r.ecx / 0x100 % 0x100) as u8,
            (r.ecx / 0x1_0000 % 0x100) as u8,
            (r.ecx / 0x100_0000) as u8,
            (r.edx % 0x100) as u8,
            (r.edx / 0x100 % 0x100) as u8,
            (r.edx / 0x1_0000 % 0x100) as u8,
            (r.edx / 0x100_0000) as u8,
        ],
{
}

/// The brand is read from three leaves in a row.
pub proof fn the_brand_is_read_from_three_leaves(cpu: CpuidTable)
    ensures
        ({
            let brand = crate::cpu::brand_bytes(cpu);
            &&& brand.len() == 48
            &&& brand.subrange(0, 16) == crate::cpu::register_bytes(cpu.at(0x8000_0002, 0))
            &&& brand.subrange(16, 32) == crate::cpu::register_bytes(cpu.at(0x8000_0003, 0))
            &&& brand.subrange(32, 48) == crate::cpu::register_bytes(cpu.at(0x8000_0004, 0))
        }),
{
    let brand = crate::cpu::brand_bytes(cpu);
    let first = crate::cpu::register_bytes(cpu.at(0x8000_0002, 0));
    let second = crate::cpu::register_bytes(cpu.at(0x8000_0003, 0));
    let third = crate::cpu::register_bytes(cpu.at(0x8000_0004, 0));
    assert(first.len() == 16 && second.len() == 16 && third.len() == 16);
    assert(brand.subrange(0, 16) =~= first);
    assert(brand.subrange(16, 32) =~= second);
    assert(brand.subrange(32, 48) =~= third);
}

} // verus!
