//! What the kernel with no system under it reports of itself.
//!
//! The hardware is read elsewhere; here the findings become lines. What is
//! missing is said as plainly as what is there, because on such a machine the
//! log is all there is to tell a part without a feature from a driver that
//! gave up.
use crate::acpi_report::{report_acpi_namespace, AcpiFacts};
use crate::arch::insn::between;
use crate::arch::x86::{xcr0_safe, CpuidTable};
use crate::arch::Arch;
use crate::backend::Backend;
use crate::bytes::test32;
use crate::cpu::{centaur_max_leaf, vendor, CpuFeatures, Vendor};
use crate::hypercall_hal::HypercallInsn;
use crate::machine::{Machine, Target};
use crate::text::{
    push_decimal, push_hex, push_hex_0x, push_padded_right, push_text, push_two_digits,
};
use vstd::prelude::*;

verus! {

/// A truth value as an answer.
pub open spec fn answer(v: bool) -> Seq<char> {
    if v {
        "yes"@
    } else {
        "no"@
    }
}

/// A truth value as an answer.
pub fn yes_no(v: bool) -> (text: &'static str)
    ensures
        text@ == answer(v),
{
    if v {
        "yes"
    } else {
        "no"
    }
}

fn truth(v: bool) -> (text: &'static str)
    ensures
        text@ == crate::dispatch::bool_text(v),
{
    if v {
        "true"
    } else {
        "false"
    }
}

/// `out` with a label and a truth value.
pub open spec fn with_truth(out: Seq<char>, label: Seq<char>, v: bool) -> Seq<char> {
    out + label + crate::dispatch::bool_text(v)
}

fn push_truth(out: &mut String, label: &str, v: bool)
    ensures
        final(out)@ == with_truth(old(out)@, label@, v),
{
    push_text(out, label);
    push_text(out, truth(v));
}

/// `out` with a label, a text and the end of the line.
pub open spec fn with_line(out: Seq<char>, label: Seq<char>, value: Seq<char>) -> Seq<char> {
    out + label + value + "\n"@
}

fn push_line(out: &mut String, label: &str, value: &str)
    ensures
        final(out)@ == with_line(old(out)@, label@, value@),
{
    push_text(out, label);
    push_text(out, value);
    push_text(out, "\n");
}

/// `out` with a label, a number and what stands behind it.
pub open spec fn with_number(out: Seq<char>, label: Seq<char>, n: int, rest: Seq<char>) -> Seq<
    char,
> {
    out + label + crate::text::decimal(n) + rest
}

fn push_number(out: &mut String, label: &str, n: u64, rest: &str)
    ensures
        final(out)@ == with_number(old(out)@, label@, n as int, rest@),
{
    push_text(out, label);
    push_decimal(out, n);
    push_text(out, rest);
}

/// `out` with a label, a number in hexadecimal and what stands behind it.
pub open spec fn with_hex(out: Seq<char>, label: Seq<char>, n: int, rest: Seq<char>) -> Seq<char> {
    out + label + crate::text::hex_0x(n) + rest
}

fn push_labelled_hex(out: &mut String, label: &str, n: u64, rest: &str)
    ensures
        final(out)@ == with_hex(old(out)@, label@, n as int, rest@),
{
    push_text(out, label);
    push_hex_0x(out, n);
    push_text(out, rest);
}

/// What the report begins with: the version and the processor family.
pub open spec fn banner_text(out: Seq<char>, version: Seq<char>, target: Target) -> Seq<char> {
    out + "NanoChronometer "@ + version + " — freestanding\narch: "@ + Arch::family(
        target.machine,
    ).label(target) + "\n\n"@
}

/// Writes what the report begins with.
pub fn write_banner(out: &mut String, version: &str, target: &Target)
    ensures
        final(out)@ == banner_text(old(out)@, version@, *target),
{
    push_text(out, "NanoChronometer ");
    push_text(out, version);
    push_text(out, " — freestanding\narch: ");
    push_text(out, Arch::of(target.machine).name(target));
    push_text(out, "\n\n");
}

// ---------------------------------------------------------------------------
// The processor
// ---------------------------------------------------------------------------

/// What each family has to show beside its features.
#[derive(Debug)]
pub enum FamilyFacts {
    X86 { cpuid: CpuidTable },
    Aarch64 { exception_level: u64, mmu: bool },
    Arm,
    RiscV {
        sstatus: u64,
        firmware: String,
        firmware_version: u64,
        firmware_spec: u64,
        cycle: bool,
        instret: bool,
    },
    PowerPc { core: String, pvr: u32, msr: u64, fp: bool, vec: bool, vsx: bool, hypervisor: bool },
    Other,
}

/// What is reported of the processor.
#[derive(Debug)]
pub struct CpuFacts {
    pub target: Target,
    pub features: CpuFeatures,
    pub irq_register: String,
    pub irq_outcome: String,
    pub family: FamilyFacts,
}

/// The lines of an x86 processor. The vendor decides whether its stated
/// counter rate may be believed, and what is enabled is set beside what is
/// advertised, so that a mismatch shows.
pub open spec fn with_x86(
    out: Seq<char>,
    f: CpuFeatures,
    cpuid: CpuidTable,
    vendor: Vendor,
    written: Seq<char>,
) -> Seq<char> {
    let named = out + "  vendor         : "@ + vendor.readable() + " ("@ + written + ")\n"@;
    let leaf = crate::cpu::centaur_leaf(cpuid);
    let leaves = if leaf != 0 {
        with_hex(named, "  centaur leaves : up to "@, leaf as int, "\n"@)
    } else {
        named
    };
    let trusted = with_line(
        leaves,
        "  tsc leaves     : "@,
        if vendor is Intel {
            "CPUID.15H/16H trusted (Intel)"@
        } else {
            "not trusted for this vendor; the counter is measured instead"@
        },
    );
    let first = with_truth(
        with_truth(with_truth(trusted, "  sse2="@, f.sse2), " avx="@, f.avx),
        " avx2="@,
        f.avx2,
    );
    let second = with_truth(
        with_truth(with_truth(first, "\n  avx512f="@, f.avx512f), " aesni="@, f.aesni),
        " shani="@,
        f.shani,
    );
    let third = with_truth(second, "\n  invariant tsc="@, f.invariant_counter);
    let state = with_hex(
        with_hex(third, "\n  xcr0="@, cpuid.enabled_state() as int, " (supported "@),
        ""@,
        cpuid.at(0x0D, 0).eax as int,
        ")\n"@,
    );
    with_truth(
        with_truth(state, "  cpuid avx512f="@, crate::bytes::bit32(cpuid.at(7, 0).ebx, 16)),
        " osxsave="@,
        crate::bytes::bit32(cpuid.at(1, 0).ecx, 27),
    ) + "\n"@
}

fn push_x86(out: &mut String, f: &CpuFeatures, cpuid: &CpuidTable, vendor: &Vendor)
    ensures
        exists|written: Seq<char>| #[trigger]
            vendor.written(written) && final(out)@ == with_x86(
                old(out)@,
                *f,
                *cpuid,
                *vendor,
                written,
            ),
{
    let written: &str = vendor.as_str();
    push_text(out, "  vendor         : ");
    push_text(out, vendor.name());
    push_text(out, " (");
    push_text(out, written);
    push_text(out, ")\n");
    let leaf: u32 = centaur_max_leaf(cpuid);
    if leaf != 0 {
        push_labelled_hex(out, "  centaur leaves : up to ", leaf as u64, "\n");
    }
    push_line(
        out,
        "  tsc leaves     : ",
        if vendor.states_a_trustworthy_tsc_rate() {
            "CPUID.15H/16H trusted (Intel)"
        } else {
            "not trusted for this vendor; the counter is measured instead"
        },
    );
    push_truth(out, "  sse2=", f.sse2);
    push_truth(out, " avx=", f.avx);
    push_truth(out, " avx2=", f.avx2);
    push_truth(out, "\n  avx512f=", f.avx512f);
    push_truth(out, " aesni=", f.aesni);
    push_truth(out, " shani=", f.shani);
    push_truth(out, "\n  invariant tsc=", f.invariant_counter);
    push_labelled_hex(out, "\n  xcr0=", xcr0_safe(cpuid), " (supported ");
    push_labelled_hex(out, "", cpuid.cpuid(0x0D, 0).eax as u64, ")\n");
    push_truth(out, "  cpuid avx512f=", test32(cpuid.cpuid(7, 0).ebx, 16));
    push_truth(out, " osxsave=", test32(cpuid.cpuid(1, 0).ecx, 27));
    push_text(out, "\n");
    assert(vendor.written(written@));
}

/// The lines of an AArch64 processor.
pub open spec fn with_aarch64(out: Seq<char>, f: CpuFeatures, el: u64, mmu: bool) -> Seq<char> {
    let first = with_truth(
        with_truth(with_truth(out, "  neon="@, f.neon), " sve="@, f.sve),
        " sve2="@,
        f.sve2,
    );
    let second = with_truth(
        with_truth(with_truth(first, "\n  aes="@, f.arm_aes), " sha2="@, f.arm_sha2),
        " sme="@,
        f.sme,
    );
    with_line(
        with_number(second, "\n  el="@, el as int, "\n"@),
        "  mmu            : "@,
        if mmu {
            "on (identity; image normal write-back, the rest device)"@
        } else {
            "off (all memory device-nGnRnE)"@
        },
    )
}

fn push_aarch64(out: &mut String, f: &CpuFeatures, el: u64, mmu: bool)
    ensures
        final(out)@ == with_aarch64(old(out)@, *f, el, mmu),
{
    push_truth(out, "  neon=", f.neon);
    push_truth(out, " sve=", f.sve);
    push_truth(out, " sve2=", f.sve2);
    push_truth(out, "\n  aes=", f.arm_aes);
    push_truth(out, " sha2=", f.arm_sha2);
    push_truth(out, " sme=", f.sme);
    push_number(out, "\n  el=", el, "\n");
    push_line(
        out,
        "  mmu            : ",
        if mmu {
            "on (identity; image normal write-back, the rest device)"
        } else {
            "off (all memory device-nGnRnE)"
        },
    );
}

/// The lines of a RISC-V hart: the states of its register files, the firmware
/// under it, and the counters that firmware lets it read.
pub open spec fn with_riscv(
    out: Seq<char>,
    f: CpuFeatures,
    sstatus: u64,
    firmware: Seq<char>,
    version: u64,
    spec_version: u64,
    cycle: bool,
    instret: bool,
) -> Seq<char> {
    let first = with_hex(
        with_truth(out, "  rvv="@, f.rvv),
        "\n  sstatus="@,
        sstatus as int,
        ""@,
    );
    let second = with_number(
        with_number(first, " fs="@, (sstatus / 0x2000 % 4) as int, ""@),
        " vs="@,
        (sstatus / 0x200 % 4) as int,
        "\n"@,
    );
    let third = with_hex(second + "  sbi            : "@ + firmware, " "@, version as int, ""@);
    let fourth = with_number(
        with_number(third, " (spec "@, (spec_version / 0x100_0000 % 0x80) as int, "."@),
        ""@,
        (spec_version % 0x100_0000) as int,
        ")\n"@,
    );
    with_truth(with_truth(fourth, "  counters       : cycle="@, cycle), " instret="@, instret)
        + " (mcounteren, as firmware left it)\n"@
}

fn push_riscv(
    out: &mut String,
    f: &CpuFeatures,
    sstatus: u64,
    firmware: &str,
    version: u64,
    spec_version: u64,
    cycle: bool,
    instret: bool,
)
    ensures
        final(out)@ == with_riscv(
            old(out)@,
            *f,
            sstatus,
            firmware@,
            version,
            spec_version,
            cycle,
            instret,
        ),
{
    push_truth(out, "  rvv=", f.rvv);
    push_labelled_hex(out, "\n  sstatus=", sstatus, "");
    push_number(out, " fs=", sstatus / 0x2000 % 4, "");
    push_number(out, " vs=", sstatus / 0x200 % 4, "\n");
    push_text(out, "  sbi            : ");
    push_text(out, firmware);
    push_labelled_hex(out, " ", version, "");
    push_number(out, " (spec ", spec_version / 0x100_0000 % 0x80, ".");
    push_number(out, "", spec_version % 0x100_0000, ")\n");
    push_truth(out, "  counters       : cycle=", cycle);
    push_truth(out, " instret=", instret);
    push_text(out, " (mcounteren, as firmware left it)\n");
}

/// The lines of a PowerPC processor.
pub open spec fn with_powerpc(
    out: Seq<char>,
    f: CpuFeatures,
    target: Target,
    core: Seq<char>,
    pvr: u32,
    msr: u64,
    fp: bool,
    vec: bool,
    vsx: bool,
    hypervisor: bool,
) -> Seq<char> {
    let first = with_hex(out + "  core           : "@ + core, " (pvr "@, pvr as int, ")\n"@);
    let second = with_truth(
        with_truth(with_truth(first, "  altivec="@, f.altivec), " vsx="@, f.vsx),
        " vec-crypto="@,
        f.ppc_vec_crypto,
    );
    let third = with_truth(
        with_truth(with_truth(second, "\n  isa 2.07="@, f.ppc_isa207), " 3.0="@, f.ppc_isa300),
        " 3.1="@,
        f.ppc_isa31,
    );
    let fourth = with_truth(
        with_truth(
            with_truth(with_hex(third, "\n  msr="@, msr as int, ""@), " fp="@, fp),
            " vec="@,
            vec,
        ),
        " vsx="@,
        vsx,
    ) + "\n"@;
    let state = if target.machine is PowerPcWide {
        with_line(
            fourth,
            "  state          : "@,
            if hypervisor {
                "hypervisor (bare metal)"@
            } else {
                "supervisor (guest)"@
            },
        )
    } else {
        fourth
    };
    with_line(
        state,
        "  byte order     : "@,
        if target.little_endian {
            "little-endian"@
        } else {
            "big-endian"@
        },
    )
}

fn push_powerpc(
    out: &mut String,
    f: &CpuFeatures,
    target: &Target,
    core: &str,
    pvr: u32,
    msr: u64,
    fp: bool,
    vec: bool,
    vsx: bool,
    hypervisor: bool,
)
    ensures
        final(out)@ == with_powerpc(
            old(out)@,
            *f,
            *target,
            core@,
            pvr,
            msr,
            fp,
            vec,
            vsx,
            hypervisor,
        ),
{
    push_text(out, "  core           : ");
    push_text(out, core);
    push_labelled_hex(out, " (pvr ", pvr as u64, ")\n");
    push_truth(out, "  altivec=", f.altivec);
    push_truth(out, " vsx=", f.vsx);
    push_truth(out, " vec-crypto=", f.ppc_vec_crypto);
    push_truth(out, "\n  isa 2.07=", f.ppc_isa207);
    push_truth(out, " 3.0=", f.ppc_isa300);
    push_truth(out, " 3.1=", f.ppc_isa31);
    push_labelled_hex(out, "\n  msr=", msr, "");
    push_truth(out, " fp=", fp);
    push_truth(out, " vec=", vec);
    push_truth(out, " vsx=", vsx);
    push_text(out, "\n");
    if matches!(target.machine, Machine::PowerPcWide) {
        push_line(
            out,
            "  state          : ",
            if hypervisor {
                "hypervisor (bare metal)"
            } else {
                "supervisor (guest)"
            },
        );
    }
    push_line(
        out,
        "  byte order     : ",
        if target.little_endian {
            "little-endian"
        } else {
            "big-endian"
        },
    );
}

/// The lines of one family. `vendor` is an x86 processor's, `written` how it
/// writes itself.
pub open spec fn with_family(
    out: Seq<char>,
    facts: CpuFacts,
    vendor: Vendor,
    written: Seq<char>,
) -> Seq<char> {
    let f = facts.features;
    match facts.family {
        FamilyFacts::X86 { cpuid } => with_x86(out, f, cpuid, vendor, written),
        FamilyFacts::Aarch64 { exception_level, mmu } => with_aarch64(
            out,
            f,
            exception_level,
            mmu,
        ),
        FamilyFacts::Arm => with_truth(out, "  AArch32 (ARMv7-A)  neon="@, f.neon) + "\n"@,
        FamilyFacts::RiscV {
            sstatus,
            firmware,
            firmware_version,
            firmware_spec,
            cycle,
            instret,
        } => with_riscv(
            out,
            f,
            sstatus,
            firmware@,
            firmware_version,
            firmware_spec,
            cycle,
            instret,
        ),
        FamilyFacts::PowerPc { core, pvr, msr, fp, vec, vsx, hypervisor } => with_powerpc(
            out,
            f,
            facts.target,
            core@,
            pvr,
            msr,
            fp,
            vec,
            vsx,
            hypervisor,
        ),
        FamilyFacts::Other => out,
    }
}

/// The processor's part of the report, with the backend that suits it best.
pub open spec fn cpu_text(
    out: Seq<char>,
    facts: CpuFacts,
    vendor: Vendor,
    written: Seq<char>,
) -> Seq<char> {
    with_line(
        with_family(
            out + "== CPU ==\n  irq priority   : "@ + facts.irq_register@ + " = "@
                + facts.irq_outcome@ + "\n"@,
            facts,
            vendor,
            written,
        ),
        "  backend: "@,
        Backend::widest(facts.features, facts.target).label(),
    ) + "\n"@
}

/// Whether a vendor is the one that an x86 processor's `CPUID` gives, and a
/// text how it writes itself. Another processor has none.
pub open spec fn vendor_writes(facts: CpuFacts, vendor: Vendor, written: Seq<char>) -> bool {
    facts.family matches FamilyFacts::X86 { cpuid } ==> crate::cpu::made_by(cpuid, vendor)
        && vendor.written(written)
}

/// Writes the processor's part of the report, and goes on to the SIMD part.
pub fn report_cpu(out: &mut String, facts: &CpuFacts, probes: &Vec<SimdProbe>)
    ensures
        exists|vendor: Vendor, written: Seq<char>| #[trigger]
            vendor_writes(*facts, vendor, written) && final(out)@ == simd_text(
                cpu_text(old(out)@, *facts, vendor, written),
                facts.target,
                probes@,
            ),
{
    let f: &CpuFeatures = &facts.features;
    push_text(out, "== CPU ==\n  irq priority   : ");
    push_text(out, facts.irq_register.as_str());
    push_text(out, " = ");
    push_text(out, facts.irq_outcome.as_str());
    push_text(out, "\n");
    let ghost head = out@;
    let ghost mut maker = Vendor::Intel;
    let ghost mut written = Seq::<char>::empty();
    match &facts.family {
        FamilyFacts::X86 { cpuid } => {
            let seen: Vendor = vendor(cpuid);
            push_x86(out, f, cpuid, &seen);
            proof {
                maker = seen;
                written = choose|w: Seq<char>| #[trigger]
                    seen.written(w) && out@ == with_x86(head, *f, *cpuid, seen, w);
            }
        },
        FamilyFacts::Aarch64 { exception_level, mmu } => push_aarch64(
            out,
            f,
            *exception_level,
            *mmu,
        ),
        FamilyFacts::Arm => {
            push_truth(out, "  AArch32 (ARMv7-A)  neon=", f.neon);
            push_text(out, "\n");
        },
        FamilyFacts::RiscV {
            sstatus,
            firmware,
            firmware_version,
            firmware_spec,
            cycle,
            instret,
        } => push_riscv(
            out,
            f,
            *sstatus,
            firmware.as_str(),
            *firmware_version,
            *firmware_spec,
            *cycle,
            *instret,
        ),
        FamilyFacts::PowerPc { core, pvr, msr, fp, vec, vsx, hypervisor } => push_powerpc(
            out,
            f,
            &facts.target,
            core.as_str(),
            *pvr,
            *msr,
            *fp,
            *vec,
            *vsx,
            *hypervisor,
        ),
        FamilyFacts::Other => {},
    }
    assert(out@ == with_family(head, *facts, maker, written));
    push_line(out, "  backend: ", Backend::best(f, &facts.target).name());
    push_text(out, "\n");
    assert(vendor_writes(*facts, maker, written));
    report_simd(out, &facts.target, probes);
}

// ---------------------------------------------------------------------------
// SIMD
// ---------------------------------------------------------------------------

/// What probing one available SIMD family gave.
#[derive(Debug)]
pub struct SimdProbe {
    pub name: String,
    /// The units of one vector xor, or `None` where the probe declined.
    pub units: Option<u64>,
}

/// One line for each family that was probed.
pub open spec fn with_probes(out: Seq<char>, probes: Seq<SimdProbe>) -> Seq<char>
    decreases probes.len(),
{
    if probes.len() == 0 {
        out
    } else {
        let p = probes.last();
        let head = with_probes(out, probes.drop_last()) + "  "@ + crate::text::padded_right(
            p.name@,
            12,
        );
        match p.units {
            Some(units) => with_number(head, " xor "@, units as int, " units\n"@),
            None => head + " probe declined\n"@,
        }
    }
}

/// Whether some probe ran.
pub open spec fn any_ran(probes: Seq<SimdProbe>) -> bool {
    exists|i: int| 0 <= i < probes.len() && (#[trigger] probes[i]).units is Some
}

/// The SIMD part of the report, where the probes are built and where they
/// are not.
pub open spec fn simd_text(out: Seq<char>, target: Target, probes: Seq<SimdProbe>) -> Seq<char> {
    if target.simd {
        let rows = with_probes(out + "== SIMD (state enabled by the boot stub) ==\n"@, probes);
        (if any_ran(probes) {
            rows
        } else {
            rows + "  no family available on this CPU\n"@
        }) + "\n"@
    } else {
        let off = out + "== SIMD ==\n  not built: the `simd` feature is off\n"@;
        (if target.machine.x86() {
            off
                + "  (x86_64-unknown-none is soft-float; use x86_64-nanochrono-none)\n"@
        } else {
            off
        }) + "\n"@
    }
}

/// Writes the SIMD part of the report.
pub fn report_simd(out: &mut String, target: &Target, probes: &Vec<SimdProbe>)
    ensures
        final(out)@ == simd_text(old(out)@, *target, probes@),
{
    if !target.simd {
        push_text(out, "== SIMD ==\n  not built: the `simd` feature is off\n");
        if target.machine.is_x86() {
            push_text(
                out,
                "  (x86_64-unknown-none is soft-float; use x86_64-nanochrono-none)\n",
            );
        }
        push_text(out, "\n");
        return;
    }
    push_text(out, "== SIMD (state enabled by the boot stub) ==\n");
    let ghost head = out@;
    let mut ran: bool = false;
    let mut i: usize = 0;
    assert(probes@.take(0) =~= Seq::empty());
    while i < probes.len()
        invariant
            i <= probes.len(),
            ran == any_ran(probes@.take(i as int)),
            out@ == with_probes(head, probes@.take(i as int)),
        decreases probes.len() - i,
    {
        let ghost shorter = probes@.take(i as int);
        let ghost longer = probes@.take(i + 1);
        assert(longer.drop_last() =~= shorter);
        assert(longer.last() == probes@[i as int]);
        push_text(out, "  ");
        push_padded_right(out, probes[i].name.as_str(), 12);
        match probes[i].units {
            Some(units) => {
                push_number(out, " xor ", units, " units\n");
                assert(longer[i as int].units is Some);
                ran = true;
            },
            None => {
                push_text(out, " probe declined\n");
                assert(any_ran(longer) == any_ran(shorter)) by {
                    if any_ran(shorter) {
                        let k = choose|k: int|
                            0 <= k < shorter.len() && (#[trigger] shorter[k]).units is Some;
                        assert(longer[k] == shorter[k]);
                    }
                    if any_ran(longer) {
                        let k = choose|k: int|
                            0 <= k < longer.len() && (#[trigger] longer[k]).units is Some;
                        assert(k < i);
                        assert(shorter[k] == longer[k]);
                    }
                }
            },
        }
        i = i + 1;
    }
    assert(probes@.take(i as int) =~= probes@);
    if !ran {
        push_text(out, "  no family available on this CPU\n");
    }
    push_text(out, "\n");
}

// ---------------------------------------------------------------------------
// Performance counters
// ---------------------------------------------------------------------------

/// Which counter was found to count.
#[derive(Debug, Clone, Copy, PartialEq, Eq, Structural)]
pub enum CounterRoute {
    /// None of them moved.
    Nothing,
    /// A general-purpose counter, by number.
    General(u32),
    /// A counter with one fixed purpose.
    Fixed,
}

impl CounterRoute {
    /// How many bits the counters of a route have: a general-purpose one has
    /// the general width, any other the fixed one.
    pub open spec fn width(self, general: u32, fixed: u32) -> u32 {
        if self is General {
            general
        } else {
            fixed
        }
    }

    /// The width to take the difference of two readings of this route with.
    pub fn counter_width(self, general: u32, fixed: u32) -> (bits: u32)
        ensures
            bits == self.width(general, fixed),
    {
        match self {
            CounterRoute::General(_) => general,
            _ => fixed,
        }
    }
}

/// What is reported of the performance counters.
#[derive(Debug)]
pub struct PmuFacts {
    pub core_type: String,
    pub interface: String,
    pub version: u32,
    pub general_counters: u32,
    pub general_width: u32,
    pub fixed_counters: u32,
    pub fixed_width: u32,
    /// Whether this core has counters at all.
    pub available: bool,
    pub route: CounterRoute,
    /// What the route is called.
    pub route_name: String,
    /// Cycles of the measured loop, unless the core changed under it.
    pub cycles: Option<u64>,
    /// Instructions of the same loop, where the route counts them: the
    /// difference of two readings of a counter of `instruction_width` bits.
    pub instructions: Option<u64>,
}

impl PmuFacts {
    /// How many bits the counter has that the instructions are read from.
    pub fn instruction_width(&self) -> (bits: u32)
        ensures
            bits == self.route.width(self.general_width, self.fixed_width),
    {
        self.route.counter_width(self.general_width, self.fixed_width)
    }
}

/// How many dependent operations are measured.
pub const PMU_ITERATIONS: u64 = 100_000;

/// `a / b` to two decimals.
pub open spec fn hundredths(a: int, b: int) -> Seq<char> {
    crate::text::decimal(a / b) + "."@ + crate::text::two_digits(a % b * 100 / b)
}

fn push_hundredths(out: &mut String, a: u64, b: u64)
    requires
        b > 0,
    ensures
        final(out)@ == old(out)@ + hundredths(a as int, b as int),
{
    let rest: u128 = (a % b) as u128 * 100 / b as u128;
    assert(a % b * 100 / b as int <= 100) by (nonlinear_arith)
        requires
            0 <= a % b < b,
            b > 0,
    ;
    push_decimal(out, a / b);
    push_text(out, ".");
    push_two_digits(out, rest as u64);
    assert(out@ =~= old(out)@ + hundredths(a as int, b as int));
}

/// What the measured loop came to.
pub open spec fn with_measurement(out: Seq<char>, facts: PmuFacts) -> Seq<char> {
    let counted = match facts.cycles {
        Some(cycles) => with_number(
            out,
            "  100000 dependent ops\n    cycles       : "@,
            cycles as int,
            "\n    cycles/op    : "@,
        ) + hundredths(cycles as int, 100_000) + "\n"@,
        None => out + "  measurement discarded: the core type changed mid-run\n"@,
    };
    match facts.instructions {
        Some(insns) => {
            let line = with_number(counted, "    instructions : "@, insns as int, "\n"@);
            match facts.cycles {
                Some(cycles) => if cycles > 0 {
                    line + "    ipc          : "@ + hundredths(insns as int, cycles as int) + "\n"@
                } else {
                    line
                },
                None => line,
            }
        },
        None => counted,
    }
}

/// The performance counters' part of the report. It stops where there is
/// nothing to count with, rather than printing zeros.
pub open spec fn pmu_text(out: Seq<char>, facts: PmuFacts) -> Seq<char> {
    let first = with_line(
        out + "== PMU (direct, no kernel) ==\n"@,
        "  core type      : "@,
        facts.core_type@,
    );
    let second = with_line(first, "  interface      : "@, facts.interface@);
    let third = with_number(second, "  version        : "@, facts.version as int, "\n"@);
    let fourth = with_number(
        with_number(third, "  general        : "@, facts.general_counters as int, " counters, "@),
        ""@,
        facts.general_width as int,
        " bits\n"@,
    );
    let fifth = with_number(
        with_number(fourth, "  fixed          : "@, facts.fixed_counters as int, " counters, "@),
        ""@,
        facts.fixed_width as int,
        " bits\n"@,
    );
    if !facts.available {
        fifth + "  no PMU on this core; skipping the measurement\n\n"@
    } else {
        let sixth = with_line(fifth, "  counter route  : "@, facts.route_name@);
        if facts.route is Nothing {
            sixth + "  no counter advanced; the measurement would be zeros\n\n"@
        } else {
            with_measurement(sixth, facts) + "\n"@
        }
    }
}

fn push_measurement(out: &mut String, facts: &PmuFacts)
    ensures
        final(out)@ == with_measurement(old(out)@, *facts),
{
    match facts.cycles {
        Some(cycles) => {
            push_number(
                out,
                "  100000 dependent ops\n    cycles       : ",
                cycles,
                "\n    cycles/op    : ",
            );
            push_hundredths(out, cycles, PMU_ITERATIONS);
            push_text(out, "\n");
        },
        None => push_text(out, "  measurement discarded: the core type changed mid-run\n"),
    }
    match facts.instructions {
        Some(insns) => {
            push_number(out, "    instructions : ", insns, "\n");
            match facts.cycles {
                Some(cycles) => {
                    if cycles > 0 {
                        push_text(out, "    ipc          : ");
                        push_hundredths(out, insns, cycles);
                        push_text(out, "\n");
                    }
                },
                None => {},
            }
        },
        None => {},
    }
}

/// Writes the performance counters' part of the report.
pub fn report_pmu(out: &mut String, facts: &PmuFacts)
    ensures
        final(out)@ == pmu_text(old(out)@, *facts),
{
    push_text(out, "== PMU (direct, no kernel) ==\n");
    push_line(out, "  core type      : ", facts.core_type.as_str());
    push_line(out, "  interface      : ", facts.interface.as_str());
    push_number(out, "  version        : ", facts.version as u64, "\n");
    push_number(out, "  general        : ", facts.general_counters as u64, " counters, ");
    push_number(out, "", facts.general_width as u64, " bits\n");
    push_number(out, "  fixed          : ", facts.fixed_counters as u64, " counters, ");
    push_number(out, "", facts.fixed_width as u64, " bits\n");
    if !facts.available {
        push_text(out, "  no PMU on this core; skipping the measurement\n\n");
        return;
    }
    push_line(out, "  counter route  : ", facts.route_name.as_str());
    match facts.route {
        CounterRoute::Nothing => {
            push_text(out, "  no counter advanced; the measurement would be zeros\n\n");
        },
        _ => {
            push_measurement(out, facts);
            push_text(out, "\n");
        },
    }
}

/// The dependent chain whose cycles are counted: each step needs the one
/// before it.
pub open spec fn chain_step(acc: u64, i: u64) -> u64 {
    let sum = acc.wrapping_add(i);
    (sum << 3u64) | (sum >> 61u64)
}

/// The chain after some steps.
pub open spec fn chain(steps: nat) -> u64
    decreases steps,
{
    if steps == 0 {
        0
    } else {
        chain_step(chain((steps - 1) as nat), (steps - 1) as u64)
    }
}

/// Runs the dependent chain.
pub fn dependent_chain(steps: u64) -> (acc: u64)
    ensures
        acc == chain(steps as nat),
{
    let mut acc: u64 = 0;
    let mut i: u64 = 0;
    while i < steps
        invariant
            i <= steps,
            acc == chain(i as nat),
        decreases steps - i,
    {
        let sum: u64 = acc.wrapping_add(i);
        acc = (sum << 3u64) | (sum >> 61u64);
        i = i + 1;
    }
    acc
}

// ---------------------------------------------------------------------------
// The counter
// ---------------------------------------------------------------------------

/// What is known of the counter's rate.
#[derive(Debug)]
pub enum RateFacts {
    /// From the device tree, or not stated there.
    DeviceTree { counter: String, hz: Option<u64> },
    /// AArch64: the counter that is read, its rate, and whether it is the
    /// physical one.
    Timer { source: String, hz: u64, physical: bool },
    Unstated,
}

/// The longest of some timed pairs, and the shortest.
pub open spec fn extremes(pairs: Seq<(u64, u64)>, shortest: u64, longest: u64) -> bool {
    let all = crate::arch::insn::all_elapsed(pairs);
    &&& all.contains(shortest)
    &&& all.contains(longest)
    &&& forall|i: int| 0 <= i < all.len() ==> shortest <= #[trigger] all[i] <= longest
}

fn find_extremes(pairs: &[(u64, u64)]) -> (found: (u64, u64))
    requires
        pairs.len() > 0,
    ensures
        extremes(pairs@, found.0, found.1),
        found.0 <= found.1,
{
    let ghost all = crate::arch::insn::all_elapsed(pairs@);
    let first: u64 = between(pairs[0].0, pairs[0].1);
    let mut min: u64 = first;
    let mut max: u64 = first;
    let ghost mut at_min: int = 0;
    let ghost mut at_max: int = 0;
    let mut i: usize = 1;
    assert(all[0] == first);
    while i < pairs.len()
        invariant
            1 <= i <= pairs.len(),
            all == crate::arch::insn::all_elapsed(pairs@),
            0 <= at_min < i,
            0 <= at_max < i,
            all[at_min] == min,
            all[at_max] == max,
            min <= max,
            forall|k: int| 0 <= k < i ==> min <= #[trigger] all[k] <= max,
        decreases pairs.len() - i,
    {
        let d: u64 = between(pairs[i].0, pairs[i].1);
        assert(all[i as int] == d);
        if d < min {
            min = d;
            proof {
                at_min = i as int;
            }
        }
        if d > max {
            max = d;
            proof {
                at_max = i as int;
            }
        }
        i = i + 1;
    }
    assert(all.contains(min));
    assert(all.contains(max));
    (min, max)
}

/// The lines on the counter's rate.
pub open spec fn with_rate(out: Seq<char>, rate: RateFacts) -> Seq<char> {
    match rate {
        RateFacts::DeviceTree { counter, hz } => match hz {
            Some(hz) => with_number(
                out + "  counter        : "@ + counter@,
                " ("@,
                hz as int,
                " Hz, from the device tree)\n"@,
            ),
            None => out + "  counter        : "@ + counter@
                + " (rate unknown: no timebase-frequency)\n"@,
        },
        RateFacts::Timer { source, hz, physical } => {
            let line = with_number(
                out + "  counter        : "@ + source@,
                " ("@,
                hz as int,
                " Hz)\n"@,
            );
            if physical {
                line
                    + "  warning        : physical counter — not recommended inside a VM\n"@
            } else {
                line
            }
        },
        RateFacts::Unstated => out,
    }
}

/// The counter's part of the report. With nothing else running, the spread
/// between the best and the worst read is the machine's own jitter.
pub open spec fn counter_text(
    out: Seq<char>,
    rounds: int,
    shortest: int,
    longest: int,
    rate: RateFacts,
) -> Seq<char> {
    let first = with_number(
        with_number(out + "== Counter ==\n"@, "  read overhead  : "@, shortest, " units (min of "@),
        ""@,
        rounds,
        ")\n"@,
    );
    let second = with_number(first, "  worst read     : "@, longest, " units\n"@);
    with_rate(
        with_number(second, "  jitter         : "@, longest - shortest, " units\n"@),
        rate,
    ) + "\n"@
}

/// Writes the counter's part of the report, from pairs of back-to-back reads.
pub fn report_counter(out: &mut String, pairs: &[(u64, u64)], rate: &RateFacts)
    requires
        pairs.len() > 0,
    ensures
        exists|shortest: u64, longest: u64| #[trigger]
            extremes(pairs@, shortest, longest) && final(out)@ == counter_text(
                old(out)@,
                pairs@.len() as int,
                shortest as int,
                longest as int,
                *rate,
            ),
{
    let (min, max): (u64, u64) = find_extremes(pairs);
    push_text(out, "== Counter ==\n");
    push_number(out, "  read overhead  : ", min, " units (min of ");
    push_number(out, "", pairs.len() as u64, ")\n");
    push_number(out, "  worst read     : ", max, " units\n");
    push_number(out, "  jitter         : ", max - min, " units\n");
    match rate {
        RateFacts::DeviceTree { counter, hz } => {
            push_text(out, "  counter        : ");
            push_text(out, counter.as_str());
            match hz {
                Some(hz) => push_number(out, " (", *hz, " Hz, from the device tree)\n"),
                None => push_text(out, " (rate unknown: no timebase-frequency)\n"),
            }
        },
        RateFacts::Timer { source, hz, physical } => {
            push_text(out, "  counter        : ");
            push_text(out, source.as_str());
            push_number(out, " (", *hz, " Hz)\n");
            if *physical {
                push_text(
                    out,
                    "  warning        : physical counter — not recommended inside a VM\n",
                );
            }
        },
        RateFacts::Unstated => {},
    }
    push_text(out, "\n");
    assert(extremes(pairs@, min, max));
}

// ---------------------------------------------------------------------------
// Buses
// ---------------------------------------------------------------------------

/// One USB host controller.
#[derive(Debug)]
pub struct UsbHost {
    pub vendor: u16,
    pub device: u16,
    pub kind: String,
    pub bus: u8,
    pub slot: u8,
    pub function: u8,
    pub bar0: u64,
    /// Of an xHCI: the scratchpad pages it asks for, and whether firmware
    /// owns it.
    pub xhci: Option<(u32, bool)>,
}

/// The lines of one USB host controller.
pub open spec fn with_usb_host(out: Seq<char>, host: UsbHost) -> Seq<char> {
    let first = out + "  "@ + crate::text::hex(host.vendor as int, 4) + ":"@ + crate::text::hex(
        host.device as int,
        4,
    ) + "  "@ + host.kind@ + "\n    "@ + crate::text::hex(host.bus as int, 2) + ":"@
        + crate::text::hex(host.slot as int, 2);
    let second = with_hex(
        with_number(first, "."@, host.function as int, "  bar0="@),
        ""@,
        host.bar0 as int,
        "\n"@,
    );
    match host.xhci {
        Some((pages, owned)) => with_line(
            with_number(second, "    scratchpad pages : "@, pages as int, "\n"@),
            "    owned by firmware: "@,
            answer(owned),
        ),
        None => second,
    }
}

fn push_usb_host(out: &mut String, host: &UsbHost)
    ensures
        final(out)@ == with_usb_host(old(out)@, *host),
{
    push_text(out, "  ");
    push_hex(out, host.vendor as u64, 4);
    push_text(out, ":");
    push_hex(out, host.device as u64, 4);
    push_text(out, "  ");
    push_text(out, host.kind.as_str());
    push_text(out, "\n    ");
    push_hex(out, host.bus as u64, 2);
    push_text(out, ":");
    push_hex(out, host.slot as u64, 2);
    push_number(out, ".", host.function as u64, "  bar0=");
    push_labelled_hex(out, "", host.bar0, "\n");
    match host.xhci {
        Some((pages, owned)) => {
            push_number(out, "    scratchpad pages : ", pages as u64, "\n");
            push_line(out, "    owned by firmware: ", yes_no(owned));
        },
        None => {},
    }
}

/// The lines of several USB host controllers.
pub open spec fn with_usb_hosts(out: Seq<char>, hosts: Seq<UsbHost>) -> Seq<char>
    decreases hosts.len(),
{
    if hosts.len() == 0 {
        out
    } else {
        with_usb_host(with_usb_hosts(out, hosts.drop_last()), hosts.last())
    }
}

/// The USB part of the report.
pub open spec fn usb_text(out: Seq<char>, hosts: Seq<UsbHost>) -> Seq<char> {
    with_usb_hosts(out + "== USB host controllers ==\n"@, hosts) + (if hosts.len() == 0 {
        "  none; input is whatever firmware translated to the 8042\n\n"@
    } else {
        "  brought up by the input layer, once, when PS/2 finds nothing\n\n"@
    })
}

/// Writes the USB part of the report.
pub fn report_usb(out: &mut String, hosts: &Vec<UsbHost>)
    ensures
        final(out)@ == usb_text(old(out)@, hosts@),
{
    push_text(out, "== USB host controllers ==\n");
    let ghost head = out@;
    let mut i: usize = 0;
    assert(hosts@.take(0) =~= Seq::empty());
    while i < hosts.len()
        invariant
            i <= hosts.len(),
            out@ == with_usb_hosts(head, hosts@.take(i as int)),
        decreases hosts.len() - i,
    {
        assert(hosts@.take(i + 1).drop_last() =~= hosts@.take(i as int));
        push_usb_host(out, &hosts[i]);
        i = i + 1;
    }
    assert(hosts@.take(i as int) =~= hosts@);
    push_text(
        out,
        if hosts.len() == 0 {
            "  none; input is whatever firmware translated to the 8042\n\n"
        } else {
            "  brought up by the input layer, once, when PS/2 finds nothing\n\n"
        },
    );
}

/// The table signature of Intel's IOMMU.
pub open spec fn is_dmar(signature: Seq<u8>) -> bool {
    signature == seq![0x44u8, 0x4d, 0x41, 0x52]
}

/// The table signature of AMD's IOMMU.
pub open spec fn is_ivrs(signature: Seq<u8>) -> bool {
    signature == seq![0x49u8, 0x56, 0x52, 0x53]
}

/// The IOMMU the first table that describes one describes.
pub open spec fn iommu(signatures: Seq<[u8; 4]>) -> Seq<char>
    decreases signatures.len(),
{
    if signatures.len() == 0 {
        "none described"@
    } else if is_dmar(signatures[0]@) {
        "Intel VT-d (DMAR)"@
    } else if is_ivrs(signatures[0]@) {
        "AMD-Vi (IVRS)"@
    } else {
        iommu(signatures.skip(1))
    }
}

fn same_signature(a: &[u8; 4], b: [u8; 4]) -> (equal: bool)
    ensures
        equal == (a@ == b@),
{
    let equal: bool = a[0] == b[0] && a[1] == b[1] && a[2] == b[2] && a[3] == b[3];
    assert(equal ==> a@ =~= b@);
    equal
}

/// Finds which IOMMU the firmware describes.
pub fn find_iommu(signatures: &Vec<[u8; 4]>) -> (text: &'static str)
    ensures
        text@ == iommu(signatures@),
{
    let mut i: usize = 0;
    assert(signatures@.skip(0) =~= signatures@);
    while i < signatures.len()
        invariant
            i <= signatures.len(),
            iommu(signatures@) == iommu(signatures@.skip(i as int)),
        decreases signatures.len() - i,
    {
        let dmar: [u8; 4] = [0x44, 0x4d, 0x41, 0x52];
        let ivrs: [u8; 4] = [0x49, 0x56, 0x52, 0x53];
        assert(dmar@ =~= seq![0x44u8, 0x4d, 0x41, 0x52]);
        assert(ivrs@ =~= seq![0x49u8, 0x56, 0x52, 0x53]);
        assert(signatures@.skip(i as int)[0] == signatures@[i as int]);
        assert(signatures@.skip(i as int).skip(1) =~= signatures@.skip(i + 1));
        if same_signature(&signatures[i], dmar) {
            return "Intel VT-d (DMAR)";
        }
        if same_signature(&signatures[i], ivrs) {
            return "AMD-Vi (IVRS)";
        }
        i = i + 1;
    }
    "none described"
}

/// The part of the report that says who can write memory unasked.
pub open spec fn dma_text(
    out: Seq<char>,
    signatures: Seq<[u8; 4]>,
    revoked: u32,
    kept: u32,
) -> Seq<char> {
    let first = out + "== DMA protection ==\n  iommu          : "@ + iommu(signatures)
        + " (not programmed by this kernel)\n"@;
    with_number(
        with_number(first, "  bus mastering  : revoked on "@, revoked as int, ", kept on "@),
        ""@,
        kept as int,
        "\n"@,
    ) + "  kept devices (bridges, display, USB hosts) can still reach all of memory\n\n"@
}

/// Writes the part of the report that says who can write memory unasked.
pub fn report_dma(out: &mut String, signatures: &Vec<[u8; 4]>, revoked: u32, kept: u32)
    ensures
        final(out)@ == dma_text(old(out)@, signatures@, revoked, kept),
{
    push_text(out, "== DMA protection ==\n  iommu          : ");
    push_text(out, find_iommu(signatures));
    push_text(out, " (not programmed by this kernel)\n");
    push_number(out, "  bus mastering  : revoked on ", revoked as u64, ", kept on ");
    push_number(out, "", kept as u64, "\n");
    push_text(
        out,
        "  kept devices (bridges, display, USB hosts) can still reach all of memory\n\n",
    );
}

// ---------------------------------------------------------------------------
// The hypervisor
// ---------------------------------------------------------------------------

/// What the kernel found out about a hypervisor at boot.
#[derive(Debug)]
pub struct BootHypervisor {
    pub cpuid_bit: bool,
    pub signature: String,
    pub max_leaf: u32,
    pub hypercall_ok: bool,
    /// On x86: the instruction the vendor defines, and the vendor.
    pub x86: Option<(Option<HypercallInsn>, Vendor)>,
    pub hypercalls: u64,
    pub probes: u64,
    pub cooldown_s: u64,
    /// The host's clock and the counter read with it.
    pub pairing: Option<(u64, u64)>,
    pub virtualized: bool,
}

/// The hypervisor's part of the report.
pub open spec fn boot_hypervisor_text(out: Seq<char>, h: BootHypervisor) -> Seq<char> {
    let first = with_line(out + "== Hypervisor ==\n"@, "  cpuid bit      : "@, answer(h.cpuid_bit));
    let second = with_line(
        first,
        "  signature      : "@,
        if h.signature@.len() == 0 {
            "none"@
        } else {
            h.signature@
        },
    );
    let third = if h.max_leaf != 0 {
        with_hex(second, "  max hv leaf    : "@, h.max_leaf as int, "\n"@)
    } else {
        second
    };
    let fourth = with_line(third, "  hypercall      : "@, answer(h.hypercall_ok));
    let fifth = match h.x86 {
        Some((insn, vendor)) => fourth + "  hypercall HAL  : "@ + (match insn {
            Some(insn) => insn.mnemonic(),
            None => "none (unknown vendor)"@,
        }) + " (by CPU vendor "@ + vendor.readable() + ")\n"@,
        None => fourth,
    };
    let sixth = with_number(
        fifth,
        "  hypercalls     : "@,
        h.hypercalls as int,
        " (boot negotiation only; the stopwatch reads the counter)\n"@,
    );
    let seventh = with_number(
        with_number(
            sixth,
            "  probes run     : "@,
            h.probes as int,
            " (boot negotiation; re-probe waits "@,
        ),
        ""@,
        h.cooldown_s as int,
        " s between)\n"@,
    );
    (match h.pairing {
        Some((host_ns, counter)) => with_number(
            with_number(seventh, "  host clock     : "@, host_ns as int, " ns\n"@),
            "  paired counter : "@,
            counter as int,
            "\n  the guest timebase can be expressed on the host's\n"@,
        ),
        None => if h.virtualized {
            seventh + "  no clock pairing: this hypervisor does not offer one\n"@
        } else {
            seventh + "  bare metal: the counter is physical\n"@
        },
    }) + "\n"@
}

/// Writes the hypervisor's part of the report.
pub fn report_hypervisor(out: &mut String, h: &BootHypervisor)
    ensures
        final(out)@ == boot_hypervisor_text(old(out)@, *h),
{
    push_text(out, "== Hypervisor ==\n");
    push_line(out, "  cpuid bit      : ", yes_no(h.cpuid_bit));
    push_line(
        out,
        "  signature      : ",
        if h.signature.as_str().unicode_len() == 0 {
            "none"
        } else {
            h.signature.as_str()
        },
    );
    if h.max_leaf != 0 {
        push_labelled_hex(out, "  max hv leaf    : ", h.max_leaf as u64, "\n");
    }
    push_line(out, "  hypercall      : ", yes_no(h.hypercall_ok));
    match &h.x86 {
        Some((insn, vendor)) => {
            push_text(out, "  hypercall HAL  : ");
            push_text(
                out,
                match insn {
                    Some(insn) => insn.name(),
                    None => "none (unknown vendor)",
                },
            );
            push_text(out, " (by CPU vendor ");
            push_text(out, vendor.name());
            push_text(out, ")\n");
        },
        None => {},
    }
    push_number(
        out,
        "  hypercalls     : ",
        h.hypercalls,
        " (boot negotiation only; the stopwatch reads the counter)\n",
    );
    push_number(out, "  probes run     : ", h.probes, " (boot negotiation; re-probe waits ");
    push_number(out, "", h.cooldown_s, " s between)\n");
    match h.pairing {
        Some((host_ns, counter)) => {
            push_number(out, "  host clock     : ", host_ns, " ns\n");
            push_number(
                out,
                "  paired counter : ",
                counter,
                "\n  the guest timebase can be expressed on the host's\n",
            );
        },
        None => push_text(
            out,
            if h.virtualized {
                "  no clock pairing: this hypervisor does not offer one\n"
            } else {
                "  bare metal: the counter is physical\n"
            },
        ),
    }
    push_text(out, "\n");
}

// ---------------------------------------------------------------------------
// Stored state
// ---------------------------------------------------------------------------

/// What flipping bits of a protected value came to.
#[derive(Debug)]
pub struct IntegrityFacts {
    pub clean: String,
    pub one_bit: String,
    pub one_bit_recovered: bool,
    pub two_bits: String,
    pub two_bits_recovered: bool,
    pub checks: u64,
    pub ecc_corrections: u64,
    pub tmr_corrections: u64,
    pub unrecoverable: u64,
}

/// The last part of the report.
pub open spec fn integrity_text(out: Seq<char>, i: IntegrityFacts) -> Seq<char> {
    let first = with_line(
        out + "== Stored-state integrity ==\n"@,
        "  clean          : "@,
        i.clean@,
    );
    let second = with_truth(
        first + "  one bit        : "@ + i.one_bit@,
        " (recovered: "@,
        i.one_bit_recovered,
    ) + ")\n"@;
    let third = with_truth(
        second + "  two bits       : "@ + i.two_bits@,
        " (recovered: "@,
        i.two_bits_recovered,
    ) + ")\n"@;
    with_number(
        with_number(
            with_number(
                with_number(third, "  checks="@, i.checks as int, " ecc="@),
                ""@,
                i.ecc_corrections as int,
                " tmr="@,
            ),
            ""@,
            i.tmr_corrections as int,
            " lost="@,
        ),
        ""@,
        i.unrecoverable as int,
        "\n\nselftest complete; halting\n"@,
    )
}

/// Writes the last part of the report.
pub fn report_integrity(out: &mut String, i: &IntegrityFacts)
    ensures
        final(out)@ == integrity_text(old(out)@, *i),
{
    push_text(out, "== Stored-state integrity ==\n");
    push_line(out, "  clean          : ", i.clean.as_str());
    push_text(out, "  one bit        : ");
    push_text(out, i.one_bit.as_str());
    push_truth(out, " (recovered: ", i.one_bit_recovered);
    push_text(out, ")\n");
    push_text(out, "  two bits       : ");
    push_text(out, i.two_bits.as_str());
    push_truth(out, " (recovered: ", i.two_bits_recovered);
    push_text(out, ")\n");
    push_number(out, "  checks=", i.checks, " ecc=");
    push_number(out, "", i.ecc_corrections, " tmr=");
    push_number(out, "", i.tmr_corrections, " lost=");
    push_number(out, "", i.unrecoverable, "\n\nselftest complete; halting\n");
}

// ---------------------------------------------------------------------------
// The whole
// ---------------------------------------------------------------------------

/// What is reported of the buses of an x86 machine and of its firmware's
/// tables.
#[derive(Debug)]
pub struct BusFacts {
    pub usb_hosts: Vec<UsbHost>,
    /// The signatures of the firmware's tables.
    pub signatures: Vec<[u8; 4]>,
    /// On how many devices bus mastering was revoked, and on how many kept.
    pub revoked: u32,
    pub kept: u32,
    pub acpi: AcpiFacts,
}

/// Everything the self-test reports.
#[derive(Debug)]
pub struct SelfTest {
    pub version: String,
    pub cpu: CpuFacts,
    pub probes: Vec<SimdProbe>,
    pub pmu: PmuFacts,
    /// Back-to-back reads of the counter.
    pub reads: Vec<(u64, u64)>,
    pub rate: RateFacts,
    /// Reported on x86 only.
    pub buses: BusFacts,
    pub hypervisor: BootHypervisor,
    pub integrity: IntegrityFacts,
}

impl BusFacts {
    /// The parts of the report that only x86 has: USB, then DMA, then the
    /// firmware's tables.
    pub open spec fn text(self, out: Seq<char>) -> Seq<char> {
        crate::acpi_report::acpi_text(
            dma_text(
                usb_text(out, self.usb_hosts@),
                self.signatures@,
                self.revoked,
                self.kept,
            ),
            self.acpi,
        )
    }
}

impl SelfTest {
    /// There is a read of the counter to report, and on x86 what the tables
    /// hold can be counted.
    pub open spec fn well_formed(self) -> bool {
        &&& self.reads@.len() > 0
        &&& self.cpu.target.machine.x86() ==> self.buses.acpi.well_formed()
    }

    /// The whole report, in order: the banner, the processor and its SIMD
    /// families, the performance counters, the counter, on x86 the buses, the
    /// hypervisor, and the stored state.
    pub open spec fn text(
        self,
        out: Seq<char>,
        vendor: Vendor,
        written: Seq<char>,
        shortest: u64,
        longest: u64,
    ) -> Seq<char> {
        let banner = banner_text(out, self.version@, self.cpu.target);
        let cpu = cpu_text(banner, self.cpu, vendor, written);
        let simd = simd_text(cpu, self.cpu.target, self.probes@);
        let pmu = pmu_text(simd, self.pmu);
        let counter = counter_text(
            pmu,
            self.reads@.len() as int,
            shortest as int,
            longest as int,
            self.rate,
        );
        let buses = if self.cpu.target.machine.x86() {
            self.buses.text(counter)
        } else {
            counter
        };
        integrity_text(boot_hypervisor_text(buses, self.hypervisor), self.integrity)
    }
}

/// Writes the whole self-test.
pub fn run(out: &mut String, test: &SelfTest)
    requires
        test.well_formed(),
    ensures
        exists|vendor: Vendor, written: Seq<char>, shortest: u64, longest: u64|
            #[trigger] vendor_writes(test.cpu, vendor, written) && #[trigger] extremes(
                test.reads@,
                shortest,
                longest,
            ) && final(out)@ == test.text(old(out)@, vendor, written, shortest, longest),
{
    write_banner(out, test.version.as_str(), &test.cpu.target);
    let ghost banner = out@;
    report_cpu(out, &test.cpu, &test.probes);
    let ghost (vendor, written) = choose|vendor: Vendor, written: Seq<char>| #[trigger]
        vendor_writes(test.cpu, vendor, written) && out@ == simd_text(
            cpu_text(banner, test.cpu, vendor, written),
            test.cpu.target,
            test.probes@,
        );
    report_pmu(out, &test.pmu);
    let ghost pmu = out@;
    report_counter(out, test.reads.as_slice(), &test.rate);
    let ghost (shortest, longest) = choose|shortest: u64, longest: u64| #[trigger]
        extremes(test.reads@, shortest, longest) && out@ == counter_text(
            pmu,
            test.reads@.len() as int,
            shortest as int,
            longest as int,
            test.rate,
        );
    if test.cpu.target.machine.is_x86() {
        let buses: &BusFacts = &test.buses;
        report_usb(out, &buses.usb_hosts);
        report_dma(out, &buses.signatures, buses.revoked, buses.kept);
        report_acpi_namespace(out, &buses.acpi);
    }
    report_hypervisor(out, &test.hypervisor);
    report_integrity(out, &test.integrity);
    assert(vendor_writes(test.cpu, vendor, written));
    assert(extremes(test.reads@, shortest, longest));
    assert(out@ == test.text(old(out)@, vendor, written, shortest, longest));
}

/// On a machine other than x86 the report is the same whatever its buses
/// hold.
pub proof fn buses_show_on_x86_only(
    a: SelfTest,
    b: SelfTest,
    out: Seq<char>,
    vendor: Vendor,
    written: Seq<char>,
    shortest: u64,
    longest: u64,
)
    requires
        !a.cpu.target.machine.x86(),
        b == (SelfTest { buses: b.buses, ..a }),
    ensures
        a.text(out, vendor, written, shortest, longest) == b.text(
            out,
            vendor,
            written,
            shortest,
            longest,
        ),
{
}

} // verus!
