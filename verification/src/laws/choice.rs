//! Which instructions are chosen, and what is said of the choice.
use crate::backend::{named, plain_char, Backend};
use crate::clock::{ClockRoute, RouteHost};
use crate::cpu::CpuFeatures;
use crate::dispatch::{
    asked, backend_choice, bool_text, kernel_of, route_choice, scalar_word, simd_choice, Dispatcher,
    KernelRun, SelectionReason,
};
use crate::machine::{Machine, Target};
use crate::simd::SimdCatalogue;
use vstd::prelude::*;

verus! {

/// A family can be run where the processor has its instructions and the build
/// carries its loop: all of them on 64-bit x86 and AArch64, none but the scalar
/// loop on 32-bit x86, and elsewhere those of the processor, where vectors are
/// built. The scalar loop can always be run.
pub proof fn a_family_needs_its_instructions(b: Backend, f: CpuFeatures, target: Target)
    ensures
        Backend::Legacy.available(f, target),
        target.machine is X86 ==> (b.available(f, target) <==> b is Legacy),
        target.machine is X86Wide || target.machine is Aarch64 || target.machine is Other ==> {
            &&& Backend::Mmx.available(f, target) <==> f.mmx
            &&& Backend::Sse.available(f, target) <==> f.sse
            &&& Backend::Sse2.available(f, target) <==> f.sse2
            &&& Backend::Sse3.available(f, target) <==> f.sse3
            &&& Backend::Ssse3.available(f, target) <==> f.ssse3
            &&& Backend::Sse41.available(f, target) <==> f.sse41
            &&& Backend::Sse42.available(f, target) <==> f.sse42
            &&& Backend::Avx.available(f, target) <==> f.avx
            &&& Backend::F16c.available(f, target) <==> f.f16c
            &&& Backend::Fma.available(f, target) <==> f.fma
            &&& Backend::Avx2.available(f, target) <==> f.avx2
            &&& Backend::AvxVnni.available(f, target) <==> f.avx_vnni
            &&& Backend::Avx512.available(f, target) <==> f.avx512f
            &&& Backend::Avx512Vnni.available(f, target) <==> f.avx512vnni
            &&& Backend::Neon.available(f, target) <==> f.neon
            &&& Backend::Sve.available(f, target) <==> f.sve
            &&& Backend::Sve2.available(f, target) <==> f.sve2
            &&& Backend::Sme.available(f, target) <==> f.sme
        },
        target.machine is PowerPc || target.machine is PowerPcWide ==> (b.available(f, target)
            <==> b is Legacy || target.simd && (b is Altivec && f.altivec || b is Vsx && f.vsx)),
        target.machine is RiscV || target.machine is RiscVWide ==> (b.available(f, target) <==> b is
            Legacy || target.simd && b is Rvv && f.rvv),
        target.machine is Arm ==> (b.available(f, target) <==> b is Legacy || target.simd && b is Neon
            && f.neon),
{
}

proof fn lemma_first(order: Seq<Backend>, f: CpuFeatures, target: Target, i: int)
    requires
        0 <= i <= order.len(),
        forall|j: int| 0 <= j < i ==> !(#[trigger] order[j]).available(f, target),
        i < order.len() ==> order[i].available(f, target),
    ensures
        Backend::first_available(order, f, target) == (if i < order.len() {
            order[i]
        } else {
            Backend::Legacy
        }),
    decreases order.len(),
{
    if order.len() > 0 && i > 0 {
        assert(!order[0].available(f, target));
        let rest = order.skip(1);
        assert forall|j: int| 0 <= j < i - 1 implies !(#[trigger] rest[j]).available(f, target) by {
            assert(rest[j] == order[j + 1]);
        }
        lemma_first(rest, f, target, i - 1);
    }
}

/// On 64-bit x86 the widest registers win, and of two families in the same
/// registers the newer one.
pub proof fn the_widest_x86_family_is_chosen(f: CpuFeatures, target: Target)
    requires
        target.machine is X86Wide,
    ensures
        Backend::widest(f, target) == (if f.avx512vnni {
            Backend::Avx512Vnni
        } else if f.avx512f {
            Backend::Avx512
        } else if f.avx_vnni {
            Backend::AvxVnni
        } else if f.avx2 {
            Backend::Avx2
        } else if f.fma {
            Backend::Fma
        } else if f.f16c {
            Backend::F16c
        } else if f.avx {
            Backend::Avx
        } else if f.sse42 {
            Backend::Sse42
        } else if f.sse41 {
            Backend::Sse41
        } else if f.ssse3 {
            Backend::Ssse3
        } else if f.sse3 {
            Backend::Sse3
        } else if f.sse2 {
            Backend::Sse2
        } else if f.sse {
            Backend::Sse
        } else if f.mmx {
            Backend::Mmx
        } else {
            Backend::Legacy
        }),
{
    let order = Backend::preference(target.machine);
    let i: int = if f.avx512vnni {
        0
    } else if f.avx512f {
        1
    } else if f.avx_vnni {
        2
    } else if f.avx2 {
        3
    } else if f.fma {
        4
    } else if f.f16c {
        5
    } else if f.avx {
        6
    } else if f.sse42 {
        7
    } else if f.sse41 {
        8
    } else if f.ssse3 {
        9
    } else if f.sse3 {
        10
    } else if f.sse2 {
        11
    } else if f.sse {
        12
    } else if f.mmx {
        13
    } else {
        14
    };
    assert(order.len() == 14);
    lemma_first(order, f, target, i);
}

/// Elsewhere: on AArch64 the matrix unit before the scalable vectors before
/// NEON, on PowerPC VSX before AltiVec, on RISC-V its vectors and on 32-bit ARM
/// NEON, where vectors are built; on 32-bit x86 always the scalar loop.
pub proof fn the_widest_family_elsewhere_is_chosen(f: CpuFeatures, target: Target)
    ensures
        target.machine is Aarch64 ==> Backend::widest(f, target) == (if f.sme {
            Backend::Sme
        } else if f.sve2 {
            Backend::Sve2
        } else if f.sve {
            Backend::Sve
        } else if f.neon {
            Backend::Neon
        } else {
            Backend::Legacy
        }),
        target.machine is PowerPc || target.machine is PowerPcWide ==> Backend::widest(f, target)
            == (if target.simd && f.vsx {
            Backend::Vsx
        } else if target.simd && f.altivec {
            Backend::Altivec
        } else {
            Backend::Legacy
        }),
        target.machine is RiscV || target.machine is RiscVWide ==> Backend::widest(f, target) == (
        if target.simd && f.rvv {
            Backend::Rvv
        } else {
            Backend::Legacy
        }),
        target.machine is Arm ==> Backend::widest(f, target) == (if target.simd && f.neon {
            Backend::Neon
        } else {
            Backend::Legacy
        }),
        target.machine is X86 ==> Backend::widest(f, target) is Legacy,
{
    let order = Backend::preference(target.machine);
    reveal_with_fuel(Backend::first_available, 6);
    if target.machine is X86 {
        lemma_first(order, f, target, 14);
    } else if target.machine is Aarch64 {
        let i: int = if f.sme {
            0
        } else if f.sve2 {
            1
        } else if f.sve {
            2
        } else if f.neon {
            3
        } else {
            4
        };
        lemma_first(order, f, target, i);
    }
}

/// A request that can be met is met; any other gets the widest family.
pub proof fn a_request_is_met_or_the_widest_given(b: Backend, f: CpuFeatures, target: Target)
    ensures
        b.available(f, target) ==> b.resolved(f, target) == b,
        !b.available(f, target) ==> b.resolved(f, target) == Backend::widest(f, target),
{
}

/// A family belongs to its own processors, the scalar loop to all.
pub proof fn families_belong_to_their_processors(b: Backend, machine: Machine)
    ensures
        b is Legacy ==> b.native(machine),
        b is Neon ==> (b.native(machine) <==> machine is Aarch64 || machine is Arm),
        b is Sve || b is Sve2 || b is Sme ==> (b.native(machine) <==> machine is Aarch64),
        b is Altivec || b is Vsx ==> (b.native(machine) <==> machine is PowerPc || machine is
            PowerPcWide),
        b is Rvv ==> (b.native(machine) <==> machine is RiscV || machine is RiscVWide),
        b is Mmx || b is Sse || b is Sse2 || b is Sse3 || b is Ssse3 || b is Sse41 || b is Sse42
            || b is Avx || b is F16c || b is Fma || b is Avx2 || b is AvxVnni || b is Avx512
            || b is Avx512Vnni ==> (b.native(machine) <==> machine is X86 || machine is X86Wide),
{
}

/// A family answers to its own names only.
pub proof fn a_family_answers_to_its_own_names(n: Seq<char>)
    ensures
        match named(n) {
            Some(Backend::Legacy) => n == "legacy"@ || n == "legacy-asm"@ || n == "scalar"@ || n
                == "asm-scalar"@,
            Some(Backend::Mmx) => n == "mmx"@,
            Some(Backend::Sse) => n == "sse"@,
            Some(Backend::Sse2) => n == "sse2"@,
            Some(Backend::Sse3) => n == "sse3"@,
            Some(Backend::Ssse3) => n == "ssse3"@,
            Some(Backend::Sse41) => n == "sse41"@ || n == "sse4.1"@ || n == "sse4-1"@,
            Some(Backend::Sse42) => n == "sse42"@ || n == "sse4.2"@ || n == "sse4-2"@,
            Some(Backend::Avx) => n == "avx"@,
            Some(Backend::F16c) => n == "f16c"@,
            Some(Backend::Fma) => n == "fma"@,
            Some(Backend::Avx2) => n == "avx2"@,
            Some(Backend::AvxVnni) => n == "avx-vnni"@ || n == "avxvnni"@,
            Some(Backend::Avx512) => n == "avx512"@ || n == "avx-512"@,
            Some(Backend::Avx512Vnni) => n == "avx512vnni"@ || n == "avx-512-vnni"@ || n
                == "avx512-vnni"@,
            Some(Backend::Neon) => n == "neon"@,
            Some(Backend::Sve) => n == "sve"@,
            Some(Backend::Sve2) => n == "sve2"@,
            Some(Backend::Sme) => n == "sme"@,
            Some(Backend::Altivec) => n == "altivec"@ || n == "vmx"@,
            Some(Backend::Vsx) => n == "vsx"@,
            Some(Backend::Rvv) => n == "rvv"@ || n == "riscv-v"@,
            None => true,
        },
{
}

/// No name of a family goes unanswered.
pub proof fn no_name_of_a_family_goes_unanswered(n: Seq<char>)
    requires
        named(n) is None,
    ensures
        n != "legacy"@ && n != "legacy-asm"@ && n != "scalar"@ && n != "asm-scalar"@,
        n != "mmx"@ && n != "sse"@ && n != "sse2"@ && n != "sse3"@ && n != "ssse3"@,
        n != "sse41"@ && n != "sse4.1"@ && n != "sse4-1"@,
        n != "sse42"@ && n != "sse4.2"@ && n != "sse4-2"@,
        n != "avx"@ && n != "f16c"@ && n != "fma"@ && n != "avx2"@,
        n != "avx-vnni"@ && n != "avxvnni"@ && n != "avx512"@ && n != "avx-512"@,
        n != "avx512vnni"@ && n != "avx-512-vnni"@ && n != "avx512-vnni"@,
        n != "neon"@ && n != "sve"@ && n != "sve2"@ && n != "sme"@,
        n != "altivec"@ && n != "vmx"@ && n != "vsx"@ && n != "rvv"@ && n != "riscv-v"@,
{
}

/// Families are shown by these names.
pub proof fn families_are_shown_by_name()
    ensures
        Backend::Legacy.label() == "legacy-asm"@,
        Backend::Mmx.label() == "mmx"@,
        Backend::Sse.label() == "sse"@,
        Backend::Sse2.label() == "sse2"@,
        Backend::Sse3.label() == "sse3"@,
        Backend::Ssse3.label() == "ssse3"@,
        Backend::Sse41.label() == "sse4.1"@,
        Backend::Sse42.label() == "sse4.2"@,
        Backend::Avx.label() == "avx"@,
        Backend::F16c.label() == "f16c"@,
        Backend::Fma.label() == "fma"@,
        Backend::Avx2.label() == "avx2"@,
        Backend::AvxVnni.label() == "avx-vnni"@,
        Backend::Avx512.label() == "avx-512"@,
        Backend::Avx512Vnni.label() == "avx-512-vnni"@,
        Backend::Neon.label() == "neon"@,
        Backend::Sve.label() == "sve"@,
        Backend::Sve2.label() == "sve2"@,
        Backend::Sme.label() == "sme"@,
        Backend::Altivec.label() == "altivec"@,
        Backend::Vsx.label() == "vsx"@,
        Backend::Rvv.label() == "rvv"@,
{
}

/// Names are compared without capitals, with the underscore and the space
/// counting as a hyphen.
pub proof fn names_are_compared_plainly(c: char)
    ensures
        'A' <= c <= 'Z' ==> plain_char(c) as int == c as int + 32,
        c == '_' || c == ' ' || c == '-' ==> plain_char(c) == '-',
        !('A' <= c <= 'Z') && c != '_' && c != ' ' ==> plain_char(c) == c,
{
}

/// An override is what was asked for, less the white space round it; nothing
/// but white space asks for nothing.
pub proof fn an_override_is_its_words(value: Option<String>)
    ensures
        value is None ==> asked(value) is None,
        value matches Some(text) ==> match asked(value) {
            Some(words) => words == crate::text::trimmed(text@, crate::text::Trim::Space)
                && words.len() > 0,
            None => crate::text::trimmed(text@, crate::text::Trim::Space).len() == 0,
        },
{
}

/// Where nothing was asked for the widest family was detected, unless there
/// was nothing to detect.
pub proof fn a_fallback_is_the_scalar_loop(f: CpuFeatures, target: Target, value: Option<String>)
    requires
        asked(value) is None,
    ensures
        backend_choice(f, target, value).0 == Backend::widest(f, target),
        backend_choice(f, target, value).1 is Fallback <==> Backend::widest(f, target) is Legacy
            && !f.sse2,
        backend_choice(f, target, value).1 is Fallback || backend_choice(f, target, value).1 is
            Detected,
{
}

/// A SIMD family that was asked for by name is chosen where it can be run;
/// where it cannot, or there is none of that name, the preferred one is, and
/// the request is called rejected.
pub proof fn a_simd_request_is_met_where_it_can_be(simd: SimdCatalogue, value: Option<String>)
    ensures
        asked(value) matches Some(words) ==> match simd.place(words) {
            Some(i) => {
                &&& simd.families@[i].available ==> simd_choice(simd, value) == (
                    Some(i as usize),
                    SelectionReason::Overridden,
                )
                &&& !simd.families@[i].available ==> simd_choice(simd, value) == (
                    simd.preferred(),
                    SelectionReason::OverrideRejected,
                )
            },
            None => simd_choice(simd, value) == (
                simd.preferred(),
                SelectionReason::OverrideRejected,
            ),
        },
        asked(value) is None ==> simd_choice(simd, value).0 == simd.preferred() && (simd_choice(
            simd,
            value,
        ).1 is Detected <==> simd.preferred() is Some) && (simd_choice(simd, value).1 is Fallback
            <==> simd.preferred() is None),
{
}

/// The preferred SIMD family is the widest, where that can be run.
pub proof fn the_preferred_family_can_be_run(simd: SimdCatalogue, i: usize)
    requires
        simd.families@.len() <= usize::MAX,
    ensures
        simd.preferred() == Some(i) <==> simd.widest == Some(i) && i < simd.families@.len()
            && simd.families@[i as int].available,
        simd.name_of(None) == "none"@,
        i < simd.families@.len() ==> simd.name_of(Some(i)) == simd.families@[i as int].name@,
{
}

/// A clock route that was asked for by name is chosen where it exists here;
/// where it does not the best one is, and the request is called rejected. Left
/// alone, the best route was detected, unless it is the system's clock.
pub proof fn a_route_request_is_met_where_it_can_be(host: RouteHost, value: Option<String>)
    ensures
        asked(value) matches Some(words) ==> match ClockRoute::first_of(
            ClockRoute::every(),
            words,
        ) {
            Some(r) => {
                &&& r.available(host) ==> route_choice(host, value) == (
                    r,
                    SelectionReason::Overridden,
                )
                &&& !r.available(host) ==> route_choice(host, value) == (
                    host.best_route(),
                    SelectionReason::OverrideRejected,
                )
            },
            None => route_choice(host, value) == (
                host.best_route(),
                SelectionReason::OverrideRejected,
            ),
        },
        asked(value) is None ==> route_choice(host, value).0 == host.best_route() && (route_choice(
            host,
            value,
        ).1 is Fallback <==> host.best_route() is MonotonicNs) && (route_choice(
            host,
            value,
        ).1 is Detected <==> !(host.best_route() is MonotonicNs)),
{
}

/// The reasons are shown by these names.
pub proof fn reasons_are_shown_by_name()
    ensures
        SelectionReason::Detected.label() == "detected"@,
        SelectionReason::Overridden.label() == "overridden"@,
        SelectionReason::OverrideRejected.label() == "override-rejected"@,
        SelectionReason::Fallback.label() == "fallback"@,
        bool_text(true) == "true"@,
        bool_text(false) == "false"@,
{
}

/// A scalar loop is run here and now, to its word; any other family's loop is
/// the processor's to run, as often as was asked.
pub proof fn only_the_scalar_loop_is_run_here(machine: Machine, b: Backend, loops: usize)
    ensures
        b is Legacy ==> kernel_of(machine, b, loops) == (KernelRun::Scalar {
            word: scalar_word(machine, loops),
        }),
        !(b is Legacy) ==> kernel_of(machine, b, loops) == (KernelRun::Vector { backend: b, loops }),
{
}

/// A loop of cryptographic instructions is run where the processor has them
/// and the build carries it, and otherwise not at all.
pub proof fn a_crypto_loop_needs_processor_and_build(d: Dispatcher, kernel: usize, loops: usize)
    requires
        d.crypto@.len() <= usize::MAX,
    ensures
        kernel >= d.crypto@.len() ==> d.crypto_kernel_of(kernel, loops) is None,
        kernel < d.crypto@.len() ==> {
            let k = d.crypto@[kernel as int];
            &&& k.available && k.built ==> d.crypto_kernel_of(kernel, loops) == Some(
                (KernelRun::Crypto { kernel, loops }),
            )
            &&& !(k.available && k.built) ==> d.crypto_kernel_of(kernel, loops) is None
        },
{
}

/// Each row of the matrix says whether a family can be run and whether it is
/// the chosen one.
pub proof fn each_row_says_what_can_be_run(d: Dispatcher, b: Backend)
    ensures
        d.row(b).0 == b,
        d.row(b).1 <==> b.available(d.features, d.host.counter.target),
        d.row(b).2 <==> d.backend == b,
{
}

/// Before its first round the scalar loop holds the golden ratio's bits: as
/// many as a register has on x86, 64 elsewhere. A round turns the word, mixes
/// in a constant and adds it.
pub proof fn the_scalar_loop_goes_round_by_round(machine: Machine, loops: usize, word: u64)
    requires
        !(machine is X86 || machine is X86Wide),
        loops > 0,
        word == scalar_word(machine, (loops - 1) as usize),
    ensures
        scalar_word(machine, 0) == 0x9E37_79B9_7F4A_7C15,
        scalar_word(machine, loops) == (((word >> 7u64) | (word << 57u64))
            ^ 0xD1B5_4A32_D192_ED03u64).wrapping_add(0xD1B5_4A32_D192_ED03),
{
    assert(((word >> 7u64) | (word << 57u64)) == ((word << 57u64) | (word >> 7u64)))
        by (bit_vector);
}

/// On x86 the loop is as wide as a register and turns the other way.
pub proof fn the_x86_loop_is_as_wide_as_a_register(loops: nat, word: usize)
    requires
        loops > 0,
        word == crate::arch::x86::scalar_rounds((loops - 1) as nat),
    ensures
        crate::arch::x86::scalar_rounds(0) == 0x9E37_79B9,
        crate::arch::x86::scalar_rounds(loops) == (((word << 7usize) | (word >> ((usize::BITS
            - 7) as usize))) ^ 0xD192_ED03usize).wrapping_add(0xD192_ED03),
        scalar_word(Machine::X86Wide, 0) == 0x9E37_79B9,
        scalar_word(Machine::X86, 0) == 0x9E37_79B9,
{
}

/// A backend's name is asked for without regard to case, and with an
/// underscore or a space for a hyphen.
pub proof fn a_name_is_asked_for_plainly(c: char)
    ensures
        'A' <= c <= 'Z' ==> crate::backend::plain_char(c) as int == c as int + 32,
        c == '_' || c == ' ' ==> crate::backend::plain_char(c) == '-',
        'a' <= c <= 'z' || '0' <= c <= '9' || c == '-' || c == '.' ==> crate::backend::plain_char(
            c,
        ) == c,
{
}

proof fn lemma_first_named(all: Seq<Seq<char>>, name: Seq<char>, from: int, i: int)
    requires
        0 <= from <= i < all.len(),
        crate::text::lowered(all[i]) == crate::text::lowered(name),
        forall|j: int|
            from <= j < i ==> crate::text::lowered(#[trigger] all[j]) != crate::text::lowered(name),
    ensures
        crate::simd::first_named(all, name, from) == Some(i),
    decreases i - from,
{
    if from < i {
        assert(crate::text::lowered(all[from]) != crate::text::lowered(name));
        lemma_first_named(all, name, from + 1, i);
    }
}

proof fn lemma_never_named(all: Seq<Seq<char>>, name: Seq<char>, from: int)
    requires
        0 <= from,
        forall|j: int|
            from <= j < all.len() ==> crate::text::lowered(#[trigger] all[j])
                != crate::text::lowered(name),
    ensures
        crate::simd::first_named(all, name, from) is None,
    decreases all.len() - from,
{
    if from < all.len() {
        assert(crate::text::lowered(all[from]) != crate::text::lowered(name));
        lemma_never_named(all, name, from + 1);
    }
}

/// A vector family is found at the first name that is the one asked for,
/// whatever its capitals, and nowhere where none is.
pub proof fn a_family_is_found_at_its_first_name(
    simd: SimdCatalogue,
    name: &str,
    found: Option<usize>,
    i: usize,
)
    requires
        call_ensures(SimdCatalogue::find, (&simd, name), found),
        i <= simd.families@.len(),
        i < simd.families@.len() ==> crate::text::lowered(simd.families@[i as int].name@)
            == crate::text::lowered(name@),
        forall|j: int|
            0 <= j < i ==> crate::text::lowered((#[trigger] simd.families@[j]).name@)
                != crate::text::lowered(name@),
    ensures
        i < simd.families@.len() ==> found == Some(i),
        i == simd.families@.len() ==> found is None,
{
    let all = crate::simd::names(simd.families@);
    assert forall|j: int| 0 <= j < i implies crate::text::lowered(#[trigger] all[j])
        != crate::text::lowered(name@) by {
        assert(all[j] == simd.families@[j].name@);
    }
    if i < simd.families@.len() {
        assert(all[i as int] == simd.families@[i as int].name@);
        lemma_first_named(all, name@, 0, i as int);
    } else {
        lemma_never_named(all, name@, 0);
    }
}

} // verus!
