//! What a machine with no system under it says of itself.
use crate::arch::insn::{all_elapsed, elapsed};
use crate::arch::x86::CpuidTable;
use crate::arch::Arch;
use crate::backend::Backend;
use crate::cpu::{CpuFeatures, Vendor};
use crate::dispatch::bool_text;
use crate::hypercall_hal::HypercallInsn;
use crate::laws::{holds, lemma_bit32};
use crate::machine::Target;
use crate::selftest::{
    any_ran, answer, banner_text, boot_hypervisor_text, chain, counter_text, cpu_text, dma_text,
    extremes, hundredths, integrity_text, iommu, pmu_text, simd_text, usb_text, with_aarch64,
    with_family, with_measurement, with_powerpc, with_probes, with_rate, with_riscv, with_usb_host,
    with_usb_hosts, with_x86, BootHypervisor, CounterRoute, CpuFacts, IntegrityFacts, PmuFacts,
    RateFacts, SimdProbe, UsbHost,
};
use crate::text::{decimal, hex, hex_0x};
use vstd::arithmetic::power2::*;
use vstd::prelude::*;

verus! {

/// The banner names the version and the architecture.
pub proof fn the_banner_names_the_architecture(out: Seq<char>, version: Seq<char>, target: Target)
    ensures
        banner_text(out, version, target) == out + "NanoChronometer "@ + version
            + " — freestanding\narch: "@ + Arch::family(target.machine).label(target) + "\n\n"@,
{
}

/// The processor's page begins with the interrupt priority and ends with the
/// widest family.
pub proof fn the_processors_page_names_the_widest_family(
    out: Seq<char>,
    facts: CpuFacts,
    vendor: Vendor,
    written: Seq<char>,
)
    ensures
        cpu_text(out, facts, vendor, written) == with_family(
            out + "== CPU ==\n  irq priority   : "@ + facts.irq_register@ + " = "@
                + facts.irq_outcome@ + "\n"@,
            facts,
            vendor,
            written,
        ) + "  backend: "@ + Backend::widest(facts.features, facts.target).label() + "\n"@ + "\n"@,
{
}

/// An x86 processor's page: its vendor, whether its stated rate is believed
/// (Intel's only), its features each behind its own name, the enabled state,
/// and the two raw bits behind them.
pub proof fn an_x86_page_shows_its_features(
    out: Seq<char>,
    f: CpuFeatures,
    cpuid: CpuidTable,
    vendor: Vendor,
    written: Seq<char>,
)
    ensures
        ({
            let named = out + "  vendor         : "@ + vendor.readable() + " ("@ + written
                + ")\n"@;
            let leaf = crate::cpu::centaur_leaf(cpuid);
            let leaves = if leaf != 0 {
                named + "  centaur leaves : up to "@ + hex_0x(leaf as int) + "\n"@
            } else {
                named
            };
            with_x86(out, f, cpuid, vendor, written) == leaves + "  tsc leaves     : "@ + (
            if vendor is Intel {
                "CPUID.15H/16H trusted (Intel)"@
            } else {
                "not trusted for this vendor; the counter is measured instead"@
            }) + "\n"@ + "  sse2="@ + bool_text(f.sse2) + " avx="@ + bool_text(f.avx) + " avx2="@
                + bool_text(f.avx2) + "\n  avx512f="@ + bool_text(f.avx512f) + " aesni="@
                + bool_text(f.aesni) + " shani="@ + bool_text(f.shani) + "\n  invariant tsc="@
                + bool_text(f.invariant_counter) + "\n  xcr0="@ + hex_0x(
                cpuid.enabled_state() as int,
            ) + " (supported "@ + ""@ + hex_0x(cpuid.at(13, 0).eax as int) + ")\n"@
                + "  cpuid avx512f="@ + bool_text(holds(cpuid.at(7, 0).ebx as int, 0x1_0000))
                + " osxsave="@ + bool_text(holds(cpuid.at(1, 0).ecx as int, 0x800_0000)) + "\n"@
        }),
{
    lemma2_to64();
    lemma_bit32(cpuid.at(7, 0).ebx, 16);
    lemma_bit32(cpuid.at(1, 0).ecx, 27);
}

/// An AArch64 core's page: its features, its level and its translation.
pub proof fn an_aarch64_page_shows_its_features(
    out: Seq<char>,
    f: CpuFeatures,
    el: u64,
    mmu: bool,
)
    ensures
        with_aarch64(out, f, el, mmu) == out + "  neon="@ + bool_text(f.neon) + " sve="@ + bool_text(
            f.sve,
        ) + " sve2="@ + bool_text(f.sve2) + "\n  aes="@ + bool_text(f.arm_aes) + " sha2="@
            + bool_text(f.arm_sha2) + " sme="@ + bool_text(f.sme) + "\n  el="@ + decimal(el as int)
            + "\n"@ + "  mmu            : "@ + (if mmu {
            "on (identity; image normal write-back, the rest device)"@
        } else {
            "off (all memory device-nGnRnE)"@
        }) + "\n"@,
{
}

/// A RISC-V hart's page: its vectors, the two unit states of its status
/// register, the firmware and the version of its interface, seven bits before
/// twenty-four, and the counters that are let through.
pub proof fn a_riscv_page_shows_its_state(
    out: Seq<char>,
    f: CpuFeatures,
    sstatus: u64,
    firmware: Seq<char>,
    version: u64,
    spec_version: u64,
    cycle: bool,
    instret: bool,
)
    ensures
        with_riscv(out, f, sstatus, firmware, version, spec_version, cycle, instret) == out
            + "  rvv="@ + bool_text(f.rvv) + "\n  sstatus="@ + hex_0x(sstatus as int) + ""@ + " fs="@
            + decimal((sstatus / 0x2000 % 4) as int) + ""@ + " vs="@ + decimal(
            (sstatus / 0x200 % 4) as int,
        ) + "\n"@ + "  sbi            : "@ + firmware + " "@ + hex_0x(version as int) + ""@
            + " (spec "@ + decimal((spec_version / 0x100_0000 % 128) as int) + "."@ + ""@ + decimal(
            (spec_version % 0x100_0000) as int,
        ) + ")\n"@ + "  counters       : cycle="@ + bool_text(cycle) + " instret="@ + bool_text(
            instret,
        ) + " (mcounteren, as firmware left it)\n"@,
{
}

/// A PowerPC core's page: its name and version, its units and levels, what the
/// machine state enables, on 64 bits whether a hypervisor runs it, and its
/// byte order.
pub proof fn a_powerpc_page_shows_its_state(
    out: Seq<char>,
    f: CpuFeatures,
    target: Target,
    core: Seq<char>,
    pvr: u32,
    msr: u64,
    fp: bool,
    vec: bool,
    vsx: bool,
    hypervisor: bool,
)
    ensures
        ({
            let units = out + "  core           : "@ + core + " (pvr "@ + hex_0x(pvr as int)
                + ")\n"@ + "  altivec="@ + bool_text(f.altivec) + " vsx="@ + bool_text(f.vsx)
                + " vec-crypto="@ + bool_text(f.ppc_vec_crypto) + "\n  isa 2.07="@ + bool_text(
                f.ppc_isa207,
            ) + " 3.0="@ + bool_text(f.ppc_isa300) + " 3.1="@ + bool_text(f.ppc_isa31)
                + "\n  msr="@ + hex_0x(msr as int) + ""@ + " fp="@ + bool_text(fp) + " vec="@
                + bool_text(vec) + " vsx="@ + bool_text(vsx) + "\n"@;
            let state = if target.machine is PowerPcWide {
                units + "  state          : "@ + (if hypervisor {
                    "hypervisor (bare metal)"@
                } else {
                    "supervisor (guest)"@
                }) + "\n"@
            } else {
                units
            };
            with_powerpc(out, f, target, core, pvr, msr, fp, vec, vsx, hypervisor) == state
                + "  byte order     : "@ + (if target.little_endian {
                "little-endian"@
            } else {
                "big-endian"@
            }) + "\n"@
        }),
{
}

/// Each vector probe has its row, and no family is told of where none ran.
pub proof fn vector_probes_have_a_row_each(
    out: Seq<char>,
    probes: Seq<SimdProbe>,
    p: SimdProbe,
    target: Target,
)
    ensures
        with_probes(out, Seq::empty()) == out,
        p.units is None ==> with_probes(out, probes.push(p)) == with_probes(out, probes) + "  "@
            + crate::text::padded_right(p.name@, 12) + " probe declined\n"@,
        p.units matches Some(n) ==> with_probes(out, probes.push(p)) == with_probes(out, probes)
            + "  "@ + crate::text::padded_right(p.name@, 12) + " xor "@ + decimal(n as int)
            + " units\n"@,
        p.units is Some ==> any_ran(probes.push(p)),
        p.units is None ==> (any_ran(probes.push(p)) <==> any_ran(probes)),
        !any_ran(Seq::empty()),
        target.simd && any_ran(probes) ==> simd_text(out, target, probes) == with_probes(
            out + "== SIMD (state enabled by the boot stub) ==\n"@,
            probes,
        ) + "\n"@,
        target.simd && !any_ran(probes) ==> simd_text(out, target, probes) == with_probes(
            out + "== SIMD (state enabled by the boot stub) ==\n"@,
            probes,
        ) + "  no family available on this CPU\n"@ + "\n"@,
{
    let longer = probes.push(p);
    assert(longer.drop_last() =~= probes);
    if p.units is Some {
        assert(longer[probes.len() as int].units is Some);
    }
    if any_ran(probes) {
        let i = choose|i: int| 0 <= i < probes.len() && (#[trigger] probes[i]).units is Some;
        assert(longer[i].units is Some);
    }
    if any_ran(longer) && p.units is None {
        let i = choose|i: int| 0 <= i < longer.len() && (#[trigger] longer[i]).units is Some;
        assert(probes[i].units is Some);
    }
}

/// A counter's width is the general ones' for a general counter and the fixed
/// ones' otherwise.
pub proof fn a_counter_is_as_wide_as_its_kind(general: u32, fixed: u32, n: u32)
    ensures
        CounterRoute::General(n).width(general, fixed) == general,
        CounterRoute::Fixed.width(general, fixed) == fixed,
{
}

/// The measured chain adds its step and turns left by three.
pub proof fn the_chain_adds_and_turns(steps: nat)
    requires
        steps < 0x1_0000_0000_0000_0000,
    ensures
        chain(0) == 0,
        ({
            let sum = chain(steps).wrapping_add(steps as u64);
            chain(steps + 1) == (sum << 3u64) | (sum >> 61u64)
        }),
{
}

/// A quotient is shown with two places, cut off.
pub proof fn quotients_have_two_places(a: int, b: int)
    requires
        0 <= a,
        b > 0,
    ensures
        hundredths(a, b) == decimal(a / b) + "."@ + crate::text::two_digits(a % b * 100 / b),
        a / b * b <= a < (a / b + 1) * b,
        0 <= a % b * 100 / b < 100,
{
    assert(a / b * b <= a < (a / b + 1) * b) by (nonlinear_arith)
        requires
            b > 0,
    ;
    let r = a % b;
    assert(0 <= r < b) by (nonlinear_arith)
        requires
            r == a % b,
            b > 0,
    ;
    assert(0 <= r * 100 / b < 100) by (nonlinear_arith)
        requires
            0 <= r < b,
    ;
}

/// What was counted, per operation of the hundred thousand and per cycle; a
/// measurement that moved to another kind of core is thrown away.
pub proof fn what_was_counted_is_told(out: Seq<char>, facts: PmuFacts)
    ensures
        ({
            let counted = match facts.cycles {
                Some(c) => out + "  100000 dependent ops\n    cycles       : "@ + decimal(c as int)
                    + "\n    cycles/op    : "@ + hundredths(c as int, 100_000) + "\n"@,
                None => out + "  measurement discarded: the core type changed mid-run\n"@,
            };
            match facts.instructions {
                Some(n) => {
                    let line = counted + "    instructions : "@ + decimal(n as int) + "\n"@;
                    with_measurement(out, facts) == (match facts.cycles {
                        Some(c) => if c == 0 {
                            line
                        } else {
                            line + "    ipc          : "@ + hundredths(n as int, c as int) + "\n"@
                        },
                        None => line,
                    })
                },
                None => with_measurement(out, facts) == counted,
            }
        }),
{
}

/// The counters' page: what there is, and the measurement where one advanced.
pub proof fn the_counters_page_shows_what_there_is(out: Seq<char>, facts: PmuFacts)
    ensures
        ({
            let there = out + "== PMU (direct, no kernel) ==\n"@ + "  core type      : "@
                + facts.core_type@ + "\n"@ + "  interface      : "@ + facts.interface@ + "\n"@
                + "  version        : "@ + decimal(facts.version as int) + "\n"@
                + "  general        : "@ + decimal(facts.general_counters as int) + " counters, "@
                + ""@ + decimal(facts.general_width as int) + " bits\n"@ + "  fixed          : "@
                + decimal(facts.fixed_counters as int) + " counters, "@ + ""@ + decimal(
                facts.fixed_width as int,
            ) + " bits\n"@;
            let route = there + "  counter route  : "@ + facts.route_name@ + "\n"@;
            &&& !facts.available ==> pmu_text(out, facts) == there
                + "  no PMU on this core; skipping the measurement\n\n"@
            &&& facts.available && facts.route is Nothing ==> pmu_text(out, facts) == route
                + "  no counter advanced; the measurement would be zeros\n\n"@
            &&& facts.available && !(facts.route is Nothing) ==> pmu_text(out, facts)
                == with_measurement(route, facts) + "\n"@
        }),
{
}

/// The counter's page: the shortest and the longest of the reads, and the
/// distance between them.
pub proof fn jitter_is_the_longest_less_the_shortest(
    out: Seq<char>,
    rounds: int,
    shortest: int,
    longest: int,
    rate: RateFacts,
    pairs: Seq<(u64, u64)>,
    low: u64,
    high: u64,
    i: int,
)
    requires
        extremes(pairs, low, high),
        0 <= i < pairs.len(),
    ensures
        counter_text(out, rounds, shortest, longest, rate) == with_rate(
            out + "== Counter ==\n"@ + "  read overhead  : "@ + decimal(shortest)
                + " units (min of "@ + ""@ + decimal(rounds) + ")\n"@ + "  worst read     : "@
                + decimal(longest) + " units\n"@ + "  jitter         : "@ + decimal(
                longest - shortest,
            ) + " units\n"@,
            rate,
        ) + "\n"@,
        low <= elapsed(pairs[i].0, pairs[i].1) <= high,
        exists|k: int|
            0 <= k < pairs.len() && elapsed((#[trigger] pairs[k]).0, pairs[k].1) == low,
        exists|k: int|
            0 <= k < pairs.len() && elapsed((#[trigger] pairs[k]).0, pairs[k].1) == high,
{
    let all = all_elapsed(pairs);
    assert(all[i] == elapsed(pairs[i].0, pairs[i].1));
    let a = choose|a: int| 0 <= a < all.len() && all[a] == low;
    let b = choose|b: int| 0 <= b < all.len() && all[b] == high;
    assert(all[a] == elapsed(pairs[a].0, pairs[a].1));
    assert(all[b] == elapsed(pairs[b].0, pairs[b].1));
}

/// The rate is told with where it came from, and the physical counter warned
/// of.
pub proof fn the_rate_is_told_with_its_source(
    out: Seq<char>,
    name: String,
    hz: u64,
    physical: bool,
)
    ensures
        with_rate(out, (RateFacts::DeviceTree { counter: name, hz: Some(hz) })) == out
            + "  counter        : "@ + name@ + " ("@ + decimal(hz as int)
            + " Hz, from the device tree)\n"@,
        with_rate(out, (RateFacts::DeviceTree { counter: name, hz: None })) == out
            + "  counter        : "@ + name@ + " (rate unknown: no timebase-frequency)\n"@,
        with_rate(out, (RateFacts::Timer { source: name, hz, physical: false })) == out
            + "  counter        : "@ + name@ + " ("@ + decimal(hz as int) + " Hz)\n"@,
        with_rate(out, (RateFacts::Timer { source: name, hz, physical: true })) == out
            + "  counter        : "@ + name@ + " ("@ + decimal(hz as int) + " Hz)\n"@
            + "  warning        : physical counter — not recommended inside a VM\n"@,
        with_rate(out, RateFacts::Unstated) == out,
{
}

/// A USB controller is shown by its identifiers and its place, an xHCI with
/// its pages and its owner.
pub proof fn a_usb_controller_is_shown_by_its_place(
    out: Seq<char>,
    host: UsbHost,
    hosts: Seq<UsbHost>,
)
    ensures
        ({
            let place = out + "  "@ + hex(host.vendor as int, 4) + ":"@ + hex(host.device as int, 4)
                + "  "@ + host.kind@ + "\n    "@ + hex(host.bus as int, 2) + ":"@ + hex(
                host.slot as int,
                2,
            ) + "."@ + decimal(host.function as int) + "  bar0="@ + ""@ + hex_0x(host.bar0 as int)
                + "\n"@;
            match host.xhci {
                Some((pages, owned)) => with_usb_host(out, host) == place
                    + "    scratchpad pages : "@ + decimal(pages as int) + "\n"@
                    + "    owned by firmware: "@ + answer(owned) + "\n"@,
                None => with_usb_host(out, host) == place,
            }
        }),
        with_usb_hosts(out, Seq::empty()) == out,
        with_usb_hosts(out, hosts.push(host)) == with_usb_host(with_usb_hosts(out, hosts), host),
        usb_text(out, hosts) == with_usb_hosts(out + "== USB host controllers ==\n"@, hosts) + (
        if hosts.len() == 0 {
            "  none; input is whatever firmware translated to the 8042\n\n"@
        } else {
            "  brought up by the input layer, once, when PS/2 finds nothing\n\n"@
        }),
{
    assert(hosts.push(host).drop_last() =~= hosts);
}

/// The unit that guards memory is known by the first of its two tables, `DMAR`
/// or `IVRS`.
pub proof fn the_guarding_unit_is_known_by_its_table(
    tables: Seq<[u8; 4]>,
    first: [u8; 4],
    i: int,
)
    requires
        0 <= i <= tables.len(),
        forall|j: int|
            0 <= j < i ==> !crate::laws::spells((#[trigger] tables[j])@, "DMAR"@)
                && !crate::laws::spells(tables[j]@, "IVRS"@),
    ensures
        i == tables.len() ==> iommu(tables) == "none described"@,
        i < tables.len() && crate::laws::spells(tables[i]@, "DMAR"@) ==> iommu(tables)
            == "Intel VT-d (DMAR)"@,
        i < tables.len() && crate::laws::spells(tables[i]@, "IVRS"@) ==> iommu(tables)
            == "AMD-Vi (IVRS)"@,
    decreases tables.len(),
{
    if tables.len() > 0 {
        lemma_tables(tables[0]@);
        if i > 0 {
            assert(!crate::laws::spells(tables[0]@, "DMAR"@));
            let rest = tables.skip(1);
            assert forall|j: int| 0 <= j < i - 1 implies !crate::laws::spells(
                (#[trigger] rest[j])@,
                "DMAR"@,
            ) && !crate::laws::spells(rest[j]@, "IVRS"@) by {
                assert(rest[j] == tables[j + 1]);
            }
            the_guarding_unit_is_known_by_its_table(rest, first, i - 1);
        }
    }
}

proof fn lemma_tables(s: Seq<u8>)
    ensures
        crate::laws::spells(s, "DMAR"@) <==> crate::selftest::is_dmar(s),
        crate::laws::spells(s, "IVRS"@) <==> crate::selftest::is_ivrs(s),
        crate::selftest::is_dmar(s) ==> !crate::selftest::is_ivrs(s),
{
    reveal_strlit("DMAR");
    reveal_strlit("IVRS");
    if crate::laws::spells(s, "DMAR"@) {
        assert(s[0] as int == "DMAR"@[0] as int && s[1] as int == "DMAR"@[1] as int);
        assert(s[2] as int == "DMAR"@[2] as int && s[3] as int == "DMAR"@[3] as int);
        assert(s =~= seq![0x44u8, 0x4d, 0x41, 0x52]);
    }
    if crate::laws::spells(s, "IVRS"@) {
        assert(s[0] as int == "IVRS"@[0] as int && s[1] as int == "IVRS"@[1] as int);
        assert(s[2] as int == "IVRS"@[2] as int && s[3] as int == "IVRS"@[3] as int);
        assert(s =~= seq![0x49u8, 0x56, 0x52, 0x53]);
    }
    if crate::selftest::is_ivrs(s) {
        assert(s[0] == 0x49);
    }
}

/// What the protection of memory came to.
pub proof fn protection_is_told_with_its_counts(
    out: Seq<char>,
    tables: Seq<[u8; 4]>,
    revoked: u32,
    kept: u32,
)
    ensures
        dma_text(out, tables, revoked, kept) == out
            + "== DMA protection ==\n  iommu          : "@ + iommu(tables)
            + " (not programmed by this kernel)\n"@ + "  bus mastering  : revoked on "@ + decimal(
            revoked as int,
        ) + ", kept on "@ + ""@ + decimal(kept as int) + "\n"@
            + "  kept devices (bridges, display, USB hosts) can still reach all of memory\n\n"@,
{
}

/// What the boot found of a hypervisor: an empty signature is none, a leaf of
/// zero is not shown, and without a pairing it is said why.
pub proof fn the_boot_tells_what_it_found(out: Seq<char>, h: BootHypervisor)
    ensures
        ({
            let first = out + "== Hypervisor ==\n"@ + "  cpuid bit      : "@ + answer(h.cpuid_bit)
                + "\n"@ + "  signature      : "@ + (if h.signature@.len() == 0 {
                "none"@
            } else {
                h.signature@
            }) + "\n"@;
            let second = (if h.max_leaf == 0 {
                first
            } else {
                first + "  max hv leaf    : "@ + hex_0x(h.max_leaf as int) + "\n"@
            }) + "  hypercall      : "@ + answer(h.hypercall_ok) + "\n"@;
            let third = match h.x86 {
                Some((insn, vendor)) => second + "  hypercall HAL  : "@ + (match insn {
                    Some(HypercallInsn::Vmcall) => "vmcall"@,
                    Some(HypercallInsn::Vmmcall) => "vmmcall"@,
                    None => "none (unknown vendor)"@,
                }) + " (by CPU vendor "@ + vendor.readable() + ")\n"@,
                None => second,
            };
            let fourth = third + "  hypercalls     : "@ + decimal(h.hypercalls as int)
                + " (boot negotiation only; the stopwatch reads the counter)\n"@
                + "  probes run     : "@ + decimal(h.probes as int)
                + " (boot negotiation; re-probe waits "@ + ""@ + decimal(h.cooldown_s as int)
                + " s between)\n"@;
            boot_hypervisor_text(out, h) == (match h.pairing {
                Some((host_ns, counter)) => fourth + "  host clock     : "@ + decimal(
                    host_ns as int,
                ) + " ns\n"@ + "  paired counter : "@ + decimal(counter as int)
                    + "\n  the guest timebase can be expressed on the host's\n"@,
                None => if h.virtualized {
                    fourth + "  no clock pairing: this hypervisor does not offer one\n"@
                } else {
                    fourth + "  bare metal: the counter is physical\n"@
                },
            }) + "\n"@
        }),
{
}

/// What became of stored state, each count behind its own name.
pub proof fn stored_state_is_told_by_name(out: Seq<char>, i: IntegrityFacts)
    ensures
        integrity_text(out, i) == out + "== Stored-state integrity ==\n"@
            + "  clean          : "@ + i.clean@ + "\n"@ + "  one bit        : "@ + i.one_bit@
            + " (recovered: "@ + bool_text(i.one_bit_recovered) + ")\n"@
            + "  two bits       : "@ + i.two_bits@ + " (recovered: "@ + bool_text(
            i.two_bits_recovered,
        ) + ")\n"@ + "  checks="@ + decimal(i.checks as int) + " ecc="@ + ""@ + decimal(
            i.ecc_corrections as int,
        ) + " tmr="@ + ""@ + decimal(i.tmr_corrections as int) + " lost="@ + ""@ + decimal(
            i.unrecoverable as int,
        ) + "\n\nselftest complete; halting\n"@,
{
}

} // verus!
