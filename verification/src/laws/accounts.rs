//! The longer accounts: of the platform, of the dispatch and of a run.
use crate::arch::aarch64;
use crate::arch::powerpc::TimebaseRate;
use crate::arch::riscv::HartFacts;
use crate::arch::x86::CpuidTable;
use crate::backend::Backend;
use crate::bench::{BenchHost, BenchKernel, BenchMode, KernelAlgorithm};
use crate::cli_report::{catalog_head, drill_text, with_drill, DrillRow};
use crate::cpu::{CpuFeatures, Vendor};
use crate::dispatch::{runnable_names, Dispatcher, KernelRun, Offer, Overrides};
use crate::harness::{header_text, module_text, ring0_lines, BenchConfig, HeaderFacts, Workload};
use crate::hypervisor::{
    source_names, summary_text, with_hypercalls, with_kernel, with_leaves, with_registers,
    with_sources, with_strings, with_sync, with_trap, with_uid, with_vendor, with_verdict,
    DetailContext, DetectionSource, ExitCost, HypervisorReport, ProbeView, ReportView,
};
use crate::kcrypto::Ring0;
use crate::machine::Target;
use crate::reprobe::Gate;
use crate::text::{decimal, hex};
use vstd::prelude::*;

verus! {

/// An account of the platform gives its parts in one order, and the advice
/// last.
pub proof fn an_account_gives_its_parts_in_order(
    r: ReportView,
    c: DetailContext,
    written: Seq<char>,
)
    requires
        c.vendor is None,
    ensures
        ({
            let head = with_sources(with_leaves(with_verdict(Seq::empty(), r), r), r.sources);
            let registers = with_uid(with_registers(head, r, c.counter_mhz@), r.kernel);
            let probes = with_strings(
                with_trap(registers, r.exit_cost, c.aarch64, c.exit_ratio@),
                r.dmi,
            );
            crate::hypervisor::detailed_text(r, c, written) == with_sync(
                with_kernel(probes, r.kernel),
                c.sync,
            ) + ("\n"@ + r.timing_impact.advised())
        }),
{
}

/// An account begins with the hypervisor, how sure that is, and what it does
/// to timing.
pub proof fn an_account_begins_with_what_was_found(out: Seq<char>, r: ReportView)
    ensures
        with_verdict(out, r) == out + ("hypervisor    : "@ + r.hypervisor.shown() + "\n"@
            + "confidence    : "@ + r.confidence.shown() + "\n"@ + "timing impact : "@
            + r.timing_impact.shown() + "\n"@),
{
}

/// The processor's vendor is given beside its signature, the highest Centaur
/// leaf where there is one, and a note where the rate was measured.
pub proof fn a_vendor_is_given_with_its_signature(
    out: Seq<char>,
    vendor: Vendor,
    written: Seq<char>,
    centaur: u32,
)
    requires
        centaur != 0,
    ensures
        ({
            let head = "cpu vendor    : "@ + vendor.readable() + " ("@ + written + ")\n"@;
            let leaves = "centaur leaves: up to 0x"@ + hex(centaur as int, 0) + "\n"@;
            let note = "counter rate  : measured, not read from CPUID (not an Intel part)\n"@;
            &&& vendor is Intel ==> with_vendor(out, vendor, written, 0) == out + head
            &&& !(vendor is Intel) ==> with_vendor(out, vendor, written, 0) == out + (head + note)
            &&& vendor is Intel ==> with_vendor(out, vendor, written, centaur) == out + (head
                + leaves)
            &&& !(vendor is Intel) ==> with_vendor(out, vendor, written, centaur) == out + (head
                + leaves + note)
        }),
{
}

/// What the hypervisor's leaves said is given as far as they said it, a rate
/// in kilohertz and in megahertz to three places.
pub proof fn leaves_are_given_as_far_as_they_go(out: Seq<char>, r: ReportView, khz: u32)
    ensures
        r.signature is None && r.max_hypervisor_leaf is None && r.declared_tsc_khz is None
            ==> with_leaves(out, r) == out,
        r.signature is None && r.max_hypervisor_leaf is None && r.declared_tsc_khz == Some(khz)
            ==> with_leaves(out, r) == out + ("declared tsc  : "@ + decimal(khz as int) + " kHz ("@
            + decimal(khz as int / 1000) + "."@ + crate::text::thousandths(khz as int % 1000)
            + " MHz)\n"@),
        r.signature is None && r.declared_tsc_khz is None ==> (r.max_hypervisor_leaf matches Some(
            leaf,
        ) ==> with_leaves(out, r) == out + ("max hv leaf   : 0x"@ + hex(leaf as int, 8) + "\n"@)),
        r.max_hypervisor_leaf is None && r.declared_tsc_khz is None ==> (r.signature matches Some(
            signature,
        ) ==> with_leaves(out, r) == out + ("cpuid vendor  : "@ + crate::text::debug_shown(
            signature,
        ) + "\n"@)),
{
}

/// The sources are named in order with a space between them, or none is.
pub proof fn sources_are_named_in_order(
    out: Seq<char>,
    sources: Seq<DetectionSource>,
    last: DetectionSource,
)
    ensures
        with_sources(out, Seq::empty()) == out + ("sources       : "@ + "none"@ + "\n"@),
        with_sources(out, seq![last]) == out + ("sources       : "@ + last.shown() + "\n"@),
        sources.len() > 0 ==> source_names(sources.push(last)) == source_names(sources) + (" "@
            + last.shown()),
        sources.len() > 0 ==> with_sources(out, sources) == out + ("sources       : "@
            + source_names(sources) + "\n"@),
{
    assert(sources.push(last).drop_last() =~= sources);
    assert(seq![last][0] == last);
}

/// An ARM's registers are given where they were read, and the frequency is
/// marked where it gave the timer away.
pub proof fn registers_are_given_where_they_were_read(out: Seq<char>, r: ReportView, mhz: Seq<char>)
    ensures
        r.arm_counter_hz == 0 && r.arm_midr_el1 == 0 && r.arm_ctr_el0 == 0 ==> with_registers(
            out,
            r,
            mhz,
        ) == out,
        r.arm_counter_hz == 0 && r.arm_midr_el1 == 0 && r.arm_ctr_el0 != 0 ==> with_registers(
            out,
            r,
            mhz,
        ) == out + ("ctr_el0       : 0x"@ + hex(r.arm_ctr_el0 as int, 16) + "\n"@),
        r.arm_counter_hz != 0 && r.arm_midr_el1 == 0 && r.arm_ctr_el0 == 0
            && !r.sources.contains(DetectionSource::ArmCounterFrequency) ==> with_registers(
            out,
            r,
            mhz,
        ) == out + ("cntfrq_el0    : "@ + decimal(r.arm_counter_hz as int) + " Hz ("@ + mhz
            + " MHz)"@ + "\n"@),
        r.arm_counter_hz != 0 && r.arm_midr_el1 == 0 && r.arm_ctr_el0 == 0
            && r.sources.contains(DetectionSource::ArmCounterFrequency) ==> with_registers(
            out,
            r,
            mhz,
        ) == out + ("cntfrq_el0    : "@ + decimal(r.arm_counter_hz as int) + " Hz ("@ + mhz
            + " MHz)"@ + "  <- virtual timer frequency"@ + "\n"@),
        r.arm_counter_hz == 0 && r.arm_midr_el1 != 0 && r.arm_ctr_el0 == 0 ==> with_registers(
            out,
            r,
            mhz,
        ) == out + ("midr_el1      : 0x"@ + hex(r.arm_midr_el1 as int, 16) + "  implementer=0x"@
            + hex(crate::hypervisor::implementer(r.arm_midr_el1) as int, 2) + " part=0x"@ + hex(
            crate::hypervisor::part_number(r.arm_midr_el1) as int,
            3,
        ) + "\n"@),
{
    reveal_strlit("");
}

/// A processor's implementer is bits 24 to 31 of its register, and its part
/// the twelve bits from bit 4 on.
pub proof fn a_processor_is_named_by_its_register(
    midr: u64,
    low: u64,
    part: u64,
    between: u64,
    implementer: u64,
    above: u64,
)
    requires
        low < 0x10 && part < 0x1000 && between < 0x100 && implementer < 0x100,
        above < 0x1_0000_0000,
        midr == low + 0x10 * part + 0x1_0000 * between + 0x100_0000 * implementer + 0x1_0000_0000
            * above,
    ensures
        crate::hypervisor::implementer(midr) == implementer,
        crate::hypervisor::part_number(midr) == part,
{
    assert((midr >> 24) & 0xFF == (midr / 0x100_0000) % 0x100 && (midr >> 4) & 0xFFF == (midr
        / 0x10) % 0x1000) by (bit_vector);
    assert(midr / 0x100_0000 == implementer + 0x100 * above);
    assert(midr / 0x10 == part + 0x1000 * (between + 0x100 * implementer + 0x1_0000 * above));
}

/// A vendor's identifier is given as its four words.
pub proof fn an_identifier_is_four_words(out: Seq<char>, k: ProbeView)
    ensures
        with_uid(out, None) == out,
        k.hvc_vendor_uid is None ==> with_uid(out, Some(k)) == out,
        k.hvc_vendor_uid matches Some(uid) ==> with_uid(out, Some(k)) == out + (
        "hvc vendor uid: "@ + hex(uid[0] as int, 8) + " "@ + hex(uid[1] as int, 8) + " "@ + hex(
            uid[2] as int,
            8,
        ) + " "@ + hex(uid[3] as int, 8) + "\n"@),
{
}

/// A trap's cost is given beside a plain read's, and what it suggests.
pub proof fn a_trap_is_given_beside_a_plain_read(
    out: Seq<char>,
    cost: ExitCost,
    ratio: Seq<char>,
)
    ensures
        with_trap(out, None, true, ratio) == out,
        with_trap(out, None, false, ratio) == out,
        ({
            let figures = "="@ + decimal(cost.trap_cycles as int) + " cyc  baseline="@ + decimal(
                cost.baseline_cycles as int,
            ) + " cyc  ratio="@ + ratio + "x  exit="@;
            &&& !cost.suggests_exit ==> with_trap(out, Some(cost), true, ratio) == out + (
            "trap probe    : "@ + "isb"@ + figures + "no"@ + "\n"@)
            &&& cost.suggests_exit ==> with_trap(out, Some(cost), true, ratio) == out + (
            "trap probe    : "@ + "isb"@ + figures + "emulated"@ + "\n"@)
            &&& !cost.suggests_exit ==> with_trap(out, Some(cost), false, ratio) == out + (
            "trap probe    : "@ + "cpuid"@ + figures + "no"@ + "\n"@)
            &&& cost.suggests_exit ==> with_trap(out, Some(cost), false, ratio) == out + (
            "trap probe    : "@ + "cpuid"@ + figures + "likely"@ + "\n"@)
        }),
{
}

/// The firmware's three texts are given where it has them.
pub proof fn firmware_texts_are_given(out: Seq<char>, dmi: crate::hypervisor::DmiView)
    ensures
        dmi.sys_vendor is None && dmi.product_name is None && dmi.bios_vendor is None
            ==> with_strings(out, dmi) == out,
        (dmi.sys_vendor matches Some(vendor) && dmi.product_name matches Some(product)
            && dmi.bios_vendor matches Some(bios) && with_strings(out, dmi) == out + (
        "dmi sys_vendor: "@ + vendor + "\n"@ + "dmi product   : "@ + product + "\n"@
            + "dmi bios      : "@ + bios + "\n"@)) || dmi.sys_vendor is None
            || dmi.product_name is None || dmi.bios_vendor is None,
{
}

/// The kernel module's hypercalls are given with what they did.
pub proof fn hypercalls_are_given_with_their_outcomes(out: Seq<char>, k: ProbeView)
    requires
        k.hypercall_result is None,
        k.vmx_available is None,
        k.current_el is None,
    ensures
        with_hypercalls(out, k) == out + ("kernel module : loaded (v"@ + decimal(k.version as int)
            + ")\n"@ + "  vmcall="@ + crate::hypervisor::outcome(k.vmcall_ok) + " vmmcall="@
            + crate::hypervisor::outcome(k.vmmcall_ok) + " hvc="@ + crate::hypervisor::outcome(
            k.hvc_ok,
        ) + "\n"@),
        with_kernel(out, None) == out + (
        "kernel module : not loaded (optional; see kernel/linux/README.md)\n"@),
{
}

/// An account of the dispatch gives each choice with its reason.
pub proof fn a_dispatch_gives_each_choice_with_its_reason(d: Dispatcher, platform: HypervisorReport)
    ensures
        ({
            let target = d.host.counter.target;
            let first = "arch="@ + d.host.arch().label(target) + " backend="@ + d.backend.label()
                + " ("@ + d.backend_reason.label() + ") simd="@ + d.catalogue.name_of(d.simd)
                + " ("@ + d.simd_reason.label() + ") route="@ + d.route.label() + " ("@
                + d.route_reason.label() + ")"@;
            let second = "\nplatform="@ + summary_text(platform@) + " ("@
                + platform.timing_impact.shown() + ")"@;
            let third = "\ninvariant_counter="@ + (if d.features.invariant_counter {
                "true"@
            } else {
                "false"@
            }) + " available=["@ + runnable_names(Backend::every(), d.features, target).0 + "]"@;
            d.account(platform) == first + second + third
        }),
{
    reveal_strlit(")\nplatform=");
    reveal_strlit("\nplatform=");
    reveal_strlit(")");
    reveal_strlit(")\ninvariant_counter=");
    reveal_strlit("\ninvariant_counter=");
    assert(")\nplatform="@ =~= ")"@ + "\nplatform="@);
    assert(")\ninvariant_counter="@ =~= ")"@ + "\ninvariant_counter="@);
}

/// The backends that can be run are named in the list's order, with a space
/// between two.
pub proof fn runnable_backends_are_named_in_order(
    list: Seq<Backend>,
    b: Backend,
    f: CpuFeatures,
    target: Target,
)
    ensures
        runnable_names(Seq::empty(), f, target) == (Seq::<char>::empty(), false),
        !b.available(f, target) ==> runnable_names(list.push(b), f, target) == runnable_names(
            list,
            f,
            target,
        ),
        b.available(f, target) && runnable_names(list, f, target).1 ==> runnable_names(
            list.push(b),
            f,
            target,
        ) == (runnable_names(list, f, target).0 + " "@ + b.label(), true),
        b.available(f, target) && !runnable_names(list, f, target).1 ==> runnable_names(
            list.push(b),
            f,
            target,
        ) == (runnable_names(list, f, target).0 + b.label(), true),
{
    assert(list.push(b).drop_last() =~= list);
}

/// What ring 0 measured is listed line by line.
pub proof fn ring0_is_listed_line_by_line(
    out: Seq<char>,
    timings: Seq<(Seq<char>, u64)>,
    name: Seq<char>,
    cycles: u64,
)
    ensures
        ring0_lines(out, Seq::empty()) == out,
        ring0_lines(out, timings.push((name, cycles))) == ring0_lines(out, timings) + (
        "  ring 0 "@ + name + ": "@ + decimal(cycles as int) + " cycles/op\n"@),
{
    assert(timings.push((name, cycles)).drop_last() =~= timings);
}

/// On Linux a run says whether the kernel module is there.
pub proof fn a_run_says_whether_the_module_is_there(
    out: Seq<char>,
    host: BenchHost,
    size: Seq<char>,
)
    ensures
        !host.target.linux ==> module_text(out, host, size) == out,
        host.target.linux && host.ring0 is None ==> module_text(out, host, size) == out + (
        "ring 0 module: not loaded (optional; see kernel/linux/README.md)\n"@),
        host.target.linux ==> (host.ring0 matches Some(r) ==> module_text(out, host, size)
            == ring0_lines(
            out + ("ring 0 module: loaded; "@ + decimal(r.timings@.len() as int)
                + " algorithm(s), best of "@ + decimal(r.rounds as int) + " over "@ + size
                + "\n"@),
            r@.timings,
        )),
{
    if let Some(r) = host.ring0 {
        let head = "ring 0 module: loaded; "@ + decimal(r.timings@.len() as int)
            + " algorithm(s), best of "@ + decimal(r.rounds as int) + " over "@ + size + "\n"@;
        assert(out + head =~= out + "ring 0 module: loaded; "@ + decimal(r.timings@.len() as int)
            + " algorithm(s), best of "@ + decimal(r.rounds as int) + " over "@ + size + "\n"@);
    }
}

/// A run's head names the operation and what it runs with, before the module,
/// the provider and the processor's flags.
pub proof fn a_run_begins_with_what_it_measures(
    out: Seq<char>,
    config: BenchConfig,
    host: BenchHost,
    facts: HeaderFacts,
)
    requires
        !host.target.linux,
    ensures
        header_text(out, config, host, facts) == crate::harness::flags_text(
            out + ("=== NanoChronometer benchmark ===\noperation: "@ + config.kernel.title(host)
                + "\nmode: "@ + config.mode.title() + "\nbackend: "@ + facts.backend@
                + "\nsimd: "@ + facts.simd@ + "\ncounter: "@ + facts.counter_mhz@
                + " MHz  invariant="@ + (if host.features.invariant_counter {
                "true"@
            } else {
                "false"@
            }) + "\n"@ + "crypto provider: "@ + facts.provider@ + "\ncpu flags: "@),
            host.features,
            host.target.machine,
        ) + "\n\n"@,
{
    let truth = if host.features.invariant_counter {
        "true"@
    } else {
        "false"@
    };
    let rest = "=== NanoChronometer benchmark ===\noperation: "@ + config.kernel.title(host)
        + "\nmode: "@ + config.mode.title() + "\nbackend: "@ + facts.backend@ + "\nsimd: "@
        + facts.simd@ + "\ncounter: "@ + facts.counter_mhz@ + " MHz  invariant="@ + truth + "\n"@
        + "crypto provider: "@ + facts.provider@ + "\ncpu flags: "@;
    assert(out + rest =~= out + "=== NanoChronometer benchmark ===\noperation: "@
        + config.kernel.title(host) + "\nmode: "@ + config.mode.title() + "\nbackend: "@
        + facts.backend@ + "\nsimd: "@ + facts.simd@ + "\ncounter: "@ + facts.counter_mhz@
        + " MHz  invariant="@ + truth + "\n"@ + "crypto provider: "@ + facts.provider@
        + "\ncpu flags: "@);
}

/// What ring 0 could not measure says why.
pub proof fn ring0_says_why_it_measured_nothing(report: Ring0, algorithm: KernelAlgorithm)
    ensures
        crate::harness::ring0_failure(Some(report), algorithm)
            == "the loaded module did not measure "@ + (algorithm.kernel_name()
            + "; this kernel may not                      provide it"@),
        crate::harness::ring0_failure(None, algorithm)
            == "the kernel module is not loaded; build and insert kernel/linux/                  (see its README), or use --mode kernel for the ring-3 measurement"@,
{
}

/// The modes are offered in one order, the kernel's only on Linux; five
/// algorithms are measured in both rings.
pub proof fn modes_are_offered_in_order()
    ensures
        BenchMode::offered(false) == seq![
            BenchMode::CpuIsa,
            BenchMode::Crypto,
            BenchMode::TlsHandshake,
            BenchMode::CryptoRaw,
        ],
        BenchMode::offered(true).len() == 6,
        BenchMode::offered(true).take(3) == BenchMode::offered(false).take(3),
        BenchMode::offered(true)[3] is KernelCrypto,
        BenchMode::offered(true)[4] is KernelCryptoRing0,
        BenchMode::offered(true)[5] is CryptoRaw,
{
}

/// The catalogue begins with the processor, its counter and the platform.
pub proof fn a_catalogue_begins_with_the_processor(
    out: Seq<char>,
    brand: Option<String>,
    f: CpuFeatures,
    platform: HypervisorReport,
)
    ensures
        ({
            let rest = "invariant counter: "@ + (if f.invariant_counter {
                "yes"@
            } else {
                "no"@
            }) + "\nplatform: "@ + summary_text(platform@) + "\n\nTIMER BACKENDS\n"@;
            &&& brand is None ==> catalog_head(out, brand, f, platform) == out + rest
            &&& brand matches Some(name) ==> catalog_head(out, brand, f, platform) == out + (
            "cpu: "@ + name@ + "\n"@ + rest)
        }),
{
}

/// A drill shows what was injected into a scratch value first and then what
/// was injected into live state.
pub proof fn a_drill_shows_scratch_before_live(
    out: Seq<char>,
    scratch: Seq<DrillRow>,
    live: Seq<DrillRow>,
)
    ensures
        drill_text(out, scratch, live) == with_drill(
            with_drill(
                out
                    + "Fault-injection drill on a scratch value — nothing live is touched.\n\nINJECTED                           TIER                   RECOVERED\n"@,
                scratch,
            )
                + "\nLive state — the flip lands in a real stopwatch and a real calibration.\n\nINJECTED                           TIER                   READING HELD\n"@,
            live,
        ) + "\n"@,
{
}

/// The heads of the tables and the closing line of a run.
pub proof fn heads_are_as_wide_as_their_columns(
    probes: &mut String,
    families: &mut String,
    wrappers: &mut String,
    log: &mut String,
)
    requires
        call_ensures(crate::cli_session::write_probe_head, (probes,), ()),
        call_ensures(crate::cli_session::write_simd_head, (families,), ()),
        call_ensures(crate::cli_report::write_wrapper_head, (wrappers,), ()),
        call_ensures(crate::harness::write_completed, (log,), ()),
    ensures
        final(probes)@ == old(probes)@ + (crate::text::padded_right("PROBE"@, 18) + " "@
            + crate::text::padded_left("UNITS"@, 12) + "\n"@),
        final(families)@ == old(families)@ + (
        "SIMD probes (available families only, CPUID-gated):\n\n"@ + crate::text::padded_right(
            "FAMILY"@,
            16,
        ) + " "@ + crate::text::padded_left("WIDTH"@, 6) + " "@ + crate::text::padded_left(
            "VECTOR_LOAD"@,
            14,
        ) + " "@ + crate::text::padded_left("VECTOR_XOR"@, 14) + " "@ + crate::text::padded_left(
            "BARRIER"@,
            12,
        ) + "\n"@),
        final(wrappers)@ == old(wrappers)@
            + "Native call-overhead baselines. Interpreted wrappers must add their own\nmarshalling cost on top: this process cannot measure another runtime.\n\nWRAPPER                 UNITS         NS  SOURCE\n"@,
        final(log)@ == old(log)@ + "\nstatus: completed successfully.\n"@,
{
}

/// A timebase whose rate was never told has none.
pub proof fn a_rate_of_zero_is_no_rate(
    rate: TimebaseRate,
    hart: HartFacts,
    power: Option<u64>,
    risc: Option<u64>,
)
    requires
        call_ensures(TimebaseRate::timebase_hz, (&rate,), power),
        call_ensures(HartFacts::timebase_hz, (&hart,), risc),
    ensures
        power is None <==> rate.hz == 0,
        power matches Some(hz) ==> hz == rate.hz,
        risc is None <==> hart.timebase == 0,
        risc matches Some(hz) ==> hz == hart.timebase,
{
}

/// A new gate has its cool-down on and nothing to wait for.
pub proof fn a_new_gate_is_open(gate: Gate)
    requires
        call_ensures(Gate::new, (), gate),
    ensures
        gate.cooldown,
        gate.last_ns is None,
{
}

/// A brand is read where the extended leaves go as far as 0x80000004.
pub proof fn a_brand_needs_its_leaves(cpu: CpuidTable, brand: Option<String>)
    requires
        call_ensures(crate::cpu::brand_string, (&cpu,), brand),
    ensures
        brand is Some <==> cpu.at(0x8000_0000, 0).eax >= 0x8000_0004,
{
}

/// The first table that was resolved is kept; before there is one, what can
/// be run is chosen.
pub proof fn the_first_table_is_kept(
    kept: Option<Dispatcher>,
    offer: Offer,
    overrides: Overrides,
    table: Dispatcher,
)
    requires
        call_ensures(Dispatcher::global, (kept, offer, &overrides), table),
    ensures
        kept matches Some(first) ==> table == first,
        kept is None ==> table.features == offer.features && table.catalogue == offer.simd
            && table.backend.available(offer.features, offer.counter.target)
            && table.route.available(table.host),
{
}

/// A backend is run where it is available and nowhere else.
pub proof fn only_an_available_backend_runs(
    table: Dispatcher,
    b: Backend,
    loops: usize,
    run: Option<KernelRun>,
    worked: Option<KernelRun>,
)
    requires
        call_ensures(Dispatcher::run_kernel_for, (&table, b, loops), run),
        call_ensures(
            Workload::execute,
            (&(Workload::Isa { kernel: BenchKernel::Isa(b) }), &table, loops),
            worked,
        ),
    ensures
        run is Some <==> b.available(table.features, table.host.counter.target),
        worked == run,
        run matches Some(r) ==> r == crate::dispatch::kernel_of(
            table.host.counter.target.machine,
            b,
            loops,
        ),
{
}

/// A read of the virtual counter costs the least of the batches of 64, in
/// nanoseconds; nothing is known of it without a rate.
pub proof fn a_batch_is_sixty_four_reads(hz: u64, batches: &[(u64, u64)], ns: u64)
    requires
        call_ensures(aarch64::read_cost_ns, (hz, batches), ns),
    ensures
        hz == 0 ==> ns == 0,
        hz > 0 && batches@.len() > 0 ==> exists|j: int| #[trigger]
            cheapest(batches@, j) && ns == aarch64::cost_of(
                crate::laws::measures::around(batches@[j].0, batches@[j].1),
                hz as int,
            ),
{
    if hz > 0 && batches@.len() > 0 {
        let all = crate::arch::insn::all_elapsed(batches@);
        let least = choose|least: u64|
            crate::arch::insn::least_of_all(all, least) && ns == #[trigger] aarch64::cost_of(
                least as int,
                hz as int,
            );
        let j = choose|j: int| 0 <= j < all.len() && all[j] == least;
        assert forall|i: int| 0 <= i < batches@.len() implies crate::laws::measures::around(
            batches@[j].0,
            batches@[j].1,
        ) <= crate::laws::measures::around((#[trigger] batches@[i]).0, batches@[i].1) by {
            crate::laws::measures::lemma_around(batches@[i].0, batches@[i].1);
            crate::laws::measures::lemma_around(batches@[j].0, batches@[j].1);
            assert(all[i] == crate::arch::insn::elapsed(batches@[i].0, batches@[i].1));
        }
        crate::laws::measures::lemma_around(batches@[j].0, batches@[j].1);
        assert(cheapest(batches@, j));
    }
}

/// Whether a batch took no longer than any.
pub open spec fn cheapest(batches: Seq<(u64, u64)>, j: int) -> bool {
    0 <= j < batches.len() && forall|i: int|
        0 <= i < batches.len() ==> crate::laws::measures::around(batches[j].0, batches[j].1)
            <= crate::laws::measures::around((#[trigger] batches[i]).0, batches[i].1)
}

} // verus!
