//! What reports say, line by line.
use crate::arch::{Arch, CounterSource, PhysicalCounterCheck, PHYSICAL_COUNTER_WARNING};
use crate::backend::Backend;
use crate::bench::{BenchHost, BenchKernel, BenchMode};
use crate::cli::{
    alike, backend_names, first_row, refresh_ms, request_backend, row_answers, runnable, selection,
    selection_error_text, BackendRequest, ClockArgs, DetailMode, SelectionError, TimeZoneMode,
};
use crate::cli_report::{
    audit_verdict, cost_or_zero, cpu_number, drill_cases, host_sync_text, integrity_text,
    live_cases, ns_clock_head, perf_text, physical_text, route_calibration_text, seconds_up,
    stable_calibration_text, still_cooling, unit_name, with_backends, with_costs, with_drill,
    with_faces, with_families, with_matrix, with_modes, with_perf_counters, with_processor_counters,
    with_routes, with_wrapper, ClockFaces, DrillCase, DrillRow, IntegrityStats, Ring0Counts,
    TimebaseReading,
};
use crate::clock::{
    ClockRoute, NanoclockSnapshot, RouteCalibration, RouteHost, StableClockState, WrapperKind,
    STABILITY_ADVICE,
};
use crate::cpu::CpuFeatures;
use crate::hypervisor::{HostSync, HypervisorReport};
use crate::machine::{Machine, Target};
use crate::selftest::answer;
use crate::simd::SimdCatalogue;
use crate::text::{decimal, padded_left, padded_right};
use vstd::prelude::*;

verus! {

// ---------------------------------------------------------------------------
// Clocks
// ---------------------------------------------------------------------------
/// The counters of a snapshot are printed each behind its own name: the time
/// stamp counter's four readings on 64-bit x86, the virtual counter's on
/// AArch64, the timebase and its rate elsewhere.
pub proof fn counters_are_printed_by_name(
    out: Seq<char>,
    s: NanoclockSnapshot,
    target: Target,
    timebase: TimebaseReading,
)
    ensures
        target.machine is X86Wide ==> with_processor_counters(out, s, target, timebase) == out
            + "x64 rdtsc="@ + decimal(s.rdtsc_raw as int) + " lfence_rdtsc="@ + decimal(
            s.rdtsc_lfence as int,
        ) + " mfence_lfence_rdtsc="@ + decimal(s.rdtsc_mfence as int) + " rdtscp_lfence="@
            + decimal(s.rdtscp_lfence as int) + " aux="@ + decimal(s.rdtscp_aux as int) + "\n"@,
        target.machine is Aarch64 ==> with_processor_counters(out, s, target, timebase) == out
            + "arm64 cntfrq_el0="@ + decimal(s.cntfrq_el0 as int) + " cntvct_el0="@ + decimal(
            s.cntvct_el0 as int,
        ) + " cntvct_isb="@ + decimal(s.cntvct_isb as int) + " cntvct_ns="@ + decimal(
            s.cntvct_ns as int,
        ) + "\n"@,
        target.machine is PowerPc || target.machine is PowerPcWide || target.machine is RiscV
            || target.machine is RiscVWide || target.machine is Arm ==> with_processor_counters(
            out,
            s,
            target,
            timebase,
        ) == out + Arch::family(target.machine).label(target) + " timebase="@ + decimal(
            timebase.raw as int,
        ) + " timebase_hz="@ + decimal(
            (match timebase.hz {
                Some(hz) => hz as int,
                None => 0,
            }),
        ) + "\n"@,
        target.machine is X86 || target.machine is Other ==> with_processor_counters(
            out,
            s,
            target,
            timebase,
        ) == out,
{
}

/// Cycle counts are printed with how many events they span, and on Linux what
/// the module counted with them, the corrected count first.
pub proof fn cycle_counts_are_printed_with_their_events(
    out: Seq<char>,
    s: NanoclockSnapshot,
    r: Ring0Counts,
)
    ensures
        ({
            let own = (match s.perf_cycles {
                Some(cycles) => out + "perf_cycles="@ + decimal(cycles as int),
                None => out + "perf_cycles=unavailable"@,
            }) + " ("@ + decimal(s.perf_pmu_count as int)
                + " PMU event(s), via perf_event_open)\n"@;
            &&& with_perf_counters(out, s, false, Some(r)) == own
            &&& with_perf_counters(out, s, true, None) == own
                + "ring0=unavailable (module not loaded; see kernel/linux/README.md)\n"@
            &&& with_perf_counters(out, s, true, Some(r)) == own + "ring0_"@ + r.event@ + "="@
                + decimal(r.scaled as int) + " (raw="@ + decimal(r.raw as int) + " npmu="@ + decimal(
                r.npmu as int,
            ) + " enabled_ns="@ + decimal(r.enabled_ns as int) + " running_ns="@ + decimal(
                r.running_ns as int,
            ) + ", via /proc/nanochrono)\n"@
        }),
{
}

/// The clock's faces, and in detail the route and what reading it costs.
pub proof fn faces_are_printed_by_name(
    out: Seq<char>,
    faces: ClockFaces,
    s: NanoclockSnapshot,
    kernel: u64,
    api: u64,
)
    ensures
        with_faces(out, faces) == out + "display_time="@ + faces.display@
            + "\nraw_local_no_ntp="@ + faces.local@ + "\nclock_face="@ + faces.face@ + "\n"@,
        with_costs(out, s, kernel, api) == out + "route="@ + s.route.label() + " simd="@ + (
        match s.best_simd {
            Some(name) => name@,
            None => "none"@,
        }) + " cpu="@ + decimal(s.cpu_index as int) + " raw="@ + decimal(
            s.selected_raw_units as int,
        ) + " selected_ns="@ + decimal(s.selected_ns as int) + " read_overhead="@ + decimal(
            s.native_overhead_units as int,
        ) + " kernel_timecall="@ + decimal(kernel as int) + " api_call="@ + decimal(api as int)
            + "\n"@,
{
}

/// The nanosecond clock's times and its route.
pub proof fn times_are_printed_by_name(out: Seq<char>, s: NanoclockSnapshot, utc: Seq<char>)
    ensures
        ns_clock_head(out, s, utc) == out + "time_utc="@ + utc + "\nmonotonic_ns="@ + decimal(
            s.monotonic_ns as int,
        ) + " process_ns="@ + decimal(s.process_time_ns as int) + " thread_ns="@ + decimal(
            s.thread_time_ns as int,
        ) + "\nroute="@ + s.route.label() + " simd="@ + (match s.best_simd {
            Some(name) => name@,
            None => "none"@,
        }) + " backend="@ + s.backend.label() + " raw="@ + decimal(s.selected_raw_units as int)
            + " selected_ns="@ + decimal(s.selected_ns as int) + " barrier_overhead="@ + decimal(
            s.selected_overhead_units as int,
        ) + "\n"@,
{
}

/// Counts of both rings, each behind its own name, and a note where counting
/// is off.
pub proof fn rings_are_printed_by_name(
    out: Seq<char>,
    ring3: Option<u64>,
    pmus: u64,
    r: Ring0Counts,
)
    ensures
        ({
            let own = (match ring3 {
                Some(cycles) => out + "ring3_cycles="@ + decimal(cycles as int),
                None => out + "ring3_cycles=unavailable"@,
            }) + " ("@ + decimal(pmus as int)
                + " PMU event(s), via perf_event_open, per-thread)\n"@;
            let counted = own
                + "ring0_source=perf (/proc/nanochrono, nanochrono.ko)\nring0_event="@ + r.event@
                + "\nring0_enabled="@ + answer(r.enabled) + "\nring0_npmu="@ + decimal(
                r.npmu as int,
            ) + "\nring0_raw="@ + decimal(r.raw as int) + "\nring0_enabled_ns="@ + decimal(
                r.enabled_ns as int,
            ) + "\nring0_running_ns="@ + decimal(r.running_ns as int) + "\nring0_scaled="@
                + decimal(r.scaled as int)
                + " (multiplexing-corrected; the number to use)\n"@;
            &&& r.enabled ==> perf_text(out, ring3, pmus, Some(r)) == counted
            &&& !r.enabled ==> perf_text(out, ring3, pmus, Some(r)) == counted
                + "note: counting is disabled; `perf --enable` to resume\n"@
            &&& perf_text(out, ring3, pmus, None) == own
                + "ring0=unavailable\n  the kernel module is not loaded, or this machine exposes no PMU events to it (perf_available=0 in /proc/nanochrono).\n  cd kernel/linux && sudo make load\n"@
        }),
{
}

/// A route's calibration, each figure behind its own name, with a warning
/// where the thread moved.
pub proof fn a_route_calibration_is_printed_by_name(
    out: Seq<char>,
    r: RouteCalibration,
    rate: Seq<char>,
    unit: Seq<char>,
    unknown: u32,
)
    ensures
        ({
            let all = out + "route="@ + r.route.label() + " samples="@ + decimal(r.samples as int)
                + " pinned="@ + answer(r.pinned) + " cpu_before="@ + decimal(
                cpu_number(r.cpu_before, unknown),
            ) + " cpu_after="@ + decimal(cpu_number(r.cpu_after, unknown)) + " migrated="@ + answer(
                r.migrated,
            ) + "\nelapsed_raw="@ + decimal(r.elapsed_raw_units as int) + " elapsed_ns="@ + decimal(
                r.elapsed_ns as int,
            ) + " units_per_second="@ + rate + " ns_per_unit="@ + unit + "\noverhead read="@
                + decimal(r.read_overhead_units as int) + " kernel_timecall="@ + decimal(
                r.kernel_timecall_overhead_units as int,
            ) + " api_call="@ + decimal(r.api_call_overhead_units as int) + "\n"@;
            &&& !r.migrated ==> route_calibration_text(out, r, rate, unit, unknown) == all
            &&& r.migrated ==> route_calibration_text(out, r, rate, unit, unknown) == all
                + "warning: the thread migrated during calibration; re-run with --pin-cpu N\n"@
        }),
        r.cpu_before matches Some(n) ==> cpu_number(r.cpu_before, unknown) == n,
        cpu_number(None, unknown) == unknown,
{
}

/// A stable calibration, each figure behind its own name, and whether it can
/// be used.
pub proof fn a_stable_calibration_is_printed_by_name(
    out: Seq<char>,
    s: StableClockState,
    cycles: Seq<char>,
    ns: Seq<char>,
    unknown: u32,
)
    ensures
        stable_calibration_text(out, s, cycles, ns, unknown) == out + "route="@ + s.route.label()
            + " pinned="@ + answer(s.pinned) + " cpu_before="@ + decimal(
            cpu_number(s.cpu_before, unknown),
        ) + " cpu_after="@ + decimal(cpu_number(s.cpu_after, unknown)) + " migrated="@ + answer(
            s.migrated,
        ) + " invariant="@ + answer(s.is_invariant) + "\nraw_start="@ + decimal(s.raw_start as int)
            + " raw_end="@ + decimal(s.raw_end as int) + " elapsed_units="@ + decimal(
            s.elapsed_units as int,
        ) + " elapsed_ns="@ + decimal(s.elapsed_ns as int) + "\ncycles_per_ns="@ + cycles
            + " ns_per_cycle="@ + ns + " read_overhead="@ + decimal(s.read_overhead_units as int)
            + " kernel="@ + decimal(s.kernel_timecall_overhead_units as int) + " api="@ + decimal(
            s.api_call_overhead_units as int,
        ) + "\nformula: ns = cycles / cycles_per_ns\n"@ + "usable: "@ + answer(
            s.elapsed_units > 0 && s.elapsed_ns > 0 && (s.pinned || !s.migrated),
        ) + "\nadvice: "@ + STABILITY_ADVICE@ + "\n"@,
{
}

/// A binding's row says whether its cost was measured.
pub proof fn a_binding_says_whether_it_was_measured(
    out: Seq<char>,
    kind: WrapperKind,
    units: u64,
    ns: u64,
)
    ensures
        with_wrapper(out, kind, units, ns) == out + padded_right(kind.label(), 18) + " "@
            + padded_left(decimal(units as int), 10) + " "@ + padded_left(decimal(ns as int), 10)
            + (match kind {
            WrapperKind::CApi | WrapperKind::DllBoundary | WrapperKind::RustFfi => "  measured\n"@,
            _ => "  baseline\n"@,
        }),
        cost_or_zero(None) == 0,
        cost_or_zero(Some(units)) == units,
{
}

// ---------------------------------------------------------------------------
// What a machine offers
// ---------------------------------------------------------------------------
/// Every list goes on by one row: its name, filled up, and yes or no.
pub proof fn lists_go_on_row_by_row(
    out: Seq<char>,
    backends: Seq<Backend>,
    b: Backend,
    f: CpuFeatures,
    target: Target,
    routes: Seq<ClockRoute>,
    route: ClockRoute,
    host: RouteHost,
    modes: Seq<BenchMode>,
    mode: BenchMode,
    bench: BenchHost,
)
    ensures
        with_backends(out, backends.push(b), f, target) == with_backends(out, backends, f, target)
            + "  "@ + padded_right(b.label(), 16) + " "@ + answer(b.available(f, target)) + "\n"@,
        with_routes(out, routes.push(route), host) == with_routes(out, routes, host) + "  "@
            + padded_right(route.label(), 26) + " "@ + answer(route.available(host)) + "\n"@,
        with_modes(out, modes.push(mode), bench) == with_modes(out, modes, bench) + "  "@
            + padded_right(mode.row_label(bench.target.linux), 32) + " "@ + answer(
            mode.available(bench),
        ) + "\n"@,
        with_backends(out, Seq::empty(), f, target) == out,
        with_routes(out, Seq::empty(), host) == out,
        with_modes(out, Seq::empty(), bench) == out,
        answer(true) == "yes"@ && answer(false) == "no"@,
{
    assert(backends.push(b).drop_last() =~= backends);
    assert(routes.push(route).drop_last() =~= routes);
    assert(modes.push(mode).drop_last() =~= modes);
}

/// The matrix of families says of each whether it can be run and whether it
/// was chosen.
pub proof fn the_matrix_goes_on_row_by_row(
    out: Seq<char>,
    rows: Seq<(Backend, bool, bool)>,
    b: Backend,
    can: bool,
    chosen: bool,
    catalogue: SimdCatalogue,
    widths: Seq<usize>,
    n: nat,
)
    requires
        n < catalogue.families@.len(),
    ensures
        with_matrix(out, Seq::empty()) == out,
        with_matrix(out, rows.push((b, can, chosen))) == with_matrix(out, rows) + padded_right(
            b.label(),
            16,
        ) + " "@ + padded_left(answer(can), 10) + " "@ + padded_left(answer(chosen), 10) + "\n"@,
        with_families(out, catalogue, widths, 0) == out,
        with_families(out, catalogue, widths, n + 1) == with_families(out, catalogue, widths, n)
            + "  "@ + padded_right(catalogue.families@[n as int].name@, 16) + " "@ + padded_left(
            decimal(widths[n as int] as int),
            4,
        ) + " B  "@ + answer(catalogue.families@[n as int].available) + "\n"@,
{
    assert(rows.push((b, can, chosen)).drop_last() =~= rows);
}

/// How a guest's clock stands to its host's.
pub proof fn the_hosts_clock_is_printed_by_name(
    out: Seq<char>,
    sync: HostSync,
    follows: bool,
    raw: i64,
)
    ensures
        ({
            let head = out + "paravirtual clocksource : "@ + (match sync.paravirtual_clocksource {
                Some(name) => name@,
                None => "none"@,
            }) + "\nmonotonic follows host  : "@ + answer(follows);
            match sync.pairing {
                Some(p) => host_sync_text(out, sync, follows, raw) == head
                    + "\nhost clock pairing      : available (ptp_kvm)\n"@
                    + "  host clock            : "@ + decimal(p.host_ns as int)
                    + " ns\n  guest realtime        : "@ + decimal(p.guest_realtime_ns as int)
                    + " ns\n  guest monotonic raw   : "@ + decimal(raw as int)
                    + " ns\n  host is ahead by      : "@ + decimal(p.host_offset_ns as int)
                    + " ns\n"@ + "\n"@ + sync.advice@ + "\n"@,
                None => host_sync_text(out, sync, follows, raw) == head
                    + "\nhost clock pairing      : unavailable\n  needs a KVM guest, ptp_kvm loaded, and read access to /dev/ptpN\n  (the device is usually root:clock, so this often needs a group)\n"@
                    + "\n"@ + sync.advice@ + "\n"@,
            }
        }),
{
}

/// The physical counter is warned of, more so on a virtual machine, and its
/// cost told where it was taken.
pub proof fn the_physical_counter_is_warned_of(
    out: Seq<char>,
    machine: Machine,
    platform: HypervisorReport,
    check: PhysicalCounterCheck,
)
    ensures
        ({
            let head = out + "counter: "@ + CounterSource::Physical.label(machine)
                + " (physical)\nwarning: "@ + PHYSICAL_COUNTER_WARNING@ + "\n"@;
            let warned = if platform@.confidence is Absent {
                head
            } else {
                head + "warning: this system is virtualized ("@ + platform.hypervisor@.shown()
                    + "); expect trapped, jittery reads\n"@
            };
            &&& physical_text(out, machine, platform, None) == warned
            &&& physical_text(out, machine, platform, Some(check)) == warned
                + "counter: one read costs "@ + decimal(check.physical_read_ns as int)
                + " ns physical vs "@ + decimal(check.virtual_read_ns as int) + (if check.trapped {
                " ns virtual — the physical read is being trapped\n"@
            } else {
                " ns virtual\n"@
            })
        }),
{
}

/// A module that is still cooling down says how many whole seconds are left.
pub proof fn cooling_is_told_in_whole_seconds(ms: u64, note: &str, text: String)
    requires
        call_ensures(still_cooling, (Some(ms), note), text),
    ensures
        text@ == "the module refused: still cooling down"@ + (" — "@ + decimal(
            seconds_up(ms as int),
        ) + " s left"@) + ". "@ + note@,
        seconds_up(ms as int) * 1000 >= ms > (seconds_up(ms as int) - 1) * 1000,
{
}

// ---------------------------------------------------------------------------
// Integrity
// ---------------------------------------------------------------------------
/// What the drill flips: nothing, one bit of the data, one of the check, two,
/// two with one in each copy, and two in all three copies.
pub proof fn the_drill_flips_these_bits(cases: Vec<DrillCase>, live: Vec<DrillCase>)
    requires
        call_ensures(drill_cases, (), cases),
        call_ensures(live_cases, (), live),
    ensures
        cases@.len() == 6,
        cases@[0].bits@.len() == 0,
        cases@[1].bits@ == seq![40u32],
        cases@[2].bits@ == seq![66u32],
        cases@[3].bits@ == seq![5u32, 37],
        cases@[4].bits@ == seq![1u32, 2, 75, 140],
        cases@[5].bits@ == seq![1u32, 2, 75, 107, 140, 172],
        live@.len() == 3,
        live@[0].bits@ == seq![40u32],
        live@[1].bits@ == seq![11u32, 46],
        live@[2].bits@ == seq![52u32],
{
}

/// A drill's rows go on one by one, and the counts are told each behind its
/// own name; nothing was corrupt where nothing was corrected or lost.
pub proof fn corrections_are_printed_by_name(
    out: Seq<char>,
    stats: IntegrityStats,
    rows: Seq<DrillRow>,
    row: DrillRow,
)
    ensures
        integrity_text(out, None, stats) == out + "checks          : "@ + decimal(
            stats.checks as int,
        ) + "\necc corrections : "@ + decimal(stats.ecc_corrections as int)
            + "\ntmr corrections : "@ + decimal(stats.tmr_corrections as int)
            + "\nunrecoverable   : "@ + decimal(stats.unrecoverable as int) + (if
        stats.ecc_corrections + stats.tmr_corrections + stats.unrecoverable == 0 {
            "\n\nNo stored-state corruption observed.\n"@
        } else {
            "\n\nState was repaired during this run. At sea level that usually means failing\nmemory rather than radiation — check the hardware before trusting a long run.\n"@
        }),
        with_drill(out, Seq::empty()) == out,
        with_drill(out, rows.push(row)) == with_drill(out, rows) + padded_right(row.label@, 34)
            + " "@ + padded_right(row.tier@, 22) + " "@ + answer(row.held) + "\n"@,
{
    assert(rows.push(row).drop_last() =~= rows);
}

/// Units are cycles on 64-bit x86 and ticks elsewhere; an audit says whether
/// it found a difference.
pub proof fn units_and_audits_are_told(
    machine: Machine,
    name: &'static str,
    leak: bool,
    text: &'static str,
)
    requires
        call_ensures(unit_name, (machine,), name),
        call_ensures(audit_verdict, (leak,), text),
    ensures
        machine is X86Wide ==> name@ == "TSC cycles"@,
        !(machine is X86Wide) ==> name@ == "counter ticks"@,
        leak ==> text@
            == "timing difference detected — investigate, or re-run pinned to a quiet core"@,
        !leak ==> text@ == "no timing difference indicated"@,
{
}

// ---------------------------------------------------------------------------
// Asking for things
// ---------------------------------------------------------------------------
/// The clock is detailed unless it is asked to be simple, in UTC before any
/// offset before local time, and refreshed ten times a second in detail, four
/// times otherwise.
pub proof fn the_clock_is_shown_as_asked(
    args: ClockArgs,
    detail: DetailMode,
    zone: TimeZoneMode,
    ms: u64,
)
    requires
        call_ensures(ClockArgs::detail, (&args,), detail),
        call_ensures(ClockArgs::zone, (&args,), zone),
        call_ensures(refresh_ms, (detail,), ms),
    ensures
        detail is Simple <==> args.simple,
        args.utc ==> zone is Utc,
        !args.utc && args.utc_offset is None ==> zone is Local,
        !args.utc ==> (args.utc_offset matches Some(minutes) ==> zone
            == TimeZoneMode::CustomOffset(minutes)),
        args.simple ==> ms == 250,
        !args.simple ==> ms == 100,
{
}

/// A family that was asked for by name is used where it can be run, warned of
/// where it cannot, and an error where there is none.
pub proof fn a_family_is_asked_for_by_name(
    name: Option<String>,
    f: CpuFeatures,
    target: Target,
    request: BackendRequest,
)
    requires
        call_ensures(request_backend, (&name, &f, &target), request),
    ensures
        name is None <==> request is Detected,
        name matches Some(n) ==> match crate::backend::named(crate::backend::plain_name(n@)) {
            Some(b) => if b.available(f, target) {
                request == BackendRequest::Use(b)
            } else {
                request == BackendRequest::Unsupported(b)
            },
            None => request is Unknown,
        },
{
}

/// Names are listed with commas between them.
pub proof fn names_are_listed_with_commas(list: Seq<Backend>, b: Backend)
    ensures
        backend_names(Seq::empty()).len() == 0,
        backend_names(seq![b]) == b.label(),
        list.len() > 0 ==> backend_names(list.push(b)) == backend_names(list) + ", "@ + b.label(),
{
    assert(list.push(b).drop_last() =~= list);
}

/// A row answers to its shown name, and to the kernel's or the loop's own,
/// whatever the capitals.
pub proof fn a_row_answers_to_its_names(
    host: BenchHost,
    row: BenchKernel,
    name: Seq<char>,
)
    ensures
        crate::text::lowered(row.title(host)) == crate::text::lowered(name) ==> row_answers(
            row,
            host,
            name,
        ),
        row matches BenchKernel::Kernel(a) ==> (row_answers(row, host, name) <==> alike(
            row.title(host),
            name,
        ) || alike(a.kernel_name(), name)),
        row matches BenchKernel::Ring0(a) ==> (row_answers(row, host, name) <==> alike(
            row.title(host),
            name,
        ) || alike(a.kernel_name(), name)),
        row is Scalar || row is Isa || row is Crypto || row is Tls ==> (row_answers(row, host, name)
            <==> alike(row.title(host), name)),
        row matches BenchKernel::CryptoRaw(i) ==> (row_answers(row, host, name) <==> alike(
            row.title(host),
            name,
        ) || alike(host.raw@[i as int].name@, name) || alike(
            crate::text::before_text(host.raw@[i as int].name@, " ("@),
            name,
        )),
        alike(row.title(host), name) <==> crate::text::lowered(row.title(host))
            == crate::text::lowered(name),
{
}

proof fn lemma_first_row(rows: Seq<BenchKernel>, host: BenchHost, name: Seq<char>, i: int)
    requires
        0 <= i <= rows.len(),
        i < rows.len() ==> row_answers(rows[i], host, name),
        forall|j: int| 0 <= j < i ==> !row_answers(#[trigger] rows[j], host, name),
    ensures
        first_row(rows, host, name) == (if i < rows.len() {
            Some(rows[i])
        } else {
            None
        }),
    decreases rows.len(),
{
    if rows.len() > 0 && i > 0 {
        assert(!row_answers(rows[0], host, name));
        let rest = rows.skip(1);
        assert forall|j: int| 0 <= j < i - 1 implies !row_answers(
            #[trigger] rest[j],
            host,
            name,
        ) by {
            assert(rest[j] == rows[j + 1]);
        }
        lemma_first_row(rest, host, name, i - 1);
    }
}

/// A name selects the first row that answers to it, and is unknown where none
/// does; `all` selects every row that can be run, and fails where none can.
pub proof fn a_name_selects_its_rows(mode: BenchMode, host: BenchHost, name: Seq<char>, i: int)
    requires
        ({
            let rows = BenchKernel::rows(mode, host);
            &&& 0 <= i <= rows.len()
            &&& i < rows.len() ==> row_answers(rows[i], host, name)
            &&& forall|j: int| 0 <= j < i ==> !row_answers(#[trigger] rows[j], host, name)
        }),
    ensures
        ({
            let rows = BenchKernel::rows(mode, host);
            let all = rows.filter(|k: BenchKernel| k.available(host));
            &&& alike(name, "all"@) && all.len() > 0 ==> selection(mode, host, name) == Ok::<
                Seq<BenchKernel>,
                SelectionError,
            >(all)
            &&& alike(name, "all"@) && all.len() == 0 ==> selection(mode, host, name) == Err::<
                Seq<BenchKernel>,
                SelectionError,
            >(SelectionError::NothingToRun)
            &&& !alike(name, "all"@) && i < rows.len() ==> selection(mode, host, name) == Ok::<
                Seq<BenchKernel>,
                SelectionError,
            >(seq![rows[i]])
            &&& !alike(name, "all"@) && i == rows.len() ==> selection(mode, host, name) == Err::<
                Seq<BenchKernel>,
                SelectionError,
            >(SelectionError::UnknownKernel)
        }),
{
    let rows = BenchKernel::rows(mode, host);
    lemma_first_row(rows, host, name, i);
    assert(runnable(rows, host) == rows.filter(|k: BenchKernel| k.available(host)));
}

/// Why nothing was selected, in words.
pub proof fn a_failed_selection_is_told_in_words(mode: BenchMode, name: Seq<char>)
    ensures
        selection_error_text(SelectionError::UnknownKernel, mode, name) == "unknown kernel '"@
            + name + "' for mode "@ + mode.title(),
        mode is KernelCryptoRing0 ==> selection_error_text(
            SelectionError::NothingToRun,
            mode,
            name,
        ) == "no runnable kernels for mode "@ + mode.title() + ": "@
            + "the kernel module is not loaded. Build and insert it with `cd kernel/linux && make load`, or use `--mode kernel` for the ring-3 measurement, which needs nothing."@,
        !(mode is KernelCryptoRing0) ==> selection_error_text(
            SelectionError::NothingToRun,
            mode,
            name,
        ) == "no runnable kernels for mode "@ + mode.title() + ": "@
            + "nothing this machine offers matches it."@,
{
}

} // verus!
