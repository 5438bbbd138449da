//! The texts the command line prints.
//!
//! Figures with a fraction are worked out and rounded by the caller and come
//! in as texts; everything else is written here.
use crate::arch::{
    Arch, CounterSource, CounterSourceError, PhysicalCounterCheck, PHYSICAL_COUNTER_WARNING,
};
use crate::backend::Backend;
use crate::bench::{BenchHost, BenchMode};
use crate::clock::{
    ClockRoute, NanoclockSnapshot, RouteCalibration, RouteHost, StableClockState, WrapperKind,
    STABILITY_ADVICE,
};
use crate::cpu::CpuFeatures;
use crate::dispatch::Dispatcher;
use crate::hypervisor::{HostSync, HypervisorReport};
use crate::machine::{Machine, Target};
use crate::selftest::yes_no;
use crate::simd::SimdCatalogue;
use crate::text::{
    push_decimal, push_decimal_left, push_padded_left, push_padded_right, push_signed, push_text,
};
use vstd::prelude::*;

verus! {

/// `out` with a label and a number.
pub open spec fn with_count(out: Seq<char>, label: Seq<char>, n: int) -> Seq<char> {
    out + label + crate::text::decimal(n)
}

fn push_count(out: &mut String, label: &str, n: u64)
    ensures
        final(out)@ == with_count(old(out)@, label@, n as int),
{
    push_text(out, label);
    push_decimal(out, n);
}

fn push_count_signed(out: &mut String, label: &str, n: i64)
    ensures
        final(out)@ == with_count(old(out)@, label@, n as int),
{
    push_text(out, label);
    push_signed(out, n);
}

/// `out` with a label and a text.
pub open spec fn with_text(out: Seq<char>, label: Seq<char>, value: Seq<char>) -> Seq<char> {
    out + label + value
}

fn push_labelled(out: &mut String, label: &str, value: &str)
    ensures
        final(out)@ == with_text(old(out)@, label@, value@),
{
    push_text(out, label);
    push_text(out, value);
}

/// `out` with a label and an answer.
pub open spec fn with_answer(out: Seq<char>, label: Seq<char>, v: bool) -> Seq<char> {
    out + label + crate::selftest::answer(v)
}

fn push_answer(out: &mut String, label: &str, v: bool)
    ensures
        final(out)@ == with_answer(old(out)@, label@, v),
{
    push_text(out, label);
    push_text(out, yes_no(v));
}

/// `out` with a name in a column and an answer behind it.
pub open spec fn with_row(out: Seq<char>, name: Seq<char>, width: int, v: bool) -> Seq<char> {
    out + "  "@ + crate::text::padded_right(name, width) + " "@ + crate::selftest::answer(v)
        + "\n"@
}

fn push_row(out: &mut String, name: &str, width: usize, v: bool)
    ensures
        final(out)@ == with_row(old(out)@, name@, width as int, v),
{
    push_text(out, "  ");
    push_padded_right(out, name, width);
    push_text(out, " ");
    push_text(out, yes_no(v));
    push_text(out, "\n");
}

// ---------------------------------------------------------------------------
// What was selected, and from what
// ---------------------------------------------------------------------------

/// The rows of the backend matrix.
pub open spec fn with_matrix(out: Seq<char>, rows: Seq<(Backend, bool, bool)>) -> Seq<char>
    decreases rows.len(),
{
    if rows.len() == 0 {
        out
    } else {
        let row = rows.last();
        with_matrix(out, rows.drop_last()) + crate::text::padded_right(row.0.label(), 16) + " "@
            + crate::text::padded_left(crate::selftest::answer(row.1), 10) + " "@
            + crate::text::padded_left(crate::selftest::answer(row.2), 10) + "\n"@
    }
}

/// Writes what the dispatcher selected, and every backend it chose from.
pub fn write_dispatch(out: &mut String, d: &Dispatcher, platform: &HypervisorReport)
    requires
        d.simd matches Some(i) ==> i < d.catalogue.families@.len(),
    ensures
        final(out)@ == with_matrix(
            old(out)@ + d.account(*platform)
                + "\n\nBACKEND           AVAILABLE   SELECTED\n"@,
            Backend::every().map_values(|b: Backend| d.row(b)),
        ),
{
    let report: String = d.report(platform);
    push_text(out, report.as_str());
    push_text(out, "\n\nBACKEND           AVAILABLE   SELECTED\n");
    let ghost head = out@;
    let rows: Vec<(Backend, bool, bool)> = d.backend_matrix();
    let mut i: usize = 0;
    assert(rows@.take(0) =~= Seq::empty());
    while i < rows.len()
        invariant
            i <= rows.len(),
            out@ == with_matrix(head, rows@.take(i as int)),
        decreases rows.len() - i,
    {
        assert(rows@.take(i + 1).drop_last() =~= rows@.take(i as int));
        assert(rows@.take(i + 1).last() == rows@[i as int]);
        push_padded_right(out, rows[i].0.name(), 16);
        push_text(out, " ");
        push_padded_left(out, yes_no(rows[i].1), 10);
        push_text(out, " ");
        push_padded_left(out, yes_no(rows[i].2), 10);
        push_text(out, "\n");
        i = i + 1;
    }
    assert(rows@.take(i as int) =~= rows@);
}

/// One line for each backend.
pub open spec fn with_backends(
    out: Seq<char>,
    list: Seq<Backend>,
    f: CpuFeatures,
    target: Target,
) -> Seq<char>
    decreases list.len(),
{
    if list.len() == 0 {
        out
    } else {
        with_row(
            with_backends(out, list.drop_last(), f, target),
            list.last().label(),
            16,
            list.last().available(f, target),
        )
    }
}

fn push_backends(out: &mut String, f: &CpuFeatures, target: &Target)
    ensures
        final(out)@ == with_backends(old(out)@, Backend::every(), *f, *target),
{
    let ghost head = out@;
    let list: Vec<Backend> = Backend::all();
    let mut i: usize = 0;
    assert(list@.take(0) =~= Seq::empty());
    while i < list.len()
        invariant
            i <= list.len(),
            list@ == Backend::every(),
            out@ == with_backends(head, list@.take(i as int), *f, *target),
        decreases list.len() - i,
    {
        assert(list@.take(i + 1).drop_last() =~= list@.take(i as int));
        assert(list@.take(i + 1).last() == list@[i as int]);
        push_row(out, list[i].name(), 16, list[i].is_available(f, target));
        i = i + 1;
    }
    assert(list@.take(i as int) =~= list@);
}

/// A SIMD family's width in bytes, beside what the catalogue says of it.
pub open spec fn with_families(
    out: Seq<char>,
    catalogue: SimdCatalogue,
    widths: Seq<usize>,
    n: nat,
) -> Seq<char>
    decreases n,
{
    if n == 0 {
        out
    } else {
        let f = catalogue.families@[n - 1];
        with_families(out, catalogue, widths, (n - 1) as nat) + "  "@ + crate::text::padded_right(
            f.name@,
            16,
        ) + " "@ + crate::text::padded_left(crate::text::decimal(widths[n - 1] as int), 4) + " B  "@
            + crate::selftest::answer(f.available) + "\n"@
    }
}

fn push_families(out: &mut String, catalogue: &SimdCatalogue, widths: &Vec<usize>)
    requires
        widths@.len() == catalogue.families@.len(),
    ensures
        final(out)@ == with_families(
            old(out)@,
            *catalogue,
            widths@,
            catalogue.families@.len(),
        ),
{
    let ghost head = out@;
    let mut i: usize = 0;
    while i < catalogue.families.len()
        invariant
            i <= catalogue.families.len(),
            widths@.len() == catalogue.families@.len(),
            out@ == with_families(head, *catalogue, widths@, i as nat),
        decreases catalogue.families.len() - i,
    {
        push_text(out, "  ");
        push_padded_right(out, catalogue.families[i].name.as_str(), 16);
        push_text(out, " ");
        push_decimal_left(out, widths[i] as u64, 4);
        push_text(out, " B  ");
        push_text(out, yes_no(catalogue.families[i].available));
        push_text(out, "\n");
        i = i + 1;
    }
}

/// One line for each clock route.
pub open spec fn with_routes(out: Seq<char>, list: Seq<ClockRoute>, host: RouteHost) -> Seq<char>
    decreases list.len(),
{
    if list.len() == 0 {
        out
    } else {
        with_row(
            with_routes(out, list.drop_last(), host),
            list.last().label(),
            26,
            list.last().available(host),
        )
    }
}

fn push_routes(out: &mut String, host: &RouteHost)
    ensures
        final(out)@ == with_routes(old(out)@, ClockRoute::every(), *host),
{
    let ghost head = out@;
    let list: Vec<ClockRoute> = ClockRoute::all();
    let mut i: usize = 0;
    assert(list@.take(0) =~= Seq::empty());
    while i < list.len()
        invariant
            i <= list.len(),
            list@ == ClockRoute::every(),
            out@ == with_routes(head, list@.take(i as int), *host),
        decreases list.len() - i,
    {
        assert(list@.take(i + 1).drop_last() =~= list@.take(i as int));
        assert(list@.take(i + 1).last() == list@[i as int]);
        push_row(out, list[i].name(), 26, list[i].is_available(host));
        i = i + 1;
    }
    assert(list@.take(i as int) =~= list@);
}

/// One line for each benchmark mode.
pub open spec fn with_modes(out: Seq<char>, list: Seq<BenchMode>, host: BenchHost) -> Seq<char>
    decreases list.len(),
{
    if list.len() == 0 {
        out
    } else {
        with_row(
            with_modes(out, list.drop_last(), host),
            list.last().row_label(host.target.linux),
            32,
            list.last().available(host),
        )
    }
}

fn push_modes(out: &mut String, host: &BenchHost)
    ensures
        final(out)@ == with_modes(old(out)@, BenchMode::offered(host.target.linux), *host),
{
    let ghost head = out@;
    let list: Vec<BenchMode> = BenchMode::all(&host.target);
    let mut i: usize = 0;
    assert(list@.take(0) =~= Seq::empty());
    while i < list.len()
        invariant
            i <= list.len(),
            list@ == BenchMode::offered(host.target.linux),
            out@ == with_modes(head, list@.take(i as int), *host),
        decreases list.len() - i,
    {
        assert(list@.take(i + 1).drop_last() =~= list@.take(i as int));
        assert(list@.take(i + 1).last() == list@[i as int]);
        push_row(out, list[i].label(&host.target), 32, list[i].is_available(host));
        i = i + 1;
    }
    assert(list@.take(i as int) =~= list@);
}

/// The head of the catalogue.
pub open spec fn catalog_head(
    out: Seq<char>,
    brand: Option<String>,
    f: CpuFeatures,
    platform: HypervisorReport,
) -> Seq<char> {
    let named = match brand {
        Some(brand) => out + "cpu: "@ + brand@ + "\n"@,
        None => out,
    };
    with_text(
        with_answer(named, "invariant counter: "@, f.invariant_counter),
        "\nplatform: "@,
        crate::hypervisor::summary_text(platform@),
    ) + "\n\nTIMER BACKENDS\n"@
}

/// Writes everything there is to choose from, and what of it can be had.
pub fn write_catalog(
    out: &mut String,
    brand: &Option<String>,
    f: &CpuFeatures,
    platform: &HypervisorReport,
    catalogue: &SimdCatalogue,
    widths: &Vec<usize>,
    routes: &RouteHost,
    bench: &BenchHost,
)
    requires
        widths@.len() == catalogue.families@.len(),
    ensures
        final(out)@ == with_modes(
            with_routes(
                with_families(
                    with_backends(
                        catalog_head(old(out)@, *brand, *f, *platform),
                        Backend::every(),
                        *f,
                        bench.target,
                    ) + "\nSIMD FAMILIES\n"@,
                    *catalogue,
                    widths@,
                    catalogue.families@.len(),
                ) + "\nCLOCK ROUTES\n"@,
                ClockRoute::every(),
                *routes,
            ) + "\nBENCHMARK MODES\n"@,
            BenchMode::offered(bench.target.linux),
            *bench,
        ),
{
    match brand {
        Some(brand) => {
            push_text(out, "cpu: ");
            push_text(out, brand.as_str());
            push_text(out, "\n");
        },
        None => {},
    }
    push_answer(out, "invariant counter: ", f.invariant_counter);
    let summary: String = platform.summary();
    push_labelled(out, "\nplatform: ", summary.as_str());
    push_text(out, "\n\nTIMER BACKENDS\n");
    push_backends(out, f, &bench.target);
    push_text(out, "\nSIMD FAMILIES\n");
    push_families(out, catalogue, widths);
    push_text(out, "\nCLOCK ROUTES\n");
    push_routes(out, routes);
    push_text(out, "\nBENCHMARK MODES\n");
    push_modes(out, bench);
}

// ---------------------------------------------------------------------------
// The host
// ---------------------------------------------------------------------------

/// What is printed of the host's clock.
pub open spec fn host_sync_text(
    out: Seq<char>,
    sync: HostSync,
    follows: bool,
    guest_monotonic_raw_ns: i64,
) -> Seq<char> {
    let head = with_answer(
        with_text(
            out,
            "paravirtual clocksource : "@,
            match sync.paravirtual_clocksource {
                Some(name) => name@,
                None => "none"@,
            },
        ),
        "\nmonotonic follows host  : "@,
        follows,
    );
    with_text(
        match sync.pairing {
            Some(p) => with_count(
                with_count(
                    with_count(
                        with_count(
                            head
                                + "\nhost clock pairing      : available (ptp_kvm)\n"@,
                            "  host clock            : "@,
                            p.host_ns as int,
                        ),
                        " ns\n  guest realtime        : "@,
                        p.guest_realtime_ns as int,
                    ),
                    " ns\n  guest monotonic raw   : "@,
                    guest_monotonic_raw_ns as int,
                ),
                " ns\n  host is ahead by      : "@,
                p.host_offset_ns as int,
            ) + " ns\n"@,
            None => head
                + "\nhost clock pairing      : unavailable\n  needs a KVM guest, ptp_kvm loaded, and read access to /dev/ptpN\n  (the device is usually root:clock, so this often needs a group)\n"@,
        },
        "\n"@,
        sync.advice@,
    ) + "\n"@
}

/// Writes how the guest's nanoseconds relate to the host's.
pub fn write_host_sync(
    out: &mut String,
    sync: &HostSync,
    follows: bool,
    guest_monotonic_raw_ns: i64,
)
    ensures
        final(out)@ == host_sync_text(old(out)@, *sync, follows, guest_monotonic_raw_ns),
{
    push_labelled(
        out,
        "paravirtual clocksource : ",
        match &sync.paravirtual_clocksource {
            Some(name) => name.as_str(),
            None => "none",
        },
    );
    push_answer(out, "\nmonotonic follows host  : ", follows);
    match sync.pairing {
        Some(p) => {
            push_text(out, "\nhost clock pairing      : available (ptp_kvm)\n");
            push_count_signed(out, "  host clock            : ", p.host_ns);
            push_count_signed(out, " ns\n  guest realtime        : ", p.guest_realtime_ns);
            push_count_signed(out, " ns\n  guest monotonic raw   : ", guest_monotonic_raw_ns);
            push_count_signed(out, " ns\n  host is ahead by      : ", p.host_offset_ns);
            push_text(out, " ns\n");
        },
        None => push_text(
            out,
            "\nhost clock pairing      : unavailable\n  needs a KVM guest, ptp_kvm loaded, and read access to /dev/ptpN\n  (the device is usually root:clock, so this often needs a group)\n",
        ),
    }
    push_labelled(out, "\n", sync.advice.as_str());
    push_text(out, "\n");
}

/// Whole seconds, rounded up.
pub open spec fn seconds_up(ms: int) -> int {
    (ms + 999) / 1000
}

/// Why the kernel module did not probe again: it is cooling down, and for how
/// long where it says.
pub fn still_cooling(next_ms: Option<u64>, note: &str) -> (text: String)
    ensures
        text@ == "the module refused: still cooling down"@ + (match next_ms {
            Some(ms) => " — "@ + crate::text::decimal(seconds_up(ms as int)) + " s left"@,
            None => Seq::empty(),
        }) + ". "@ + note@,
{
    let mut out: String = String::new();
    push_text(&mut out, "the module refused: still cooling down");
    let ghost head = out@;
    assert(head =~= "the module refused: still cooling down"@);
    match next_ms {
        Some(ms) => {
            let seconds: u64 = if ms % 1000 == 0 {
                ms / 1000
            } else {
                ms / 1000 + 1
            };
            push_text(&mut out, " — ");
            push_decimal(&mut out, seconds);
            push_text(&mut out, " s left");
            assert(out@ =~= head + (" — "@ + crate::text::decimal(seconds_up(ms as int))
                + " s left"@));
        },
        None => {
            assert(out@ =~= head + Seq::<char>::empty());
        },
    }
    push_text(&mut out, ". ");
    push_text(&mut out, note);
    out
}

/// What is printed when the physical counter was selected.
pub open spec fn physical_text(
    out: Seq<char>,
    machine: Machine,
    platform: HypervisorReport,
    check: Option<PhysicalCounterCheck>,
) -> Seq<char> {
    let head = out + "counter: "@ + CounterSource::Physical.label(machine)
        + " (physical)\nwarning: "@ + PHYSICAL_COUNTER_WARNING@ + "\n"@;
    let warned = if platform@.confidence is Absent {
        head
    } else {
        head + "warning: this system is virtualized ("@ + platform.hypervisor@.shown()
            + "); expect trapped, jittery reads\n"@
    };
    match check {
        Some(check) => with_count(
            with_count(warned, "counter: one read costs "@, check.physical_read_ns as int),
            " ns physical vs "@,
            check.virtual_read_ns as int,
        ) + (if check.trapped {
            " ns virtual — the physical read is being trapped\n"@
        } else {
            " ns virtual\n"@
        }),
        None => warned,
    }
}

/// Writes what selecting the physical counter means. Being virtualized is a
/// reason to warn, not to refuse.
pub fn write_physical_counter(
    out: &mut String,
    machine: Machine,
    platform: &HypervisorReport,
    check: Option<PhysicalCounterCheck>,
)
    ensures
        final(out)@ == physical_text(old(out)@, machine, *platform, check),
{
    push_text(out, "counter: ");
    push_text(out, CounterSource::Physical.name(machine));
    push_text(out, " (physical)\nwarning: ");
    push_text(out, PHYSICAL_COUNTER_WARNING);
    push_text(out, "\n");
    if platform.is_virtualized() {
        push_text(out, "warning: this system is virtualized (");
        push_text(out, platform.hypervisor.name());
        push_text(out, "); expect trapped, jittery reads\n");
    }
    match check {
        Some(check) => {
            push_count(out, "counter: one read costs ", check.physical_read_ns);
            push_count(out, " ns physical vs ", check.virtual_read_ns);
            push_text(
                out,
                if check.trapped {
                    " ns virtual — the physical read is being trapped\n"
                } else {
                    " ns virtual\n"
                },
            );
        },
        None => {},
    }
}

/// The error for a physical counter that cannot be had.
pub fn physical_counter_error(e: CounterSourceError) -> (text: String)
    ensures
        text@ == "error: --physical-counter: "@ + e.text() + "\n"@,
{
    let mut out: String = String::new();
    push_text(&mut out, "error: --physical-counter: ");
    push_text(&mut out, e.message());
    push_text(&mut out, "\n");
    assert(out@ =~= "error: --physical-counter: "@ + e.text() + "\n"@);
    out
}

// ---------------------------------------------------------------------------
// Stored state
// ---------------------------------------------------------------------------

/// The bits one case of the drill flips in a protected value.
#[derive(Debug, Clone, PartialEq, Eq)]
pub struct DrillCase {
    pub label: &'static str,
    pub bits: Vec<u32>,
}

/// The cases of the drill on a scratch value, in the order they are run.
pub fn drill_cases() -> (cases: Vec<DrillCase>)
    ensures
        cases@.len() == 6,
        cases@[0].label@ == "nothing"@ && cases@[0].bits@ == Seq::<u32>::empty(),
        cases@[1].label@ == "one data bit (40)"@ && cases@[1].bits@ == seq![40u32],
        cases@[2].label@ == "one check bit (66)"@ && cases@[2].bits@ == seq![66u32],
        cases@[3].label@ == "two data bits (5, 37)"@ && cases@[3].bits@ == seq![5u32, 37],
        cases@[4].label@ == "two data bits + one per replica"@ && cases@[4].bits@ == seq![
            1u32,
            2,
            75,
            140,
        ],
        cases@[5].label@ == "two bits in all three copies"@ && cases@[5].bits@ == seq![
            1u32,
            2,
            75,
            107,
            140,
            172,
        ],
{
    let none: Vec<u32> = Vec::new();
    let data: Vec<u32> = vec![40];
    let check: Vec<u32> = vec![66];
    let two: Vec<u32> = vec![5, 37];
    let replicas: Vec<u32> = vec![1, 2, 75, 140];
    let hopeless: Vec<u32> = vec![1, 2, 75, 107, 140, 172];
    assert(none@ =~= Seq::<u32>::empty());
    assert(data@ =~= seq![40u32]);
    assert(check@ =~= seq![66u32]);
    assert(two@ =~= seq![5u32, 37]);
    assert(replicas@ =~= seq![1u32, 2, 75, 140]);
    assert(hopeless@ =~= seq![1u32, 2, 75, 107, 140, 172]);
    vec![
        DrillCase { label: "nothing", bits: none },
        DrillCase { label: "one data bit (40)", bits: data },
        DrillCase { label: "one check bit (66)", bits: check },
        DrillCase { label: "two data bits (5, 37)", bits: two },
        DrillCase { label: "two data bits + one per replica", bits: replicas },
        DrillCase { label: "two bits in all three copies", bits: hopeless },
    ]
}

/// The cases of the drill on live state: two on a stopwatch's total, one on a
/// calibration's factor. The last bit sits in the exponent, where a flip
/// rescales every duration by a power of two.
pub fn live_cases() -> (cases: Vec<DrillCase>)
    ensures
        cases@.len() == 3,
        cases@[0].label@ == "stopwatch total, one bit (40)"@ && cases@[0].bits@ == seq![40u32],
        cases@[1].label@ == "stopwatch total, two bits"@ && cases@[1].bits@ == seq![11u32, 46],
        cases@[2].label@ == "clock factor, one exponent bit"@ && cases@[2].bits@ == seq![52u32],
{
    let one: Vec<u32> = vec![40];
    let two: Vec<u32> = vec![11, 46];
    let factor: Vec<u32> = vec![52];
    assert(one@ =~= seq![40u32]);
    assert(two@ =~= seq![11u32, 46]);
    assert(factor@ =~= seq![52u32]);
    vec![
        DrillCase { label: "stopwatch total, one bit (40)", bits: one },
        DrillCase { label: "stopwatch total, two bits", bits: two },
        DrillCase { label: "clock factor, one exponent bit", bits: factor },
    ]
}

/// What one case of the drill came to.
#[derive(Debug)]
pub struct DrillRow {
    pub label: String,
    /// Which tier answered.
    pub tier: String,
    /// Whether the value came back, or the reading held.
    pub held: bool,
}

/// Some rows of the drill.
pub open spec fn with_drill(out: Seq<char>, rows: Seq<DrillRow>) -> Seq<char>
    decreases rows.len(),
{
    if rows.len() == 0 {
        out
    } else {
        let row = rows.last();
        with_drill(out, rows.drop_last()) + crate::text::padded_right(row.label@, 34) + " "@
            + crate::text::padded_right(row.tier@, 22) + " "@ + crate::selftest::answer(row.held)
            + "\n"@
    }
}

fn push_drill(out: &mut String, rows: &Vec<DrillRow>)
    ensures
        final(out)@ == with_drill(old(out)@, rows@),
{
    let ghost head = out@;
    let mut i: usize = 0;
    assert(rows@.take(0) =~= Seq::empty());
    while i < rows.len()
        invariant
            i <= rows.len(),
            out@ == with_drill(head, rows@.take(i as int)),
        decreases rows.len() - i,
    {
        assert(rows@.take(i + 1).drop_last() =~= rows@.take(i as int));
        push_padded_right(out, rows[i].label.as_str(), 34);
        push_text(out, " ");
        push_padded_right(out, rows[i].tier.as_str(), 22);
        push_text(out, " ");
        push_text(out, yes_no(rows[i].held));
        push_text(out, "\n");
        i = i + 1;
    }
    assert(rows@.take(i as int) =~= rows@);
}

/// How often stored state was checked and mended.
#[derive(Debug, Clone, Copy, PartialEq, Eq, Structural)]
pub struct IntegrityStats {
    pub checks: u64,
    pub ecc_corrections: u64,
    pub tmr_corrections: u64,
    pub unrecoverable: u64,
}

impl IntegrityStats {
    pub open spec fn clean(self) -> bool {
        self.ecc_corrections == 0 && self.tmr_corrections == 0 && self.unrecoverable == 0
    }

    /// Whether nothing was ever found damaged.
    pub fn is_clean(&self) -> (clean: bool)
        ensures
            clean == self.clean(),
    {
        self.ecc_corrections == 0 && self.tmr_corrections == 0 && self.unrecoverable == 0
    }
}

/// The drill's part of the report.
pub open spec fn drill_text(out: Seq<char>, scratch: Seq<DrillRow>, live: Seq<DrillRow>) -> Seq<
    char,
> {
    with_drill(
        with_drill(
            out
                + "Fault-injection drill on a scratch value — nothing live is touched.\n\nINJECTED                           TIER                   RECOVERED\n"@,
            scratch,
        )
            + "\nLive state — the flip lands in a real stopwatch and a real calibration.\n\nINJECTED                           TIER                   READING HELD\n"@,
        live,
    ) + "\n"@
}

/// The report on stored state.
pub open spec fn integrity_text(
    out: Seq<char>,
    drill: Option<(Vec<DrillRow>, Vec<DrillRow>)>,
    stats: IntegrityStats,
) -> Seq<char> {
    let head = match drill {
        Some((scratch, live)) => drill_text(out, scratch@, live@),
        None => out,
    };
    with_count(
        with_count(
            with_count(
                with_count(head, "checks          : "@, stats.checks as int),
                "\necc corrections : "@,
                stats.ecc_corrections as int,
            ),
            "\ntmr corrections : "@,
            stats.tmr_corrections as int,
        ),
        "\nunrecoverable   : "@,
        stats.unrecoverable as int,
    ) + (if stats.clean() {
        "\n\nNo stored-state corruption observed.\n"@
    } else {
        "\n\nState was repaired during this run. At sea level that usually means failing\nmemory rather than radiation — check the hardware before trusting a long run.\n"@
    })
}

/// Writes the report on stored state, with the drill where it was run.
pub fn write_integrity(
    out: &mut String,
    drill: &Option<(Vec<DrillRow>, Vec<DrillRow>)>,
    stats: &IntegrityStats,
)
    ensures
        final(out)@ == integrity_text(old(out)@, *drill, *stats),
{
    match drill {
        Some((scratch, live)) => {
            push_text(
                out,
                "Fault-injection drill on a scratch value — nothing live is touched.\n\nINJECTED                           TIER                   RECOVERED\n",
            );
            push_drill(out, scratch);
            push_text(
                out,
                "\nLive state — the flip lands in a real stopwatch and a real calibration.\n\nINJECTED                           TIER                   READING HELD\n",
            );
            push_drill(out, live);
            push_text(out, "\n");
        },
        None => {},
    }
    push_count(out, "checks          : ", stats.checks);
    push_count(out, "\necc corrections : ", stats.ecc_corrections);
    push_count(out, "\ntmr corrections : ", stats.tmr_corrections);
    push_count(out, "\nunrecoverable   : ", stats.unrecoverable);
    push_text(
        out,
        if stats.is_clean() {
            "\n\nNo stored-state corruption observed.\n"
        } else {
            "\n\nState was repaired during this run. At sea level that usually means failing\nmemory rather than radiation — check the hardware before trusting a long run.\n"
        },
    );
}

// ---------------------------------------------------------------------------
// The clock
// ---------------------------------------------------------------------------

/// What the kernel module counted, system-wide.
#[derive(Debug)]
pub struct Ring0Counts {
    pub event: String,
    pub enabled: bool,
    pub npmu: u64,
    pub raw: u64,
    pub enabled_ns: u64,
    pub running_ns: u64,
    /// Corrected for the time the counter was shared.
    pub scaled: u64,
}

/// A counter of the other families, and its rate.
#[derive(Debug, Clone, Copy, PartialEq, Eq, Structural)]
pub struct TimebaseReading {
    pub raw: u64,
    pub hz: Option<u64>,
}

/// The line with the raw counters of a processor.
pub open spec fn with_processor_counters(
    out: Seq<char>,
    s: NanoclockSnapshot,
    target: Target,
    timebase: TimebaseReading,
) -> Seq<char> {
    let machine = target.machine;
    if machine is X86Wide {
        with_count(
            with_count(
                with_count(
                    with_count(
                        with_count(out, "x64 rdtsc="@, s.rdtsc_raw as int),
                        " lfence_rdtsc="@,
                        s.rdtsc_lfence as int,
                    ),
                    " mfence_lfence_rdtsc="@,
                    s.rdtsc_mfence as int,
                ),
                " rdtscp_lfence="@,
                s.rdtscp_lfence as int,
            ),
            " aux="@,
            s.rdtscp_aux as int,
        ) + "\n"@
    } else if machine is Aarch64 {
        with_count(
            with_count(
                with_count(
                    with_count(out, "arm64 cntfrq_el0="@, s.cntfrq_el0 as int),
                    " cntvct_el0="@,
                    s.cntvct_el0 as int,
                ),
                " cntvct_isb="@,
                s.cntvct_isb as int,
            ),
            " cntvct_ns="@,
            s.cntvct_ns as int,
        ) + "\n"@
    } else if machine.powerpc() || machine.riscv() || machine is Arm {
        with_count(
            with_count(
                out + Arch::family(machine).label(target),
                " timebase="@,
                timebase.raw as int,
            ),
            " timebase_hz="@,
            (match timebase.hz {
                Some(hz) => hz,
                None => 0,
            }) as int,
        ) + "\n"@
    } else {
        out
    }
}

/// The line with the cycles of the thread, and the one with the module's.
pub open spec fn with_perf_counters(
    out: Seq<char>,
    s: NanoclockSnapshot,
    linux: bool,
    ring0: Option<Ring0Counts>,
) -> Seq<char> {
    let own = with_count(
        match s.perf_cycles {
            Some(cycles) => with_count(out, "perf_cycles="@, cycles as int),
            None => out + "perf_cycles=unavailable"@,
        },
        " ("@,
        s.perf_pmu_count as int,
    ) + " PMU event(s), via perf_event_open)\n"@;
    if !linux {
        own
    } else {
        match ring0 {
            Some(r) => with_count(
                with_count(
                    with_count(
                        with_count(
                            with_count(
                                own + "ring0_"@ + r.event@,
                                "="@,
                                r.scaled as int,
                            ),
                            " (raw="@,
                            r.raw as int,
                        ),
                        " npmu="@,
                        r.npmu as int,
                    ),
                    " enabled_ns="@,
                    r.enabled_ns as int,
                ),
                " running_ns="@,
                r.running_ns as int,
            ) + ", via /proc/nanochrono)\n"@,
            None => own
                + "ring0=unavailable (module not loaded; see kernel/linux/README.md)\n"@,
        }
    }
}

/// Writes every raw counter of a snapshot.
pub fn print_counters(
    out: &mut String,
    s: &NanoclockSnapshot,
    target: &Target,
    timebase: &TimebaseReading,
    ring0: &Option<Ring0Counts>,
)
    ensures
        final(out)@ == with_perf_counters(
            with_processor_counters(old(out)@, *s, *target, *timebase),
            *s,
            target.linux,
            *ring0,
        ),
{
    match target.machine {
        Machine::X86Wide => {
            push_count(out, "x64 rdtsc=", s.rdtsc_raw);
            push_count(out, " lfence_rdtsc=", s.rdtsc_lfence);
            push_count(out, " mfence_lfence_rdtsc=", s.rdtsc_mfence);
            push_count(out, " rdtscp_lfence=", s.rdtscp_lfence);
            push_count(out, " aux=", s.rdtscp_aux as u64);
            push_text(out, "\n");
        },
        Machine::Aarch64 => {
            push_count(out, "arm64 cntfrq_el0=", s.cntfrq_el0);
            push_count(out, " cntvct_el0=", s.cntvct_el0);
            push_count(out, " cntvct_isb=", s.cntvct_isb);
            push_count(out, " cntvct_ns=", s.cntvct_ns);
            push_text(out, "\n");
        },
        Machine::PowerPc | Machine::PowerPcWide | Machine::RiscV | Machine::RiscVWide
        | Machine::Arm => {
            push_text(out, Arch::of(target.machine).name(target));
            push_count(out, " timebase=", timebase.raw);
            push_count(
                out,
                " timebase_hz=",
                match timebase.hz {
                    Some(hz) => hz,
                    None => 0,
                },
            );
            push_text(out, "\n");
        },
        _ => {},
    }
    match s.perf_cycles {
        Some(cycles) => push_count(out, "perf_cycles=", cycles),
        None => push_text(out, "perf_cycles=unavailable"),
    }
    push_count(out, " (", s.perf_pmu_count as u64);
    push_text(out, " PMU event(s), via perf_event_open)\n");
    if target.linux {
        match ring0 {
            Some(r) => {
                push_text(out, "ring0_");
                push_text(out, r.event.as_str());
                push_count(out, "=", r.scaled);
                push_count(out, " (raw=", r.raw);
                push_count(out, " npmu=", r.npmu);
                push_count(out, " enabled_ns=", r.enabled_ns);
                push_count(out, " running_ns=", r.running_ns);
                push_text(out, ", via /proc/nanochrono)\n");
            },
            None => push_text(
                out,
                "ring0=unavailable (module not loaded; see kernel/linux/README.md)\n",
            ),
        }
    }
}

/// The times of a clock sample, as they are shown.
#[derive(Debug)]
pub struct ClockFaces {
    pub display: String,
    pub local: String,
    pub face: String,
}

/// The head of one clock sample.
pub open spec fn with_faces(out: Seq<char>, faces: ClockFaces) -> Seq<char> {
    out + "display_time="@ + faces.display@ + "\nraw_local_no_ntp="@ + faces.local@
        + "\nclock_face="@ + faces.face@ + "\n"@
}

/// The line of costs a detailed clock sample has.
pub open spec fn with_costs(
    out: Seq<char>,
    s: NanoclockSnapshot,
    kernel_timecall: u64,
    api_call: u64,
) -> Seq<char> {
    let head = out + "route="@ + s.route.label() + " simd="@ + (match s.best_simd {
        Some(name) => name@,
        None => "none"@,
    });
    with_count(
        with_count(
            with_count(
                with_count(
                    with_count(
                        with_count(head, " cpu="@, s.cpu_index as int),
                        " raw="@,
                        s.selected_raw_units as int,
                    ),
                    " selected_ns="@,
                    s.selected_ns as int,
                ),
                " read_overhead="@,
                s.native_overhead_units as int,
            ),
            " kernel_timecall="@,
            kernel_timecall as int,
        ),
        " api_call="@,
        api_call as int,
    ) + "\n"@
}

/// Writes one clock sample, with its costs where detail is asked for.
pub fn write_clock(
    out: &mut String,
    s: &NanoclockSnapshot,
    faces: &ClockFaces,
    detailed: bool,
    kernel_timecall: u64,
    api_call: u64,
)
    ensures
        final(out)@ == (if detailed {
            with_costs(with_faces(old(out)@, *faces), *s, kernel_timecall, api_call)
        } else {
            with_faces(old(out)@, *faces)
        }),
{
    push_text(out, "display_time=");
    push_text(out, faces.display.as_str());
    push_text(out, "\nraw_local_no_ntp=");
    push_text(out, faces.local.as_str());
    push_text(out, "\nclock_face=");
    push_text(out, faces.face.as_str());
    push_text(out, "\n");
    if detailed {
        push_text(out, "route=");
        push_text(out, s.route.name());
        push_text(out, " simd=");
        push_text(out, s.simd_name());
        push_count(out, " cpu=", s.cpu_index as u64);
        push_count(out, " raw=", s.selected_raw_units);
        push_count(out, " selected_ns=", s.selected_ns);
        push_count(out, " read_overhead=", s.native_overhead_units);
        push_count(out, " kernel_timecall=", kernel_timecall);
        push_count(out, " api_call=", api_call);
        push_text(out, "\n");
    }
}

/// The head of one nanosecond-clock sample.
pub open spec fn ns_clock_head(out: Seq<char>, s: NanoclockSnapshot, utc: Seq<char>) -> Seq<char> {
    let times = with_count(
        with_count(
            with_count(
                out + "time_utc="@ + utc,
                "\nmonotonic_ns="@,
                s.monotonic_ns as int,
            ),
            " process_ns="@,
            s.process_time_ns as int,
        ),
        " thread_ns="@,
        s.thread_time_ns as int,
    );
    let route = times + "\nroute="@ + s.route.label() + " simd="@ + (match s.best_simd {
        Some(name) => name@,
        None => "none"@,
    }) + " backend="@ + s.backend.label();
    with_count(
        with_count(
            with_count(route, " raw="@, s.selected_raw_units as int),
            " selected_ns="@,
            s.selected_ns as int,
        ),
        " barrier_overhead="@,
        s.selected_overhead_units as int,
    ) + "\n"@
}

/// Writes one nanosecond-clock sample, down to its raw counters.
pub fn write_ns_clock(
    out: &mut String,
    s: &NanoclockSnapshot,
    utc: &str,
    target: &Target,
    timebase: &TimebaseReading,
    ring0: &Option<Ring0Counts>,
)
    ensures
        final(out)@ == with_count(
            with_count(
                with_perf_counters(
                    with_processor_counters(
                        ns_clock_head(old(out)@, *s, utc@),
                        *s,
                        *target,
                        *timebase,
                    ),
                    *s,
                    target.linux,
                    *ring0,
                ),
                "overhead native="@,
                s.native_overhead_units as int,
            ),
            " units  ffi="@,
            s.ffi_overhead_units as int,
        ) + " units\n"@,
{
    push_text(out, "time_utc=");
    push_text(out, utc);
    push_count(out, "\nmonotonic_ns=", s.monotonic_ns);
    push_count(out, " process_ns=", s.process_time_ns);
    push_count(out, " thread_ns=", s.thread_time_ns);
    push_text(out, "\nroute=");
    push_text(out, s.route.name());
    push_text(out, " simd=");
    push_text(out, s.simd_name());
    push_text(out, " backend=");
    push_text(out, s.backend.name());
    push_count(out, " raw=", s.selected_raw_units);
    push_count(out, " selected_ns=", s.selected_ns);
    push_count(out, " barrier_overhead=", s.selected_overhead_units);
    push_text(out, "\n");
    print_counters(out, s, target, timebase, ring0);
    push_count(out, "overhead native=", s.native_overhead_units);
    push_count(out, " units  ffi=", s.ffi_overhead_units);
    push_text(out, " units\n");
}

// ---------------------------------------------------------------------------
// Performance counters
// ---------------------------------------------------------------------------

/// What both rings counted.
pub open spec fn perf_text(
    out: Seq<char>,
    ring3: Option<u64>,
    pmus: u64,
    ring0: Option<Ring0Counts>,
) -> Seq<char> {
    let own = with_count(
        match ring3 {
            Some(cycles) => with_count(out, "ring3_cycles="@, cycles as int),
            None => out + "ring3_cycles=unavailable"@,
        },
        " ("@,
        pmus as int,
    ) + " PMU event(s), via perf_event_open, per-thread)\n"@;
    match ring0 {
        Some(r) => {
            let named = with_answer(
                own + "ring0_source=perf (/proc/nanochrono, nanochrono.ko)\nring0_event="@
                    + r.event@,
                "\nring0_enabled="@,
                r.enabled,
            );
            let counted = with_count(
                with_count(
                    with_count(
                        with_count(
                            with_count(named, "\nring0_npmu="@, r.npmu as int),
                            "\nring0_raw="@,
                            r.raw as int,
                        ),
                        "\nring0_enabled_ns="@,
                        r.enabled_ns as int,
                    ),
                    "\nring0_running_ns="@,
                    r.running_ns as int,
                ),
                "\nring0_scaled="@,
                r.scaled as int,
            ) + " (multiplexing-corrected; the number to use)\n"@;
            if r.enabled {
                counted
            } else {
                counted + "note: counting is disabled; `perf --enable` to resume\n"@
            }
        },
        None => own
            + "ring0=unavailable\n  the kernel module is not loaded, or this machine exposes no PMU events to it (perf_available=0 in /proc/nanochrono).\n  cd kernel/linux && sudo make load\n"@,
    }
}

/// Writes what both rings counted: this thread's cycles, and the sums over
/// all processors.
pub fn write_perf(out: &mut String, ring3: Option<u64>, pmus: u64, ring0: &Option<Ring0Counts>)
    ensures
        final(out)@ == perf_text(old(out)@, ring3, pmus, *ring0),
{
    match ring3 {
        Some(cycles) => push_count(out, "ring3_cycles=", cycles),
        None => push_text(out, "ring3_cycles=unavailable"),
    }
    push_count(out, " (", pmus);
    push_text(out, " PMU event(s), via perf_event_open, per-thread)\n");
    match ring0 {
        Some(r) => {
            push_text(out, "ring0_source=perf (/proc/nanochrono, nanochrono.ko)\nring0_event=");
            push_text(out, r.event.as_str());
            push_answer(out, "\nring0_enabled=", r.enabled);
            push_count(out, "\nring0_npmu=", r.npmu);
            push_count(out, "\nring0_raw=", r.raw);
            push_count(out, "\nring0_enabled_ns=", r.enabled_ns);
            push_count(out, "\nring0_running_ns=", r.running_ns);
            push_count(out, "\nring0_scaled=", r.scaled);
            push_text(out, " (multiplexing-corrected; the number to use)\n");
            if !r.enabled {
                push_text(out, "note: counting is disabled; `perf --enable` to resume\n");
            }
        },
        None => push_text(
            out,
            "ring0=unavailable\n  the kernel module is not loaded, or this machine exposes no PMU events to it (perf_available=0 in /proc/nanochrono).\n  cd kernel/linux && sudo make load\n",
        ),
    }
}

// ---------------------------------------------------------------------------
// Calibration
// ---------------------------------------------------------------------------

/// A processor, or the number that stands for an unknown one.
pub open spec fn cpu_number(cpu: Option<u32>, unknown: u32) -> int {
    match cpu {
        Some(n) => n as int,
        None => unknown as int,
    }
}

fn cpu_or(cpu: Option<u32>, unknown: u32) -> (n: u64)
    ensures
        n == cpu_number(cpu, unknown),
{
    match cpu {
        Some(n) => n as u64,
        None => unknown as u64,
    }
}

/// Where a calibration ran.
pub open spec fn with_place(
    out: Seq<char>,
    pinned: bool,
    before: Option<u32>,
    after: Option<u32>,
    migrated: bool,
    unknown: u32,
) -> Seq<char> {
    with_answer(
        with_count(
            with_count(
                with_answer(out, " pinned="@, pinned),
                " cpu_before="@,
                cpu_number(before, unknown),
            ),
            " cpu_after="@,
            cpu_number(after, unknown),
        ),
        " migrated="@,
        migrated,
    )
}

fn push_place(
    out: &mut String,
    pinned: bool,
    before: Option<u32>,
    after: Option<u32>,
    migrated: bool,
    unknown: u32,
)
    ensures
        final(out)@ == with_place(old(out)@, pinned, before, after, migrated, unknown),
{
    push_answer(out, " pinned=", pinned);
    push_count(out, " cpu_before=", cpu_or(before, unknown));
    push_count(out, " cpu_after=", cpu_or(after, unknown));
    push_answer(out, " migrated=", migrated);
}

/// What calibrating a route came to.
pub open spec fn route_calibration_text(
    out: Seq<char>,
    r: RouteCalibration,
    units_per_second: Seq<char>,
    ns_per_unit: Seq<char>,
    unknown: u32,
) -> Seq<char> {
    let head = with_place(
        with_count(out + "route="@ + r.route.label(), " samples="@, r.samples as int),
        r.pinned,
        r.cpu_before,
        r.cpu_after,
        r.migrated,
        unknown,
    );
    let rates = with_count(
        with_count(head, "\nelapsed_raw="@, r.elapsed_raw_units as int),
        " elapsed_ns="@,
        r.elapsed_ns as int,
    ) + " units_per_second="@ + units_per_second + " ns_per_unit="@ + ns_per_unit;
    let costs = with_count(
        with_count(
            with_count(rates, "\noverhead read="@, r.read_overhead_units as int),
            " kernel_timecall="@,
            r.kernel_timecall_overhead_units as int,
        ),
        " api_call="@,
        r.api_call_overhead_units as int,
    ) + "\n"@;
    if r.migrated {
        costs
            + "warning: the thread migrated during calibration; re-run with --pin-cpu N\n"@
    } else {
        costs
    }
}

/// Writes what calibrating a route came to.
pub fn write_route_calibration(
    out: &mut String,
    r: &RouteCalibration,
    units_per_second: &str,
    ns_per_unit: &str,
    unknown: u32,
)
    ensures
        final(out)@ == route_calibration_text(
            old(out)@,
            *r,
            units_per_second@,
            ns_per_unit@,
            unknown,
        ),
{
    push_text(out, "route=");
    push_text(out, r.route.name());
    push_count(out, " samples=", r.samples);
    push_place(out, r.pinned, r.cpu_before, r.cpu_after, r.migrated, unknown);
    push_count(out, "\nelapsed_raw=", r.elapsed_raw_units);
    push_count(out, " elapsed_ns=", r.elapsed_ns);
    push_text(out, " units_per_second=");
    push_text(out, units_per_second);
    push_text(out, " ns_per_unit=");
    push_text(out, ns_per_unit);
    push_count(out, "\noverhead read=", r.read_overhead_units);
    push_count(out, " kernel_timecall=", r.kernel_timecall_overhead_units);
    push_count(out, " api_call=", r.api_call_overhead_units);
    push_text(out, "\n");
    if r.migrated {
        push_text(
            out,
            "warning: the thread migrated during calibration; re-run with --pin-cpu N\n",
        );
    }
}

/// What a stable calibration came to.
pub open spec fn stable_calibration_text(
    out: Seq<char>,
    s: StableClockState,
    cycles_per_ns: Seq<char>,
    ns_per_cycle: Seq<char>,
    unknown: u32,
) -> Seq<char> {
    let head = with_answer(
        with_place(
            out + "route="@ + s.route.label(),
            s.pinned,
            s.cpu_before,
            s.cpu_after,
            s.migrated,
            unknown,
        ),
        " invariant="@,
        s.is_invariant,
    );
    let window = with_count(
        with_count(
            with_count(
                with_count(head, "\nraw_start="@, s.raw_start as int),
                " raw_end="@,
                s.raw_end as int,
            ),
            " elapsed_units="@,
            s.elapsed_units as int,
        ),
        " elapsed_ns="@,
        s.elapsed_ns as int,
    );
    let costs = with_count(
        with_count(
            with_count(
                window + "\ncycles_per_ns="@ + cycles_per_ns + " ns_per_cycle="@ + ns_per_cycle,
                " read_overhead="@,
                s.read_overhead_units as int,
            ),
            " kernel="@,
            s.kernel_timecall_overhead_units as int,
        ),
        " api="@,
        s.api_call_overhead_units as int,
    );
    with_text(
        with_answer(
            costs + "\nformula: ns = cycles / cycles_per_ns\n"@,
            "usable: "@,
            s.has_factor() && !(s.migrated && !s.pinned),
        ),
        "\nadvice: "@,
        STABILITY_ADVICE@,
    ) + "\n"@
}

/// Writes what a stable calibration came to.
pub fn write_stable_calibration(
    out: &mut String,
    s: &StableClockState,
    cycles_per_ns: &str,
    ns_per_cycle: &str,
    unknown: u32,
)
    ensures
        final(out)@ == stable_calibration_text(
            old(out)@,
            *s,
            cycles_per_ns@,
            ns_per_cycle@,
            unknown,
        ),
{
    push_text(out, "route=");
    push_text(out, s.route.name());
    push_place(out, s.pinned, s.cpu_before, s.cpu_after, s.migrated, unknown);
    push_answer(out, " invariant=", s.is_invariant);
    push_count(out, "\nraw_start=", s.raw_start);
    push_count(out, " raw_end=", s.raw_end);
    push_count(out, " elapsed_units=", s.elapsed_units);
    push_count(out, " elapsed_ns=", s.elapsed_ns);
    push_text(out, "\ncycles_per_ns=");
    push_text(out, cycles_per_ns);
    push_text(out, " ns_per_cycle=");
    push_text(out, ns_per_cycle);
    push_count(out, " read_overhead=", s.read_overhead_units);
    push_count(out, " kernel=", s.kernel_timecall_overhead_units);
    push_count(out, " api=", s.api_call_overhead_units);
    push_text(out, "\nformula: ns = cycles / cycles_per_ns\n");
    push_answer(out, "usable: ", s.is_usable());
    push_labelled(out, "\nadvice: ", STABILITY_ADVICE);
    push_text(out, "\n");
}

// ---------------------------------------------------------------------------
// Tables
// ---------------------------------------------------------------------------

/// One row of the wrapper table: units, and what they are worth.
pub open spec fn with_wrapper(out: Seq<char>, kind: WrapperKind, units: u64, ns: u64) -> Seq<char> {
    out + crate::text::padded_right(kind.label(), 18) + " "@ + crate::text::padded_left(
        crate::text::decimal(units as int),
        10,
    ) + " "@ + crate::text::padded_left(crate::text::decimal(ns as int), 10) + (if kind is CApi
        || kind is DllBoundary || kind is RustFfi {
        "  measured\n"@
    } else {
        "  baseline\n"@
    })
}

/// Writes the head of the wrapper table.
pub fn write_wrapper_head(out: &mut String)
    ensures
        final(out)@ == old(out)@
            + "Native call-overhead baselines. Interpreted wrappers must add their own\nmarshalling cost on top: this process cannot measure another runtime.\n\nWRAPPER                 UNITS         NS  SOURCE\n"@,
{
    push_text(
        out,
        "Native call-overhead baselines. Interpreted wrappers must add their own\nmarshalling cost on top: this process cannot measure another runtime.\n\nWRAPPER                 UNITS         NS  SOURCE\n",
    );
}

/// Writes one row of the wrapper table.
pub fn write_wrapper(out: &mut String, kind: WrapperKind, units: u64, ns: u64)
    ensures
        final(out)@ == with_wrapper(old(out)@, kind, units, ns),
{
    push_padded_right(out, kind.name(), 18);
    push_text(out, " ");
    push_decimal_left(out, units, 10);
    push_text(out, " ");
    push_decimal_left(out, ns, 10);
    push_text(
        out,
        if kind.is_measured_natively() {
            "  measured\n"
        } else {
            "  baseline\n"
        },
    );
}

/// Writes one row of the cache-probe table: what it cost, or that it is not
/// supported.
pub fn write_probe(out: &mut String, name: &str, units: Option<u64>)
    ensures
        final(out)@ == old(out)@ + crate::text::padded_right(name@, 18) + " "@
            + crate::text::padded_left(
            match units {
                Some(units) => crate::text::decimal(units as int),
                None => "unsupported"@,
            },
            12,
        ) + "\n"@,
{
    push_padded_right(out, name, 18);
    push_text(out, " ");
    match units {
        Some(units) => push_decimal_left(out, units, 12),
        None => push_padded_left(out, "unsupported", 12),
    }
    push_text(out, "\n");
}

/// What one probe cost, or nothing where it declined.
pub open spec fn cost_or_zero(units: Option<u64>) -> int {
    match units {
        Some(units) => units as int,
        None => 0,
    }
}

/// Writes one row of the SIMD table.
pub fn write_simd_row(
    out: &mut String,
    name: &str,
    width: u64,
    load: Option<u64>,
    xor: Option<u64>,
    barrier: Option<u64>,
)
    ensures
        final(out)@ == old(out)@ + crate::text::padded_right(name@, 16) + " "@
            + crate::text::padded_left(crate::text::decimal(width as int), 4) + " B "@
            + crate::text::padded_left(crate::text::decimal(cost_or_zero(load)), 14) + " "@
            + crate::text::padded_left(crate::text::decimal(cost_or_zero(xor)), 14) + " "@
            + crate::text::padded_left(crate::text::decimal(cost_or_zero(barrier)), 12) + "\n"@,
{
    push_padded_right(out, name, 16);
    push_text(out, " ");
    push_decimal_left(out, width, 4);
    push_text(out, " B ");
    push_decimal_left(
        out,
        match load {
            Some(units) => units,
            None => 0,
        },
        14,
    );
    push_text(out, " ");
    push_decimal_left(
        out,
        match xor {
            Some(units) => units,
            None => 0,
        },
        14,
    );
    push_text(out, " ");
    push_decimal_left(
        out,
        match barrier {
            Some(units) => units,
            None => 0,
        },
        12,
    );
    push_text(out, "\n");
}

/// What the counter's units are called.
pub fn unit_name(machine: Machine) -> (name: &'static str)
    ensures
        name@ == (if machine is X86Wide {
            "TSC cycles"@
        } else {
            "counter ticks"@
        }),
{
    match machine {
        Machine::X86Wide => "TSC cycles",
        _ => "counter ticks",
    }
}

/// What a constant-time audit found, in words.
pub fn audit_verdict(likely_leak: bool) -> (text: &'static str)
    ensures
        text@ == (if likely_leak {
            "timing difference detected — investigate, or re-run pinned to a quiet core"@
        } else {
            "no timing difference indicated"@
        }),
{
    if likely_leak {
        "timing difference detected — investigate, or re-run pinned to a quiet core"
    } else {
        "no timing difference indicated"
    }
}

} // verus!
