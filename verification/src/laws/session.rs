//! What a session decides and says.
use crate::acpi_report::{
    acpi_text, declared_in, identified, inventory, shown, signatures, totals, with_address,
    with_controller, with_pin, AcpiFacts, BusController, DeviceIds, Dsdt, GpioPin, GpioWindows,
    Readiness, Ssdt,
};
use crate::cli::DetailMode;
use crate::cli_session::{
    accumulated, after_clock_sample, after_ns_clock_sample, after_sample, after_scrub,
    cooldown_warns, counting_changes, counting_outcome, event_named, ntp_line, ntp_text, once_text,
    provider_text, reprobe_outcome, stopwatch_head, tls_text, with_class, with_names, ClassTimings,
    CountingChange, ModuleReply, NtpReply, NtpSample, OnceFacts, Scrub, ScrubAnswer, TlsSample,
    ViewStep,
};
use crate::clock::ClockRoute;
use crate::harness::{
    handshake_text, pass_text, summary_text, Handshake, PassCounts, PassRates, SummaryRates,
};
use crate::hypervisor::HypervisorReport;
use crate::selftest::answer;
use crate::text::decimal;
use vstd::prelude::*;

verus! {

/// A calibration that was repaired is noted, one that can be used goes on, and
/// one that is lost stops everything.
pub proof fn a_lost_calibration_stops(scrub: Scrub, said: ScrubAnswer)
    requires
        call_ensures(after_scrub, (scrub,), said),
    ensures
        scrub.repaired ==> said is Note,
        !scrub.repaired && scrub.usable ==> said is GoOn,
        !scrub.repaired && !scrub.usable ==> said is Stop,
{
}

/// A live view samples again until it is stopped, the detailed clock ten times
/// a second and the others four times; any other view ends with its sample.
pub proof fn a_live_view_samples_again(
    live: bool,
    stopped: bool,
    wait: u64,
    detail: DetailMode,
    step: ViewStep,
    clock: ViewStep,
    ns: ViewStep,
)
    requires
        call_ensures(after_sample, (live, stopped, wait), step),
        call_ensures(after_clock_sample, (live, stopped, detail), clock),
        call_ensures(after_ns_clock_sample, (live, stopped), ns),
    ensures
        !live || stopped ==> step is End && clock is End && ns is End,
        live && !stopped ==> step == (ViewStep::Again { wait_ms: wait }) && ns == (ViewStep::Again {
            wait_ms: 250,
        }),
        live && !stopped && detail is Nano ==> clock == (ViewStep::Again { wait_ms: 100 }),
        live && !stopped && detail is Simple ==> clock == (ViewStep::Again { wait_ms: 250 }),
{
}

/// The stopwatch says what it runs on, and what that means on a virtual
/// machine.
pub proof fn the_stopwatch_says_what_it_runs_on(
    out: Seq<char>,
    backend: crate::backend::Backend,
    mhz: Seq<char>,
    route: ClockRoute,
    platform: HypervisorReport,
)
    ensures
        ({
            let head = out + "NanoChronometer stopwatch\nbackend="@ + backend.label()
                + "  counter="@ + mhz + " MHz  route="@ + route.label() + "\n"@;
            &&& platform@.confidence is Absent ==> stopwatch_head(
                out,
                backend,
                mhz,
                route,
                platform,
            ) == head + "Press Ctrl+C to stop.\n\n"@
            &&& !(platform@.confidence is Absent) ==> stopwatch_head(
                out,
                backend,
                mhz,
                route,
                platform,
            ) == head + "platform="@ + crate::hypervisor::summary_text(platform@) + "  "@
                + platform.timing_impact.advised() + "\n"@ + "Press Ctrl+C to stop.\n\n"@
        }),
{
}

/// One sample, each figure behind its own name.
pub proof fn one_sample_is_printed_by_name(
    out: Seq<char>,
    facts: OnceFacts,
    platform: HypervisorReport,
)
    ensures
        ({
            let sample = out + "backend="@ + facts.backend.label() + "\nplatform="@
                + crate::hypervisor::summary_text(platform@) + "\ncounter_hz="@ + decimal(
                facts.counter_hz as int,
            ) + "\nelapsed="@ + facts.elapsed@ + "\ncounter_read_overhead="@ + decimal(
                facts.read_overhead_units as int,
            ) + " units\nffi_overhead="@ + decimal(facts.ffi_overhead_units as int)
                + " units\ndrift="@ + facts.drift_ppm@ + " ppm\ncalibration_integrity="@
                + facts.integrity@ + "\n"@;
            &&& platform@.confidence is Absent ==> once_text(out, facts, platform) == sample
            &&& !(platform@.confidence is Absent) ==> once_text(out, facts, platform) == sample
                + "\nnote: "@ + platform.timing_impact.advised() + "\n"@
        }),
{
}

/// A time server's answer, in one line and in full; a failure under the name
/// that was asked.
pub proof fn a_time_servers_answer_is_printed_by_name(
    out: Seq<char>,
    server: Seq<char>,
    s: NtpSample,
    error: String,
)
    ensures
        ntp_line(out, server, NtpReply::Sample(s)) == out + "ntp_server="@ + s.server@
            + " stratum="@ + decimal(s.stratum as int) + " offset="@ + s.offset_ms@ + " ms (+/- "@
            + s.uncertainty_ms@ + " ms) delay="@ + s.delay_ms@ + " ms setup="@ + decimal(
            s.socket_setup_units as int,
        ) + " units send_recv="@ + decimal(s.send_recv_units as int) + " units migrated="@ + answer(
            s.migrated,
        ) + "\n"@,
        ntp_line(out, server, (NtpReply::Failed { error })) == out + "ntp_server="@ + server
            + " status="@ + error@ + "\n"@,
        ntp_text(out, s) == out + "server="@ + s.server@ + "\nstratum="@ + decimal(
            s.stratum as int,
        ) + " version="@ + decimal(s.version as int) + " leap="@ + decimal(s.leap_indicator as int)
            + " precision_exp="@ + decimal(s.precision_exp as int) + "\nserver_time="@
            + s.server_time@ + "\noffset="@ + s.offset_ms@ + " ms (+/- "@ + s.uncertainty_ms@
            + " ms)  delay="@ + s.delay_ms@ + " ms\nsocket_setup="@ + decimal(
            s.socket_setup_units as int,
        ) + " units  send_recv="@ + decimal(s.send_recv_units as int) + " units  kernel_timecall="@
            + decimal(s.kernel_timecall_overhead_units as int) + " units  api_call="@ + decimal(
            s.api_call_overhead_units as int,
        ) + " units\nmigrated="@ + answer(s.migrated) + "\n"@,
{
}

/// A handshake, each figure behind its own name.
pub proof fn a_handshake_is_printed_by_name(out: Seq<char>, t: TlsSample)
    ensures
        tls_text(out, t) == out + "host="@ + t.host@ + ":"@ + decimal(t.port as int)
            + "\nprotocol="@ + t.protocol@ + " cipher_suite="@ + t.cipher_suite@
            + "\npeer_certificates="@ + decimal(t.peer_certificates as int) + " resumed="@ + answer(
            t.resumed,
        ) + "\nresolve="@ + t.resolve_ms@ + " ms\ntcp_connect="@ + t.tcp_connect_ms@
            + " ms\ntls_handshake="@ + t.handshake_ms@ + " ms\ntotal="@ + t.total_ms@
            + " ms (TLS is "@ + t.tls_percent@ + "% of it)\n"@,
{
}

/// A list of names has a line for each.
pub proof fn names_have_a_line_each(
    out: Seq<char>,
    names: Seq<String>,
    name: String,
    provider: Seq<char>,
)
    ensures
        with_names(out, Seq::empty()) == out,
        with_names(out, names.push(name)) == with_names(out, names) + "  "@ + name@ + "\n"@,
        provider_text(out, provider, None) == out + "provider: "@ + provider + "\n"@,
{
    assert(names.push(name).drop_last() =~= names);
}

/// What is audited touches every byte: each is mixed with 0xA5 and kept.
pub proof fn the_audited_work_touches_every_byte(input: Seq<u8>, byte: u8)
    ensures
        accumulated(Seq::empty()) == 0,
        accumulated(input.push(byte)) == accumulated(input) | (byte ^ 0xA5),
{
    assert(input.push(byte).drop_last() =~= input);
}

/// A class of timings, each figure behind its own name.
pub proof fn a_class_is_printed_by_name(out: Seq<char>, label: Seq<char>, c: ClassTimings)
    ensures
        with_class(out, label, c) == out + label + decimal(c.min as int) + " median="@ + decimal(
            c.median as int,
        ) + " mean="@ + c.mean@ + " p99="@ + decimal(c.p99 as int) + "\n"@,
{
}

/// What a module that was asked to probe again said.
pub proof fn a_module_is_asked_to_probe_again(
    path: Seq<char>,
    note: Seq<char>,
    ms: u64,
    error: String,
    seconds: u32,
    warns: bool,
)
    requires
        call_ensures(cooldown_warns, (seconds,), warns),
    ensures
        reprobe_outcome(ModuleReply::Done, path, note) == Ok::<Seq<char>, Seq<char>>(
            "module re-probed the hypervisor\n"@,
        ),
        reprobe_outcome((ModuleReply::WouldBlock { next_ms: Some(ms) }), path, note) == Err::<
            Seq<char>,
            Seq<char>,
        >(
            "the module refused: still cooling down"@ + (" — "@ + decimal(
                crate::cli_report::seconds_up(ms as int),
            ) + " s left"@) + ". "@ + note,
        ),
        reprobe_outcome((ModuleReply::Failed { error }), path, note) == Err::<Seq<char>, Seq<char>>(
            "cannot ask the module to re-probe ("@ + path + "): "@ + error@,
        ),
        warns <==> seconds == 0,
{
}

/// Counting is changed in order: the event, then on, then off; and only two
/// events are known.
pub proof fn counting_is_changed_in_order(
    event: bool,
    enable: bool,
    disable: bool,
    changes: Vec<CountingChange>,
    name: Seq<char>,
)
    requires
        call_ensures(counting_changes, (event, enable, disable), changes),
    ensures
        event && enable && disable ==> changes@ == seq![
            CountingChange::Select,
            CountingChange::Enable,
            CountingChange::Disable,
        ],
        event && !enable && !disable ==> changes@ == seq![CountingChange::Select],
        !event && enable && !disable ==> changes@ == seq![CountingChange::Enable],
        !event && !enable && disable ==> changes@ == seq![CountingChange::Disable],
        event && enable && !disable ==> changes@ == seq![
            CountingChange::Select,
            CountingChange::Enable,
        ],
        !event && !enable && !disable ==> changes@.len() == 0,
        event_named(name) == (if name == "cycles"@ || name == "instr"@ {
            Some(name)
        } else {
            None
        }),
{
    assert(event && enable && disable ==> changes@ =~= seq![
        CountingChange::Select,
        CountingChange::Enable,
        CountingChange::Disable,
    ]);
    assert(event && !enable && !disable ==> changes@ =~= seq![CountingChange::Select]);
    assert(!event && enable && !disable ==> changes@ =~= seq![CountingChange::Enable]);
    assert(!event && !enable && disable ==> changes@ =~= seq![CountingChange::Disable]);
    assert(event && enable && !disable ==> changes@ =~= seq![
        CountingChange::Select,
        CountingChange::Enable,
    ]);
}

/// What a change of counting came to, in words.
pub proof fn a_change_of_counting_is_told_in_words(event: Seq<char>, error: String)
    ensures
        counting_outcome(CountingChange::Select, event, None) == Ok::<Seq<char>, Seq<char>>(
            "ring0 event selected: "@ + event + "\n"@,
        ),
        counting_outcome(CountingChange::Enable, event, None) == Ok::<Seq<char>, Seq<char>>(
            "ring0 enabled\n"@,
        ),
        counting_outcome(CountingChange::Disable, event, None) == Ok::<Seq<char>, Seq<char>>(
            "ring0 disabled\n"@,
        ),
        counting_outcome(CountingChange::Select, event, Some(error)) == Err::<Seq<char>, Seq<char>>(
            "could not select "@ + event + " in /proc/nanochrono: "@ + error@
                + " (module loaded? writable? try sudo)"@,
        ),
        counting_outcome(CountingChange::Enable, event, Some(error)) == Err::<Seq<char>, Seq<char>>(
            "could not enable /proc/nanochrono: "@ + error@ + " (try sudo)"@,
        ),
        counting_outcome(CountingChange::Disable, event, Some(error)) == Err::<
            Seq<char>,
            Seq<char>,
        >("could not disable /proc/nanochrono: "@ + error@ + " (try sudo)"@),
{
}

// ---------------------------------------------------------------------------
// Benchmark logs
// ---------------------------------------------------------------------------
/// A pass, a summary and a handshake of a benchmark, each figure behind its
/// own name.
pub proof fn a_benchmark_is_printed_by_name(
    out: Seq<char>,
    bytes: usize,
    p: PassCounts,
    rates: PassRates,
    unit: Seq<char>,
    total: u64,
    all: SummaryRates,
    pass: u32,
    text: String,
)
    ensures
        pass_text(out, bytes, p, rates) == (if bytes > 0 {
            out + "pass "@ + decimal(p.pass as int) + ": repeats="@ + decimal(p.repeats as int)
                + "  loops="@ + decimal(p.loops as int) + "  cycles="@ + decimal(p.cycles as int)
                + "  time="@ + rates.seconds@ + " s  rate="@ + rates.mops@ + " Mops/s  cyc/op="@
                + rates.cycles_per_op@ + "  ns/op="@ + rates.ns_per_op@ + "  MiB/s="@
                + rates.mib_per_second@
        } else {
            out + "pass "@ + decimal(p.pass as int) + ": repeats="@ + decimal(p.repeats as int)
                + "  loops="@ + decimal(p.loops as int) + "  cycles="@ + decimal(p.cycles as int)
                + "  time="@ + rates.seconds@ + " s  rate="@ + rates.mops@ + " Mops/s  cyc/op="@
                + rates.cycles_per_op@ + "  ns/op="@ + rates.ns_per_op@
        }) + "  sink="@ + crate::text::raised(crate::text::hex(p.sink as int, 16)) + "\n"@,
        all.spread is None ==> summary_text(out, unit, total, all) == out
            + "\nsummary:\n  unit: "@ + unit + "\n  rate: mean "@ + all.mean_mops@
            + " Mops/s   best "@ + all.best_mops@ + "   worst "@ + all.worst_mops@
            + "\n  ns/op: best "@ + all.best_ns_per_op@ + "   worst "@ + all.worst_ns_per_op@
            + "\n  aggregate cycles: "@ + decimal(total as int) + "\n  aggregate time: "@
            + all.total_seconds@ + " s\n"@,
        handshake_text(out, pass, (Handshake::Done { summary: text })) == out + "pass "@ + decimal(
            pass as int,
        ) + ": "@ + text@ + "\n"@,
        handshake_text(out, pass, (Handshake::Failed { error: text })) == out + "pass "@ + decimal(
            pass as int,
        ) + ": "@ + "handshake failed: "@ + text@ + "\n"@,
{
}

// ---------------------------------------------------------------------------
// Firmware tables
// ---------------------------------------------------------------------------
/// A device counts as identified by either of its two identifiers, and tables
/// add up, bytes with bytes and devices with devices.
pub proof fn devices_and_tables_are_counted(
    devices: Seq<DeviceIds>,
    d: DeviceIds,
    ssdts: Seq<Ssdt>,
    t: Ssdt,
)
    ensures
        identified(Seq::empty()) == 0,
        d.hid || d.cid ==> identified(devices.push(d)) == identified(devices) + 1,
        !d.hid && !d.cid ==> identified(devices.push(d)) == identified(devices),
        totals(Seq::empty()) == (0int, 0int),
        totals(ssdts.push(t)).0 == totals(ssdts).0 + t.bytes,
        totals(ssdts.push(t)).1 == totals(ssdts).1 + t.devices,
{
    assert(devices.push(d).drop_last() =~= devices);
    assert(ssdts.push(t).drop_last() =~= ssdts);
}

/// At most 32 tables are listed, with blanks between their signatures.
pub proof fn thirty_two_tables_are_listed(tables: Seq<[u8; 4]>, table: [u8; 4])
    ensures
        tables.len() <= 32 ==> inventory(tables) == signatures(tables),
        tables.len() > 32 ==> inventory(tables) == signatures(tables.take(32)),
        signatures(Seq::empty()).len() == 0,
        tables.len() > 0 ==> signatures(tables.push(table)) == signatures(tables) + " "@ + shown(
            table@,
            "????"@,
        ),
{
    assert(tables.push(table).drop_last() =~= tables);
    if tables.len() <= 32 {
        assert(tables.take(tables.len() as int) =~= tables);
    }
}

/// A controller's address is the main table's, or else that of the first of
/// the others that declares one, counted from one.
pub proof fn an_address_is_the_first_declared(ssdts: Seq<Option<u64>>, i: int, address: u64)
    requires
        0 <= i < ssdts.len(),
        ssdts[i] == Some(address),
        forall|j: int| 0 <= j < i ==> (#[trigger] ssdts[j]) is None,
    ensures
        declared_in(ssdts, 0) == Some((i + 1, address)),
{
    lemma_declared(ssdts, 0, i, address);
}

proof fn lemma_declared(ssdts: Seq<Option<u64>>, from: int, i: int, address: u64)
    requires
        0 <= from <= i < ssdts.len(),
        ssdts[i] == Some(address),
        forall|j: int| 0 <= j < i ==> (#[trigger] ssdts[j]) is None,
    ensures
        declared_in(ssdts, from) == Some((i + 1, address)),
    decreases i - from,
{
    if from < i {
        assert(ssdts[from] is None);
        lemma_declared(ssdts, from + 1, i, address);
    }
}

/// An address is a device in its upper half and a function in its lower one,
/// shown as two digits and one.
pub proof fn an_address_is_device_and_function(
    out: Seq<char>,
    device: int,
    function: int,
    source: Seq<char>,
    address: u64,
)
    requires
        0 <= device < 32,
        0 <= function < 8,
        address == device * 0x1_0000 + function,
    ensures
        with_address(out, address, source) == out + "    _ADR         : "@ + crate::text::hex_0x(
            address as int,
        ) + " -> "@ + crate::text::two_digits(device) + "."@ + decimal(function) + " ("@ + source
            + ")\n"@,
{
    assert(address / 0x1_0000 == device);
    assert(address % 8 == function);
}

/// Where a controller's address came from is said with it.
pub proof fn an_address_is_told_with_its_source(out: Seq<char>, c: BusController)
    ensures
        ({
            let named = out + "    controller   : "@ + shown(c.path@, "?"@) + "\n"@;
            match c.dsdt {
                Some(address) => with_controller(out, c) == with_address(named, address, "dsdt"@),
                None => match declared_in(c.ssdts@, 0) {
                    Some((which, address)) => with_controller(out, c) == with_address(
                        named + "    found in     : ssdt #"@ + decimal(which) + "\n"@,
                        address,
                        "ssdt"@,
                    ),
                    None => with_controller(out, c) == named
                        + "    _ADR         : no table declares this controller with one\n"@,
                },
            }
        }),
{
}

/// How a pin's readiness was found.
pub proof fn a_pins_readiness_is_told(out: Seq<char>, pin: GpioPin, w: GpioWindows)
    requires
        pin.windows == Some(w),
    ensures
        ({
            let head = out + "    gpio pin     : "@ + decimal(pin.pin as int) + "\n"@
                + "    gpio ctrl    : "@ + shown(pin.controller@, "?"@) + "\n"@
                + "    gpio windows : "@ + decimal(w.communities as int) + " communit"@ + (
            if w.communities == 1 {
                "y"@
            } else {
                "ies"@
            }) + ", part "@ + (match w.platform {
                Some(name) => name@,
                None => "unrecognised"@,
            }) + "\n"@;
            match w.readiness {
                Readiness::Table => with_pin(out, pin) == head
                    + "    readiness    : gated by pin "@ + decimal(pin.pin as int)
                    + " (table)\n"@,
                Readiness::Disagrees => with_pin(out, pin) == head
                    + "    readiness    : table maps the pin, hardware disagrees; will calibrate\n"@,
                Readiness::Calibrating { watching } => with_pin(out, pin) == head
                    + "    readiness    : no table; calibrating against "@ + decimal(
                    watching as int,
                ) + " candidate pads\n"@,
            }
        }),
{
}

/// The namespace's head: where the root table came from, and what became of
/// the main table.
pub proof fn the_root_table_is_told_with_its_source(out: Seq<char>, facts: AcpiFacts)
    ensures
        ({
            let head = out + "== ACPI namespace ==\n  root table     : "@ + facts.source@ + (
            if facts.xsdt {
                " (xsdt)\n"@
            } else {
                " (rsdt)\n"@
            }) + (if facts.legacy_scan {
                "  legacy scan    : finds an RSDP (BIOS boot)\n"@
            } else {
                "  legacy scan    : finds nothing (UEFI boot: only the loader knows)\n"@
            });
            match facts.dsdt {
                Dsdt::Missing => acpi_text(out, facts) == head
                    + "  no DSDT, or one whose checksum did not verify\n"@ + "\n"@,
                Dsdt::Misfit { bytes } => acpi_text(out, facts) == head + "  dsdt           : "@
                    + decimal(bytes as int)
                    + " bytes\n  the table's length field does not fit the table\n"@ + "\n"@,
                Dsdt::Walked { bytes, facts: inner } => acpi_text(out, facts)
                    == crate::acpi_report::with_namespace(
                    head + "  dsdt           : "@ + decimal(bytes as int) + " bytes\n"@,
                    inner,
                ) + "\n"@,
            }
        }),
{
}

} // verus!
