//! The texts and decisions of the commands that run against the outside: the
//! stopwatch, the network clocks, the handshake, the audits and the module.
//!
//! Figures with a fraction are worked out and rounded by the caller and come
//! in as texts.
use crate::backend::Backend;
use crate::cli::{refresh_ms, DetailMode};
use crate::clock::ClockRoute;
use crate::hypervisor::HypervisorReport;
use crate::machine::Machine;
use crate::selftest::yes_no;
use crate::text::{push_decimal, push_padded_left, push_padded_right, push_signed, push_text};
use vstd::prelude::*;

verus! {

fn push_field(out: &mut String, label: &str, value: &str)
    ensures
        final(out)@ == old(out)@ + label@ + value@,
{
    push_text(out, label);
    push_text(out, value);
}

fn push_number(out: &mut String, label: &str, n: u64)
    ensures
        final(out)@ == old(out)@ + label@ + crate::text::decimal(n as int),
{
    push_text(out, label);
    push_decimal(out, n);
}

// ---------------------------------------------------------------------------
// The stopwatch
// ---------------------------------------------------------------------------

/// What a scrub of the calibration found.
#[derive(Debug, Clone, Copy, PartialEq, Eq, Structural)]
pub struct Scrub {
    pub repaired: bool,
    pub usable: bool,
}

/// What the stopwatch does after a scrub.
#[derive(Debug, Clone, Copy, PartialEq, Eq, Structural)]
pub enum ScrubAnswer {
    GoOn,
    /// Say that the calibration was repaired, and go on.
    Note,
    /// Stop: nothing shown could be trusted.
    Stop,
}

/// A repaired calibration is worth a word, an unusable one ends the run.
pub fn after_scrub(scrub: Scrub) -> (answer: ScrubAnswer)
    ensures
        answer == (if scrub.repaired {
            ScrubAnswer::Note
        } else if scrub.usable {
            ScrubAnswer::GoOn
        } else {
            ScrubAnswer::Stop
        }),
{
    if scrub.repaired {
        ScrubAnswer::Note
    } else if !scrub.usable {
        ScrubAnswer::Stop
    } else {
        ScrubAnswer::GoOn
    }
}

/// What is said where the calibration is lost.
pub const CALIBRATION_LOST: &'static str =
    "calibration is unrecoverable; recalibrate before trusting output";

/// The head of the stopwatch. A virtualized platform is named, with what that
/// means for the numbers.
pub open spec fn stopwatch_head(
    out: Seq<char>,
    backend: Backend,
    counter_mhz: Seq<char>,
    route: ClockRoute,
    platform: HypervisorReport,
) -> Seq<char> {
    let head = out + "NanoChronometer stopwatch\nbackend="@ + backend.label() + "  counter="@
        + counter_mhz + " MHz  route="@ + route.label() + "\n"@;
    let named = if platform@.confidence is Absent {
        head
    } else {
        head + "platform="@ + crate::hypervisor::summary_text(platform@) + "  "@
            + platform.timing_impact.advised() + "\n"@
    };
    named + "Press Ctrl+C to stop.\n\n"@
}

/// Writes the head of the stopwatch.
pub fn write_stopwatch_head(
    out: &mut String,
    backend: Backend,
    counter_mhz: &str,
    route: ClockRoute,
    platform: &HypervisorReport,
)
    ensures
        final(out)@ == stopwatch_head(old(out)@, backend, counter_mhz@, route, *platform),
{
    push_field(out, "NanoChronometer stopwatch\nbackend=", backend.name());
    push_field(out, "  counter=", counter_mhz);
    push_field(out, " MHz  route=", route.name());
    push_text(out, "\n");
    if platform.is_virtualized() {
        let summary: String = platform.summary();
        push_field(out, "platform=", summary.as_str());
        push_field(out, "  ", platform.timing_impact.advice());
        push_text(out, "\n");
    }
    push_text(out, "Press Ctrl+C to stop.\n\n");
}

/// One diagnostic sample.
#[derive(Debug)]
pub struct OnceFacts {
    pub backend: Backend,
    pub counter_hz: u64,
    pub elapsed: String,
    pub read_overhead_units: u64,
    pub ffi_overhead_units: u64,
    pub drift_ppm: String,
    pub integrity: String,
}

/// What is printed of one diagnostic sample.
pub open spec fn once_text(
    out: Seq<char>,
    facts: OnceFacts,
    platform: HypervisorReport,
) -> Seq<char> {
    let sample = out + "backend="@ + facts.backend.label() + "\nplatform="@
        + crate::hypervisor::summary_text(platform@) + "\ncounter_hz="@ + crate::text::decimal(
        facts.counter_hz as int,
    ) + "\nelapsed="@ + facts.elapsed@ + "\ncounter_read_overhead="@ + crate::text::decimal(
        facts.read_overhead_units as int,
    ) + " units\nffi_overhead="@ + crate::text::decimal(facts.ffi_overhead_units as int)
        + " units\ndrift="@ + facts.drift_ppm@ + " ppm\ncalibration_integrity="@
        + facts.integrity@ + "\n"@;
    if platform@.confidence is Absent {
        sample
    } else {
        sample + "\nnote: "@ + platform.timing_impact.advised() + "\n"@
    }
}

/// Writes one diagnostic sample.
pub fn write_once(out: &mut String, facts: &OnceFacts, platform: &HypervisorReport)
    ensures
        final(out)@ == once_text(old(out)@, *facts, *platform),
{
    push_field(out, "backend=", facts.backend.name());
    let summary: String = platform.summary();
    push_field(out, "\nplatform=", summary.as_str());
    push_number(out, "\ncounter_hz=", facts.counter_hz);
    push_field(out, "\nelapsed=", facts.elapsed.as_str());
    push_number(out, "\ncounter_read_overhead=", facts.read_overhead_units);
    push_number(out, " units\nffi_overhead=", facts.ffi_overhead_units);
    push_field(out, " units\ndrift=", facts.drift_ppm.as_str());
    push_field(out, " ppm\ncalibration_integrity=", facts.integrity.as_str());
    push_text(out, "\n");
    if platform.is_virtualized() {
        push_field(out, "\nnote: ", platform.timing_impact.advice());
        push_text(out, "\n");
    }
}

// ---------------------------------------------------------------------------
// Live views
// ---------------------------------------------------------------------------

/// What a view does after one sample.
#[derive(Debug, Clone, Copy, PartialEq, Eq, Structural)]
pub enum ViewStep {
    /// Draw a line, wait so long, and sample again.
    Again { wait_ms: u64 },
    End,
}

/// A live view goes on until it is stopped, any other shows one sample.
pub fn after_sample(live: bool, stopped: bool, wait_ms: u64) -> (step: ViewStep)
    ensures
        step == (if live && !stopped {
            ViewStep::Again { wait_ms }
        } else {
            ViewStep::End
        }),
{
    if live && !stopped {
        ViewStep::Again { wait_ms }
    } else {
        ViewStep::End
    }
}

/// After one sample of the precision clock.
pub fn after_clock_sample(live: bool, stopped: bool, detail: DetailMode) -> (step: ViewStep)
    ensures
        step == (if live && !stopped {
            ViewStep::Again {
                wait_ms: if detail is Nano {
                    100
                } else {
                    250
                },
            }
        } else {
            ViewStep::End
        }),
{
    after_sample(live, stopped, refresh_ms(detail))
}

/// After one sample of the nanosecond clock.
pub fn after_ns_clock_sample(live: bool, stopped: bool) -> (step: ViewStep)
    ensures
        step == (if live && !stopped {
            ViewStep::Again { wait_ms: 250 }
        } else {
            ViewStep::End
        }),
{
    after_sample(live, stopped, 250)
}

// ---------------------------------------------------------------------------
// Network clocks
// ---------------------------------------------------------------------------

/// What a time server answered.
#[derive(Debug)]
pub struct NtpSample {
    pub server: String,
    pub stratum: u8,
    pub version: u8,
    pub leap_indicator: u8,
    pub precision_exp: i8,
    pub server_time: String,
    pub offset_ms: String,
    pub uncertainty_ms: String,
    pub delay_ms: String,
    pub socket_setup_units: u64,
    pub send_recv_units: u64,
    pub kernel_timecall_overhead_units: u64,
    pub api_call_overhead_units: u64,
    pub migrated: bool,
}

/// What came of asking a time server.
#[derive(Debug)]
pub enum NtpReply {
    Sample(NtpSample),
    Failed { error: String },
}

/// The line a clock sample has of its time server.
pub open spec fn ntp_line(out: Seq<char>, server: Seq<char>, reply: NtpReply) -> Seq<char> {
    match reply {
        NtpReply::Sample(s) => out + "ntp_server="@ + s.server@ + " stratum="@
            + crate::text::decimal(s.stratum as int) + " offset="@ + s.offset_ms@ + " ms (+/- "@
            + s.uncertainty_ms@ + " ms) delay="@ + s.delay_ms@ + " ms setup="@
            + crate::text::decimal(s.socket_setup_units as int) + " units send_recv="@
            + crate::text::decimal(s.send_recv_units as int) + " units migrated="@
            + crate::selftest::answer(s.migrated) + "\n"@,
        NtpReply::Failed { error } => out + "ntp_server="@ + server + " status="@ + error@ + "\n"@,
    }
}

/// Writes the line a clock sample has of its time server. A server that does
/// not answer is a status, not the end of the clock.
pub fn write_ntp_line(out: &mut String, server: &str, reply: &NtpReply)
    ensures
        final(out)@ == ntp_line(old(out)@, server@, *reply),
{
    match reply {
        NtpReply::Sample(s) => {
            push_field(out, "ntp_server=", s.server.as_str());
            push_number(out, " stratum=", s.stratum as u64);
            push_field(out, " offset=", s.offset_ms.as_str());
            push_field(out, " ms (+/- ", s.uncertainty_ms.as_str());
            push_field(out, " ms) delay=", s.delay_ms.as_str());
            push_number(out, " ms setup=", s.socket_setup_units);
            push_number(out, " units send_recv=", s.send_recv_units);
            push_field(out, " units migrated=", yes_no(s.migrated));
            push_text(out, "\n");
        },
        NtpReply::Failed { error } => {
            push_field(out, "ntp_server=", server);
            push_field(out, " status=", error.as_str());
            push_text(out, "\n");
        },
    }
}

/// What is printed of a time server's answer.
pub open spec fn ntp_text(out: Seq<char>, s: NtpSample) -> Seq<char> {
    out + "server="@ + s.server@ + "\nstratum="@ + crate::text::decimal(s.stratum as int)
        + " version="@ + crate::text::decimal(s.version as int) + " leap="@
        + crate::text::decimal(s.leap_indicator as int) + " precision_exp="@
        + crate::text::decimal(s.precision_exp as int) + "\nserver_time="@ + s.server_time@
        + "\noffset="@ + s.offset_ms@ + " ms (+/- "@ + s.uncertainty_ms@ + " ms)  delay="@
        + s.delay_ms@ + " ms\nsocket_setup="@ + crate::text::decimal(s.socket_setup_units as int)
        + " units  send_recv="@ + crate::text::decimal(s.send_recv_units as int)
        + " units  kernel_timecall="@ + crate::text::decimal(
        s.kernel_timecall_overhead_units as int,
    ) + " units  api_call="@ + crate::text::decimal(s.api_call_overhead_units as int)
        + " units\nmigrated="@ + crate::selftest::answer(s.migrated) + "\n"@
}

/// Writes a time server's answer.
pub fn write_ntp(out: &mut String, s: &NtpSample)
    ensures
        final(out)@ == ntp_text(old(out)@, *s),
{
    push_field(out, "server=", s.server.as_str());
    push_number(out, "\nstratum=", s.stratum as u64);
    push_number(out, " version=", s.version as u64);
    push_number(out, " leap=", s.leap_indicator as u64);
    push_text(out, " precision_exp=");
    push_signed(out, s.precision_exp as i64);
    push_field(out, "\nserver_time=", s.server_time.as_str());
    push_field(out, "\noffset=", s.offset_ms.as_str());
    push_field(out, " ms (+/- ", s.uncertainty_ms.as_str());
    push_field(out, " ms)  delay=", s.delay_ms.as_str());
    push_number(out, " ms\nsocket_setup=", s.socket_setup_units);
    push_number(out, " units  send_recv=", s.send_recv_units);
    push_number(out, " units  kernel_timecall=", s.kernel_timecall_overhead_units);
    push_number(out, " units  api_call=", s.api_call_overhead_units);
    push_field(out, " units\nmigrated=", yes_no(s.migrated));
    push_text(out, "\n");
}

// ---------------------------------------------------------------------------
// The handshake
// ---------------------------------------------------------------------------

/// A timed handshake.
#[derive(Debug)]
pub struct TlsSample {
    pub host: String,
    pub port: u16,
    pub protocol: String,
    pub cipher_suite: String,
    pub peer_certificates: u64,
    pub resumed: bool,
    pub resolve_ms: String,
    pub tcp_connect_ms: String,
    pub handshake_ms: String,
    pub total_ms: String,
    pub tls_percent: String,
}

/// Names, one to a line.
pub open spec fn with_names(out: Seq<char>, names: Seq<String>) -> Seq<char>
    decreases names.len(),
{
    if names.len() == 0 {
        out
    } else {
        with_names(out, names.drop_last()) + "  "@ + names.last()@ + "\n"@
    }
}

fn push_names(out: &mut String, names: &Vec<String>)
    ensures
        final(out)@ == with_names(old(out)@, names@),
{
    let ghost head = out@;
    let mut i: usize = 0;
    assert(names@.take(0) =~= Seq::empty());
    while i < names.len()
        invariant
            i <= names.len(),
            out@ == with_names(head, names@.take(i as int)),
        decreases names.len() - i,
    {
        assert(names@.take(i + 1).drop_last() =~= names@.take(i as int));
        push_field(out, "  ", names[i].as_str());
        push_text(out, "\n");
        i = i + 1;
    }
    assert(names@.take(i as int) =~= names@);
}

/// The provider, and what it offers where that is asked for.
pub open spec fn provider_text(
    out: Seq<char>,
    provider: Seq<char>,
    offers: Option<(Vec<String>, Vec<String>)>,
) -> Seq<char> {
    let head = out + "provider: "@ + provider + "\n"@;
    match offers {
        Some((suites, groups)) => with_names(
            with_names(head + "cipher suites:\n"@, suites@) + "key exchange groups:\n"@,
            groups@,
        ) + "\n"@,
        None => head,
    }
}

/// Writes the provider, and its cipher suites and key exchange groups where
/// they are asked for.
pub fn write_provider(
    out: &mut String,
    provider: &str,
    offers: &Option<(Vec<String>, Vec<String>)>,
)
    ensures
        final(out)@ == provider_text(old(out)@, provider@, *offers),
{
    push_field(out, "provider: ", provider);
    push_text(out, "\n");
    match offers {
        Some((suites, groups)) => {
            push_text(out, "cipher suites:\n");
            push_names(out, suites);
            push_text(out, "key exchange groups:\n");
            push_names(out, groups);
            push_text(out, "\n");
        },
        None => {},
    }
}

/// What is printed of a handshake.
pub open spec fn tls_text(out: Seq<char>, t: TlsSample) -> Seq<char> {
    out + "host="@ + t.host@ + ":"@ + crate::text::decimal(t.port as int) + "\nprotocol="@
        + t.protocol@ + " cipher_suite="@ + t.cipher_suite@ + "\npeer_certificates="@
        + crate::text::decimal(t.peer_certificates as int) + " resumed="@
        + crate::selftest::answer(t.resumed) + "\nresolve="@ + t.resolve_ms@ + " ms\ntcp_connect="@
        + t.tcp_connect_ms@ + " ms\ntls_handshake="@ + t.handshake_ms@ + " ms\ntotal="@
        + t.total_ms@ + " ms (TLS is "@ + t.tls_percent@ + "% of it)\n"@
}

/// Writes a handshake, phase by phase.
pub fn write_tls(out: &mut String, t: &TlsSample)
    ensures
        final(out)@ == tls_text(old(out)@, *t),
{
    push_field(out, "host=", t.host.as_str());
    push_number(out, ":", t.port as u64);
    push_field(out, "\nprotocol=", t.protocol.as_str());
    push_field(out, " cipher_suite=", t.cipher_suite.as_str());
    push_number(out, "\npeer_certificates=", t.peer_certificates);
    push_field(out, " resumed=", yes_no(t.resumed));
    push_field(out, "\nresolve=", t.resolve_ms.as_str());
    push_field(out, " ms\ntcp_connect=", t.tcp_connect_ms.as_str());
    push_field(out, " ms\ntls_handshake=", t.handshake_ms.as_str());
    push_field(out, " ms\ntotal=", t.total_ms.as_str());
    push_field(out, " ms (TLS is ", t.tls_percent.as_str());
    push_text(out, "% of it)\n");
}

// ---------------------------------------------------------------------------
// Probes and audits
// ---------------------------------------------------------------------------

/// Writes the head of the cache-probe table.
pub fn write_probe_head(out: &mut String)
    ensures
        final(out)@ == old(out)@ + crate::text::padded_right("PROBE"@, 18) + " "@
            + crate::text::padded_left("UNITS"@, 12) + "\n"@,
{
    push_padded_right(out, "PROBE", 18);
    push_text(out, " ");
    push_padded_left(out, "UNITS", 12);
    push_text(out, "\n");
}

/// How far apart a cached and a flushed line are.
#[derive(Debug)]
pub struct CacheSeparation {
    pub cached_units: u64,
    pub flushed_units: u64,
    pub prefetched_units: u64,
    pub threshold_units: u64,
    pub separation: String,
}

/// Writes how far apart a cached and a flushed line are.
pub fn write_cache_separation(out: &mut String, c: &CacheSeparation)
    ensures
        final(out)@ == old(out)@ + "\ncache separation: cached="@ + crate::text::decimal(
            c.cached_units as int,
        ) + " flushed="@ + crate::text::decimal(c.flushed_units as int) + " prefetched="@
            + crate::text::decimal(c.prefetched_units as int) + " threshold="@
            + crate::text::decimal(c.threshold_units as int) + " delta="@ + c.separation@ + "\n"@,
{
    push_number(out, "\ncache separation: cached=", c.cached_units);
    push_number(out, " flushed=", c.flushed_units);
    push_number(out, " prefetched=", c.prefetched_units);
    push_number(out, " threshold=", c.threshold_units);
    push_field(out, " delta=", c.separation.as_str());
    push_text(out, "\n");
}

/// Writes the head of the SIMD table.
pub fn write_simd_head(out: &mut String)
    ensures
        final(out)@ == old(out)@ + "SIMD probes (available families only, CPUID-gated):\n\n"@
            + crate::text::padded_right("FAMILY"@, 16) + " "@ + crate::text::padded_left(
            "WIDTH"@,
            6,
        ) + " "@ + crate::text::padded_left("VECTOR_LOAD"@, 14) + " "@
            + crate::text::padded_left("VECTOR_XOR"@, 14) + " "@ + crate::text::padded_left(
            "BARRIER"@,
            12,
        ) + "\n"@,
{
    push_text(out, "SIMD probes (available families only, CPUID-gated):\n\n");
    push_padded_right(out, "FAMILY", 16);
    push_text(out, " ");
    push_padded_left(out, "WIDTH", 6);
    push_text(out, " ");
    push_padded_left(out, "VECTOR_LOAD", 14);
    push_text(out, " ");
    push_padded_left(out, "VECTOR_XOR", 14);
    push_text(out, " ");
    push_padded_left(out, "BARRIER", 12);
    push_text(out, "\n");
}

/// Writes what the units of the SIMD table are.
pub fn write_simd_units(out: &mut String, machine: Machine, counter_mhz: &str)
    ensures
        final(out)@ == old(out)@ + "\nunits are "@ + (if machine is X86Wide {
            "TSC cycles"@
        } else {
            "counter ticks"@
        }) + " ("@ + counter_mhz@ + " MHz calibrated)\n"@,
{
    push_field(out, "\nunits are ", crate::cli_report::unit_name(machine));
    push_field(out, " (", counter_mhz);
    push_text(out, " MHz calibrated)\n");
}

/// What a walk over every byte leaves of an input: the bits in which some
/// byte differs from `0xA5`.
pub open spec fn accumulated(input: Seq<u8>) -> u8
    decreases input.len(),
{
    if input.len() == 0 {
        0
    } else {
        accumulated(input.drop_last()) | (input.last() ^ 0xA5)
    }
}

/// The audit's own candidate. It reads every byte and never leaves early, so
/// a difference found in it speaks of the machine, not of the code.
pub fn audit_candidate(input: &[u8], output: &mut Vec<u8>)
    ensures
        final(output)@ == Seq::new(old(output)@.len(), |i: int| accumulated(input@)),
{
    let mut acc: u8 = 0;
    let mut i: usize = 0;
    assert(input@.take(0) =~= Seq::empty());
    while i < input.len()
        invariant
            i <= input.len(),
            acc == accumulated(input@.take(i as int)),
        decreases input.len() - i,
    {
        assert(input@.take(i + 1).drop_last() =~= input@.take(i as int));
        assert(input@.take(i + 1).last() == input@[i as int]);
        acc = acc | (input[i] ^ 0xA5);
        i = i + 1;
    }
    assert(input@.take(i as int) =~= input@);
    let mut j: usize = 0;
    while j < output.len()
        invariant
            j <= output.len(),
            output@.len() == old(output)@.len(),
            forall|k: int| 0 <= k < j ==> output@[k] == acc,
        decreases output.len() - j,
    {
        output.set(j, acc);
        j = j + 1;
    }
    assert(output@ =~= Seq::new(old(output)@.len(), |i: int| accumulated(input@)));
}

/// The timings of one class of inputs.
#[derive(Debug)]
pub struct ClassTimings {
    pub count: u64,
    pub min: u64,
    pub median: u64,
    pub mean: String,
    pub p99: u64,
}

/// The line of one class.
pub open spec fn with_class(out: Seq<char>, label: Seq<char>, c: ClassTimings) -> Seq<char> {
    out + label + crate::text::decimal(c.min as int) + " median="@ + crate::text::decimal(
        c.median as int,
    ) + " mean="@ + c.mean@ + " p99="@ + crate::text::decimal(c.p99 as int) + "\n"@
}

fn push_class(out: &mut String, label: &str, c: &ClassTimings)
    ensures
        final(out)@ == with_class(old(out)@, label@, *c),
{
    push_number(out, label, c.min);
    push_number(out, " median=", c.median);
    push_field(out, " mean=", c.mean.as_str());
    push_number(out, " p99=", c.p99);
    push_text(out, "\n");
}

/// Writes what a constant-time audit found.
pub fn write_audit(
    out: &mut String,
    fixed: &ClassTimings,
    random: &ClassTimings,
    welch_t: &str,
    likely_leak: bool,
)
    ensures
        final(out)@ == with_class(
            with_class(
                old(out)@ + "samples="@ + crate::text::decimal(fixed.count as int)
                    + " per class\n"@,
                "fixed:  min="@,
                *fixed,
            ),
            "random: min="@,
            *random,
        ) + "welch_t="@ + welch_t@ + "\nfinding: "@ + (if likely_leak {
            "timing difference detected — investigate, or re-run pinned to a quiet core"@
        } else {
            "no timing difference indicated"@
        }) + "\n"@,
{
    push_number(out, "samples=", fixed.count);
    push_text(out, " per class\n");
    push_class(out, "fixed:  min=", fixed);
    push_class(out, "random: min=", random);
    push_field(out, "welch_t=", welch_t);
    push_field(out, "\nfinding: ", crate::cli_report::audit_verdict(likely_leak));
    push_text(out, "\n");
}

// ---------------------------------------------------------------------------
// The kernel module
// ---------------------------------------------------------------------------

/// What came of asking the module to probe again.
#[derive(Debug)]
pub enum ModuleReply {
    Done,
    /// Still cooling down; its report says for how long, where it can be
    /// read.
    WouldBlock { next_ms: Option<u64> },
    Failed { error: String },
}

/// What is said of the module's answer: an error where it did not probe.
pub open spec fn reprobe_outcome(reply: ModuleReply, path: Seq<char>, note: Seq<char>) -> Result<
    Seq<char>,
    Seq<char>,
> {
    match reply {
        ModuleReply::Done => Ok("module re-probed the hypervisor\n"@),
        ModuleReply::WouldBlock { next_ms } => Err(
            "the module refused: still cooling down"@ + (match next_ms {
                Some(ms) => " — "@ + crate::text::decimal(
                    crate::cli_report::seconds_up(ms as int),
                ) + " s left"@,
                None => Seq::empty(),
            }) + ". "@ + note,
        ),
        ModuleReply::Failed { error } => Err(
            "cannot ask the module to re-probe ("@ + path + "): "@ + error@,
        ),
    }
}

/// The view of a text or an error's text.
pub open spec fn outcome_view(r: Result<String, String>) -> Result<Seq<char>, Seq<char>> {
    match r {
        Ok(text) => Ok(text@),
        Err(text) => Err(text@),
    }
}

/// Says what came of asking the module to probe again.
pub fn after_reprobe(reply: &ModuleReply, path: &str, note: &str) -> (said: Result<String, String>)
    ensures
        outcome_view(said) == reprobe_outcome(*reply, path@, note@),
{
    match reply {
        ModuleReply::Done => {
            let mut text: String = String::new();
            push_text(&mut text, "module re-probed the hypervisor\n");
            assert(text@ =~= "module re-probed the hypervisor\n"@);
            Ok(text)
        },
        ModuleReply::WouldBlock { next_ms } => Err(
            crate::cli_report::still_cooling(*next_ms, note),
        ),
        ModuleReply::Failed { error } => {
            let mut text: String = String::new();
            push_text(&mut text, "cannot ask the module to re-probe (");
            push_text(&mut text, path);
            push_text(&mut text, "): ");
            push_text(&mut text, error.as_str());
            assert(text@ =~= "cannot ask the module to re-probe ("@ + path@ + "): "@ + error@);
            Err(text)
        },
    }
}

/// Whether setting the module's cooldown is warned of first: none at all
/// leaves a provider's reaction to repeated exits to the user.
pub fn cooldown_warns(seconds: u32) -> (warns: bool)
    ensures
        warns == (seconds == 0),
{
    seconds == 0
}

/// Says what the cooldown was set to, or that it could not be.
pub fn after_cooldown(seconds: u32, failed: &Option<String>, path: &str) -> (said: Result<
    String,
    String,
>)
    ensures
        outcome_view(said) == (match *failed {
            Some(error) => Err(
                "cannot set the module's cooldown ("@ + path@ + "): "@ + error@,
            ),
            None => Ok(
                "module re-probe cooldown = "@ + crate::text::decimal(seconds as int) + " s\n"@,
            ),
        }),
{
    let mut text: String = String::new();
    match failed {
        Some(error) => {
            push_text(&mut text, "cannot set the module's cooldown (");
            push_text(&mut text, path);
            push_text(&mut text, "): ");
            push_text(&mut text, error.as_str());
            assert(text@ =~= "cannot set the module's cooldown ("@ + path@ + "): "@ + error@);
            Err(text)
        },
        None => {
            push_text(&mut text, "module re-probe cooldown = ");
            push_decimal(&mut text, seconds as u64);
            push_text(&mut text, " s\n");
            assert(text@ =~= "module re-probe cooldown = "@ + crate::text::decimal(
                seconds as int,
            ) + " s\n"@);
            Ok(text)
        },
    }
}

/// A change asked of the module's counting.
#[derive(Debug, Clone, Copy, PartialEq, Eq, Structural)]
pub enum CountingChange {
    Select,
    Enable,
    Disable,
}

/// The changes asked for, in the order they are made.
pub fn counting_changes(event: bool, enable: bool, disable: bool) -> (changes: Vec<CountingChange>)
    ensures
        changes@ == (if event {
            seq![CountingChange::Select]
        } else {
            Seq::empty()
        }) + (if enable {
            seq![CountingChange::Enable]
        } else {
            Seq::empty()
        }) + (if disable {
            seq![CountingChange::Disable]
        } else {
            Seq::empty()
        }),
{
    let mut changes: Vec<CountingChange> = Vec::new();
    if event {
        changes.push(CountingChange::Select);
    }
    if enable {
        changes.push(CountingChange::Enable);
    }
    if disable {
        changes.push(CountingChange::Disable);
    }
    assert(changes@ =~= (if event {
        seq![CountingChange::Select]
    } else {
        Seq::empty()
    }) + (if enable {
        seq![CountingChange::Enable]
    } else {
        Seq::empty()
    }) + (if disable {
        seq![CountingChange::Disable]
    } else {
        Seq::empty()
    }));
    changes
}

/// What is said of a change to the module's counting.
pub open spec fn counting_outcome(
    change: CountingChange,
    event: Seq<char>,
    failed: Option<String>,
) -> Result<Seq<char>, Seq<char>> {
    match (change, failed) {
        (CountingChange::Select, None) => Ok("ring0 event selected: "@ + event + "\n"@),
        (CountingChange::Select, Some(error)) => Err(
            "could not select "@ + event + " in /proc/nanochrono: "@ + error@
                + " (module loaded? writable? try sudo)"@,
        ),
        (CountingChange::Enable, None) => Ok("ring0 enabled\n"@),
        (CountingChange::Enable, Some(error)) => Err(
            "could not enable /proc/nanochrono: "@ + error@ + " (try sudo)"@,
        ),
        (CountingChange::Disable, None) => Ok("ring0 disabled\n"@),
        (CountingChange::Disable, Some(error)) => Err(
            "could not disable /proc/nanochrono: "@ + error@ + " (try sudo)"@,
        ),
    }
}

/// Says what came of a change to the module's counting.
pub fn after_counting_change(change: CountingChange, event: &str, failed: &Option<String>) -> (said:
    Result<String, String>)
    ensures
        outcome_view(said) == counting_outcome(change, event@, *failed),
{
    let mut text: String = String::new();
    match failed {
        None => {
            match change {
                CountingChange::Select => {
                    push_text(&mut text, "ring0 event selected: ");
                    push_text(&mut text, event);
                    push_text(&mut text, "\n");
                    assert(text@ =~= "ring0 event selected: "@ + event@ + "\n"@);
                },
                CountingChange::Enable => {
                    push_text(&mut text, "ring0 enabled\n");
                    assert(text@ =~= "ring0 enabled\n"@);
                },
                CountingChange::Disable => {
                    push_text(&mut text, "ring0 disabled\n");
                    assert(text@ =~= "ring0 disabled\n"@);
                },
            }
            Ok(text)
        },
        Some(error) => {
            match change {
                CountingChange::Select => {
                    push_text(&mut text, "could not select ");
                    push_text(&mut text, event);
                    push_text(&mut text, " in /proc/nanochrono: ");
                    push_text(&mut text, error.as_str());
                    push_text(&mut text, " (module loaded? writable? try sudo)");
                    assert(text@ =~= "could not select "@ + event@ + " in /proc/nanochrono: "@
                        + error@ + " (module loaded? writable? try sudo)"@);
                },
                CountingChange::Enable => {
                    push_text(&mut text, "could not enable /proc/nanochrono: ");
                    push_text(&mut text, error.as_str());
                    push_text(&mut text, " (try sudo)");
                    assert(text@ =~= "could not enable /proc/nanochrono: "@ + error@
                        + " (try sudo)"@);
                },
                CountingChange::Disable => {
                    push_text(&mut text, "could not disable /proc/nanochrono: ");
                    push_text(&mut text, error.as_str());
                    push_text(&mut text, " (try sudo)");
                    assert(text@ =~= "could not disable /proc/nanochrono: "@ + error@
                        + " (try sudo)"@);
                },
            }
            Err(text)
        },
    }
}

/// The event a name asks the module to count: none but these two.
pub open spec fn event_named(name: Seq<char>) -> Option<Seq<char>> {
    if name == "cycles"@ {
        Some("cycles"@)
    } else if name == "instr"@ {
        Some("instr"@)
    } else {
        None
    }
}

/// Checks the name of an event.
pub fn check_event(name: &str) -> (checked: Result<&'static str, String>)
    ensures
        match checked {
            Ok(event) => event_named(name@) == Some(event@),
            Err(text) => event_named(name@) is None && text@ == "unknown event '"@ + name@
                + "': use cycles or instr"@,
        },
{
    if crate::text::same_text(name, "cycles") {
        Ok("cycles")
    } else if crate::text::same_text(name, "instr") {
        Ok("instr")
    } else {
        let mut text: String = String::new();
        push_text(&mut text, "unknown event '");
        push_text(&mut text, name);
        push_text(&mut text, "': use cycles or instr");
        assert(text@ =~= "unknown event '"@ + name@ + "': use cycles or instr"@);
        Err(text)
    }
}

} // verus!
