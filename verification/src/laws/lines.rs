//! Lines that are written, piece by piece.
use crate::backend::Backend;
use crate::bench::KernelAlgorithm;
use crate::cli_session::{CacheSeparation, ClassTimings};
use crate::harness::{BenchConfig, BenchProfile, Handshake, Negotiated};
use crate::machine::Machine;
use crate::text::{decimal, padded_left, padded_right};
use vstd::prelude::*;

verus! {

/// A probe's line is its name in eighteen columns and its figure in twelve,
/// or a word where there is none.
pub proof fn a_probe_is_a_name_and_a_figure(out: &mut String, name: &str, units: Option<u64>)
    requires
        call_ensures(crate::cli_report::write_probe, (out, name, units), ()),
    ensures
        units matches Some(n) ==> final(out)@ == old(out)@ + (padded_right(name@, 18) + " "@
            + padded_left(decimal(n as int), 12) + "\n"@),
        units is None ==> final(out)@ == old(out)@ + (padded_right(name@, 18) + " "@ + padded_left(
            "unsupported"@,
            12,
        ) + "\n"@),
{
}

/// A vector family's line gives its width, and then what a load, an exclusive
/// or and a barrier cost, in that order; a cost that was not taken is zero.
pub proof fn a_family_is_a_width_and_three_costs(
    out: &mut String,
    name: &str,
    width: u64,
    load: u64,
    xor: u64,
    barrier: u64,
)
    requires
        call_ensures(
            crate::cli_report::write_simd_row,
            (out, name, width, Some(load), Some(xor), Some(barrier)),
            (),
        ),
    ensures
        final(out)@ == old(out)@ + (padded_right(name@, 16) + " "@ + padded_left(
            decimal(width as int),
            4,
        ) + " B "@ + padded_left(decimal(load as int), 14) + " "@ + padded_left(
            decimal(xor as int),
            14,
        ) + " "@ + padded_left(decimal(barrier as int), 12) + "\n"@),
{
}

/// The distance of a cached and a flushed line is written with the four
/// figures it was found from.
pub proof fn cache_separation_is_four_figures(out: &mut String, c: CacheSeparation)
    requires
        call_ensures(crate::cli_session::write_cache_separation, (out, &c), ()),
    ensures
        final(out)@ == old(out)@ + ("\ncache separation: cached="@ + decimal(c.cached_units as int)
            + " flushed="@ + decimal(c.flushed_units as int) + " prefetched="@ + decimal(
            c.prefetched_units as int,
        ) + " threshold="@ + decimal(c.threshold_units as int) + " delta="@ + c.separation@
            + "\n"@),
{
}

/// Units are cycles of the time-stamp counter on a 64-bit x86 and ticks of a
/// counter elsewhere.
pub proof fn units_are_named_for_the_machine(out: &mut String, machine: Machine, mhz: &str)
    requires
        call_ensures(crate::cli_session::write_simd_units, (out, machine, mhz), ()),
    ensures
        machine is X86Wide ==> final(out)@ == old(out)@ + ("\nunits are "@ + "TSC cycles"@ + " ("@
            + mhz@ + " MHz calibrated)\n"@),
        !(machine is X86Wide) ==> final(out)@ == old(out)@ + ("\nunits are "@ + "counter ticks"@
            + " ("@ + mhz@ + " MHz calibrated)\n"@),
{
}

/// An audit gives both classes, the fixed inputs first, and what follows from
/// them.
pub proof fn an_audit_gives_both_classes(
    out: &mut String,
    fixed: ClassTimings,
    random: ClassTimings,
    welch_t: &str,
    leak: bool,
)
    requires
        call_ensures(crate::cli_session::write_audit, (out, &fixed, &random, welch_t, leak), ()),
    ensures
        ({
            let head = old(out)@ + "samples="@ + decimal(fixed.count as int) + " per class\n"@;
            let first = head + "fixed:  min="@ + decimal(fixed.min as int) + " median="@ + decimal(
                fixed.median as int,
            ) + " mean="@ + fixed.mean@ + " p99="@ + decimal(fixed.p99 as int) + "\n"@;
            let second = first + "random: min="@ + decimal(random.min as int) + " median="@
                + decimal(random.median as int) + " mean="@ + random.mean@ + " p99="@ + decimal(
                random.p99 as int,
            ) + "\n"@;
            let stem = second + "welch_t="@ + welch_t@ + "\nfinding: "@;
            &&& leak ==> final(out)@ == stem
                + "timing difference detected — investigate, or re-run pinned to a quiet core"@
                + "\n"@
            &&& !leak ==> final(out)@ == stem + "no timing difference indicated"@ + "\n"@
        }),
{
}

/// Every byte that an audited function writes is the same digest of its
/// input.
pub proof fn an_audited_output_is_filled_with_the_digest(
    input: &[u8],
    output: &mut Vec<u8>,
    i: int,
)
    requires
        call_ensures(crate::cli_session::audit_candidate, (input, output), ()),
        0 <= i < old(output)@.len(),
    ensures
        final(output)@.len() == old(output)@.len(),
        final(output)@[i] == crate::cli_session::accumulated(input@),
{
}

/// A run names what it warms up with, its unit, and the server where it
/// speaks to one.
pub proof fn a_warm_up_says_what_runs(
    log: &mut String,
    profile: BenchProfile,
    config: BenchConfig,
)
    requires
        call_ensures(crate::harness::write_warmup, (log, &profile, &config), ()),
    ensures
        !(config.kernel is Tls) ==> final(log)@ == old(log)@ + ("warmup: "@ + profile.description@
            + "\nunit: "@ + profile.unit@ + "\n\n"@),
        config.kernel is Tls ==> final(log)@ == old(log)@ + ("warmup: "@ + profile.description@
            + "\nunit: "@ + profile.unit@ + "\ntarget: "@ + config.tls_host@ + ":"@ + decimal(
            config.tls_port as int,
        ) + "\n\n"@),
{
}

/// A failed handshake ends the run unless one before it went through.
pub proof fn a_failed_handshake_ends_the_run_at_first(
    log: &mut String,
    pass: u32,
    handshake: Handshake,
    done_before: usize,
    goes_on: bool,
)
    requires
        call_ensures(
            crate::harness::write_handshake,
            (log, pass, &handshake, done_before),
            goes_on,
        ),
    ensures
        handshake is Done ==> goes_on,
        handshake is Failed ==> (goes_on <==> done_before != 0),
        handshake matches Handshake::Done { summary } ==> final(log)@ == old(log)@ + ("pass "@
            + decimal(pass as int) + ": "@ + summary@ + "\n"@),
        handshake matches Handshake::Failed { error } ==> final(log)@ == old(log)@ + ("pass "@
            + decimal(pass as int) + ": handshake failed: "@ + error@ + "\n"@),
{
    reveal_strlit(": ");
    reveal_strlit("handshake failed: ");
    reveal_strlit(": handshake failed: ");
    assert(": handshake failed: "@ =~= ": "@ + "handshake failed: "@);
}

/// What a handshake negotiated is written with the protocol first.
pub proof fn a_negotiation_gives_its_protocol_and_cipher(log: &mut String, n: Negotiated)
    requires
        call_ensures(crate::harness::write_negotiated, (log, &n), ()),
    ensures
        final(log)@ == old(log)@ + ("  negotiated: "@ + n.protocol@ + " / "@ + n.cipher_suite@
            + "   certificates: "@ + decimal(n.peer_certificates as int)
            + "   tls share of total: "@ + n.share@ + "%\n"@),
{
}

/// The refusals name what was refused.
pub proof fn refusals_name_what_was_refused(
    name: &str,
    error: &str,
    algorithm: KernelAlgorithm,
    b: Backend,
    cpu: u32,
    key: String,
    session: String,
    unknown: String,
    unsupported: String,
    pin: String,
)
    requires
        call_ensures(crate::harness::key_failed, (name, error), key),
        call_ensures(crate::harness::session_failed, (algorithm, error), session),
        call_ensures(crate::cli::unknown_backend, (name,), unknown),
        call_ensures(crate::cli::unsupported_backend, (b,), unsupported),
        call_ensures(crate::cli::pin_warning, (cpu,), pin),
    ensures
        key@ == "could not build "@ + (name@ + " key: "@ + error@),
        session@ == "could not open "@ + (algorithm.kernel_name() + " through AF_ALG: "@ + error@),
        unknown@ == "error: unknown backend '"@ + (name@ + "'\n        known backends: "@
            + crate::cli::backend_names(Backend::every()) + "\n"@),
        unsupported@ == "warning: backend '"@ + (b.label()
            + "' is not supported on this CPU; using the detected best\n"@),
        pin@ == "warning: could not pin to CPU "@ + (decimal(cpu as int)
            + "; results will be noisier\n"@),
{
}

/// What is written to the kernel module: a word to detect again, and the
/// cool-down in seconds.
pub proof fn the_module_is_told_in_words(
    seconds: u32,
    again: &'static str,
    set: String,
    path: &str,
    error: String,
    said: Result<String, String>,
    failed: Result<String, String>,
)
    requires
        call_ensures(crate::hypervisor::kernel_module_reprobe, (), again),
        call_ensures(crate::hypervisor::kernel_module_set_cooldown, (seconds,), set),
        call_ensures(crate::cli_session::after_cooldown, (seconds, &None, path), said),
        call_ensures(crate::cli_session::after_cooldown, (seconds, &Some(error), path), failed),
    ensures
        again@ == "reprobe"@,
        set@ == "cooldown="@ + decimal(seconds as int),
        said matches Ok(text) && text@ == "module re-probe cooldown = "@ + (decimal(seconds as int)
            + " s\n"@),
        failed matches Err(text) && text@ == "cannot set the module's cooldown ("@ + (path@
            + "): "@ + error@),
{
}

} // verus!
