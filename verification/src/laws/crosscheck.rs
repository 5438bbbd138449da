//! What two clocks held against each other are said to do.
use crate::crosscheck::{CrossCheck, Unwrap, Verdict};
use vstd::arithmetic::div_mod::*;
use vstd::arithmetic::power2::*;
use vstd::prelude::*;

verus! {

/// How often a counter of 64 bits ticked between two readings.
pub open spec fn ticked(from: u64, to: u64) -> int {
    if to >= from {
        to - from
    } else {
        to - from + 0x1_0000_0000_0000_0000
    }
}

/// Whether `ns` is the number of whole nanoseconds that a counter took
/// between two readings. A rate of zero counts as one.
pub open spec fn lasted(ns: int, from: u64, to: u64, hz: u64) -> bool {
    let rate: int = if hz == 0 {
        1
    } else {
        hz as int
    };
    ns * rate <= ticked(from, to) * 1_000_000_000 < (ns + 1) * rate
}

/// The distance of two numbers.
pub open spec fn apart(a: int, b: int) -> int {
    if a >= b {
        a - b
    } else {
        b - a
    }
}

proof fn lemma_quotient(a: int, b: int, q: int)
    requires
        b > 0,
        q * b <= a < (q + 1) * b,
    ensures
        a / b == q,
{
    let r = a - q * b;
    assert((q + 1) * b == q * b + b) by (nonlinear_arith);
    lemma_fundamental_div_mod_converse(a, b, q, r);
}

proof fn lemma_bounds(a: int, b: int)
    requires
        b > 0,
    ensures
        (a / b) * b <= a < (a / b + 1) * b,
{
    lemma_fundamental_div_mod(a, b);
    lemma_mod_bound(a, b);
    let q = a / b;
    assert(q * b == b * q) by (nonlinear_arith);
    assert((q + 1) * b == b * q + b) by (nonlinear_arith);
}

proof fn lemma_lasted(ns: int, from: u64, to: u64, hz: u64)
    requires
        lasted(ns, from, to, hz),
    ensures
        crate::crosscheck::nanoseconds(crate::crosscheck::ticks_between(from, to), hz) == ns,
        ns >= 0,
{
    let rate: int = if hz == 0 {
        1
    } else {
        hz as int
    };
    let t = ticked(from, to);
    assert(crate::crosscheck::ticks_between(from, to) == t);
    lemma_quotient(t * 1_000_000_000, rate, ns);
    assert(ns >= 0) by (nonlinear_arith)
        requires
            (ns + 1) * rate > 0,
            rate > 0,
    ;
}

/// Once the baseline suffices and nothing stepped, a rate that is off by more
/// than the tolerance is an alarm whether the primary is fast or slow, and a
/// rate within it is none. The figure given is how many parts per million the
/// primary is ahead, in whole parts, and it is behind where that is negative.
///
/// `bp` and `br` are the nanoseconds the two clocks took over the baseline,
/// and the rates differ by no more than a 64-bit figure holds.
pub proof fn drift_is_told_in_either_direction(
    check: CrossCheck,
    origin: (u64, u64),
    now: (u64, u64),
    bp: int,
    br: int,
)
    requires
        check.origin == Some(origin),
        lasted(bp, origin.0, now.0, check.primary_hz),
        lasted(br, origin.1, now.1, check.reference_hz),
        apart(bp, br) * 1_000_000 < 0x7FFF_FFFF_FFFF_FFFF * br,
        !(check.after(now).verdict is Step),
        !(check.after(now).verdict is Warming),
    ensures
        check.after(now).verdict is Drift <==> apart(bp, br) * 1_000_000 >= (check.tolerance_ppm
            + 1) * br,
        check.after(now).verdict is Agree <==> apart(bp, br) * 1_000_000 < (check.tolerance_ppm
            + 1) * br,
        check.after(now).verdict matches Verdict::Drift { ppm } ==> if bp >= br {
            ppm >= 0 && ppm * br <= (bp - br) * 1_000_000 < (ppm + 1) * br
        } else {
            ppm <= 0 && (-ppm) * br <= (br - bp) * 1_000_000 < (1 - ppm) * br
        },
        check.after(now).verdict matches Verdict::Agree { ppm } ==> if bp >= br {
            ppm >= 0 && ppm * br <= (bp - br) * 1_000_000 < (ppm + 1) * br
        } else {
            ppm <= 0 && (-ppm) * br <= (br - bp) * 1_000_000 < (1 - ppm) * br
        },
{
    lemma_lasted(bp, origin.0, now.0, check.primary_hz);
    lemma_lasted(br, origin.1, now.1, check.reference_hz);
    assert(check.primary_ns(origin, now) == bp);
    assert(check.reference_ns(origin, now) == br);
    assert(br > 0);
    let scaled = apart(bp, br) * 1_000_000;
    let q = scaled / br;
    lemma_bounds(scaled, br);
    let limit = check.tolerance_ppm as int;
    assert(0 <= q) by (nonlinear_arith)
        requires
            (q + 1) * br > scaled,
            scaled >= 0,
            br > 0,
    ;
    assert(q < 0x7FFF_FFFF_FFFF_FFFF) by (nonlinear_arith)
        requires
            q * br <= scaled,
            scaled < 0x7FFF_FFFF_FFFF_FFFF * br,
            br > 0,
    ;
    assert(q > limit <==> scaled >= (limit + 1) * br) by {
        if q > limit {
            assert((limit + 1) * br <= q * br) by (nonlinear_arith)
                requires
                    limit + 1 <= q,
                    br > 0,
            ;
        } else {
            assert((q + 1) * br <= (limit + 1) * br) by (nonlinear_arith)
                requires
                    q <= limit,
                    br > 0,
            ;
        }
    }
    let ppm = check.rate_ppm(now);
    if bp >= br {
        assert(ppm == q);
    } else {
        assert((bp - br) * 1_000_000 == -scaled);
        assert(ppm == -q);
        assert((1 - ppm) * br == (q + 1) * br);
        assert((-ppm) * br == q * br);
    }
}

/// The rate is judged as soon as the reference has run for twenty times the
/// sampling uncertainty over the tolerance, and never before: one part per
/// million is what the uncertainty is told apart by.
pub proof fn a_rate_needs_its_baseline(
    check: CrossCheck,
    origin: (u64, u64),
    now: (u64, u64),
    br: int,
)
    requires
        check.origin == Some(origin),
        check.tolerance_ppm > 0,
        20_000_000 * check.sample_uncertainty_ns <= u64::MAX,
        lasted(br, origin.1, now.1, check.reference_hz),
        !(check.after(now).verdict is Step),
    ensures
        check.after(now).verdict is Warming <==> br == 0 || (br + 1) * check.tolerance_ppm
            <= 20_000_000 * check.sample_uncertainty_ns,
{
    lemma_lasted(br, origin.1, now.1, check.reference_hz);
    assert(check.reference_ns(origin, now) == br);
    let need = 20_000_000 * check.sample_uncertainty_ns;
    let tolerance = check.tolerance_ppm as int;
    let least = need / tolerance;
    assert(check.least_baseline() == least);
    lemma_bounds(need, tolerance);
    if br < least {
        assert((br + 1) * tolerance <= least * tolerance) by (nonlinear_arith)
            requires
                br + 1 <= least,
                tolerance > 0,
        ;
    } else {
        assert((least + 1) * tolerance <= (br + 1) * tolerance) by (nonlinear_arith)
            requires
                least <= br,
                tolerance > 0,
        ;
    }
}

/// A sample is a step exactly where the primary moved, since the sample
/// before, by more or by less than the reference says it should have, and by
/// more than twice the sampling uncertainty and the tolerated wander of the
/// rate. What is told is how far it jumped, ahead where that is positive.
///
/// `dp` and `dr` are the nanoseconds since the last sample, `base_p` and
/// `base_r` those from the origin to it, and `due` what the primary was due
/// at the rate of the baseline.
pub proof fn a_step_is_told_in_either_direction(
    check: CrossCheck,
    origin: (u64, u64),
    last: (u64, u64),
    now: (u64, u64),
    dp: int,
    dr: int,
    base_p: int,
    base_r: int,
    due: int,
    wander: int,
)
    requires
        check.origin == Some(origin),
        check.last == Some(last),
        lasted(dp, last.0, now.0, check.primary_hz),
        lasted(dr, last.1, now.1, check.reference_hz),
        lasted(base_p, origin.0, last.0, check.primary_hz),
        lasted(base_r, origin.1, last.1, check.reference_hz),
        base_r > 0,
        due * base_r <= dr * base_p < (due + 1) * base_r,
        wander * 1_000_000 <= dr * check.tolerance_ppm < (wander + 1) * 1_000_000,
    ensures
        check.after(now).verdict is Step <==> apart(dp, due) > 2 * check.sample_uncertainty_ns
            + wander,
        check.after(now).verdict matches Verdict::Step { ns } ==> (i64::MIN <= dp - due <= i64::MAX
            ==> ns == dp - due) && (dp > due ==> ns > 0) && (dp < due ==> ns < 0),
        check.after(now).verdict is Step ==> check.after(now).origin == Some(now)
            && check.after(now).last == Some(now),
        !(check.after(now).verdict is Step) ==> check.after(now).origin == Some(origin)
            && check.after(now).last == Some(now) && check.after(now).steps == check.steps,
{
    lemma_lasted(dp, last.0, now.0, check.primary_hz);
    lemma_lasted(dr, last.1, now.1, check.reference_hz);
    lemma_lasted(base_p, origin.0, last.0, check.primary_hz);
    lemma_lasted(base_r, origin.1, last.1, check.reference_hz);
    assert(check.primary_ns(last, now) == dp);
    assert(check.reference_ns(last, now) == dr);
    assert(check.primary_ns(origin, last) == base_p);
    assert(check.reference_ns(origin, last) == base_r);
    lemma_quotient(dr * base_p, base_r, due);
    lemma_quotient(dr * check.tolerance_ppm, 1_000_000, wander);
}

/// The comparison begins at its first sample, with nothing said of it, and
/// every sample is the last one afterwards.
pub proof fn the_first_sample_begins_the_baseline(check: CrossCheck, now: (u64, u64))
    ensures
        check.after(now).last == Some(now),
        check.origin is None ==> check.after(now).origin == Some(now)
            && check.after(now).verdict is Warming && check.after(now).steps == check.steps,
        check.after(now).primary_hz == check.primary_hz,
        check.after(now).reference_hz == check.reference_hz,
        check.after(now).tolerance_ppm == check.tolerance_ppm,
        check.after(now).sample_uncertainty_ns == check.sample_uncertainty_ns,
{
}

/// Drifts and steps are alarms, and nothing else is. Each verdict is shown
/// under its own word.
pub proof fn alarms_are_drifts_and_steps(v: Verdict)
    ensures
        v.alarming() <==> v is Drift || v is Step,
        v is Warming <==> v.shown() == "warming up"@,
        v is Agree <==> v.shown() == "agree"@,
        v is Drift <==> v.shown() == "DRIFT"@,
        v is Step <==> v.shown() == "STEP"@,
{
    reveal_strlit("warming up");
    reveal_strlit("agree");
    reveal_strlit("DRIFT");
    reveal_strlit("STEP");
    assert("warming up"@.len() == 10 && "agree"@.len() == 5);
    assert("DRIFT"@.len() == 5 && "STEP"@.len() == 4);
    assert("DRIFT"@[0] == 'D' && "agree"@[0] == 'a');
}

/// A counter of `bits` bits comes round after two to the `bits` readings, and
/// its first reading begins the count at the total there was.
pub proof fn a_counter_comes_round(u: Unwrap, raw: u64)
    ensures
        u.bits < 64 ==> u.span() == pow2(u.bits as nat),
        u.bits >= 64 ==> u.span() == 0x1_0000_0000_0000_0000,
        u.last is None ==> u.after(raw).total == u.total,
        u.after(raw).last == Some((raw as int % u.span()) as u64),
        u.after(raw).bits == u.bits,
{
}

} // verus!
