//! Checking one clock against another that does not share its failure modes.
//!
//! Anything that disturbs the counter a stopwatch counts disturbs the
//! measurement with nothing to show for it. A second clock with its own
//! counter or its own crystal makes that visible. Two things are looked for:
//!
//! - a **step**: between two samples the clocks disagree about how much time
//!   passed by more than the sampling can explain. Something moved one of
//!   them.
//! - a **drift**: over the whole baseline the rates disagree by more than the
//!   tolerance. Something rescaled one of them.
//!
//! After a step the baseline restarts, so one event is reported once and the
//! rate is then judged afresh. The caller reads both clocks back to back and
//! passes the pair in, with the reference already unwrapped to a monotonic
//! count.
use vstd::arithmetic::power2::*;
use vstd::bits::*;
use vstd::prelude::*;

verus! {

/// What the comparison says now.
#[derive(Debug, Clone, Copy, PartialEq, Eq, Structural)]
pub enum Verdict {
    /// Not enough baseline yet to judge the rate.
    Warming,
    /// The rates agree; the measured difference in parts per million.
    Agree { ppm: i64 },
    /// The rates disagree by more than the tolerance.
    Drift { ppm: i64 },
    /// One clock jumped relative to the other between two samples, by this
    /// many nanoseconds (primary minus reference).
    Step { ns: i64 },
}

impl Verdict {
    /// Whether it is worth an alarm: a drift or a step.
    pub open spec fn alarming(self) -> bool {
        self is Drift || self is Step
    }

    /// The name it is shown under.
    pub open spec fn shown(self) -> Seq<char> {
        match self {
            Verdict::Warming => "warming up"@,
            Verdict::Agree { .. } => "agree"@,
            Verdict::Drift { .. } => "DRIFT"@,
            Verdict::Step { .. } => "STEP"@,
        }
    }

    pub fn is_alarm(self) -> (alarm: bool)
        ensures
            alarm == self.alarming(),
    {
        match self {
            Verdict::Drift { .. } => true,
            Verdict::Step { .. } => true,
            _ => false,
        }
    }

    pub fn name(self) -> (name: &'static str)
        ensures
            name@ == self.shown(),
    {
        match self {
            Verdict::Warming => "warming up",
            Verdict::Agree { .. } => "agree",
            Verdict::Drift { .. } => "DRIFT",
            Verdict::Step { .. } => "STEP",
        }
    }
}

/// One primary-versus-reference comparison.
#[derive(Debug, Clone, Copy, PartialEq, Eq)]
pub struct CrossCheck {
    pub primary_hz: u64,
    pub reference_hz: u64,
    /// Rate disagreement that counts as drift.
    pub tolerance_ppm: u32,
    /// How uncertain one sample's pairing is, in nanoseconds. Sets the step
    /// threshold and the baseline a rate needs.
    pub sample_uncertainty_ns: u64,
    /// Where the baseline starts.
    pub origin: Option<(u64, u64)>,
    /// The last sample.
    pub last: Option<(u64, u64)>,
    pub steps: u32,
    pub verdict: Verdict,
}

/// Ticks of a wrapping counter between two readings.
pub open spec fn ticks_between(from: u64, to: u64) -> int {
    (to - from) % 0x1_0000_0000_0000_0000
}

/// The nanoseconds that ticks of a rate take, rounded down. A rate of zero
/// counts as one.
pub open spec fn nanoseconds(ticks: int, hz: u64) -> int {
    ticks * 1_000_000_000 / (if hz == 0 {
        1
    } else {
        hz as int
    })
}

/// Division that rounds toward zero, by a positive number.
pub open spec fn toward_zero(a: int, b: int) -> int {
    if a >= 0 {
        a / b
    } else {
        -((-a) / b)
    }
}

/// The magnitude of a number.
pub open spec fn magnitude(a: int) -> int {
    if a >= 0 {
        a
    } else {
        -a
    }
}

/// A number held inside the 64-bit range.
pub open spec fn clamped(a: int) -> i64 {
    if a > i64::MAX {
        i64::MAX
    } else if a < i64::MIN {
        i64::MIN
    } else {
        a as i64
    }
}

/// A number reduced to 64 bits.
pub open spec fn reduced(a: int) -> i64 {
    let low = a % 0x1_0000_0000_0000_0000;
    (if low < 0x8000_0000_0000_0000 {
        low
    } else {
        low - 0x1_0000_0000_0000_0000
    }) as i64
}

impl CrossCheck {
    /// Primary nanoseconds between two samples.
    pub open spec fn primary_ns(self, from: (u64, u64), to: (u64, u64)) -> int {
        nanoseconds(ticks_between(from.0, to.0), self.primary_hz)
    }

    /// Reference nanoseconds between two samples.
    pub open spec fn reference_ns(self, from: (u64, u64), to: (u64, u64)) -> int {
        nanoseconds(ticks_between(from.1, to.1), self.reference_hz)
    }

    /// The sample before this one.
    pub open spec fn previous(self) -> (u64, u64) {
        match self.last {
            Some(last) => last,
            None => self.origin->0,
        }
    }

    /// What the primary was expected to count over the last interval: the
    /// reference's interval at the rate the baseline so far has established.
    /// The first interval only establishes that rate.
    pub open spec fn expected(self, now: (u64, u64)) -> int {
        let origin = self.origin->0;
        let last = self.previous();
        if self.reference_ns(origin, last) > 0 {
            self.reference_ns(last, now) * self.primary_ns(origin, last) / self.reference_ns(
                origin,
                last,
            )
        } else {
            self.primary_ns(last, now)
        }
    }

    /// How far the primary is from what was expected of it.
    pub open spec fn deviation(self, now: (u64, u64)) -> int {
        self.primary_ns(self.previous(), now) - self.expected(now)
    }

    /// How far it may be: the sampling uncertainty on both ends, plus the
    /// tolerated rate wander over the interval.
    pub open spec fn slack(self, now: (u64, u64)) -> int {
        2 * self.sample_uncertainty_ns + self.reference_ns(self.previous(), now)
            * self.tolerance_ppm / 1_000_000
    }

    /// Whether this sample is a step.
    pub open spec fn steps_at(self, now: (u64, u64)) -> bool {
        magnitude(self.deviation(now)) > self.slack(now)
    }

    /// The baseline a rate judgement needs: long enough that two samples'
    /// worth of uncertainty is a tenth of the tolerance.
    pub open spec fn least_baseline(self) -> int {
        crate::num::capped(20_000_000 * self.sample_uncertainty_ns, u64::MAX as int) / (
        if self.tolerance_ppm == 0 {
            1
        } else {
            self.tolerance_ppm as int
        })
    }

    /// The rate difference over the whole baseline, in parts per million.
    pub open spec fn rate_ppm(self, now: (u64, u64)) -> i64 {
        let origin = self.origin->0;
        reduced(
            toward_zero(
                (self.primary_ns(origin, now) - self.reference_ns(origin, now)) * 1_000_000,
                self.reference_ns(origin, now),
            ),
        )
    }

    /// The verdict on the rate, where there is no step.
    pub open spec fn rate_verdict(self, now: (u64, u64)) -> Verdict {
        let br = self.reference_ns(self.origin->0, now);
        if br < self.least_baseline() || br <= 0 {
            Verdict::Warming
        } else if magnitude(self.rate_ppm(now) as int) > self.tolerance_ppm {
            Verdict::Drift { ppm: self.rate_ppm(now) }
        } else {
            Verdict::Agree { ppm: self.rate_ppm(now) }
        }
    }

    /// The comparison after one more sample.
    pub open spec fn after(self, now: (u64, u64)) -> CrossCheck {
        if self.origin is None {
            CrossCheck {
                origin: Some(now),
                last: Some(now),
                verdict: Verdict::Warming,
                ..self
            }
        } else if self.steps_at(now) {
            CrossCheck {
                origin: Some(now),
                last: Some(now),
                steps: crate::num::capped(self.steps + 1, u32::MAX as int) as u32,
                verdict: Verdict::Step { ns: clamped(self.deviation(now)) },
                ..self
            }
        } else {
            CrossCheck { last: Some(now), verdict: self.rate_verdict(now), ..self }
        }
    }

    /// Whether a sample can be judged in 128 bits: the product behind the
    /// expectation fits, and so does the baseline where the rate is judged.
    pub open spec fn judges(self, now: (u64, u64)) -> bool {
        self.origin is Some ==> {
            &&& self.reference_ns(self.origin->0, self.previous()) > 0 ==> self.reference_ns(
                self.previous(),
                now,
            ) * self.primary_ns(self.origin->0, self.previous()) <= i128::MAX
            &&& !self.steps_at(now) ==> 20 * self.sample_uncertainty_ns <= u64::MAX
        }
    }

    pub fn new(
        primary_hz: u64,
        reference_hz: u64,
        tolerance_ppm: u32,
        sample_uncertainty_ns: u64,
    ) -> (check: CrossCheck)
        ensures
            check == (CrossCheck {
                primary_hz,
                reference_hz,
                tolerance_ppm,
                sample_uncertainty_ns,
                origin: None,
                last: None,
                steps: 0,
                verdict: Verdict::Warming,
            }),
    {
        CrossCheck {
            primary_hz,
            reference_hz,
            tolerance_ppm,
            sample_uncertainty_ns,
            origin: None,
            last: None,
            steps: 0,
            verdict: Verdict::Warming,
        }
    }

    /// The latest verdict. A step stays reported until the next sample.
    pub fn verdict(&self) -> (verdict: Verdict)
        ensures
            verdict == self.verdict,
    {
        self.verdict
    }

    /// Steps seen since power-on.
    pub fn steps(&self) -> (steps: u32)
        ensures
            steps == self.steps,
    {
        self.steps
    }

    fn ns(ticks: u64, hz: u64) -> (ns: i128)
        ensures
            ns == nanoseconds(ticks as int, hz),
            0 <= ns <= 0xFFFF_FFFF_FFFF_FFFF * 1_000_000_000,
    {
        let rate: i128 = if hz == 0 {
            1
        } else {
            hz as i128
        };
        let product: i128 = ticks as i128 * 1_000_000_000;
        assert(0 <= product / rate <= product) by (nonlinear_arith)
            requires
                product >= 0,
                rate >= 1,
        ;
        product / rate
    }

    /// The baseline a rate judgement needs.
    pub fn min_baseline_ns(&self) -> (ns: u64)
        requires
            20 * self.sample_uncertainty_ns <= u64::MAX,
        ensures
            ns == self.least_baseline(),
    {
        let tolerance: u64 = if self.tolerance_ppm == 0 {
            1
        } else {
            self.tolerance_ppm as u64
        };
        crate::num::saturating_mul_u64(self.sample_uncertainty_ns * 2 * 10, 1_000_000) / tolerance
    }

    /// How far this sample is from what was expected.
    fn distance_from_expected(&self, now: (u64, u64)) -> (deviation: i128)
        requires
            self.origin is Some,
            self.judges(now),
        ensures
            deviation == self.deviation(now),
            -i128::MAX <= deviation,
    {
        let origin: (u64, u64) = match self.origin {
            Some(origin) => origin,
            None => now,
        };
        let last: (u64, u64) = match self.last {
            Some(last) => last,
            None => origin,
        };
        let dp: i128 = CrossCheck::ns(now.0.wrapping_sub(last.0), self.primary_hz);
        let dr: i128 = CrossCheck::ns(now.1.wrapping_sub(last.1), self.reference_hz);
        let base_p: i128 = CrossCheck::ns(last.0.wrapping_sub(origin.0), self.primary_hz);
        let base_r: i128 = CrossCheck::ns(last.1.wrapping_sub(origin.1), self.reference_hz);
        assert(base_r == self.reference_ns(origin, last));
        if base_r > 0 {
            dp - proportion(dr, base_p, base_r)
        } else {
            0
        }
    }

    /// How far a sample may be from what was expected.
    fn allowance(&self, now: (u64, u64)) -> (slack: i128)
        requires
            self.origin is Some,
        ensures
            slack == self.slack(now),
    {
        let last: (u64, u64) = match self.last {
            Some(last) => last,
            None => match self.origin {
                Some(origin) => origin,
                None => now,
            },
        };
        let dr: i128 = CrossCheck::ns(now.1.wrapping_sub(last.1), self.reference_hz);
        let tolerance: i128 = self.tolerance_ppm as i128;
        assert(0 <= dr * tolerance <= 0xFFFF_FFFF_FFFF_FFFF * 1_000_000_000 * 0xFFFF_FFFF)
            by (nonlinear_arith)
            requires
                0 <= dr <= 0xFFFF_FFFF_FFFF_FFFF * 1_000_000_000,
                0 <= tolerance <= 0xFFFF_FFFF,
        ;
        2 * self.sample_uncertainty_ns as i128 + dr * tolerance / 1_000_000
    }

    /// The verdict on the rate over the whole baseline.
    fn judged_rate(&self, now: (u64, u64)) -> (verdict: Verdict)
        requires
            self.origin is Some,
            20 * self.sample_uncertainty_ns <= u64::MAX,
        ensures
            verdict == self.rate_verdict(now),
    {
        let origin: (u64, u64) = match self.origin {
            Some(origin) => origin,
            None => now,
        };
        let bp: i128 = CrossCheck::ns(now.0.wrapping_sub(origin.0), self.primary_hz);
        let br: i128 = CrossCheck::ns(now.1.wrapping_sub(origin.1), self.reference_hz);
        if br < self.min_baseline_ns() as i128 || br <= 0 {
            return Verdict::Warming;
        }
        let ppm: i64 = rate_difference(bp, br);
        let wide: i128 = if ppm >= 0 {
            ppm as i128
        } else {
            -(ppm as i128)
        };
        if wide > self.tolerance_ppm as i128 {
            Verdict::Drift { ppm }
        } else {
            Verdict::Agree { ppm }
        }
    }

    /// Adds one paired sample.
    pub fn sample(&mut self, primary: u64, reference: u64) -> (verdict: Verdict)
        requires
            old(self).judges((primary, reference)),
        ensures
            *final(self) == old(self).after((primary, reference)),
            verdict == final(self).verdict,
    {
        let now: (u64, u64) = (primary, reference);
        if self.origin.is_none() {
            self.origin = Some(now);
            self.last = Some(now);
            self.verdict = Verdict::Warming;
            return self.verdict;
        }
        let deviation: i128 = self.distance_from_expected(now);
        let slack: i128 = self.allowance(now);
        let distance: i128 = if deviation >= 0 {
            deviation
        } else {
            -deviation
        };
        if distance > slack {
            self.steps = self.steps.saturating_add(1);
            self.origin = Some(now);
            self.last = Some(now);
            let ns: i64 = if deviation > i64::MAX as i128 {
                i64::MAX
            } else if deviation < i64::MIN as i128 {
                i64::MIN
            } else {
                deviation as i64
            };
            self.verdict = Verdict::Step { ns };
            return self.verdict;
        }
        self.verdict = self.judged_rate(now);
        self.last = Some(now);
        self.verdict
    }
}

/// `a * b / c`.
fn proportion(a: i128, b: i128, c: i128) -> (share: i128)
    requires
        0 <= a,
        0 <= b,
        0 < c,
        a * b <= i128::MAX,
    ensures
        share == a * b / c as int,
        0 <= share,
{
    assert(0 <= a * b) by (nonlinear_arith)
        requires
            a >= 0,
            b >= 0,
    ;
    quotient(a * b, c)
}

/// A magnitude and a sign, reduced to 64 bits.
fn narrow(q: i128, negative: bool) -> (low: i64)
    requires
        0 <= q,
    ensures
        low == reduced(if negative {
            -q as int
        } else {
            q as int
        }),
{
    let two64: i128 = 0x1_0000_0000_0000_0000;
    let rest: i128 = q % two64;
    let low: i128 = if !negative || rest == 0 {
        rest
    } else {
        two64 - rest
    };
    assert(low == (if negative {
        -q as int
    } else {
        q as int
    }) % 0x1_0000_0000_0000_0000);
    if low < 0x8000_0000_0000_0000 {
        low as i64
    } else {
        (low - two64) as i64
    }
}

fn quotient(a: i128, b: i128) -> (q: i128)
    requires
        0 <= a,
        0 < b,
    ensures
        q == a as int / b as int,
        0 <= q,
{
    assert(a as int / b as int >= 0) by (nonlinear_arith)
        requires
            a >= 0,
            b > 0,
    ;
    a / b
}

fn rate_difference(bp: i128, br: i128) -> (ppm: i64)
    requires
        0 <= bp <= 0xFFFF_FFFF_FFFF_FFFF * 1_000_000_000,
        0 < br <= 0xFFFF_FFFF_FFFF_FFFF * 1_000_000_000,
    ensures
        ppm == reduced(toward_zero((bp - br) * 1_000_000, br as int)),
{
    if bp >= br {
        narrow(quotient((bp - br) * 1_000_000, br), false)
    } else {
        let scaled: i128 = (br - bp) * 1_000_000;
        assert(scaled == -((bp - br) * 1_000_000));
        narrow(quotient(scaled, br), true)
    }
}

/// Unwraps a counter narrower than 64 bits into a monotonic count. Sample it
/// more often than it wraps.
#[derive(Debug, Clone, Copy, PartialEq, Eq, Structural)]
pub struct Unwrap {
    pub bits: u32,
    pub last: Option<u64>,
    pub total: u64,
}

impl Unwrap {
    /// How many values the counter has.
    pub open spec fn span(self) -> int {
        if self.bits >= 64 {
            0x1_0000_0000_0000_0000
        } else {
            pow2(self.bits as nat) as int
        }
    }

    /// The count after one more reading.
    pub open spec fn after(self, raw: u64) -> Unwrap {
        let value = raw as int % self.span();
        match self.last {
            Some(last) => Unwrap {
                last: Some(value as u64),
                total: ((self.total + (value - last) % self.span()) % 0x1_0000_0000_0000_0000)
                    as u64,
                ..self
            },
            None => Unwrap { last: Some(value as u64), ..self },
        }
    }

    /// Whether the last reading is one the counter can have.
    pub open spec fn valid(self) -> bool {
        self.last matches Some(last) ==> last < self.span()
    }

    pub fn new(bits: u32) -> (unwrap: Unwrap)
        ensures
            unwrap == (Unwrap { bits, last: None, total: 0 }),
            unwrap.valid(),
    {
        Unwrap { bits, last: None, total: 0 }
    }

    /// Takes a reading and gives the count since the first one.
    pub fn feed(&mut self, raw: u64) -> (total: u64)
        requires
            old(self).valid(),
        ensures
            *final(self) == old(self).after(raw),
            total == final(self).total,
            final(self).valid(),
    {
        let span: u128 = if self.bits >= 64 {
            0x1_0000_0000_0000_0000
        } else {
            proof {
                lemma_pow2_strictly_increases(self.bits as nat, 64);
                lemma2_to64_rest();
                lemma_u64_pow2_no_overflow(self.bits as nat);
                lemma_u64_shl_is_mul(1, self.bits as u64);
            }
            (1u64 << self.bits) as u128
        };
        proof {
            lemma_pow2_pos(self.bits as nat);
            assert(span == self.span());
            assert(0 <= (raw as int) % (span as int) && (raw as int) % (span as int) < span as int) by (nonlinear_arith)
                requires
                    span > 0,
            ;
        }
        let value: u64 = (raw as u128 % span) as u64;
        if let Some(last) = self.last {
            let gap: u128 = if value >= last {
                (value - last) as u128
            } else {
                span - (last - value) as u128
            };
            proof {
                let s = span as int;
                let d = value - last;
                if value >= last {
                    vstd::arithmetic::div_mod::lemma_small_mod(d as nat, s as nat);
                } else {
                    vstd::arithmetic::div_mod::lemma_mod_add_multiples_vanish(d, s);
                    vstd::arithmetic::div_mod::lemma_small_mod((s + d) as nat, s as nat);
                }
                assert(gap == d % s);
            }
            self.total = self.total.wrapping_add(gap as u64);
        }
        self.last = Some(value);
        self.total
    }
}

// ---------------------------------------------------------------------------
// Laws
// ---------------------------------------------------------------------------

/// A step is reported once: it is counted, it restarts the baseline at that
/// very sample, and it is an alarm. Without one the count and the baseline
/// stay as they were.
pub proof fn a_step_restarts_the_baseline(check: CrossCheck, now: (u64, u64))
    requires
        check.origin is Some,
    ensures
        check.after(now).verdict is Step <==> check.steps_at(now),
        check.steps_at(now) ==> check.after(now).origin == Some(now) && (check.steps < u32::MAX
            ==> check.after(now).steps == check.steps + 1),
        !check.steps_at(now) ==> check.after(now).origin == check.origin && check.after(now).steps
            == check.steps,
{
}

/// The sample after the first one, or after a step, is never a step: that
/// interval only establishes the rate later ones are judged by.
pub proof fn a_new_baseline_is_never_stepped_from(
    check: CrossCheck,
    first: (u64, u64),
    next: (u64, u64),
)
    requires
        check.origin is None || check.after(first).verdict is Step,
    ensures
        !(check.after(first).after(next).verdict is Step),
        check.after(first).after(next).origin == Some(first),
{
    let begun = check.after(first);
    if check.origin is Some {
        a_step_restarts_the_baseline(check, first);
    }
    assert(begun.origin == Some(first) && begun.previous() == first);
    assert(begun.reference_ns(first, first) == 0) by {
        let rate = if check.reference_hz == 0 {
            1
        } else {
            check.reference_hz as int
        };
        assert(0int / rate == 0) by (nonlinear_arith)
            requires
                rate >= 1,
        ;
    }
    let dr = begun.reference_ns(first, next);
    lemma_nanoseconds_nonnegative(ticks_between(first.1, next.1), begun.reference_hz);
    let tolerance = begun.tolerance_ppm;
    let wander = dr * tolerance;
    assert(wander >= 0) by (nonlinear_arith)
        requires
            wander == dr * tolerance,
            dr >= 0,
    ;
    a_step_restarts_the_baseline(begun, next);
}

/// The comparison after a series of samples.
pub open spec fn after_all(check: CrossCheck, samples: Seq<(u64, u64)>) -> CrossCheck
    decreases samples.len(),
{
    if samples.len() == 0 {
        check
    } else {
        after_all(check, samples.drop_last()).after(samples.last())
    }
}

/// The verdict on each of a series of samples, in order.
pub open spec fn verdicts(check: CrossCheck, samples: Seq<(u64, u64)>) -> Seq<Verdict> {
    Seq::new(samples.len(), |i: int| after_all(check, samples.take(i + 1)).verdict)
}

/// How many of some verdicts are steps.
pub open spec fn steps_among(verdicts: Seq<Verdict>) -> int
    decreases verdicts.len(),
{
    if verdicts.len() == 0 {
        0
    } else {
        steps_among(verdicts.drop_last()) + (if verdicts.last() is Step {
            1int
        } else {
            0
        })
    }
}

/// Over any series of samples the steps are counted one by one, up to what
/// the counter holds, and the verdict is the last sample's.
pub proof fn steps_are_counted(check: CrossCheck, samples: Seq<(u64, u64)>)
    ensures
        after_all(check, samples).steps == crate::num::capped(
            check.steps + steps_among(verdicts(check, samples)),
            u32::MAX as int,
        ),
        steps_among(verdicts(check, samples)) >= 0,
        samples.len() > 0 ==> after_all(check, samples).verdict == verdicts(check, samples).last(),
    decreases samples.len(),
{
    let given = verdicts(check, samples);
    if samples.len() > 0 {
        let shorter = samples.drop_last();
        steps_are_counted(check, shorter);
        assert(samples.take(samples.len() as int) =~= samples);
        assert(given.drop_last() =~= verdicts(check, shorter)) by {
            assert forall|i: int| 0 <= i < shorter.len() implies given.drop_last()[i]
                == verdicts(check, shorter)[i] by {
                assert(samples.take(i + 1) =~= shorter.take(i + 1));
            }
        }
        let before = after_all(check, shorter);
        if before.origin is Some {
            a_step_restarts_the_baseline(before, samples.last());
        }
    }
}

/// Two clocks that always read alike are never an alarm: no step, and no
/// difference in their rates.
pub proof fn equal_clocks_never_alarm(check: CrossCheck, now: u64)
    requires
        check.primary_hz == check.reference_hz,
        check.origin matches Some(origin) ==> origin.0 == origin.1,
        check.last matches Some(last) ==> last.0 == last.1,
    ensures
        !check.after((now, now)).verdict.alarming(),
        check.after((now, now)).verdict matches Verdict::Agree { ppm } ==> ppm == 0,
{
    if let Some(origin) = check.origin {
        let pair = (now, now);
        let last = check.previous();
        let dr = check.reference_ns(last, pair);
        let base = check.reference_ns(origin, last);
        lemma_nanoseconds_nonnegative(ticks_between(last.1, now), check.reference_hz);
        if base > 0 {
            assert(dr * base / base == dr) by (nonlinear_arith)
                requires
                    base > 0,
            ;
        }
        let wander = dr * check.tolerance_ppm;
        let tolerance = check.tolerance_ppm;
        assert(wander >= 0) by (nonlinear_arith)
            requires
                wander == dr * tolerance,
                dr >= 0,
        ;
        let br = check.reference_ns(origin, pair);
        if br > 0 {
            assert(0int / br == 0) by (nonlinear_arith)
                requires
                    br > 0,
            ;
        }
    }
}

proof fn lemma_nanoseconds_nonnegative(ticks: int, hz: u64)
    requires
        ticks >= 0,
    ensures
        nanoseconds(ticks, hz) >= 0,
{
    let rate = if hz == 0 {
        1
    } else {
        hz as int
    };
    let product = ticks * 1_000_000_000;
    assert(product / rate >= 0) by (nonlinear_arith)
        requires
            product >= 0,
            rate >= 1,
    ;
}

/// Unwrapping follows the real counter: where the last reading was that of a
/// true count, and the true count has moved on by less than the counter's
/// span, the total grows by exactly as much as the true count did.
pub proof fn unwrapping_follows_the_counter(u: Unwrap, before: int, now: int, raw: u64)
    requires
        u.valid(),
        u.last == Some((before % u.span()) as u64),
        before <= now < before + u.span(),
        raw as int % u.span() == now % u.span(),
        u.span() > 0,
    ensures
        u.after(raw).last == Some((now % u.span()) as u64),
        u.after(raw).total == (u.total + (now - before)) % 0x1_0000_0000_0000_0000,
{
    let s = u.span();
    lemma2_to64_rest();
    if u.bits < 64 {
        lemma_pow2_strictly_increases(u.bits as nat, 64);
    }
    vstd::arithmetic::div_mod::lemma_mod_bound(before, s);
    vstd::arithmetic::div_mod::lemma_mod_bound(now, s);
    vstd::arithmetic::div_mod::lemma_sub_mod_noop(now, before, s);
    vstd::arithmetic::div_mod::lemma_small_mod((now - before) as nat, s as nat);
}

} // verus!
