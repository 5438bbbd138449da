//! Two clocks held against each other, and counters that wrap.
use nanochrono::crosscheck::{CrossCheck, Unwrap, Verdict};

const GHZ: u64 = 1_000_000_000;
const PM: u64 = 3_579_545;

/// A PM-timer pairing: reads a microsecond apart.
fn pm_check() -> CrossCheck {
    CrossCheck::new(GHZ, PM, 200, 1_000)
}

fn pm_ticks(ns: u64) -> u64 {
    (ns as u128 * PM as u128 / 1_000_000_000) as u64
}

#[test]
fn matching_clocks_agree_once_warmed() {
    let mut c = pm_check();
    let mut last = Verdict::Warming;
    for s in 0..=30u64 {
        let ns = s * 1_000_000_000;
        last = c.sample(ns, pm_ticks(ns));
    }
    assert!(matches!(last, Verdict::Agree { ppm } if ppm.abs() <= 1), "{last:?}");
}

#[test]
fn a_rescaled_primary_is_drift() {
    let mut c = pm_check();
    let mut last = Verdict::Warming;
    for s in 0..=30u64 {
        let ns = s * 1_000_000_000;
        // Primary runs 0.1 % fast: 1000 ppm.
        last = c.sample(ns + ns / 1000, pm_ticks(ns));
    }
    assert!(matches!(last, Verdict::Drift { ppm } if (990..=1010).contains(&ppm)), "{last:?}");
}

#[test]
fn a_jump_is_a_step_and_rebases() {
    let mut c = pm_check();
    for s in 0..10u64 {
        let ns = s * 1_000_000_000;
        c.sample(ns, pm_ticks(ns));
    }
    // The primary jumps 5 ms forward between two samples.
    let v = c.sample(10 * GHZ + 5_000_000, pm_ticks(10 * GHZ));
    assert!(matches!(v, Verdict::Step { ns } if (4_990_000..=5_010_000).contains(&ns)), "{v:?}");
    assert_eq!(c.steps(), 1);
    // Rebased: the offset alone is not drift afterwards.
    let mut last = v;
    for s in 11..=40u64 {
        let ns = s * GHZ;
        last = c.sample(ns + 5_000_000, pm_ticks(ns));
    }
    assert!(matches!(last, Verdict::Agree { .. }), "{last:?}");
}

#[test]
fn sampling_noise_is_not_a_step() {
    let mut c = pm_check();
    for s in 0..20u64 {
        let ns = s * GHZ;
        let jitter = if s % 2 == 0 { 900 } else { 0 };
        let v = c.sample(ns + jitter, pm_ticks(ns));
        assert!(!matches!(v, Verdict::Step { .. }), "sample {s}: {v:?}");
    }
}

#[test]
fn unwrap_24_bits() {
    let mut u = Unwrap::new(24);
    assert_eq!(u.feed(0xFF_FFF0), 0);
    assert_eq!(u.feed(0x00_0010), 0x20);
    assert_eq!(u.feed(0x00_0020), 0x30);
}

#[test]
fn a_rate_of_zero_counts_as_one() {
    let mut unstated = CrossCheck::new(0, PM, 200, 1_000);
    let mut one = CrossCheck::new(1, PM, 200, 1_000);
    for s in 0..5 {
        assert_eq!(unstated.sample(s, s * PM), one.sample(s, s * PM));
        assert_eq!(unstated.verdict(), one.verdict());
    }
}

#[test]
fn only_drift_and_steps_are_alarms() {
    assert!(Verdict::Drift { ppm: 1000 }.is_alarm());
    assert!(Verdict::Step { ns: -5 }.is_alarm());
    assert!(!Verdict::Agree { ppm: 0 }.is_alarm());
    assert!(!Verdict::Warming.is_alarm());
    assert_ne!(Verdict::Warming.name(), Verdict::Agree { ppm: 0 }.name());
}

#[test]
fn the_baseline_outlasts_the_sampling_noise() {
    assert!(pm_check().min_baseline_ns() > 1_000);
}

#[test]
fn equal_clocks_agree_at_any_rate() {
    let mut c = CrossCheck::new(GHZ, GHZ, 1, 0);
    for s in 0..60u64 {
        assert!(!c.sample(s * GHZ, s * GHZ).is_alarm());
    }
}

#[test]
fn a_full_width_counter_wraps_too() {
    let mut u = Unwrap::new(64);
    assert_eq!(u.feed(u64::MAX - 1), 0);
    assert_eq!(u.feed(3), 5);
    // Bits above the width are not part of the counter.
    let mut u = Unwrap::new(32);
    u.feed(0x7_0000_0001);
    assert_eq!(u.feed(0x9_0000_0004), 3);
}

#[test]
fn a_new_baseline_is_never_a_step() {
    let mut c = pm_check();
    assert_eq!(c.sample(0, 0), Verdict::Warming);
    // A wild second sample only establishes the rate.
    assert!(!matches!(c.sample(500 * GHZ, pm_ticks(GHZ)), Verdict::Step { .. }));
    assert!(matches!(c.sample(501 * GHZ, pm_ticks(9 * GHZ)), Verdict::Step { .. }));
    assert!(!matches!(c.sample(502 * GHZ, pm_ticks(99 * GHZ)), Verdict::Step { .. }));
}

#[test]
fn every_step_is_counted() {
    let mut c = pm_check();
    let mut steps = 0;
    let mut offset = 0;
    for s in 0..40u64 {
        if s % 7 == 6 {
            offset += 5_000_000;
        }
        let verdict = c.sample(s * GHZ + offset, pm_ticks(s * GHZ));
        if matches!(verdict, Verdict::Step { .. }) {
            steps += 1;
        }
        assert_eq!(c.steps(), steps);
        assert_eq!(c.verdict(), verdict);
    }
    assert!(steps >= 5, "{steps}");
}
