//! The limit on how often a process may probe its host.
//!
//! A trap probe makes a guest exit many times, and a process that did that on
//! every refresh would look like an attack to a cloud host. So a probe is
//! repeated only after a cooldown.
use vstd::prelude::*;

verus! {

/// How long a process waits between two probes, in nanoseconds.
pub const COOLDOWN_NS: u64 = 10_000_000_000;

/// When the last probe was, and whether the cooldown is enforced.
#[derive(Debug, Clone, Copy, PartialEq, Eq, Structural)]
pub struct Gate {
    pub last_ns: Option<u64>,
    pub cooldown: bool,
}

impl Gate {
    /// Nanoseconds until a probe is allowed. A clock that went backwards
    /// counts as no time having passed.
    pub open spec fn remaining(self, now_ns: u64) -> int {
        match self.last_ns {
            Some(last) => {
                let elapsed = if now_ns >= last {
                    now_ns - last
                } else {
                    0
                };
                if self.cooldown && elapsed < COOLDOWN_NS {
                    COOLDOWN_NS - elapsed
                } else {
                    0
                }
            },
            None => 0,
        }
    }

    /// A gate nothing has passed yet, with the cooldown enforced.
    pub fn new() -> (gate: Gate)
        ensures
            gate == (Gate { last_ns: None, cooldown: true }),
    {
        Gate { last_ns: None, cooldown: true }
    }

    /// Nanoseconds until a probe is allowed.
    pub fn remaining_ns(&self, now_ns: u64) -> (remaining: u64)
        ensures
            remaining == self.remaining(now_ns),
    {
        match self.last_ns {
            Some(last) => {
                let elapsed: u64 = now_ns.saturating_sub(last);
                if self.cooldown && elapsed < COOLDOWN_NS {
                    COOLDOWN_NS - elapsed
                } else {
                    0
                }
            },
            None => 0,
        }
    }

    /// Begins a probe, or says how many nanoseconds to wait for one.
    pub fn try_begin(&mut self, now_ns: u64) -> (begun: Result<(), u64>)
        ensures
            match begun {
                Ok(()) => old(self).remaining(now_ns) == 0 && *final(self) == (Gate {
                    last_ns: Some(now_ns),
                    ..*old(self)
                }),
                Err(wait) => wait > 0 && wait == old(self).remaining(now_ns) && *final(self)
                    == *old(self),
            },
    {
        let wait: u64 = self.remaining_ns(now_ns);
        if wait > 0 {
            return Err(wait);
        }
        self.last_ns = Some(now_ns);
        Ok(())
    }
}

/// Whole seconds that cover this many nanoseconds.
pub open spec fn seconds_for(ns: int) -> int {
    (ns + 999_999_999) / 1_000_000_000
}

/// Rounds nanoseconds up to whole seconds.
pub fn seconds_up(ns: u64) -> (seconds: u64)
    ensures
        seconds == seconds_for(ns as int),
{
    if ns % 1_000_000_000 == 0 {
        ns / 1_000_000_000
    } else {
        ns / 1_000_000_000 + 1
    }
}

/// After a probe, no second one begins until the cooldown has passed, and
/// then one does.
pub proof fn one_probe_per_cooldown(gate: Gate, begun_ns: u64, now_ns: u64)
    requires
        gate.cooldown,
        gate.last_ns == Some(begun_ns),
        now_ns >= begun_ns,
    ensures
        gate.remaining(now_ns) == 0 <==> now_ns - begun_ns >= COOLDOWN_NS,
        gate.remaining(now_ns) <= COOLDOWN_NS,
{
}

} // verus!
