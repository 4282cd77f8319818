//! Non-blocking skip throttling for periodic work.

use vstd::prelude::*;

verus! {

/// Decides whether a periodic operation should run now, from the elapsed
/// time since the last accepted run against a target interval.
///
/// Timestamps are monotonic clock readings in the caller's fixed-point
/// unit (the same unit as `target_interval`). The throttle never sleeps: it
/// only answers "run now" or "skip", so a rejected call has no side
/// effect and costs nothing.
pub struct RateGate {
    /// Minimal spacing between accepted runs; `None` means unthrottled.
    pub target_interval: Option<u64>,
    /// Timestamp of the last accepted run; `None` before the first one.
    pub last_fire: Option<u64>,
}

impl RateGate {
    /// Whether a call at time `now` is accepted in the current state.
    pub open spec fn admits(self, now: u64) -> bool {
        match self.target_interval {
            Option::None => true,
            Option::Some(t) => match self.last_fire {
                Option::None => true,
                Option::Some(prev) => now >= prev && now - prev >= t,
            },
        }
    }

    /// The throttle state after a call at time `now`: the fire time is
    /// recorded only when an interval is set and the call is accepted.
    pub open spec fn after(self, now: u64) -> RateGate {
        if self.target_interval is Some && self.admits(now) {
            RateGate { target_interval: self.target_interval, last_fire: Option::Some(now) }
        } else {
            self
        }
    }

    /// A fresh gate that has never fired.
    pub fn new(target_interval: Option<u64>) -> (gate: RateGate)
        ensures
            gate.target_interval == target_interval,
            gate.last_fire is None,
    {
        RateGate { target_interval, last_fire: Option::None }
    }

    /// Replaces the target interval, keeping the last fire time.
    pub fn set_rate(&mut self, target_interval: Option<u64>)
        ensures
            final(self).target_interval == target_interval,
            final(self).last_fire == old(self).last_fire,
    {
        self.target_interval = target_interval;
    }

    /// Answers whether the periodic operation should run at time `now`,
    /// and records `now` exactly when a throttled call is accepted.
    pub fn update(&mut self, now: u64) -> (fire: bool)
        ensures
            fire == old(self).admits(now),
            *final(self) == old(self).after(now),
    {
        match self.target_interval {
            Option::None => true,
            Option::Some(t) => match self.last_fire {
                Option::None => {
                    self.last_fire = Option::Some(now);
                    true
                },
                Option::Some(prev) => {
                    if now >= prev && now - prev >= t {
                        self.last_fire = Option::Some(now);
                        true
                    } else {
                        false
                    }
                },
            },
        }
    }
}

/// A gate that has never fired accepts whatever timestamp is offered
/// first, throttled or not.
pub proof fn lemma_gate_first_admit(gate: RateGate, now: u64)
    requires
        gate.last_fire is None,
    ensures
        gate.admits(now),
{
}

/// A throttled gate that last fired at some time `prev` accepts a later
/// timestamp `now` exactly when a whole target interval has elapsed, so
/// under a steady stream of calls exactly one is accepted per interval.
pub proof fn lemma_gate_throttles(gate: RateGate, now: u64)
    requires
        gate.target_interval is Some,
        gate.last_fire is Some,
        now >= gate.last_fire->0,
    ensures
        gate.admits(now) <==> now - gate.last_fire->0 >= gate.target_interval->0,
{
}

/// A rejected call leaves the throttle unchanged, so skipping has no effect
/// on when the next call fires.
pub proof fn lemma_gate_reject_no_effect(gate: RateGate, now: u64)
    requires
        !gate.admits(now),
    ensures
        gate.after(now) == gate,
{
}

} // verus!
