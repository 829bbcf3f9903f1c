//! The emergency-override state machine.
//!
//! The override gates a full-reserve withdrawal. It comes in two variants,
//! chosen at construction time: a delayed variant, where arming schedules
//! an activation instant a fixed number of days ahead, and a flag variant,
//! where a one-way allow switch arms it immediately and permanently.
//! Instants are plain values — seconds on the host's clock — handed in by
//! the caller, so every transition is verified.

use vstd::prelude::*;

verus! {

/// Seconds in a day, used to turn the configured delay into an instant.
pub const SECONDS_PER_DAY: i64 = 86_400;

/// Largest clock instant, in seconds, the state machine accepts.
pub const MAX_INSTANT: i64 = 4_000_000_000_000;

/// Largest configurable activation delay, in days.
pub const MAX_DELAY_DAYS: i64 = 36_500;

/// The override's state. `Flag` is the irreversible variant: `allowed`
/// moves from `false` to `true` once and never back. `Delayed` is the
/// primary variant: `activation` is `None` while disarmed and holds the
/// activation instant while armed.
#[derive(Clone, Copy, Debug)]
pub enum EmergencyOverride {
    Flag { allowed: bool },
    Delayed { delay_days: i64, activation: Option<i64> },
}

impl EmergencyOverride {
    /// Well-formedness: a delayed override carries an in-range delay and,
    /// while armed, an in-range activation instant.
    pub open spec fn wf(self) -> bool {
        match self {
            EmergencyOverride::Flag { .. } => true,
            EmergencyOverride::Delayed { delay_days, activation } => {
                &&& 0 <= delay_days <= MAX_DELAY_DAYS
                &&& match activation {
                    Some(t) => 0 <= t <= MAX_INSTANT + MAX_DELAY_DAYS * SECONDS_PER_DAY,
                    None => true,
                }
            },
        }
    }

    /// Whether a drain is permitted at instant `now`.
    pub open spec fn spec_usable(self, now: int) -> bool {
        match self {
            EmergencyOverride::Flag { allowed } => allowed,
            EmergencyOverride::Delayed { activation, .. } => match activation {
                Some(t) => now >= t,
                None => false,
            },
        }
    }

    /// A disarmed flag-variant override.
    pub fn new_flag() -> (r: EmergencyOverride)
        ensures
            r == (EmergencyOverride::Flag { allowed: false }),
            r.wf(),
    {
        EmergencyOverride::Flag { allowed: false }
    }

    /// A disarmed delayed-variant override with the given delay.
    pub fn new_delayed(delay_days: i64) -> (r: EmergencyOverride)
        requires
            0 <= delay_days <= MAX_DELAY_DAYS,
        ensures
            r == (EmergencyOverride::Delayed { delay_days, activation: None }),
            r.wf(),
    {
        EmergencyOverride::Delayed { delay_days, activation: None }
    }

    /// One-way arming of the flag variant. On the delayed variant this is
    /// not an arming path and changes nothing.
    pub fn allow(&mut self)
        ensures
            *final(self) == match *old(self) {
                EmergencyOverride::Flag { .. } => EmergencyOverride::Flag { allowed: true },
                EmergencyOverride::Delayed { .. } => *old(self),
            },
            old(self).wf() ==> final(self).wf(),
    {
        match *self {
            EmergencyOverride::Flag { .. } => {
                *self = EmergencyOverride::Flag { allowed: true };
            },
            EmergencyOverride::Delayed { .. } => {},
        }
    }

    /// Arms or disarms the delayed variant: disarmed moves to armed with
    /// activation `now + delay_days` days ahead; armed moves to disarmed.
    /// The flag variant has no disarm transition and is left unchanged.
    pub fn toggle(&mut self, now: i64)
        requires
            old(self).wf(),
            0 <= now <= MAX_INSTANT,
        ensures
            *final(self) == match *old(self) {
                EmergencyOverride::Flag { .. } => *old(self),
                EmergencyOverride::Delayed { delay_days, activation } => match activation {
                    None => EmergencyOverride::Delayed {
                        delay_days,
                        activation: Some((now + delay_days * SECONDS_PER_DAY) as i64),
                    },
                    Some(_) => EmergencyOverride::Delayed { delay_days, activation: None },
                },
            },
            final(self).wf(),
    {
        match *self {
            EmergencyOverride::Flag { .. } => {},
            EmergencyOverride::Delayed { delay_days, activation } => match activation {
                None => {
                    let instant: i64 = now + delay_days * SECONDS_PER_DAY;
                    *self = EmergencyOverride::Delayed { delay_days, activation: Some(instant) };
                },
                Some(_) => {
                    *self = EmergencyOverride::Delayed { delay_days, activation: None };
                },
            },
        }
    }

    /// Immediate arming of the delayed variant: from any of its states,
    /// sets the activation instant to `now`, skipping the delay. The flag
    /// variant is left unchanged.
    pub fn activate_now(&mut self, now: i64)
        requires
            old(self).wf(),
            0 <= now <= MAX_INSTANT,
        ensures
            *final(self) == match *old(self) {
                EmergencyOverride::Flag { .. } => *old(self),
                EmergencyOverride::Delayed { delay_days, .. } => EmergencyOverride::Delayed {
                    delay_days,
                    activation: Some(now),
                },
            },
            final(self).wf(),
    {
        match *self {
            EmergencyOverride::Flag { .. } => {},
            EmergencyOverride::Delayed { delay_days, .. } => {
                *self = EmergencyOverride::Delayed { delay_days, activation: Some(now) };
            },
        }
    }

    /// Whether a drain is permitted at instant `now`.
    pub fn usable(&self, now: i64) -> (r: bool)
        ensures
            r == self.spec_usable(now as int),
    {
        match *self {
            EmergencyOverride::Flag { allowed } => allowed,
            EmergencyOverride::Delayed { activation, .. } => match activation {
                Some(t) => now >= t,
                None => false,
            },
        }
    }
}

} // verus!
