//! The resource ledger: a saturating height counter grown by privileged
//! watering and decayed by the threshold-triggered cleanup policy, handing
//! the pre-decay value to the notifier through a durable marker.

use vstd::prelude::*;
use crate::dispatch::{ensure_root, DispatchError, Origin};

verus! {

/// Saturating addition on the ledger's height.
pub open spec fn sat_add_u32(a: u32, b: u32) -> u32 {
    if a + b > u32::MAX {
        u32::MAX
    } else {
        (a + b) as u32
    }
}

/// Saturating subtraction on the ledger's height.
pub open spec fn sat_sub_u32(a: u32, b: u32) -> u32 {
    if a < b {
        0
    } else {
        (a - b) as u32
    }
}

/// Saturating addition on ticks.
pub open spec fn sat_add_u64(a: u64, b: u64) -> u64 {
    if a + b > u64::MAX {
        u64::MAX
    } else {
        (a + b) as u64
    }
}

/// The policy parameters, fixed for the lifetime of the system.
#[derive(Clone, Copy, PartialEq, Eq, Structural, Debug)]
pub struct Config {
    /// Cleanup becomes due once this many ticks pass without watering.
    pub max_watering: u64,
    /// By how much one watering grows the height, and one cleanup shrinks it.
    pub water_height: u32,
}

/// Observable outcomes of the ledger.
#[derive(Clone, Copy, PartialEq, Eq, Structural, Debug)]
pub enum Event {
    /// Watering grew the height to the carried value.
    HeightIncreased(u32),
    /// Cleanup shrank the height to the carried value.
    HeightDecreased(u32),
}

/// Errors of the ledger's notification path: configuration or transport
/// failure of the external delivery; non-fatal, the delivery is retried.
#[derive(Clone, Copy, PartialEq, Eq, Structural, Debug)]
pub enum Error {
    OcwError,
}

/// The ledger's persisted state, together with its fixed policy parameters.
pub struct Pallet {
    /// The policy parameters the ledger was brought up with.
    pub config: Config,
    /// The tracked height; never negative, mutated only saturatingly.
    pub height: u32,
    /// The tick of the most recent growth; read only by the cleanup policy.
    pub last_watering_time: u64,
}

/// Initial ledger state.
#[derive(Clone, Copy, PartialEq, Eq, Structural, Debug)]
pub struct GenesisConfig {
    pub last_watering_block: u64,
    pub height: u32,
}

impl GenesisConfig {
    /// The stock initial state for a configuration: height one watering
    /// high, never yet watered.
    pub fn default_for(config: &Config) -> (r: GenesisConfig)
        ensures
            r.last_watering_block == 0,
            r.height == config.water_height,
    {
        GenesisConfig { last_watering_block: 0, height: config.water_height }
    }

    /// Builds the ledger's initial state.
    pub fn build(&self, config: Config) -> (r: Pallet)
        ensures
            r.config == config,
            r.height == self.height,
            r.last_watering_time == self.last_watering_block,
    {
        Pallet { config, height: self.height, last_watering_time: self.last_watering_block }
    }
}

/// The ledger after one watering at tick `now`.
pub open spec fn grown(p: Pallet, now: u64) -> Pallet {
    Pallet {
        config: p.config,
        height: sat_add_u32(p.height, p.config.water_height),
        last_watering_time: now,
    }
}

/// The ledger after one decay.
pub open spec fn decayed(p: Pallet) -> Pallet {
    Pallet {
        config: p.config,
        height: sat_sub_u32(p.height, p.config.water_height),
        last_watering_time: p.last_watering_time,
    }
}

impl Pallet {
    /// Whether enough ticks have passed since the last growth to warrant
    /// decay: strictly more than `max_watering` ticks of inactivity.
    pub open spec fn cleanable_spec(self, now: u64) -> bool {
        now > sat_add_u64(self.last_watering_time, self.config.max_watering)
    }

    /// Read-only view of the height.
    pub fn height(&self) -> (r: u32)
        ensures
            r == self.height,
    {
        self.height
    }

    /// Read-only view of the last growth tick.
    pub fn last_watering_time(&self) -> (r: u64)
        ensures
            r == self.last_watering_time,
    {
        self.last_watering_time
    }

    /// The cleanup policy: pure, no side effects.
    pub fn cleanable(&self, now: u64) -> (r: bool)
        ensures
            r == self.cleanable_spec(now),
    {
        now > self.last_watering_time.saturating_add(self.config.max_watering)
    }

    /// Privileged: grows the height by the configured increment, saturating,
    /// and records `now` as the last growth tick.
    pub fn water(&mut self, origin: Origin, now: u64) -> (r: Result<Event, DispatchError>)
        ensures
            origin == Origin::Root ==> {
                &&& *final(self) == grown(*old(self), now)
                &&& r == Ok::<Event, DispatchError>(
                    Event::HeightIncreased(sat_add_u32(old(self).height, old(self).config.water_height)),
                )
            },
            origin != Origin::Root ==> {
                &&& r == Err::<Event, DispatchError>(DispatchError::BadOrigin)
                &&& *final(self) == *old(self)
            },
    {
        ensure_root(origin)?;

        let height = self.height;
        let height = height.saturating_add(self.config.water_height);
        self.height = height;
        self.last_watering_time = now;

        Ok(Event::HeightIncreased(height))
    }

    /// The decay step: captures the pre-decay height, writes it to the
    /// durable notification marker, and only then shrinks the height — so
    /// the notifier always observes the value before decay.
    pub fn cleanable_action(&mut self, marker: &mut Option<u32>) -> (ev: Event)
        ensures
            *final(marker) == Some(old(self).height),
            *final(self) == decayed(*old(self)),
            ev == Event::HeightDecreased(sat_sub_u32(old(self).height, old(self).config.water_height)),
    {
        let height = self.height;
        *marker = Some(height);
        let height = height.saturating_sub(self.config.water_height);
        self.height = height;

        Event::HeightDecreased(height)
    }

    /// Privileged: applies the policy-gated decay. When cleanup is not yet
    /// due this is a no-op, not an error; when due, the height decays once
    /// and the pre-decay value is left in the marker for the notifier.
    pub fn cleanup(&mut self, origin: Origin, now: u64, marker: &mut Option<u32>) -> (r: Result<
        Option<Event>,
        DispatchError,
    >)
        ensures
            origin != Origin::Root ==> {
                &&& r == Err::<Option<Event>, DispatchError>(DispatchError::BadOrigin)
                &&& *final(self) == *old(self)
                &&& *final(marker) == *old(marker)
            },
            origin == Origin::Root && !old(self).cleanable_spec(now) ==> {
                &&& r == Ok::<Option<Event>, DispatchError>(None)
                &&& *final(self) == *old(self)
                &&& *final(marker) == *old(marker)
            },
            origin == Origin::Root && old(self).cleanable_spec(now) ==> {
                &&& r == Ok::<Option<Event>, DispatchError>(
                    Some(
                        Event::HeightDecreased(
                            sat_sub_u32(old(self).height, old(self).config.water_height),
                        ),
                    ),
                )
                &&& *final(self) == decayed(*old(self))
                &&& *final(marker) == Some(old(self).height)
            },
    {
        ensure_root(origin)?;

        if self.cleanable(now) {
            let ev = self.cleanable_action(marker);
            Ok(Some(ev))
        } else {
            Ok(None)
        }
    }
}

/// Growth/decay round trip: one watering grows the height by the increment,
/// saturating; a decay afterwards shrinks it by the increment, saturating,
/// and lands back on the starting height whenever the growth did not
/// saturate.
pub proof fn lemma_growth_decay_round_trip(p: Pallet, now: u64)
    ensures
        grown(p, now).height == sat_add_u32(p.height, p.config.water_height),
        decayed(grown(p, now)).height == sat_sub_u32(
            sat_add_u32(p.height, p.config.water_height),
            p.config.water_height,
        ),
        p.height + p.config.water_height <= u32::MAX ==> decayed(grown(p, now)).height == p.height,
{
}

/// Policy boundary: cleanup is not due at exactly the last growth tick plus
/// the inactivity threshold, and due one tick later. (When that sum
/// saturates the tick counter, no later tick exists and cleanup never
/// becomes due.)
pub proof fn lemma_cleanup_policy_boundary(p: Pallet)
    requires
        p.last_watering_time + p.config.max_watering + 1 <= u64::MAX,
    ensures
        !p.cleanable_spec((p.last_watering_time + p.config.max_watering) as u64),
        p.cleanable_spec((p.last_watering_time + p.config.max_watering + 1) as u64),
{
}

} // verus!
