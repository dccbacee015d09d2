//! The presence scheduler: when the background loop looks at the vehicle
//! again.
//!
//! Every wake of the loop runs one cycle of the orchestrator, which begins
//! by finding out where the vehicle is, and then sleeps. While the vehicle
//! is at the charger the sleep is a fixed cadence. While it is away there is
//! no point in asking for its position more often than it could possibly
//! arrive: the sleep is the time that the vehicle needs for the distance at
//! a speed it will not exceed, and at least the time for which the cached
//! snapshot is still served.

use vstd::prelude::*;
use super::fairing::CycleOutcome;
use super::cache::{CarStateWrapper, STATE_CACHE_TTL_SECS};
use crate::clock::unix_now;

verus! {

/// Seconds between two cycles while the vehicle is at the charger, and
/// after a cycle that did not learn where the vehicle is.
pub const PRESENT_POLL_SECS: u64 = 60;

/// Whether the vehicle was at the charger when it was last looked at.
#[derive(Clone, Copy, Debug, PartialEq, Eq, Structural)]
pub enum Presence {
    /// Not at the charger, or not seen yet.
    Away,
    /// At the charger.
    Present,
}

/// What the background loop does at a wake point.
#[derive(Clone, Copy, Debug, PartialEq, Eq, Structural)]
pub enum WakeAction {
    /// The loop was cancelled: end it without touching the controller.
    Stop,
    /// Run one cycle, then ask [`PresenceScheduler::on_cycle_done`] how long
    /// to sleep.
    RunCycle,
}

/// Seconds that the vehicle needs for `distance_metres` at 150 km/h, rounded
/// down.
pub open spec fn spec_eta_seconds(distance_metres: int) -> int {
    distance_metres * 3600 / 150_000
}

/// Seconds to sleep while the vehicle is away: the travel time, or the time
/// for which the cached snapshot is still served if that is longer; at most
/// what a `u64` holds.
pub open spec fn spec_away_sleep(distance_metres: int, cache_age_secs: int) -> int {
    let eta = spec_eta_seconds(distance_metres);
    let floor = STATE_CACHE_TTL_SECS - cache_age_secs;
    let wait = if eta >= floor {
        eta
    } else {
        floor
    };
    if wait > u64::MAX {
        u64::MAX as int
    } else {
        wait
    }
}

/// The presence after a cycle that ended with `outcome` at `now`, and the
/// seconds to sleep before the next wake. `entry` is the controller's cache
/// entry after the cycle.
///
/// A cycle that found the vehicle away leads to the sleep of
/// [`spec_away_sleep`]. A cycle that found it at the charger, charging or
/// not, leads to [`PRESENT_POLL_SECS`]. A cycle that was dropped or failed
/// has learnt nothing: the presence stays, and the next cycle follows after
/// [`PRESENT_POLL_SECS`].
pub open spec fn spec_on_cycle_done(
    presence: Presence,
    outcome: CycleOutcome,
    entry: Option<CarStateWrapper>,
    now: i64,
) -> (Presence, u64) {
    match outcome {
        CycleOutcome::NotNearby => match entry {
            Some(e) => (
                Presence::Away,
                spec_away_sleep(e.state.distance_to_charger_metres as int, now - e.last_update)
                    as u64,
            ),
            None => (Presence::Away, PRESENT_POLL_SECS),
        },
        CycleOutcome::NotCharging | CycleOutcome::Decided(_) | CycleOutcome::NoHomeConsumption => (
            Presence::Present,
            PRESENT_POLL_SECS,
        ),
        CycleOutcome::ContentionSkip | CycleOutcome::Failed(_) => (presence, PRESENT_POLL_SECS),
    }
}

/// Computes [`spec_away_sleep`] for a snapshot fetched at `last_update`.
fn away_sleep(distance_metres: u64, last_update: i64, now: i64) -> (secs: u64)
    ensures
        secs == spec_away_sleep(distance_metres as int, now - last_update),
{
    let eta: i128 = (distance_metres as i128) * 3600 / 150_000;
    let floor: i128 = (STATE_CACHE_TTL_SECS as i128) - ((now as i128) - (last_update as i128));
    let wait: i128 = if eta >= floor {
        eta
    } else {
        floor
    };
    if wait > u64::MAX as i128 {
        u64::MAX
    } else {
        wait as u64
    }
}

/// The scheduler's state between wake points.
pub struct PresenceScheduler {
    presence: Presence,
}

impl View for PresenceScheduler {
    type V = Presence;

    closed spec fn view(&self) -> Presence {
        self.presence
    }
}

impl PresenceScheduler {
    /// A scheduler that has not seen the vehicle yet: it counts as away.
    pub fn new() -> (scheduler: Self)
        ensures
            scheduler@ == Presence::Away,
    {
        PresenceScheduler { presence: Presence::Away }
    }

    /// Whether the vehicle was at the charger when it was last looked at.
    pub fn presence(&self) -> (presence: Presence)
        ensures
            presence == self@,
    {
        self.presence
    }

    /// Decides at a wake point whether the loop goes on. Cancellation takes
    /// effect here and nowhere else, so that no cycle is cut short.
    pub fn on_wake(&self, cancelled: bool) -> (action: WakeAction)
        ensures
            action == if cancelled {
                WakeAction::Stop
            } else {
                WakeAction::RunCycle
            },
    {
        if cancelled {
            WakeAction::Stop
        } else {
            WakeAction::RunCycle
        }
    }

    /// Takes the outcome of the cycle that ended at `now` and the
    /// controller's cache entry after it, and returns the seconds to sleep
    /// before the next wake.
    pub fn on_cycle_done_at(
        &mut self,
        outcome: CycleOutcome,
        entry: Option<CarStateWrapper>,
        now: i64,
    ) -> (sleep_secs: u64)
        ensures
            (final(self)@, sleep_secs) == spec_on_cycle_done(old(self)@, outcome, entry, now),
    {
        match outcome {
            CycleOutcome::NotNearby => {
                self.presence = Presence::Away;
                match entry {
                    Some(e) => away_sleep(e.state.distance_to_charger_metres, e.last_update, now),
                    None => PRESENT_POLL_SECS,
                }
            },
            CycleOutcome::NotCharging | CycleOutcome::Decided(_) | CycleOutcome::NoHomeConsumption => {
                self.presence = Presence::Present;
                PRESENT_POLL_SECS
            },
            CycleOutcome::ContentionSkip | CycleOutcome::Failed(_) => PRESENT_POLL_SECS,
        }
    }

    /// Takes the outcome of the cycle that has just ended and the
    /// controller's cache entry after it, and returns the seconds to sleep
    /// before the next wake, by the wall clock's time.
    pub fn on_cycle_done(&mut self, outcome: CycleOutcome, entry: Option<CarStateWrapper>) -> (
        sleep_secs: u64)
        ensures
            exists|now: i64|
                (final(self)@, sleep_secs) == #[trigger] spec_on_cycle_done(
                    old(self)@,
                    outcome,
                    entry,
                    now,
                ),
    {
        let now: i64 = unix_now();
        self.on_cycle_done_at(outcome, entry, now)
    }
}

/// While the vehicle is away the loop never spins: every sleep lasts two
/// seconds or more and covers the travel time at 150 km/h. Where the time
/// left to the cached snapshot fits in a `u64`, the sleep ends no earlier
/// than the snapshot expires, so that the next cycle asks for a fresh one.
pub proof fn lemma_away_sleep_is_bounded_below(
    presence: Presence,
    entry: CarStateWrapper,
    now: i64,
)
    requires
        !entry.state.spec_is_nearby(),
    ensures
        spec_on_cycle_done(presence, CycleOutcome::NotNearby, Some(entry), now).0
            == Presence::Away,
        spec_on_cycle_done(presence, CycleOutcome::NotNearby, Some(entry), now).1 >= 2,
        spec_on_cycle_done(presence, CycleOutcome::NotNearby, Some(entry), now).1
            >= spec_eta_seconds(entry.state.distance_to_charger_metres as int),
        STATE_CACHE_TTL_SECS - (now - entry.last_update) <= u64::MAX ==> !entry.is_fresh(
            now + spec_on_cycle_done(presence, CycleOutcome::NotNearby, Some(entry), now).1,
        ),
{
}

/// Whatever a cycle's outcome, the loop sleeps before the next one: with a
/// cache entry that agrees with the outcome, never less than two seconds.
pub proof fn lemma_sleep_is_positive(
    presence: Presence,
    outcome: CycleOutcome,
    entry: Option<CarStateWrapper>,
    now: i64,
)
    requires
        outcome is NotNearby ==> entry is Some && !entry->0.state.spec_is_nearby(),
    ensures
        spec_on_cycle_done(presence, outcome, entry, now).1 >= 2,
{
}

} // verus!
