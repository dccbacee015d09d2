//! The controller: the budgets it works to, the vehicle-state cache and
//! the home's recent consumption, and the decision that follows from them.
//!
//! Nothing here performs a remote call. Where a fresh snapshot is needed the
//! functions say so in their result, and the snapshot that the caller
//! fetched is handed to [`CarHandler::force_update_state_cache`].

use vstd::prelude::*;
use super::cache::{bookkeeping, spec_cached, spec_invalidate, spec_note_request, spec_refresh,
    CarStateWrapper, VehicleStateCache};
use super::home::{spec_record, HomeState, HomeStateWrapper, HOME_STATE_CAPACITY};
use super::throttle::{candidate_amps, clamp, decide, spec_candidate_amps, spec_decide,
    ThrottleDecision, THROTTLE_WINDOW_SECS};
use super::VehicleSnapshot;

verus! {

/// The budgets that one controller works to.
#[derive(Clone, Copy, Debug, PartialEq, Eq, Structural)]
pub struct CarHandlerConfig {
    /// The ceiling for the whole home, the vehicle included, in milliamps.
    pub max_milliamps: u64,
    /// The ceiling for the vehicle alone, in amps.
    pub max_amps_car: usize,
}

/// What a [`CarHandler`] holds, as plain values.
pub struct CarHandlerView {
    /// The budgets.
    pub config: CarHandlerConfig,
    /// The cache entry, if a snapshot has been fetched yet.
    pub cache: Option<CarStateWrapper>,
    /// The home samples, oldest first.
    pub samples: Seq<HomeState>,
}

impl CarHandlerView {
    /// The candidate current at this state: from the budgets and the newest
    /// home sample.
    pub open spec fn candidate(self) -> usize
        recommends
            self.samples.len() > 0,
    {
        spec_candidate_amps(
            self.config.max_milliamps as int,
            self.samples.last().spec_load_excluding_vehicle() as int,
            self.config.max_amps_car as int,
        ) as usize
    }

    /// The throttle decision at `now`; `None` while no home sample has been
    /// recorded.
    pub open spec fn throttle(self, now: i64) -> Option<ThrottleDecision> {
        if self.samples.len() == 0 {
            None
        } else {
            let (last, time) = bookkeeping(self.cache);
            Some(spec_decide(self.candidate(), last, now - time))
        }
    }
}

/// The controller's state: budgets, vehicle-state cache and home history.
pub struct CarHandler {
    config: CarHandlerConfig,
    last_state: VehicleStateCache,
    home_state: HomeStateWrapper,
}

impl View for CarHandler {
    type V = CarHandlerView;

    closed spec fn view(&self) -> CarHandlerView {
        CarHandlerView {
            config: self.config,
            cache: self.last_state@,
            samples: self.home_state@,
        }
    }
}

/// The seconds from `then` to `now`, limited to what an `i64` holds.
fn elapsed_secs(now: i64, then: i64) -> (secs: i64)
    ensures
        secs == clamp(now - then, i64::MIN as int, i64::MAX as int),
{
    let diff: i128 = now as i128 - then as i128;
    if diff > i64::MAX as i128 {
        i64::MAX
    } else if diff < i64::MIN as i128 {
        i64::MIN
    } else {
        diff as i64
    }
}

impl CarHandler {
    /// A controller that has not seen the vehicle yet: no cache entry, no
    /// home samples.
    pub fn new(config: CarHandlerConfig) -> (h: Self)
        ensures
            h@.config == config,
            h@.cache is None,
            h@.samples == Seq::<HomeState>::empty(),
    {
        CarHandler {
            config,
            last_state: VehicleStateCache::new(),
            home_state: HomeStateWrapper::new(),
        }
    }

    /// The budgets.
    pub fn config(&self) -> (c: CarHandlerConfig)
        ensures
            c == self@.config,
    {
        self.config
    }

    /// The cache entry as it stands, fresh or not.
    pub fn last_state(&self) -> (e: Option<CarStateWrapper>)
        ensures
            e == self@.cache,
    {
        self.last_state.entry()
    }

    /// The home history.
    pub fn home_state(&self) -> (w: &HomeStateWrapper)
        ensures
            w@ == self@.samples,
    {
        &self.home_state
    }

    /// Stores a snapshot that was fetched from the vehicle at `now`, and
    /// returns it.
    ///
    /// Where the snapshot's requested current differs from the bookkeeping,
    /// the vehicle's value replaces it and its time is set to `now` less
    /// [`THROTTLE_WINDOW_SECS`].
    pub fn force_update_state_cache(&mut self, state: VehicleSnapshot, now: i64) -> (stored:
        VehicleSnapshot)
        requires
            now - THROTTLE_WINDOW_SECS >= i64::MIN,
        ensures
            stored == state,
            final(self)@ == (CarHandlerView {
                cache: Some(spec_refresh(old(self)@.cache, state, now)),
                ..old(self)@
            }),
            spec_cached(final(self)@.cache, now) == Some(state),
            bookkeeping(old(self)@.cache).0 != state.last_requested_amps ==> bookkeeping(
                final(self)@.cache,
            ) == (state.last_requested_amps, (now - THROTTLE_WINDOW_SECS) as i64),
            bookkeeping(old(self)@.cache).0 == state.last_requested_amps ==> bookkeeping(
                final(self)@.cache,
            ) == bookkeeping(old(self)@.cache),
    {
        self.last_state.refresh(state, now)
    }

    /// Makes the next [`CarHandler::get_state`] ask for a fresh snapshot, by
    /// resetting the entry's fetch time to the epoch.
    pub fn invalidate_state_cache(&mut self)
        ensures
            final(self)@ == (CarHandlerView {
                cache: spec_invalidate(old(self)@.cache),
                ..old(self)@
            }),
    {
        self.last_state.invalidate();
    }

    /// The cached snapshot if it may be served at `now`. `None` says that a
    /// fresh snapshot has to be fetched: there is no entry yet, or its age is
    /// thirty seconds or more.
    pub fn get_state(&self, now: i64) -> (state: Option<VehicleSnapshot>)
        ensures
            state == spec_cached(self@.cache, now),
            state is None <==> (self@.cache is None || now - self@.cache->0.last_update >= 30),
            state is Some ==> state->0 == self@.cache->0.state,
    {
        self.last_state.get_state(now)
    }

    /// The distance from the vehicle to the charger in metres, by the cached
    /// snapshot; `None` where a fresh snapshot has to be fetched first.
    pub fn get_car_distance_to_charger(&self, now: i64) -> (distance: Option<u64>)
        ensures
            distance == match spec_cached(self@.cache, now) {
                Some(s) => Some(s.distance_to_charger_metres),
                None => None,
            },
    {
        match self.get_state(now) {
            Some(s) => Some(s.distance_to_charger_metres),
            None => None,
        }
    }

    /// Whether the vehicle is at the charger, by the cached snapshot; `None`
    /// where a fresh snapshot has to be fetched first.
    pub fn is_car_nearby(&self, now: i64) -> (nearby: Option<bool>)
        ensures
            nearby == match spec_cached(self@.cache, now) {
                Some(s) => Some(s.distance_to_charger_metres < super::NEARBY_LIMIT_METRES),
                None => None,
            },
    {
        self.last_state.is_nearby(now)
    }

    /// Whether the vehicle is charging, by the cached snapshot; `None` where
    /// a fresh snapshot has to be fetched first.
    ///
    /// A snapshot taken while the charge state was mid-change is served this
    /// once and then invalidated, so that the next read is fresh.
    pub fn is_car_charging(&mut self, now: i64) -> (charging: Option<bool>)
        ensures
            charging == match spec_cached(old(self)@.cache, now) {
                Some(s) => Some(s.charging),
                None => None,
            },
            final(self)@ == (CarHandlerView {
                cache: match spec_cached(old(self)@.cache, now) {
                    Some(s) => if s.transitioning {
                        spec_invalidate(old(self)@.cache)
                    } else {
                        old(self)@.cache
                    },
                    None => old(self)@.cache,
                },
                ..old(self)@
            }),
    {
        self.last_state.is_charging(now)
    }

    /// The current that the vehicle draws in milliamps, by the cached
    /// snapshot; `None` where a fresh snapshot has to be fetched first.
    pub fn get_amps(&self, now: i64) -> (amps: Option<u64>)
        ensures
            amps == match spec_cached(self@.cache, now) {
                Some(s) => Some(s.current_milliamps),
                None => None,
            },
    {
        match self.get_state(now) {
            Some(s) => Some(s.current_milliamps),
            None => None,
        }
    }

    /// Records that the vehicle has been asked for `amps` at `now`. A
    /// controller without a cache entry has nowhere to keep it and stays as
    /// it is.
    pub fn set_amps(&mut self, amps: usize, now: i64)
        ensures
            final(self)@ == (CarHandlerView {
                cache: spec_note_request(old(self)@.cache, amps, now),
                ..old(self)@
            }),
    {
        self.last_state.note_request(amps, now);
    }

    /// Records the home's consumption measured at `now`, together with the
    /// vehicle's own draw at that time, all in milliamps. The ten newest
    /// samples are kept.
    pub fn set_current_home_consumption(
        &mut self,
        avg_milliamps: u64,
        max_milliamps: u64,
        car_milliamps: u64,
        now: i64,
    )
        ensures
            final(self)@ == (CarHandlerView {
                samples: spec_record(
                    old(self)@.samples,
                    HomeState { avg_milliamps, max_milliamps, car_milliamps, timestamp: now },
                ),
                ..old(self)@
            }),
            final(self)@.samples.len() <= HOME_STATE_CAPACITY,
            final(self)@.samples.len() > 0,
    {
        self.home_state.record(
            HomeState { avg_milliamps, max_milliamps, car_milliamps, timestamp: now },
        );
    }

    /// Records the home's consumption measured at `now` and decides on it
    /// at once: [`CarHandler::set_current_home_consumption`] followed by
    /// [`CarHandler::throttled_calculate_amps`], which then always has a
    /// sample to go by.
    pub fn throttle_on_sample(
        &mut self,
        avg_milliamps: u64,
        max_milliamps: u64,
        car_milliamps: u64,
        now: i64,
    ) -> (decision: ThrottleDecision)
        ensures
            final(self)@ == (CarHandlerView {
                samples: spec_record(
                    old(self)@.samples,
                    HomeState { avg_milliamps, max_milliamps, car_milliamps, timestamp: now },
                ),
                ..old(self)@
            }),
            final(self)@.throttle(now) == Some(decision),
    {
        let sample = HomeState { avg_milliamps, max_milliamps, car_milliamps, timestamp: now };
        self.home_state.record(sample);
        let (last_amps_requested, last_amps_requested_time): (usize, i64) =
            self.last_state.bookkeeping();
        let amps_to_request: usize = candidate_amps(
            self.config.max_milliamps,
            sample.load_excluding_vehicle(),
            self.config.max_amps_car,
        );
        decide(amps_to_request, last_amps_requested, elapsed_secs(now, last_amps_requested_time))
    }

    /// Decides at `now` what to request of the vehicle, from the budgets, the
    /// newest home sample and the bookkeeping. `None` while no home sample
    /// has been recorded. Nothing is changed: after a request that the
    /// decision asked for has been made, [`CarHandler::set_amps`] records it.
    pub fn throttled_calculate_amps(&self, now: i64) -> (decision: Option<ThrottleDecision>)
        ensures
            decision == self@.throttle(now),
            decision is None <==> self@.samples.len() == 0,
    {
        let (last_amps_requested, last_amps_requested_time): (usize, i64) =
            self.last_state.bookkeeping();
        match self.home_state.load_excluding_vehicle() {
            None => None,
            Some(home_without_car) => {
                let amps_to_request: usize = candidate_amps(
                    self.config.max_milliamps,
                    home_without_car,
                    self.config.max_amps_car,
                );
                Some(
                    decide(
                        amps_to_request,
                        last_amps_requested,
                        elapsed_secs(now, last_amps_requested_time),
                    ),
                )
            },
        }
    }
}

} // verus!
