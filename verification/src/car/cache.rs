//! The vehicle-state cache: one snapshot of the vehicle, served for half a
//! minute, with the bookkeeping of what this controller last requested.
//!
//! The cache stands in front of a remote API that is slow and is not to be
//! hammered. It performs no call itself: where it has nothing to serve it
//! says so, and the snapshot that the caller fetched is handed to
//! [`VehicleStateCache::refresh`].

use vstd::prelude::*;
use super::throttle::{spec_decide, THROTTLE_WINDOW_SECS};
use super::VehicleSnapshot;

verus! {

/// Seconds for which a cached snapshot is served without asking the vehicle
/// again.
pub const STATE_CACHE_TTL_SECS: i64 = 30;

/// A cached snapshot, when it was fetched, and what this controller last
/// requested of the vehicle and when.
#[derive(Clone, Copy, Debug, PartialEq, Eq, Structural)]
pub struct CarStateWrapper {
    /// The snapshot as fetched.
    pub state: VehicleSnapshot,
    /// When the snapshot was fetched; the epoch once it has been invalidated.
    pub last_update: i64,
    /// The current last requested, in amps, as this controller knows it.
    pub last_amps_requested: usize,
    /// When that current was requested.
    pub last_amps_requested_time: i64,
}

impl CarStateWrapper {
    /// Whether the snapshot may still be served at `now`: its age is under
    /// [`STATE_CACHE_TTL_SECS`].
    pub open spec fn is_fresh(self, now: int) -> bool {
        now - self.last_update < STATE_CACHE_TTL_SECS
    }
}

/// The bookkeeping of a cache entry, or of a controller that has none yet: a
/// request of zero amps at the epoch.
pub open spec fn bookkeeping(entry: Option<CarStateWrapper>) -> (usize, i64) {
    match entry {
        Some(e) => (e.last_amps_requested, e.last_amps_requested_time),
        None => (0, 0),
    }
}

/// The cache entry after a snapshot fetched at `now` has replaced `entry`.
///
/// Where the vehicle reports another requested current than the bookkeeping
/// holds, someone else has changed it: the vehicle's value is adopted and its
/// time is set a full throttle window back, so that the next decision is not
/// held up by it.
pub open spec fn spec_refresh(entry: Option<CarStateWrapper>, state: VehicleSnapshot, now: i64)
    -> CarStateWrapper {
    let (amps, time) = bookkeeping(entry);
    if amps != state.last_requested_amps {
        CarStateWrapper {
            state,
            last_update: now,
            last_amps_requested: state.last_requested_amps,
            last_amps_requested_time: (now - THROTTLE_WINDOW_SECS) as i64,
        }
    } else {
        CarStateWrapper {
            state,
            last_update: now,
            last_amps_requested: amps,
            last_amps_requested_time: time,
        }
    }
}

/// The snapshot that the cache serves at `now`, if it serves one.
pub open spec fn spec_cached(entry: Option<CarStateWrapper>, now: i64) -> Option<VehicleSnapshot> {
    match entry {
        Some(e) => if e.is_fresh(now as int) {
            Some(e.state)
        } else {
            None
        },
        None => None,
    }
}

/// The cache entry after it has been invalidated: its fetch time is reset to
/// the epoch, everything else stays.
pub open spec fn spec_invalidate(entry: Option<CarStateWrapper>) -> Option<CarStateWrapper> {
    match entry {
        Some(e) => Some(CarStateWrapper { last_update: 0, ..e }),
        None => None,
    }
}

/// The cache entry after a request for `amps` has been made at `now`.
pub open spec fn spec_note_request(entry: Option<CarStateWrapper>, amps: usize, now: i64) -> Option<
    CarStateWrapper,
> {
    match entry {
        Some(e) => Some(
            CarStateWrapper { last_amps_requested: amps, last_amps_requested_time: now, ..e },
        ),
        None => None,
    }
}

/// The cache of one controller.
pub struct VehicleStateCache {
    entry: Option<CarStateWrapper>,
}

impl View for VehicleStateCache {
    type V = Option<CarStateWrapper>;

    closed spec fn view(&self) -> Option<CarStateWrapper> {
        self.entry
    }
}

impl VehicleStateCache {
    /// An empty cache: the vehicle is unknown, and the first read asks for a
    /// snapshot.
    pub fn new() -> (cache: Self)
        ensures
            cache@ is None,
    {
        VehicleStateCache { entry: None }
    }

    /// The entry as it stands, fresh or not.
    pub fn entry(&self) -> (entry: Option<CarStateWrapper>)
        ensures
            entry == self@,
    {
        self.entry
    }

    /// The current last requested and the time of that request; zero amps
    /// at the epoch while there is no entry.
    pub fn bookkeeping(&self) -> (kept: (usize, i64))
        ensures
            kept == bookkeeping(self@),
    {
        match self.entry {
            Some(e) => (e.last_amps_requested, e.last_amps_requested_time),
            None => (0, 0),
        }
    }

    /// The cached snapshot if it may be served at `now`. `None` says that a
    /// fresh snapshot has to be fetched: there is no entry yet, or its age is
    /// [`STATE_CACHE_TTL_SECS`] or more.
    pub fn get_state(&self, now: i64) -> (state: Option<VehicleSnapshot>)
        ensures
            state == spec_cached(self@, now),
            state is None <==> (self@ is None || now - self@->0.last_update
                >= STATE_CACHE_TTL_SECS),
            state is Some ==> state->0 == self@->0.state,
    {
        match self.entry {
            Some(e) => {
                if (now as i128) - (e.last_update as i128) < STATE_CACHE_TTL_SECS as i128 {
                    Some(e.state)
                } else {
                    None
                }
            },
            None => None,
        }
    }

    /// Stores a snapshot that was fetched from the vehicle at `now`, and
    /// returns it.
    ///
    /// Where the snapshot's requested current differs from the bookkeeping,
    /// the vehicle's value replaces it and its time is set to `now` less
    /// [`THROTTLE_WINDOW_SECS`].
    pub fn refresh(&mut self, state: VehicleSnapshot, now: i64) -> (stored: VehicleSnapshot)
        requires
            now - THROTTLE_WINDOW_SECS >= i64::MIN,
        ensures
            stored == state,
            final(self)@ == Some(spec_refresh(old(self)@, state, now)),
            spec_cached(final(self)@, now) == Some(state),
            bookkeeping(old(self)@).0 != state.last_requested_amps ==> bookkeeping(final(self)@) == (
                state.last_requested_amps,
                (now - THROTTLE_WINDOW_SECS) as i64,
            ),
            bookkeeping(old(self)@).0 == state.last_requested_amps ==> bookkeeping(final(self)@)
                == bookkeeping(old(self)@),
    {
        let (mut last_amps_requested, mut last_amps_requested_time): (usize, i64) =
            self.bookkeeping();
        if last_amps_requested != state.last_requested_amps {
            last_amps_requested = state.last_requested_amps;
            last_amps_requested_time = now - THROTTLE_WINDOW_SECS;
        }
        self.entry = Some(
            CarStateWrapper {
                state,
                last_update: now,
                last_amps_requested,
                last_amps_requested_time,
            },
        );
        state
    }

    /// Makes the next [`VehicleStateCache::get_state`] ask for a fresh
    /// snapshot, by resetting the entry's fetch time to the epoch.
    pub fn invalidate(&mut self)
        ensures
            final(self)@ == spec_invalidate(old(self)@),
    {
        match self.entry {
            Some(e) => {
                self.entry = Some(CarStateWrapper { last_update: 0, ..e });
            },
            None => {},
        }
    }

    /// Whether the vehicle is at the charger, by the cached snapshot; `None`
    /// where a fresh snapshot has to be fetched first.
    pub fn is_nearby(&self, now: i64) -> (nearby: Option<bool>)
        ensures
            nearby == match spec_cached(self@, now) {
                Some(s) => Some(s.distance_to_charger_metres < super::NEARBY_LIMIT_METRES),
                None => None,
            },
    {
        match self.get_state(now) {
            Some(s) => Some(s.is_nearby()),
            None => None,
        }
    }

    /// Whether the vehicle is charging, by the cached snapshot; `None` where
    /// a fresh snapshot has to be fetched first.
    ///
    /// A snapshot taken while the charge state was mid-change is served this
    /// once and then invalidated, so that the next read is fresh.
    pub fn is_charging(&mut self, now: i64) -> (charging: Option<bool>)
        ensures
            charging == match spec_cached(old(self)@, now) {
                Some(s) => Some(s.charging),
                None => None,
            },
            final(self)@ == match spec_cached(old(self)@, now) {
                Some(s) => if s.transitioning {
                    spec_invalidate(old(self)@)
                } else {
                    old(self)@
                },
                None => old(self)@,
            },
    {
        match self.get_state(now) {
            Some(s) => {
                if s.transitioning {
                    self.invalidate();
                }
                Some(s.charging)
            },
            None => None,
        }
    }

    /// Records that the vehicle has been asked for `amps` at `now`. An empty
    /// cache has nowhere to keep it and stays empty.
    pub fn note_request(&mut self, amps: usize, now: i64)
        ensures
            final(self)@ == spec_note_request(old(self)@, amps, now),
    {
        match self.entry {
            Some(e) => {
                self.entry = Some(
                    CarStateWrapper {
                        last_amps_requested: amps,
                        last_amps_requested_time: now,
                        ..e
                    },
                );
            },
            None => {},
        }
    }
}

/// An invalidated cache serves nothing: at any time from thirty seconds
/// after the epoch on, the next [`VehicleStateCache::get_state`] asks for a fresh
/// snapshot, whatever the entry held and however recently it was fetched.
pub proof fn lemma_invalidated_cache_is_stale(entry: Option<CarStateWrapper>, now: i64)
    requires
        now >= STATE_CACHE_TTL_SECS,
    ensures
        spec_cached(spec_invalidate(entry), now) is None,
{
}

/// After a snapshot was stored at `fetched_at`, a read at `now` needs a
/// fresh one if and only if thirty seconds or more have passed since, or
/// the cache was invalidated in between; otherwise the stored snapshot is
/// served. For an invalidated cache this holds of every `now` from thirty
/// seconds after the epoch on.
pub proof fn lemma_fetch_iff_expired_or_invalidated(
    entry: Option<CarStateWrapper>,
    state: VehicleSnapshot,
    fetched_at: i64,
    invalidated: bool,
    now: i64,
)
    requires
        invalidated ==> now >= STATE_CACHE_TTL_SECS,
    ensures
        ({
            let stored = Some(spec_refresh(entry, state, fetched_at));
            let read = if invalidated {
                spec_invalidate(stored)
            } else {
                stored
            };
            &&& spec_cached(read, now) is None <==> invalidated || now - fetched_at
                >= STATE_CACHE_TTL_SECS
            &&& spec_cached(read, now) is Some ==> spec_cached(read, now) == Some(state)
        }),
{
}

/// Where the vehicle reports another requested current than the bookkeeping
/// holds, a refresh adopts the vehicle's value and dates it thirty seconds
/// back; from then on no decision is held up by the throttle window: any
/// candidate that differs from the adopted value is requested at once.
pub proof fn lemma_adopted_request_is_not_throttled(
    entry: Option<CarStateWrapper>,
    state: VehicleSnapshot,
    now: i64,
    later: i64,
    candidate: usize,
)
    requires
        now - THROTTLE_WINDOW_SECS >= i64::MIN,
        bookkeeping(entry).0 != state.last_requested_amps,
        later >= now,
    ensures
        bookkeeping(Some(spec_refresh(entry, state, now))) == (
            state.last_requested_amps,
            (now - THROTTLE_WINDOW_SECS) as i64,
        ),
        candidate != state.last_requested_amps ==> spec_decide(
            candidate,
            bookkeeping(Some(spec_refresh(entry, state, now))).0,
            later - bookkeeping(Some(spec_refresh(entry, state, now))).1,
        ).actuates(),
{
}

} // verus!
