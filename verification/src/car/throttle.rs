//! The throttle engine: from budgets and the present load to the current to
//! request, and whether to request it now.
//!
//! Lowering the current protects the electrical service and is never delayed.
//! Raising it is held back until a full throttle window has passed since the
//! previous request, so that a noisy load does not make the vehicle's charge
//! rate oscillate.
//!
//! This hysteresis is the only smoothing there is. The candidate is neither
//! averaged over past requests nor rounded towards them: a second filter of
//! that kind would work against the first.

use vstd::prelude::*;

verus! {

/// Seconds that must have passed since the previous request before the
/// current may be raised.
pub const THROTTLE_WINDOW_SECS: i64 = 30;

/// What the throttle engine decided. Every variant but `NoChange` carries the
/// candidate current in amps.
#[derive(Clone, Copy, Debug, PartialEq, Eq, Structural)]
pub enum ThrottleDecision {
    /// The candidate equals the current last requested.
    NoChange,
    /// Raise the current to the candidate now.
    Increase(usize),
    /// Lower the current to the candidate now.
    Decrease(usize),
    /// The candidate is higher, but the throttle window has not passed yet:
    /// nothing is to be requested.
    ThrottledIncrease(usize),
}

impl ThrottleDecision {
    /// Whether the decision asks for a request to the vehicle.
    pub open spec fn actuates(self) -> bool {
        self is Increase || self is Decrease
    }

    /// The current that was weighed, where there is one to report.
    pub open spec fn amps(self) -> Option<usize> {
        match self {
            ThrottleDecision::NoChange => None,
            ThrottleDecision::Increase(a) => Some(a),
            ThrottleDecision::Decrease(a) => Some(a),
            ThrottleDecision::ThrottledIncrease(a) => Some(a),
        }
    }

    /// The current to request from the vehicle, if the decision asks for a
    /// request.
    pub fn amps_to_request(&self) -> (r: Option<usize>)
        ensures
            r is Some <==> self.actuates(),
            self.actuates() ==> r == self.amps(),
    {
        match self {
            ThrottleDecision::Increase(a) => Some(*a),
            ThrottleDecision::Decrease(a) => Some(*a),
            _ => None,
        }
    }
}

/// `x` limited to the range from `lo` to `hi`.
pub open spec fn clamp(x: int, lo: int, hi: int) -> int {
    if x < lo {
        lo
    } else if x > hi {
        hi
    } else {
        x
    }
}

/// The candidate current in amps: 95 percent of the free budget, rounded down
/// to whole amps and limited to what the vehicle may draw. The other 5 percent
/// are a reserve against measurement lag and sensor noise. The budget and the
/// load are in milliamps, of which an amp has 1000.
pub open spec fn spec_candidate_amps(
    home_budget_milliamps: int,
    home_load_milliamps: int,
    vehicle_cap_amps: int,
) -> int {
    clamp(((home_budget_milliamps - home_load_milliamps) * 95) / 100_000, 0, vehicle_cap_amps)
}

/// The decision rule over a candidate, the current last requested and the
/// seconds since that request.
pub open spec fn spec_decide(
    candidate: usize,
    last_requested_amps: usize,
    seconds_since_last_request: int,
) -> ThrottleDecision {
    if candidate == last_requested_amps {
        ThrottleDecision::NoChange
    } else if candidate < last_requested_amps {
        ThrottleDecision::Decrease(candidate)
    } else if seconds_since_last_request >= THROTTLE_WINDOW_SECS {
        ThrottleDecision::Increase(candidate)
    } else {
        ThrottleDecision::ThrottledIncrease(candidate)
    }
}

/// Computes the candidate current in amps from the home's ceiling and the
/// home's load without the vehicle, both in milliamps, and the vehicle's own
/// ceiling in amps.
pub fn candidate_amps(
    home_budget_milliamps: u64,
    home_load_milliamps: u64,
    vehicle_cap_amps: usize,
) -> (candidate: usize)
    ensures
        candidate == spec_candidate_amps(
            home_budget_milliamps as int,
            home_load_milliamps as int,
            vehicle_cap_amps as int,
        ),
        candidate <= vehicle_cap_amps,
{
    if home_load_milliamps >= home_budget_milliamps {
        return 0;
    }
    let free: u128 = (home_budget_milliamps - home_load_milliamps) as u128;
    let offered: u128 = free * 95 / 100_000;
    if offered > vehicle_cap_amps as u128 {
        vehicle_cap_amps
    } else {
        offered as usize
    }
}

/// Applies the decision rule: an equal candidate changes nothing, a lower one
/// is applied at once, a higher one only when at least
/// [`THROTTLE_WINDOW_SECS`] seconds have passed since the previous request.
pub fn decide(candidate: usize, last_requested_amps: usize, seconds_since_last_request: i64) -> (d:
    ThrottleDecision)
    ensures
        d == spec_decide(candidate, last_requested_amps, seconds_since_last_request as int),
        candidate == last_requested_amps ==> d == ThrottleDecision::NoChange,
        candidate < last_requested_amps ==> d == ThrottleDecision::Decrease(candidate),
        candidate > last_requested_amps && seconds_since_last_request < THROTTLE_WINDOW_SECS ==> d
            == ThrottleDecision::ThrottledIncrease(candidate),
        candidate > last_requested_amps && seconds_since_last_request >= THROTTLE_WINDOW_SECS ==> d
            == ThrottleDecision::Increase(candidate),
{
    if candidate == last_requested_amps {
        ThrottleDecision::NoChange
    } else if candidate < last_requested_amps {
        ThrottleDecision::Decrease(candidate)
    } else if seconds_since_last_request >= THROTTLE_WINDOW_SECS {
        ThrottleDecision::Increase(candidate)
    } else {
        ThrottleDecision::ThrottledIncrease(candidate)
    }
}

/// The candidate never exceeds the vehicle's ceiling, and the home's load
/// with the vehicle drawing the candidate stays within the home's ceiling:
/// where the load alone is within it, load and candidate together are, too,
/// and where it is not, the candidate is zero.
pub proof fn lemma_candidate_respects_budgets(
    home_budget_milliamps: int,
    home_load_milliamps: int,
    vehicle_cap_amps: int,
)
    requires
        0 <= vehicle_cap_amps,
    ensures
        0 <= spec_candidate_amps(home_budget_milliamps, home_load_milliamps, vehicle_cap_amps)
            <= vehicle_cap_amps,
        home_load_milliamps <= home_budget_milliamps ==> home_load_milliamps + 1000
            * spec_candidate_amps(home_budget_milliamps, home_load_milliamps, vehicle_cap_amps)
            <= home_budget_milliamps,
        home_load_milliamps >= home_budget_milliamps ==> spec_candidate_amps(
            home_budget_milliamps,
            home_load_milliamps,
            vehicle_cap_amps,
        ) == 0,
{
}

/// A heavier load never raises the candidate.
pub proof fn lemma_candidate_falls_with_load(
    home_budget_milliamps: int,
    lighter_load_milliamps: int,
    heavier_load_milliamps: int,
    vehicle_cap_amps: int,
)
    requires
        0 <= vehicle_cap_amps,
        lighter_load_milliamps <= heavier_load_milliamps,
    ensures
        spec_candidate_amps(home_budget_milliamps, heavier_load_milliamps, vehicle_cap_amps)
            <= spec_candidate_amps(home_budget_milliamps, lighter_load_milliamps, vehicle_cap_amps),
{
}

/// The decision asks for a request exactly where the candidate is lower
/// than the current last requested, or higher with the throttle window
/// passed; and what it asks for is the candidate.
pub proof fn lemma_decision_requests_candidate(
    candidate: usize,
    last_requested_amps: usize,
    seconds_since_last_request: int,
)
    ensures
        spec_decide(candidate, last_requested_amps, seconds_since_last_request).actuates() <==> (
        candidate < last_requested_amps || (candidate > last_requested_amps
            && seconds_since_last_request >= THROTTLE_WINDOW_SECS)),
        spec_decide(candidate, last_requested_amps, seconds_since_last_request).actuates()
            ==> spec_decide(candidate, last_requested_amps, seconds_since_last_request).amps()
            == Some(candidate),
{
}

} // verus!
