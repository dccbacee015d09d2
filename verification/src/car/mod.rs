//! The charge-budget controller.
//!
//! - [`throttle`] decides what to request of the vehicle and when.
//! - [`cache`] serves the vehicle's state without asking the vehicle each
//!   time, and keeps the bookkeeping of the last request.
//! - [`home`] keeps the home's recent consumption.
//! - [`task`] is the controller that holds the two and the budgets.
//! - [`fairing`] runs one check-and-throttle cycle at a time over that state.
//! - [`scheduler`] paces a background loop of cycles by where the vehicle is.
//! - [`config`] checks the settings that a controller is made from.
//! - [`tessie`] is the one vehicle platform so far.
//!
//! This module itself holds what all of them share: the snapshot of the
//! vehicle and the ways in which a call to the vehicle API fails.

use vstd::prelude::*;

pub mod cache;
pub mod config;
pub mod fairing;
pub mod home;
pub mod scheduler;
pub mod task;
pub mod tessie;
pub mod throttle;

verus! {

/// A vehicle closer to the charger than this many metres counts as being at
/// the charger.
pub const NEARBY_LIMIT_METRES: u64 = 100;

/// What the remote vehicle API reported at one moment.
#[derive(Clone, Copy, Debug, PartialEq, Eq, Structural)]
pub struct VehicleSnapshot {
    /// The vehicle is charging, or about to.
    pub charging: bool,
    /// The charge state is mid-change (starting or pending), so the reading
    /// of the current is not yet representative.
    pub transitioning: bool,
    /// The current the vehicle draws, in milliamps.
    pub current_milliamps: u64,
    /// The current last requested of the vehicle, in amps, as the vehicle
    /// itself reports it.
    pub last_requested_amps: usize,
    /// Great-circle distance from the vehicle to the charger, in whole
    /// metres, rounded down.
    pub distance_to_charger_metres: u64,
}

impl VehicleSnapshot {
    /// Whether the vehicle is at the charger: strictly closer than
    /// [`NEARBY_LIMIT_METRES`].
    pub open spec fn spec_is_nearby(&self) -> bool {
        self.distance_to_charger_metres < NEARBY_LIMIT_METRES
    }

    /// Whether the vehicle is at the charger.
    #[verifier::when_used_as_spec(spec_is_nearby)]
    pub fn is_nearby(&self) -> (nearby: bool)
        ensures
            nearby == self.spec_is_nearby(),
            nearby <==> self.distance_to_charger_metres < 100,
    {
        self.distance_to_charger_metres < NEARBY_LIMIT_METRES
    }
}

/// Why a call to the remote vehicle API failed.
#[derive(Clone, Copy, Debug, PartialEq, Eq, Structural)]
pub enum RemoteApiError {
    /// The request did not reach the API, or no answer came back.
    Network,
    /// The API answered with a status other than success.
    Status(u16),
    /// The answer could not be decoded.
    Malformed,
}

/// Reads the status of an answer from the vehicle API: any status outside
/// the range 200 to 299 is a failure.
pub fn check_status(status: u16) -> (r: Result<(), RemoteApiError>)
    ensures
        r is Ok <==> 200 <= status <= 299,
        r is Err ==> r == Err::<(), RemoteApiError>(RemoteApiError::Status(status)),
{
    if 200 <= status && status <= 299 {
        Ok(())
    } else {
        Err(RemoteApiError::Status(status))
    }
}

} // verus!
