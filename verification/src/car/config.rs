//! The settings of a controller: the charger's position and the two
//! ceilings.
//!
//! The position is written as `"lat,lon"` in decimal degrees. This module
//! finds the two halves; reading them as numbers, and measuring the
//! vehicle's distance to the charger from them, is left to the embedding
//! program, which hands the distance in with every snapshot.

use vstd::prelude::*;
use vstd::string::{StrSliceExecFns, StringExecFns};
use super::task::CarHandlerConfig;

verus! {

/// Whether `text` holds a comma at `at` and nowhere else.
pub open spec fn spec_single_comma(text: Seq<char>, at: int) -> bool {
    &&& 0 <= at < text.len()
    &&& text[at] == ','
    &&& forall|j: int| 0 <= j < text.len() && j != at ==> text[j] != ','
}

/// Splits a position written as `"lat,lon"` into the text of the latitude
/// and the text of the longitude. `None` where the text does not hold
/// exactly one comma.
pub fn split_lat_lon(value: &str) -> (parts: Option<(String, String)>)
    ensures
        match parts {
            Some((lat, lon)) => exists|at: int|
                #![trigger spec_single_comma(value@, at)]
                {
                    &&& spec_single_comma(value@, at)
                    &&& lat@ == value@.subrange(0, at)
                    &&& lon@ == value@.subrange(at + 1, value@.len() as int)
                },
            None => forall|at: int| !spec_single_comma(value@, at),
        },
{
    let n: usize = value.unicode_len();
    let mut comma: Option<usize> = None;
    let mut i: usize = 0;
    while i < n
        invariant
            0 <= i <= n,
            n == value@.len(),
            match comma {
                Some(at) => at < i && value@[at as int] == ',' && forall|j: int|
                    0 <= j < i && j != at ==> value@[j] != ',',
                None => forall|j: int| 0 <= j < i ==> value@[j] != ',',
            },
        decreases n - i,
    {
        if value.get_char(i) == ',' {
            match comma {
                Some(at) => {
                    assert forall|k: int| !spec_single_comma(value@, k) by {}
                    return None;
                },
                None => {
                    comma = Some(i);
                },
            }
        }
        i = i + 1;
    }
    match comma {
        Some(at) => {
            let lat: String = String::from_str(value.substring_char(0, at));
            let lon: String = String::from_str(value.substring_char(at + 1, n));
            assert(spec_single_comma(value@, at as int));
            Some((lat, lon))
        },
        None => None,
    }
}

/// The text of an optional string slice.
pub open spec fn spec_str_text(s: Option<&str>) -> Option<Seq<char>> {
    match s {
        Some(s) => Some(s@),
        None => None,
    }
}

/// Why a controller cannot be set up from the settings at hand.
#[derive(Clone, Copy, Debug, PartialEq, Eq, Structural)]
pub enum ConfigurationError {
    /// The charger's position is not set.
    MissingChargerLocation,
    /// The charger's position is not of the form `"lat,lon"`.
    InvalidChargerLocation,
    /// The ceiling for the whole home is not set.
    MissingMaxAmps,
    /// The ceiling for the vehicle is not set.
    MissingMaxAmpsCar,
}

impl ConfigurationError {
    /// The fault in words.
    pub open spec fn spec_message(self) -> Seq<char> {
        match self {
            ConfigurationError::MissingChargerLocation => "Missing charger location"@,
            ConfigurationError::InvalidChargerLocation => "Invalid charger location"@,
            ConfigurationError::MissingMaxAmps => "Missing max amps"@,
            ConfigurationError::MissingMaxAmpsCar => "Missing max amps car"@,
        }
    }

    /// The fault in words, for the message with which a program gives up.
    pub fn message(&self) -> (words: &'static str)
        ensures
            words@ == self.spec_message(),
    {
        match self {
            ConfigurationError::MissingChargerLocation => "Missing charger location",
            ConfigurationError::InvalidChargerLocation => "Invalid charger location",
            ConfigurationError::MissingMaxAmps => "Missing max amps",
            ConfigurationError::MissingMaxAmpsCar => "Missing max amps car",
        }
    }
}

/// Settings that are complete: the budgets, and the two halves of the
/// charger's position as they were written.
pub struct CarSettings {
    /// The budgets.
    pub config: CarHandlerConfig,
    /// The text of the charger's latitude.
    pub latitude: String,
    /// The text of the charger's longitude.
    pub longitude: String,
}

/// The first fault of the settings, in the order position, home ceiling,
/// vehicle ceiling; `None` where they are complete.
pub open spec fn spec_settings_error(
    charger_location: Option<Seq<char>>,
    max_milliamps: Option<u64>,
    max_amps_car: Option<usize>,
) -> Option<ConfigurationError> {
    if charger_location is None {
        Some(ConfigurationError::MissingChargerLocation)
    } else if !exists|at: int| spec_single_comma(charger_location->0, at) {
        Some(ConfigurationError::InvalidChargerLocation)
    } else if max_milliamps is None {
        Some(ConfigurationError::MissingMaxAmps)
    } else if max_amps_car is None {
        Some(ConfigurationError::MissingMaxAmpsCar)
    } else {
        None
    }
}

/// Checks that nothing is missing from the settings of a controller: the
/// charger's position as `"lat,lon"`, the ceiling for the whole home in
/// milliamps, and the ceiling for the vehicle in amps. No controller is to
/// be made from settings that fail this check.
pub fn check_settings(
    charger_location: Option<&str>,
    max_milliamps: Option<u64>,
    max_amps_car: Option<usize>,
) -> (settings: Result<CarSettings, ConfigurationError>)
    ensures
        match settings {
            Ok(found) => {
                &&& spec_settings_error(spec_str_text(charger_location), max_milliamps, max_amps_car)
                    is None
                &&& found.config == (CarHandlerConfig {
                    max_milliamps: max_milliamps->0,
                    max_amps_car: max_amps_car->0,
                })
                &&& exists|at: int|
                    #![trigger spec_single_comma(charger_location->0@, at)]
                    {
                        &&& spec_single_comma(charger_location->0@, at)
                        &&& found.latitude@ == charger_location->0@.subrange(0, at)
                        &&& found.longitude@ == charger_location->0@.subrange(
                            at + 1,
                            charger_location->0@.len() as int,
                        )
                    }
            },
            Err(error) => spec_settings_error(
                spec_str_text(charger_location),
                max_milliamps,
                max_amps_car,
            ) == Some(error),
        },
{
    let text: &str = match charger_location {
        Some(text) => text,
        None => {
            return Err(ConfigurationError::MissingChargerLocation);
        },
    };
    let (latitude, longitude): (String, String) = match split_lat_lon(text) {
        Some(parts) => parts,
        None => {
            return Err(ConfigurationError::InvalidChargerLocation);
        },
    };
    proof {
        let at = choose|at: int|
            #![trigger spec_single_comma(text@, at)]
            spec_single_comma(text@, at) && latitude@ == text@.subrange(0, at) && longitude@
                == text@.subrange(at + 1, text@.len() as int);
        assert(spec_single_comma(spec_str_text(charger_location)->0, at));
    }
    let max_milliamps: u64 = match max_milliamps {
        Some(amps) => amps,
        None => {
            return Err(ConfigurationError::MissingMaxAmps);
        },
    };
    let max_amps_car: usize = match max_amps_car {
        Some(amps) => amps,
        None => {
            return Err(ConfigurationError::MissingMaxAmpsCar);
        },
    };
    Ok(CarSettings { config: CarHandlerConfig { max_milliamps, max_amps_car }, latitude, longitude })
}

} // verus!
