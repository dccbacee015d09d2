//! Requests to the Tessie API and the parts of its answers that the
//! controller reads.

use vstd::prelude::*;
use vstd::string::{StringExecFns, StringSliceAdditionalSpecFns};
use vstd::utf8::encode_utf8;
use crate::car::VehicleSnapshot;
use crate::text::{decimal, spec_decimal};

verus! {

/// The vehicle's charging state as Tessie reports it.
#[derive(Clone, Copy, Debug, PartialEq, Eq, Structural)]
pub enum ChargingState {
    Complete,
    Charging,
    Disconnected,
    Pending,
    Starting,
    Stopped,
}

impl ChargingState {
    /// Whether the vehicle charges or is about to: charging, starting or
    /// pending.
    pub open spec fn spec_is_charging(self) -> bool {
        self == ChargingState::Charging || self == ChargingState::Starting || self
            == ChargingState::Pending
    }

    /// Whether the charge is about to begin: starting or pending. The
    /// current reported in this state is still ramping up.
    pub open spec fn spec_is_charge_starting(self) -> bool {
        self == ChargingState::Starting || self == ChargingState::Pending
    }

    /// Whether the vehicle charges or is about to.
    #[verifier::when_used_as_spec(spec_is_charging)]
    pub fn is_charging(self) -> (b: bool)
        ensures
            b == self.spec_is_charging(),
    {
        match self {
            ChargingState::Charging | ChargingState::Starting | ChargingState::Pending => true,
            _ => false,
        }
    }

    /// Whether the charge is about to begin.
    #[verifier::when_used_as_spec(spec_is_charge_starting)]
    pub fn is_charge_starting(self) -> (b: bool)
        ensures
            b == self.spec_is_charge_starting(),
    {
        match self {
            ChargingState::Starting | ChargingState::Pending => true,
            _ => false,
        }
    }
}

/// The state of the charge port's latch as Tessie reports it.
#[derive(Clone, Debug, PartialEq, Eq)]
pub enum ChargePortLatch {
    Engaged,
    Disengaged,
    /// Any other value, kept as it came.
    Unknown(String),
}

/// Whether the vehicle is awake, as Tessie reports it.
#[derive(Clone, Copy, Debug, PartialEq, Eq, Structural)]
pub enum TessieCarWakeState {
    Asleep,
    WaitingForSleep,
    Online,
}

/// Tessie's answer to a request for a new charging current.
#[derive(Clone, Copy, Debug, PartialEq, Eq, Structural)]
pub struct SetChargingAmpsResult {
    /// Whether the vehicle accepted the command.
    pub result: bool,
    /// Whether the vehicle had to be woken for it. Absent from the answer,
    /// and then false, where it was awake.
    pub woke: bool,
}

/// What the controller reads of the vehicle's state as Tessie reports it.
#[derive(Clone, Copy, Debug, PartialEq, Eq, Structural)]
pub struct TessieCarState {
    /// The charging state.
    pub charging_state: ChargingState,
    /// The current that the vehicle draws, in milliamps.
    pub charge_milliamps: u64,
    /// The current last requested of the vehicle, in amps.
    pub charge_current_request: usize,
    /// The distance from the vehicle's position to the charger, in metres.
    pub distance_to_charger_metres: u64,
}

impl TessieCarState {
    /// The state in the form that the controller works on.
    pub open spec fn spec_snapshot(&self) -> VehicleSnapshot {
        VehicleSnapshot {
            charging: self.charging_state.spec_is_charging(),
            transitioning: self.charging_state.spec_is_charge_starting(),
            current_milliamps: self.charge_milliamps,
            last_requested_amps: self.charge_current_request,
            distance_to_charger_metres: self.distance_to_charger_metres,
        }
    }

    /// Whether the vehicle charges or is about to.
    pub fn is_charging(&self) -> (b: bool)
        ensures
            b == self.spec_snapshot().charging,
    {
        self.charging_state.is_charging()
    }

    /// Whether the charge is about to begin, so that the state should be
    /// read again soon.
    pub fn is_charge_starting(&self) -> (b: bool)
        ensures
            b == self.spec_snapshot().transitioning,
    {
        self.charging_state.is_charge_starting()
    }

    /// The current that the vehicle draws, in milliamps.
    pub fn get_current_charge(&self) -> (milliamps: u64)
        ensures
            milliamps == self.spec_snapshot().current_milliamps,
    {
        self.charge_milliamps
    }

    /// The current last requested of the vehicle, in amps.
    pub fn get_last_requested_amps(&self) -> (amps: usize)
        ensures
            amps == self.spec_snapshot().last_requested_amps,
    {
        self.charge_current_request
    }

    /// The state in the form that the controller works on.
    #[verifier::when_used_as_spec(spec_snapshot)]
    pub fn snapshot(&self) -> (s: VehicleSnapshot)
        ensures
            s == self.spec_snapshot(),
    {
        VehicleSnapshot {
            charging: self.is_charging(),
            transitioning: self.is_charge_starting(),
            current_milliamps: self.get_current_charge(),
            last_requested_amps: self.get_last_requested_amps(),
            distance_to_charger_metres: self.distance_to_charger_metres,
        }
    }
}

/// The method of a request.
#[derive(Clone, Copy, Debug, PartialEq, Eq, Structural)]
pub enum HttpMethod {
    Get,
    Post,
    Put,
    Delete,
}

/// One header line of a request.
#[derive(Clone, Debug, PartialEq, Eq)]
pub struct Header {
    pub name: String,
    pub value: String,
}

impl View for Header {
    type V = (Seq<char>, Seq<char>);

    open spec fn view(&self) -> (Seq<char>, Seq<char>) {
        (self.name@, self.value@)
    }
}

/// A request to the API, ready to be sent.
#[derive(Debug, PartialEq, Eq)]
pub struct ApiRequest {
    pub method: HttpMethod,
    pub url: String,
    /// The header lines, in the order in which they are to be set.
    pub headers: Vec<Header>,
    pub body: Option<String>,
}

/// An [`ApiRequest`] as plain values.
pub struct ApiRequestView {
    pub method: HttpMethod,
    pub url: Seq<char>,
    pub headers: Seq<(Seq<char>, Seq<char>)>,
    pub body: Option<Seq<char>>,
}

/// The text of an optional string.
pub open spec fn spec_text(s: Option<String>) -> Option<Seq<char>> {
    match s {
        Some(s) => Some(s@),
        None => None,
    }
}

impl View for ApiRequest {
    type V = ApiRequestView;

    open spec fn view(&self) -> ApiRequestView {
        ApiRequestView {
            method: self.method,
            url: self.url@,
            headers: self.headers@.map_values(|h: Header| h@),
            body: spec_text(self.body),
        }
    }
}

/// The request with the headers and the body that its method calls for.
///
/// A `POST` always states the length of its body, with a length of zero
/// where it has none: some servers, Tessie's among them, refuse a `POST`
/// without it. Its content is declared as JSON. Requests of other methods
/// stay as they are and carry no body.
pub open spec fn spec_fix_optional_body(
    request: ApiRequestView,
    method: HttpMethod,
    body: Option<Seq<char>>,
) -> ApiRequestView {
    match method {
        HttpMethod::Post => match body {
            Some(b) => ApiRequestView {
                headers: request.headers.push(
                    ("content-length"@, spec_decimal(encode_utf8(b).len())),
                ).push(("content-type"@, "application/json"@)),
                body: Some(b),
                ..request
            },
            None => ApiRequestView {
                headers: request.headers.push(("content-length"@, "0"@)).push(
                    ("content-type"@, "application/json"@),
                ),
                ..request
            },
        },
        _ => request,
    }
}

/// The request that the handler for the vehicle `vin` sends to `endpoint`,
/// authorised by `token`.
pub open spec fn spec_request(
    vin: Seq<char>,
    token: Seq<char>,
    endpoint: Seq<char>,
    method: HttpMethod,
    body: Option<Seq<char>>,
) -> ApiRequestView {
    spec_fix_optional_body(
        ApiRequestView {
            method,
            url: "https://api.tessie.com/"@ + vin + "/"@ + endpoint,
            headers: seq![
                ("authorization"@, "Bearer "@ + token),
                ("accept"@, "application/json"@),
            ],
            body: None,
        },
        method,
        body,
    )
}

fn header(name: &str, value: String) -> (h: Header)
    ensures
        h@ == (name@, value@),
{
    Header { name: String::from_str(name), value }
}

/// Completes `request` with the headers and the body that `method` calls
/// for.
pub fn fix_optional_body(request: ApiRequest, method: HttpMethod, body: Option<String>) -> (fixed:
    ApiRequest)
    ensures
        fixed@ == spec_fix_optional_body(request@, method, spec_text(body)),
{
    match method {
        HttpMethod::Post => {
            let mut fixed = request;
            let ghost before = fixed.headers@;
            let length: String = match &body {
                Some(b) => decimal(b.as_str().as_bytes().len()),
                None => String::from_str("0"),
            };
            let length_header = header("content-length", length);
            let type_header = header("content-type", String::from_str("application/json"));
            fixed.headers.push(length_header);
            fixed.headers.push(type_header);
            assert(fixed.headers@.map_values(|h: Header| h@) =~= before.map_values(
                |h: Header| h@,
            ).push(length_header@).push(type_header@));
            if body.is_some() {
                fixed.body = body;
            }
            fixed
        },
        _ => request,
    }
}

/// The handler for one vehicle behind the Tessie API.
pub struct TessieAPIHandler {
    vin: String,
    token: String,
}

impl TessieAPIHandler {
    /// The vehicle's identification number.
    pub closed spec fn vin(&self) -> Seq<char> {
        self.vin@
    }

    /// The API token.
    pub closed spec fn token(&self) -> Seq<char> {
        self.token@
    }

    /// A handler for the vehicle `vin`, authorised by `token`.
    pub fn new(vin: String, token: String) -> (handler: Self)
        ensures
            handler.vin() == vin@,
            handler.token() == token@,
    {
        Self { vin, token }
    }

    /// The request to `endpoint` of this vehicle.
    pub fn request(&self, endpoint: &str, method: HttpMethod, body: Option<String>) -> (request:
        ApiRequest)
        ensures
            request@ == spec_request(self.vin(), self.token(), endpoint@, method, spec_text(body)),
    {
        let mut url: String = String::from_str("https://api.tessie.com/");
        url.append(self.vin.as_str());
        url.append("/");
        url.append(endpoint);
        let mut bearer: String = String::from_str("Bearer ");
        bearer.append(self.token.as_str());
        let mut headers: Vec<Header> = Vec::new();
        let authorization = header("authorization", bearer);
        let accept = header("accept", String::from_str("application/json"));
        headers.push(authorization);
        headers.push(accept);
        assert(headers@.map_values(|h: Header| h@) =~= seq![authorization@, accept@]);
        fix_optional_body(ApiRequest { method, url, headers, body: None }, method, body)
    }

    /// The request for the vehicle's state.
    pub fn get_state(&self) -> (request: ApiRequest)
        ensures
            request@ == spec_request(self.vin(), self.token(), "state"@, HttpMethod::Get, None),
            request@.method == HttpMethod::Get,
            request@.url == "https://api.tessie.com/"@ + self.vin() + "/"@ + "state"@,
            request@.body is None,
    {
        self.request("state", HttpMethod::Get, None)
    }

    /// The request that sets the vehicle's charging current to `amps` and
    /// waits until the vehicle has taken it.
    pub fn set_charging_amps(&self, amps: usize) -> (request: ApiRequest)
        ensures
            request@ == spec_request(
                self.vin(),
                self.token(),
                "command/set_charging_amps?wait_for_completion=true&amps="@ + spec_decimal(
                    amps as nat,
                ),
                HttpMethod::Post,
                None,
            ),
            request@.method == HttpMethod::Post,
            request@.body is None,
    {
        let mut endpoint: String = String::from_str(
            "command/set_charging_amps?wait_for_completion=true&amps=",
        );
        endpoint.append(decimal(amps).as_str());
        self.request(endpoint.as_str(), HttpMethod::Post, None)
    }
}

} // verus!
