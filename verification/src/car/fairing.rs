//! The orchestrator: one check-and-throttle cycle at a time, driven by
//! events.
//!
//! A cycle checks that the vehicle is at the charger and charging, records
//! the home's consumption, lets the throttle decide and, where the decision
//! asks for it, has the new current requested of the vehicle. The remote
//! work is not done here. Each step returns the action that the embedding
//! program has to perform, and the outcome of that action comes back as the
//! next event. A trigger that arrives while a cycle is under way is dropped.

use vstd::prelude::*;
use super::{RemoteApiError, VehicleSnapshot};
use super::cache::{bookkeeping, spec_cached, spec_invalidate, spec_note_request, spec_refresh};
use super::home::{spec_record, HomeState};
use super::task::{CarHandler, CarHandlerConfig, CarHandlerView};
use super::throttle::{spec_candidate_amps, spec_decide, ThrottleDecision, THROTTLE_WINDOW_SECS};
use crate::clock::unix_now;

verus! {

/// Where a cycle stands.
#[derive(Clone, Copy, Debug, PartialEq, Eq, Structural)]
pub enum CyclePhase {
    /// No cycle is under way.
    Idle,
    /// The cycle has asked for a fresh snapshot to learn where the vehicle
    /// is and whether it charges.
    AwaitingVehicleState,
    /// The cycle has asked for the home's consumption.
    AwaitingHomeConsumption,
    /// The cycle holds the home's consumption and has asked for a fresh
    /// snapshot to learn what the vehicle draws.
    AwaitingVehicleDraw { avg_milliamps: u64, max_milliamps: u64 },
    /// The cycle has asked for `amps` to be requested of the vehicle;
    /// `raising` tells an increase from a decrease.
    AwaitingActuation { amps: usize, raising: bool },
}

/// What happened outside.
#[derive(Clone, Copy, Debug, PartialEq, Eq)]
pub enum CycleEvent {
    /// A timer tick or the arrival of telemetry: the request to run a cycle.
    Trigger,
    /// The vehicle API answered a request for its state, or failed.
    VehicleState(Result<VehicleSnapshot, RemoteApiError>),
    /// The home's average and highest current over the last measurement
    /// window, in milliamps.
    HomeConsumption { avg_milliamps: u64, max_milliamps: u64 },
    /// The home's consumption could not be read.
    HomeConsumptionUnavailable,
    /// The vehicle API accepted the requested current, or failed.
    Actuation(Result<(), RemoteApiError>),
}

/// How a cycle ended.
#[derive(Clone, Copy, Debug, PartialEq, Eq, Structural)]
pub enum CycleOutcome {
    /// Another cycle was under way, so the trigger was dropped.
    ContentionSkip,
    /// The vehicle is not at the charger.
    NotNearby,
    /// The vehicle is at the charger but does not charge.
    NotCharging,
    /// The throttle decided. For an increase or a decrease the vehicle has
    /// accepted the new current.
    Decided(ThrottleDecision),
    /// The home's consumption could not be read; nothing was changed.
    NoHomeConsumption,
    /// A call to the vehicle API failed; the cycle was abandoned.
    Failed(RemoteApiError),
}

/// What the embedding program has to do next.
#[derive(Clone, Copy, Debug, PartialEq, Eq, Structural)]
pub enum CycleAction {
    /// Ask the vehicle API for the vehicle's state and hand the answer back
    /// as [`CycleEvent::VehicleState`].
    FetchVehicleState,
    /// Read the home's consumption and hand it back as
    /// [`CycleEvent::HomeConsumption`].
    QueryHomeConsumption,
    /// Request this current, in amps, of the vehicle and hand the answer
    /// back as [`CycleEvent::Actuation`].
    RequestChargeAmps(usize),
    /// Nothing: the cycle has ended, or the trigger was dropped.
    Done(CycleOutcome),
    /// Nothing: the event answers no request that is open, and was ignored.
    Ignored,
}

impl CycleAction {
    /// Whether the action is a request for a new current to the vehicle.
    pub open spec fn actuates(self) -> bool {
        self is RequestChargeAmps
    }

    /// Whether the action is a call to the remote vehicle API for its state.
    pub open spec fn fetches(self) -> bool {
        self is FetchVehicleState
    }
}

/// What an [`EVChargeFairing`] holds, as plain values.
pub struct EVChargeFairingView {
    /// The controller's state.
    pub handler: CarHandlerView,
    /// Where the cycle stands.
    pub phase: CyclePhase,
}

/// The cycle's continuation once the snapshot `state` is at hand: the
/// presence check, the charge check, and the request for the home's
/// consumption.
pub open spec fn spec_on_vehicle_state(handler: CarHandlerView, state: VehicleSnapshot) -> (
    EVChargeFairingView,
    CycleAction,
) {
    if !state.spec_is_nearby() {
        (
            EVChargeFairingView { handler, phase: CyclePhase::Idle },
            CycleAction::Done(CycleOutcome::NotNearby),
        )
    } else {
        let handler = if state.transitioning {
            CarHandlerView { cache: spec_invalidate(handler.cache), ..handler }
        } else {
            handler
        };
        if !state.charging {
            (
                EVChargeFairingView { handler, phase: CyclePhase::Idle },
                CycleAction::Done(CycleOutcome::NotCharging),
            )
        } else {
            (
                EVChargeFairingView { handler, phase: CyclePhase::AwaitingHomeConsumption },
                CycleAction::QueryHomeConsumption,
            )
        }
    }
}

/// The cycle's continuation once the home's consumption and the vehicle's
/// draw are at hand: the sample is recorded and the throttle decides at the
/// sample's time.
pub open spec fn spec_on_sample(handler: CarHandlerView, sample: HomeState) -> (
    EVChargeFairingView,
    CycleAction,
) {
    let handler = CarHandlerView { samples: spec_record(handler.samples, sample), ..handler };
    let (last_requested, requested_at) = bookkeeping(handler.cache);
    match spec_decide(handler.candidate(), last_requested, sample.timestamp - requested_at) {
        ThrottleDecision::Increase(amps) => (
            EVChargeFairingView {
                handler,
                phase: CyclePhase::AwaitingActuation { amps, raising: true },
            },
            CycleAction::RequestChargeAmps(amps),
        ),
        ThrottleDecision::Decrease(amps) => (
            EVChargeFairingView {
                handler,
                phase: CyclePhase::AwaitingActuation { amps, raising: false },
            },
            CycleAction::RequestChargeAmps(amps),
        ),
        decision => (
            EVChargeFairingView { handler, phase: CyclePhase::Idle },
            CycleAction::Done(CycleOutcome::Decided(decision)),
        ),
    }
}

impl EVChargeFairingView {
    /// Whether a cycle that is past its first snapshot holds a cache entry.
    /// Every orchestrator is in such a state.
    pub open spec fn well_formed(self) -> bool {
        self.phase is Idle || self.phase is AwaitingVehicleState || self.handler.cache is Some
    }
}

/// One step of the orchestrator: the state after `event` has arrived at
/// `now`, and the action to perform.
pub open spec fn spec_run_cycle(fairing: EVChargeFairingView, event: CycleEvent, now: i64) -> (
    EVChargeFairingView,
    CycleAction,
) {
    let handler = fairing.handler;
    match (fairing.phase, event) {
        (CyclePhase::Idle, CycleEvent::Trigger) => match spec_cached(handler.cache, now) {
            Some(state) => spec_on_vehicle_state(handler, state),
            None => (
                EVChargeFairingView { handler, phase: CyclePhase::AwaitingVehicleState },
                CycleAction::FetchVehicleState,
            ),
        },
        (_, CycleEvent::Trigger) => (fairing, CycleAction::Done(CycleOutcome::ContentionSkip)),
        (CyclePhase::AwaitingVehicleState, CycleEvent::VehicleState(Ok(state))) => {
            spec_on_vehicle_state(
                CarHandlerView { cache: Some(spec_refresh(handler.cache, state, now)), ..handler },
                state,
            )
        },
        (CyclePhase::AwaitingVehicleState, CycleEvent::VehicleState(Err(error))) => (
            EVChargeFairingView { handler, phase: CyclePhase::Idle },
            CycleAction::Done(CycleOutcome::Failed(error)),
        ),
        (
            CyclePhase::AwaitingHomeConsumption,
            CycleEvent::HomeConsumption { avg_milliamps, max_milliamps },
        ) => match spec_cached(handler.cache, now) {
            Some(state) => spec_on_sample(
                handler,
                HomeState {
                    avg_milliamps,
                    max_milliamps,
                    car_milliamps: state.current_milliamps,
                    timestamp: now,
                },
            ),
            None => (
                EVChargeFairingView {
                    handler,
                    phase: CyclePhase::AwaitingVehicleDraw { avg_milliamps, max_milliamps },
                },
                CycleAction::FetchVehicleState,
            ),
        },
        (CyclePhase::AwaitingHomeConsumption, CycleEvent::HomeConsumptionUnavailable) => (
            EVChargeFairingView { handler, phase: CyclePhase::Idle },
            CycleAction::Done(CycleOutcome::NoHomeConsumption),
        ),
        (
            CyclePhase::AwaitingVehicleDraw { avg_milliamps, max_milliamps },
            CycleEvent::VehicleState(Ok(state)),
        ) => spec_on_sample(
            CarHandlerView { cache: Some(spec_refresh(handler.cache, state, now)), ..handler },
            HomeState {
                avg_milliamps,
                max_milliamps,
                car_milliamps: state.current_milliamps,
                timestamp: now,
            },
        ),
        (CyclePhase::AwaitingVehicleDraw { .. }, CycleEvent::VehicleState(Err(error))) => (
            EVChargeFairingView { handler, phase: CyclePhase::Idle },
            CycleAction::Done(CycleOutcome::Failed(error)),
        ),
        (CyclePhase::AwaitingActuation { amps, raising }, CycleEvent::Actuation(Ok(_))) => (
            EVChargeFairingView {
                handler: CarHandlerView {
                    cache: spec_note_request(handler.cache, amps, now),
                    ..handler
                },
                phase: CyclePhase::Idle,
            },
            CycleAction::Done(
                CycleOutcome::Decided(
                    if raising {
                        ThrottleDecision::Increase(amps)
                    } else {
                        ThrottleDecision::Decrease(amps)
                    },
                ),
            ),
        ),
        (CyclePhase::AwaitingActuation { .. }, CycleEvent::Actuation(Err(error))) => (
            EVChargeFairingView { handler, phase: CyclePhase::Idle },
            CycleAction::Done(CycleOutcome::Failed(error)),
        ),
        _ => (fairing, CycleAction::Ignored),
    }
}

/// The orchestrator: one controller and the cycle that may be under way on
/// it.
pub struct EVChargeFairing {
    handler: CarHandler,
    phase: CyclePhase,
}

impl View for EVChargeFairing {
    type V = EVChargeFairingView;

    closed spec fn view(&self) -> EVChargeFairingView {
        EVChargeFairingView { handler: self.handler@, phase: self.phase }
    }
}

impl EVChargeFairing {
    /// An orchestrator at rest over a controller that has not seen the
    /// vehicle yet.
    pub fn new(config: CarHandlerConfig) -> (fairing: Self)
        ensures
            fairing@.well_formed(),
            fairing@.phase == CyclePhase::Idle,
            fairing@.handler.config == config,
            fairing@.handler.cache is None,
            fairing@.handler.samples == Seq::<HomeState>::empty(),
    {
        EVChargeFairing { handler: CarHandler::new(config), phase: CyclePhase::Idle }
    }

    /// The controller.
    pub fn handler(&self) -> (handler: &CarHandler)
        ensures
            handler@ == self@.handler,
    {
        &self.handler
    }

    /// Where the cycle stands.
    pub fn phase(&self) -> (phase: CyclePhase)
        ensures
            phase == self@.phase,
    {
        self.phase
    }

    fn on_vehicle_state(&mut self, state: VehicleSnapshot) -> (action: CycleAction)
        ensures
            (final(self)@, action) == spec_on_vehicle_state(old(self)@.handler, state),
    {
        if !state.is_nearby() {
            self.phase = CyclePhase::Idle;
            return CycleAction::Done(CycleOutcome::NotNearby);
        }
        if state.transitioning {
            self.handler.invalidate_state_cache();
        }
        if !state.charging {
            self.phase = CyclePhase::Idle;
            CycleAction::Done(CycleOutcome::NotCharging)
        } else {
            self.phase = CyclePhase::AwaitingHomeConsumption;
            CycleAction::QueryHomeConsumption
        }
    }

    fn on_sample(&mut self, avg_milliamps: u64, max_milliamps: u64, car_milliamps: u64, now: i64)
        -> (action: CycleAction)
        ensures
            (final(self)@, action) == spec_on_sample(
                old(self)@.handler,
                HomeState { avg_milliamps, max_milliamps, car_milliamps, timestamp: now },
            ),
    {
        match self.handler.throttle_on_sample(avg_milliamps, max_milliamps, car_milliamps, now) {
            ThrottleDecision::Increase(amps) => {
                self.phase = CyclePhase::AwaitingActuation { amps, raising: true };
                CycleAction::RequestChargeAmps(amps)
            },
            ThrottleDecision::Decrease(amps) => {
                self.phase = CyclePhase::AwaitingActuation { amps, raising: false };
                CycleAction::RequestChargeAmps(amps)
            },
            decision => {
                self.phase = CyclePhase::Idle;
                CycleAction::Done(CycleOutcome::Decided(decision))
            },
        }
    }

    /// Takes one event that arrived at `now`, moves the cycle on and returns
    /// the action to perform.
    pub fn run_cycle_at(&mut self, event: CycleEvent, now: i64) -> (action: CycleAction)
        requires
            now - THROTTLE_WINDOW_SECS >= i64::MIN,
        ensures
            (final(self)@, action) == spec_run_cycle(old(self)@, event, now),
            old(self)@.well_formed() ==> final(self)@.well_formed(),
    {
        match (self.phase, event) {
            (CyclePhase::Idle, CycleEvent::Trigger) => match self.handler.get_state(now) {
                Some(state) => self.on_vehicle_state(state),
                None => {
                    self.phase = CyclePhase::AwaitingVehicleState;
                    CycleAction::FetchVehicleState
                },
            },
            (_, CycleEvent::Trigger) => CycleAction::Done(CycleOutcome::ContentionSkip),
            (CyclePhase::AwaitingVehicleState, CycleEvent::VehicleState(Ok(state))) => {
                self.handler.force_update_state_cache(state, now);
                self.on_vehicle_state(state)
            },
            (CyclePhase::AwaitingVehicleState, CycleEvent::VehicleState(Err(error))) => {
                self.phase = CyclePhase::Idle;
                CycleAction::Done(CycleOutcome::Failed(error))
            },
            (
                CyclePhase::AwaitingHomeConsumption,
                CycleEvent::HomeConsumption { avg_milliamps, max_milliamps },
            ) => match self.handler.get_amps(now) {
                Some(car_milliamps) => self.on_sample(
                    avg_milliamps,
                    max_milliamps,
                    car_milliamps,
                    now,
                ),
                None => {
                    self.phase = CyclePhase::AwaitingVehicleDraw { avg_milliamps, max_milliamps };
                    CycleAction::FetchVehicleState
                },
            },
            (CyclePhase::AwaitingHomeConsumption, CycleEvent::HomeConsumptionUnavailable) => {
                self.phase = CyclePhase::Idle;
                CycleAction::Done(CycleOutcome::NoHomeConsumption)
            },
            (
                CyclePhase::AwaitingVehicleDraw { avg_milliamps, max_milliamps },
                CycleEvent::VehicleState(Ok(state)),
            ) => {
                self.handler.force_update_state_cache(state, now);
                self.on_sample(avg_milliamps, max_milliamps, state.current_milliamps, now)
            },
            (CyclePhase::AwaitingVehicleDraw { .. }, CycleEvent::VehicleState(Err(error))) => {
                self.phase = CyclePhase::Idle;
                CycleAction::Done(CycleOutcome::Failed(error))
            },
            (CyclePhase::AwaitingActuation { amps, raising }, CycleEvent::Actuation(Ok(_))) => {
                self.handler.set_amps(amps, now);
                self.phase = CyclePhase::Idle;
                CycleAction::Done(
                    CycleOutcome::Decided(
                        if raising {
                            ThrottleDecision::Increase(amps)
                        } else {
                            ThrottleDecision::Decrease(amps)
                        },
                    ),
                )
            },
            (CyclePhase::AwaitingActuation { .. }, CycleEvent::Actuation(Err(error))) => {
                self.phase = CyclePhase::Idle;
                CycleAction::Done(CycleOutcome::Failed(error))
            },
            _ => CycleAction::Ignored,
        }
    }

    /// Takes one event, stamps it with the wall clock's time, moves the
    /// cycle on and returns the action to perform.
    ///
    /// A clock that stands within thirty seconds of the least time an `i64`
    /// holds counts as standing thirty seconds after it, so that there is
    /// room to date a request back.
    pub fn run_cycle(&mut self, event: CycleEvent) -> (action: CycleAction)
        ensures
            exists|now: i64|
                now - THROTTLE_WINDOW_SECS >= i64::MIN && (final(self)@, action)
                    == #[trigger] spec_run_cycle(old(self)@, event, now),
            old(self)@.well_formed() ==> final(self)@.well_formed(),
    {
        let read: i64 = unix_now();
        let now: i64 = if read < i64::MIN + THROTTLE_WINDOW_SECS {
            i64::MIN + THROTTLE_WINDOW_SECS
        } else {
            read
        };
        self.run_cycle_at(event, now)
    }
}

/// The controller after one pass of recording `sample`, deciding and, where
/// the decision asks for a request, the vehicle accepting it at once; and
/// whether a request was made.
pub open spec fn spec_pass(handler: CarHandlerView, sample: HomeState) -> (CarHandlerView, bool) {
    let (decided, action) = spec_on_sample(handler, sample);
    if action.actuates() {
        (spec_run_cycle(decided, CycleEvent::Actuation(Ok(())), sample.timestamp).0.handler, true)
    } else {
        (decided.handler, false)
    }
}

/// The number of requests made to the vehicle over one pass at each of
/// `times`, every pass with the same readings of the home's and the
/// vehicle's current.
pub open spec fn spec_requests_over(
    handler: CarHandlerView,
    avg_milliamps: u64,
    max_milliamps: u64,
    car_milliamps: u64,
    times: Seq<i64>,
) -> nat
    decreases times.len(),
{
    if times.len() == 0 {
        0
    } else {
        let (next, requested) = spec_pass(
            handler,
            HomeState { avg_milliamps, max_milliamps, car_milliamps, timestamp: times[0] },
        );
        let rest = spec_requests_over(
            next,
            avg_milliamps,
            max_milliamps,
            car_milliamps,
            times.drop_first(),
        );
        if requested {
            rest + 1
        } else {
            rest
        }
    }
}

/// The candidate current that a pass over `sample` weighs: it follows from
/// the budgets and from the sample's readings alone.
pub open spec fn spec_pass_candidate(config: CarHandlerConfig, sample: HomeState) -> usize {
    spec_candidate_amps(
        config.max_milliamps as int,
        sample.spec_load_excluding_vehicle() as int,
        config.max_amps_car as int,
    ) as usize
}

/// A sample that has just been recorded is the newest, so the decision that
/// follows goes by it.
proof fn lemma_recorded_sample_is_newest(samples: Seq<HomeState>, sample: HomeState)
    ensures
        spec_record(samples, sample).len() > 0,
        spec_record(samples, sample).last() == sample,
{
}

proof fn lemma_settled_passes_request_nothing(
    handler: CarHandlerView,
    avg_milliamps: u64,
    max_milliamps: u64,
    car_milliamps: u64,
    times: Seq<i64>,
)
    requires
        handler.cache is Some,
        handler.cache->0.last_amps_requested == spec_pass_candidate(
            handler.config,
            HomeState { avg_milliamps, max_milliamps, car_milliamps, timestamp: 0 },
        ),
    ensures
        spec_requests_over(handler, avg_milliamps, max_milliamps, car_milliamps, times) == 0,
    decreases times.len(),
{
    if times.len() > 0 {
        let sample = HomeState {
            avg_milliamps,
            max_milliamps,
            car_milliamps,
            timestamp: times[0],
        };
        lemma_recorded_sample_is_newest(handler.samples, sample);
        lemma_settled_passes_request_nothing(
            spec_pass(handler, sample).0,
            avg_milliamps,
            max_milliamps,
            car_milliamps,
            times.drop_first(),
        );
    }
}

/// With unchanged readings, any number of passes makes at most one request
/// to the vehicle, whenever they run: the first request brings the
/// bookkeeping to the candidate, and an equal candidate changes nothing. In
/// particular this holds of all passes within thirty seconds of the last
/// request.
pub proof fn lemma_unchanged_inputs_request_at_most_once(
    handler: CarHandlerView,
    avg_milliamps: u64,
    max_milliamps: u64,
    car_milliamps: u64,
    times: Seq<i64>,
)
    requires
        handler.cache is Some,
    ensures
        spec_requests_over(handler, avg_milliamps, max_milliamps, car_milliamps, times) <= 1,
    decreases times.len(),
{
    if times.len() > 0 {
        let sample = HomeState {
            avg_milliamps,
            max_milliamps,
            car_milliamps,
            timestamp: times[0],
        };
        lemma_recorded_sample_is_newest(handler.samples, sample);
        let (next, requested) = spec_pass(handler, sample);
        if requested {
            lemma_settled_passes_request_nothing(
                next,
                avg_milliamps,
                max_milliamps,
                car_milliamps,
                times.drop_first(),
            );
        } else {
            lemma_unchanged_inputs_request_at_most_once(
                next,
                avg_milliamps,
                max_milliamps,
                car_milliamps,
                times.drop_first(),
            );
        }
    }
}

/// One whole cycle at `now` on a cache that serves: the trigger, the
/// home's consumption and, where the throttle asks for a request, the
/// vehicle's acceptance. The result is the state after the cycle, and whether
/// a request was made to the vehicle.
pub open spec fn spec_whole_cycle(
    fairing: EVChargeFairingView,
    avg_milliamps: u64,
    max_milliamps: u64,
    now: i64,
) -> (EVChargeFairingView, bool) {
    let triggered = spec_run_cycle(fairing, CycleEvent::Trigger, now).0;
    let (measured, action) = spec_run_cycle(
        triggered,
        CycleEvent::HomeConsumption { avg_milliamps, max_milliamps },
        now,
    );
    if action.actuates() {
        (spec_run_cycle(measured, CycleEvent::Actuation(Ok(())), now).0, true)
    } else {
        (measured, false)
    }
}

/// The number of requests made to the vehicle over one whole cycle at each
/// of `times`, every cycle with the same readings of the home's current.
pub open spec fn spec_requests_in_cycles(
    fairing: EVChargeFairingView,
    avg_milliamps: u64,
    max_milliamps: u64,
    times: Seq<i64>,
) -> nat
    decreases times.len(),
{
    if times.len() == 0 {
        0
    } else {
        let (next, requested) = spec_whole_cycle(fairing, avg_milliamps, max_milliamps, times[0]);
        let rest = spec_requests_in_cycles(
            next,
            avg_milliamps,
            max_milliamps,
            times.drop_first(),
        );
        if requested {
            rest + 1
        } else {
            rest
        }
    }
}

/// Whether the orchestrator is at rest over a snapshot of a vehicle that is
/// at the charger and charges steadily, and the cache serves that snapshot
/// at each of `times`.
pub open spec fn spec_steady_over(fairing: EVChargeFairingView, times: Seq<i64>) -> bool {
    &&& fairing.phase is Idle
    &&& fairing.handler.cache matches Some(entry)
    &&& entry.state.spec_is_nearby()
    &&& entry.state.charging
    &&& !entry.state.transitioning
    &&& forall|i: int| 0 <= i < times.len() ==> entry.is_fresh(#[trigger] times[i] as int)
}

proof fn lemma_steady_cycles_are_passes(
    fairing: EVChargeFairingView,
    avg_milliamps: u64,
    max_milliamps: u64,
    times: Seq<i64>,
)
    requires
        spec_steady_over(fairing, times),
    ensures
        spec_requests_in_cycles(fairing, avg_milliamps, max_milliamps, times)
            == spec_requests_over(
            fairing.handler,
            avg_milliamps,
            max_milliamps,
            fairing.handler.cache->0.state.current_milliamps,
            times,
        ),
    decreases times.len(),
{
    if times.len() > 0 {
        let next = spec_whole_cycle(fairing, avg_milliamps, max_milliamps, times[0]).0;
        assert forall|i: int| 0 <= i < times.drop_first().len() implies next.handler.cache->0.is_fresh(
            #[trigger] times.drop_first()[i] as int,
        ) by {}
        lemma_steady_cycles_are_passes(next, avg_milliamps, max_milliamps, times.drop_first());
    }
}

/// While the vehicle charges steadily at the charger and the cached
/// snapshot is served, any number of whole cycles with unchanged readings
/// of the home's current makes at most one request to the vehicle.
pub proof fn lemma_steady_cycles_request_at_most_once(
    fairing: EVChargeFairingView,
    avg_milliamps: u64,
    max_milliamps: u64,
    times: Seq<i64>,
)
    requires
        spec_steady_over(fairing, times),
    ensures
        spec_requests_in_cycles(fairing, avg_milliamps, max_milliamps, times) <= 1,
{
    lemma_steady_cycles_are_passes(fairing, avg_milliamps, max_milliamps, times);
    lemma_unchanged_inputs_request_at_most_once(
        fairing.handler,
        avg_milliamps,
        max_milliamps,
        fairing.handler.cache->0.state.current_milliamps,
        times,
    );
}

/// The sample that a whole cycle at `now` records on a cache that serves:
/// the home's readings with the vehicle's draw from the cached snapshot.
pub open spec fn spec_cycle_sample(
    fairing: EVChargeFairingView,
    avg_milliamps: u64,
    max_milliamps: u64,
    now: i64,
) -> HomeState
    recommends
        fairing.handler.cache is Some,
{
    HomeState {
        avg_milliamps,
        max_milliamps,
        car_milliamps: fairing.handler.cache->0.state.current_milliamps,
        timestamp: now,
    }
}

/// While the vehicle charges steadily at the charger, a whole cycle that
/// finds a candidate below the current last requested has it requested,
/// whatever time has passed since the previous request, and the bookkeeping
/// then holds the candidate and the time of the cycle.
pub proof fn lemma_steady_cycle_lowers_at_once(
    fairing: EVChargeFairingView,
    avg_milliamps: u64,
    max_milliamps: u64,
    now: i64,
)
    requires
        spec_steady_over(fairing, seq![now]),
        spec_pass_candidate(
            fairing.handler.config,
            spec_cycle_sample(fairing, avg_milliamps, max_milliamps, now),
        ) < bookkeeping(fairing.handler.cache).0,
    ensures
        spec_whole_cycle(fairing, avg_milliamps, max_milliamps, now).1,
        spec_whole_cycle(fairing, avg_milliamps, max_milliamps, now).0.phase is Idle,
        bookkeeping(spec_whole_cycle(fairing, avg_milliamps, max_milliamps, now).0.handler.cache)
            == (
            spec_pass_candidate(
                fairing.handler.config,
                spec_cycle_sample(fairing, avg_milliamps, max_milliamps, now),
            ),
            now,
        ),
{
    assert(seq![now][0] == now);
    lemma_recorded_sample_is_newest(
        fairing.handler.samples,
        spec_cycle_sample(fairing, avg_milliamps, max_milliamps, now),
    );
}

/// While the vehicle charges steadily at the charger, a whole cycle that
/// finds a candidate above the current last requested fewer than thirty
/// seconds after the previous request makes no request, and the bookkeeping
/// stays as it was.
pub proof fn lemma_steady_cycle_throttles_early_increase(
    fairing: EVChargeFairingView,
    avg_milliamps: u64,
    max_milliamps: u64,
    now: i64,
)
    requires
        spec_steady_over(fairing, seq![now]),
        spec_pass_candidate(
            fairing.handler.config,
            spec_cycle_sample(fairing, avg_milliamps, max_milliamps, now),
        ) > bookkeeping(fairing.handler.cache).0,
        now - bookkeeping(fairing.handler.cache).1 < THROTTLE_WINDOW_SECS,
    ensures
        !spec_whole_cycle(fairing, avg_milliamps, max_milliamps, now).1,
        spec_whole_cycle(fairing, avg_milliamps, max_milliamps, now).0.phase is Idle,
        spec_whole_cycle(fairing, avg_milliamps, max_milliamps, now).0.handler.cache
            == fairing.handler.cache,
        spec_run_cycle(
            spec_run_cycle(fairing, CycleEvent::Trigger, now).0,
            CycleEvent::HomeConsumption { avg_milliamps, max_milliamps },
            now,
        ).1 == CycleAction::Done(
            CycleOutcome::Decided(
                ThrottleDecision::ThrottledIncrease(
                    spec_pass_candidate(
                        fairing.handler.config,
                        spec_cycle_sample(fairing, avg_milliamps, max_milliamps, now),
                    ),
                ),
            ),
        ),
{
    assert(seq![now][0] == now);
    lemma_recorded_sample_is_newest(
        fairing.handler.samples,
        spec_cycle_sample(fairing, avg_milliamps, max_milliamps, now),
    );
}

/// A candidate below the current last requested is requested in the very
/// cycle that finds it, whatever time has passed since the previous request.
pub proof fn lemma_decrease_is_requested_at_once(handler: CarHandlerView, sample: HomeState)
    requires
        spec_pass_candidate(handler.config, sample) < bookkeeping(handler.cache).0,
    ensures
        spec_on_sample(handler, sample).1 == CycleAction::RequestChargeAmps(
            spec_pass_candidate(handler.config, sample),
        ),
        spec_on_sample(handler, sample).0.phase == (CyclePhase::AwaitingActuation {
            amps: spec_pass_candidate(handler.config, sample),
            raising: false,
        }),
{
    lemma_recorded_sample_is_newest(handler.samples, sample);
}

/// A candidate above the current last requested is not requested while
/// fewer than thirty seconds have passed since the previous request: the
/// cycle ends with a throttled increase and the bookkeeping stays.
pub proof fn lemma_early_increase_is_throttled(handler: CarHandlerView, sample: HomeState)
    requires
        spec_pass_candidate(handler.config, sample) > bookkeeping(handler.cache).0,
        sample.timestamp - bookkeeping(handler.cache).1 < THROTTLE_WINDOW_SECS,
    ensures
        spec_on_sample(handler, sample).1 == CycleAction::Done(
            CycleOutcome::Decided(
                ThrottleDecision::ThrottledIncrease(spec_pass_candidate(handler.config, sample)),
            ),
        ),
        !spec_on_sample(handler, sample).1.actuates(),
        spec_on_sample(handler, sample).0.phase == CyclePhase::Idle,
        spec_on_sample(handler, sample).0.handler.cache == handler.cache,
{
    lemma_recorded_sample_is_newest(handler.samples, sample);
}

/// A candidate above the current last requested is requested in the cycle
/// that finds it once thirty seconds or more have passed since the previous
/// request.
pub proof fn lemma_late_increase_is_requested(handler: CarHandlerView, sample: HomeState)
    requires
        spec_pass_candidate(handler.config, sample) > bookkeeping(handler.cache).0,
        sample.timestamp - bookkeeping(handler.cache).1 >= THROTTLE_WINDOW_SECS,
    ensures
        spec_on_sample(handler, sample).1 == CycleAction::RequestChargeAmps(
            spec_pass_candidate(handler.config, sample),
        ),
        spec_on_sample(handler, sample).0.phase == (CyclePhase::AwaitingActuation {
            amps: spec_pass_candidate(handler.config, sample),
            raising: true,
        }),
{
    lemma_recorded_sample_is_newest(handler.samples, sample);
}

/// A fetched snapshot that reports another requested current than the
/// bookkeeping holds has its value adopted and dated thirty seconds back,
/// whichever step of the cycle asked for the snapshot.
pub proof fn lemma_fetched_request_is_adopted(
    fairing: EVChargeFairingView,
    state: VehicleSnapshot,
    now: i64,
)
    requires
        fairing.phase is AwaitingVehicleState || fairing.phase is AwaitingVehicleDraw,
        bookkeeping(fairing.handler.cache).0 != state.last_requested_amps,
        now - THROTTLE_WINDOW_SECS >= i64::MIN,
    ensures
        bookkeeping(
            spec_run_cycle(fairing, CycleEvent::VehicleState(Ok(state)), now).0.handler.cache,
        ) == (state.last_requested_amps, (now - THROTTLE_WINDOW_SECS) as i64),
{
}

/// A step asks the vehicle API for its state exactly where a cycle needs a
/// snapshot and the cache serves none: at a trigger that starts a cycle, and
/// where the home's consumption arrives and the vehicle's draw is wanted.
pub proof fn lemma_fetch_only_when_cache_is_stale(
    fairing: EVChargeFairingView,
    event: CycleEvent,
    now: i64,
)
    ensures
        spec_run_cycle(fairing, event, now).1.fetches() <==> spec_cached(
            fairing.handler.cache,
            now,
        ) is None && ((fairing.phase is Idle && event is Trigger) || (fairing.phase
            is AwaitingHomeConsumption && event is HomeConsumption)),
{
}

/// While a cycle is under way every further trigger is dropped: the state
/// stays as it is and nothing is asked of the vehicle.
pub proof fn lemma_overlapping_trigger_is_dropped(fairing: EVChargeFairingView, now: i64)
    requires
        !(fairing.phase is Idle),
    ensures
        spec_run_cycle(fairing, CycleEvent::Trigger, now) == (
            fairing,
            CycleAction::Done(CycleOutcome::ContentionSkip),
        ),
{
}

/// A failed call to the vehicle API ends the cycle and leaves the controller
/// as it was.
pub proof fn lemma_failed_call_abandons_cycle(
    fairing: EVChargeFairingView,
    error: RemoteApiError,
    now: i64,
)
    ensures
        fairing.phase is AwaitingVehicleState || fairing.phase is AwaitingVehicleDraw
            ==> spec_run_cycle(fairing, CycleEvent::VehicleState(Err(error)), now) == (
            EVChargeFairingView { handler: fairing.handler, phase: CyclePhase::Idle },
            CycleAction::Done(CycleOutcome::Failed(error)),
        ),
        fairing.phase is AwaitingActuation ==> spec_run_cycle(
            fairing,
            CycleEvent::Actuation(Err(error)),
            now,
        ) == (
            EVChargeFairingView { handler: fairing.handler, phase: CyclePhase::Idle },
            CycleAction::Done(CycleOutcome::Failed(error)),
        ),
{
}

/// No step leads out of the well-formed states: once a cycle is past its
/// first snapshot, the controller holds a cache entry until the cycle ends.
pub proof fn lemma_step_keeps_well_formed(fairing: EVChargeFairingView, event: CycleEvent, now: i64)
    requires
        fairing.well_formed(),
    ensures
        spec_run_cycle(fairing, event, now).0.well_formed(),
{
}

/// Whatever is requested of the vehicle is within the vehicle's ceiling.
/// Unless it is zero, it is within the home's ceiling together with the
/// home's load of the newest sample.
pub proof fn lemma_request_respects_budgets(
    fairing: EVChargeFairingView,
    event: CycleEvent,
    now: i64,
)
    requires
        spec_run_cycle(fairing, event, now).1 is RequestChargeAmps,
    ensures
        spec_run_cycle(fairing, event, now).1->RequestChargeAmps_0
            <= fairing.handler.config.max_amps_car,
        spec_run_cycle(fairing, event, now).0.handler.samples.len() > 0,
        spec_run_cycle(fairing, event, now).1->RequestChargeAmps_0 == 0 || spec_run_cycle(
            fairing,
            event,
            now,
        ).0.handler.samples.last().spec_load_excluding_vehicle() + 1000 * spec_run_cycle(
            fairing,
            event,
            now,
        ).1->RequestChargeAmps_0 <= fairing.handler.config.max_milliamps,
{
    let after = spec_run_cycle(fairing, event, now).0.handler;
    super::throttle::lemma_candidate_respects_budgets(
        after.config.max_milliamps as int,
        after.samples.last().spec_load_excluding_vehicle() as int,
        after.config.max_amps_car as int,
    );
}

/// A cycle that ends because the vehicle is away leaves a cache entry whose
/// snapshot says so.
pub proof fn lemma_away_outcome_holds_snapshot(
    fairing: EVChargeFairingView,
    event: CycleEvent,
    now: i64,
)
    requires
        spec_run_cycle(fairing, event, now).1 == CycleAction::Done(CycleOutcome::NotNearby),
    ensures
        spec_run_cycle(fairing, event, now).0.phase is Idle,
        spec_run_cycle(fairing, event, now).0.handler.cache is Some,
        !spec_run_cycle(fairing, event, now).0.handler.cache->0.state.spec_is_nearby(),
{
}

/// How many answers a cycle in `phase` can still ask for before it ends.
pub open spec fn spec_steps_left(phase: CyclePhase) -> nat {
    match phase {
        CyclePhase::Idle => 0,
        CyclePhase::AwaitingActuation { .. } => 1,
        CyclePhase::AwaitingVehicleDraw { .. } => 2,
        CyclePhase::AwaitingHomeConsumption => 3,
        CyclePhase::AwaitingVehicleState => 4,
    }
}

/// The action of a step and the phase after it go together: the
/// orchestrator waits for exactly what it has just asked for, and a cycle
/// that has ended is at rest. Only a dropped trigger and an ignored event
/// leave a cycle under way as it was.
pub proof fn lemma_action_matches_phase(fairing: EVChargeFairingView, event: CycleEvent, now: i64)
    ensures
        match spec_run_cycle(fairing, event, now).1 {
            CycleAction::FetchVehicleState => spec_run_cycle(fairing, event, now).0.phase
                is AwaitingVehicleState || spec_run_cycle(fairing, event, now).0.phase
                is AwaitingVehicleDraw,
            CycleAction::QueryHomeConsumption => spec_run_cycle(fairing, event, now).0.phase
                is AwaitingHomeConsumption,
            CycleAction::RequestChargeAmps(amps) => spec_run_cycle(fairing, event, now).0.phase
                is AwaitingActuation && spec_run_cycle(
                fairing,
                event,
                now,
            ).0.phase->AwaitingActuation_amps == amps,
            CycleAction::Done(CycleOutcome::ContentionSkip) => spec_run_cycle(
                fairing,
                event,
                now,
            ).0 == fairing && !(fairing.phase is Idle),
            CycleAction::Done(_) => spec_run_cycle(fairing, event, now).0.phase is Idle,
            CycleAction::Ignored => spec_run_cycle(fairing, event, now).0 == fairing,
        },
{
}

/// Every cycle ends: each answer that is not ignored brings a cycle that is
/// under way closer to its end, which is at most four answers after the
/// trigger.
pub proof fn lemma_answer_advances_cycle(fairing: EVChargeFairingView, event: CycleEvent, now: i64)
    requires
        !(fairing.phase is Idle),
        !(event is Trigger),
        !(spec_run_cycle(fairing, event, now).1 is Ignored),
    ensures
        spec_steps_left(spec_run_cycle(fairing, event, now).0.phase) < spec_steps_left(
            fairing.phase,
        ),
        spec_steps_left(fairing.phase) <= 4,
{
}

} // verus!
