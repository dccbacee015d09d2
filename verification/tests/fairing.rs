use charge_budget::car::fairing::{CycleAction, CycleEvent, CycleOutcome, CyclePhase, EVChargeFairing};
use charge_budget::car::task::CarHandlerConfig;
use charge_budget::car::throttle::ThrottleDecision;
use charge_budget::car::{RemoteApiError, VehicleSnapshot};

fn fairing() -> EVChargeFairing {
    EVChargeFairing::new(CarHandlerConfig { max_milliamps: 30_000, max_amps_car: 16 })
}

fn charging(last_requested_amps: usize, current_milliamps: u64) -> VehicleSnapshot {
    VehicleSnapshot {
        charging: true,
        transitioning: false,
        current_milliamps,
        last_requested_amps,
        distance_to_charger_metres: 20,
    }
}

fn home(avg_milliamps: u64) -> CycleEvent {
    CycleEvent::HomeConsumption { avg_milliamps, max_milliamps: avg_milliamps + 500 }
}

/// Runs a cycle on a fresh cache up to the decision and returns the action that the decision gave.
fn decide_on(f: &mut EVChargeFairing, avg_milliamps: u64, now: i64) -> CycleAction {
    assert_eq!(f.run_cycle_at(CycleEvent::Trigger, now), CycleAction::QueryHomeConsumption);
    f.run_cycle_at(home(avg_milliamps), now)
}

#[test]
fn a_new_orchestrator_is_at_rest() {
    let f = fairing();
    assert_eq!(f.phase(), CyclePhase::Idle);
    assert_eq!(f.handler().last_state(), None);
    assert_eq!(f.handler().home_state().len(), 0);
    assert_eq!(f.handler().config(), CarHandlerConfig { max_milliamps: 30_000, max_amps_car: 16 });
}

#[test]
fn first_trigger_fetches_the_vehicle_state() {
    let mut f = fairing();
    assert_eq!(f.run_cycle_at(CycleEvent::Trigger, 1000), CycleAction::FetchVehicleState);
    assert_eq!(f.phase(), CyclePhase::AwaitingVehicleState);
}

#[test]
fn cycles_lower_at_once_hold_and_raise_after_the_window() {
    let mut f = fairing();
    // the vehicle draws 16 A at a request of 16 A, the home without it 20 A
    assert_eq!(f.run_cycle_at(CycleEvent::Trigger, 1000), CycleAction::FetchVehicleState);
    assert_eq!(
        f.run_cycle_at(CycleEvent::VehicleState(Ok(charging(16, 16_000))), 1000),
        CycleAction::QueryHomeConsumption
    );
    assert_eq!(f.phase(), CyclePhase::AwaitingHomeConsumption);
    assert_eq!(f.run_cycle_at(home(36_000), 1000), CycleAction::RequestChargeAmps(9));
    assert_eq!(f.phase(), CyclePhase::AwaitingActuation { amps: 9, raising: false });
    assert_eq!(f.handler().last_state().unwrap().last_amps_requested, 16);
    assert_eq!(
        f.run_cycle_at(CycleEvent::Actuation(Ok(())), 1000),
        CycleAction::Done(CycleOutcome::Decided(ThrottleDecision::Decrease(9)))
    );
    assert_eq!(f.phase(), CyclePhase::Idle);
    assert_eq!(f.handler().last_state().unwrap().last_amps_requested, 9);
    assert_eq!(f.handler().last_state().unwrap().last_amps_requested_time, 1000);

    // ten seconds later with the same load (the cached draw of 16 A is still served)
    assert_eq!(
        decide_on(&mut f, 36_000, 1010),
        CycleAction::Done(CycleOutcome::Decided(ThrottleDecision::NoChange))
    );
    assert_eq!(f.phase(), CyclePhase::Idle);
    assert_eq!(f.handler().last_state().unwrap().last_amps_requested, 9);

    // thirty-one seconds later the cache has expired; the vehicle reports 9 A, the home 5 A
    assert_eq!(f.run_cycle_at(CycleEvent::Trigger, 1031), CycleAction::FetchVehicleState);
    assert_eq!(
        f.run_cycle_at(CycleEvent::VehicleState(Ok(charging(9, 9_000))), 1031),
        CycleAction::QueryHomeConsumption
    );
    assert_eq!(f.run_cycle_at(home(14_000), 1031), CycleAction::RequestChargeAmps(16));
    assert_eq!(f.phase(), CyclePhase::AwaitingActuation { amps: 16, raising: true });
    assert_eq!(
        f.run_cycle_at(CycleEvent::Actuation(Ok(())), 1031),
        CycleAction::Done(CycleOutcome::Decided(ThrottleDecision::Increase(16)))
    );
    assert_eq!(f.handler().last_state().unwrap().last_amps_requested, 16);
    assert_eq!(f.handler().last_state().unwrap().last_amps_requested_time, 1031);
}

#[test]
fn external_change_is_corrected_in_the_cycle_that_finds_it() {
    let mut f = fairing();
    f.run_cycle_at(CycleEvent::Trigger, 1000);
    f.run_cycle_at(CycleEvent::VehicleState(Ok(charging(16, 16_000))), 1000);
    assert_eq!(f.run_cycle_at(home(36_000), 1000), CycleAction::RequestChargeAmps(9));
    f.run_cycle_at(CycleEvent::Actuation(Ok(())), 1000);
    assert_eq!(f.handler().last_state().unwrap().last_amps_requested, 9);
    // the vehicle reports 20 A: the value is adopted, the timer set back
    assert_eq!(f.run_cycle_at(CycleEvent::Trigger, 1040), CycleAction::FetchVehicleState);
    assert_eq!(
        f.run_cycle_at(CycleEvent::VehicleState(Ok(charging(20, 20_000))), 1040),
        CycleAction::QueryHomeConsumption
    );
    assert_eq!(f.handler().last_state().unwrap().last_amps_requested, 20);
    assert_eq!(f.handler().last_state().unwrap().last_amps_requested_time, 1010);
    // and the same cycle corrects it at once
    assert_eq!(f.run_cycle_at(home(40_000), 1041), CycleAction::RequestChargeAmps(9));
    assert_eq!(
        f.run_cycle_at(CycleEvent::Actuation(Ok(())), 1042),
        CycleAction::Done(CycleOutcome::Decided(ThrottleDecision::Decrease(9)))
    );
    assert_eq!(f.handler().last_state().unwrap().last_amps_requested, 9);
    assert_eq!(f.handler().last_state().unwrap().last_amps_requested_time, 1042);
}

#[test]
fn unchanged_inputs_lead_to_one_request_at_most() {
    let mut f = fairing();
    f.run_cycle_at(CycleEvent::Trigger, 1000);
    f.run_cycle_at(CycleEvent::VehicleState(Ok(charging(16, 16_000))), 1000);
    let mut requests = 0;
    let mut action = f.run_cycle_at(home(36_000), 1000);
    for now in 1000..1030 {
        if let CycleAction::RequestChargeAmps(amps) = action {
            assert_eq!(amps, 9);
            requests += 1;
            f.run_cycle_at(CycleEvent::Actuation(Ok(())), now);
        }
        action = decide_on(&mut f, 36_000, now);
    }
    assert_eq!(requests, 1);
    assert_eq!(f.handler().home_state().len(), 10);
}

#[test]
fn increase_inside_the_window_is_throttled() {
    let mut f = fairing();
    f.run_cycle_at(CycleEvent::Trigger, 1000);
    f.run_cycle_at(CycleEvent::VehicleState(Ok(charging(16, 16_000))), 1000);
    f.run_cycle_at(home(36_000), 1000);
    f.run_cycle_at(CycleEvent::Actuation(Ok(())), 1000);
    // the home's load drops at once, but the request is seconds old
    for now in [1001, 1015, 1029] {
        assert_eq!(
            decide_on(&mut f, 21_000, now),
            CycleAction::Done(CycleOutcome::Decided(ThrottleDecision::ThrottledIncrease(16)))
        );
        assert_eq!(f.phase(), CyclePhase::Idle);
        assert_eq!(f.handler().last_state().unwrap().last_amps_requested, 9);
    }
}

#[test]
fn a_vehicle_away_ends_the_cycle() {
    let mut f = fairing();
    f.run_cycle_at(CycleEvent::Trigger, 1000);
    let mut away = charging(16, 0);
    away.distance_to_charger_metres = 100;
    assert_eq!(
        f.run_cycle_at(CycleEvent::VehicleState(Ok(away)), 1000),
        CycleAction::Done(CycleOutcome::NotNearby)
    );
    assert_eq!(f.phase(), CyclePhase::Idle);
    // the snapshot is cached: the next trigger inside the TTL asks nothing of the vehicle
    assert_eq!(f.run_cycle_at(CycleEvent::Trigger, 1029), CycleAction::Done(CycleOutcome::NotNearby));
    assert_eq!(f.run_cycle_at(CycleEvent::Trigger, 1030), CycleAction::FetchVehicleState);
}

#[test]
fn a_vehicle_that_does_not_charge_ends_the_cycle() {
    let mut f = fairing();
    f.run_cycle_at(CycleEvent::Trigger, 1000);
    let mut idle = charging(16, 0);
    idle.charging = false;
    assert_eq!(
        f.run_cycle_at(CycleEvent::VehicleState(Ok(idle)), 1000),
        CycleAction::Done(CycleOutcome::NotCharging)
    );
    assert_eq!(f.phase(), CyclePhase::Idle);
    assert_eq!(f.handler().home_state().len(), 0);
}

#[test]
fn a_transitional_state_is_fetched_again_for_the_draw() {
    let mut f = fairing();
    f.run_cycle_at(CycleEvent::Trigger, 1000);
    let mut starting = charging(16, 2_000);
    starting.transitioning = true;
    assert_eq!(
        f.run_cycle_at(CycleEvent::VehicleState(Ok(starting)), 1000),
        CycleAction::QueryHomeConsumption
    );
    assert_eq!(f.handler().last_state().unwrap().last_update, 0);
    assert_eq!(f.run_cycle_at(home(36_000), 1001), CycleAction::FetchVehicleState);
    assert_eq!(
        f.phase(),
        CyclePhase::AwaitingVehicleDraw { avg_milliamps: 36_000, max_milliamps: 36_500 }
    );
    assert_eq!(f.handler().home_state().len(), 0);
    // the vehicle has ramped up to 16 A: the home without it draws 20 A
    assert_eq!(
        f.run_cycle_at(CycleEvent::VehicleState(Ok(charging(16, 16_000))), 1002),
        CycleAction::RequestChargeAmps(9)
    );
    let sample = f.handler().home_state().latest().unwrap();
    assert_eq!(sample.avg_milliamps, 36_000);
    assert_eq!(sample.max_milliamps, 36_500);
    assert_eq!(sample.car_milliamps, 16_000);
    assert_eq!(sample.timestamp, 1002);
}

#[test]
fn a_transitional_state_that_does_not_charge_is_invalidated_too() {
    let mut f = fairing();
    f.run_cycle_at(CycleEvent::Trigger, 1000);
    let mut odd = charging(16, 0);
    odd.transitioning = true;
    odd.charging = false;
    assert_eq!(
        f.run_cycle_at(CycleEvent::VehicleState(Ok(odd)), 1000),
        CycleAction::Done(CycleOutcome::NotCharging)
    );
    assert_eq!(f.handler().last_state().unwrap().last_update, 0);
    assert_eq!(f.run_cycle_at(CycleEvent::Trigger, 1001), CycleAction::FetchVehicleState);
}

#[test]
fn a_trigger_during_a_cycle_is_dropped() {
    let mut f = fairing();
    f.run_cycle_at(CycleEvent::Trigger, 1000);
    assert_eq!(f.run_cycle_at(CycleEvent::Trigger, 1000), CycleAction::Done(CycleOutcome::ContentionSkip));
    assert_eq!(f.phase(), CyclePhase::AwaitingVehicleState);
    f.run_cycle_at(CycleEvent::VehicleState(Ok(charging(16, 16_000))), 1000);
    assert_eq!(f.run_cycle_at(CycleEvent::Trigger, 1001), CycleAction::Done(CycleOutcome::ContentionSkip));
    assert_eq!(f.phase(), CyclePhase::AwaitingHomeConsumption);
    f.run_cycle_at(home(36_000), 1001);
    assert_eq!(f.run_cycle_at(CycleEvent::Trigger, 1002), CycleAction::Done(CycleOutcome::ContentionSkip));
    assert_eq!(f.phase(), CyclePhase::AwaitingActuation { amps: 9, raising: false });
    f.run_cycle_at(CycleEvent::Actuation(Ok(())), 1002);
    assert_eq!(f.run_cycle_at(CycleEvent::Trigger, 1003), CycleAction::QueryHomeConsumption);
}

#[test]
fn a_failed_fetch_abandons_the_cycle() {
    let mut f = fairing();
    f.run_cycle_at(CycleEvent::Trigger, 1000);
    assert_eq!(
        f.run_cycle_at(CycleEvent::VehicleState(Err(RemoteApiError::Network)), 1000),
        CycleAction::Done(CycleOutcome::Failed(RemoteApiError::Network))
    );
    assert_eq!(f.phase(), CyclePhase::Idle);
    assert_eq!(f.handler().last_state(), None);
    // the next trigger tries again
    assert_eq!(f.run_cycle_at(CycleEvent::Trigger, 1001), CycleAction::FetchVehicleState);
}

#[test]
fn a_failed_fetch_keeps_the_stale_entry() {
    let mut f = fairing();
    f.run_cycle_at(CycleEvent::Trigger, 1000);
    f.run_cycle_at(CycleEvent::VehicleState(Ok(charging(16, 16_000))), 1000);
    f.run_cycle_at(CycleEvent::HomeConsumptionUnavailable, 1000);
    let before = f.handler().last_state();
    assert_eq!(f.run_cycle_at(CycleEvent::Trigger, 1100), CycleAction::FetchVehicleState);
    assert_eq!(
        f.run_cycle_at(CycleEvent::VehicleState(Err(RemoteApiError::Status(503))), 1100),
        CycleAction::Done(CycleOutcome::Failed(RemoteApiError::Status(503)))
    );
    assert_eq!(f.handler().last_state(), before);
}

#[test]
fn a_failed_fetch_for_the_draw_records_no_sample() {
    let mut f = fairing();
    f.run_cycle_at(CycleEvent::Trigger, 1000);
    let mut starting = charging(16, 2_000);
    starting.transitioning = true;
    f.run_cycle_at(CycleEvent::VehicleState(Ok(starting)), 1000);
    assert_eq!(f.run_cycle_at(home(36_000), 1001), CycleAction::FetchVehicleState);
    assert_eq!(
        f.run_cycle_at(CycleEvent::VehicleState(Err(RemoteApiError::Malformed)), 1002),
        CycleAction::Done(CycleOutcome::Failed(RemoteApiError::Malformed))
    );
    assert_eq!(f.phase(), CyclePhase::Idle);
    assert_eq!(f.handler().home_state().len(), 0);
}

#[test]
fn a_failed_request_keeps_the_bookkeeping() {
    let mut f = fairing();
    f.run_cycle_at(CycleEvent::Trigger, 1000);
    f.run_cycle_at(CycleEvent::VehicleState(Ok(charging(16, 16_000))), 1000);
    assert_eq!(f.run_cycle_at(home(36_000), 1000), CycleAction::RequestChargeAmps(9));
    assert_eq!(
        f.run_cycle_at(CycleEvent::Actuation(Err(RemoteApiError::Network)), 1001),
        CycleAction::Done(CycleOutcome::Failed(RemoteApiError::Network))
    );
    assert_eq!(f.phase(), CyclePhase::Idle);
    assert_eq!(f.handler().last_state().unwrap().last_amps_requested, 16);
    // the next cycle asks again
    assert_eq!(decide_on(&mut f, 36_000, 1002), CycleAction::RequestChargeAmps(9));
}

#[test]
fn unreadable_home_consumption_ends_the_cycle() {
    let mut f = fairing();
    f.run_cycle_at(CycleEvent::Trigger, 1000);
    f.run_cycle_at(CycleEvent::VehicleState(Ok(charging(16, 16_000))), 1000);
    assert_eq!(
        f.run_cycle_at(CycleEvent::HomeConsumptionUnavailable, 1000),
        CycleAction::Done(CycleOutcome::NoHomeConsumption)
    );
    assert_eq!(f.phase(), CyclePhase::Idle);
    assert_eq!(f.handler().home_state().len(), 0);
}

#[test]
fn events_that_answer_nothing_are_ignored() {
    let mut f = fairing();
    assert_eq!(f.run_cycle_at(home(1), 1000), CycleAction::Ignored);
    assert_eq!(f.run_cycle_at(CycleEvent::Actuation(Ok(())), 1000), CycleAction::Ignored);
    assert_eq!(f.run_cycle_at(CycleEvent::HomeConsumptionUnavailable, 1000), CycleAction::Ignored);
    assert_eq!(
        f.run_cycle_at(CycleEvent::VehicleState(Ok(charging(16, 16_000))), 1000),
        CycleAction::Ignored
    );
    assert_eq!(f.phase(), CyclePhase::Idle);
    assert_eq!(f.handler().last_state(), None);
    f.run_cycle_at(CycleEvent::Trigger, 1000);
    assert_eq!(f.run_cycle_at(home(1), 1000), CycleAction::Ignored);
    assert_eq!(f.run_cycle_at(CycleEvent::Actuation(Err(RemoteApiError::Network)), 1000), CycleAction::Ignored);
    assert_eq!(f.phase(), CyclePhase::AwaitingVehicleState);
    f.run_cycle_at(CycleEvent::VehicleState(Ok(charging(16, 16_000))), 1000);
    assert_eq!(
        f.run_cycle_at(CycleEvent::VehicleState(Ok(charging(16, 16_000))), 1000),
        CycleAction::Ignored
    );
    assert_eq!(f.phase(), CyclePhase::AwaitingHomeConsumption);
}

#[test]
fn the_wall_clock_drives_a_cycle() {
    let mut f = fairing();
    assert_eq!(f.run_cycle(CycleEvent::Trigger), CycleAction::FetchVehicleState);
    assert_eq!(
        f.run_cycle(CycleEvent::VehicleState(Ok(charging(16, 16_000)))),
        CycleAction::QueryHomeConsumption
    );
    let entry = f.handler().last_state().unwrap();
    // the clock stands after the year 2020, and the adopted request is dated thirty seconds back
    assert!(entry.last_update > 1_577_836_800);
    assert_eq!(entry.last_amps_requested, 16);
    assert_eq!(entry.last_amps_requested_time, entry.last_update - 30);
    assert_eq!(f.run_cycle(home(36_000)), CycleAction::RequestChargeAmps(9));
    assert_eq!(
        f.run_cycle(CycleEvent::Actuation(Ok(()))),
        CycleAction::Done(CycleOutcome::Decided(ThrottleDecision::Decrease(9)))
    );
    let entry = f.handler().last_state().unwrap();
    assert_eq!(entry.last_amps_requested, 9);
    assert!(entry.last_amps_requested_time >= entry.last_update);
    assert!(f.handler().home_state().latest().unwrap().timestamp >= entry.last_update);
}
