use charge_budget::car::fairing::CycleOutcome;
use charge_budget::car::scheduler::{Presence, PresenceScheduler, WakeAction, PRESENT_POLL_SECS};
use charge_budget::car::cache::CarStateWrapper;
use charge_budget::car::throttle::ThrottleDecision;
use charge_budget::car::{RemoteApiError, VehicleSnapshot};

fn entry(distance_to_charger_metres: u64, last_update: i64) -> Option<CarStateWrapper> {
    Some(CarStateWrapper {
        state: VehicleSnapshot {
            charging: false,
            transitioning: false,
            current_milliamps: 0,
            last_requested_amps: 16,
            distance_to_charger_metres,
        },
        last_update,
        last_amps_requested: 16,
        last_amps_requested_time: 0,
    })
}

#[test]
fn a_new_scheduler_counts_the_vehicle_as_away() {
    assert_eq!(PresenceScheduler::new().presence(), Presence::Away);
}

#[test]
fn cancellation_takes_effect_at_the_wake_point() {
    let s = PresenceScheduler::new();
    assert_eq!(s.on_wake(true), WakeAction::Stop);
    assert_eq!(s.on_wake(false), WakeAction::RunCycle);
    assert_eq!(s.presence(), Presence::Away);
}

#[test]
fn a_vehicle_at_the_charger_is_polled_every_minute() {
    assert_eq!(PRESENT_POLL_SECS, 60);
    let mut s = PresenceScheduler::new();
    assert_eq!(s.on_cycle_done_at(CycleOutcome::NotCharging, entry(99, 1000), 1000), 60);
    assert_eq!(s.presence(), Presence::Present);
    let mut s = PresenceScheduler::new();
    assert_eq!(
        s.on_cycle_done_at(CycleOutcome::Decided(ThrottleDecision::NoChange), entry(0, 1060), 1060),
        60
    );
    assert_eq!(s.presence(), Presence::Present);
    let mut s = PresenceScheduler::new();
    assert_eq!(
        s.on_cycle_done_at(CycleOutcome::Decided(ThrottleDecision::Decrease(9)), entry(0, 1060), 1060),
        60
    );
    assert_eq!(s.presence(), Presence::Present);
    let mut s = PresenceScheduler::new();
    assert_eq!(s.on_cycle_done_at(CycleOutcome::NoHomeConsumption, entry(0, 1060), 1060), 60);
    assert_eq!(s.presence(), Presence::Present);
}

#[test]
fn a_vehicle_away_is_looked_at_when_it_could_have_arrived() {
    let mut s = PresenceScheduler::new();
    // 150 km at 150 km/h: one hour
    assert_eq!(s.on_cycle_done_at(CycleOutcome::NotNearby, entry(150_000, 1000), 1000), 3600);
    assert_eq!(s.presence(), Presence::Away);
    // 12.5 km: five minutes
    assert_eq!(s.on_cycle_done_at(CycleOutcome::NotNearby, entry(12_500, 1000), 1000), 300);
    // 12.499 km: 299.976 s, rounded down
    assert_eq!(s.on_cycle_done_at(CycleOutcome::NotNearby, entry(12_499, 1000), 1000), 299);
}

#[test]
fn the_sleep_never_ends_before_the_cache_expires() {
    let mut s = PresenceScheduler::new();
    // 100 m: 2.4 s of travel, but the snapshot is served for thirty more seconds
    assert_eq!(s.on_cycle_done_at(CycleOutcome::NotNearby, entry(100, 1000), 1000), 30);
    assert_eq!(s.on_cycle_done_at(CycleOutcome::NotNearby, entry(100, 1000), 1010), 20);
    assert_eq!(s.on_cycle_done_at(CycleOutcome::NotNearby, entry(100, 1000), 1027), 3);
    assert_eq!(s.on_cycle_done_at(CycleOutcome::NotNearby, entry(100, 1000), 1028), 2);
    assert_eq!(s.on_cycle_done_at(CycleOutcome::NotNearby, entry(100, 1000), 1029), 2);
    assert_eq!(s.on_cycle_done_at(CycleOutcome::NotNearby, entry(100, 1000), 5000), 2);
    // an invalidated snapshot has no time left
    assert_eq!(s.on_cycle_done_at(CycleOutcome::NotNearby, entry(1_000, 0), 1_700_000_000), 24);
}

#[test]
fn the_vehicle_leaving_and_arriving_changes_the_presence() {
    let mut s = PresenceScheduler::new();
    s.on_cycle_done_at(CycleOutcome::NotCharging, entry(50, 1000), 1000);
    assert_eq!(s.presence(), Presence::Present);
    assert_eq!(s.on_cycle_done_at(CycleOutcome::NotNearby, entry(5_000, 1060), 1060), 120);
    assert_eq!(s.presence(), Presence::Away);
    assert_eq!(
        s.on_cycle_done_at(CycleOutcome::Decided(ThrottleDecision::Increase(16)), entry(99, 1180), 1180),
        60
    );
    assert_eq!(s.presence(), Presence::Present);
}

#[test]
fn a_cycle_that_learnt_nothing_keeps_the_presence() {
    let mut s = PresenceScheduler::new();
    assert_eq!(s.on_cycle_done_at(CycleOutcome::ContentionSkip, entry(50, 1000), 1000), 60);
    assert_eq!(s.presence(), Presence::Away);
    assert_eq!(s.on_cycle_done_at(CycleOutcome::Failed(RemoteApiError::Network), None, 1000), 60);
    assert_eq!(s.presence(), Presence::Away);
    s.on_cycle_done_at(CycleOutcome::NotCharging, entry(50, 1000), 1000);
    assert_eq!(
        s.on_cycle_done_at(CycleOutcome::Failed(RemoteApiError::Status(500)), entry(5_000, 900), 1000),
        60
    );
    assert_eq!(s.presence(), Presence::Present);
    assert_eq!(s.on_cycle_done_at(CycleOutcome::ContentionSkip, None, 1000), 60);
    assert_eq!(s.presence(), Presence::Present);
}

#[test]
fn away_without_a_cache_entry_falls_back_to_the_poll_cadence() {
    let mut s = PresenceScheduler::new();
    s.on_cycle_done_at(CycleOutcome::NotCharging, entry(50, 1000), 1000);
    assert_eq!(s.on_cycle_done_at(CycleOutcome::NotNearby, None, 1000), 60);
    assert_eq!(s.presence(), Presence::Away);
}

#[test]
fn extreme_distances_and_times_do_not_overflow() {
    let mut s = PresenceScheduler::new();
    let eta = ((u64::MAX as u128) * 3600 / 150_000) as u64;
    assert_eq!(s.on_cycle_done_at(CycleOutcome::NotNearby, entry(u64::MAX, 0), 0), eta);
    // a snapshot from the far future of this clock
    assert_eq!(
        s.on_cycle_done_at(CycleOutcome::NotNearby, entry(100, i64::MAX), 0),
        30 + i64::MAX as u64
    );
    assert_eq!(s.on_cycle_done_at(CycleOutcome::NotNearby, entry(100, i64::MAX), i64::MIN), u64::MAX);
    assert_eq!(s.on_cycle_done_at(CycleOutcome::NotNearby, entry(100, i64::MIN), i64::MAX), 2);
}

#[test]
fn the_wall_clock_drives_the_scheduler() {
    let mut s = PresenceScheduler::new();
    // fetched at the epoch: by any clock of today the snapshot has expired
    assert_eq!(s.on_cycle_done(CycleOutcome::NotNearby, entry(150_000, 0)), 3600);
    // fetched in the year 2300: the sleep lasts until then and thirty seconds more
    let secs = s.on_cycle_done(CycleOutcome::NotNearby, entry(100, 10_413_792_000));
    assert!(secs > 30);
    assert!(secs < 10_413_792_000 - 1_577_836_800);
    assert_eq!(s.presence(), Presence::Away);
    assert_eq!(s.on_cycle_done(CycleOutcome::NotCharging, entry(10, 0)), 60);
    assert_eq!(s.presence(), Presence::Present);
}
