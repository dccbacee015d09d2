use charge_budget::car::throttle::{candidate_amps, decide, ThrottleDecision, THROTTLE_WINDOW_SECS};

#[test]
fn candidate_keeps_five_percent_in_reserve() {
    // floor((30 - 20) * 0.95) = floor(9.5) = 9
    assert_eq!(candidate_amps(30_000, 20_000, 16), 9);
    // floor((30 - 10) * 0.95) = 19
    assert_eq!(candidate_amps(30_000, 10_000, 32), 19);
    // floor(1.0 * 0.95) = 0
    assert_eq!(candidate_amps(21_000, 20_000, 16), 0);
}

#[test]
fn candidate_is_limited_to_the_vehicle_cap() {
    // floor((30 - 5) * 0.95) = 23, capped at 16
    assert_eq!(candidate_amps(30_000, 5_000, 16), 16);
    assert_eq!(candidate_amps(30_000, 5_000, 23), 23);
    assert_eq!(candidate_amps(30_000, 5_000, 24), 23);
    assert_eq!(candidate_amps(30_000, 5_000, 0), 0);
}

#[test]
fn candidate_is_zero_when_the_home_alone_is_over_budget() {
    assert_eq!(candidate_amps(30_000, 30_000, 16), 0);
    assert_eq!(candidate_amps(30_000, 45_000, 16), 0);
    assert_eq!(candidate_amps(0, u64::MAX, usize::MAX), 0);
}

#[test]
fn candidate_works_on_milliamps() {
    // (30000 - 19474) * 0.95 = 9999.7 mA -> 9 A
    assert_eq!(candidate_amps(30_000, 19_474, 16), 9);
    // (30000 - 19473) * 0.95 = 10000.65 mA -> 10 A
    assert_eq!(candidate_amps(30_000, 19_473, 16), 10);
}

#[test]
fn candidate_does_not_overflow_on_extreme_budgets() {
    let expected = ((u64::MAX as u128) * 95 / 100_000) as usize;
    assert_eq!(candidate_amps(u64::MAX, 0, usize::MAX), expected);
    assert_eq!(candidate_amps(u64::MAX, 0, 7), 7);
}

#[test]
fn equal_candidate_changes_nothing() {
    assert_eq!(decide(9, 9, 0), ThrottleDecision::NoChange);
    assert_eq!(decide(9, 9, 10_000), ThrottleDecision::NoChange);
    assert_eq!(decide(0, 0, -5), ThrottleDecision::NoChange);
}

#[test]
fn lower_candidate_is_applied_at_once() {
    assert_eq!(decide(9, 16, 0), ThrottleDecision::Decrease(9));
    assert_eq!(decide(9, 16, 29), ThrottleDecision::Decrease(9));
    assert_eq!(decide(9, 16, i64::MIN), ThrottleDecision::Decrease(9));
    assert_eq!(decide(0, 1, 1), ThrottleDecision::Decrease(0));
}

#[test]
fn higher_candidate_waits_for_the_window() {
    assert_eq!(decide(16, 9, 0), ThrottleDecision::ThrottledIncrease(16));
    assert_eq!(decide(16, 9, 29), ThrottleDecision::ThrottledIncrease(16));
    assert_eq!(decide(16, 9, -1), ThrottleDecision::ThrottledIncrease(16));
}

#[test]
fn higher_candidate_is_applied_once_the_window_has_passed() {
    assert_eq!(THROTTLE_WINDOW_SECS, 30);
    assert_eq!(decide(16, 9, 30), ThrottleDecision::Increase(16));
    assert_eq!(decide(16, 9, 31), ThrottleDecision::Increase(16));
    assert_eq!(decide(16, 9, i64::MAX), ThrottleDecision::Increase(16));
}

#[test]
fn only_increase_and_decrease_ask_for_a_request() {
    assert_eq!(ThrottleDecision::NoChange.amps_to_request(), None);
    assert_eq!(ThrottleDecision::ThrottledIncrease(12).amps_to_request(), None);
    assert_eq!(ThrottleDecision::Increase(12).amps_to_request(), Some(12));
    assert_eq!(ThrottleDecision::Decrease(7).amps_to_request(), Some(7));
}

#[test]
fn sixteen_amps_requested_and_room_for_nine_is_a_decrease() {
    let candidate = candidate_amps(30_000, 20_000, 16);
    assert_eq!(candidate, 9);
    assert_eq!(decide(candidate, 16, 0), ThrottleDecision::Decrease(9));
}

#[test]
fn same_load_ten_seconds_later_is_a_no_op() {
    let candidate = candidate_amps(30_000, 20_000, 16);
    assert_eq!(decide(candidate, 9, 10), ThrottleDecision::NoChange);
}

#[test]
fn lighter_load_thirty_one_seconds_later_is_an_increase() {
    let candidate = candidate_amps(30_000, 5_000, 16);
    assert_eq!(candidate, 16);
    assert_eq!(decide(candidate, 9, 31), ThrottleDecision::Increase(16));
}
