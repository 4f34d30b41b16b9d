use sdkwork_id_core::clock::{clamped_millis, unix_millis, wall_clock_millis, MonotonicClock};
use sdkwork_id_core::lease::LeaseTerms;
use sdkwork_id_core::{current_time_millis, SnowflakeIdError, SnowflakeLeaseGuard};
use std::time::{Duration, UNIX_EPOCH};

fn terms(available: bool, wall: u64, monotonic: u64) -> LeaseTerms {
    LeaseTerms {
        available,
        valid_until_millis: wall,
        valid_until_monotonic_millis: monotonic,
    }
}

#[test]
fn a_grant_counts_the_remaining_time() {
    assert_eq!(LeaseTerms::grant(5_000, 4_000, 70), terms(true, 5_000, 1_070));
    assert_eq!(LeaseTerms::grant(5_000, 5_000, 70), terms(true, 5_000, 70));
    assert_eq!(LeaseTerms::grant(5_000, 9_000, 70), terms(true, 5_000, 70));
    assert_eq!(
        LeaseTerms::grant(u64::MAX, 0, 70),
        terms(true, u64::MAX, u64::MAX)
    );
}

#[test]
fn a_renewal_moves_both_deadlines() {
    let mut lease = terms(true, 5_000, 1_000);
    lease.renew_until(8_000, 7_500, 2_000);
    assert_eq!(lease, terms(true, 8_000, 2_500));
    lease.renew_for(30, 9_000, 3_000);
    assert_eq!(lease, terms(true, 9_030, 3_030));
    lease.renew_for(u64::MAX, 9_000, 3_000);
    assert_eq!(lease, terms(true, u64::MAX, u64::MAX));
}

#[test]
fn a_fenced_lease_stays_fenced() {
    let mut lease = terms(true, 5_000, 1_000);
    assert!(lease.allows(0, 0));
    lease.fence();
    assert_eq!(lease, terms(false, 5_000, 1_000));
    lease.renew_until(8_000, 7_500, 2_000);
    assert!(!lease.allows(0, 0));
    lease.renew_for(1_000_000, 7_500, 2_000);
    assert!(!lease.allows(0, 0));
}

#[test]
fn either_deadline_ends_the_lease() {
    let lease = terms(true, 5_000, 1_000);
    assert!(lease.allows(4_999, 999));
    assert!(!lease.allows(5_000, 999));
    assert!(!lease.allows(4_999, 1_000));
}

#[test]
fn a_wall_clock_set_back_prolongs_nothing() {
    let mut lease = terms(true, 0, 0);
    lease.renew_for(500, 1_000_000, 100);
    assert!(lease.allows(1_000_000, 599));
    assert!(!lease.allows(0, 600));
}

#[test]
fn a_fenced_guard_cannot_be_renewed_back() {
    let wall_clock = current_time_millis().unwrap();
    let guard = SnowflakeLeaseGuard::new(wall_clock + 10_000);
    assert!(guard.is_available());
    assert!(guard.allows(wall_clock));
    guard.fence();
    assert!(!guard.is_available());
    guard.renew_until(wall_clock + 20_000);
    guard.renew_for(Duration::from_secs(60));
    assert!(!guard.is_available());
    assert!(!guard.allows(wall_clock));
}

#[test]
fn a_guard_holds_what_was_stored() {
    let wall_clock = current_time_millis().unwrap();
    let guard = SnowflakeLeaseGuard::new(wall_clock);
    guard.renew_until(wall_clock + 50_000);
    let held = guard.terms();
    assert!(held.available);
    assert_eq!(held.valid_until_millis, wall_clock + 50_000);
    assert!(held.valid_until_monotonic_millis > 40_000);
    assert!(held.valid_until_monotonic_millis <= guard.monotonic_millis() + 50_000);

    guard.renew_for(Duration::from_secs(7_200));
    let held = guard.terms();
    assert!(held.valid_until_millis >= wall_clock + 7_200_000);
    assert!(held.valid_until_monotonic_millis >= 7_200_000);
    assert!(held.valid_until_monotonic_millis <= guard.monotonic_millis() + 7_200_000);

    guard.renew_for(Duration::MAX);
    assert_eq!(guard.terms(), terms(true, u64::MAX, u64::MAX));
    guard.set_monotonic_deadline(17);
    assert_eq!(guard.terms(), terms(true, u64::MAX, 17));
    guard.fence();
    assert_eq!(guard.terms(), terms(false, u64::MAX, 17));
    guard.renew_for(Duration::MAX);
    assert_eq!(guard.terms(), terms(false, u64::MAX, u64::MAX));
}

#[test]
fn an_earlier_deadline_replaces_a_later_one() {
    let guard = SnowflakeLeaseGuard::new(u64::MAX);
    assert!(guard.allows(0));
    guard.renew_until(0);
    assert!(!guard.allows(0));
    assert!(guard.is_available());
}

#[test]
fn a_renewal_for_less_than_a_millisecond_is_one_for_no_time() {
    let guard = SnowflakeLeaseGuard::new(u64::MAX);
    guard.renew_for(Duration::from_micros(999));
    assert!(!guard.allows(0));
    assert!(guard.is_available());
}

#[test]
fn a_new_guard_with_nothing_left_allows_nothing() {
    let wall_clock = current_time_millis().unwrap();
    let guard = SnowflakeLeaseGuard::new(wall_clock);
    assert!(guard.is_available());
    assert!(!guard.allows(0));
    assert!(!guard.allows(wall_clock - 1));
    assert!(!guard.allows(wall_clock));
}

#[test]
fn the_wall_clock_deadline_is_strict() {
    let deadline = current_time_millis().unwrap() + 60_000;
    let guard = SnowflakeLeaseGuard::new(deadline);
    assert!(guard.allows(deadline - 1));
    assert!(!guard.allows(deadline));
}

#[test]
fn a_renewal_for_no_time_ends_the_lease() {
    let wall_clock = current_time_millis().unwrap();
    let guard = SnowflakeLeaseGuard::new(wall_clock + 10_000);
    assert!(guard.allows(wall_clock));
    guard.renew_for(Duration::ZERO);
    assert!(!guard.allows(wall_clock));
}

#[test]
fn readings_of_the_wall_clock_are_cut_to_milliseconds() {
    assert_eq!(unix_millis(Ok(Duration::from_micros(1_234_567))), Ok(1_234));
    assert_eq!(unix_millis(Ok(Duration::ZERO)), Ok(0));
    // 2^64 + 5 milliseconds wrap to 5.
    let seconds = 18_446_744_073_709_551;
    assert_eq!(
        unix_millis(Ok(Duration::from_millis(616 + 5) + Duration::from_secs(seconds))),
        Ok(5)
    );
}

#[test]
fn a_clock_before_the_unix_epoch_is_an_error() {
    let early = UNIX_EPOCH - Duration::from_secs(1);
    let reading = early.duration_since(UNIX_EPOCH);
    let text = reading.clone().unwrap_err().to_string();
    assert_eq!(unix_millis(reading), Err(SnowflakeIdError::SystemTime(text)));
}

#[test]
fn clamping_keeps_what_fits() {
    assert_eq!(clamped_millis(Duration::from_millis(1_500)), 1_500);
    assert_eq!(clamped_millis(Duration::from_micros(1_999)), 1);
    assert_eq!(clamped_millis(Duration::MAX), u64::MAX);
}

#[test]
fn the_clocks_go_forward() {
    // 2024-01-01 is long past.
    let wall = current_time_millis().unwrap();
    assert!(wall > 1_704_067_200_000);
    assert!(wall_clock_millis() >= wall);
    let clock = MonotonicClock::start();
    let first = clock.millis();
    assert!(first < 10_000);
    assert!(clock.millis() >= first);
}

#[test]
fn only_a_fence_makes_a_guard_unavailable() {
    let guard = SnowflakeLeaseGuard::new(0);
    guard.renew_until(0);
    guard.renew_for(Duration::ZERO);
    assert!(guard.is_available());
    guard.renew_until(u64::MAX);
    assert!(guard.is_available());
    guard.fence();
    assert!(!guard.is_available());
}
