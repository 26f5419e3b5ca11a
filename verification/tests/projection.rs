use apm_counter::projected_rate;
use apm_counter::MS_PER_MINUTE;

#[test]
fn one_minute_of_ticks_projects_the_count_itself() {
    assert_eq!(projected_rate(120, 600, 100), 120);
    assert_eq!(projected_rate(0, 600, 100), 0);
    assert_eq!(projected_rate(7, 60, 1000), 7);
    assert_eq!(projected_rate(u64::MAX, 600, 100), u64::MAX);
}

#[test]
fn early_ticks_extrapolate_to_a_minute() {
    assert_eq!(projected_rate(1, 1, 100), 600);
    assert_eq!(projected_rate(3, 10, 100), 180);
    assert_eq!(projected_rate(50, 300, 100), 100);
    assert_eq!(projected_rate(1, 1, 1), 60_000);
}

#[test]
fn projection_rounds_to_the_nearest_integer() {
    // 60000 / 700 = 85.71..
    assert_eq!(projected_rate(1, 7, 100), 86);
    // 60000 / 1300 = 46.15..
    assert_eq!(projected_rate(1, 13, 100), 46);
    // 180000 / 700 = 257.14..
    assert_eq!(projected_rate(3, 7, 100), 257);
    // 60000 / 900 = 66.66..
    assert_eq!(projected_rate(1, 9, 100), 67);
    // 60000 / 120100 = 0.4995..
    assert_eq!(projected_rate(1, 1201, 100), 0);
}

#[test]
fn projection_rounds_a_half_up() {
    // 60000 / 120000 = 0.5
    assert_eq!(projected_rate(1, 1200, 100), 1);
    // 180000 / 120000 = 1.5
    assert_eq!(projected_rate(3, 1200, 100), 2);
    // 300000 / 120000 = 2.5
    assert_eq!(projected_rate(5, 1200, 100), 3);
    // 60000 / 40000 = 1.5
    assert_eq!(projected_rate(1, 400, 100), 2);
}

#[test]
fn projection_without_actions_is_zero() {
    assert_eq!(projected_rate(0, 1, 100), 0);
    assert_eq!(projected_rate(0, 599, 100), 0);
    assert_eq!(projected_rate(0, u64::MAX, u64::MAX), 0);
}

#[test]
fn projection_without_elapsed_time_is_zero() {
    assert_eq!(projected_rate(5, 0, 100), 0);
    assert_eq!(projected_rate(5, 10, 0), 0);
    assert_eq!(projected_rate(u64::MAX, 0, 0), 0);
}

#[test]
fn projection_stops_at_the_largest_rate() {
    assert_eq!(projected_rate(u64::MAX, 1, 1), u64::MAX);
    assert_eq!(projected_rate(u64::MAX / 2, 1, 100), u64::MAX);
    assert_eq!(projected_rate(u64::MAX / 60_000 + 1, 1, 1), u64::MAX);
    assert_eq!(projected_rate(u64::MAX / 60_000, 1, 1), (u64::MAX / 60_000) * 60_000);
}

#[test]
fn projection_over_the_longest_time_does_not_overflow() {
    assert_eq!(projected_rate(u64::MAX, u64::MAX, u64::MAX), 0);
    assert_eq!(projected_rate(1, u64::MAX, u64::MAX), 0);
    assert_eq!(projected_rate(u64::MAX, u64::MAX, 60_000), 1);
}

#[test]
fn a_minute_has_sixty_thousand_milliseconds() {
    assert_eq!(MS_PER_MINUTE, 60_000);
}
