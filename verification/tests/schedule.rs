use morning_lights::instant::Instant;
use morning_lights::schedule::{compute_wait, target_time, Wait, LEAD_SECONDS};
use morning_lights::sunrise::parse_sunrise;

/// 2024-06-01T05:30:00Z
const SUNRISE: i64 = 1_717_219_800;

#[test]
fn sunrise_ninety_minutes_ahead_waits_one_hour() {
    let sunrise = parse_sunrise("2024-06-01T05:30:00Z").unwrap();
    let now = parse_sunrise("2024-06-01T04:00:00Z").unwrap();
    assert_eq!(sunrise, Instant::new(SUNRISE, 0));
    assert_eq!(now, Instant::new(1_717_214_400, 0));
    assert_eq!(compute_wait(sunrise, now), Wait::Sleep(3600));
    assert_eq!(compute_wait(sunrise, now).sleep_seconds(), 3600);
    let target = target_time(sunrise).unwrap();
    assert_eq!(target, parse_sunrise("2024-06-01T05:00:00Z").unwrap());
}

#[test]
fn lead_time_is_thirty_minutes() {
    assert_eq!(LEAD_SECONDS, 30 * 60);
}

#[test]
fn wait_is_sunrise_minus_lead_minus_now() {
    let sunrise = Instant::new(SUNRISE, 0);
    for ahead in [1801i64, 1802, 3599, 7200, 86_400, 1_000_000] {
        let now = Instant::new(SUNRISE - ahead, 0);
        let wait = compute_wait(sunrise, now);
        assert_eq!(wait, Wait::Sleep((ahead - 1800) as u64));
    }
}

#[test]
fn sunrise_within_lead_time_acts_now() {
    let sunrise = Instant::new(SUNRISE, 0);
    for ahead in [1800i64, 1799, 60, 1, 0] {
        let now = Instant::new(SUNRISE - ahead, 0);
        assert_eq!(compute_wait(sunrise, now), Wait::ActNow);
    }
}

#[test]
fn past_sunrise_acts_now() {
    let sunrise = Instant::new(SUNRISE, 0);
    for behind in [1i64, 1800, 86_400] {
        let now = Instant::new(SUNRISE + behind, 250_000_000);
        let wait = compute_wait(sunrise, now);
        assert_eq!(wait, Wait::ActNow);
        assert_eq!(wait.sleep_seconds(), 0);
    }
}

#[test]
fn part_of_a_second_is_dropped() {
    let now = Instant::new(SUNRISE - 5400, 0);
    assert_eq!(compute_wait(Instant::new(SUNRISE, 900_000_000), now), Wait::Sleep(3600));
    let late = Instant::new(SUNRISE - 5400, 100_000_000);
    assert_eq!(compute_wait(Instant::new(SUNRISE, 0), late), Wait::Sleep(3599));
}

#[test]
fn less_than_a_whole_second_to_target_sleeps_zero_seconds() {
    let now = Instant::new(SUNRISE - 1800, 0);
    assert_eq!(compute_wait(Instant::new(SUNRISE, 500_000_000), now), Wait::Sleep(0));
    assert_eq!(compute_wait(Instant::new(SUNRISE, 1), now), Wait::Sleep(0));
    assert_eq!(compute_wait(Instant::new(SUNRISE, 999_999_999), now), Wait::Sleep(0));
    assert_eq!(compute_wait(Instant::new(SUNRISE + 1, 0), now), Wait::Sleep(1));
    assert_eq!(compute_wait(Instant::new(SUNRISE, 0), now), Wait::ActNow);
}

#[test]
fn half_a_second_before_target_is_still_a_sleep() {
    let sunrise = parse_sunrise("2024-06-01T05:30:00Z").unwrap();
    let now = parse_sunrise("2024-06-01T04:59:59.500Z").unwrap();
    let wait = compute_wait(sunrise, now);
    assert_eq!(wait, Wait::Sleep(0));
    assert_eq!(wait.sleep_seconds(), 0);
}

#[test]
fn just_past_target_acts_now() {
    let sunrise = Instant::new(SUNRISE, 0);
    let now = Instant::new(SUNRISE - 1800, 1);
    assert_eq!(compute_wait(sunrise, now), Wait::ActNow);
}

#[test]
fn extreme_instants_do_not_overflow() {
    let first = Instant::new(i64::MIN, 0);
    let last = Instant::new(i64::MAX, 999_999_999);
    assert_eq!(compute_wait(first, last), Wait::ActNow);
    assert_eq!(compute_wait(last, first), Wait::Sleep(u64::MAX - 1800));
}

#[test]
fn target_is_lead_time_before_sunrise() {
    assert_eq!(
        target_time(Instant::new(SUNRISE, 123)),
        Some(Instant::new(SUNRISE - 1800, 123))
    );
    assert_eq!(target_time(Instant::new(i64::MIN + 1800, 0)), Some(Instant::new(i64::MIN, 0)));
    assert_eq!(target_time(Instant::new(i64::MIN + 1799, 0)), None);
    assert_eq!(
        target_time(Instant::new(SUNRISE - 1, 1_000_000_000)),
        Some(Instant::new(SUNRISE - 1800, 0))
    );
    assert_eq!(
        target_time(Instant::new(i64::MIN + 1799, 1_500_000_000)),
        Some(Instant::new(i64::MIN, 500_000_000))
    );
}
