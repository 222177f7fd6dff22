use afisha_bot::time_of_day::{eligible, parse_time, TimeOfDay};

fn t(hour: u32, minute: u32, second: u32) -> TimeOfDay {
    TimeOfDay { hour, minute, second }
}

#[test]
fn well_formed_times_parse_with_zero_seconds() {
    assert_eq!(parse_time("19:00"), Some(t(19, 0, 0)));
    assert_eq!(parse_time("00:00"), Some(t(0, 0, 0)));
    assert_eq!(parse_time("23:59"), Some(t(23, 59, 0)));
    assert_eq!(parse_time("09:05"), Some(t(9, 5, 0)));
}

#[test]
fn single_digit_fields_parse() {
    assert_eq!(parse_time("7:5"), Some(t(7, 5, 0)));
}

#[test]
fn out_of_range_fields_are_rejected() {
    assert_eq!(parse_time("24:00"), None);
    assert_eq!(parse_time("19:60"), None);
    assert_eq!(parse_time("99:99"), None);
    assert_eq!(parse_time("240:00"), None);
}

#[test]
fn missing_or_extra_colons_are_rejected() {
    assert_eq!(parse_time("1900"), None);
    assert_eq!(parse_time("19:00:00"), None);
    assert_eq!(parse_time(":"), None);
    assert_eq!(parse_time(""), None);
}

#[test]
fn non_numeric_fields_are_rejected() {
    assert_eq!(parse_time("aa:bb"), None);
    assert_eq!(parse_time("19:"), None);
    assert_eq!(parse_time(":00"), None);
    assert_eq!(parse_time("19:0 0"), None);
    assert_eq!(parse_time(" 19:00"), None);
}

#[test]
fn huge_digit_strings_are_rejected() {
    assert_eq!(parse_time("99999999999999999999:00"), None);
}

#[test]
fn tick_matches_only_during_the_named_minute() {
    let notification = t(18, 30, 0);
    for sec in [0, 1, 30, 59] {
        assert!(eligible(t(18, 30, sec), notification));
    }
    for sec in [0, 30, 59] {
        assert!(!eligible(t(18, 29, sec), notification));
        assert!(!eligible(t(18, 31, sec), notification));
    }
}

#[test]
fn minute_ticks_fire_a_profile_at_most_once() {
    // Simulated dispatcher: one tick every 60 seconds across the matching
    // minute fires exactly once.
    let notification = t(18, 30, 0);
    let mut fired = 0;
    let mut tick = t(18, 28, 17);
    for _ in 0..5 {
        if eligible(tick, notification) {
            fired += 1;
        }
        let next_minute = tick.minute + 1;
        tick = if next_minute == 60 {
            t(tick.hour + 1, 0, tick.second)
        } else {
            t(tick.hour, next_minute, tick.second)
        };
    }
    assert_eq!(fired, 1);
}
