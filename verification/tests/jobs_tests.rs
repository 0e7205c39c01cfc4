use goldagent::jobs::{normalize_schedule, parse_hh_mm, validate_schedule, ScheduleError};

#[test]
fn normalizes_five_field_cron() {
    let out = normalize_schedule("0 13 * * *").expect("normalize should succeed");
    assert_eq!(out, "0 0 13 * * *");
}

#[test]
fn keeps_six_field_cron() {
    let out = normalize_schedule("30 0 13 * * *").expect("normalize should succeed");
    assert_eq!(out, "30 0 13 * * *");
}

#[test]
fn supports_daily_shortcut() {
    let out = normalize_schedule("daily@13:00").expect("normalize should succeed");
    assert_eq!(out, "0 0 13 * * *");
}

#[test]
fn supports_weekdays_shortcut() {
    let out = normalize_schedule("weekdays@13:00").expect("normalize should succeed");
    assert_eq!(out, "0 0 13 * * 1-5");
}

#[test]
fn rejects_invalid_shortcut_time() {
    let err = normalize_schedule("daily@25:00").expect_err("normalize should fail");
    assert!(err.message().contains("Invalid hour"));
}

#[test]
fn rejects_hour_with_exact_message() {
    let err = normalize_schedule("daily@25:00").expect_err("normalize should fail");
    assert_eq!(err.message(), "Invalid hour `25`. Expected 00-23.");
    assert!(matches!(err, ScheduleError::HourOutOfRange { hour: 25 }));
}

#[test]
fn validates_against_cron_grammar() {
    assert!(validate_schedule("daily@13:00").is_ok());
    assert!(validate_schedule("0 13 * * *").is_ok());
    let err = validate_schedule("a b c d e").expect_err("cron rejects");
    assert_eq!(err.message(), "Invalid cron expression: a b c d e");
}

#[test]
fn reads_hour_and_minute() {
    assert_eq!(parse_hh_mm("07:05").ok(), Some((7, 5)));
    assert_eq!(parse_hh_mm("+7:5").ok(), Some((7, 5)));
    assert!(parse_hh_mm("7").is_err());
}

#[test]
fn rejects_each_malformed_time() {
    let err = normalize_schedule("daily@1300").expect_err("no colon");
    assert_eq!(err.message(), "Invalid time `1300`. Expected HH:MM.");
    let err = normalize_schedule("daily@aa:00").expect_err("hour text");
    assert_eq!(err.message(), "Invalid hour in `aa:00`");
    let err = normalize_schedule("weekdays@12:6x").expect_err("minute text");
    assert_eq!(err.message(), "Invalid minute in `12:6x`");
    let err = normalize_schedule("weekdays@23:60").expect_err("minute range");
    assert_eq!(err.message(), "Invalid minute `60`. Expected 00-59.");
    let err = normalize_schedule("daily@256:00").expect_err("hour does not fit");
    assert_eq!(err.message(), "Invalid hour in `256:00`");
    let err = normalize_schedule("daily@-1:00").expect_err("sign");
    assert!(matches!(err, ScheduleError::BadHour { .. }));
}

#[test]
fn rejects_other_field_counts() {
    let err = normalize_schedule("  * * * *  ").expect_err("four fields");
    assert_eq!(
        err.message(),
        "Invalid schedule `* * * *`. Expected: 5-field cron (min hour day month weekday), 6-field cron (sec min hour day month weekday), `daily@HH:MM`, or `weekdays@HH:MM`."
    );
    assert!(normalize_schedule("").is_err());
    assert!(normalize_schedule("1 2 3 4 5 6 7").is_err());
}

#[test]
fn trims_and_counts_fields_by_white_space() {
    assert_eq!(normalize_schedule(" \t0  13 *\t* *\n").ok(), Some("0 0  13 *\t* *".to_string()));
    assert_eq!(normalize_schedule("  daily@23:59 ").ok(), Some("0 59 23 * * *".to_string()));
    assert_eq!(normalize_schedule("weekdays@00:00").ok(), Some("0 0 0 * * 1-5".to_string()));
    assert_eq!(normalize_schedule("daily@007:005").ok(), Some("0 5 7 * * *".to_string()));
}

#[test]
fn cron_grammar_decides_after_normalising() {
    assert!(validate_schedule("weekdays@08:30").is_ok());
    assert!(validate_schedule("*/5 * * * * *").is_ok());
    assert!(validate_schedule("61 * * * * *").is_err());
    let err = validate_schedule("daily@24:00").expect_err("hour range comes first");
    assert_eq!(err.message(), "Invalid hour `24`. Expected 00-23.");
}
