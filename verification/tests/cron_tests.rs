use plant_scheduler::cron::{parse, CronField, ParseError, TimeFields};

fn at_second(second: u32) -> TimeFields {
    TimeFields { second, minute: 0, hour: 0, day_of_month: 1, month: 1, day_of_week: 0 }
}

#[test]
fn test_parse_step_expression() {
    let compiled = parse("1/10 * * * * *").unwrap();
    assert_eq!(compiled.seconds, CronField::Step { start: 1, step: 10 });
    assert_eq!(compiled.minutes, CronField::Any);
    assert_eq!(compiled.day_of_week, CronField::Any);
}

#[test]
fn test_parse_every_second_expression() {
    let compiled = parse("* * * * * *").unwrap();
    assert_eq!(compiled.seconds, CronField::Any);
    assert!(compiled.is_due(&at_second(0)));
    assert!(compiled.is_due(&at_second(59)));
}

#[test]
fn test_parse_literal_fields() {
    let compiled = parse("0 30 12 15 6 3").unwrap();
    assert_eq!(compiled.minutes, CronField::Literal(30));
    assert_eq!(compiled.month, CronField::Literal(6));
    let due_time = TimeFields {
        second: 0,
        minute: 30,
        hour: 12,
        day_of_month: 15,
        month: 6,
        day_of_week: 3,
    };
    assert!(compiled.is_due(&due_time));
    let wrong_minute = TimeFields { minute: 31, ..due_time };
    assert!(!compiled.is_due(&wrong_minute));
}

#[test]
fn test_parse_rejects_wrong_field_count() {
    assert_eq!(parse("bad expr"), Err(ParseError::WrongFieldCount));
    assert_eq!(parse("* * * * *"), Err(ParseError::WrongFieldCount));
    assert_eq!(parse(""), Err(ParseError::WrongFieldCount));
    assert_eq!(parse("* * * * * * *"), Err(ParseError::WrongFieldCount));
}

#[test]
fn test_parse_rejects_out_of_range_and_malformed_fields() {
    assert_eq!(parse("60 * * * * *"), Err(ParseError::InvalidField));
    assert_eq!(parse("* * 24 * * *"), Err(ParseError::InvalidField));
    assert_eq!(parse("* * * 0 * *"), Err(ParseError::InvalidField));
    assert_eq!(parse("* * * * 13 *"), Err(ParseError::InvalidField));
    assert_eq!(parse("* * * * * 7"), Err(ParseError::InvalidField));
    assert_eq!(parse("*/2 * * * * *"), Err(ParseError::InvalidField));
    assert_eq!(parse("1/0 * * * * *"), Err(ParseError::InvalidField));
    assert_eq!(parse("1/61 * * * * *"), Err(ParseError::InvalidField));
    assert_eq!(parse("abc * * * * *"), Err(ParseError::InvalidField));
}

#[test]
fn test_step_schedule_due_seconds() {
    let compiled = parse("1/10 * * * * *").unwrap();
    assert!(compiled.is_due(&at_second(1)));
    assert!(compiled.is_due(&at_second(11)));
    assert!(compiled.is_due(&at_second(21)));
    assert!(compiled.is_due(&at_second(51)));
    assert!(!compiled.is_due(&at_second(0)));
    assert!(!compiled.is_due(&at_second(5)));
    assert!(!compiled.is_due(&at_second(10)));
}

#[test]
fn test_is_due_is_deterministic() {
    let compiled = parse("1/10 * * * * *").unwrap();
    let t = at_second(21);
    let first = compiled.is_due(&t);
    let second = compiled.is_due(&t);
    assert_eq!(first, second);
    assert!(first);
}

#[test]
fn test_from_epoch_seconds_at_epoch() {
    let t = TimeFields::from_epoch_seconds(0);
    assert_eq!(t.second, 0);
    assert_eq!(t.minute, 0);
    assert_eq!(t.hour, 0);
    assert_eq!(t.day_of_month, 1);
    assert_eq!(t.month, 1);
    assert_eq!(t.day_of_week, 4);
}

#[test]
fn test_from_epoch_seconds_known_timestamp() {
    let t = TimeFields::from_epoch_seconds(1_000_000_000);
    assert_eq!(t.second, 40);
    assert_eq!(t.minute, 46);
    assert_eq!(t.hour, 1);
    assert_eq!(t.day_of_month, 9);
    assert_eq!(t.month, 9);
    assert_eq!(t.day_of_week, 0);
}

#[test]
fn test_from_epoch_seconds_leap_day() {
    let t = TimeFields::from_epoch_seconds(951_782_400);
    assert_eq!(t.day_of_month, 29);
    assert_eq!(t.month, 2);
}

#[test]
fn test_from_epoch_seconds_year_boundary() {
    let last = TimeFields::from_epoch_seconds(1_704_067_199);
    assert_eq!(last.month, 12);
    assert_eq!(last.day_of_month, 31);
    assert_eq!(last.hour, 23);
    assert_eq!(last.minute, 59);
    assert_eq!(last.second, 59);
    assert_eq!(last.day_of_week, 0);
    let first = TimeFields::from_epoch_seconds(1_704_067_200);
    assert_eq!(first.month, 1);
    assert_eq!(first.day_of_month, 1);
    assert_eq!(first.day_of_week, 1);
}
