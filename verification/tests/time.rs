use dotgain::time::{CalendarDate, IntoHuman, TimePoint, TryFromHuman};

fn parse(text: &str) -> TimePoint {
    TimePoint::try_from_human(text).expect("a valid date")
}

#[test]
fn full_format_round_trips() {
    let point = parse("2023-02-21 17:53:28");
    assert_eq!(point.timestamp(), 1677002008);
    assert_eq!(point.timestamp_subsec_nanos(), 0);
    assert_eq!(point.into_human(), "2023-02-21 17:53:28");
}

#[test]
fn missing_seconds_are_zero() {
    let point = parse("2023-02-21 17:53");
    assert_eq!(point.timestamp(), 1677001980);
    assert_eq!(point.into_human(), "2023-02-21 17:53:00");
}

#[test]
fn missing_time_is_midnight() {
    let point = parse("2023-01-02");
    assert_eq!(point.timestamp(), 1672617600);
    assert_eq!(point.into_human(), "2023-01-02 00:00:00");
}

#[test]
fn first_matching_format_decides() {
    assert_eq!(parse("2023-01-02 00:00:00"), parse("2023-01-02 00:00"));
    assert_eq!(parse("2023-01-02 00:00"), parse("2023-01-02"));
}

#[test]
fn other_formats_are_rejected() {
    for text in ["2023/02/21", "21-02-2023", "", "2023-02-21T17:53:28", "2023-02-21 17", "yesterday"] {
        let error = TimePoint::try_from_human(text).expect_err("an invalid date");
        assert_eq!(error.text, text);
    }
}

#[test]
fn impossible_dates_are_rejected() {
    assert!(TimePoint::try_from_human("2023-02-30").is_err());
    assert!(TimePoint::try_from_human("2023-13-01 00:00:00").is_err());
    assert!(TimePoint::try_from_human("2023-01-01 24:00:00").is_err());
    assert!(TimePoint::try_from_human("2023-01-01 10:60").is_err());
}

#[test]
fn dates_before_the_epoch_are_negative() {
    let point = parse("1969-12-31 23:59:30");
    assert_eq!(point.timestamp(), -30);
    assert_eq!(point.into_human(), "1969-12-31 23:59:30");
}

#[test]
fn leap_second_keeps_its_place() {
    let point = parse("2015-06-30 23:59:60");
    assert_eq!(point.timestamp(), 1435708799);
    assert_eq!(point.timestamp_subsec_nanos(), 1_000_000_000);
    assert_eq!(point.into_human(), "2015-06-30 23:59:60");
    assert!(parse("2015-06-30 23:59:59").is_before(&point));
    assert!(point.is_before(&parse("2015-07-01 00:00:00")));
}

#[test]
fn from_timestamp_agrees_with_parsing() {
    let point = TimePoint::from_timestamp(1677002008, 0).expect("in range");
    assert_eq!(point, parse("2023-02-21 17:53:28"));
    assert_eq!(point.into_human(), "2023-02-21 17:53:28");
}

#[test]
fn from_timestamp_checks_the_nanoseconds() {
    assert!(TimePoint::from_timestamp(0, 1_999_999_999).is_none());
    assert!(TimePoint::from_timestamp(59, 1_999_999_999).is_some());
    assert!(TimePoint::from_timestamp(-1, 1_000_000_000).is_some());
    assert!(TimePoint::from_timestamp(-2, 1_000_000_000).is_none());
    assert!(TimePoint::from_timestamp(59, 2_000_000_000).is_none());
    assert!(TimePoint::from_timestamp(0, 999_999_999).is_some());
}

#[test]
fn the_range_ends_where_the_calendar_ends() {
    let last = TimePoint::from_timestamp(8_210_266_876_799, 0).expect("the last second");
    assert_eq!(last.into_human(), "+262142-12-31 23:59:59");
    assert_eq!(parse("+262142-12-31 23:59:59"), last);
    assert!(TimePoint::from_timestamp(8_210_266_876_800, 0).is_none());

    let first = TimePoint::from_timestamp(-8_334_601_228_800, 0).expect("the first second");
    assert_eq!(first.into_human(), "-262143-01-01 00:00:00");
    assert_eq!(parse("-262143-01-01 00:00:00"), first);
    assert_eq!(parse("-262143-01-01"), first);
    assert!(TimePoint::from_timestamp(-8_334_601_228_801, 0).is_none());
    assert!(TimePoint::try_from_human("+262143-01-01").is_err());
}

#[test]
fn order_is_by_seconds_then_nanoseconds() {
    let early = TimePoint::from_timestamp(10, 5).expect("in range");
    let late = TimePoint::from_timestamp(10, 6).expect("in range");
    let later = TimePoint::from_timestamp(11, 0).expect("in range");
    assert!(early.is_before(&late));
    assert!(late.is_before(&later));
    assert!(!late.is_before(&early));
    assert!(!early.is_before(&early));
}

#[test]
fn calendar_date_is_read_alone() {
    let day = CalendarDate::try_from_human("2023-01-02").expect("a valid date");
    assert_eq!(day.epoch_days(), 19359);
    assert_eq!(CalendarDate::try_from_human("1970-01-01").expect("a valid date").epoch_days(), 0);
    assert_eq!(CalendarDate::try_from_human("1969-12-31").expect("a valid date").epoch_days(), -1);
    for text in ["2023-01-02 10:00", "2023/01/02", "", "2023-02-29"] {
        let error = CalendarDate::try_from_human(text).expect_err("an invalid date");
        assert_eq!(error.text, text);
    }
}

#[test]
fn calendar_date_with_a_second_of_the_day() {
    let day = CalendarDate::try_from_human("2023-02-21").expect("a valid date");
    assert_eq!(day.and_second_of_day(0), Some(parse("2023-02-21")));
    assert_eq!(day.and_second_of_day(64408), Some(parse("2023-02-21 17:53:28")));
    assert_eq!(day.and_second_of_day(86_399), Some(parse("2023-02-21 23:59:59")));
    assert_eq!(day.and_second_of_day(86_400), None);
    let early = CalendarDate::try_from_human("1969-12-31").expect("a valid date");
    assert_eq!(early.and_second_of_day(86_370), Some(parse("1969-12-31 23:59:30")));
}

#[test]
fn calendar_dates_follow_each_other() {
    let day = CalendarDate::try_from_human("2023-02-28").expect("a valid date");
    let next = day.next_day().expect("not the last day");
    assert_eq!(next, CalendarDate::try_from_human("2023-03-01").expect("a valid date"));
    assert!(day.is_before(&next));
    assert!(!next.is_before(&day));
    assert!(!day.is_before(&day));
    let last = CalendarDate::try_from_human("+262142-12-31").expect("a valid date");
    assert_eq!(last.epoch_days(), 95_026_236);
    assert_eq!(last.next_day(), None);
    let first = CalendarDate::try_from_human("-262143-01-01").expect("a valid date");
    assert_eq!(first.epoch_days(), -96_465_292);
    assert!(first.next_day().is_some());
}

#[test]
fn written_instants_are_read_back() {
    let mut seconds: i64 = -2_000_000_000;
    while seconds < 4_000_000_000 {
        let point = TimePoint::from_timestamp(seconds, 0).expect("in range");
        let text = point.into_human();
        assert_eq!(text.len(), 19);
        assert_eq!(parse(&text), point);
        assert_eq!(parse(&text).into_human(), text);

        let minute = parse(&text[..16]);
        assert_eq!(minute.timestamp(), seconds - seconds.rem_euclid(60));
        assert_eq!(minute.into_human(), format!("{}:00", &text[..16]));

        let day = parse(&text[..10]);
        assert_eq!(day.timestamp(), seconds - seconds.rem_euclid(86_400));
        assert_eq!(day.into_human(), format!("{} 00:00:00", &text[..10]));

        seconds += 7_654_321;
    }
}
