use ponder::commands::parse_date_range;
use ponder::dates::Date;
use ponder::errors::AppError;
use ponder::journal_core::DateSpecifier;
use ponder::journal_logic::format_date_time_header;
use ponder::dates::LocalDateTime;

fn d(y: i32, m: u32, day: u32) -> Date {
    Date::from_ymd_opt(y, m, day).unwrap()
}

#[test]
fn from_ymd_opt_accepts_existing_days_only() {
    assert!(Date::from_ymd_opt(2024, 2, 29).is_some());
    assert!(Date::from_ymd_opt(2023, 2, 29).is_none());
    assert!(Date::from_ymd_opt(1900, 2, 29).is_none());
    assert!(Date::from_ymd_opt(2000, 2, 29).is_some());
    assert!(Date::from_ymd_opt(-4, 2, 29).is_some());
    assert!(Date::from_ymd_opt(2023, 4, 31).is_none());
    assert!(Date::from_ymd_opt(2023, 13, 1).is_none());
    assert!(Date::from_ymd_opt(2023, 1, 0).is_none());
    assert!(Date::from_ymd_opt(262142, 12, 31).is_some());
    assert!(Date::from_ymd_opt(262143, 1, 1).is_none());
    assert!(Date::from_ymd_opt(-262143, 1, 1).is_some());
    assert!(Date::from_ymd_opt(-262144, 12, 31).is_none());
    let x = d(2023, 6, 15);
    assert_eq!((x.year(), x.month(), x.day()), (2023, 6, 15));
}

#[test]
fn months_back_clamps_to_month_end() {
    let dates = DateSpecifier::Reminisce.resolve_dates(d(2024, 3, 31));
    assert_eq!(dates[0], d(2024, 2, 29));
    assert_eq!(dates[1], d(2023, 12, 31));
    assert_eq!(dates[2], d(2023, 9, 30));
    assert_eq!(dates[3], d(2023, 3, 31));
    let dates = DateSpecifier::Reminisce.resolve_dates(d(2022, 8, 31));
    assert_eq!(&dates[..3], &[d(2022, 7, 31), d(2022, 5, 31), d(2022, 2, 28)]);
    // Near the earliest supported year, intervals that fall before it are left out.
    let early = DateSpecifier::Reminisce.resolve_dates(d(-262143, 3, 1));
    assert_eq!(early, vec![d(-262143, 2, 1)]);
}

#[test]
fn minus_days_crosses_month_and_year_boundaries() {
    assert_eq!(DateSpecifier::Retro.resolve_dates(d(2023, 3, 1))[0], d(2023, 2, 28));
    assert_eq!(DateSpecifier::Retro.resolve_dates(d(2024, 3, 1))[0], d(2024, 2, 29));
    assert_eq!(DateSpecifier::Retro.resolve_dates(d(2023, 1, 3))[6], d(2022, 12, 27));
}

#[test]
fn is_before_is_calendar_order() {
    assert!(d(2022, 12, 31).is_before(&d(2023, 1, 1)));
    assert!(d(2023, 1, 1).is_before(&d(2023, 1, 2)));
    assert!(!d(2023, 1, 2).is_before(&d(2023, 1, 2)));
    assert!(!d(2023, 2, 1).is_before(&d(2023, 1, 31)));
}

#[test]
fn parse_reads_formats_and_reports_chrono_messages() {
    assert_eq!(DateSpecifier::parse_date_string("2023-01-15").unwrap(), d(2023, 1, 15));
    assert_eq!(DateSpecifier::parse_date_string("20230115").unwrap(), d(2023, 1, 15));
    match parse_date_range(Some("2023-02-30"), Some("2023-03-01")) {
        Err(AppError::Journal(m)) => assert_eq!(m, "Invalid 'from' date: input is out of range"),
        other => panic!("unexpected {:?}", other),
    }
    match parse_date_range(Some("2023-02-01"), Some("invalid-date")) {
        Err(AppError::Journal(m)) => assert_eq!(m, "Invalid 'to' date: input contains invalid characters"),
        other => panic!("unexpected {:?}", other),
    }
}

#[test]
fn header_date_format() {
    let t = LocalDateTime { date: d(2023, 1, 15), hour: 9, minute: 5, second: 7, nanosecond: 0 };
    assert_eq!(format_date_time_header(&t), "# January 15, 2023: Sunday\n\n## 09:05:07\n\n");
    let t = LocalDateTime { date: d(2025, 5, 29), hour: 23, minute: 59, second: 59, nanosecond: 0 };
    assert!(format_date_time_header(&t).starts_with("# May 29, 2025: Thursday\n"));
}

#[test]
fn the_clock_gives_a_date_from_1969_on() {
    let today = DateSpecifier::Today.get_dates();
    assert_eq!(today.len(), 1);
    assert!(today[0].year() >= 1969);
}
