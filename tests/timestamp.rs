use iced_tutorial::timestamp::Timestamp;

fn at(year: i32, month: u32, day: u32, hour: u32, minute: u32, second: u32, nanosecond: u32) -> Timestamp {
    Timestamp { year, month, day, hour, minute, second, nanosecond }
}

#[test]
fn display_string_pads_every_field() {
    let t = at(2024, 3, 5, 7, 8, 9, 123_456_789);
    assert_eq!(t.to_display_string(), "2024-03-05 07:08:09.123");
}

#[test]
fn display_string_cuts_milliseconds() {
    let t = at(1999, 12, 31, 23, 59, 59, 999_999_999);
    assert_eq!(t.to_display_string(), "1999-12-31 23:59:59.999");
}

#[test]
fn display_string_of_midnight() {
    let t = at(2000, 1, 1, 0, 0, 0, 0);
    assert_eq!(t.to_display_string(), "2000-01-01 00:00:00.000");
}

#[test]
fn display_string_pads_short_years() {
    assert_eq!(at(999, 6, 15, 12, 30, 45, 5_000_000).to_display_string(), "0999-06-15 12:30:45.005");
    assert_eq!(at(0, 1, 1, 0, 0, 0, 0).to_display_string(), "0000-01-01 00:00:00.000");
}

#[test]
fn display_string_signs_years_outside_four_digits() {
    assert_eq!(at(-5, 3, 5, 7, 8, 9, 0).to_display_string(), "-0005-03-05 07:08:09.000");
    assert_eq!(at(10000, 1, 1, 0, 0, 0, 0).to_display_string(), "+10000-01-01 00:00:00.000");
}

#[test]
fn display_string_at_the_ends_of_the_range() {
    assert_eq!(at(262142, 12, 31, 23, 59, 59, 0).to_display_string(), "+262142-12-31 23:59:59.000");
    assert_eq!(at(-262143, 1, 1, 0, 0, 0, 0).to_display_string(), "-262143-01-01 00:00:00.000");
}

#[test]
fn validity_of_leap_days() {
    assert!(at(2024, 2, 29, 0, 0, 0, 0).is_valid());
    assert!(!at(2023, 2, 29, 0, 0, 0, 0).is_valid());
    assert!(!at(1900, 2, 29, 0, 0, 0, 0).is_valid());
    assert!(at(2000, 2, 29, 0, 0, 0, 0).is_valid());
    assert!(at(-4, 2, 29, 0, 0, 0, 0).is_valid());
}

#[test]
fn validity_of_month_lengths() {
    assert!(at(2023, 4, 30, 0, 0, 0, 0).is_valid());
    assert!(!at(2023, 4, 31, 0, 0, 0, 0).is_valid());
    assert!(at(2023, 12, 31, 0, 0, 0, 0).is_valid());
    assert!(!at(2023, 13, 1, 0, 0, 0, 0).is_valid());
    assert!(!at(2023, 0, 1, 0, 0, 0, 0).is_valid());
    assert!(!at(2023, 1, 0, 0, 0, 0, 0).is_valid());
}

#[test]
fn validity_of_time_of_day() {
    assert!(at(2023, 1, 1, 23, 59, 59, 999_999_999).is_valid());
    assert!(!at(2023, 1, 1, 24, 0, 0, 0).is_valid());
    assert!(!at(2023, 1, 1, 0, 60, 0, 0).is_valid());
    assert!(!at(2023, 1, 1, 0, 0, 60, 0).is_valid());
    assert!(!at(2023, 1, 1, 0, 0, 0, 1_000_000_000).is_valid());
}

#[test]
fn validity_of_year_range() {
    assert!(at(262142, 1, 1, 0, 0, 0, 0).is_valid());
    assert!(!at(262143, 1, 1, 0, 0, 0, 0).is_valid());
    assert!(at(-262143, 1, 1, 0, 0, 0, 0).is_valid());
    assert!(!at(-262144, 1, 1, 0, 0, 0, 0).is_valid());
}

#[test]
fn now_is_valid() {
    let t = Timestamp::now();
    assert!(t.is_valid());
    assert!(t.year >= 1970);
    assert_eq!(t.to_display_string().len(), 23);
}
