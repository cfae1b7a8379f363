use desktop_app::clock::Timestamp;

#[test]
fn clock_fields_pass_through() {
    let ts = Timestamp::from_clock_fields(2026, 10, 11, 12, 13, 14);
    assert_eq!(ts.year, 2026);
    assert_eq!(ts.month, 10);
    assert_eq!(ts.day, 11);
    assert_eq!(ts.hour, 12);
    assert_eq!(ts.minute, 13);
    assert_eq!(ts.second, 14);
}

#[test]
fn out_of_range_years_are_clamped() {
    let early = Timestamp::from_clock_fields(-44, 3, 15, 12, 0, 0);
    assert_eq!(early.year, 0);
    let late = Timestamp::from_clock_fields(123_456, 3, 15, 12, 0, 0);
    assert_eq!(late.year, 9999);
}

#[test]
fn the_clock_reading_is_renderable() {
    let now = Timestamp::now();
    assert!(now.year <= 9999);
    assert!((1..=12).contains(&now.month));
    assert!((1..=31).contains(&now.day));
    assert!(now.hour <= 23);
    assert!(now.minute <= 59);
    assert!(now.second <= 59);
}
