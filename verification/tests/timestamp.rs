use fstdout_logger::Timestamp;
use fstdout_logger::timestamp::ClockParts;

#[test]
fn in_range_fields_are_accepted() {
    let t = Timestamp::new(2024, 12, 31, 23, 59, 59).unwrap();
    assert_eq!(t.year, 2024);
    assert_eq!(t.month, 12);
    assert_eq!(t.day, 31);
    assert_eq!(t.hour, 23);
    assert_eq!(t.minute, 59);
    assert_eq!(t.second, 59);
}

#[test]
fn out_of_range_fields_are_refused() {
    assert!(Timestamp::new(10000, 1, 1, 0, 0, 0).is_none());
    assert!(Timestamp::new(2024, 0, 1, 0, 0, 0).is_none());
    assert!(Timestamp::new(2024, 13, 1, 0, 0, 0).is_none());
    assert!(Timestamp::new(2024, 1, 0, 0, 0, 0).is_none());
    assert!(Timestamp::new(2024, 1, 32, 0, 0, 0).is_none());
    assert!(Timestamp::new(2024, 1, 1, 24, 0, 0).is_none());
    assert!(Timestamp::new(2024, 1, 1, 0, 60, 0).is_none());
    assert!(Timestamp::new(2024, 1, 1, 0, 0, 60).is_none());
}

#[test]
fn clock_years_are_clamped_to_four_digits() {
    let base = ClockParts { year: 2024, month: 6, day: 15, hour: 12, minute: 30, second: 45 };
    assert_eq!(Timestamp::from_clock(base).year, 2024);
    let far_past = ClockParts { year: -44, ..base };
    assert_eq!(Timestamp::from_clock(far_past).year, 0);
    let far_future = ClockParts { year: 123456, ..base };
    assert_eq!(Timestamp::from_clock(far_future).year, 9999);
    let kept = Timestamp::from_clock(base);
    assert_eq!(kept.month, 6);
    assert_eq!(kept.second, 45);
}

#[test]
fn the_clock_reads_well_formed() {
    let t = Timestamp::now();
    assert!((1..=12).contains(&t.month));
    assert!((1..=31).contains(&t.day));
    assert!(t.hour < 24);
    assert!(t.minute < 60);
    assert!(t.second < 60);
    assert!(t.year <= 9999);
}
