use linehaul::timestamp::Timestamp;

#[test]
fn timestamp_new_accepts_instants() {
    assert_eq!(
        Timestamp::new(2021, 5, 1, 12, 0, 0),
        Some(Timestamp { year: 2021, month: 5, day: 1, hour: 12, minute: 0, second: 0 })
    );
    assert!(Timestamp::new(2024, 2, 29, 0, 0, 0).is_some());
    assert!(Timestamp::new(0, 1, 1, 0, 0, 0).is_some());
    assert!(Timestamp::new(9999, 12, 31, 23, 59, 59).is_some());
}

#[test]
fn timestamp_new_refuses_what_is_no_instant() {
    assert_eq!(Timestamp::new(2023, 2, 29, 0, 0, 0), None);
    assert_eq!(Timestamp::new(2100, 2, 29, 0, 0, 0), None);
    assert_eq!(Timestamp::new(2021, 0, 1, 0, 0, 0), None);
    assert_eq!(Timestamp::new(2021, 13, 1, 0, 0, 0), None);
    assert_eq!(Timestamp::new(2021, 1, 0, 0, 0, 0), None);
    assert_eq!(Timestamp::new(2021, 1, 32, 0, 0, 0), None);
    assert_eq!(Timestamp::new(2021, 6, 31, 0, 0, 0), None);
    assert_eq!(Timestamp::new(2021, 1, 1, 24, 0, 0), None);
    assert_eq!(Timestamp::new(2021, 1, 1, 0, 60, 0), None);
    assert_eq!(Timestamp::new(2021, 1, 1, 0, 0, 60), None);
    assert_eq!(Timestamp::new(-1, 1, 1, 0, 0, 0), None);
    assert_eq!(Timestamp::new(10000, 1, 1, 0, 0, 0), None);
}

#[test]
fn days_of_each_month() {
    let days = [31u32, 28, 31, 30, 31, 30, 31, 31, 30, 31, 30, 31];
    for (i, last) in days.iter().enumerate() {
        let month = i as u32 + 1;
        assert!(Timestamp::new(2021, month, *last, 0, 0, 0).is_some());
        assert!(Timestamp::new(2021, month, *last + 1, 0, 0, 0).is_none());
    }
}

#[test]
fn timestamp_is_written_with_padding() {
    let t = Timestamp { year: 2021, month: 5, day: 3, hour: 12, minute: 0, second: 9 };
    assert_eq!(t.to_rfc3339(), Some("2021-05-03T12:00:09Z".to_string()));
    let t = Timestamp { year: 7, month: 12, day: 31, hour: 23, minute: 59, second: 59 };
    assert_eq!(t.to_rfc3339(), Some("0007-12-31T23:59:59Z".to_string()));
}

#[test]
fn timestamp_that_is_no_instant_is_not_written() {
    let t = Timestamp { year: 2021, month: 2, day: 30, hour: 0, minute: 0, second: 0 };
    assert!(!t.is_valid());
    assert_eq!(t.to_rfc3339(), None);
    let t = Timestamp { year: 2021, month: 2, day: 28, hour: 0, minute: 0, second: 0 };
    assert!(t.is_valid());
}
