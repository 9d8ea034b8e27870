use ocpp_backend::clock::Timestamp;

#[test]
fn from_millis_writes_the_instant_in_rfc_3339() {
    let epoch = Timestamp::from_millis(0).unwrap();
    assert_eq!(epoch.millis(), 0);
    assert_eq!(epoch.text(), "1970-01-01T00:00:00.000Z");
    assert_eq!(
        Timestamp::from_millis(1_700_000_000_123).unwrap().text(),
        "2023-11-14T22:13:20.123Z"
    );
    assert_eq!(Timestamp::from_millis(-1).unwrap().text(), "1969-12-31T23:59:59.999Z");
    assert_eq!(Timestamp::from_millis(947_638_923_004).unwrap().text(), "2000-01-12T01:02:03.004Z");
    assert_eq!(Timestamp::from_millis(-1).unwrap().millis(), -1);
}

#[test]
fn from_millis_gives_nothing_out_of_range() {
    assert_eq!(Timestamp::from_millis(i64::MAX), None);
    assert_eq!(Timestamp::from_millis(i64::MIN), None);
}

#[test]
fn an_instant_is_told_by_its_milliseconds() {
    assert_eq!(Timestamp::from_millis(5), Timestamp::from_millis(5));
    assert_ne!(Timestamp::from_millis(5), Timestamp::from_millis(6));
    let instant = Timestamp::from_millis(1_704_110_400_000).unwrap();
    assert_eq!(instant.clone(), instant);
    assert_eq!(instant.clone().text(), "2024-01-01T12:00:00.000Z");
}

#[test]
fn the_reading_of_a_clock_can_be_written() {
    let reading = chrono::Utc::now().timestamp_millis();
    let now = Timestamp::from_millis(reading).unwrap();
    assert_eq!(now.millis(), reading);
    assert_eq!(now.text().len(), 24);
    assert!(now.text().ends_with('Z'));
}
