use blog::time::{replace_utc_designator, TimeError, TimeSpan, UnixTimestampSecs};

#[test]
fn timestamp_new_round_trips() {
    assert_eq!(UnixTimestampSecs::new(42).as_i64(), 42);
    assert_eq!(UnixTimestampSecs::new(-7).as_i64(), -7);
}

#[test]
fn saturating_add_clamps_at_max() {
    let t = UnixTimestampSecs::new(i64::MAX - 5);
    assert_eq!(t.saturating_add(TimeSpan::from_secs(10)).as_i64(), i64::MAX);
    assert_eq!(t.saturating_add(TimeSpan::from_secs(5)).as_i64(), i64::MAX);
    assert_eq!(UnixTimestampSecs::new(100).saturating_add(TimeSpan::from_secs(20)).as_i64(), 120);
    let neg = UnixTimestampSecs::new(-10);
    assert_eq!(neg.saturating_add(TimeSpan::from_secs(u64::MAX)).as_i64(), i64::MAX);
}

#[test]
fn saturating_sub_clamps_at_min() {
    let t = UnixTimestampSecs::new(i64::MIN + 3);
    assert_eq!(t.saturating_sub(TimeSpan::from_secs(10)).as_i64(), i64::MIN);
    assert_eq!(UnixTimestampSecs::new(100).saturating_sub(TimeSpan::from_secs(150)).as_i64(), -50);
}

#[test]
fn checked_add_and_sub() {
    let t = UnixTimestampSecs::new(1_000);
    assert_eq!(t.checked_add(TimeSpan::from_secs(5)).map(|x| x.as_i64()), Some(1_005));
    assert_eq!(UnixTimestampSecs::new(i64::MAX).checked_add(TimeSpan::from_secs(1)), None);
    assert_eq!(t.checked_sub(TimeSpan::from_secs(2_000)).map(|x| x.as_i64()), Some(-1_000));
    assert_eq!(UnixTimestampSecs::new(i64::MIN).checked_sub(TimeSpan::from_secs(1)), None);
}

#[test]
fn add_then_sub_gives_back_the_timestamp() {
    let t = UnixTimestampSecs::new(-123_456);
    let d = TimeSpan::from_secs(98_765);
    let back = t.checked_add(d).and_then(|x| x.checked_sub(d));
    assert_eq!(back, Some(t));
    assert_eq!(t.saturating_add(d).saturating_sub(d), t);
}

#[test]
fn subsecond_nanos_do_not_count() {
    let d = TimeSpan::new(3, 999_999_999);
    assert_eq!(d.as_secs(), 3);
    assert_eq!(d.subsec_nanos(), 999_999_999);
    assert_eq!(UnixTimestampSecs::new(10).saturating_add(d).as_i64(), 13);
}

#[test]
fn span_ordering() {
    assert!(TimeSpan::new(1, 5).le(&TimeSpan::new(1, 5)));
    assert!(TimeSpan::new(1, 5).le(&TimeSpan::new(2, 0)));
    assert!(!TimeSpan::new(2, 1).le(&TimeSpan::new(2, 0)));
}

#[test]
fn from_epoch_offset_before_and_after() {
    assert_eq!(UnixTimestampSecs::from_epoch_offset(Ok(60)).map(|t| t.as_i64()), Some(60));
    assert_eq!(UnixTimestampSecs::from_epoch_offset(Err(60)).map(|t| t.as_i64()), Some(-60));
    assert_eq!(UnixTimestampSecs::from_epoch_offset(Ok(u64::MAX)), None);
    assert_eq!(UnixTimestampSecs::from_epoch_offset(Err(1u64 << 63)), None);
    assert_eq!(
        UnixTimestampSecs::from_epoch_offset(Err(i64::MAX as u64)).map(|t| t.as_i64()),
        Some(-i64::MAX)
    );
}

#[test]
fn from_system_time_reads_the_epoch_offset() {
    let t = std::time::UNIX_EPOCH + std::time::Duration::from_secs(1_700_000_000);
    assert_eq!(UnixTimestampSecs::from_system_time(t).map(|x| x.as_i64()), Some(1_700_000_000));
    let before = std::time::UNIX_EPOCH - std::time::Duration::from_secs(86_400);
    assert_eq!(UnixTimestampSecs::from_system_time(before).map(|x| x.as_i64()), Some(-86_400));
}

#[test]
fn utc_designator_is_written_as_offset() {
    assert_eq!(replace_utc_designator("2024-01-02T03:04:05Z"), "2024-01-02T03:04:05+00:00");
    assert_eq!(replace_utc_designator("ZZ"), "+00:00+00:00");
    assert_eq!(replace_utc_designator("no designator"), "no designator");
}

#[test]
fn parses_iso8601_with_z_and_offset() {
    let t = UnixTimestampSecs::from_str_iso8601("2024-07-15T01:14:00Z").unwrap();
    assert_eq!(t.as_i64(), 1_721_006_040);
    let u = UnixTimestampSecs::from_str_iso8601("2024-07-14T21:14:00-04:00").unwrap();
    assert_eq!(u.as_i64(), 1_721_006_040);
    assert_eq!(UnixTimestampSecs::from_str_iso8601("yesterday"), Err(TimeError::Parse));
}

#[test]
fn formats_iso8601_in_utc() {
    assert_eq!(UnixTimestampSecs::new(0).into_str_iso8601().unwrap(), "1970-01-01T00:00:00Z");
    assert_eq!(
        UnixTimestampSecs::new(1_721_006_040).into_str_iso8601().unwrap(),
        "2024-07-15T01:14:00Z"
    );
    assert_eq!(UnixTimestampSecs::new(i64::MAX).into_str_iso8601(), Err(TimeError::OutOfRange));
}

#[test]
fn iso8601_round_trip() {
    let t = UnixTimestampSecs::new(1_234_567_890);
    let text = t.into_str_iso8601().unwrap();
    assert_eq!(UnixTimestampSecs::from_str_iso8601(&text), Ok(t));
}

#[test]
fn day_starts_in_utc() {
    let t = UnixTimestampSecs::new(1_721_006_040);
    assert_eq!(t.today_start_utc().unwrap().as_i64(), 1_721_001_600);
    assert_eq!(t.tomorrow_start_utc().unwrap().as_i64(), 1_721_088_000);
    assert_eq!(UnixTimestampSecs::new(i64::MAX).today_start_utc(), Err(TimeError::OutOfRange));
    assert_eq!(UnixTimestampSecs::new(i64::MIN).tomorrow_start_utc(), Err(TimeError::OutOfRange));
}

#[test]
fn local_day_start_is_not_later() {
    let t = UnixTimestampSecs::new(1_721_006_040);
    let start = t.today_start_local().unwrap();
    assert!(start.as_i64() <= t.as_i64());
    let next = t.tomorrow_start_local().unwrap();
    assert!(next.as_i64() > t.as_i64());
}

#[test]
fn now_is_after_2020() {
    assert!(UnixTimestampSecs::now().unwrap().as_i64() > 1_577_836_800);
}

#[test]
fn utc_day_start_at_the_edges_of_the_range() {
    // Timestamp::MIN is -377705023201, Timestamp::MAX is 253402207200.
    assert_eq!(UnixTimestampSecs::new(-377_705_023_201).today_start_utc(), Err(TimeError::OutOfRange));
    assert_eq!(UnixTimestampSecs::new(-377_704_944_001).today_start_utc(), Err(TimeError::OutOfRange));
    assert_eq!(
        UnixTimestampSecs::new(-377_704_944_000).today_start_utc().unwrap().as_i64(),
        -377_704_944_000
    );
    assert_eq!(
        UnixTimestampSecs::new(253_402_207_200).today_start_utc().unwrap().as_i64(),
        253_402_128_000
    );
    assert_eq!(UnixTimestampSecs::new(253_402_207_201).today_start_utc(), Err(TimeError::OutOfRange));
}

#[test]
fn utc_next_day_start_at_the_edges_of_the_range() {
    assert_eq!(
        UnixTimestampSecs::new(-377_705_023_201).tomorrow_start_utc().unwrap().as_i64(),
        -377_704_944_000
    );
    assert_eq!(UnixTimestampSecs::new(-377_705_023_202).tomorrow_start_utc(), Err(TimeError::OutOfRange));
    assert_eq!(
        UnixTimestampSecs::new(253_402_120_800).tomorrow_start_utc().unwrap().as_i64(),
        253_402_128_000
    );
    assert_eq!(UnixTimestampSecs::new(253_402_120_801).tomorrow_start_utc(), Err(TimeError::OutOfRange));
}

#[test]
fn utc_day_start_before_the_epoch() {
    let t = UnixTimestampSecs::new(-1);
    assert_eq!(t.today_start_utc().unwrap().as_i64(), -86_400);
    assert_eq!(t.tomorrow_start_utc().unwrap().as_i64(), 0);
    assert_eq!(UnixTimestampSecs::new(0).today_start_utc().unwrap().as_i64(), 0);
}

#[test]
fn day_boundary_maps_to_timestamp_or_out_of_range() {
    assert_eq!(UnixTimestampSecs::from_day_boundary(Some(86_400)).unwrap().as_i64(), 86_400);
    assert_eq!(UnixTimestampSecs::from_day_boundary(None), Err(TimeError::OutOfRange));
}

#[test]
fn zoned_day_start_refuses_seconds_outside_the_range() {
    let far = UnixTimestampSecs::new(i64::MAX);
    assert_eq!(far.today_start(jiff::tz::TimeZone::UTC), Err(TimeError::OutOfRange));
    assert_eq!(far.tomorrow_start(jiff::tz::TimeZone::UTC), Err(TimeError::OutOfRange));
    assert_eq!(far.today_start_local(), Err(TimeError::OutOfRange));
    assert_eq!(far.tomorrow_start_local(), Err(TimeError::OutOfRange));
}

#[test]
fn now_lies_in_the_timestamp_range() {
    let n = UnixTimestampSecs::now().unwrap().as_i64();
    assert!(n >= -377_705_023_201 && n <= 253_402_207_200);
}

#[test]
fn day_start_in_a_fixed_zone() {
    // 2024-07-15T01:14:00Z is 2024-07-15T03:14:00 at +02:00, whose day began at 2024-07-14T22:00:00Z.
    let zone = jiff::tz::TimeZone::fixed(jiff::tz::offset(2));
    let t = UnixTimestampSecs::new(1_721_006_040);
    assert_eq!(t.today_start(zone.clone()).unwrap().as_i64(), 1_720_994_400);
    assert_eq!(t.tomorrow_start(zone).unwrap().as_i64(), 1_721_080_800);
}
