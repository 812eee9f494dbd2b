use barista::clock::{created_at_millis, footer_time, UTC_MILLIS_MAX, UTC_MILLIS_MIN};

#[test]
fn created_at_matches_serenity() {
    for id in [1u64, 175928847299117063, 80351110224678912, u64::MAX] {
        let ours = created_at_millis(id);
        let theirs = serenity::model::id::UserId::new(id).created_at();
        assert_eq!(ours, theirs.timestamp_millis());
    }
}

#[test]
fn created_at_of_known_id() {
    assert_eq!(created_at_millis(175928847299117063), 1462015105796);
}

#[test]
fn footer_time_of_known_instant() {
    assert_eq!(footer_time(1462015105796), "Apr, 30 2016 11:18:25 AM");
    assert_eq!(footer_time(0), "Jan,  1 1970 12:00:00 AM");
}

#[test]
fn footer_time_matches_serenity_rendering() {
    let id = 80351110224678912u64;
    let ts = serenity::model::id::UserId::new(id).created_at();
    assert_eq!(footer_time(created_at_millis(id)), ts.format("%b, %e %Y %r").to_string());
}

#[test]
fn utc_bounds_are_chronos() {
    assert!(chrono::DateTime::from_timestamp_millis(UTC_MILLIS_MIN).is_some());
    assert!(chrono::DateTime::from_timestamp_millis(UTC_MILLIS_MIN - 1).is_none());
    assert!(chrono::DateTime::from_timestamp_millis(UTC_MILLIS_MAX).is_some());
    assert!(chrono::DateTime::from_timestamp_millis(UTC_MILLIS_MAX + 1).is_none());
    let _ = footer_time(UTC_MILLIS_MIN);
    let _ = footer_time(UTC_MILLIS_MAX);
}
