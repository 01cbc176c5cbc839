use profile_ingest::timestamp::{resolve_timestamp, CalendarInstant, MAX_EPOCH_SECONDS, MIN_EPOCH_SECONDS};

#[test]
fn resolves_an_ordinary_epoch_second() {
    let expected = CalendarInstant {
        epoch_seconds: 1694357860,
        year: 2023,
        month: 9,
        day: 10,
        hour: 14,
        minute: 57,
        second: 40,
        nanosecond: 0,
    };
    assert_eq!(resolve_timestamp(1694357860), Some(expected));
}

#[test]
fn resolves_the_epoch_itself() {
    let t = resolve_timestamp(0).unwrap();
    assert_eq!((t.year, t.month, t.day, t.hour, t.minute, t.second, t.nanosecond), (1970, 1, 1, 0, 0, 0, 0));
    assert_eq!(t.epoch_seconds, 0);
}

#[test]
fn resolves_seconds_before_the_epoch() {
    let t = resolve_timestamp(-1).unwrap();
    assert_eq!((t.year, t.month, t.day, t.hour, t.minute, t.second), (1969, 12, 31, 23, 59, 59));
    assert_eq!(t.epoch_seconds, -1);
}

#[test]
fn earliest_representable_second_resolves() {
    let t = resolve_timestamp(MIN_EPOCH_SECONDS).unwrap();
    assert_eq!((t.year, t.month, t.day, t.hour, t.minute, t.second), (-262143, 1, 1, 0, 0, 0));
    assert_eq!(t.epoch_seconds, MIN_EPOCH_SECONDS);
}

#[test]
fn latest_representable_second_resolves() {
    let t = resolve_timestamp(MAX_EPOCH_SECONDS).unwrap();
    assert_eq!((t.year, t.month, t.day, t.hour, t.minute, t.second), (262142, 12, 31, 23, 59, 59));
    assert_eq!(t.epoch_seconds, MAX_EPOCH_SECONDS);
}

#[test]
fn second_before_the_earliest_is_absent() {
    assert_eq!(resolve_timestamp(MIN_EPOCH_SECONDS - 1), None);
}

#[test]
fn second_after_the_latest_is_absent() {
    assert_eq!(resolve_timestamp(MAX_EPOCH_SECONDS + 1), None);
}

#[test]
fn extreme_epoch_seconds_are_absent() {
    assert_eq!(resolve_timestamp(i64::MAX), None);
    assert_eq!(resolve_timestamp(i64::MIN), None);
}
