use governance_spine::system::{epoch_nanos, now_nanos, random_uuid_simple};

#[test]
fn clock_readings_to_nanoseconds() {
    assert_eq!(epoch_nanos(Ok((1, 5))), Some(1_000_000_005));
    assert_eq!(epoch_nanos(Ok((0, 0))), Some(0));
    assert_eq!(epoch_nanos(Err((1, 0))), Some(-1_000_000_000));
    assert_eq!(epoch_nanos(Ok((9_223_372_036, 854_775_807))), Some(i64::MAX));
    assert_eq!(epoch_nanos(Ok((9_223_372_036, 854_775_808))), None);
    assert_eq!(epoch_nanos(Err((9_223_372_036, 854_775_808))), Some(i64::MIN));
    assert_eq!(epoch_nanos(Err((9_223_372_036, 854_775_809))), None);
    assert_eq!(epoch_nanos(Ok((u64::MAX, 999_999_999))), None);
}

#[test]
fn current_time_is_after_the_epoch() {
    let now = now_nanos().expect("clock within range");
    assert!(now > 1_600_000_000_000_000_000);
}

#[test]
fn random_uuid_is_32_lowercase_hex_digits_of_a_version_4_uuid() {
    let a = random_uuid_simple().expect("random source");
    let b = random_uuid_simple().expect("random source");
    assert_eq!(a.len(), 32);
    assert!(a.chars().all(|c| c.is_ascii_digit() || ('a'..='f').contains(&c)));
    assert_eq!(&a[12..13], "4");
    assert!(matches!(&a[16..17], "8" | "9" | "a" | "b"));
    assert_ne!(a, b);
}
