//! The optional-value bridge: presence predicates, borrowing, and the
//! round trips through the native optional type.

use azul_desktop::optional::OptionalValue;

#[test]
fn wrap_none_is_none() {
    let v: OptionalValue<u32> = OptionalValue::from_option(None);
    assert!(v.is_none());
    assert!(!v.is_some());
}

#[test]
fn wrap_some_round_trips_copy_payload() {
    let v: OptionalValue<u32> = OptionalValue::from_option(Some(17));
    assert!(v.is_some());
    assert_eq!(v.to_option(), Some(17));
    assert_eq!(v.into_option(), Some(17));
}

#[test]
fn wrap_some_round_trips_move_payload() {
    let v: OptionalValue<String> = OptionalValue::from_option(Some(String::from("frame")));
    assert!(v.is_some());
    assert_eq!(v.into_option(), Some(String::from("frame")));
}

#[test]
fn round_trip_from_wrapper_side() {
    let v: OptionalValue<i32> = OptionalValue::from_option(Some(-3));
    let o: Option<i32> = v.into_option();
    let v2: OptionalValue<i32> = OptionalValue::from_option(o);
    assert!(v2.is_some());
    assert_eq!(v2.into_option(), Some(-3));
}

#[test]
fn is_some_and_is_none_are_complements() {
    let present: OptionalValue<u64> = OptionalValue::from_option(Some(0));
    let absent: OptionalValue<u64> = OptionalValue::from_option(None);
    assert_ne!(present.is_some(), present.is_none());
    assert_ne!(absent.is_some(), absent.is_none());
}

#[test]
fn default_is_absent() {
    let v: OptionalValue<usize> = Default::default();
    assert!(v.is_none());
}

#[test]
fn as_option_borrows_without_consuming() {
    let v: OptionalValue<String> = OptionalValue::from_option(Some(String::from("title")));
    assert_eq!(v.as_option().map(|s| s.as_str()), Some("title"));
    // still usable afterwards
    assert!(v.is_some());
    assert_eq!(v.into_option(), Some(String::from("title")));
}

#[test]
fn set_and_clear_in_place() {
    let mut v: OptionalValue<u32> = OptionalValue::from_option(None);
    v.set_value(9);
    assert!(v.is_some());
    assert_eq!(v.to_option(), Some(9));
    v.clear();
    assert!(v.is_none());
    assert_eq!(v.to_option(), None);
}
