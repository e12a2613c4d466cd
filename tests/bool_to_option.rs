use inject::bool_to_option::BoolToOption;

#[test]
fn test_and() {
    let a = true.and(1);
    let b = false.and(0);
    assert_eq!(a, Some(1));
    assert_eq!(b, None);
}

#[test]
fn test_and_then() {
    let a = true.and_then(|| 1);
    let b = false.and_then(|| 0);
    assert_eq!(a, Some(1));
    assert_eq!(b, None);
}

#[test]
fn test_or() {
    let a = true.or(1);
    let b = false.or(0);
    assert_eq!(a, None);
    assert_eq!(b, Some(0));
}

#[test]
fn test_or_then() {
    let a = true.or_then(|| 1);
    let b = false.or_then(|| 0);
    assert_eq!(a, None);
    assert_eq!(b, Some(0));
}
