use std::sync::Arc;

use inject::id;

#[derive(Debug, PartialEq, Clone, Copy)]
struct FakeImpl {
    val: isize,
}

#[derive(Debug, PartialEq, Clone, Copy)]
struct FakeImpl2 {
    val: isize,
}

#[test]
fn test_reference_of_type_does_not_share_type_id_with_type() {
    assert_ne!(id::<FakeImpl>(), id::<Arc<FakeImpl>>())
}

#[test]
fn test_references_of_different_types_do_not_share_type_id() {
    assert_ne!(id::<Arc<FakeImpl>>(), id::<Arc<FakeImpl2>>())
}

#[test]
fn identity_is_stable_for_one_type() {
    assert_eq!(id::<FakeImpl>(), id::<FakeImpl>());
    assert_ne!(id::<FakeImpl>(), id::<&'static FakeImpl>());
}
