use storage_proxy::IStorage;
use storage_proxy::MockStorageB;

/// A fresh mock starts with its boolean at `false` and flips it on demand.
#[test]
fn mock_flip_and_get() {
    let mut mock = MockStorageB::new();
    assert!(!mock.get());
    mock.flip();
    assert!(mock.get());
    mock.flip();
    assert!(!mock.get());
}

/// The mock's `set` is a no-op: `retrieve` reports zero whatever was set,
/// and the mock's own boolean is untouched.
#[test]
fn mock_set_is_noop() {
    let mut mock = MockStorageB::new();
    assert_eq!(mock.retrieve(), 0);
    mock.set(10);
    assert_eq!(mock.retrieve(), 0);
    mock.flip();
    mock.set(u128::MAX);
    assert_eq!(mock.retrieve(), 0);
    assert!(mock.get());
}
