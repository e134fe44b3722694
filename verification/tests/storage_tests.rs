use storage_proxy::Backend;
use storage_proxy::IStorage;
use storage_proxy::Identity;
use storage_proxy::Project;
use storage_proxy::Storage;

/// A freshly constructed production backend reports zero.
#[test]
fn test_new() {
    let storage = Storage::new();
    assert_eq!(storage.retrieve(), 0);
}

/// Setting a value on the production backend is observed by the next
/// retrieve.
#[test]
fn test_set() {
    let mut storage = Storage::new();
    assert_eq!(storage.retrieve(), 0);
    storage.set(10);
    assert_eq!(storage.retrieve(), 10);
}

/// A production backend reached through the dynamic handle starts at zero.
#[test]
fn test_new_e2e() {
    let backend = Backend::Production(Storage::new());
    assert_eq!(backend.retrieve(), 0);
}

/// A value written through the dynamic handle is read back through it.
#[test]
fn lib_test_set_e2e() {
    let mut backend = Backend::Production(Storage::new());
    backend.set(10);
    assert_eq!(backend.retrieve(), 10);
}

/// The round-trip holds at the edges of the value range.
#[test]
fn roundtrip_extreme_values() {
    let mut storage = Storage::new();
    storage.set(u128::MAX);
    assert_eq!(storage.retrieve(), u128::MAX);
    storage.set(0);
    assert_eq!(storage.retrieve(), 0);
    storage.set(1);
    assert_eq!(storage.retrieve(), 1);
}

/// `set` overwrites the value but leaves the reserved record collection
/// exactly as it was.
#[test]
fn set_leaves_records_untouched() {
    let mut storage = Storage::new();
    assert_eq!(storage.projects.len(), 0);
    let owner = Identity { id: 7 };
    storage.projects.push((
        owner,
        Project {
            name: String::from("alpha"),
            description: String::from("first record"),
            owner,
            status: 1,
            available_credits: 3,
            total_credits: 5,
        },
    ));
    storage.set(42);
    assert_eq!(storage.retrieve(), 42);
    assert_eq!(storage.projects.len(), 1);
    assert_eq!(storage.projects[0].0, owner);
    assert_eq!(storage.projects[0].1.name, "alpha");
    assert_eq!(storage.projects[0].1.available_credits, 3);
    assert_eq!(storage.projects[0].1.total_credits, 5);
}
