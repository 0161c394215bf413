use std::sync::Arc;
use zingo_bridge::registry::Registry;

#[test]
fn new_registry_is_empty() {
    let registry: Registry<u32> = Registry::new();
    assert!(!registry.is_installed());
    assert!(registry.current().is_none());
}

#[test]
fn install_then_current_returns_the_handle() {
    let mut registry = Registry::new();
    let handle = Arc::new(String::from("wallet-a"));
    registry.install(handle.clone());
    assert!(registry.is_installed());
    let current = registry.current().expect("a handle is installed");
    assert!(Arc::ptr_eq(&current, &handle));
    assert_eq!(*current, "wallet-a");
}

#[test]
fn current_hands_out_a_new_reference_each_time() {
    let mut registry = Registry::new();
    let handle = Arc::new(5u32);
    registry.install(handle.clone());
    assert_eq!(Arc::strong_count(&handle), 2);
    let first = registry.current().expect("installed");
    assert_eq!(Arc::strong_count(&handle), 3);
    let second = registry.current().expect("installed");
    assert_eq!(Arc::strong_count(&handle), 4);
    assert!(Arc::ptr_eq(&first, &second));
    drop(first);
    drop(second);
    assert_eq!(Arc::strong_count(&handle), 2);
}

#[test]
fn install_replaces_the_previous_handle() {
    let mut registry = Registry::new();
    let first = Arc::new(1u32);
    let second = Arc::new(2u32);
    registry.install(first.clone());
    registry.install(second.clone());
    let current = registry.current().expect("installed");
    assert!(Arc::ptr_eq(&current, &second));
    assert_eq!(Arc::strong_count(&first), 1);
}

#[test]
fn clear_empties_the_slot() {
    let mut registry = Registry::new();
    registry.install(Arc::new(1u32));
    registry.clear();
    assert!(!registry.is_installed());
    assert!(registry.current().is_none());
}

#[test]
fn clear_of_an_empty_slot_is_harmless() {
    let mut registry: Registry<u32> = Registry::new();
    registry.clear();
    registry.clear();
    assert!(registry.current().is_none());
}

#[test]
fn cloned_reference_survives_clear() {
    let mut registry = Registry::new();
    registry.install(Arc::new(String::from("in flight")));
    let held = registry.current().expect("installed");
    registry.clear();
    assert_eq!(*held, "in flight");
    assert_eq!(Arc::strong_count(&held), 1);
}

#[test]
fn cloned_reference_survives_replacement() {
    let mut registry = Registry::new();
    registry.install(Arc::new(String::from("first")));
    let held = registry.current().expect("installed");
    registry.install(Arc::new(String::from("second")));
    assert_eq!(*held, "first");
    assert_eq!(*registry.current().expect("installed"), "second");
}

#[test]
fn slot_holds_what_the_last_change_put_there() {
    let mut registry = Registry::new();
    registry.install(Arc::new(1u32));
    registry.clear();
    registry.install(Arc::new(2u32));
    registry.install(Arc::new(3u32));
    assert_eq!(registry.current().map(|handle| *handle), Some(3));
    registry.clear();
    assert_eq!(registry.current().map(|handle| *handle), None);
}

#[test]
fn reads_around_a_clear_see_prior_or_empty() {
    let mut registry = Registry::new();
    let prior = Arc::new(9u32);
    registry.install(prior.clone());
    let before = registry.current();
    registry.clear();
    let after = registry.current();
    assert!(Arc::ptr_eq(&before.expect("read before the clear"), &prior));
    assert!(after.is_none());
}
