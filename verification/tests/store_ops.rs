//! The cache store: writing, presence, reading back, clearing.

use tsukimi::key::{ResourceKey, ResourceKind};
use tsukimi::store::CacheStore;

fn key(kind: ResourceKind, id: &str) -> ResourceKey {
    ResourceKey::new(kind, String::from(id))
}

#[test]
fn written_key_is_present_and_reads_back() {
    let mut store = CacheStore::new(String::from("root"));
    let k = key(ResourceKind::Primary, "abc123");
    assert!(!store.contains(&k));
    assert!(store.read(&k).is_none());
    store.write(&k, &vec![1u8, 2, 3]);
    assert!(store.contains(&k));
    assert_eq!(store.read(&k), Some(vec![1u8, 2, 3]));
}

#[test]
fn write_overwrites_prior_content() {
    let mut store = CacheStore::new(String::from("root"));
    let k = key(ResourceKind::Thumb, "x");
    store.write(&k, &vec![1u8]);
    store.write(&k, &vec![9u8, 9]);
    assert_eq!(store.read(&k), Some(vec![9u8, 9]));
}

#[test]
fn writes_of_distinct_keys_do_not_conflict() {
    let mut store = CacheStore::new(String::from("root"));
    let a = key(ResourceKind::Primary, "a");
    let b = key(ResourceKind::Thumb, "a");
    store.write(&a, &vec![1u8]);
    store.write(&b, &vec![2u8]);
    assert_eq!(store.read(&a), Some(vec![1u8]));
    assert_eq!(store.read(&b), Some(vec![2u8]));
}

#[test]
fn first_write_creates_the_root_and_later_writes_do_not() {
    let mut store = CacheStore::new(String::from("root"));
    assert!(!store.is_root_present());
    let k = key(ResourceKind::Backdrop, "v");
    let plan1 = store.write(&k, &vec![1u8]);
    assert!(plan1.created_root);
    assert!(store.is_root_present());
    let plan2 = store.write(&k, &vec![2u8]);
    assert!(!plan2.created_root);
}

#[test]
fn write_plan_names_the_entry_path() {
    let mut store = CacheStore::new(String::from("/tmp/cache"));
    let k = key(ResourceKind::Logo, "id1");
    let plan = store.write(&k, &vec![1u8]);
    assert_eq!(plan.path, "/tmp/cache/lid1.png");
    assert_eq!(plan.path, store.path_for(&k));
}

#[test]
fn clear_all_removes_root_and_every_entry() {
    let mut store = CacheStore::new(String::from("root"));
    let a = key(ResourceKind::Primary, "a");
    let b = key(ResourceKind::Logo, "b");
    store.write(&a, &vec![1u8]);
    store.write(&b, &vec![2u8]);
    assert!(store.is_root_present());
    store.clear_all();
    assert!(!store.is_root_present());
    assert!(!store.contains(&a));
    assert!(!store.contains(&b));
    assert!(store.read(&a).is_none());
}
