//! File naming and path derivation.

use tsukimi::key::{ResourceKey, ResourceKind};
use tsukimi::store::CacheStore;

#[test]
fn primary_file_name_has_no_prefix() {
    let k = ResourceKey::new(ResourceKind::Primary, String::from("abc123"));
    assert_eq!(k.file_name(), "abc123.png");
}

#[test]
fn thumb_file_name_has_t_prefix() {
    let k = ResourceKey::new(ResourceKind::Thumb, String::from("xyz"));
    assert_eq!(k.file_name(), "txyz.png");
}

#[test]
fn backdrop_file_name_has_b_prefix() {
    let k = ResourceKey::new(ResourceKind::Backdrop, String::from("42"));
    assert_eq!(k.file_name(), "b42.png");
}

#[test]
fn logo_file_name_has_l_prefix() {
    let k = ResourceKey::new(ResourceKind::Logo, String::from("42"));
    assert_eq!(k.file_name(), "l42.png");
}

#[test]
fn path_for_joins_root_and_file_name() {
    let store = CacheStore::new(String::from("/tmp/cache"));
    let k = ResourceKey::new(ResourceKind::Primary, String::from("abc123"));
    assert_eq!(store.path_for(&k), "/tmp/cache/abc123.png");
}

#[test]
fn path_for_is_stable_across_calls() {
    let store = CacheStore::new(String::from("root"));
    let k1 = ResourceKey::new(ResourceKind::Logo, String::from("id9"));
    let k2 = ResourceKey::new(ResourceKind::Logo, String::from("id9"));
    assert_eq!(store.path_for(&k1), store.path_for(&k1));
    assert_eq!(store.path_for(&k1), store.path_for(&k2));
}

#[test]
fn distinct_pairs_get_distinct_paths() {
    let store = CacheStore::new(String::from("root"));
    let keys = [
        ResourceKey::new(ResourceKind::Primary, String::from("a")),
        ResourceKey::new(ResourceKind::Thumb, String::from("a")),
        ResourceKey::new(ResourceKind::Backdrop, String::from("a")),
        ResourceKey::new(ResourceKind::Logo, String::from("a")),
        ResourceKey::new(ResourceKind::Primary, String::from("b")),
    ];
    for i in 0..keys.len() {
        for j in 0..keys.len() {
            if i != j {
                assert_ne!(store.path_for(&keys[i]), store.path_for(&keys[j]));
            }
        }
    }
}

#[test]
fn primary_id_spelling_a_prefix_shadows_that_entry() {
    // The acknowledged limit of the naming scheme: a Primary identifier that
    // itself begins with another category's prefix letter names the same
    // file as that category's entry.
    let store = CacheStore::new(String::from("root"));
    let a = ResourceKey::new(ResourceKind::Primary, String::from("txyz"));
    let b = ResourceKey::new(ResourceKind::Thumb, String::from("xyz"));
    assert_eq!(store.path_for(&a), store.path_for(&b));
}
