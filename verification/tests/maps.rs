use std::collections::HashMap;
use std::collections::hash_map::RandomState;
use web_server::maps::map_with_capacity;
use web_server::maps::map_with_capacity_and_hasher;
use web_server::maps::map_with_hasher;
use web_server::maps::new_map;

/// test for empty map
#[test]
fn empty_map() {
    let map: HashMap<String, String> = new_map();
    assert!(map.is_empty());
}

/// test for capacity check map
#[test]
fn capacity_map() {
    let capacity = 100;
    let map: HashMap<String, String> = map_with_capacity(capacity);
    assert!(map.is_empty());
    assert!(map.capacity() >= capacity);
}

/// test for hash builder
#[test]
fn hash_builder_map() {
    let hash_builder = RandomState::new();
    let map: HashMap<String, String> = map_with_hasher(hash_builder);
    assert!(map.is_empty());
}

/// test for hash builder with capacity
#[test]
fn hash_builder_and_capacity_map() {
    let hash_builder = RandomState::new();
    let capacity = 100;
    let map: HashMap<String, String> = map_with_capacity_and_hasher(capacity, hash_builder);
    assert!(map.is_empty());
    assert!(map.capacity() >= capacity);
}
