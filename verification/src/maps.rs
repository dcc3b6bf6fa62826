use vstd::prelude::*;
use std::collections::HashMap;

verus! {

/// An empty map with the default hasher.
pub fn new_map<K, V>() -> (m: HashMap<K, V>)
    ensures
        m@ == Map::<K, V>::empty(),
{
    HashMap::new()
}

/// An empty map with room for `capacity` entries before it reallocates.
pub fn map_with_capacity<K, V>(capacity: usize) -> (m: HashMap<K, V>)
    ensures
        m@ == Map::<K, V>::empty(),
{
    HashMap::with_capacity(capacity)
}

/// Whether a map's mathematical view holds nothing.
pub open spec fn view_is_empty<K, V>(m: Map<K, V>) -> bool {
    m == Map::<K, V>::empty()
}

/// Relies on HashMap::with_hasher: an empty map using the given hash builder.
pub assume_specification<K, V, S>[ HashMap::<K, V, S>::with_hasher ](hash_builder: S) -> (res: HashMap<K, V, S>)
    ensures
        view_is_empty(res@),
;

/// Relies on HashMap::with_capacity_and_hasher: an empty map using the given
/// hash builder, with room for `capacity` entries before it reallocates.
pub assume_specification<K, V, S>[ HashMap::<K, V, S>::with_capacity_and_hasher ](capacity: usize, hasher: S) -> (res: HashMap<K, V, S>)
    ensures
        view_is_empty(res@),
;

/// An empty map built over the caller's hash builder.
pub fn map_with_hasher<K, V, S>(hash_builder: S) -> (m: HashMap<K, V, S>)
    ensures
        m@ == Map::<K, V>::empty(),
{
    HashMap::with_hasher(hash_builder)
}

/// An empty map built over the caller's hash builder, with room for
/// `capacity` entries before it reallocates.
pub fn map_with_capacity_and_hasher<K, V, S>(capacity: usize, hash_builder: S) -> (m: HashMap<K, V, S>)
    ensures
        m@ == Map::<K, V>::empty(),
{
    HashMap::with_capacity_and_hasher(capacity, hash_builder)
}

} // verus!
