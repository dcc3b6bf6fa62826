use vstd::prelude::*;

pub mod queue;
pub mod worker;
pub mod pool;
pub mod http;
pub mod maps;

verus! {

/// Marker value signaling invalid pool construction: zero workers requested.
pub struct PoolCreationError;

} // verus!
