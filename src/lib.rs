//! A durable task cache: task records kept in an embedded ordered key-value
//! store, keyed by the UTF-8 bytes of their id, with a "most recent by key
//! order" lookup and an evictor that drops a record once its proof is accepted.

pub mod cache;
pub mod evictor;
pub mod laws;
pub mod order;
pub mod store;
