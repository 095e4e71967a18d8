//! Replay protection for the publish endpoint: the client's idempotency
//! key, the response captured for it, and the store that keeps one response
//! per caller and key.

pub mod key;
pub mod persistence;

pub use key::{IdempotencyKey, KeyError};
pub use persistence::{CachedResponse, Conflict, FingerprintStore, HeaderPair, ResponseView};
