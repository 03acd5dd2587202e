//! An append-only hash chain whose records are sealed by a bounded
//! proof-of-work search over a nonce.
pub mod block;
pub mod encoding;
pub mod chain;
