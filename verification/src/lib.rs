//! A unified error-handling core: a closed taxonomy of failure kinds with a
//! stable wire vocabulary, an error container that pairs an underlying cause
//! with an optional kind and a diagnostic context snapshot, a classifier that
//! maps a container to a transport status and body, and a read-only accessor
//! over per-community aggregate counters.

pub mod aggregates;
pub mod error;
pub mod json;
pub mod kind;
