//! A read-only catalog API over a key-value table store.
//!
//! The library plans the key-condition queries that the hosting process sends
//! to the store and turns what the store returns into typed records. It does
//! no I/O itself: requests and result sets are plain values.

pub mod decimal;
pub mod entry;
pub mod error;
pub mod handlers;
pub mod item;
pub mod query;
mod random;
pub mod reconstruct;
pub mod types;
