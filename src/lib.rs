//! Dirtiness scores of named areas, kept in an embedded key-value store.
//!
//! Each area is one record: its name is the key, its score the value,
//! encoded as four little-endian bytes.

pub mod codec;
pub mod laws;
pub mod store;

pub use codec::{convert_from, convert_to, StoreError};
pub use store::{Action, Fetched, Store, Write};
