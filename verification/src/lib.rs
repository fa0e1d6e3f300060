//! Decoding TOML documents into typed values, together with accessors for
//! values that were materialized from a filesystem path.

pub mod adapter;
pub mod error;
pub mod path_to;

pub use adapter::TomlOf;
pub use error::DecodeError;
pub use path_to::PathTo;
