//! Static mapping from native Rust types to columnar schema descriptors, and
//! the conversion of column contents back into native values.

pub mod array;
pub mod deserialize;
pub mod field;
pub mod laws;
pub mod outside;
pub mod serialize;
pub mod temporal;
