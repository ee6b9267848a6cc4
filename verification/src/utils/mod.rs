//! Address helpers.
pub mod address;
