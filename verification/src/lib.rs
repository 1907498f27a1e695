//! A binary encoder for the serde data model: integers in a chosen byte order,
//! strings and byte strings behind a `u64` length, characters as UTF-8, and
//! enum variants by a `u32` index; with a size checker that counts the bytes an
//! encoding would take against a limit.
pub mod config;
pub mod error;
pub mod format;
pub mod laws;
mod order;
pub mod ser;
