//! Decoder configuration values owned by this crate.

pub mod filter;
