//! The instruction-flow decoder surface.

pub mod decoder;
