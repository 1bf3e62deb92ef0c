//! A safe, typed surface over an Intel Processor Trace instruction-flow
//! decoder.
//!
//! The decoding itself is done by a native library; this crate owns the
//! value-level contracts around it: the bit-packed address-filter record
//! ([`config::filter::AddrFilter`]), the status bits that accompany every
//! iteration step ([`flags::Status`]), the structured errors the native
//! return codes translate to ([`error::PtError`]), and the synchronization
//! state a decoder handle moves through ([`insn::decoder::DecoderState`]).

pub mod config;
pub mod error;
pub mod flags;
pub mod insn;
