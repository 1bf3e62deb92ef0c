//! Structured errors, translated unchanged from native decoder return
//! codes.
//!
//! Every fallible native entry point reports success as a non-negative
//! return value and failure as the negated member of a fixed error
//! enumeration. The translation here is total: a negative code outside the
//! enumeration marks a native/wrapper version skew and maps to
//! [`PtError::Internal`] rather than being masked.

use vstd::prelude::*;

verus! {

/// An error reported by the decoder, one variant per native error code.
#[derive(Clone, Copy, Debug, PartialEq, Eq, Structural)]
pub enum PtError {
    /// Internal decoder error; also the reading of a protocol violation.
    Internal,
    /// Invalid argument.
    Invalid,
    /// Decoder out of sync.
    Nosync,
    /// Unknown opcode.
    BadOpc,
    /// Unknown payload.
    BadPacket,
    /// Unexpected packet context.
    BadContext,
    /// Decoder reached end of trace stream.
    Eos,
    /// Wrong query depth.
    BadQuery,
    /// Out of memory.
    Nomem,
    /// Bad configuration.
    BadConfig,
    /// There is no IP.
    Noip,
    /// The IP has been suppressed.
    IpSuppressed,
    /// There is no memory mapped at the requested address.
    Nomap,
    /// An instruction could not be decoded.
    BadInsn,
    /// No wall-clock time is available.
    NoTime,
    /// No core:bus ratio is available.
    NoCbr,
    /// Bad traced image.
    BadImage,
    /// A locking error.
    BadLock,
    /// The requested feature is not supported.
    NotSupported,
    /// The return address stack is empty.
    RetstackEmpty,
    /// A compressed return is not indicated correctly.
    BadRetcomp,
    /// The current decoder state does not match the state in the trace.
    BadStatusUpdate,
    /// The trace did not contain an expected enabled event.
    NoEnable,
    /// An event was ignored.
    EventIgnored,
    /// Something overflowed.
    Overflow,
    /// A file handling error.
    BadFile,
    /// Unknown cpu.
    BadCpu,
}

impl PtError {
    /// The error a negative native return code stands for. Total: a code
    /// outside the native enumeration reads as [`PtError::Internal`].
    pub open spec fn spec_from_code(code: i32) -> PtError {
        if code == -2 {
            PtError::Invalid
        } else if code == -3 {
            PtError::Nosync
        } else if code == -4 {
            PtError::BadOpc
        } else if code == -5 {
            PtError::BadPacket
        } else if code == -6 {
            PtError::BadContext
        } else if code == -7 {
            PtError::Eos
        } else if code == -8 {
            PtError::BadQuery
        } else if code == -9 {
            PtError::Nomem
        } else if code == -10 {
            PtError::BadConfig
        } else if code == -11 {
            PtError::Noip
        } else if code == -12 {
            PtError::IpSuppressed
        } else if code == -13 {
            PtError::Nomap
        } else if code == -14 {
            PtError::BadInsn
        } else if code == -15 {
            PtError::NoTime
        } else if code == -16 {
            PtError::NoCbr
        } else if code == -17 {
            PtError::BadImage
        } else if code == -18 {
            PtError::BadLock
        } else if code == -19 {
            PtError::NotSupported
        } else if code == -20 {
            PtError::RetstackEmpty
        } else if code == -21 {
            PtError::BadRetcomp
        } else if code == -22 {
            PtError::BadStatusUpdate
        } else if code == -23 {
            PtError::NoEnable
        } else if code == -24 {
            PtError::EventIgnored
        } else if code == -25 {
            PtError::Overflow
        } else if code == -26 {
            PtError::BadFile
        } else if code == -27 {
            PtError::BadCpu
        } else {
            PtError::Internal
        }
    }

    /// Translates a negative native return code into its error.
    pub fn from_code(code: i32) -> (r: PtError)
        ensures
            r == PtError::spec_from_code(code),
    {
        match code {
            -2 => PtError::Invalid,
            -3 => PtError::Nosync,
            -4 => PtError::BadOpc,
            -5 => PtError::BadPacket,
            -6 => PtError::BadContext,
            -7 => PtError::Eos,
            -8 => PtError::BadQuery,
            -9 => PtError::Nomem,
            -10 => PtError::BadConfig,
            -11 => PtError::Noip,
            -12 => PtError::IpSuppressed,
            -13 => PtError::Nomap,
            -14 => PtError::BadInsn,
            -15 => PtError::NoTime,
            -16 => PtError::NoCbr,
            -17 => PtError::BadImage,
            -18 => PtError::BadLock,
            -19 => PtError::NotSupported,
            -20 => PtError::RetstackEmpty,
            -21 => PtError::BadRetcomp,
            -22 => PtError::BadStatusUpdate,
            -23 => PtError::NoEnable,
            -24 => PtError::EventIgnored,
            -25 => PtError::Overflow,
            -26 => PtError::BadFile,
            -27 => PtError::BadCpu,
            _ => PtError::Internal,
        }
    }
}

/// Interprets a native return code where success carries no payload:
/// `Ok` exactly on non-negative codes, otherwise the code's error.
pub fn ensure_ptok(code: i32) -> (r: Result<(), PtError>)
    ensures
        code >= 0 ==> r == Ok::<(), PtError>(()),
        code < 0 ==> r == Err::<(), PtError>(PtError::spec_from_code(code)),
{
    if code >= 0 {
        Ok(())
    } else {
        Err(PtError::from_code(code))
    }
}

/// Interprets a native return code where a non-negative value is itself
/// the payload (a size, a count, a status bit-vector).
pub fn extract_pterr(code: i32) -> (r: Result<u32, PtError>)
    ensures
        code >= 0 ==> r == Ok::<u32, PtError>(code as u32),
        code < 0 ==> r == Err::<u32, PtError>(PtError::spec_from_code(code)),
{
    if code >= 0 {
        Ok(code as u32)
    } else {
        Err(PtError::from_code(code))
    }
}

} // verus!
