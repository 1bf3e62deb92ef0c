//! Status bits returned alongside iteration and event results.

use vstd::prelude::*;

verus! {

/// Bit signalling a pending event the caller should drain.
pub const PTS_EVENT_PENDING: u32 = 0x1;

/// Bit signalling that the instruction address has been suppressed.
pub const PTS_IP_SUPPRESSED: u32 = 0x2;

/// Bit signalling the end of the trace stream.
pub const PTS_EOS: u32 = 0x4;

/// Every bit the native decoder can set in a status word.
pub const PTS_KNOWN: u32 = 0x7;

/// A set of status flag bits, produced as a companion to every iteration
/// and event result. There is no mutation interface: status values are
/// only decoded from what the native layer reports.
#[derive(Clone, Copy, Debug, PartialEq, Eq, Structural)]
pub struct Status {
    /// The raw flag bits; always within [`PTS_KNOWN`].
    pub bits: u32,
}

impl Status {
    /// Only known flag bits are set.
    pub open spec fn wf(self) -> bool {
        self.bits & !PTS_KNOWN == 0
    }

    /// Decoding of a raw status word: accepted exactly when every set bit
    /// is a known flag; anything else is a protocol violation.
    pub open spec fn spec_from_bits(bits: u32) -> Option<Status> {
        if bits & !PTS_KNOWN == 0 {
            Some(Status { bits })
        } else {
            None
        }
    }

    /// Decodes a raw status word. Succeeds on every bit pattern the native
    /// layer can emit; a set bit outside the known mask is a protocol
    /// violation and yields `None`, never a silently truncated value.
    pub fn from_bits(bits: u32) -> (r: Option<Status>)
        ensures
            r == Status::spec_from_bits(bits),
            bits & !PTS_KNOWN == 0 ==> r == Some(Status { bits }) && (Status { bits }).wf(),
    {
        if bits & !PTS_KNOWN == 0 {
            Some(Status { bits })
        } else {
            None
        }
    }

    /// The raw flag bits.
    pub fn bits(&self) -> (r: u32)
        ensures
            r == self.bits,
    {
        self.bits
    }

    /// There is an event pending; it should be drained before iterating on.
    pub fn event_pending(&self) -> (r: bool)
        ensures
            r == (self.bits & PTS_EVENT_PENDING != 0),
    {
        self.bits & PTS_EVENT_PENDING != 0
    }

    /// The instruction address has been suppressed.
    pub fn ip_suppressed(&self) -> (r: bool)
        ensures
            r == (self.bits & PTS_IP_SUPPRESSED != 0),
    {
        self.bits & PTS_IP_SUPPRESSED != 0
    }

    /// There is no more trace data available.
    pub fn eos(&self) -> (r: bool)
        ensures
            r == (self.bits & PTS_EOS != 0),
    {
        self.bits & PTS_EOS != 0
    }
}

/// Status completeness: decoding succeeds on every status word made of
/// known flag bits, which is every word the native decoder can emit during
/// a legal operation.
pub proof fn lemma_status_from_bits_total(bits: u32)
    requires
        bits & !PTS_KNOWN == 0,
    ensures
        Status::spec_from_bits(bits) == Some(Status { bits }),
{
}

} // verus!
