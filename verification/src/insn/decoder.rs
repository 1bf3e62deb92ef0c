//! The synchronization state machine of an instruction-flow decoder
//! handle, and the interpretation of the native return codes that drive
//! it.
//!
//! A freshly allocated decoder is unsynced; a successful synchronization
//! makes it instruction-ready; an instruction step can report a pending
//! event, to be drained before iterating on, or end of stream, which is
//! sticky until the next successful synchronization. The native layer owns
//! the decoding; the handle that calls into it keeps a [`DecoderState`]
//! beside the native object and moves it only through the verified
//! transitions here, so the state the caller observes and the results it
//! is handed always agree.

use vstd::prelude::*;

use crate::error::PtError;
use crate::flags::PTS_EVENT_PENDING;
use crate::flags::PTS_KNOWN;
use crate::flags::Status;

verus! {

/// The wrapper-visible state of a decoder handle.
#[derive(Clone, Copy, Debug, PartialEq, Eq, Structural)]
pub struct DecoderState {
    /// A synchronization operation has succeeded since allocation.
    pub synced: bool,
    /// An instruction step has reported end of stream since the last
    /// successful synchronization.
    pub eos: bool,
    /// The last reported status carried the event-pending bit: the caller
    /// should drain events before iterating on.
    pub event_pending: bool,
}

/// The result of a synchronization operation with native return code
/// `code`: success exactly on non-negative codes.
pub open spec fn spec_sync_result(code: i32) -> Result<(), PtError> {
    if code >= 0 {
        Ok(())
    } else {
        Err(PtError::spec_from_code(code))
    }
}

/// The state after a synchronization operation: success makes the decoder
/// instruction-ready, clearing end of stream and pending events; failure
/// leaves the state untouched (the handle stays usable).
pub open spec fn spec_after_sync(s: DecoderState, code: i32) -> DecoderState {
    if code >= 0 {
        DecoderState { synced: true, eos: false, event_pending: false }
    } else {
        s
    }
}

/// The result handed to the caller for an instruction or event step with
/// native return code `code`: a negative code is its error; a non-negative
/// code is a status bit-vector, accepted in full or — on a bit outside the
/// known mask, a protocol violation — rejected as [`PtError::Internal`].
pub open spec fn spec_step_result(code: i32) -> Result<Status, PtError> {
    if code < 0 {
        Err(PtError::spec_from_code(code))
    } else if (code as u32) & !PTS_KNOWN == 0 {
        Ok(Status { bits: code as u32 })
    } else {
        Err(PtError::Internal)
    }
}

/// Whether an event is pending after a step: a delivered status settles
/// the question through its event-pending bit; a failed step leaves the
/// previous answer standing.
pub open spec fn spec_pending_after(pending: bool, code: i32) -> bool {
    match spec_step_result(code) {
        Ok(status) => status.bits & PTS_EVENT_PENDING != 0,
        Err(_) => pending,
    }
}

/// The state after an instruction step: end of stream is recorded exactly
/// when the step reported `Eos`, and never cleared by a step; the
/// event-pending mark follows the delivered status.
pub open spec fn spec_after_next(s: DecoderState, code: i32) -> DecoderState {
    DecoderState {
        synced: s.synced,
        eos: s.eos || spec_step_result(code) == Err::<Status, PtError>(PtError::Eos),
        event_pending: spec_pending_after(s.event_pending, code),
    }
}

/// The state after an event drain: the event-pending mark follows the
/// delivered status; synchronization and end of stream are untouched.
pub open spec fn spec_after_event(s: DecoderState, code: i32) -> DecoderState {
    DecoderState {
        synced: s.synced,
        eos: s.eos,
        event_pending: spec_pending_after(s.event_pending, code),
    }
}

impl DecoderState {
    /// The state of a freshly allocated decoder: not yet synchronized.
    pub fn new() -> (r: DecoderState)
        ensures
            r == (DecoderState { synced: false, eos: false, event_pending: false }),
    {
        DecoderState { synced: false, eos: false, event_pending: false }
    }

    /// Applies the native return code of a synchronization operation
    /// (forward, backward, or at a fixed offset) and reports its result.
    pub fn on_sync(&mut self, code: i32) -> (r: Result<(), PtError>)
        ensures
            r == spec_sync_result(code),
            *final(self) == spec_after_sync(*old(self), code),
    {
        if code >= 0 {
            self.synced = true;
            self.eos = false;
            self.event_pending = false;
            Ok(())
        } else {
            Err(PtError::from_code(code))
        }
    }

    /// Applies the native return code of an instruction step and reports
    /// the (status, error) outcome the caller sees.
    pub fn on_next(&mut self, code: i32) -> (r: Result<Status, PtError>)
        ensures
            r == spec_step_result(code),
            *final(self) == spec_after_next(*old(self), code),
    {
        if code < 0 {
            let e = PtError::from_code(code);
            if e == PtError::Eos {
                self.eos = true;
            }
            Err(e)
        } else {
            let bits: u32 = code as u32;
            match Status::from_bits(bits) {
                Some(status) => {
                    self.event_pending = status.event_pending();
                    Ok(status)
                },
                None => Err(PtError::Internal),
            }
        }
    }

    /// Applies the native return code of an event drain. Draining an event
    /// moves the decoder between events but not between synchronization
    /// states.
    pub fn on_event(&mut self, code: i32) -> (r: Result<Status, PtError>)
        ensures
            r == spec_step_result(code),
            *final(self) == spec_after_event(*old(self), code),
    {
        if code < 0 {
            Err(PtError::from_code(code))
        } else {
            let bits: u32 = code as u32;
            match Status::from_bits(bits) {
                Some(status) => {
                    self.event_pending = status.event_pending();
                    Ok(status)
                },
                None => Err(PtError::Internal),
            }
        }
    }
}

/// Sticky end of stream: once recorded, no instruction step clears the
/// condition, whatever code the native layer reports next.
pub proof fn lemma_eos_sticky(s: DecoderState, code: i32)
    requires
        s.eos,
    ensures
        spec_after_next(s, code).eos,
{
}

/// Only synchronization moves the end-of-stream condition aside: a
/// successful one clears it (and makes the decoder instruction-ready), a
/// failed one leaves the whole state untouched.
pub proof fn lemma_sync_resets(s: DecoderState, code: i32)
    ensures
        code >= 0 ==> spec_after_sync(s, code) == (DecoderState {
            synced: true,
            eos: false,
            event_pending: false,
        }),
        code < 0 ==> spec_after_sync(s, code) == s,
{
}

/// An instruction step records end of stream exactly when it reported
/// `Eos` to the caller, and never changes the synchronization flag.
pub proof fn lemma_next_records_eos(s: DecoderState, code: i32)
    ensures
        spec_after_next(s, code).eos == (s.eos || spec_step_result(code) == Err::<
            Status,
            PtError,
        >(PtError::Eos)),
        spec_after_next(s, code).synced == s.synced,
{
}

/// An event drain never changes the synchronization or end-of-stream
/// state, and it marks an event pending exactly when the status it
/// delivered says so.
pub proof fn lemma_event_keeps_sync(s: DecoderState, code: i32)
    ensures
        spec_after_event(s, code).synced == s.synced,
        spec_after_event(s, code).eos == s.eos,
        spec_step_result(code) matches Ok(status) ==> spec_after_event(s, code).event_pending == (
        status.bits & PTS_EVENT_PENDING != 0),
{
}

} // verus!
