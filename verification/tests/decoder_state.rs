use libipt::error::PtError;
use libipt::flags::Status;
use libipt::insn::decoder::DecoderState;

// Native return codes used below: 0 is plain success, -3 is `Nosync`,
// -7 is `Eos`, -8 is `BadQuery`; a positive code is a status bit-vector.

#[test]
fn fresh_decoder_is_unsynced() {
    let d = DecoderState::new();
    assert!(!d.synced);
    assert!(!d.eos);
    assert!(!d.event_pending);
}

#[test]
fn sync_success_makes_instruction_ready() {
    let mut d = DecoderState::new();
    assert_eq!(d.on_sync(0), Ok(()));
    assert!(d.synced);
    assert!(!d.eos);
    assert!(!d.event_pending);
}

#[test]
fn sync_failure_leaves_state_untouched() {
    let mut d = DecoderState::new();
    assert_eq!(d.on_sync(-7), Err(PtError::Eos));
    assert!(!d.synced);
    assert!(!d.eos);
    // The handle stays usable: a later synchronization still succeeds.
    assert_eq!(d.on_sync(0), Ok(()));
    assert!(d.synced);
}

#[test]
fn next_translates_codes() {
    let mut d = DecoderState::new();
    d.on_sync(0).unwrap();
    assert_eq!(d.on_next(0), Ok(Status::from_bits(0).unwrap()));
    assert_eq!(d.on_next(1), Ok(Status::from_bits(1).unwrap()));
    assert_eq!(d.on_next(-3), Err(PtError::Nosync));
    assert_eq!(d.on_next(-13), Err(PtError::Nomap));
}

#[test]
fn next_rejects_unknown_status_bits() {
    let mut d = DecoderState::new();
    d.on_sync(0).unwrap();
    // An unknown status bit is a protocol violation, not a status value.
    assert_eq!(d.on_next(0x10), Err(PtError::Internal));
}

#[test]
fn eos_is_sticky_until_resync() {
    let mut d = DecoderState::new();
    d.on_sync(0).unwrap();
    assert_eq!(d.on_next(-7), Err(PtError::Eos));
    assert!(d.eos);
    // Further steps do not clear the condition...
    let _ = d.on_next(-7);
    assert!(d.eos);
    let _ = d.on_next(0);
    assert!(d.eos);
    // ...a failed synchronization does not either...
    assert_eq!(d.on_sync(-7), Err(PtError::Eos));
    assert!(d.eos);
    // ...only a successful one does.
    assert_eq!(d.on_sync(0), Ok(()));
    assert!(!d.eos);
}

#[test]
fn event_drain_sequence() {
    let mut d = DecoderState::new();
    d.on_sync(0).unwrap();
    // An instruction step reports a pending event alongside its status.
    let s = d.on_next(1).unwrap();
    assert!(s.event_pending());
    assert!(d.event_pending);
    // Draining it hands back the updated status...
    assert_eq!(d.on_event(0), Ok(Status::from_bits(0).unwrap()));
    assert!(!d.event_pending);
    // ...and draining with nothing pending fails with `BadQuery`.
    assert_eq!(d.on_event(-8), Err(PtError::BadQuery));
    assert!(d.synced);
    assert!(!d.eos);
}
