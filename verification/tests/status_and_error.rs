use libipt::error::PtError;
use libipt::error::ensure_ptok;
use libipt::error::extract_pterr;
use libipt::flags::PTS_EOS;
use libipt::flags::PTS_EVENT_PENDING;
use libipt::flags::PTS_IP_SUPPRESSED;
use libipt::flags::Status;

#[test]
fn status_accepts_every_known_pattern() {
    for bits in 0u32..8 {
        let s = Status::from_bits(bits).expect("known pattern must decode");
        assert_eq!(s.bits(), bits);
        assert_eq!(s.event_pending(), bits & PTS_EVENT_PENDING != 0);
        assert_eq!(s.ip_suppressed(), bits & PTS_IP_SUPPRESSED != 0);
        assert_eq!(s.eos(), bits & PTS_EOS != 0);
    }
}

#[test]
fn status_rejects_unknown_bits() {
    assert_eq!(Status::from_bits(0x8), None);
    assert_eq!(Status::from_bits(0x100), None);
    assert_eq!(Status::from_bits(u32::MAX), None);
    // A mix of known and unknown bits is rejected, not truncated.
    assert_eq!(Status::from_bits(0x7 | 0x10), None);
}

#[test]
fn status_flag_queries() {
    let s = Status::from_bits(PTS_EVENT_PENDING | PTS_EOS).unwrap();
    assert!(s.event_pending());
    assert!(s.eos());
    assert!(!s.ip_suppressed());
}

#[test]
fn error_code_translation() {
    assert_eq!(PtError::from_code(-1), PtError::Internal);
    assert_eq!(PtError::from_code(-2), PtError::Invalid);
    assert_eq!(PtError::from_code(-3), PtError::Nosync);
    assert_eq!(PtError::from_code(-4), PtError::BadOpc);
    assert_eq!(PtError::from_code(-5), PtError::BadPacket);
    assert_eq!(PtError::from_code(-6), PtError::BadContext);
    assert_eq!(PtError::from_code(-7), PtError::Eos);
    assert_eq!(PtError::from_code(-8), PtError::BadQuery);
    assert_eq!(PtError::from_code(-13), PtError::Nomap);
    assert_eq!(PtError::from_code(-15), PtError::NoTime);
    assert_eq!(PtError::from_code(-16), PtError::NoCbr);
    assert_eq!(PtError::from_code(-27), PtError::BadCpu);
}

#[test]
fn error_unknown_code_is_internal() {
    assert_eq!(PtError::from_code(-28), PtError::Internal);
    assert_eq!(PtError::from_code(-999), PtError::Internal);
    assert_eq!(PtError::from_code(i32::MIN), PtError::Internal);
}

#[test]
fn ensure_ptok_splits_on_sign() {
    assert_eq!(ensure_ptok(0), Ok(()));
    assert_eq!(ensure_ptok(5), Ok(()));
    assert_eq!(ensure_ptok(-7), Err(PtError::Eos));
    assert_eq!(ensure_ptok(-3), Err(PtError::Nosync));
}

#[test]
fn extract_pterr_keeps_payload() {
    assert_eq!(extract_pterr(0), Ok(0));
    assert_eq!(extract_pterr(6), Ok(6));
    assert_eq!(extract_pterr(i32::MAX), Ok(i32::MAX as u32));
    assert_eq!(extract_pterr(-16), Err(PtError::NoCbr));
}
