use pd_sink::attach::CableOrientation;
use pd_sink::session::{cc_line, CcLine, SessionAction, SessionEvent, SessionPhase};
use pd_sink::transport::{
    receive_outcome, rx_failure, transmit_outcome, tx_failure, PhyRxError, PhyTxError, RxFailure,
    TxFailure,
};

#[test]
fn lines_for_orientations() {
    assert_eq!(cc_line(CableOrientation::Normal), Some(CcLine::Cc1));
    assert_eq!(cc_line(CableOrientation::Flipped), Some(CcLine::Cc2));
    assert_eq!(cc_line(CableOrientation::DebugAccessoryMode), None);
}

#[test]
fn session_restarts_after_detach_and_engine_stop() {
    let p = SessionPhase::new();
    let (p, a) = p.step(SessionEvent::Attached(CableOrientation::Flipped));
    assert_eq!(a, SessionAction::Negotiate(CcLine::Cc2));
    let (p, a) = p.step(SessionEvent::Detached);
    assert_eq!((p, a), (SessionPhase::Detecting, SessionAction::DetectAttach));
    let (p, _) = p.step(SessionEvent::Attached(CableOrientation::Normal));
    assert_eq!(p, SessionPhase::Negotiating(CcLine::Cc1));
    let (p, a) = p.step(SessionEvent::EngineStopped);
    assert_eq!((p, a), (SessionPhase::Detecting, SessionAction::DetectAttach));
}

#[test]
fn debug_accessory_halts() {
    let (p, a) = SessionPhase::new().step(SessionEvent::Attached(CableOrientation::DebugAccessoryMode));
    assert_eq!((p, a), (SessionPhase::Halted, SessionAction::Halt));
    assert_eq!(p.step(SessionEvent::Detached), (SessionPhase::Halted, SessionAction::Halt));
}

#[test]
fn transport_errors_reclassified() {
    assert_eq!(rx_failure(PhyRxError::Crc), RxFailure::Discarded);
    assert_eq!(rx_failure(PhyRxError::Overrun), RxFailure::Discarded);
    assert_eq!(rx_failure(PhyRxError::HardReset), RxFailure::HardReset);
    assert_eq!(tx_failure(PhyTxError::Discarded), TxFailure::Discarded);
    assert_eq!(tx_failure(PhyTxError::HardReset), TxFailure::HardReset);
    assert_eq!(receive_outcome(Ok(12)), Ok(12));
    assert_eq!(receive_outcome(Err(PhyRxError::Overrun)), Err(RxFailure::Discarded));
    assert_eq!(transmit_outcome(Ok(())), Ok(()));
    assert_eq!(transmit_outcome(Err(PhyTxError::HardReset)), Err(TxFailure::HardReset));
}
