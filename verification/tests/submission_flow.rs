use asset_tip_flow::submission::{
    dispatch, is_terminal, observe, observe_all, outcome, sign, DispatchFailure, NodeEvent,
    SubmissionError, SubmissionState,
};

fn submitted() -> SubmissionState {
    dispatch(sign(SubmissionState::Built))
}

#[test]
fn happy_path_reaches_finalized_success() {
    let s = submitted();
    let s = observe(s, NodeEvent::InBlockSeen);
    assert_eq!(s, SubmissionState::InBlock);
    let s = observe(s, NodeEvent::FinalizedOk);
    assert_eq!(s, SubmissionState::FinalizedSuccess);
    assert!(is_terminal(&s));
    assert_eq!(outcome(&s), Some(Ok(())));
}

#[test]
fn batch_with_invalid_member_yields_dispatch_error_and_no_effects() {
    // A member of the batch is invalid — say a mint of an asset that was
    // never created — so the chain rejects the batch at finalization.
    let failure = DispatchFailure { pallet_index: 50, error_index: 3 };
    let events = vec![NodeEvent::InBlockSeen, NodeEvent::FinalizedWith(failure)];
    let s = observe_all(submitted(), &events);
    assert_eq!(s, SubmissionState::FinalizedDispatchError(failure));
    // The error identifies the failing module, and the batch is atomic: the
    // submission as a whole failed, so no member had any effect.
    assert_eq!(
        outcome(&s),
        Some(Err(SubmissionError::Dispatch(failure)))
    );
    assert!(!matches!(s, SubmissionState::FinalizedSuccess));
}

#[test]
fn connection_loss_is_a_transport_error() {
    let s = observe(submitted(), NodeEvent::ConnectionLost);
    assert_eq!(s, SubmissionState::TransportError);
    assert_eq!(outcome(&s), Some(Err(SubmissionError::Transport)));

    let s = observe(observe(submitted(), NodeEvent::InBlockSeen), NodeEvent::ConnectionLost);
    assert_eq!(s, SubmissionState::TransportError);
}

#[test]
fn dropped_submission_is_its_own_outcome() {
    let s = observe(submitted(), NodeEvent::DroppedFromPool);
    assert_eq!(s, SubmissionState::Dropped);
    assert_eq!(outcome(&s), Some(Err(SubmissionError::Dropped)));
}

#[test]
fn finalization_before_inclusion_does_not_finalize() {
    let s = observe(submitted(), NodeEvent::FinalizedOk);
    assert_eq!(s, SubmissionState::Submitted);
    assert_eq!(outcome(&s), None);
}

#[test]
fn terminal_states_absorb_further_reports() {
    let events = vec![
        NodeEvent::InBlockSeen,
        NodeEvent::FinalizedOk,
        NodeEvent::ConnectionLost,
        NodeEvent::DroppedFromPool,
    ];
    let s = observe_all(submitted(), &events);
    assert_eq!(s, SubmissionState::FinalizedSuccess);
}

#[test]
fn in_flight_submission_has_no_outcome_yet() {
    let s = submitted();
    assert!(!is_terminal(&s));
    assert_eq!(outcome(&s), None);
    let s = observe(s, NodeEvent::InBlockSeen);
    assert!(!is_terminal(&s));
    assert_eq!(outcome(&s), None);
}
