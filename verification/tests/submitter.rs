use proofcortex_verifier::errors::VerifierError;
use proofcortex_verifier::submitter::{
    next_action, step, zero_submitter_address, SubmitAction, SubmitEvent, SubmitState,
};

#[test]
fn success_path_reaches_reconciled() {
    let s0 = SubmitState::Idle;
    assert_eq!(next_action(&s0), SubmitAction::Connect);
    let s1 = step(s0, SubmitEvent::ConnectSucceeded);
    assert_eq!(s1, SubmitState::Connected);
    assert_eq!(next_action(&s1), SubmitAction::SignAndSend);
    let s2 = step(s1, SubmitEvent::SendSucceeded);
    assert_eq!(s2, SubmitState::SignedSent);
    assert_eq!(next_action(&s2), SubmitAction::AwaitInclusion);
    let s3 = step(s2, SubmitEvent::InclusionConfirmed);
    assert_eq!(s3, SubmitState::Mined);
    assert_eq!(next_action(&s3), SubmitAction::Reconcile);
    let s4 = step(s3, SubmitEvent::ReconcileDone);
    assert_eq!(s4, SubmitState::Reconciled);
    assert_eq!(next_action(&s4), SubmitAction::Stop);
}

#[test]
fn each_step_fails_with_its_own_error() {
    assert_eq!(
        step(SubmitState::Idle, SubmitEvent::ConnectFailed),
        SubmitState::Failed(VerifierError::Connection)
    );
    assert_eq!(
        step(SubmitState::Connected, SubmitEvent::KeyRejected),
        SubmitState::Failed(VerifierError::Credential)
    );
    assert_eq!(
        step(SubmitState::Connected, SubmitEvent::SendRejected),
        SubmitState::Failed(VerifierError::Submission)
    );
    assert_eq!(
        step(SubmitState::SignedSent, SubmitEvent::InclusionFailed),
        SubmitState::Failed(VerifierError::Confirmation)
    );
}

#[test]
fn terminal_states_absorb_every_event() {
    let events = [
        SubmitEvent::ConnectSucceeded,
        SubmitEvent::ConnectFailed,
        SubmitEvent::KeyRejected,
        SubmitEvent::SendSucceeded,
        SubmitEvent::SendRejected,
        SubmitEvent::InclusionConfirmed,
        SubmitEvent::InclusionFailed,
        SubmitEvent::ReconcileDone,
    ];
    for e in events {
        assert_eq!(step(SubmitState::Reconciled, e), SubmitState::Reconciled);
        assert_eq!(
            step(SubmitState::Failed(VerifierError::Submission), e),
            SubmitState::Failed(VerifierError::Submission)
        );
    }
    assert_eq!(next_action(&SubmitState::Failed(VerifierError::Connection)), SubmitAction::Stop);
}

#[test]
fn an_event_out_of_turn_changes_nothing() {
    assert_eq!(step(SubmitState::Idle, SubmitEvent::ReconcileDone), SubmitState::Idle);
    assert_eq!(
        step(SubmitState::Connected, SubmitEvent::ConnectSucceeded),
        SubmitState::Connected
    );
    assert_eq!(
        step(SubmitState::Mined, SubmitEvent::InclusionConfirmed),
        SubmitState::Mined
    );
}

#[test]
fn the_placeholder_submitter_is_twenty_zero_bytes() {
    let s = zero_submitter_address();
    assert_eq!(s, "0x0000000000000000000000000000000000000000");
    assert_eq!(hex::decode(&s[2..]).unwrap(), vec![0u8; 20]);
}
