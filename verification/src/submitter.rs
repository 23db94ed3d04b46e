use vstd::prelude::*;

use crate::errors::VerifierError;

verus! {

/// The stages of one submission run. Success is terminal at `Reconciled`;
/// any stage may fall to `Failed` with the step's own error, also
/// terminal. No step is ever retried.
#[derive(Clone, Copy, Debug, PartialEq, Eq, Structural)]
pub enum SubmitState {
    /// Nothing has happened yet.
    Idle,
    /// An RPC client stands against the configured endpoint.
    Connected,
    /// The contract call was signed and accepted as pending.
    SignedSent,
    /// The transaction is included in a block.
    Mined,
    /// The identifier was recomputed with the real signer address.
    Reconciled,
    /// A step failed; the run is over.
    Failed(VerifierError),
}

/// What the host must do next to advance a run.
#[derive(Clone, Copy, Debug, PartialEq, Eq, Structural)]
pub enum SubmitAction {
    /// Establish the RPC client.
    Connect,
    /// Parse the key, derive the signer, send the contract call.
    SignAndSend,
    /// Wait until the pending transaction is mined.
    AwaitInclusion,
    /// Recompute the identifier with the real signer address.
    Reconcile,
    /// The run is over, nothing more to do.
    Stop,
}

/// What the host observed when it performed an action.
#[derive(Clone, Copy, Debug, PartialEq, Eq, Structural)]
pub enum SubmitEvent {
    /// The RPC client is up.
    ConnectSucceeded,
    /// The endpoint is unreachable or the URL malformed.
    ConnectFailed,
    /// The private key material did not parse.
    KeyRejected,
    /// The contract call is pending.
    SendSucceeded,
    /// The RPC rejected the submission.
    SendRejected,
    /// A receipt with a block number arrived.
    InclusionConfirmed,
    /// The transaction was dropped or timed out.
    InclusionFailed,
    /// The final identifier was computed.
    ReconcileDone,
}

/// The transition relation of a run: each stage advances on its own
/// success event and falls to `Failed` with the step's error on its own
/// failure event; any other event changes nothing, and the two terminal
/// stages absorb every event.
pub open spec fn spec_step(s: SubmitState, e: SubmitEvent) -> SubmitState {
    match (s, e) {
        (SubmitState::Idle, SubmitEvent::ConnectSucceeded) => SubmitState::Connected,
        (SubmitState::Idle, SubmitEvent::ConnectFailed) => SubmitState::Failed(
            VerifierError::Connection,
        ),
        (SubmitState::Connected, SubmitEvent::SendSucceeded) => SubmitState::SignedSent,
        (SubmitState::Connected, SubmitEvent::KeyRejected) => SubmitState::Failed(
            VerifierError::Credential,
        ),
        (SubmitState::Connected, SubmitEvent::SendRejected) => SubmitState::Failed(
            VerifierError::Submission,
        ),
        (SubmitState::SignedSent, SubmitEvent::InclusionConfirmed) => SubmitState::Mined,
        (SubmitState::SignedSent, SubmitEvent::InclusionFailed) => SubmitState::Failed(
            VerifierError::Confirmation,
        ),
        (SubmitState::Mined, SubmitEvent::ReconcileDone) => SubmitState::Reconciled,
        _ => s,
    }
}

/// The action owed in each stage.
pub open spec fn spec_next_action(s: SubmitState) -> SubmitAction {
    match s {
        SubmitState::Idle => SubmitAction::Connect,
        SubmitState::Connected => SubmitAction::SignAndSend,
        SubmitState::SignedSent => SubmitAction::AwaitInclusion,
        SubmitState::Mined => SubmitAction::Reconcile,
        SubmitState::Reconciled => SubmitAction::Stop,
        SubmitState::Failed(_) => SubmitAction::Stop,
    }
}

/// A run is over in exactly the two terminal stages.
pub open spec fn spec_terminal(s: SubmitState) -> bool {
    s is Reconciled || s is Failed
}

/// Advances one run by one observed event.
pub fn step(s: SubmitState, e: SubmitEvent) -> (next: SubmitState)
    ensures
        next == spec_step(s, e),
{
    match (s, e) {
        (SubmitState::Idle, SubmitEvent::ConnectSucceeded) => SubmitState::Connected,
        (SubmitState::Idle, SubmitEvent::ConnectFailed) => SubmitState::Failed(
            VerifierError::Connection,
        ),
        (SubmitState::Connected, SubmitEvent::SendSucceeded) => SubmitState::SignedSent,
        (SubmitState::Connected, SubmitEvent::KeyRejected) => SubmitState::Failed(
            VerifierError::Credential,
        ),
        (SubmitState::Connected, SubmitEvent::SendRejected) => SubmitState::Failed(
            VerifierError::Submission,
        ),
        (SubmitState::SignedSent, SubmitEvent::InclusionConfirmed) => SubmitState::Mined,
        (SubmitState::SignedSent, SubmitEvent::InclusionFailed) => SubmitState::Failed(
            VerifierError::Confirmation,
        ),
        (SubmitState::Mined, SubmitEvent::ReconcileDone) => SubmitState::Reconciled,
        (other, _) => other,
    }
}

/// Names the action owed in a stage, `Stop` in the terminal ones.
pub fn next_action(s: &SubmitState) -> (a: SubmitAction)
    ensures
        a == spec_next_action(*s),
        (a == SubmitAction::Stop) == spec_terminal(*s),
{
    match s {
        SubmitState::Idle => SubmitAction::Connect,
        SubmitState::Connected => SubmitAction::SignAndSend,
        SubmitState::SignedSent => SubmitAction::AwaitInclusion,
        SubmitState::Mined => SubmitAction::Reconcile,
        SubmitState::Reconciled => SubmitAction::Stop,
        SubmitState::Failed(_) => SubmitAction::Stop,
    }
}

/// Law: the terminal stages absorb every event — once a run has succeeded
/// or failed, nothing moves it.
pub proof fn lemma_terminal_states_absorb(s: SubmitState, e: SubmitEvent)
    requires
        spec_terminal(s),
    ensures
        spec_step(s, e) == s,
{
}

/// Law: a run only moves forward — an event never returns a stage to an
/// earlier one, where the stages are ordered by how far the run has come.
pub proof fn lemma_step_never_goes_back(s: SubmitState, e: SubmitEvent)
    ensures
        spec_stage_rank(spec_step(s, e)) >= spec_stage_rank(s),
{
}

/// How far a run has come, for ordering the stages: both terminal stages
/// rank last.
pub open spec fn spec_stage_rank(s: SubmitState) -> int {
    match s {
        SubmitState::Idle => 0,
        SubmitState::Connected => 1,
        SubmitState::SignedSent => 2,
        SubmitState::Mined => 3,
        SubmitState::Reconciled => 4,
        SubmitState::Failed(_) => 4,
    }
}

/// The placeholder submitter used before a real signer is known: the
/// all-zero 20-byte address.
pub fn zero_submitter_address() -> (r: &'static str)
    ensures
        r@ == "0x0000000000000000000000000000000000000000"@,
{
    "0x0000000000000000000000000000000000000000"
}

} // verus!
