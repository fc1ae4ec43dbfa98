use vstd::prelude::*;

verus! {

/// The proof backend a proving run is asked for. The backend decides the
/// proof's encoding and cost only; it never changes the program's logic or
/// its committed output.
#[derive(Clone, Copy, PartialEq, Eq, Structural, Debug)]
pub enum ProofSystem {
    Groth16,
    Plonk,
}

/// Select the backend from the host's one switch; the default is Groth16.
pub fn select_proof_system(use_plonk: bool) -> (r: ProofSystem)
    ensures
        r == if use_plonk {
            ProofSystem::Plonk
        } else {
            ProofSystem::Groth16
        },
{
    if use_plonk {
        ProofSystem::Plonk
    } else {
        ProofSystem::Groth16
    }
}

/// One produced proof: opaque backend bytes, bound to the committed public
/// output it proves.
#[derive(Clone, Debug)]
pub struct ProofArtifact {
    pub system: ProofSystem,
    pub public_output: u32,
    pub proof_bytes: Vec<u8>,
}

/// The phases of one proving run, from bare start to a terminal outcome.
#[derive(Clone, Copy, PartialEq, Eq, Structural, Debug)]
pub enum OrchestratorState {
    /// No key material exists yet; nothing may be proved or verified.
    Uninitialized,
    /// Setup derived the proving and verification keys for the image.
    SetupDone,
    /// The backend is producing a proof.
    Proving,
    /// A proof exists, bound to a committed output.
    ProofReady,
    /// The backend produced no proof: the program faulted or the backend
    /// erred. Terminal.
    ProvingFailed,
    /// The proof is being checked against the verification key.
    Verifying,
    /// The verifier accepted the proof. Terminal.
    Verified,
    /// The verifier rejected the proof. Terminal.
    Rejected,
}

/// What the outside proving machinery reports back between phases.
#[derive(Clone, Copy, PartialEq, Eq, Structural, Debug)]
pub enum OrchestratorEvent {
    /// Setup finished; both keys exist.
    SetupFinished,
    /// A proving run was started.
    ProveStarted,
    /// The backend produced a proof.
    ProveSucceeded,
    /// The backend produced no proof.
    ProveFailed,
    /// Verification of the proof was started.
    VerifyStarted,
    /// The verifier accepted the proof.
    VerifyAccepted,
    /// The verifier rejected the proof.
    VerifyRejected,
}

/// A state no event moves the run out of.
pub open spec fn spec_terminal(s: OrchestratorState) -> bool {
    s == OrchestratorState::ProvingFailed || s == OrchestratorState::Verified || s
        == OrchestratorState::Rejected
}

/// The one transition an event may make from a state, or nothing where the
/// protocol does not allow the event there. No transition skips setup and
/// no transition leaves a terminal state.
pub open spec fn spec_step(s: OrchestratorState, e: OrchestratorEvent) -> Option<
    OrchestratorState,
> {
    match (s, e) {
        (OrchestratorState::Uninitialized, OrchestratorEvent::SetupFinished) => Some(
            OrchestratorState::SetupDone,
        ),
        (OrchestratorState::SetupDone, OrchestratorEvent::ProveStarted) => Some(
            OrchestratorState::Proving,
        ),
        (OrchestratorState::Proving, OrchestratorEvent::ProveSucceeded) => Some(
            OrchestratorState::ProofReady,
        ),
        (OrchestratorState::Proving, OrchestratorEvent::ProveFailed) => Some(
            OrchestratorState::ProvingFailed,
        ),
        (OrchestratorState::ProofReady, OrchestratorEvent::VerifyStarted) => Some(
            OrchestratorState::Verifying,
        ),
        (OrchestratorState::Verifying, OrchestratorEvent::VerifyAccepted) => Some(
            OrchestratorState::Verified,
        ),
        (OrchestratorState::Verifying, OrchestratorEvent::VerifyRejected) => Some(
            OrchestratorState::Rejected,
        ),
        _ => None,
    }
}

/// Advance one proving run by one reported event.
pub fn step(s: OrchestratorState, e: OrchestratorEvent) -> (r: Option<OrchestratorState>)
    ensures
        r == spec_step(s, e),
{
    match (s, e) {
        (OrchestratorState::Uninitialized, OrchestratorEvent::SetupFinished) => Some(
            OrchestratorState::SetupDone,
        ),
        (OrchestratorState::SetupDone, OrchestratorEvent::ProveStarted) => Some(
            OrchestratorState::Proving,
        ),
        (OrchestratorState::Proving, OrchestratorEvent::ProveSucceeded) => Some(
            OrchestratorState::ProofReady,
        ),
        (OrchestratorState::Proving, OrchestratorEvent::ProveFailed) => Some(
            OrchestratorState::ProvingFailed,
        ),
        (OrchestratorState::ProofReady, OrchestratorEvent::VerifyStarted) => Some(
            OrchestratorState::Verifying,
        ),
        (OrchestratorState::Verifying, OrchestratorEvent::VerifyAccepted) => Some(
            OrchestratorState::Verified,
        ),
        (OrchestratorState::Verifying, OrchestratorEvent::VerifyRejected) => Some(
            OrchestratorState::Rejected,
        ),
        _ => None,
    }
}

/// The state a run is in after a sequence of reported events, events the
/// protocol does not allow in their state being ignored.
pub open spec fn spec_run(s: OrchestratorState, events: Seq<OrchestratorEvent>) -> OrchestratorState
    decreases events.len(),
{
    if events.len() == 0 {
        s
    } else {
        match spec_step(s, events[0]) {
            Some(s2) => spec_run(s2, events.drop_first()),
            None => spec_run(s, events.drop_first()),
        }
    }
}

/// Law: the only transition out of the bare state is into `SetupDone` —
/// no run reaches proving or verifying without setup having finished.
pub proof fn lemma_no_transition_skips_setup(e: OrchestratorEvent)
    ensures
        spec_step(OrchestratorState::Uninitialized, e) matches Some(s2) ==> s2
            == OrchestratorState::SetupDone,
{
}

/// Law: terminal states absorb — no event moves a run out of
/// `ProvingFailed`, `Verified` or `Rejected`.
pub proof fn lemma_terminal_states_absorb(s: OrchestratorState, e: OrchestratorEvent)
    requires
        spec_terminal(s),
    ensures
        spec_step(s, e) is None,
{
}

/// Law: a run whose events never include a finished setup stays in the
/// bare state, whatever else is reported.
pub proof fn lemma_nothing_happens_without_setup(events: Seq<OrchestratorEvent>)
    requires
        forall|i: int| 0 <= i < events.len() ==> events[i] != OrchestratorEvent::SetupFinished,
    ensures
        spec_run(OrchestratorState::Uninitialized, events) == OrchestratorState::Uninitialized,
    decreases events.len(),
{
    if events.len() > 0 {
        assert(events[0] != OrchestratorEvent::SetupFinished);
        assert(forall|i: int|
            0 <= i < events.drop_first().len() ==> events.drop_first()[i] == events[i + 1]);
        lemma_nothing_happens_without_setup(events.drop_first());
    }
}

} // verus!
