use sigbatch::generator::{generate_ecdsa_inputs, generate_ed25519_inputs};
use sigbatch::orchestrator::{
    OrchestratorEvent, OrchestratorState, ProofSystem, select_proof_system, step,
};
use sigbatch::program::{run_ecdsa_program, run_ed25519_program};

const ALL_EVENTS: [OrchestratorEvent; 7] = [
    OrchestratorEvent::SetupFinished,
    OrchestratorEvent::ProveStarted,
    OrchestratorEvent::ProveSucceeded,
    OrchestratorEvent::ProveFailed,
    OrchestratorEvent::VerifyStarted,
    OrchestratorEvent::VerifyAccepted,
    OrchestratorEvent::VerifyRejected,
];

#[test]
fn default_backend_is_groth16() {
    assert_eq!(select_proof_system(false), ProofSystem::Groth16);
    assert_eq!(select_proof_system(true), ProofSystem::Plonk);
}

#[test]
fn happy_path_reaches_verified() {
    let mut s = OrchestratorState::Uninitialized;
    for e in [
        OrchestratorEvent::SetupFinished,
        OrchestratorEvent::ProveStarted,
        OrchestratorEvent::ProveSucceeded,
        OrchestratorEvent::VerifyStarted,
        OrchestratorEvent::VerifyAccepted,
    ] {
        s = step(s, e).expect("allowed transition");
    }
    assert_eq!(s, OrchestratorState::Verified);
}

#[test]
fn proving_failure_is_terminal() {
    let s = step(OrchestratorState::Proving, OrchestratorEvent::ProveFailed);
    assert_eq!(s, Some(OrchestratorState::ProvingFailed));
    for e in ALL_EVENTS {
        assert_eq!(step(OrchestratorState::ProvingFailed, e), None);
    }
}

#[test]
fn rejection_is_terminal() {
    let s = step(OrchestratorState::Verifying, OrchestratorEvent::VerifyRejected);
    assert_eq!(s, Some(OrchestratorState::Rejected));
    for e in ALL_EVENTS {
        assert_eq!(step(OrchestratorState::Rejected, e), None);
        assert_eq!(step(OrchestratorState::Verified, e), None);
    }
}

#[test]
fn nothing_skips_setup() {
    for e in ALL_EVENTS {
        let next = step(OrchestratorState::Uninitialized, e);
        assert!(next == None || next == Some(OrchestratorState::SetupDone));
    }
}

#[test]
fn generated_ed25519_batches_have_the_declared_shape() {
    let batch = generate_ed25519_inputs(4).expect("generator");
    assert_eq!(batch.pubkey_bytes.len(), 4);
    assert_eq!(batch.message_bytes.len(), 4);
    assert_eq!(batch.signature_bytes.len(), 4);
    for i in 0..4 {
        assert_eq!(batch.pubkey_bytes[i].len(), 32);
        assert_eq!(batch.message_bytes[i], b"hello world".to_vec());
        assert_eq!(batch.signature_bytes[i].len(), 64);
    }
}

#[test]
fn generated_ecdsa_batches_have_the_declared_shape() {
    let batch = generate_ecdsa_inputs(4).expect("generator");
    assert_eq!(batch.pubkey_bytes.len(), 4);
    assert_eq!(batch.message_bytes.len(), 4);
    assert_eq!(batch.signature_bytes.len(), 4);
    for i in 0..4 {
        assert_eq!(batch.pubkey_bytes[i].len(), 33);
        assert_eq!(batch.message_bytes[i], b"hello world".to_vec());
        assert_eq!(batch.signature_bytes[i].len(), 64);
    }
}

#[test]
fn generated_batches_verify_in_full() {
    let ed = generate_ed25519_inputs(5).expect("generator");
    assert_eq!(run_ed25519_program(&ed), Ok(5));
    let ec = generate_ecdsa_inputs(5).expect("generator");
    assert_eq!(run_ecdsa_program(&ec), Ok(5));
}

#[test]
fn zero_count_generation_always_succeeds() {
    let ed = generate_ed25519_inputs(0).expect("empty batch is owed");
    assert_eq!(ed.pubkey_bytes, Vec::<Vec<u8>>::new());
    assert_eq!(ed.message_bytes, Vec::<Vec<u8>>::new());
    assert_eq!(ed.signature_bytes, Vec::<Vec<u8>>::new());
    let ec = generate_ecdsa_inputs(0).expect("empty batch is owed");
    assert_eq!(ec.pubkey_bytes, Vec::<Vec<u8>>::new());
    assert_eq!(ec.message_bytes, Vec::<Vec<u8>>::new());
    assert_eq!(ec.signature_bytes, Vec::<Vec<u8>>::new());
}
