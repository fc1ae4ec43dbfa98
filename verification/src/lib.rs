//! Batch signature verification for a deterministic, provable execution
//! environment: a byte-level codec for two signature schemes, the
//! all-or-nothing batch verification program, the length-prefixed wire
//! framing at the execution boundary, the host-side proving orchestration
//! protocol, and a synthetic input generator.
use vstd::prelude::*;

pub mod batch;
pub mod codec;
pub mod boundary;
pub mod framing;
pub mod generator;
pub mod orchestrator;
pub mod program;

pub use batch::EcdsaInput;
pub use batch::Ed25519Input;

verus! {

/// The two signature schemes a program image can be built for. Fixed per
/// image: a batch never mixes schemes.
#[derive(Clone, Copy, PartialEq, Eq, Structural, Debug)]
pub enum SchemeVariant {
    EcdsaSecp256k1,
    Ed25519,
}

} // verus!
