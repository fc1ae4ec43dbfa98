use vstd::prelude::*;
use crate::SchemeVariant;
use crate::batch::{EcdsaInput, Ed25519Input, byte_rows};
use crate::codec::{
    ed25519_key_wf, ed25519_verifies, secp256k1_key_wf, ecdsa_sig_wf, ecdsa_verifies,
    spec_unit_passes,
};
use crate::program::{ProgramFault, lemma_all_valid_commits_count, spec_batch_result};

verus! {

/// Why the synthetic generator could produce no batch.
#[derive(Clone, Copy, PartialEq, Eq, Structural, Debug)]
pub enum GeneratorFault {
    /// The operating system's random source failed.
    RandomnessUnavailable,
    /// No valid signing-key scalar was drawn within the retry bound; with a
    /// sound random source the chance of this is negligible.
    ScalarSamplingFailed,
}

/// The Ed25519 verification key derived from a 32-byte signing-key seed.
pub uninterp spec fn ed25519_pub_of(seed: Seq<u8>) -> Seq<u8>;

/// The Ed25519 signature a signing-key seed produces over a message;
/// Ed25519 signing is deterministic.
pub uninterp spec fn ed25519_sig_of(seed: Seq<u8>, msg: Seq<u8>) -> Seq<u8>;

/// Whether 32 bytes are an in-range, nonzero secp256k1 scalar, so a valid
/// ECDSA signing key.
pub uninterp spec fn secp256k1_scalar_wf(seed: Seq<u8>) -> bool;

/// The compressed SEC1 verification key of a valid secp256k1 signing key.
pub uninterp spec fn secp256k1_pub_of(seed: Seq<u8>) -> Seq<u8>;

/// The ECDSA signature a valid signing key produces over a message; the
/// curve library signs deterministically (RFC 6979).
pub uninterp spec fn ecdsa_sig_of(seed: Seq<u8>, msg: Seq<u8>) -> Seq<u8>;

/// Relies on `rand_core::OsRng::try_fill_bytes`: on success the operating
/// system filled all 32 bytes; nothing is promised of their values.
#[verifier::external_body]
fn os_random_seed() -> (r: Result<Vec<u8>, GeneratorFault>)
    ensures
        r matches Ok(b) ==> b@.len() == 32,
        r matches Err(f) ==> f == GeneratorFault::RandomnessUnavailable,
{
    let mut buf = [0u8; 32];
    match rand_core::TryRngCore::try_fill_bytes(&mut rand_core::OsRng, &mut buf) {
        Ok(()) => Ok(buf.to_vec()),
        Err(_) => Err(GeneratorFault::RandomnessUnavailable),
    }
}

/// Relies on `ed25519_consensus::SigningKey::from([u8; 32])` and
/// `VerificationKey::from(&SigningKey)`: the verification key is a function
/// of the seed alone and serializes as 32 bytes; since those bytes are the
/// compressed encoding of a curve point, they decompress back to a key.
#[verifier::external_body]
fn ed25519_public_key(seed: &Vec<u8>) -> (r: Vec<u8>)
    requires
        seed@.len() == 32,
    ensures
        r@ == ed25519_pub_of(seed@),
        r@.len() == 32,
        ed25519_key_wf(r@),
{
    let arr: [u8; 32] = seed.as_slice().try_into().unwrap();
    let sk = ed25519_consensus::SigningKey::from(arr);
    ed25519_consensus::VerificationKey::from(&sk).to_bytes().to_vec()
}

/// Relies on `ed25519_consensus::SigningKey::sign`: deterministic per
/// RFC 8032, a function of seed and message alone; 64 bytes; and by the
/// correctness of the scheme the produced signature satisfies the
/// verification equation under the key derived from the same seed (the
/// ZIP 215 acceptance rules admit every RFC 8032 signature).
#[verifier::external_body]
fn ed25519_sign(seed: &Vec<u8>, msg: &Vec<u8>) -> (r: Vec<u8>)
    requires
        seed@.len() == 32,
    ensures
        r@ == ed25519_sig_of(seed@, msg@),
        r@.len() == 64,
        ed25519_verifies(ed25519_pub_of(seed@), msg@, r@),
{
    let arr: [u8; 32] = seed.as_slice().try_into().unwrap();
    let sk = ed25519_consensus::SigningKey::from(arr);
    sk.sign(msg.as_slice()).to_bytes().to_vec()
}

/// Relies on `k256::ecdsa::SigningKey::from_slice`: `Ok` exactly when the
/// bytes are an in-range nonzero scalar, a function of the bytes alone.
#[verifier::external_body]
fn secp256k1_scalar_parses(seed: &Vec<u8>) -> (r: bool)
    requires
        seed@.len() == 32,
    ensures
        r == secp256k1_scalar_wf(seed@),
{
    k256::ecdsa::SigningKey::from_slice(seed.as_slice()).is_ok()
}

/// Relies on `k256::ecdsa::SigningKey::verifying_key` and
/// `VerifyingKey::to_sec1_bytes`: the verification key is a function of the
/// signing key alone and serializes compressed, as 33 bytes; since those
/// bytes are the SEC1 compressed encoding of a curve point, they parse
/// back to a key.
#[verifier::external_body]
fn secp256k1_public_key(seed: &Vec<u8>) -> (r: Vec<u8>)
    requires
        seed@.len() == 32,
        secp256k1_scalar_wf(seed@),
    ensures
        r@ == secp256k1_pub_of(seed@),
        r@.len() == 33,
        secp256k1_key_wf(r@),
{
    let sk = k256::ecdsa::SigningKey::from_slice(seed.as_slice()).unwrap();
    sk.verifying_key().to_sec1_bytes().to_vec()
}

/// Relies on `k256::ecdsa::SigningKey::sign` (through the `Signer` trait):
/// deterministic per RFC 6979, a function of key and message alone; the
/// fixed-width encoding is 64 bytes of in-range nonzero scalar halves;
/// signing normalizes to low-S, the verifier accepts exactly low-S, so by
/// the correctness of the scheme the signature verifies under the signer's
/// own key.
#[verifier::external_body]
fn ecdsa_sign(seed: &Vec<u8>, msg: &Vec<u8>) -> (r: Vec<u8>)
    requires
        seed@.len() == 32,
        secp256k1_scalar_wf(seed@),
    ensures
        r@ == ecdsa_sig_of(seed@, msg@),
        r@.len() == 64,
        ecdsa_sig_wf(r@),
        ecdsa_verifies(secp256k1_pub_of(seed@), msg@, r@),
{
    let sk = k256::ecdsa::SigningKey::from_slice(seed.as_slice()).unwrap();
    let sig: k256::ecdsa::Signature = k256::ecdsa::signature::Signer::sign(&sk, msg.as_slice());
    sig.to_bytes().to_vec()
}

/// The fixed message the synthetic generator signs.
pub open spec fn spec_default_message() -> Seq<u8> {
    seq![104u8, 101u8, 108u8, 108u8, 111u8, 32u8, 119u8, 111u8, 114u8, 108u8, 100u8]
}

/// The fixed message, as bytes.
pub fn default_message() -> (r: Vec<u8>)
    ensures
        r@ == spec_default_message(),
{
    let msg: Vec<u8> = vec![104u8, 101u8, 108u8, 108u8, 111u8, 32u8, 119u8, 111u8, 114u8, 108u8, 100u8];
    proof {
        assert(msg@ =~= spec_default_message());
    }
    msg
}

/// One freshly signed Ed25519 unit from a 32-byte seed: the derived
/// verification key and the signature over the caller's message. The unit
/// passes every check of the Ed25519 codec.
pub fn ed25519_signed_unit(seed: &Vec<u8>, msg: &Vec<u8>) -> (r: (Vec<u8>, Vec<u8>))
    requires
        seed@.len() == 32,
    ensures
        r.0@ == ed25519_pub_of(seed@),
        r.0@.len() == 32,
        r.1@ == ed25519_sig_of(seed@, msg@),
        r.1@.len() == 64,
        spec_unit_passes(SchemeVariant::Ed25519, r.0@, msg@, r.1@),
{
    let pk = ed25519_public_key(seed);
    let sig = ed25519_sign(seed, msg);
    (pk, sig)
}

/// One freshly signed ECDSA unit from a 32-byte seed, or nothing where the
/// seed is not a valid scalar. A produced unit passes every check of the
/// ECDSA codec.
pub fn ecdsa_signed_unit(seed: &Vec<u8>, msg: &Vec<u8>) -> (r: Option<(Vec<u8>, Vec<u8>)>)
    requires
        seed@.len() == 32,
    ensures
        match r {
            Some(unit) => secp256k1_scalar_wf(seed@) && unit.0@ == secp256k1_pub_of(seed@)
                && unit.0@.len() == 33 && unit.1@ == ecdsa_sig_of(seed@, msg@) && unit.1@.len()
                == 64 && spec_unit_passes(SchemeVariant::EcdsaSecp256k1, unit.0@, msg@, unit.1@),
            None => !secp256k1_scalar_wf(seed@),
        },
{
    if !secp256k1_scalar_parses(seed) {
        return None;
    }
    let pk = secp256k1_public_key(seed);
    let sig = ecdsa_sign(seed, msg);
    Some((pk, sig))
}

/// A unit the Ed25519 generator can have produced: key and signature stem
/// from one 32-byte seed and the unit's own message.
pub open spec fn spec_ed25519_generated_unit(pk: Seq<u8>, msg: Seq<u8>, sig: Seq<u8>) -> bool {
    exists|seed: Seq<u8>|
        seed.len() == 32 && pk == ed25519_pub_of(seed) && sig == ed25519_sig_of(seed, msg)
}

/// A unit the ECDSA generator can have produced.
pub open spec fn spec_ecdsa_generated_unit(pk: Seq<u8>, msg: Seq<u8>, sig: Seq<u8>) -> bool {
    exists|seed: Seq<u8>|
        seed.len() == 32 && secp256k1_scalar_wf(seed) && pk == secp256k1_pub_of(seed) && sig
            == ecdsa_sig_of(seed, msg)
}

/// Produce `count` freshly signed Ed25519 units over the fixed message.
/// It fails only when the random source does, and a draw happens only for
/// `count > 0`; every produced unit passes the Ed25519 codec, so the
/// Ed25519 program commits exactly `count` on a produced batch.
pub fn generate_ed25519_inputs(count: usize) -> (r: Result<Ed25519Input, GeneratorFault>)
    ensures
        r matches Err(f) ==> f == GeneratorFault::RandomnessUnavailable && count > 0,
        r matches Ok(b) ==> {
            &&& b.balanced()
            &&& b.keys().len() == count
            &&& forall|i: int| 0 <= i < count ==> #[trigger] b.keys()[i].len() == 32
            &&& forall|i: int| 0 <= i < count ==> #[trigger] b.signatures()[i].len() == 64
            &&& forall|i: int| 0 <= i < count ==> b.messages()[i] == spec_default_message()
            &&& forall|i: int|
                0 <= i < count ==> spec_ed25519_generated_unit(
                    b.keys()[i],
                    b.messages()[i],
                    b.signatures()[i],
                )
            &&& forall|i: int|
                0 <= i < count ==> spec_unit_passes(
                    SchemeVariant::Ed25519,
                    b.keys()[i],
                    b.messages()[i],
                    b.signatures()[i],
                )
            &&& spec_batch_result(SchemeVariant::Ed25519, b.keys(), b.messages(), b.signatures())
                == Ok::<u32, ProgramFault>(count as u32)
        },
{
    let mut keys: Vec<Vec<u8>> = Vec::new();
    let mut msgs: Vec<Vec<u8>> = Vec::new();
    let mut sigs: Vec<Vec<u8>> = Vec::new();
    let mut i: usize = 0;
    while i < count
        invariant
            i <= count,
            keys@.len() == i,
            msgs@.len() == i,
            sigs@.len() == i,
            forall|j: int| 0 <= j < i ==> #[trigger] byte_rows(keys@)[j].len() == 32,
            forall|j: int| 0 <= j < i ==> #[trigger] byte_rows(sigs@)[j].len() == 64,
            forall|j: int| 0 <= j < i ==> byte_rows(msgs@)[j] == spec_default_message(),
            forall|j: int|
                0 <= j < i ==> spec_ed25519_generated_unit(
                    byte_rows(keys@)[j],
                    byte_rows(msgs@)[j],
                    byte_rows(sigs@)[j],
                ),
            forall|j: int|
                0 <= j < i ==> spec_unit_passes(
                    SchemeVariant::Ed25519,
                    byte_rows(keys@)[j],
                    byte_rows(msgs@)[j],
                    byte_rows(sigs@)[j],
                ),
        decreases count - i,
    {
        let seed = match os_random_seed() {
            Ok(s) => s,
            Err(f) => {
                return Err(f);
            },
        };
        let msg = default_message();
        let (pk, sig) = ed25519_signed_unit(&seed, &msg);
        proof {
            assert(spec_ed25519_generated_unit(pk@, msg@, sig@)) by {
                assert(seed@.len() == 32 && pk@ == ed25519_pub_of(seed@) && sig@
                    == ed25519_sig_of(seed@, msg@));
            }
            assert(byte_rows(keys@.push(pk)) =~= byte_rows(keys@).push(pk@));
            assert(byte_rows(msgs@.push(msg)) =~= byte_rows(msgs@).push(msg@));
            assert(byte_rows(sigs@.push(sig)) =~= byte_rows(sigs@).push(sig@));
        }
        keys.push(pk);
        msgs.push(msg);
        sigs.push(sig);
        i = i + 1;
    }
    proof {
        lemma_all_valid_commits_count(
            SchemeVariant::Ed25519,
            byte_rows(keys@),
            byte_rows(msgs@),
            byte_rows(sigs@),
        );
    }
    Ok(Ed25519Input { pubkey_bytes: keys, message_bytes: msgs, signature_bytes: sigs })
}

/// One fresh ECDSA unit over `msg`, drawing seeds until one is a valid
/// scalar, up to a fixed retry bound.
fn fresh_ecdsa_unit(msg: &Vec<u8>) -> (r: Result<(Vec<u8>, Vec<u8>), GeneratorFault>)
    ensures
        r matches Ok(unit) ==> spec_ecdsa_generated_unit(unit.0@, msg@, unit.1@) && unit.0@.len()
            == 33 && unit.1@.len() == 64 && spec_unit_passes(
            SchemeVariant::EcdsaSecp256k1,
            unit.0@,
            msg@,
            unit.1@,
        ),
        r matches Err(f) ==> f == GeneratorFault::RandomnessUnavailable || f
            == GeneratorFault::ScalarSamplingFailed,
{
    let mut tries: usize = 0;
    while tries < 128
        invariant
            tries <= 128,
        decreases 128 - tries,
    {
        let seed = match os_random_seed() {
            Ok(s) => s,
            Err(f) => {
                return Err(f);
            },
        };
        match ecdsa_signed_unit(&seed, msg) {
            Some((pk, sig)) => {
                proof {
                    assert(spec_ecdsa_generated_unit(pk@, msg@, sig@)) by {
                        assert(seed@.len() == 32 && secp256k1_scalar_wf(seed@) && pk@
                            == secp256k1_pub_of(seed@) && sig@ == ecdsa_sig_of(seed@, msg@));
                    }
                }
                return Ok((pk, sig));
            },
            None => {
                // the seed missed the scalar field; draw a fresh one
            },
        }
        tries = tries + 1;
    }
    Err(GeneratorFault::ScalarSamplingFailed)
}

/// Produce `count` freshly signed ECDSA units over the fixed message. A
/// random seed that is no valid scalar is discarded and drawn again. It
/// fails only when the random source does or the retry bound is spent, and
/// a draw happens only for `count > 0`; every produced unit passes the
/// ECDSA codec, so the ECDSA program commits exactly `count` on a produced
/// batch.
pub fn generate_ecdsa_inputs(count: usize) -> (r: Result<EcdsaInput, GeneratorFault>)
    ensures
        r matches Err(f) ==> (f == GeneratorFault::RandomnessUnavailable || f
            == GeneratorFault::ScalarSamplingFailed) && count > 0,
        r matches Ok(b) ==> {
            &&& b.balanced()
            &&& b.keys().len() == count
            &&& forall|i: int| 0 <= i < count ==> #[trigger] b.keys()[i].len() == 33
            &&& forall|i: int| 0 <= i < count ==> #[trigger] b.signatures()[i].len() == 64
            &&& forall|i: int| 0 <= i < count ==> b.messages()[i] == spec_default_message()
            &&& forall|i: int|
                0 <= i < count ==> spec_ecdsa_generated_unit(
                    b.keys()[i],
                    b.messages()[i],
                    b.signatures()[i],
                )
            &&& forall|i: int|
                0 <= i < count ==> spec_unit_passes(
                    SchemeVariant::EcdsaSecp256k1,
                    b.keys()[i],
                    b.messages()[i],
                    b.signatures()[i],
                )
            &&& spec_batch_result(
                SchemeVariant::EcdsaSecp256k1,
                b.keys(),
                b.messages(),
                b.signatures(),
            ) == Ok::<u32, ProgramFault>(count as u32)
        },
{
    let mut keys: Vec<Vec<u8>> = Vec::new();
    let mut msgs: Vec<Vec<u8>> = Vec::new();
    let mut sigs: Vec<Vec<u8>> = Vec::new();
    let mut i: usize = 0;
    while i < count
        invariant
            i <= count,
            keys@.len() == i,
            msgs@.len() == i,
            sigs@.len() == i,
            forall|j: int| 0 <= j < i ==> #[trigger] byte_rows(keys@)[j].len() == 33,
            forall|j: int| 0 <= j < i ==> #[trigger] byte_rows(sigs@)[j].len() == 64,
            forall|j: int| 0 <= j < i ==> byte_rows(msgs@)[j] == spec_default_message(),
            forall|j: int|
                0 <= j < i ==> spec_ecdsa_generated_unit(
                    byte_rows(keys@)[j],
                    byte_rows(msgs@)[j],
                    byte_rows(sigs@)[j],
                ),
            forall|j: int|
                0 <= j < i ==> spec_unit_passes(
                    SchemeVariant::EcdsaSecp256k1,
                    byte_rows(keys@)[j],
                    byte_rows(msgs@)[j],
                    byte_rows(sigs@)[j],
                ),
        decreases count - i,
    {
        let msg = default_message();
        let (pk, sig) = match fresh_ecdsa_unit(&msg) {
            Ok(unit) => unit,
            Err(f) => {
                return Err(f);
            },
        };
        proof {
            assert(byte_rows(keys@.push(pk)) =~= byte_rows(keys@).push(pk@));
            assert(byte_rows(msgs@.push(msg)) =~= byte_rows(msgs@).push(msg@));
            assert(byte_rows(sigs@.push(sig)) =~= byte_rows(sigs@).push(sig@));
        }
        keys.push(pk);
        msgs.push(msg);
        sigs.push(sig);
        i = i + 1;
    }
    proof {
        lemma_all_valid_commits_count(
            SchemeVariant::EcdsaSecp256k1,
            byte_rows(keys@),
            byte_rows(msgs@),
            byte_rows(sigs@),
        );
    }
    Ok(EcdsaInput { pubkey_bytes: keys, message_bytes: msgs, signature_bytes: sigs })
}

} // verus!
