use vstd::prelude::*;
use crate::SchemeVariant;

verus! {

/// The distinct ways one (key, message, signature) unit can fail, in the
/// order the checks run: byte-length checks first, then decoding, then the
/// signature equation itself.
#[derive(Clone, Copy, PartialEq, Eq, Structural, Debug)]
pub enum UnitFault {
    /// The public key has a byte length the scheme does not accept.
    KeyLength,
    /// The public key bytes do not decode to a curve point.
    KeyDecode,
    /// The signature has a byte length the scheme does not accept.
    SignatureLength,
    /// The signature bytes do not decode to a scalar pair in range. This
    /// fires on the ECDSA path only: for Ed25519 the curve library checks
    /// the encoding inside verification itself and offers no separate
    /// parse step, so a malformed 64-byte Ed25519 signature surfaces as
    /// `SignatureInvalid`.
    SignatureDecode,
    /// A well-formed signature that does not verify for this key and message.
    SignatureInvalid,
}

/// Whether 32 public-key bytes decode to an Ed25519 verification key.
pub uninterp spec fn ed25519_key_wf(pk: Seq<u8>) -> bool;

/// Whether a decodable Ed25519 key, message and 64 signature bytes satisfy
/// the Ed25519 verification equation.
pub uninterp spec fn ed25519_verifies(pk: Seq<u8>, msg: Seq<u8>, sig: Seq<u8>) -> bool;

/// Whether public-key bytes are a SEC1 encoding of a secp256k1 point.
pub uninterp spec fn secp256k1_key_wf(pk: Seq<u8>) -> bool;

/// Whether 64 signature bytes decode to an in-range, nonzero (r, s) pair.
pub uninterp spec fn ecdsa_sig_wf(sig: Seq<u8>) -> bool;

/// Whether a decodable secp256k1 key, message and decodable signature
/// satisfy the ECDSA equation over SHA-256 of the message. Only low-S
/// signatures are accepted (the curve library's canonical form).
pub uninterp spec fn ecdsa_verifies(pk: Seq<u8>, msg: Seq<u8>, sig: Seq<u8>) -> bool;

/// Relies on `ed25519_consensus::VerificationKey::try_from([u8; 32])`:
/// it returns `Ok` exactly when the bytes decompress to a curve point,
/// a function of the bytes alone.
#[verifier::external_body]
fn ed25519_key_parses(pk: &Vec<u8>) -> (r: bool)
    requires
        pk@.len() == 32,
    ensures
        r == ed25519_key_wf(pk@),
{
    let arr: [u8; 32] = pk.as_slice().try_into().unwrap();
    ed25519_consensus::VerificationKey::try_from(arr).is_ok()
}

/// Relies on `ed25519_consensus::VerificationKey::verify`: the outcome of
/// the Ed25519 verification equation, under the consensus acceptance rules
/// of ZIP 215, is a function of the key, message and signature bytes alone.
#[verifier::external_body]
fn ed25519_signature_verifies(pk: &Vec<u8>, msg: &Vec<u8>, sig: &Vec<u8>) -> (r: bool)
    requires
        pk@.len() == 32,
        sig@.len() == 64,
        ed25519_key_wf(pk@),
    ensures
        r == ed25519_verifies(pk@, msg@, sig@),
{
    let pk_arr: [u8; 32] = pk.as_slice().try_into().unwrap();
    let sig_arr: [u8; 64] = sig.as_slice().try_into().unwrap();
    let key = ed25519_consensus::VerificationKey::try_from(pk_arr).unwrap();
    let signature = ed25519_consensus::Signature::from(sig_arr);
    key.verify(&signature, msg.as_slice()).is_ok()
}

/// Relies on `k256::ecdsa::VerifyingKey::from_sec1_bytes`: it returns `Ok`
/// exactly when the bytes are a SEC1 point encoding, a function of the
/// bytes alone.
#[verifier::external_body]
fn secp256k1_key_parses(pk: &Vec<u8>) -> (r: bool)
    ensures
        r == secp256k1_key_wf(pk@),
{
    k256::ecdsa::VerifyingKey::from_sec1_bytes(pk.as_slice()).is_ok()
}

/// Relies on `k256::ecdsa::Signature::from_slice`: for 64 bytes it returns
/// `Ok` exactly when both halves are in-range nonzero scalars, a function
/// of the bytes alone.
#[verifier::external_body]
fn ecdsa_signature_parses(sig: &Vec<u8>) -> (r: bool)
    requires
        sig@.len() == 64,
    ensures
        r == ecdsa_sig_wf(sig@),
{
    k256::ecdsa::Signature::from_slice(sig.as_slice()).is_ok()
}

/// Relies on `k256::ecdsa::VerifyingKey::verify` (through the `Verifier`
/// trait): the outcome of the ECDSA equation over SHA-256 of the message,
/// rejecting high-S signatures, is a function of the bytes alone.
#[verifier::external_body]
fn ecdsa_signature_verifies(pk: &Vec<u8>, msg: &Vec<u8>, sig: &Vec<u8>) -> (r: bool)
    requires
        sig@.len() == 64,
        secp256k1_key_wf(pk@),
        ecdsa_sig_wf(sig@),
    ensures
        r == ecdsa_verifies(pk@, msg@, sig@),
{
    let key = k256::ecdsa::VerifyingKey::from_sec1_bytes(pk.as_slice()).unwrap();
    let signature = k256::ecdsa::Signature::from_slice(sig.as_slice()).unwrap();
    k256::ecdsa::signature::Verifier::verify(&key, msg.as_slice(), &signature).is_ok()
}

/// The result of checking one unit, decided by the scheme's byte widths,
/// the decodability of key and signature, and the verification equation.
pub open spec fn spec_unit_check(
    scheme: SchemeVariant,
    pk: Seq<u8>,
    msg: Seq<u8>,
    sig: Seq<u8>,
) -> Result<(), UnitFault> {
    match scheme {
        SchemeVariant::Ed25519 => if pk.len() != 32 {
            Err(UnitFault::KeyLength)
        } else if !ed25519_key_wf(pk) {
            Err(UnitFault::KeyDecode)
        } else if sig.len() != 64 {
            Err(UnitFault::SignatureLength)
        } else if !ed25519_verifies(pk, msg, sig) {
            Err(UnitFault::SignatureInvalid)
        } else {
            Ok(())
        },
        SchemeVariant::EcdsaSecp256k1 => if pk.len() != 33 && pk.len() != 65 {
            Err(UnitFault::KeyLength)
        } else if !secp256k1_key_wf(pk) {
            Err(UnitFault::KeyDecode)
        } else if sig.len() != 64 {
            Err(UnitFault::SignatureLength)
        } else if !ecdsa_sig_wf(sig) {
            Err(UnitFault::SignatureDecode)
        } else if !ecdsa_verifies(pk, msg, sig) {
            Err(UnitFault::SignatureInvalid)
        } else {
            Ok(())
        },
    }
}

/// Whether one unit passes every check of its scheme.
pub open spec fn spec_unit_passes(
    scheme: SchemeVariant,
    pk: Seq<u8>,
    msg: Seq<u8>,
    sig: Seq<u8>,
) -> bool {
    spec_unit_check(scheme, pk, msg, sig) is Ok
}

/// Decode and verify one (key, message, signature) unit under `scheme`.
/// Pure: the result is a function of the argument bytes alone.
pub fn verify_unit(scheme: SchemeVariant, pk: &Vec<u8>, msg: &Vec<u8>, sig: &Vec<u8>) -> (r:
    Result<(), UnitFault>)
    ensures
        r == spec_unit_check(scheme, pk@, msg@, sig@),
{
    match scheme {
        SchemeVariant::Ed25519 => {
            if pk.len() != 32 {
                Err(UnitFault::KeyLength)
            } else if !ed25519_key_parses(pk) {
                Err(UnitFault::KeyDecode)
            } else if sig.len() != 64 {
                Err(UnitFault::SignatureLength)
            } else if !ed25519_signature_verifies(pk, msg, sig) {
                Err(UnitFault::SignatureInvalid)
            } else {
                Ok(())
            }
        },
        SchemeVariant::EcdsaSecp256k1 => {
            if pk.len() != 33 && pk.len() != 65 {
                Err(UnitFault::KeyLength)
            } else if !secp256k1_key_parses(pk) {
                Err(UnitFault::KeyDecode)
            } else if sig.len() != 64 {
                Err(UnitFault::SignatureLength)
            } else if !ecdsa_signature_parses(sig) {
                Err(UnitFault::SignatureDecode)
            } else if !ecdsa_signature_verifies(pk, msg, sig) {
                Err(UnitFault::SignatureInvalid)
            } else {
                Ok(())
            }
        },
    }
}

} // verus!
