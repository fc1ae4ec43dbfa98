use sigbatch::SchemeVariant;
use sigbatch::batch::Ed25519Input;
use sigbatch::codec::{UnitFault, verify_unit};
use sigbatch::generator::{ecdsa_signed_unit, ed25519_signed_unit};
use sigbatch::program::{ProgramFault, run_ecdsa_program, run_ed25519_program};
use sigbatch::{EcdsaInput};

fn seed(tag: u8) -> Vec<u8> {
    vec![tag; 32]
}

fn ed25519_batch(msgs: Vec<Vec<u8>>) -> Ed25519Input {
    let mut pubkey_bytes = Vec::new();
    let mut message_bytes = Vec::new();
    let mut signature_bytes = Vec::new();
    for (i, msg) in msgs.into_iter().enumerate() {
        let (pk, sig) = ed25519_signed_unit(&seed(i as u8 + 1), &msg);
        pubkey_bytes.push(pk);
        message_bytes.push(msg);
        signature_bytes.push(sig);
    }
    Ed25519Input { pubkey_bytes, message_bytes, signature_bytes }
}

fn ecdsa_batch(msgs: Vec<Vec<u8>>) -> EcdsaInput {
    let mut pubkey_bytes = Vec::new();
    let mut message_bytes = Vec::new();
    let mut signature_bytes = Vec::new();
    for (i, msg) in msgs.into_iter().enumerate() {
        let (pk, sig) = ecdsa_signed_unit(&seed(i as u8 + 1), &msg).expect("valid scalar");
        pubkey_bytes.push(pk);
        message_bytes.push(msg);
        signature_bytes.push(sig);
    }
    EcdsaInput { pubkey_bytes, message_bytes, signature_bytes }
}

fn three_messages() -> Vec<Vec<u8>> {
    vec![b"alpha".to_vec(), b"".to_vec(), b"a longer message body".to_vec()]
}

#[test]
fn empty_ed25519_batch_commits_zero() {
    let input = Ed25519Input { pubkey_bytes: vec![], message_bytes: vec![], signature_bytes: vec![] };
    assert_eq!(run_ed25519_program(&input), Ok(0));
}

#[test]
fn empty_ecdsa_batch_commits_zero() {
    let input = EcdsaInput { pubkey_bytes: vec![], message_bytes: vec![], signature_bytes: vec![] };
    assert_eq!(run_ecdsa_program(&input), Ok(0));
}

#[test]
fn valid_ed25519_batch_commits_count() {
    let input = ed25519_batch(three_messages());
    assert_eq!(run_ed25519_program(&input), Ok(3));
}

#[test]
fn valid_ecdsa_batch_commits_count() {
    let input = ecdsa_batch(three_messages());
    assert_eq!(run_ecdsa_program(&input), Ok(3));
}

fn ed25519_swap_case(bad: usize) {
    let msgs = vec![
        b"one".to_vec(),
        b"two".to_vec(),
        b"three".to_vec(),
        b"four".to_vec(),
        b"five".to_vec(),
    ];
    let mut input = ed25519_batch(msgs);
    // a well-formed signature by a different key over a different message
    let (_, foreign_sig) = ed25519_signed_unit(&seed(99), &b"foreign".to_vec());
    input.signature_bytes[bad] = foreign_sig;
    assert_eq!(
        run_ed25519_program(&input),
        Err(ProgramFault::Unit { index: bad, fault: UnitFault::SignatureInvalid })
    );
}

#[test]
fn ed25519_swapped_signature_aborts_at_start() {
    ed25519_swap_case(0);
}

#[test]
fn ed25519_swapped_signature_aborts_in_middle() {
    ed25519_swap_case(2);
}

#[test]
fn ed25519_swapped_signature_aborts_at_end() {
    ed25519_swap_case(4);
}

#[test]
fn ecdsa_swapped_signature_aborts() {
    let mut input = ecdsa_batch(three_messages());
    let (_, foreign_sig) = ecdsa_signed_unit(&seed(99), &b"foreign".to_vec()).expect("valid scalar");
    input.signature_bytes[1] = foreign_sig;
    assert_eq!(
        run_ecdsa_program(&input),
        Err(ProgramFault::Unit { index: 1, fault: UnitFault::SignatureInvalid })
    );
}

#[test]
fn length_mismatch_aborts_before_decoding() {
    // garbage everywhere: with mismatched lengths nothing is ever decoded
    let input = Ed25519Input {
        pubkey_bytes: vec![vec![0xAB; 7], vec![0xCD; 9]],
        message_bytes: vec![vec![1, 2, 3]],
        signature_bytes: vec![vec![9; 2], vec![8; 4]],
    };
    assert_eq!(run_ed25519_program(&input), Err(ProgramFault::LengthMismatch));

    let input = EcdsaInput {
        pubkey_bytes: vec![],
        message_bytes: vec![vec![]],
        signature_bytes: vec![],
    };
    assert_eq!(run_ecdsa_program(&input), Err(ProgramFault::LengthMismatch));
}

#[test]
fn ed25519_key_length_31_rejected() {
    let mut input = ed25519_batch(vec![b"msg".to_vec()]);
    input.pubkey_bytes[0].truncate(31);
    assert_eq!(
        run_ed25519_program(&input),
        Err(ProgramFault::Unit { index: 0, fault: UnitFault::KeyLength })
    );
}

#[test]
fn ed25519_key_length_65_rejected() {
    let mut input = ed25519_batch(vec![b"msg".to_vec()]);
    while input.pubkey_bytes[0].len() < 65 {
        input.pubkey_bytes[0].push(0);
    }
    assert_eq!(
        run_ed25519_program(&input),
        Err(ProgramFault::Unit { index: 0, fault: UnitFault::KeyLength })
    );
}

#[test]
fn ecdsa_key_length_32_rejected() {
    let mut input = ecdsa_batch(vec![b"msg".to_vec()]);
    input.pubkey_bytes[0].truncate(32);
    assert_eq!(
        run_ecdsa_program(&input),
        Err(ProgramFault::Unit { index: 0, fault: UnitFault::KeyLength })
    );
}

#[test]
fn ed25519_signature_length_rejected() {
    let mut input = ed25519_batch(vec![b"msg".to_vec()]);
    input.signature_bytes[0].truncate(63);
    assert_eq!(
        run_ed25519_program(&input),
        Err(ProgramFault::Unit { index: 0, fault: UnitFault::SignatureLength })
    );
}

#[test]
fn ecdsa_signature_length_rejected() {
    let mut input = ecdsa_batch(vec![b"msg".to_vec()]);
    input.signature_bytes[0].push(0);
    assert_eq!(
        run_ecdsa_program(&input),
        Err(ProgramFault::Unit { index: 0, fault: UnitFault::SignatureLength })
    );
}

#[test]
fn ed25519_every_signature_bit_flip_aborts() {
    let msg = b"tamper target".to_vec();
    let (pk, sig) = ed25519_signed_unit(&seed(42), &msg);
    for byte in 0..64 {
        for bit in 0..8 {
            let mut bad_sig = sig.clone();
            bad_sig[byte] ^= 1u8 << bit;
            let r = verify_unit(SchemeVariant::Ed25519, &pk, &msg, &bad_sig);
            assert_eq!(r, Err(UnitFault::SignatureInvalid), "flip at byte {byte} bit {bit}");
        }
    }
    assert_eq!(verify_unit(SchemeVariant::Ed25519, &pk, &msg, &sig), Ok(()));
}

#[test]
fn ecdsa_every_signature_bit_flip_aborts() {
    let msg = b"tamper target".to_vec();
    let (pk, sig) = ecdsa_signed_unit(&seed(42), &msg).expect("valid scalar");
    for byte in 0..64 {
        for bit in 0..8 {
            let mut bad_sig = sig.clone();
            bad_sig[byte] ^= 1u8 << bit;
            let r = verify_unit(SchemeVariant::EcdsaSecp256k1, &pk, &msg, &bad_sig);
            // a flipped scalar either leaves the field (decode fault) or
            // breaks the equation (verification fault); it never passes
            assert!(
                r == Err(UnitFault::SignatureDecode) || r == Err(UnitFault::SignatureInvalid),
                "flip at byte {byte} bit {bit} gave {r:?}"
            );
        }
    }
    assert_eq!(verify_unit(SchemeVariant::EcdsaSecp256k1, &pk, &msg, &sig), Ok(()));
}

#[test]
fn ed25519_undecodable_key_is_codec_fault() {
    let msg = b"msg".to_vec();
    let (pk, sig) = ed25519_signed_unit(&seed(7), &msg);
    let mut saw_key_decode = false;
    for last in 0..=255u8 {
        let mut bad_pk = pk.clone();
        bad_pk[31] = last;
        match verify_unit(SchemeVariant::Ed25519, &bad_pk, &msg, &sig) {
            Err(UnitFault::KeyDecode) => saw_key_decode = true,
            Err(UnitFault::SignatureInvalid) => {}
            Ok(()) => {}
            other => panic!("unexpected result {other:?}"),
        }
    }
    // about half of all 32-byte strings are no curve point: some mutation
    // of the top byte must fail to decode
    assert!(saw_key_decode);
}

#[test]
fn ecdsa_out_of_range_signature_is_decode_fault() {
    let msg = b"msg".to_vec();
    let (pk, _) = ecdsa_signed_unit(&seed(7), &msg).expect("valid scalar");
    // r = s = 0 and r = s = 2^256 - 1 are both outside the scalar field
    let zero_sig = vec![0u8; 64];
    let max_sig = vec![0xFFu8; 64];
    assert_eq!(
        verify_unit(SchemeVariant::EcdsaSecp256k1, &pk, &msg, &zero_sig),
        Err(UnitFault::SignatureDecode)
    );
    assert_eq!(
        verify_unit(SchemeVariant::EcdsaSecp256k1, &pk, &msg, &max_sig),
        Err(UnitFault::SignatureDecode)
    );
}

#[test]
fn ecdsa_undecodable_key_is_codec_fault() {
    let msg = b"msg".to_vec();
    let (pk, sig) = ecdsa_signed_unit(&seed(7), &msg).expect("valid scalar");
    // a compressed-format key whose x coordinate is all ones is no point
    let mut bad_pk = vec![0xFFu8; 33];
    bad_pk[0] = 0x02;
    assert_eq!(
        verify_unit(SchemeVariant::EcdsaSecp256k1, &bad_pk, &msg, &sig),
        Err(UnitFault::KeyDecode)
    );
    assert_eq!(pk.len(), 33);
}

#[test]
fn tampered_message_aborts() {
    let mut input = ed25519_batch(vec![b"pay 10 to a".to_vec()]);
    input.message_bytes[0] = b"pay 99 to b".to_vec();
    assert_eq!(
        run_ed25519_program(&input),
        Err(ProgramFault::Unit { index: 0, fault: UnitFault::SignatureInvalid })
    );
}
