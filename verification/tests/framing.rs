use sigbatch::SchemeVariant;
use sigbatch::batch::Ed25519Input;
use sigbatch::boundary::{BoundaryChannel, ExecutionFault, execute_program, run_program_image};
use sigbatch::framing::{
    FramingFault, decode_ed25519_input, decode_public_output, encode_ed25519_input,
    encode_public_output,
};
use sigbatch::generator::ed25519_signed_unit;
use sigbatch::program::ProgramFault;

fn signed_batch(msgs: Vec<Vec<u8>>) -> Ed25519Input {
    let mut pubkey_bytes = Vec::new();
    let mut message_bytes = Vec::new();
    let mut signature_bytes = Vec::new();
    for (i, msg) in msgs.into_iter().enumerate() {
        let (pk, sig) = ed25519_signed_unit(&vec![i as u8 + 1; 32], &msg);
        pubkey_bytes.push(pk);
        message_bytes.push(msg);
        signature_bytes.push(sig);
    }
    Ed25519Input { pubkey_bytes, message_bytes, signature_bytes }
}

#[test]
fn public_output_is_little_endian() {
    assert_eq!(encode_public_output(3), vec![3, 0, 0, 0]);
    assert_eq!(encode_public_output(0x01020304), vec![4, 3, 2, 1]);
    assert_eq!(encode_public_output(u32::MAX), vec![255, 255, 255, 255]);
}

#[test]
fn public_output_round_trips() {
    for n in [0u32, 1, 3, 256, 65537, u32::MAX] {
        assert_eq!(decode_public_output(&encode_public_output(n)), Ok(n));
    }
}

#[test]
fn public_output_wrong_length_rejected() {
    assert_eq!(decode_public_output(&vec![]), Err(FramingFault));
    assert_eq!(decode_public_output(&vec![1, 2, 3]), Err(FramingFault));
    assert_eq!(decode_public_output(&vec![1, 2, 3, 4, 5]), Err(FramingFault));
}

#[test]
fn batch_wire_round_trips() {
    let input = Ed25519Input {
        pubkey_bytes: vec![vec![1, 2, 3], vec![]],
        message_bytes: vec![vec![4], vec![5, 6]],
        signature_bytes: vec![vec![], vec![7, 8, 9, 10]],
    };
    let wire = encode_ed25519_input(&input);
    let back = decode_ed25519_input(&wire).expect("round trip");
    assert_eq!(back.pubkey_bytes, input.pubkey_bytes);
    assert_eq!(back.message_bytes, input.message_bytes);
    assert_eq!(back.signature_bytes, input.signature_bytes);
}

#[test]
fn empty_batch_wire_round_trips() {
    let input = Ed25519Input { pubkey_bytes: vec![], message_bytes: vec![], signature_bytes: vec![] };
    let wire = encode_ed25519_input(&input);
    // three empty sequences: three zero counts
    assert_eq!(wire, vec![0u8; 12]);
    let back = decode_ed25519_input(&wire).expect("round trip");
    assert_eq!(back.pubkey_bytes.len(), 0);
    assert_eq!(back.message_bytes.len(), 0);
    assert_eq!(back.signature_bytes.len(), 0);
}

#[test]
fn truncated_wire_rejected() {
    let input = signed_batch(vec![b"m".to_vec()]);
    let mut wire = encode_ed25519_input(&input);
    wire.pop();
    assert!(decode_ed25519_input(&wire).is_err());
    assert!(decode_ed25519_input(&vec![]).is_err());
    assert!(decode_ed25519_input(&vec![1, 0, 0]).is_err());
}

#[test]
fn trailing_bytes_rejected() {
    let input = signed_batch(vec![b"m".to_vec()]);
    let mut wire = encode_ed25519_input(&input);
    wire.push(0);
    assert!(decode_ed25519_input(&wire).is_err());
}

#[test]
fn overlong_inner_length_rejected() {
    // one sequence claiming one string of length 100, with no bytes behind it
    let mut wire = vec![1, 0, 0, 0, 100, 0, 0, 0];
    wire.extend_from_slice(&[0, 0, 0, 0, 0, 0, 0, 0]);
    assert!(decode_ed25519_input(&wire).is_err());
}

#[test]
fn image_run_commits_count_bytes() {
    let input = signed_batch(vec![b"one".to_vec(), b"two".to_vec(), b"three".to_vec()]);
    let wire = encode_ed25519_input(&input);
    let out = run_program_image(SchemeVariant::Ed25519, &wire).expect("valid batch");
    assert_eq!(out, vec![3, 0, 0, 0]);
}

#[test]
fn image_run_rejects_malformed_input() {
    let r = run_program_image(SchemeVariant::Ed25519, &vec![1, 2, 3]);
    assert_eq!(r, Err(ExecutionFault::Framing(FramingFault)));
}

#[test]
fn image_run_aborts_on_bad_unit() {
    let mut input = signed_batch(vec![b"one".to_vec(), b"two".to_vec()]);
    input.message_bytes[1] = b"not two".to_vec();
    let wire = encode_ed25519_input(&input);
    let r = run_program_image(SchemeVariant::Ed25519, &wire);
    match r {
        Err(ExecutionFault::Program(ProgramFault::Unit { index, .. })) => assert_eq!(index, 1),
        other => panic!("expected a unit fault, got {other:?}"),
    }
}

#[test]
fn channel_reads_once_and_commits_once() {
    let input = signed_batch(vec![b"one".to_vec()]);
    let wire = encode_ed25519_input(&input);
    let mut channel = BoundaryChannel::open(wire.clone());
    let first = channel.read_input();
    assert_eq!(first, Some(wire));
    let second = channel.read_input();
    assert_eq!(second, None);
    assert!(channel.commit_output(1));
    assert!(!channel.commit_output(2));
    assert_eq!(channel.committed(), &Some(vec![1, 0, 0, 0]));
}

#[test]
fn execute_program_commits_exactly_the_count() {
    let input = signed_batch(vec![b"a".to_vec(), b"b".to_vec()]);
    let wire = encode_ed25519_input(&input);
    let mut channel = BoundaryChannel::open(wire);
    let r = execute_program(SchemeVariant::Ed25519, &mut channel);
    assert_eq!(r, Ok(2));
    assert_eq!(channel.committed(), &Some(vec![2, 0, 0, 0]));
}

#[test]
fn execute_program_commits_nothing_on_fault() {
    let mut channel = BoundaryChannel::open(vec![9, 9]);
    let r = execute_program(SchemeVariant::Ed25519, &mut channel);
    assert_eq!(r, Err(ExecutionFault::Framing(FramingFault)));
    assert_eq!(channel.committed(), &None);
}
