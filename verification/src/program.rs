use vstd::prelude::*;
use crate::SchemeVariant;
use crate::batch::{EcdsaInput, Ed25519Input, byte_rows};
use crate::codec::{UnitFault, spec_unit_check, spec_unit_passes, verify_unit};

verus! {

/// Why a batch run aborted: the precondition on the three lengths failed,
/// or some unit failed to decode or verify. Fail-fast: `Unit` carries the
/// first failing index and its fault.
#[derive(Clone, Copy, PartialEq, Eq, Structural, Debug)]
pub enum ProgramFault {
    /// The three sequences do not share one length; nothing was decoded.
    LengthMismatch,
    /// The first failing unit, with the check it failed.
    Unit { index: usize, fault: UnitFault },
}

/// The result of the batch scan from index `i` on, assuming every earlier
/// unit passed: the first failing unit from `i` on decides the fault, and
/// a clean scan commits the batch length.
pub open spec fn spec_batch_result_from(
    scheme: SchemeVariant,
    keys: Seq<Seq<u8>>,
    msgs: Seq<Seq<u8>>,
    sigs: Seq<Seq<u8>>,
    i: int,
) -> Result<u32, ProgramFault>
    decreases keys.len() - i,
{
    if i < 0 || i >= keys.len() {
        Ok(keys.len() as u32)
    } else {
        match spec_unit_check(scheme, keys[i], msgs[i], sigs[i]) {
            Ok(()) => spec_batch_result_from(scheme, keys, msgs, sigs, i + 1),
            Err(f) => Err(ProgramFault::Unit { index: i as usize, fault: f }),
        }
    }
}

/// The one public fact a run can commit, or the fault that aborted it:
/// a length mismatch aborts before any unit is looked at; otherwise the
/// units are scanned in ascending order and the first failure aborts;
/// a clean scan commits the count `N`.
pub open spec fn spec_batch_result(
    scheme: SchemeVariant,
    keys: Seq<Seq<u8>>,
    msgs: Seq<Seq<u8>>,
    sigs: Seq<Seq<u8>>,
) -> Result<u32, ProgramFault> {
    if keys.len() == msgs.len() && msgs.len() == sigs.len() {
        spec_batch_result_from(scheme, keys, msgs, sigs, 0)
    } else {
        Err(ProgramFault::LengthMismatch)
    }
}

/// Scan one batch under `scheme`: check the length precondition, then
/// decode and verify each unit in ascending index order, aborting on the
/// first failure; on success return the unit count.
pub fn verify_batch(
    scheme: SchemeVariant,
    keys: &Vec<Vec<u8>>,
    msgs: &Vec<Vec<u8>>,
    sigs: &Vec<Vec<u8>>,
) -> (r: Result<u32, ProgramFault>)
    requires
        keys@.len() <= u32::MAX,
    ensures
        r == spec_batch_result(scheme, byte_rows(keys@), byte_rows(msgs@), byte_rows(sigs@)),
{
    let ghost ks = byte_rows(keys@);
    let ghost ms = byte_rows(msgs@);
    let ghost ss = byte_rows(sigs@);
    let n = keys.len();
    if msgs.len() != n || sigs.len() != n {
        return Err(ProgramFault::LengthMismatch);
    }
    let mut i: usize = 0;
    while i < n
        invariant
            n == ks.len(),
            n == ms.len(),
            n == ss.len(),
            n <= u32::MAX,
            i <= n,
            ks == byte_rows(keys@),
            ms == byte_rows(msgs@),
            ss == byte_rows(sigs@),
            keys@.len() == n,
            msgs@.len() == n,
            sigs@.len() == n,
            spec_batch_result_from(scheme, ks, ms, ss, 0) == spec_batch_result_from(
                scheme,
                ks,
                ms,
                ss,
                i as int,
            ),
        decreases n - i,
    {
        match verify_unit(scheme, &keys[i], &msgs[i], &sigs[i]) {
            Ok(()) => {},
            Err(f) => {
                return Err(ProgramFault::Unit { index: i, fault: f });
            },
        }
        i = i + 1;
    }
    Ok(n as u32)
}

/// Run the ECDSA/secp256k1 program image on one batch.
pub fn run_ecdsa_program(input: &EcdsaInput) -> (r: Result<u32, ProgramFault>)
    requires
        input.keys().len() <= u32::MAX,
    ensures
        r == spec_batch_result(
            SchemeVariant::EcdsaSecp256k1,
            input.keys(),
            input.messages(),
            input.signatures(),
        ),
{
    verify_batch(
        SchemeVariant::EcdsaSecp256k1,
        &input.pubkey_bytes,
        &input.message_bytes,
        &input.signature_bytes,
    )
}

/// Run the Ed25519 program image on one batch.
pub fn run_ed25519_program(input: &Ed25519Input) -> (r: Result<u32, ProgramFault>)
    requires
        input.keys().len() <= u32::MAX,
    ensures
        r == spec_batch_result(
            SchemeVariant::Ed25519,
            input.keys(),
            input.messages(),
            input.signatures(),
        ),
{
    verify_batch(
        SchemeVariant::Ed25519,
        &input.pubkey_bytes,
        &input.message_bytes,
        &input.signature_bytes,
    )
}

/// Law: a balanced batch whose units all pass commits exactly its length
/// `N` — for every `N`, including `N == 0`.
pub proof fn lemma_all_valid_commits_count(
    scheme: SchemeVariant,
    keys: Seq<Seq<u8>>,
    msgs: Seq<Seq<u8>>,
    sigs: Seq<Seq<u8>>,
)
    requires
        keys.len() == msgs.len(),
        msgs.len() == sigs.len(),
        forall|i: int|
            0 <= i < keys.len() ==> spec_unit_passes(scheme, keys[i], msgs[i], sigs[i]),
    ensures
        spec_batch_result(scheme, keys, msgs, sigs) == Ok::<u32, ProgramFault>(
            keys.len() as u32,
        ),
{
    lemma_clean_scan_from(scheme, keys, msgs, sigs, 0);
}

/// A scan whose remaining units all pass ends in the committed count.
proof fn lemma_clean_scan_from(
    scheme: SchemeVariant,
    keys: Seq<Seq<u8>>,
    msgs: Seq<Seq<u8>>,
    sigs: Seq<Seq<u8>>,
    i: int,
)
    requires
        keys.len() == msgs.len(),
        msgs.len() == sigs.len(),
        0 <= i <= keys.len(),
        forall|j: int|
            i <= j < keys.len() ==> spec_unit_passes(scheme, keys[j], msgs[j], sigs[j]),
    ensures
        spec_batch_result_from(scheme, keys, msgs, sigs, i) == Ok::<u32, ProgramFault>(
            keys.len() as u32,
        ),
    decreases keys.len() - i,
{
    if i < keys.len() {
        lemma_clean_scan_from(scheme, keys, msgs, sigs, i + 1);
    }
}

/// Law: an empty batch commits `0` — vacuously, no unit is consulted.
pub proof fn lemma_empty_batch_commits_zero(scheme: SchemeVariant)
    ensures
        spec_batch_result(
            scheme,
            Seq::<Seq<u8>>::empty(),
            Seq::<Seq<u8>>::empty(),
            Seq::<Seq<u8>>::empty(),
        ) == Ok::<u32, ProgramFault>(0u32),
{
}

/// Law: in a balanced batch whose units all pass except the one at `bad`,
/// the run aborts exactly there, with that unit's own fault — whatever
/// the position of `bad` in the batch.
pub proof fn lemma_single_failure_aborts(
    scheme: SchemeVariant,
    keys: Seq<Seq<u8>>,
    msgs: Seq<Seq<u8>>,
    sigs: Seq<Seq<u8>>,
    bad: int,
)
    requires
        keys.len() == msgs.len(),
        msgs.len() == sigs.len(),
        0 <= bad < keys.len(),
        keys.len() <= u32::MAX,
        !spec_unit_passes(scheme, keys[bad], msgs[bad], sigs[bad]),
        forall|j: int|
            0 <= j < keys.len() && j != bad ==> spec_unit_passes(
                scheme,
                keys[j],
                msgs[j],
                sigs[j],
            ),
    ensures
        spec_batch_result(scheme, keys, msgs, sigs) == Err::<u32, ProgramFault>(
            ProgramFault::Unit {
                index: bad as usize,
                fault: spec_unit_check(scheme, keys[bad], msgs[bad], sigs[bad])->Err_0,
            },
        ),
{
    lemma_scan_reaches_first_failure(scheme, keys, msgs, sigs, 0, bad);
}

/// A scan whose units pass up to the first failing index aborts there.
proof fn lemma_scan_reaches_first_failure(
    scheme: SchemeVariant,
    keys: Seq<Seq<u8>>,
    msgs: Seq<Seq<u8>>,
    sigs: Seq<Seq<u8>>,
    i: int,
    bad: int,
)
    requires
        keys.len() == msgs.len(),
        msgs.len() == sigs.len(),
        0 <= i <= bad < keys.len(),
        keys.len() <= u32::MAX,
        !spec_unit_passes(scheme, keys[bad], msgs[bad], sigs[bad]),
        forall|j: int|
            i <= j < bad ==> spec_unit_passes(scheme, keys[j], msgs[j], sigs[j]),
    ensures
        spec_batch_result_from(scheme, keys, msgs, sigs, i) == Err::<u32, ProgramFault>(
            ProgramFault::Unit {
                index: bad as usize,
                fault: spec_unit_check(scheme, keys[bad], msgs[bad], sigs[bad])->Err_0,
            },
        ),
    decreases bad - i,
{
    if i < bad {
        lemma_scan_reaches_first_failure(scheme, keys, msgs, sigs, i + 1, bad);
    }
}

/// A scan that ends in a committed count saw only passing units.
proof fn lemma_scan_ok_implies_all_pass(
    scheme: SchemeVariant,
    keys: Seq<Seq<u8>>,
    msgs: Seq<Seq<u8>>,
    sigs: Seq<Seq<u8>>,
    i: int,
)
    requires
        0 <= i <= keys.len(),
        spec_batch_result_from(scheme, keys, msgs, sigs, i) is Ok,
    ensures
        forall|j: int| i <= j < keys.len() ==> spec_unit_passes(scheme, keys[j], msgs[j], sigs[j]),
    decreases keys.len() - i,
{
    if i < keys.len() {
        lemma_scan_ok_implies_all_pass(scheme, keys, msgs, sigs, i + 1);
    }
}

/// Law: a batch in which any unit fails never commits — the run aborts,
/// and without a committed output no proof of that batch is producible.
pub proof fn lemma_failing_unit_never_commits(
    scheme: SchemeVariant,
    keys: Seq<Seq<u8>>,
    msgs: Seq<Seq<u8>>,
    sigs: Seq<Seq<u8>>,
    bad: int,
)
    requires
        0 <= bad < keys.len(),
        !spec_unit_passes(scheme, keys[bad], msgs[bad], sigs[bad]),
    ensures
        spec_batch_result(scheme, keys, msgs, sigs) is Err,
{
    if keys.len() == msgs.len() && msgs.len() == sigs.len() {
        if spec_batch_result_from(scheme, keys, msgs, sigs, 0) is Ok {
            lemma_scan_ok_implies_all_pass(scheme, keys, msgs, sigs, 0);
        }
    }
}

/// Law: a batch whose three lengths differ aborts with `LengthMismatch`,
/// whatever bytes the sequences hold — no unit is decoded or consulted.
pub proof fn lemma_length_mismatch_aborts(
    scheme: SchemeVariant,
    keys: Seq<Seq<u8>>,
    msgs: Seq<Seq<u8>>,
    sigs: Seq<Seq<u8>>,
)
    requires
        !(keys.len() == msgs.len() && msgs.len() == sigs.len()),
    ensures
        spec_batch_result(scheme, keys, msgs, sigs) == Err::<u32, ProgramFault>(
            ProgramFault::LengthMismatch,
        ),
{
}

} // verus!

