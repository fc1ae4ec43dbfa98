use vstd::prelude::*;
use crate::SchemeVariant;
use crate::framing::{
    FramingFault, spec_decode_batch, spec_decode_rows, spec_u32_le, lemma_decode_rows_count,
    decode_batch_parts, encode_public_output,
};
use crate::program::{ProgramFault, spec_batch_result, verify_batch};

verus! {

/// Why one run of the program image produced no committed output.
#[derive(Clone, Copy, PartialEq, Eq, Structural, Debug)]
pub enum ExecutionFault {
    /// The one input read did not frame a batch.
    Framing(FramingFault),
    /// The batch itself aborted: a length mismatch or a failing unit.
    Program(ProgramFault),
}

/// What one run of a program image makes of its input bytes: the committed
/// public output — the verified count as four little-endian bytes — or the
/// fault that aborted the run before anything was committed.
pub open spec fn spec_image_result(scheme: SchemeVariant, b: Seq<u8>) -> Result<
    Seq<u8>,
    ExecutionFault,
> {
    match spec_decode_batch(b) {
        Some((ks, ms, ss)) => match spec_batch_result(scheme, ks, ms, ss) {
            Ok(n) => Ok(spec_u32_le(n)),
            Err(f) => Err(ExecutionFault::Program(f)),
        },
        None => Err(ExecutionFault::Framing(FramingFault)),
    }
}

/// One whole run of the program image on its serialized input: frame the
/// batch, scan it fail-fast, and serialize the committed count.
pub fn run_program_image(scheme: SchemeVariant, input_bytes: &Vec<u8>) -> (r: Result<
    Vec<u8>,
    ExecutionFault,
>)
    ensures
        match r {
            Ok(out) => spec_image_result(scheme, input_bytes@) == Ok::<Seq<u8>, ExecutionFault>(
                out@,
            ),
            Err(f) => spec_image_result(scheme, input_bytes@) == Err::<Seq<u8>, ExecutionFault>(
                f,
            ),
        },
{
    let (keys, msgs, sigs) = match decode_batch_parts(input_bytes) {
        Ok(t) => t,
        Err(f) => {
            return Err(ExecutionFault::Framing(f));
        },
    };
    proof {
        assert(spec_decode_rows(input_bytes@, 0) is Some);
        lemma_decode_rows_count(input_bytes@, 0);
    }
    match verify_batch(scheme, &keys, &msgs, &sigs) {
        Ok(n) => Ok(encode_public_output(n)),
        Err(f) => Err(ExecutionFault::Program(f)),
    }
}

/// Law: an end-to-end run over the wire encoding of a balanced batch whose
/// units all pass commits exactly the batch length, as four little-endian
/// bytes — for any batch whose counts and lengths fit their prefixes.
pub proof fn lemma_image_commits_valid_batch(
    scheme: SchemeVariant,
    keys: Seq<Seq<u8>>,
    msgs: Seq<Seq<u8>>,
    sigs: Seq<Seq<u8>>,
)
    requires
        crate::framing::spec_encodable_batch(keys, msgs, sigs),
        keys.len() == msgs.len(),
        msgs.len() == sigs.len(),
        forall|i: int|
            0 <= i < keys.len() ==> crate::codec::spec_unit_passes(
                scheme,
                keys[i],
                msgs[i],
                sigs[i],
            ),
    ensures
        spec_image_result(scheme, crate::framing::spec_encode_batch(keys, msgs, sigs))
            == Ok::<Seq<u8>, ExecutionFault>(spec_u32_le(keys.len() as u32)),
{
    crate::framing::lemma_batch_wire_round_trip(keys, msgs, sigs);
    crate::program::lemma_all_valid_commits_count(scheme, keys, msgs, sigs);
}

/// Law: an end-to-end run over the wire encoding of a batch in which any
/// unit fails commits nothing.
pub proof fn lemma_image_aborts_on_failing_unit(
    scheme: SchemeVariant,
    keys: Seq<Seq<u8>>,
    msgs: Seq<Seq<u8>>,
    sigs: Seq<Seq<u8>>,
    bad: int,
)
    requires
        crate::framing::spec_encodable_batch(keys, msgs, sigs),
        0 <= bad < keys.len(),
        !crate::codec::spec_unit_passes(scheme, keys[bad], msgs[bad], sigs[bad]),
    ensures
        spec_image_result(scheme, crate::framing::spec_encode_batch(keys, msgs, sigs)) is Err,
{
    crate::framing::lemma_batch_wire_round_trip(keys, msgs, sigs);
    crate::program::lemma_failing_unit_never_commits(scheme, keys, msgs, sigs, bad);
}

/// The one-shot read/commit boundary between the host and one run of the
/// program: the host supplies exactly one serialized input, the program
/// reads it exactly once and commits at most one public output.
pub struct BoundaryChannel {
    input: Vec<u8>,
    consumed: bool,
    output: Option<Vec<u8>>,
}

impl BoundaryChannel {
    /// The serialized input, while the one read has not happened yet.
    pub closed spec fn spec_pending(self) -> Option<Seq<u8>> {
        if self.consumed {
            None
        } else {
            Some(self.input@)
        }
    }

    /// The committed public output, once the one commit has happened.
    pub closed spec fn spec_committed(self) -> Option<Seq<u8>> {
        match self.output {
            Some(v) => Some(v@),
            None => None,
        }
    }

    /// Open the channel for one run, with its single input.
    pub fn open(input: Vec<u8>) -> (r: Self)
        ensures
            r.spec_pending() == Some(input@),
            r.spec_committed() is None,
    {
        BoundaryChannel { input, consumed: false, output: None }
    }

    /// The program's single input read. The first read hands the input
    /// out; any further read finds the channel drained.
    pub fn read_input(&mut self) -> (r: Option<Vec<u8>>)
        ensures
            final(self).spec_pending() is None,
            final(self).spec_committed() == old(self).spec_committed(),
            match r {
                Some(v) => old(self).spec_pending() == Some(v@),
                None => old(self).spec_pending() is None,
            },
    {
        if self.consumed {
            return None;
        }
        self.consumed = true;
        let mut taken: Vec<u8> = Vec::new();
        core::mem::swap(&mut taken, &mut self.input);
        Some(taken)
    }

    /// The program's single output commit. The first commit publishes the
    /// count as four little-endian bytes; any further commit is refused.
    pub fn commit_output(&mut self, n: u32) -> (r: bool)
        ensures
            final(self).spec_pending() == old(self).spec_pending(),
            r == (old(self).spec_committed() is None),
            final(self).spec_committed() == if old(self).spec_committed() is None {
                Some(spec_u32_le(n))
            } else {
                old(self).spec_committed()
            },
    {
        match self.output {
            Some(_) => false,
            None => {
                self.output = Some(encode_public_output(n));
                true
            },
        }
    }

    /// What the output log shows after the run, for the host to read.
    pub fn committed(&self) -> (r: &Option<Vec<u8>>)
        ensures
            match r {
                Some(v) => self.spec_committed() == Some(v@),
                None => self.spec_committed() is None,
            },
    {
        &self.output
    }
}

/// One run of the program image over the channel: read the input exactly
/// once, scan the batch, and commit the count exactly once on success; on
/// any fault nothing is committed and no output exists.
pub fn execute_program(scheme: SchemeVariant, channel: &mut BoundaryChannel) -> (r: Result<
    u32,
    ExecutionFault,
>)
    requires
        old(channel).spec_pending() is Some,
        old(channel).spec_committed() is None,
    ensures
        final(channel).spec_pending() is None,
        match r {
            Ok(n) => spec_image_result(scheme, old(channel).spec_pending()->Some_0)
                == Ok::<Seq<u8>, ExecutionFault>(spec_u32_le(n)) && final(channel).spec_committed()
                == Some(spec_u32_le(n)),
            Err(f) => spec_image_result(scheme, old(channel).spec_pending()->Some_0)
                == Err::<Seq<u8>, ExecutionFault>(f) && final(channel).spec_committed() is None,
        },
{
    let input_bytes = match channel.read_input() {
        Some(v) => v,
        None => {
            proof {
                assert(false);
            }
            return Err(ExecutionFault::Framing(FramingFault));
        },
    };
    let (keys, msgs, sigs) = match decode_batch_parts(&input_bytes) {
        Ok(t) => t,
        Err(f) => {
            return Err(ExecutionFault::Framing(f));
        },
    };
    proof {
        assert(spec_decode_rows(input_bytes@, 0) is Some);
        lemma_decode_rows_count(input_bytes@, 0);
    }
    match verify_batch(scheme, &keys, &msgs, &sigs) {
        Ok(n) => {
            let committed = channel.commit_output(n);
            proof {
                assert(committed);
            }
            Ok(n)
        },
        Err(f) => Err(ExecutionFault::Program(f)),
    }
}

} // verus!
