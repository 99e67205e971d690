use vstd::prelude::*;

use crate::codec::{decode_u128, lemma_varint_round_trip, varint_enc};
use crate::errors::PipelineError;
use crate::fibonacci::fib_spec;
use crate::preprocessing::{capacity_ok, derived_artifact, preprocess, PreprocessingArtifact};
use crate::program::{image_fp, ProgramImage};

verus! {

/// The lengths of the four parallel sequences one execution produces: the
/// bytecode-access trace, the per-instruction trace, the memory-operation
/// trace, and the circuit-flag trace.  Admission only reads lengths; the
/// contents go to the external prover.
#[derive(Clone, Copy, Debug, PartialEq, Eq, Structural)]
pub struct TraceShape {
    pub bytecode_trace_len: usize,
    pub instruction_trace_len: usize,
    pub memory_trace_len: usize,
    pub circuit_flag_len: usize,
}

/// The record of one execution's raw byte streams: what the guest was fed,
/// what it wrote back, and whether it reached a normal exit.
pub struct IoRecord {
    pub inputs: Vec<u8>,
    pub outputs: Vec<u8>,
    pub normal_exit: bool,
}

/// A packaged proof: the opaque blob and commitments the external prover
/// emitted, stamped with the artifact they were proved against.  The stamp
/// is what lets a verifier reject a proof from a foreign session outright
/// instead of relying on an accidental failure deeper down.
#[derive(Debug)]
pub struct Proof {
    pub blob: Vec<u8>,
    pub commitments: Vec<Vec<u8>>,
    pub artifact: PreprocessingArtifact,
}

/// Every sequence of the trace fits the trace-length bound fixed at
/// preprocessing time.
pub open spec fn trace_within_bounds(t: TraceShape, a: PreprocessingArtifact) -> bool {
    t.bytecode_trace_len <= a.max_trace_length && t.instruction_trace_len <= a.max_trace_length
        && t.memory_trace_len <= a.max_trace_length && t.circuit_flag_len <= a.max_trace_length
}

/// The identity check of verification: a proof is considered at all only when
/// it is stamped with an artifact structurally equal to the session's own.
pub open spec fn identity_accepts(s: Session, p: Proof) -> bool {
    p.artifact == s.artifact
}

/// One proving/verifying session.  It owns the preprocessing artifact, built
/// exactly once; the proving side and the verifying side both read this one
/// value, so the artifact either side works against is byte-identical by
/// construction, never a diverged copy.
#[derive(Clone, Copy, Debug, PartialEq, Eq, Structural)]
pub struct Session {
    pub artifact: PreprocessingArtifact,
}

impl Session {
    /// Runs preprocessing once over the decoded program and wires the
    /// resulting artifact into a session shared by proving and verifying.
    pub fn build(
        image: &ProgramImage,
        max_bytecode_size: usize,
        max_memory_address: usize,
        max_trace_length: usize,
    ) -> (r: Result<Session, PipelineError>)
        ensures
            r is Ok <==> capacity_ok(
                image.bytecode@.len(),
                image.memory_init@.len(),
                max_bytecode_size,
                max_memory_address,
                max_trace_length,
            ),
            r matches Ok(s) ==> s.artifact == derived_artifact(
                image.bytecode@,
                image.memory_init@,
                max_bytecode_size,
                max_memory_address,
                max_trace_length,
            ),
            r matches Err(e) ==> e == PipelineError::ConfigurationError,
    {
        match preprocess(image, max_bytecode_size, max_memory_address, max_trace_length) {
            Ok(artifact) => Ok(Session { artifact }),
            Err(e) => Err(e),
        }
    }

    /// Admits an execution trace for proving, or reports `TraceTooLarge`.
    /// Succeeds exactly when every one of the four sequences fits the
    /// trace-length bound the artifact fixed; an oversized trace is an
    /// explicit error, never a truncation.
    pub fn admit_trace(&self, shape: &TraceShape) -> (r: Result<(), PipelineError>)
        ensures
            r is Ok <==> trace_within_bounds(*shape, self.artifact),
            r matches Err(e) ==> e == PipelineError::TraceTooLarge,
    {
        let max = self.artifact.max_trace_length;
        if shape.bytecode_trace_len <= max && shape.instruction_trace_len <= max
            && shape.memory_trace_len <= max && shape.circuit_flag_len <= max {
            Ok(())
        } else {
            Err(PipelineError::TraceTooLarge)
        }
    }

    /// Turns the external prover's blob and commitments, together with the
    /// execution's IO record, into the typed return value and a stamped
    /// proof.  The value is decoded from the raw output bytes; bytes that
    /// are not a canonical encoding are a typed `OutputDecodeError` for this
    /// call alone, never a fallback value and never a poisoned session.
    pub fn package_proof(&self, io: &IoRecord, blob: Vec<u8>, commitments: Vec<Vec<u8>>) -> (r:
        Result<(u128, Proof), PipelineError>)
        ensures
            match r {
                Ok(packaged) => io.outputs@ == varint_enc(packaged.0 as nat) && packaged.1.blob
                    == blob && packaged.1.commitments == commitments && identity_accepts(
                    *self,
                    packaged.1,
                ),
                Err(e) => e == PipelineError::OutputDecodeError && forall|v: u128|
                    io.outputs@ != varint_enc(v as nat),
            },
    {
        match decode_u128(&io.outputs) {
            Ok(value) => Ok(
                (value, Proof { blob, commitments, artifact: self.artifact }),
            ),
            Err(e) => Err(e),
        }
    }

    /// The verifying side's identity check: decides whether the proof was
    /// stamped with this session's own artifact.  A mismatch means the proof
    /// belongs to a different program or different bounds and the caller
    /// must answer `false` without consulting the cryptographic verifier,
    /// exactly as it answers for a forged proof.
    pub fn verify_identity(&self, candidate: &Proof) -> (b: bool)
        ensures
            b == identity_accepts(*self, *candidate),
    {
        candidate.artifact == self.artifact
    }
}

/// Round-trip at the artifact-sharing boundary: two sessions holding
/// byte-identical artifacts accept each other's packaged proofs at the
/// identity check — in particular, a session always accepts a proof it
/// packaged itself.
pub proof fn lemma_shared_artifact_round_trip(producer: Session, checker: Session, p: Proof)
    requires
        producer.artifact == checker.artifact,
        identity_accepts(producer, p),
    ensures
        identity_accepts(checker, p),
{
}

/// Cross-session rejection: a proof packaged in a session whose artifact
/// differs structurally — other program fingerprint or other bounds — never
/// passes the identity check of this one.
pub proof fn lemma_cross_session_rejected(producer: Session, checker: Session, p: Proof)
    requires
        producer.artifact != checker.artifact,
        identity_accepts(producer, p),
    ensures
        !identity_accepts(checker, p),
{
}

/// Cross-session rejection, stated from the programs themselves: sessions
/// preprocessed from decoded programs with distinct fingerprints reject each
/// other's proofs at the identity check, whatever their capacity bounds.
pub proof fn lemma_distinct_program_rejected(
    bytecode_a: Seq<u64>,
    memory_a: Seq<u8>,
    bytecode_b: Seq<u64>,
    memory_b: Seq<u8>,
    producer: Session,
    checker: Session,
    p: Proof,
)
    requires
        image_fp(bytecode_a, memory_a) != image_fp(bytecode_b, memory_b),
        producer.artifact.program_fp == image_fp(bytecode_a, memory_a),
        checker.artifact.program_fp == image_fp(bytecode_b, memory_b),
        identity_accepts(producer, p),
    ensures
        !identity_accepts(checker, p),
{
}

/// Cross-check with the reference computation: if the guest's output bytes
/// are the encoding of the reference value `fib_spec(n)`, then the only
/// value that `package_proof` can hand back for them is `fib_spec(n)`
/// itself, because the encoding is canonical.
pub proof fn lemma_packaged_value_matches_reference(n: nat, value: u128, outputs: Seq<u8>)
    requires
        outputs == varint_enc(fib_spec(n)),
        outputs == varint_enc(value as nat),
    ensures
        value == fib_spec(n),
{
    lemma_varint_round_trip(fib_spec(n));
    lemma_varint_round_trip(value as nat);
}

/// Bound enforcement: a trace with any sequence longer than the artifact's
/// trace bound is never admitted for proving.
pub proof fn lemma_oversized_trace_rejected(s: Session, t: TraceShape)
    requires
        t.bytecode_trace_len > s.artifact.max_trace_length || t.instruction_trace_len
            > s.artifact.max_trace_length || t.memory_trace_len > s.artifact.max_trace_length
            || t.circuit_flag_len > s.artifact.max_trace_length,
    ensures
        !trace_within_bounds(t, s.artifact),
{
}

} // verus!
