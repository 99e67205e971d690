use vstd::prelude::*;

use crate::errors::PipelineError;
use crate::program::{image_fp, image_fingerprint, ProgramImage};

verus! {

/// The immutable artifact that preprocessing derives once per session: the
/// fingerprint of the decoded program it was derived from, and the three
/// capacity bounds that every later proof must respect.  It is the whole
/// contract surface between the one-time setup and each proving or verifying
/// call.
#[derive(Clone, Copy, Debug, PartialEq, Eq, Structural)]
pub struct PreprocessingArtifact {
    /// Identity of the bytecode and memory image the artifact was derived
    /// from.
    pub program_fp: u64,
    /// Largest admissible number of bytecode rows.
    pub max_bytecode_size: usize,
    /// Largest admissible memory address span, in bytes.
    pub max_memory_address: usize,
    /// Largest admissible length of each execution-trace sequence.
    pub max_trace_length: usize,
}

/// The caller-supplied capacity bounds can hold the decoded program: the
/// bytecode is present and fits its bound, the initial memory fits the
/// address span, and the trace bound leaves room for at least one step.
pub open spec fn capacity_ok(
    bytecode_len: nat,
    memory_len: nat,
    max_bytecode_size: usize,
    max_memory_address: usize,
    max_trace_length: usize,
) -> bool {
    0 < bytecode_len <= max_bytecode_size && memory_len <= max_memory_address && max_trace_length
        > 0
}

/// The artifact that preprocessing derives from a decoded program and three
/// capacity bounds.
pub open spec fn derived_artifact(
    bytecode: Seq<u64>,
    memory: Seq<u8>,
    max_bytecode_size: usize,
    max_memory_address: usize,
    max_trace_length: usize,
) -> PreprocessingArtifact {
    PreprocessingArtifact {
        program_fp: image_fp(bytecode, memory),
        max_bytecode_size,
        max_memory_address,
        max_trace_length,
    }
}

/// Derives the proving and verification parameters from a decoded program
/// and three caller-supplied capacity bounds.  Runs once per session; bounds
/// that cannot hold the program are a `ConfigurationError` and produce no
/// partial artifact.
pub fn preprocess(
    image: &ProgramImage,
    max_bytecode_size: usize,
    max_memory_address: usize,
    max_trace_length: usize,
) -> (r: Result<PreprocessingArtifact, PipelineError>)
    ensures
        r is Ok <==> capacity_ok(
            image.bytecode@.len(),
            image.memory_init@.len(),
            max_bytecode_size,
            max_memory_address,
            max_trace_length,
        ),
        r matches Ok(a) ==> a == derived_artifact(
            image.bytecode@,
            image.memory_init@,
            max_bytecode_size,
            max_memory_address,
            max_trace_length,
        ),
        r matches Err(e) ==> e == PipelineError::ConfigurationError,
{
    if image.bytecode.len() == 0 || image.bytecode.len() > max_bytecode_size
        || image.memory_init.len() > max_memory_address || max_trace_length == 0 {
        return Err(PipelineError::ConfigurationError);
    }
    Ok(
        PreprocessingArtifact {
            program_fp: image_fingerprint(image),
            max_bytecode_size,
            max_memory_address,
            max_trace_length,
        },
    )
}

} // verus!
