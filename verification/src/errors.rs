use vstd::prelude::*;

verus! {

/// Failure taxonomy of the pipeline.  Every stage reports its own failure to
/// its immediate caller; a rejected proof is a plain `false` from the
/// verifier, never an error of this type.
#[derive(Clone, Copy, Debug, PartialEq, Eq, Structural)]
pub enum PipelineError {
    /// The descriptor names a guest function this library does not know.
    UnknownFunction,
    /// Descriptor sizes or capacity bounds are unusable: zero, unaligned, or
    /// too small for the decoded program.
    ConfigurationError,
    /// The guest binary could not be decoded into bytecode and a memory image.
    ProgramDecodeError,
    /// An execution trace exceeded the trace-length bound fixed at
    /// preprocessing time.
    TraceTooLarge,
    /// The underlying proof-construction routine failed.
    ProofConstructionError,
    /// The guest's output bytes are not a well-formed encoding of the
    /// expected return type.
    OutputDecodeError,
}

} // verus!
