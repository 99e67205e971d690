//! Verified core of a proof-carrying execution pipeline.
//!
//! The library covers the part of a verifiable-computation harness that can be
//! checked: the reference guest computation, the descriptor and capacity
//! configuration, the preprocessing artifact and its identity, the admission
//! of execution traces against the bounds fixed at preprocessing time, the
//! output-byte codec, and the session contract that ties proving and
//! verification to one shared artifact.  The machine emulator, the prover and
//! the cryptographic verifier are outside collaborators; a host layer drives
//! them and hands this library plain values.

pub mod codec;
pub mod errors;
pub mod fibonacci;
pub mod preprocessing;
pub mod program;
pub mod session;
