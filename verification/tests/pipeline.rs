use fib_zkvm::codec::encode_u128;
use fib_zkvm::errors::PipelineError;
use fib_zkvm::fibonacci::fib;
use fib_zkvm::preprocessing::preprocess;
use fib_zkvm::program::{image_fingerprint, ProgramDescriptor, ProgramImage};
use fib_zkvm::session::{IoRecord, Session, TraceShape};

fn toy_image() -> ProgramImage {
    ProgramImage {
        bytecode: vec![0x13, 0x93, 0x33, 0x67],
        memory_init: vec![0, 0, 1, 0],
    }
}

fn other_image() -> ProgramImage {
    ProgramImage {
        bytecode: vec![0x13, 0x93, 0x33, 0x6F],
        memory_init: vec![0, 0, 1, 0],
    }
}

fn small_shape() -> TraceShape {
    TraceShape {
        bytecode_trace_len: 9,
        instruction_trace_len: 9,
        memory_trace_len: 63,
        circuit_flag_len: 9,
    }
}

fn io_with_outputs(outputs: Vec<u8>) -> IoRecord {
    IoRecord { inputs: vec![5], outputs, normal_exit: true }
}

#[test]
fn descriptor_accepts_reference_configuration() {
    let d = ProgramDescriptor::new("fib", 10485760, 4096, 4096, 4096).unwrap();
    assert_eq!(d.func, "fib");
    assert_eq!(d.memory_size, 10485760);
    assert_eq!(d.stack_size, 4096);
    assert_eq!(d.max_input_size, 4096);
    assert_eq!(d.max_output_size, 4096);
}

#[test]
fn descriptor_rejects_unknown_function() {
    let r = ProgramDescriptor::new("sha3", 10485760, 4096, 4096, 4096);
    assert_eq!(r.err(), Some(PipelineError::UnknownFunction));
}

#[test]
fn descriptor_rejects_unaligned_size() {
    let r = ProgramDescriptor::new("fib", 10485760, 1000, 4096, 4096);
    assert_eq!(r.err(), Some(PipelineError::ConfigurationError));
}

#[test]
fn descriptor_rejects_zero_size() {
    let r = ProgramDescriptor::new("fib", 0, 4096, 4096, 4096);
    assert_eq!(r.err(), Some(PipelineError::ConfigurationError));
}

#[test]
fn preprocess_embeds_bounds_and_identity() {
    let image = toy_image();
    let artifact = preprocess(&image, 1 << 20, 1 << 20, 1 << 24).unwrap();
    assert_eq!(artifact.program_fp, image_fingerprint(&image));
    assert_eq!(artifact.max_bytecode_size, 1 << 20);
    assert_eq!(artifact.max_memory_address, 1 << 20);
    assert_eq!(artifact.max_trace_length, 1 << 24);
}

#[test]
fn preprocess_rejects_oversized_bytecode() {
    let image = toy_image();
    let r = preprocess(&image, 2, 1 << 20, 1 << 24);
    assert_eq!(r.err(), Some(PipelineError::ConfigurationError));
}

#[test]
fn preprocess_rejects_empty_bytecode() {
    let image = ProgramImage { bytecode: vec![], memory_init: vec![] };
    let r = preprocess(&image, 1 << 20, 1 << 20, 1 << 24);
    assert_eq!(r.err(), Some(PipelineError::ConfigurationError));
}

#[test]
fn fingerprints_of_distinct_programs_differ() {
    assert_ne!(image_fingerprint(&toy_image()), image_fingerprint(&other_image()));
}

#[test]
fn same_session_proof_passes_the_identity_check() {
    let session = Session::build(&toy_image(), 1 << 20, 1 << 20, 1 << 24).unwrap();
    session.admit_trace(&small_shape()).unwrap();
    let io = io_with_outputs(encode_u128(fib(5)));
    let (value, proof) = session
        .package_proof(&io, vec![0xAA, 0xBB], vec![vec![1, 2], vec![3]])
        .unwrap();
    assert_eq!(value, 5);
    assert!(session.verify_identity(&proof));
}

#[test]
fn packaged_value_matches_reference_computation() {
    let session = Session::build(&toy_image(), 1 << 20, 1 << 20, 1 << 24).unwrap();
    for n in [1u32, 5, 10, 90] {
        let io = io_with_outputs(encode_u128(fib(n)));
        let (value, _) = session.package_proof(&io, vec![], vec![]).unwrap();
        assert_eq!(value, fib(n));
    }
}

#[test]
fn oversized_trace_is_a_typed_error() {
    let session = Session::build(&toy_image(), 1 << 20, 1 << 20, 16).unwrap();
    let shape = TraceShape {
        bytecode_trace_len: 9,
        instruction_trace_len: 17,
        memory_trace_len: 9,
        circuit_flag_len: 9,
    };
    assert_eq!(session.admit_trace(&shape).err(), Some(PipelineError::TraceTooLarge));
}

#[test]
fn trace_at_the_bound_is_admitted() {
    let session = Session::build(&toy_image(), 1 << 20, 1 << 20, 16).unwrap();
    let shape = TraceShape {
        bytecode_trace_len: 16,
        instruction_trace_len: 16,
        memory_trace_len: 16,
        circuit_flag_len: 16,
    };
    assert!(session.admit_trace(&shape).is_ok());
}

#[test]
fn cross_session_proof_is_rejected() {
    let session_a = Session::build(&toy_image(), 1 << 20, 1 << 20, 1 << 24).unwrap();
    let session_b = Session::build(&other_image(), 1 << 20, 1 << 20, 1 << 24).unwrap();
    let io = io_with_outputs(encode_u128(fib(5)));
    let (_, proof) = session_a.package_proof(&io, vec![7], vec![]).unwrap();
    assert!(session_a.verify_identity(&proof));
    assert!(!session_b.verify_identity(&proof));
}

#[test]
fn session_with_other_bounds_rejects_the_proof() {
    let image = toy_image();
    let session_a = Session::build(&image, 1 << 20, 1 << 20, 1 << 24).unwrap();
    let session_b = Session::build(&image, 1 << 20, 1 << 20, 1 << 16).unwrap();
    let io = io_with_outputs(encode_u128(fib(5)));
    let (_, proof) = session_a.package_proof(&io, vec![7], vec![]).unwrap();
    assert!(!session_b.verify_identity(&proof));
}

#[test]
fn tampered_artifact_stamp_is_rejected() {
    let session = Session::build(&toy_image(), 1 << 20, 1 << 20, 1 << 24).unwrap();
    let io = io_with_outputs(encode_u128(fib(5)));
    let (_, mut proof) = session.package_proof(&io, vec![7], vec![]).unwrap();
    proof.artifact.program_fp ^= 1;
    assert!(!session.verify_identity(&proof));
}

#[test]
fn malformed_output_bytes_are_a_typed_error() {
    let session = Session::build(&toy_image(), 1 << 20, 1 << 20, 1 << 24).unwrap();
    let io = io_with_outputs(vec![0x80]);
    let r = session.package_proof(&io, vec![], vec![]);
    assert_eq!(r.err(), Some(PipelineError::OutputDecodeError));
    // The failure poisons nothing: the same session keeps proving.
    let io = io_with_outputs(encode_u128(fib(5)));
    let (value, proof) = session.package_proof(&io, vec![], vec![]).unwrap();
    assert_eq!(value, 5);
    assert!(session.verify_identity(&proof));
}
