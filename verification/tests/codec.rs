use fib_zkvm::codec::{decode_u128, encode_u128};
use fib_zkvm::errors::PipelineError;

#[test]
fn encode_zero_is_one_byte() {
    assert_eq!(encode_u128(0), vec![0u8]);
}

#[test]
fn encode_small_value_is_itself() {
    assert_eq!(encode_u128(55), vec![55u8]);
}

#[test]
fn encode_sets_continuation_bit() {
    assert_eq!(encode_u128(128), vec![0x80, 0x01]);
    assert_eq!(encode_u128(300), vec![0xAC, 0x02]);
}

#[test]
fn decode_inverts_encode() {
    for v in [0u128, 1, 55, 127, 128, 300, 1 << 20, u64::MAX as u128, u128::MAX] {
        assert_eq!(decode_u128(&encode_u128(v)), Ok(v));
    }
}

#[test]
fn largest_value_takes_nineteen_bytes() {
    let bytes = encode_u128(u128::MAX);
    assert_eq!(bytes.len(), 19);
    assert_eq!(decode_u128(&bytes), Ok(u128::MAX));
}

#[test]
fn decode_rejects_empty_input() {
    assert_eq!(decode_u128(&vec![]), Err(PipelineError::OutputDecodeError));
}

#[test]
fn decode_rejects_missing_terminator() {
    assert_eq!(decode_u128(&vec![0x80]), Err(PipelineError::OutputDecodeError));
}

#[test]
fn decode_rejects_trailing_bytes() {
    assert_eq!(decode_u128(&vec![5, 0]), Err(PipelineError::OutputDecodeError));
}

#[test]
fn decode_rejects_redundant_zero_group() {
    assert_eq!(decode_u128(&vec![0x80, 0x00]), Err(PipelineError::OutputDecodeError));
}

#[test]
fn decode_rejects_value_past_the_word() {
    // Nineteen bytes denoting exactly 2^128, one past the largest value.
    let mut bytes = vec![0x80u8; 18];
    bytes.push(0x04);
    assert_eq!(decode_u128(&bytes), Err(PipelineError::OutputDecodeError));
}
