use vstd::prelude::*;
use vstd::arithmetic::div_mod::*;
use vstd::arithmetic::mul::*;

use crate::errors::PipelineError;

verus! {

/// Canonical variable-length encoding of an unsigned value: base-128 groups,
/// least significant first; every byte but the last carries a continuation
/// bit.  This is the stable binary format in which the guest's raw output
/// bytes carry its return value across the prove/verify boundary.
pub open spec fn varint_enc(v: nat) -> Seq<u8>
    decreases v,
{
    if v < 128 {
        seq![v as u8]
    } else {
        seq![(128 + v % 128) as u8] + varint_enc(v / 128)
    }
}

/// The value that a byte string denotes under the canonical encoding, or
/// `None` when it is not such an encoding: empty, cut short, carrying bytes
/// past the terminator, or padded with a redundant zero group.
pub open spec fn varint_dec(b: Seq<u8>) -> Option<nat>
    decreases b.len(),
{
    if b.len() == 0 {
        None
    } else if b[0] < 128 {
        if b.len() == 1 {
            Some(b[0] as nat)
        } else {
            None
        }
    } else {
        match varint_dec(b.drop_first()) {
            Some(hi) => if hi > 0 {
                Some(((b[0] - 128) + 128 * hi) as nat)
            } else {
                None
            },
            None => None,
        }
    }
}

/// Decoding inverts encoding: every value round-trips through its canonical
/// byte string.
pub proof fn lemma_varint_round_trip(v: nat)
    ensures
        varint_dec(varint_enc(v)) == Some(v),
    decreases v,
{
    if v < 128 {
        assert(varint_enc(v) =~= seq![v as u8]);
    } else {
        lemma_div_decreases(v as int, 128);
        lemma_div_non_zero(v as int, 128);
        lemma_varint_round_trip(v / 128);
        let b = varint_enc(v);
        assert(b.drop_first() =~= varint_enc(v / 128));
        lemma_fundamental_div_mod(v as int, 128);
    }
}

/// The encoding is canonical: a byte string that decodes at all is exactly
/// the encoding of the value it decodes to.
pub proof fn lemma_varint_canonical(b: Seq<u8>, v: nat)
    requires
        varint_dec(b) == Some(v),
    ensures
        b == varint_enc(v),
    decreases b.len(),
{
    if b[0] < 128 {
        assert(b =~= varint_enc(v));
    } else {
        let hi = varint_dec(b.drop_first())->Some_0;
        let c = (b[0] - 128) as nat;
        lemma_varint_canonical(b.drop_first(), hi);
        lemma_fundamental_div_mod_converse(v as int, 128, hi as int, c as int);
        assert(b =~= seq![(128 + v % 128) as u8] + varint_enc(v / 128));
    }
}

/// Emits the canonical byte string of `v`.
pub fn encode_u128(v: u128) -> (r: Vec<u8>)
    ensures
        r@ == varint_enc(v as nat),
{
    let mut out: Vec<u8> = Vec::new();
    let mut cur: u128 = v;
    while cur >= 128
        invariant
            varint_enc(v as nat) == out@ + varint_enc(cur as nat),
        decreases cur,
    {
        let byte: u8 = (cur % 128) as u8 + 128;
        let next: u128 = cur / 128;
        proof {
            assert(varint_enc(cur as nat) == seq![byte] + varint_enc(next as nat));
            assert(out@ + varint_enc(cur as nat) =~= out@.push(byte) + varint_enc(next as nat));
        }
        out.push(byte);
        cur = next;
    }
    proof {
        assert(varint_enc(cur as nat) =~= seq![cur as u8]);
        assert(out@ + varint_enc(cur as nat) =~= out@.push(cur as u8));
    }
    out.push(cur as u8);
    out
}

/// Decodes the byte suffix starting at `i` as a canonical varint that fits in
/// an unsigned 128-bit word.
fn decode_tail(bytes: &Vec<u8>, i: usize) -> (r: Result<u128, PipelineError>)
    requires
        i <= bytes.len(),
    ensures
        match r {
            Ok(v) => varint_dec(bytes@.skip(i as int)) == Some(v as nat),
            Err(e) => e == PipelineError::OutputDecodeError && match varint_dec(
                bytes@.skip(i as int),
            ) {
                Some(w) => w > u128::MAX,
                None => true,
            },
        },
    decreases bytes.len() - i,
{
    let ghost s = bytes@.skip(i as int);
    if i == bytes.len() {
        return Err(PipelineError::OutputDecodeError);
    }
    let b0 = bytes[i];
    if b0 < 128 {
        if i + 1 == bytes.len() {
            proof {
                assert(s =~= seq![b0]);
            }
            Ok(b0 as u128)
        } else {
            Err(PipelineError::OutputDecodeError)
        }
    } else {
        proof {
            assert(s.drop_first() =~= bytes@.skip(i + 1));
        }
        let c: u128 = (b0 - 128) as u128;
        match decode_tail(bytes, i + 1) {
            Ok(hi) => {
                if hi == 0 {
                    Err(PipelineError::OutputDecodeError)
                } else if hi > (u128::MAX - c) / 128 {
                    proof {
                        let cap = (u128::MAX - c) as int;
                        lemma_fundamental_div_mod(cap, 128);
                        lemma_mul_inequality(cap / 128 + 1, hi as int, 128);
                        assert(c + 128 * (hi as int) > u128::MAX);
                    }
                    Err(PipelineError::OutputDecodeError)
                } else {
                    proof {
                        let cap = (u128::MAX - c) as int;
                        lemma_fundamental_div_mod(cap, 128);
                        lemma_mul_inequality(hi as int, cap / 128, 128);
                        assert(c + 128 * (hi as int) <= u128::MAX);
                    }
                    Ok(c + 128 * hi)
                }
            },
            Err(e) => Err(e),
        }
    }
}

/// Decodes a guest's raw output bytes into the 128-bit return value.
/// Succeeds exactly on the canonical encoding of a value that fits; on every
/// other byte string it reports `OutputDecodeError` rather than inventing a
/// value.
pub fn decode_u128(bytes: &Vec<u8>) -> (r: Result<u128, PipelineError>)
    ensures
        match r {
            Ok(v) => bytes@ == varint_enc(v as nat),
            Err(e) => e == PipelineError::OutputDecodeError && forall|v: u128|
                bytes@ != varint_enc(v as nat),
        },
{
    proof {
        assert(bytes@.skip(0) =~= bytes@);
    }
    let r = decode_tail(bytes, 0);
    proof {
        match r {
            Ok(v) => {
                lemma_varint_canonical(bytes@, v as nat);
            },
            Err(_) => {
                assert forall|v: u128| bytes@ != varint_enc(v as nat) by {
                    if bytes@ == varint_enc(v as nat) {
                        lemma_varint_round_trip(v as nat);
                    }
                }
            },
        }
    }
    r
}

} // verus!
