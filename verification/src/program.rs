use vstd::prelude::*;
use vstd::string::StrSliceExecFns;

use crate::errors::PipelineError;

verus! {

/// Multiplier of the fingerprint mixing step.
pub const FP_PRIME: u64 = 1099511628211;

/// Starting accumulator of the fingerprint fold.
pub const FP_SEED: u64 = 14695981039346656037;

/// The guest functions this library knows how to describe.
pub open spec fn known_function_name(f: Seq<char>) -> bool {
    f == "fib"@
}

/// Descriptor sizes must be positive multiples of the machine page, the
/// alignment the underlying instruction set expects of memory regions.
pub open spec fn page_aligned(x: u64) -> bool {
    x > 0 && x % 4096 == 0
}

/// All four resource sizes of a descriptor are usable.
pub open spec fn descriptor_sizes_ok(
    memory_size: u64,
    stack_size: u64,
    max_input_size: u64,
    max_output_size: u64,
) -> bool {
    page_aligned(memory_size) && page_aligned(stack_size) && page_aligned(max_input_size)
        && page_aligned(max_output_size)
}

/// Names the guest function and fixes its resource sizes.  Immutable once
/// built; the decoder turns it into bytecode and a memory image.
pub struct ProgramDescriptor {
    pub func: String,
    pub memory_size: u64,
    pub stack_size: u64,
    pub max_input_size: u64,
    pub max_output_size: u64,
}

impl ProgramDescriptor {
    /// A descriptor is well formed when its function is known and its sizes
    /// are usable.
    pub open spec fn wf(self) -> bool {
        known_function_name(self.func@) && descriptor_sizes_ok(
            self.memory_size,
            self.stack_size,
            self.max_input_size,
            self.max_output_size,
        )
    }

    /// Builds a descriptor from a function name and four caller-supplied
    /// sizes.  An unrecognized name is reported as `UnknownFunction`;
    /// unusable sizes as `ConfigurationError`.
    pub fn new(
        func: &str,
        memory_size: u64,
        stack_size: u64,
        max_input_size: u64,
        max_output_size: u64,
    ) -> (r: Result<ProgramDescriptor, PipelineError>)
        ensures
            r is Ok <==> known_function_name(func@) && descriptor_sizes_ok(
                memory_size,
                stack_size,
                max_input_size,
                max_output_size,
            ),
            r matches Ok(d) ==> d.wf() && d.func@ == func@ && d.memory_size == memory_size
                && d.stack_size == stack_size && d.max_input_size == max_input_size
                && d.max_output_size == max_output_size,
            r matches Err(e) ==> (e == PipelineError::UnknownFunction <==> !known_function_name(
                func@,
            )) && (e == PipelineError::UnknownFunction || e == PipelineError::ConfigurationError),
    {
        if !function_name_is_known(func) {
            return Err(PipelineError::UnknownFunction);
        }
        if !(size_is_page_aligned(memory_size) && size_is_page_aligned(stack_size)
            && size_is_page_aligned(max_input_size) && size_is_page_aligned(max_output_size)) {
            return Err(PipelineError::ConfigurationError);
        }
        Ok(
            ProgramDescriptor {
                func: func.to_owned(),
                memory_size,
                stack_size,
                max_input_size,
                max_output_size,
            },
        )
    }
}

/// Decides whether a function name is one this library knows.
fn function_name_is_known(func: &str) -> (b: bool)
    ensures
        b == known_function_name(func@),
{
    proof {
        reveal_strlit("fib");
    }
    if func.unicode_len() != 3 {
        return false;
    }
    let b = func.get_char(0) == 'f' && func.get_char(1) == 'i' && func.get_char(2) == 'b';
    proof {
        if b {
            assert(func@ =~= "fib"@);
        }
    }
    b
}

/// Decides page alignment of one size.
fn size_is_page_aligned(x: u64) -> (b: bool)
    ensures
        b == page_aligned(x),
{
    x > 0 && x % 4096 == 0
}

/// The decoded form of a guest program: an ordered listing of instruction
/// rows, each packed into one machine word, and the initial memory contents.
/// Produced once per descriptor by the external decoder and consumed by
/// preprocessing.
pub struct ProgramImage {
    pub bytecode: Vec<u64>,
    pub memory_init: Vec<u8>,
}

/// One mixing step of the fingerprint: multiply by a fixed odd prime and add
/// the next word, modulo the word size.
#[verifier::opaque]
pub open spec fn fp_step(acc: u64, w: u64) -> u64 {
    (((acc as nat) * (FP_PRIME as nat) + w as nat) % 0x10000000000000000) as u64
}

/// Folds the mixing step over a sequence of words.
pub open spec fn fp_fold_words(acc: u64, s: Seq<u64>) -> u64
    decreases s.len(),
{
    if s.len() == 0 {
        acc
    } else {
        fp_fold_words(fp_step(acc, s[0]), s.drop_first())
    }
}

/// Folds the mixing step over a sequence of bytes.
pub open spec fn fp_fold_bytes(acc: u64, s: Seq<u8>) -> u64
    decreases s.len(),
{
    if s.len() == 0 {
        acc
    } else {
        fp_fold_bytes(fp_step(acc, s[0] as u64), s.drop_first())
    }
}

/// The identity of a decoded program: a fold over its bytecode length and
/// rows, then its memory length and bytes.  Two artifacts derived from
/// programs with different fingerprints are never confused with one another;
/// distinct programs with colliding fingerprints are left to the
/// cryptographic verifier behind the identity check.
pub open spec fn image_fp(bytecode: Seq<u64>, memory: Seq<u8>) -> u64 {
    fp_fold_bytes(
        fp_step(fp_fold_words(fp_step(FP_SEED, bytecode.len() as u64), bytecode), memory.len() as u64),
        memory,
    )
}

/// One exec mixing step, computed in double-width arithmetic.
fn fp_mix(acc: u64, w: u64) -> (r: u64)
    ensures
        r == fp_step(acc, w),
{
    proof {
        reveal(fp_step);
        vstd::arithmetic::mul::lemma_mul_inequality(
            acc as int,
            u64::MAX as int,
            FP_PRIME as int,
        );
    }
    (((acc as u128) * (FP_PRIME as u128) + (w as u128)) % 0x10000000000000000) as u64
}

/// Computes the fingerprint of a decoded program.
#[verifier::rlimit(50)]
pub fn image_fingerprint(image: &ProgramImage) -> (r: u64)
    ensures
        r == image_fp(image.bytecode@, image.memory_init@),
{
    let ghost bc = image.bytecode@;
    let ghost mem = image.memory_init@;
    let mut acc: u64 = fp_mix(FP_SEED, image.bytecode.len() as u64);
    let ghost after_words = fp_fold_words(acc, bc);
    proof {
        assert(bc.skip(0) =~= bc);
    }
    let mut i: usize = 0;
    while i < image.bytecode.len()
        invariant
            i <= bc.len(),
            image.bytecode@ == bc,
            image.memory_init@ == mem,
            fp_fold_words(acc, bc.skip(i as int)) == after_words,
        decreases bc.len() - i,
    {
        proof {
            assert(bc.skip(i as int).drop_first() =~= bc.skip(i as int + 1));
        }
        acc = fp_mix(acc, image.bytecode[i]);
        i = i + 1;
    }
    proof {
        assert(bc.skip(bc.len() as int) =~= Seq::<u64>::empty());
    }
    acc = fp_mix(acc, image.memory_init.len() as u64);
    let ghost after_bytes = fp_fold_bytes(acc, mem);
    proof {
        assert(mem.skip(0) =~= mem);
    }
    let mut j: usize = 0;
    while j < image.memory_init.len()
        invariant
            j <= mem.len(),
            image.memory_init@ == mem,
            fp_fold_bytes(acc, mem.skip(j as int)) == after_bytes,
        decreases mem.len() - j,
    {
        proof {
            assert(mem.skip(j as int).drop_first() =~= mem.skip(j as int + 1));
        }
        acc = fp_mix(acc, image.memory_init[j] as u64);
        j = j + 1;
    }
    proof {
        assert(mem.skip(mem.len() as int) =~= Seq::<u8>::empty());
    }
    acc
}

} // verus!
