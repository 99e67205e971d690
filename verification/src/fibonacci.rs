use vstd::prelude::*;
use vstd::arithmetic::power2::*;

verus! {

/// The mathematical Fibonacci sequence: 0, 1, 1, 2, 3, 5, 8, ...
pub open spec fn fib_nat(n: nat) -> nat
    decreases n,
{
    if n == 0 {
        0
    } else if n == 1 {
        1
    } else {
        fib_nat((n - 1) as nat) + fib_nat((n - 2) as nat)
    }
}

/// What the guest computation returns for input `n`.  Starting from a = 0,
/// b = 1 it folds `(a, b) -> (b, a + b)` n - 1 times and returns b, so the
/// result is `fib_nat(n)` for positive n, and 1 for n = 0 because the fold
/// then runs zero times and b keeps its initial value.
pub open spec fn fib_spec(n: nat) -> nat {
    if n == 0 {
        1
    } else {
        fib_nat(n)
    }
}

/// The Fibonacci sequence never decreases.
pub proof fn lemma_fib_nat_monotonic(m: nat, n: nat)
    requires
        m <= n,
    ensures
        fib_nat(m) <= fib_nat(n),
    decreases n - m,
{
    if m < n && n >= 2 {
        lemma_fib_nat_monotonic(m, (n - 1) as nat);
    }
}

/// Each positive-index Fibonacci number is at most the power of two of one
/// less than its index.
pub proof fn lemma_fib_nat_bounded_by_pow2(n: nat)
    requires
        n >= 1,
    ensures
        fib_nat(n) <= pow2((n - 1) as nat),
    decreases n,
{
    if n <= 2 {
        lemma_pow2_pos(0);
        lemma_pow2_pos(1);
        assert(fib_nat(1) == 1);
        assert(fib_nat(2) == fib_nat(1) + fib_nat(0));
    } else {
        lemma_fib_nat_bounded_by_pow2((n - 1) as nat);
        lemma_fib_nat_bounded_by_pow2((n - 2) as nat);
        lemma_pow2_strictly_increases((n - 3) as nat, (n - 2) as nat);
        lemma_pow2_unfold((n - 1) as nat);
    }
}

/// For inputs up to 128 the guest result fits in an unsigned 128-bit word,
/// so a caller may discharge `fib`'s precondition from the input alone.
pub proof fn lemma_fib_fits_u128(n: nat)
    requires
        n <= 128,
    ensures
        fib_spec(n) <= u128::MAX,
{
    if n >= 1 {
        lemma_fib_nat_bounded_by_pow2(n);
        if 2 <= n < 128 {
            lemma_pow2_strictly_increases((n - 1) as nat, 127);
        }
        lemma_pow2_adds(64, 63);
        lemma2_to64();
        lemma2_to64_rest();
        assert(pow2(127) == pow2(64) * pow2(63));
    }
}

/// The reference guest computation: fold `(a, b) -> (b, a + b)` starting from
/// (0, 1), n - 1 times, and hand back b.
pub fn fib(n: u32) -> (r: u128)
    requires
        fib_spec(n as nat) <= u128::MAX,
    ensures
        r == fib_spec(n as nat),
{
    let mut a: u128 = 0;
    let mut b: u128 = 1;
    let mut i: u32 = 1;
    while i < n
        invariant
            fib_spec(n as nat) <= u128::MAX,
            n == 0 ==> i == 1 && b == 1,
            n >= 1 ==> 1 <= i <= n && a == fib_nat((i - 1) as nat) && b == fib_nat(i as nat),
        decreases n - i,
    {
        proof {
            lemma_fib_nat_monotonic((i + 1) as nat, n as nat);
        }
        let sum: u128 = a + b;
        a = b;
        b = sum;
        i = i + 1;
    }
    b
}

} // verus!
