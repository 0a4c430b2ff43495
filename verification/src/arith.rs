use vstd::arithmetic::div_mod::lemma_add_mod_noop_right;
use vstd::arithmetic::div_mod::lemma_mod_add_multiples_vanish;
use vstd::arithmetic::div_mod::lemma_mod_division_less_than_divisor;
use vstd::arithmetic::div_mod::lemma_mod_sub_multiples_vanish;
use vstd::arithmetic::div_mod::lemma_small_mod;
use vstd::prelude::*;

verus! {

/// The number of distinct `i64` values, 2^64.
pub open spec fn i64_modulus() -> int {
    0x1_0000_0000_0000_0000
}

/// Two's-complement wrap-around: the unique integer congruent to `n`
/// modulo 2^64 that lies in `i64` range. This is the crate's arithmetic
/// policy for counter updates.
pub open spec fn wrap_i64(n: int) -> int {
    let r = n % i64_modulus();
    if r > i64::MAX {
        r - i64_modulus()
    } else {
        r
    }
}

/// A value already in `i64` range is unchanged by wrapping.
pub proof fn lemma_wrap_i64_identity(n: int)
    requires
        i64::MIN <= n <= i64::MAX,
    ensures
        wrap_i64(n) == n,
{
    if n >= 0 {
        lemma_small_mod(n as nat, i64_modulus() as nat);
    } else {
        lemma_mod_add_multiples_vanish(n, i64_modulus());
        lemma_small_mod((n + i64_modulus()) as nat, i64_modulus() as nat);
    }
}

/// `i64::wrapping_add` computes exactly the wrap of the exact sum.
pub proof fn lemma_wrapping_add_is_wrap(a: i64, b: i64)
    ensures
        vstd::wrapping::i64_specs::wrapping_add(a, b) == wrap_i64(a + b),
{
    if a + b > i64::MAX {
        lemma_small_mod((a + b) as nat, i64_modulus() as nat);
    } else if a + b < i64::MIN {
        lemma_mod_add_multiples_vanish(a + b, i64_modulus());
        lemma_small_mod((a + b + i64_modulus()) as nat, i64_modulus() as nat);
    } else {
        lemma_wrap_i64_identity(a + b);
    }
}

/// `i64::wrapping_sub` computes exactly the wrap of the exact difference.
pub proof fn lemma_wrapping_sub_is_wrap(a: i64, b: i64)
    ensures
        vstd::wrapping::i64_specs::wrapping_sub(a, b) == wrap_i64(a - b),
{
    if a - b > i64::MAX {
        lemma_small_mod((a - b) as nat, i64_modulus() as nat);
    } else if a - b < i64::MIN {
        lemma_mod_add_multiples_vanish(a - b, i64_modulus());
        lemma_small_mod((a - b + i64_modulus()) as nat, i64_modulus() as nat);
    } else {
        lemma_wrap_i64_identity(a - b);
    }
}

/// `i64::wrapping_mul` computes exactly the wrap of the exact product.
pub proof fn lemma_wrapping_mul_is_wrap(a: i64, b: i64)
    ensures
        vstd::wrapping::i64_specs::wrapping_mul(a, b) == wrap_i64(a * b),
{
    lemma_mod_division_less_than_divisor(a * b, i64_modulus());
}

/// Wrapping an inner summand first makes no difference: adding a wrapped
/// value and then wrapping equals wrapping the exact sum.
pub proof fn lemma_wrap_i64_compose(a: int, b: int)
    ensures
        wrap_i64(a + wrap_i64(b)) == wrap_i64(a + b),
{
    let m = i64_modulus();
    let rb = b % m;
    lemma_mod_division_less_than_divisor(b, m);
    if rb > i64::MAX {
        assert(wrap_i64(b) == rb - m);
        lemma_mod_sub_multiples_vanish(a + rb, m);
        assert((a + (rb - m)) % m == (a + rb) % m);
    }
    lemma_add_mod_noop_right(a, b, m);
    assert((a + rb) % m == (a + b) % m);
}

} // verus!
