use vstd::arithmetic::div_mod::{lemma_add_mod_noop, lemma_small_mod};
use vstd::prelude::*;

verus! {

/// The modulus of 32-bit unsigned arithmetic.
pub open spec fn word_modulus() -> int {
    0x1_0000_0000
}

/// The sum of `a` and `b` reduced modulo 2^32.
pub open spec fn wrapped_sum(a: int, b: int) -> int {
    (a + b) % word_modulus()
}

/// Unsigned 32-bit addition that wraps on overflow instead of trapping.
pub fn add(a: u32, b: u32) -> (r: u32)
    ensures
        r as int == wrapped_sum(a as int, b as int),
{
    a.wrapping_add(b)
}

/// Wrapping addition does not depend on the order of its operands.
pub proof fn lemma_add_commutative(a: u32, b: u32)
    ensures
        wrapped_sum(a as int, b as int) == wrapped_sum(b as int, a as int),
{
}

/// Wrapping addition groups freely: adding `c` to the wrapped sum of `a` and
/// `b` gives the same word as adding `a` to the wrapped sum of `b` and `c`.
pub proof fn lemma_add_associative(a: u32, b: u32, c: u32)
    ensures
        wrapped_sum(wrapped_sum(a as int, b as int), c as int) == wrapped_sum(
            a as int,
            wrapped_sum(b as int, c as int),
        ),
{
    let m = word_modulus();
    lemma_add_mod_noop(a + b, c as int, m);
    lemma_add_mod_noop(a as int, b + c, m);
    lemma_small_mod(c as nat, m as nat);
    lemma_small_mod(a as nat, m as nat);
}

} // verus!
