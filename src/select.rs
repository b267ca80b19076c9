//! Branch-free selection primitives: each one evaluates both candidates and
//! blends them under a predicate, so the work done does not depend on it.
use vstd::prelude::*;

verus! {

/// Returns `a` when `c` holds and `b` otherwise, through a bit mask.
pub fn select_u64(c: bool, a: u64, b: u64) -> (r: u64)
    ensures
        r == if c { a } else { b },
{
    let bit: u64 = c as u64;
    let mask: u64 = 0u64.wrapping_sub(bit);
    proof {
        if c {
            assert(mask == 0xffff_ffff_ffff_ffffu64);
            assert(b ^ ((a ^ b) & 0xffff_ffff_ffff_ffffu64) == a) by (bit_vector);
        } else {
            assert(mask == 0u64);
            assert(b ^ ((a ^ b) & 0u64) == b) by (bit_vector);
        }
    }
    b ^ ((a ^ b) & mask)
}

/// Returns `a` when `c` holds and `b` otherwise, through a bit mask.
pub fn select_u128(c: bool, a: u128, b: u128) -> (r: u128)
    ensures
        r == if c { a } else { b },
{
    let bit: u128 = c as u128;
    let mask: u128 = 0u128.wrapping_sub(bit);
    proof {
        if c {
            assert(mask == 0xffff_ffff_ffff_ffff_ffff_ffff_ffff_ffffu128);
            assert(b ^ ((a ^ b) & 0xffff_ffff_ffff_ffff_ffff_ffff_ffff_ffffu128) == a)
                by (bit_vector);
        } else {
            assert(mask == 0u128);
            assert(b ^ ((a ^ b) & 0u128) == b) by (bit_vector);
        }
    }
    b ^ ((a ^ b) & mask)
}

/// Returns `a` when `c` holds and `b` otherwise, by blending the flags as bits.
pub fn select_bool(c: bool, a: bool, b: bool) -> (r: bool)
    ensures
        r == if c { a } else { b },
{
    select_u64(c, a as u64, b as u64) == 1
}

/// Conjunction of two flags, evaluated without short-circuit.
pub fn both(a: bool, b: bool) -> (r: bool)
    ensures
        r == (a && b),
{
    select_bool(a, b, false)
}

/// Disjunction of two flags, evaluated without short-circuit.
pub fn either(a: bool, b: bool) -> (r: bool)
    ensures
        r == (a || b),
{
    select_bool(a, true, b)
}

} // verus!
