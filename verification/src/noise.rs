//! The xorshift32 generator behind random oscillator start phases and the
//! LFO's sample-and-hold levels.
//!
//! One step is three shift-and-xor operations on the 32-bit state
//! (`<< 13`, `>> 17`, `<< 5`); the caller scales the new state to a
//! level. Each operation is invertible, so a nonzero state never becomes
//! zero, which would stick the generator for good.

use vstd::prelude::*;

verus! {

/// One xorshift32 step.
pub open spec fn xorshift32_step(x: u32) -> u32 {
    let a = x ^ (x << 13u32);
    let b = a ^ (a >> 17u32);
    b ^ (b << 5u32)
}

/// Advance the generator state by one step and return the new state.
pub fn xorshift32(x: u32) -> (y: u32)
    ensures
        y == xorshift32_step(x),
        y == ({
            let a = x ^ (x << 13u32);
            let b = a ^ (a >> 17u32);
            b ^ (b << 5u32)
        }),
{
    let mut x = x;
    x ^= x << 13u32;
    x ^= x >> 17u32;
    x ^= x << 5u32;
    x
}

/// A nonzero state stays nonzero, so the generator never sticks; the zero
/// state is fixed.
pub proof fn lemma_xorshift32_nonzero(x: u32)
    ensures
        x != 0 ==> xorshift32_step(x) != 0,
        x == 0 ==> xorshift32_step(x) == 0,
{
    let a = x ^ (x << 13u32);
    let b = a ^ (a >> 17u32);
    assert(x != 0 ==> a != 0) by (bit_vector)
        requires
            a == x ^ (x << 13u32),
    ;
    assert(a != 0 ==> b != 0) by (bit_vector)
        requires
            b == a ^ (a >> 17u32),
    ;
    assert(b != 0 ==> b ^ (b << 5u32) != 0) by (bit_vector);
    assert(x == 0 ==> xorshift32_step(x) == 0) by (bit_vector);
}

} // verus!
