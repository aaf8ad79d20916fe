//! Deterministic 32-bit xorshift pseudo-random generator.
//!
//! The bandwidth-extension stage injects shaped broadband noise; its noise
//! source is this generator, one instance per audio channel with distinct
//! seeds so the stereo noise streams are uncorrelated. The integer state
//! transition is verified exactly; mapping a drawn word onto a unit-range
//! sample is floating-point work and stays with the caller.

use vstd::prelude::*;

verus! {

/// One xorshift step: three shift-and-xor rounds over a 32-bit word.
pub open spec fn xorshift_step(x: u32) -> u32 {
    let a = x ^ (x << 13);
    let b = a ^ (a >> 17);
    b ^ (b << 5)
}

/// 32-bit xorshift generator state. A zero state would be a fixed point of
/// the step function, so construction never admits it.
pub struct Xorshift32 {
    pub state: u32,
}

impl Xorshift32 {
    /// Seeds the generator; a zero seed is replaced by one so the state
    /// never sits on the generator's fixed point.
    pub fn new(seed: u32) -> (r: Xorshift32)
        ensures
            r.state == if seed == 0 { 1u32 } else { seed },
    {
        if seed == 0 {
            Xorshift32 { state: 1 }
        } else {
            Xorshift32 { state: seed }
        }
    }

    /// Draws the next word: the result is exactly one xorshift step from
    /// the previous state, and becomes the new state.
    pub fn next_u32(&mut self) -> (r: u32)
        ensures
            r == xorshift_step(old(self).state),
            final(self).state == r,
    {
        let mut x: u32 = self.state;
        x = x ^ (x << 13);
        x = x ^ (x >> 17);
        x = x ^ (x << 5);
        self.state = x;
        x
    }
}

} // verus!
