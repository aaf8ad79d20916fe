//! Fixed-capacity circular buffers and their cursor arithmetic.
//!
//! Two places in the signal chain keep a sliding history in a
//! fixed-capacity array with a wrapping write cursor: the FIR filter's
//! sample history and the limiter's lookahead delay line. The buffers are
//! sized once at construction and never grow. The cursor arithmetic and
//! the element bookkeeping are verified here; the element type is generic,
//! so the host crate instantiates it with its sample type.

use vstd::prelude::*;

verus! {

use vstd::arithmetic::div_mod::lemma_mod_multiples_vanish;
use vstd::arithmetic::div_mod::lemma_mod_self_0;
use vstd::arithmetic::div_mod::lemma_small_mod;

/// The wrapping successor of a cursor: one step forward, back to zero at
/// the end of the buffer.
pub fn next_pos(pos: usize, len: usize) -> (r: usize)
    requires
        0 < len,
        pos < len,
    ensures
        r == (pos + 1) % (len as int),
        r < len,
{
    if pos + 1 >= len {
        proof {
            lemma_mod_self_0(len as int);
        }
        0
    } else {
        proof {
            lemma_small_mod((pos + 1) as nat, len as nat);
        }
        pos + 1
    }
}

/// The wrapping predecessor of a cursor: one step backward, to the last
/// slot when standing at zero. The FIR convolution walks its history
/// newest-to-oldest with this step.
pub fn prev_pos(pos: usize, len: usize) -> (r: usize)
    requires
        0 < len,
        pos < len,
    ensures
        r == (pos + len - 1) % (len as int),
        r < len,
{
    if pos == 0 {
        proof {
            lemma_small_mod((len - 1) as nat, len as nat);
        }
        len - 1
    } else {
        proof {
            lemma_mod_multiples_vanish(1, pos - 1, len as int);
            lemma_small_mod((pos - 1) as nat, len as nat);
        }
        pos - 1
    }
}

/// A fixed-capacity circular buffer: a pre-sized array plus a wrapping
/// write cursor. Capacity is fixed at construction; no slot is ever added
/// or removed, only overwritten.
pub struct Ring<T> {
    pub slots: Vec<T>,
    pub cursor: usize,
}

impl<T: Copy> Ring<T> {
    /// The cursor always addresses a slot; in particular the buffer is
    /// never empty.
    pub open spec fn wf(self) -> bool {
        self.cursor < self.slots@.len()
    }

    /// Wraps an initial, non-empty array; the cursor starts at slot zero.
    pub fn new(slots: Vec<T>) -> (r: Ring<T>)
        requires
            slots@.len() > 0,
        ensures
            r.wf(),
            r.slots@ == slots@,
            r.cursor == 0,
    {
        Ring { slots, cursor: 0 }
    }

    /// Number of slots; constant over the buffer's lifetime.
    pub fn len(&self) -> (r: usize)
        ensures
            r == self.slots@.len(),
    {
        self.slots.len()
    }

    /// The current cursor position.
    pub fn position(&self) -> (r: usize)
        ensures
            r == self.cursor,
    {
        self.cursor
    }

    /// Reads the slot at an arbitrary index.
    pub fn get(&self, i: usize) -> (r: T)
        requires
            i < self.slots@.len(),
        ensures
            r == self.slots@[i as int],
    {
        self.slots[i]
    }

    /// Overwrites the slot under the cursor without moving the cursor.
    pub fn put(&mut self, x: T)
        requires
            old(self).wf(),
        ensures
            final(self).wf(),
            final(self).slots@ == old(self).slots@.update(old(self).cursor as int, x),
            final(self).cursor == old(self).cursor,
    {
        let i: usize = self.cursor;
        self.slots.set(i, x);
    }

    /// Moves the cursor one slot forward, wrapping at the end.
    pub fn advance(&mut self)
        requires
            old(self).wf(),
        ensures
            final(self).wf(),
            final(self).slots@ == old(self).slots@,
            final(self).cursor == (old(self).cursor + 1) % (old(self).slots@.len() as int),
    {
        let len: usize = self.slots.len();
        self.cursor = next_pos(self.cursor, len);
    }

    /// The delay-line step: returns the oldest value (the one under the
    /// cursor), replaces it with the newest, and moves the cursor on. A
    /// buffer of length `n` driven only by this operation hands every
    /// value back exactly `n` steps after it went in.
    pub fn exchange(&mut self, x: T) -> (prev: T)
        requires
            old(self).wf(),
        ensures
            final(self).wf(),
            prev == old(self).slots@[old(self).cursor as int],
            final(self).slots@ == old(self).slots@.update(old(self).cursor as int, x),
            final(self).cursor == (old(self).cursor + 1) % (old(self).slots@.len() as int),
    {
        let i: usize = self.cursor;
        let prev: T = self.slots[i];
        self.slots.set(i, x);
        let len: usize = self.slots.len();
        self.cursor = next_pos(self.cursor, len);
        prev
    }
}

} // verus!
