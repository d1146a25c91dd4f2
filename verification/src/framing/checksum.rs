//! The two-accumulator running checksum that trails every message frame.

use vstd::prelude::*;

verus! {

/// Addition of two bytes, wrapping modulo 256.
pub open spec fn add8(x: u8, y: u8) -> u8 {
    if x + y > 255 {
        (x + y - 256) as u8
    } else {
        (x + y) as u8
    }
}

/// One step of the running checksum: the first accumulator absorbs the
/// byte, the second absorbs the first.
pub open spec fn ck_step(ck: (u8, u8), byte: u8) -> (u8, u8) {
    let a = add8(ck.0, byte);
    (a, add8(ck.1, a))
}

/// The running checksum after absorbing all of `bytes`, starting from `ck`.
pub open spec fn ck_fold(ck: (u8, u8), bytes: Seq<u8>) -> (u8, u8)
    decreases bytes.len(),
{
    if bytes.len() == 0 {
        ck
    } else {
        ck_fold(ck_step(ck, bytes[0]), bytes.skip(1))
    }
}

/// The checksum pair of a byte sequence, from the initial accumulators.
pub open spec fn checksum_of(bytes: Seq<u8>) -> (u8, u8) {
    ck_fold((0u8, 0u8), bytes)
}

/// Folding a non-empty sequence takes one step and then folds the rest.
pub proof fn lemma_ck_fold_cons(ck: (u8, u8), bytes: Seq<u8>)
    requires
        bytes.len() > 0,
    ensures
        ck_fold(ck, bytes) == ck_fold(ck_step(ck, bytes[0]), bytes.skip(1)),
{
}

/// Absorbing one more byte at the end advances the fold by one step.
pub proof fn lemma_ck_fold_push(ck: (u8, u8), bytes: Seq<u8>, byte: u8)
    ensures
        ck_fold(ck, bytes.push(byte)) == ck_step(ck_fold(ck, bytes), byte),
    decreases bytes.len(),
{
    if bytes.len() == 0 {
        assert(bytes.push(byte).skip(1) =~= Seq::<u8>::empty());
        assert(bytes.push(byte)[0] == byte);
        assert(ck_fold(ck, bytes.push(byte)) == ck_fold(ck_step(ck, byte), Seq::<u8>::empty()));
        assert(ck_fold(ck, bytes) == ck);
    } else {
        assert(bytes.push(byte)[0] == bytes[0]);
        assert(bytes.push(byte).skip(1) =~= bytes.skip(1).push(byte));
        lemma_ck_fold_push(ck_step(ck, bytes[0]), bytes.skip(1), byte);
        assert(ck_fold(ck, bytes.push(byte)) == ck_fold(ck_step(ck, bytes[0]), bytes.push(byte).skip(1)));
        assert(ck_fold(ck, bytes) == ck_fold(ck_step(ck, bytes[0]), bytes.skip(1)));
    }
}

/// Folding a concatenation folds the two halves in turn.
pub proof fn lemma_ck_fold_append(ck: (u8, u8), a: Seq<u8>, b: Seq<u8>)
    ensures
        ck_fold(ck, a + b) == ck_fold(ck_fold(ck, a), b),
    decreases a.len(),
{
    if a.len() == 0 {
        assert(a + b =~= b);
    } else {
        assert((a + b)[0] == a[0]);
        assert((a + b).skip(1) =~= a.skip(1) + b);
        lemma_ck_fold_append(ck_step(ck, a[0]), a.skip(1), b);
    }
}

/// A type used for incrementally calculating u-blox protocol message
/// checksums.
///
/// The algorithm is a two-accumulator byte-wise running sum (an 8-bit
/// variant of the Fletcher family): the first accumulator adds each
/// byte modulo 256, and the second adds the first modulo 256.
#[derive(Debug, Clone, Copy)]
pub struct Checksum((u8, u8));

impl View for Checksum {
    type V = (u8, u8);

    closed spec fn view(&self) -> (u8, u8) {
        self.0
    }
}

impl Checksum {
    /// Returns a new instance with both accumulators at zero.
    pub fn new() -> (r: Self)
        ensures
            r@ == (0u8, 0u8),
    {
        Checksum((0, 0))
    }

    /// Returns self initialized with the first byte.
    ///
    /// As this initializes `self`, you must not call `push()` with
    /// this same byte again, else the calculated checksum will be
    /// incorrect.
    pub fn with(input: u8) -> (r: Self)
        ensures
            r@ == ck_step((0u8, 0u8), input),
    {
        let mut s = Self::new();
        s.push(input);
        s
    }

    /// Update the running checksum with a received byte.
    ///
    /// Importantly, it also returns the original `input` value, so a
    /// byte can be threaded through the checksum transparently.
    #[inline]
    pub fn push(&mut self, input: u8) -> (r: u8)
        ensures
            r == input,
            final(self)@ == ck_step(old(self)@, input),
    {
        self.0.0 = self.0.0.wrapping_add(input);
        self.0.1 = self.0.1.wrapping_add(self.0.0);
        input
    }

    /// Returns the running checksum, `(ck_a, ck_b)`, and resets
    /// `self` to the initial state.
    pub fn take(&mut self) -> (r: (u8, u8))
        ensures
            r == old(self)@,
            final(self)@ == (0u8, 0u8),
    {
        let r = self.0;
        self.0 = (0, 0);
        r
    }
}

impl Default for Checksum {
    /// Equivalent to [`Checksum::new`].
    fn default() -> (r: Self)
        ensures
            r@ == (0u8, 0u8),
    {
        Checksum::new()
    }
}

} // verus!
