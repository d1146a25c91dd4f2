//! Errors reported while deframing a byte stream.

use vstd::prelude::*;

verus! {

/// The error type returned by [`Deframer::push()`].
///
/// [`Deframer::push()`]: enum.Deframer.html#method.push
#[derive(Clone, Copy, Debug, Eq, PartialEq, Structural)]
pub enum FrameError {
    /// Checksum mismatch.
    ///
    /// Note that declared or calculated checksums are *not* included
    /// with the error, because the deframer may return this error
    /// after receiving only the first declared checksum byte.
    Checksum,
}

} // verus!
