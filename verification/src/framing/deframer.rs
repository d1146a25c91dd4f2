//! The incremental deframing state machine, one byte at a time.

use crate::framing::checksum::{ck_step, Checksum};
use crate::framing::error::FrameError;
use crate::framing::frame::Frame;
use crate::framing::FrameVec;
use vstd::prelude::*;

verus! {

/// The 16-bit sync word, as accumulated in the scanning shift register.
pub const SYNCWORD: u16 = 0xB562;

/// Largest declared payload length that will be buffered. A declared
/// length beyond this ceiling abandons the message silently and
/// resumes scanning for the sync word.
pub const MAX_LEN: usize = 999;

/// The mathematical state of a [`Deframer`]: one variant per state of
/// the machine, each holding only the data accumulated so far.
#[verifier::ext_equal]
pub enum DeframerModel {
    /// Scanning: the last two bytes seen, as a 16-bit shift register.
    Sync { accum: u16 },
    /// The next byte is the message class.
    Class,
    /// The next byte is the message id; `ck` covers the class byte.
    Id { class: u8, ck: (u8, u8) },
    /// The next byte is the low byte of the declared length.
    LengthLsb { class: u8, id: u8, ck: (u8, u8) },
    /// The next byte is the high byte of the declared length.
    LengthMsb { class: u8, id: u8, len_b0: u8, ck: (u8, u8) },
    /// Collecting `len` payload bytes; `message` holds those received.
    Message { class: u8, id: u8, len: usize, message: Seq<u8>, ck: (u8, u8) },
    /// The next byte must equal the first finalized checksum byte.
    CkA { class: u8, id: u8, message: Seq<u8>, ck: (u8, u8) },
    /// The next byte must equal the second finalized checksum byte.
    CkB { class: u8, id: u8, message: Seq<u8>, ck: (u8, u8) },
}

/// What one pushed byte produces: nothing yet, a checksum failure, or
/// a completed frame. Exactly one of these per byte.
#[verifier::ext_equal]
pub enum PushOut {
    /// The byte was absorbed; no terminal outcome.
    Pending,
    /// A trailing checksum byte did not match the computed value.
    BadChecksum,
    /// A structurally valid, checksum-validated frame.
    Complete { class: u8, id: u8, message: Seq<u8> },
}

impl DeframerModel {
    /// The scanning state a fresh or reset deframer starts in.
    pub open spec fn init() -> DeframerModel {
        DeframerModel::Sync { accum: 0 }
    }

    /// The transition taken on one input byte: the successor state and
    /// the outcome reported for that byte.
    pub open spec fn step(self, input: u8) -> (DeframerModel, PushOut) {
        match self {
            DeframerModel::Sync { accum } => {
                let acc2 = (accum << 8) | (input as u16);
                if acc2 == SYNCWORD {
                    (DeframerModel::Class, PushOut::Pending)
                } else {
                    (DeframerModel::Sync { accum: acc2 }, PushOut::Pending)
                }
            },
            DeframerModel::Class => (
                DeframerModel::Id { class: input, ck: ck_step((0u8, 0u8), input) },
                PushOut::Pending,
            ),
            DeframerModel::Id { class, ck } => (
                DeframerModel::LengthLsb { class, id: input, ck: ck_step(ck, input) },
                PushOut::Pending,
            ),
            DeframerModel::LengthLsb { class, id, ck } => (
                DeframerModel::LengthMsb { class, id, len_b0: input, ck: ck_step(ck, input) },
                PushOut::Pending,
            ),
            DeframerModel::LengthMsb { class, id, len_b0, ck } => {
                let ck2 = ck_step(ck, input);
                let len = (input as int) * 256 + len_b0;
                if len > MAX_LEN {
                    (DeframerModel::init(), PushOut::Pending)
                } else if len == 0 {
                    (
                        DeframerModel::CkA { class, id, message: Seq::empty(), ck: ck2 },
                        PushOut::Pending,
                    )
                } else {
                    (
                        DeframerModel::Message {
                            class,
                            id,
                            len: len as usize,
                            message: Seq::empty(),
                            ck: ck2,
                        },
                        PushOut::Pending,
                    )
                }
            },
            DeframerModel::Message { class, id, len, message, ck } => {
                let ck2 = ck_step(ck, input);
                let m2 = message.push(input);
                if m2.len() == len {
                    (DeframerModel::CkA { class, id, message: m2, ck: ck2 }, PushOut::Pending)
                } else {
                    (
                        DeframerModel::Message { class, id, len, message: m2, ck: ck2 },
                        PushOut::Pending,
                    )
                }
            },
            DeframerModel::CkA { class, id, message, ck } => {
                if input == ck.0 {
                    (DeframerModel::CkB { class, id, message, ck }, PushOut::Pending)
                } else {
                    (DeframerModel::init(), PushOut::BadChecksum)
                }
            },
            DeframerModel::CkB { class, id, message, ck } => {
                if input == ck.1 {
                    (DeframerModel::init(), PushOut::Complete { class, id, message })
                } else {
                    (DeframerModel::init(), PushOut::BadChecksum)
                }
            },
        }
    }
}

/// Relates the value [`Deframer::push`] returns to the outcome the
/// model assigns to the same byte.
pub open spec fn out_matches(r: Result<Option<Frame>, FrameError>, out: PushOut) -> bool {
    match out {
        PushOut::Pending => r == Ok::<Option<Frame>, FrameError>(None),
        PushOut::BadChecksum => r == Err::<Option<Frame>, FrameError>(FrameError::Checksum),
        PushOut::Complete { class, id, message } => match r {
            Ok(Some(f)) => f.class == class && f.id == id && f.message@ == message,
            _ => false,
        },
    }
}

/// A type for 'deframing' u-blox message frames.
#[derive(Debug)]
pub enum Deframer {
    /// Shift in every byte until the accumulated value equals the
    /// sync word.
    Sync { accum: u16 },

    /// No data, as the byte received during this state is passed to
    /// the next state.
    Class,

    /// Byte received during this state is passed to the next state.
    Id { class: u8, cksum: Checksum },

    /// Length LSB received during this state is passed to the next
    /// state.
    LengthLsb { class: u8, id: u8, cksum: Checksum },

    /// Collect the length's MSB.
    LengthMsb { class: u8, id: u8, len_b0: u8, cksum: Checksum },

    /// Push received bytes into `message` until `message.len() == len`.
    Message { class: u8, id: u8, len: usize, message: FrameVec, cksum: Checksum },

    /// Go to the initial state if the received byte doesn't match the
    /// first byte of the running checksum.
    CkA { class: u8, id: u8, message: FrameVec, cksum_calc: (u8, u8) },

    /// Go to the initial state if the received byte doesn't match the
    /// second byte of the running checksum.
    CkB { class: u8, id: u8, message: FrameVec, cksum_calc: (u8, u8) },
}

impl View for Deframer {
    type V = DeframerModel;

    open spec fn view(&self) -> DeframerModel {
        match self {
            Deframer::Sync { accum } => DeframerModel::Sync { accum: *accum },
            Deframer::Class => DeframerModel::Class,
            Deframer::Id { class, cksum } => DeframerModel::Id { class: *class, ck: cksum@ },
            Deframer::LengthLsb { class, id, cksum } => DeframerModel::LengthLsb {
                class: *class,
                id: *id,
                ck: cksum@,
            },
            Deframer::LengthMsb { class, id, len_b0, cksum } => DeframerModel::LengthMsb {
                class: *class,
                id: *id,
                len_b0: *len_b0,
                ck: cksum@,
            },
            Deframer::Message { class, id, len, message, cksum } => DeframerModel::Message {
                class: *class,
                id: *id,
                len: *len,
                message: message@,
                ck: cksum@,
            },
            Deframer::CkA { class, id, message, cksum_calc } => DeframerModel::CkA {
                class: *class,
                id: *id,
                message: message@,
                ck: *cksum_calc,
            },
            Deframer::CkB { class, id, message, cksum_calc } => DeframerModel::CkB {
                class: *class,
                id: *id,
                message: message@,
                ck: *cksum_calc,
            },
        }
    }
}

impl Deframer {
    /// Incrementally parses a u-blox message frame with the given
    /// `input`, returning an error or an optional [`Frame`].
    ///
    /// Exactly one of no output, a checksum error, or a completed
    /// frame is produced per pushed byte, as [`DeframerModel::step`]
    /// prescribes. After any terminal outcome the machine is back in
    /// the initial scanning state.
    ///
    /// # Errors
    ///
    /// Upon a checksum mismatch on the current `input` byte, this
    /// function returns [`FrameError::Checksum`].
    #[inline]
    pub fn push(&mut self, input: u8) -> (r: Result<Option<Frame>, FrameError>)
        ensures
            final(self)@ == old(self)@.step(input).0,
            out_matches(r, old(self)@.step(input).1),
    {
        let mut cur = Deframer::Sync { accum: 0 };
        core::mem::swap(self, &mut cur);
        match cur {
            Deframer::Sync { accum } => {
                let acc2 = (accum << 8) | (input as u16);
                if acc2 == SYNCWORD {
                    *self = Deframer::Class;
                } else {
                    *self = Deframer::Sync { accum: acc2 };
                }
                Ok(None)
            },
            Deframer::Class => {
                *self = Deframer::Id { cksum: Checksum::with(input), class: input };
                Ok(None)
            },
            Deframer::Id { class, mut cksum } => {
                let id = cksum.push(input);
                *self = Deframer::LengthLsb { class, id, cksum };
                Ok(None)
            },
            Deframer::LengthLsb { class, id, mut cksum } => {
                let len_b0 = cksum.push(input);
                *self = Deframer::LengthMsb { class, id, len_b0, cksum };
                Ok(None)
            },
            Deframer::LengthMsb { class, id, len_b0, mut cksum } => {
                let len_b1 = cksum.push(input);
                let len: usize = (len_b1 as usize) * 256 + (len_b0 as usize);
                if len > MAX_LEN {
                    // A declared length beyond the ceiling is not
                    // buffered: abandon the message and resume
                    // scanning, with no error raised.
                    *self = Deframer::Sync { accum: 0 };
                } else if len == 0 {
                    // An empty payload is already complete: finalize
                    // the running checksum and expect its first byte.
                    *self = Deframer::CkA {
                        class,
                        id,
                        message: Vec::new(),
                        cksum_calc: cksum.take(),
                    };
                } else {
                    *self = Deframer::Message {
                        class,
                        id,
                        len,
                        message: Vec::with_capacity(len),
                        cksum,
                    };
                }
                Ok(None)
            },
            Deframer::Message { class, id, len, mut message, mut cksum } => {
                let b = cksum.push(input);
                message.push(b);
                if message.len() == len {
                    *self = Deframer::CkA { class, id, message, cksum_calc: cksum.take() };
                } else {
                    *self = Deframer::Message { class, id, len, message, cksum };
                }
                Ok(None)
            },
            Deframer::CkA { class, id, message, cksum_calc } => {
                if input == cksum_calc.0 {
                    *self = Deframer::CkB { class, id, message, cksum_calc };
                    Ok(None)
                } else {
                    *self = Deframer::Sync { accum: 0 };
                    Err(FrameError::Checksum)
                }
            },
            Deframer::CkB { class, id, message, cksum_calc } => {
                let r = if input == cksum_calc.1 {
                    Ok(Some(Frame { class, id, message }))
                } else {
                    Err(FrameError::Checksum)
                };
                *self = Deframer::Sync { accum: 0 };
                r
            },
        }
    }

    /// Returns a new deframer, scanning for the sync word.
    pub fn new() -> (r: Self)
        ensures
            r@ == DeframerModel::init(),
    {
        Deframer::Sync { accum: 0 }
    }
}

impl Default for Deframer {
    /// Equivalent to [`Deframer::new`].
    fn default() -> (r: Self)
        ensures
            r@ == DeframerModel::init(),
    {
        Self::new()
    }
}

/// The first completed frame the model reports while consuming
/// `bytes` from state `s`, if any.
pub open spec fn first_frame(s: DeframerModel, bytes: Seq<u8>) -> Option<PushOut>
    decreases bytes.len(),
{
    if bytes.len() == 0 {
        None
    } else {
        let (s2, out) = s.step(bytes[0]);
        if out is Complete {
            Some(out)
        } else {
            first_frame(s2, bytes.skip(1))
        }
    }
}

/// One-shot deframer utility function: feeds `bytes` to a fresh
/// deframer and returns the first completed frame, if any. Checksum
/// failures along the way are absorbed, as the deframer has already
/// resynchronized.
pub fn deframe(bytes: &[u8]) -> (r: Result<Option<Frame>, FrameError>)
    ensures
        match first_frame(DeframerModel::init(), bytes@) {
            Some(out) => match r {
                Ok(Some(f)) => out == (PushOut::Complete {
                    class: f.class,
                    id: f.id,
                    message: f.message@,
                }),
                _ => false,
            },
            None => r == Ok::<Option<Frame>, FrameError>(None),
        },
{
    let mut deframer = Deframer::new();
    let n = bytes.len();
    let mut i: usize = 0;
    proof {
        assert(bytes@.skip(0) =~= bytes@);
    }
    while i < n
        invariant
            0 <= i <= n,
            n == bytes@.len(),
            first_frame(DeframerModel::init(), bytes@) == first_frame(
                deframer@,
                bytes@.skip(i as int),
            ),
        decreases n - i,
    {
        let b = bytes[i];
        let res = deframer.push(b);
        proof {
            assert(bytes@.skip(i as int)[0] == bytes@[i as int]);
            assert(bytes@.skip(i as int).skip(1) =~= bytes@.skip(i as int + 1));
        }
        if let Ok(Some(f)) = res {
            return Ok(Some(f));
        }
        i += 1;
    }
    Ok(None)
}

} // verus!
