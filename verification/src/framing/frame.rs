//! The validated frame unit and the encoder that turns one back into
//! wire bytes.

use crate::framing::checksum::{checksum_of, ck_fold, lemma_ck_fold_push, Checksum};
use crate::framing::FrameVec;
use crate::messages::Message;
use vstd::prelude::*;

verus! {

/// First byte of the fixed sync word that opens every frame.
pub const SYNC_1: u8 = 0xB5;

/// Second byte of the fixed sync word that opens every frame.
pub const SYNC_2: u8 = 0x62;

/// The bytes covered by the checksum: class, id, the 16-bit
/// little-endian payload length, then the payload itself.
pub open spec fn body_bytes(class: u8, id: u8, payload: Seq<u8>) -> Seq<u8> {
    seq![class, id, (payload.len() % 256) as u8, ((payload.len() / 256) % 256) as u8] + payload
}

/// The complete wire encoding of a frame: sync word, checksummed body,
/// then the two checksum bytes.
pub open spec fn frame_bytes(class: u8, id: u8, payload: Seq<u8>) -> Seq<u8> {
    let body = body_bytes(class, id, payload);
    seq![SYNC_1, SYNC_2] + body + seq![checksum_of(body).0, checksum_of(body).1]
}

/// The type returned by [`Deframer::push()`] upon successfully parsing
/// a u-blox message.
///
/// [`Deframer::push()`]: enum.Deframer.html#method.push
#[derive(Clone, Debug, Eq, PartialEq)]
pub struct Frame {
    /// Message class.
    pub class: u8,
    /// Message ID.
    ///
    /// Message ID's are not globally unique, but they are unique per
    /// `class`.
    pub id: u8,
    /// The message's payload.
    ///
    /// `message` is just a buffer of bytes and can be dispatched to
    /// an appropriate message-specific parser based on `class` and
    /// `id`.
    pub message: FrameVec,
}

impl Frame {
    /// Converts `Frame` into a framed vector of bytes: the sync word,
    /// class, id, little-endian payload length, payload, and trailing
    /// checksum.
    pub fn into_framed_vec(self) -> (r: FrameVec)
        requires
            self.message@.len() <= 0xFFFF,
        ensures
            r@ == frame_bytes(self.class, self.id, self.message@),
    {
        let Frame { class, id, message } = self;
        let len = message.len();
        let len_lsb = (len % 256) as u8;
        let len_msb = ((len / 256) % 256) as u8;
        let ghost body = body_bytes(class, id, message@);
        let mut out: FrameVec = Vec::new();
        out.push(SYNC_1);
        out.push(SYNC_2);
        let mut cksum = Checksum::new();
        let b = cksum.push(class);
        out.push(b);
        let b = cksum.push(id);
        out.push(b);
        let b = cksum.push(len_lsb);
        out.push(b);
        let b = cksum.push(len_msb);
        out.push(b);
        proof {
            assert(out@ =~= seq![SYNC_1, SYNC_2] + body.take(4));
            assert(body.take(4) =~= Seq::<u8>::empty().push(class).push(id).push(len_lsb).push(
                len_msb,
            ));
            lemma_ck_fold_push((0u8, 0u8), Seq::<u8>::empty(), class);
            lemma_ck_fold_push((0u8, 0u8), Seq::<u8>::empty().push(class), id);
            lemma_ck_fold_push((0u8, 0u8), Seq::<u8>::empty().push(class).push(id), len_lsb);
            lemma_ck_fold_push(
                (0u8, 0u8),
                Seq::<u8>::empty().push(class).push(id).push(len_lsb),
                len_msb,
            );
            assert(cksum@ == ck_fold((0u8, 0u8), body.take(4)));
        }
        let mut i: usize = 0;
        while i < message.len()
            invariant
                0 <= i <= message@.len(),
                body == body_bytes(class, id, message@),
                body.len() == 4 + message@.len(),
                out@ == seq![SYNC_1, SYNC_2] + body.take(4 + i as int),
                cksum@ == ck_fold((0u8, 0u8), body.take(4 + i as int)),
            decreases message@.len() - i,
        {
            let b = cksum.push(message[i]);
            out.push(b);
            proof {
                assert(body[4 + i as int] == message@[i as int]);
                assert(body.take(4 + (i + 1) as int) =~= body.take(4 + i as int).push(
                    message@[i as int],
                ));
                lemma_ck_fold_push((0u8, 0u8), body.take(4 + i as int), message@[i as int]);
            }
            i += 1;
        }
        proof {
            assert(body.take(4 + i as int) =~= body);
        }
        let (ck_a, ck_b) = cksum.take();
        out.push(ck_a);
        out.push(ck_b);
        proof {
            assert(out@ =~= frame_bytes(class, id, message@));
        }
        out
    }
}

/// Frame a u-blox message to a buffer.
///
/// Writes the complete wire encoding of `msg` over the first
/// `M::LEN + 8` bytes of `buf` (2 sync bytes + class + id + 2 length
/// bytes + payload + 2 checksum bytes), leaving the rest of the buffer
/// untouched, and returns the number of bytes written. Fails, leaving
/// the buffer untouched, exactly when the buffer is too small.
pub fn frame<M: Message>(msg: &M, buf: &mut [u8]) -> (r: Result<usize, ()>)
    ensures
        old(buf)@.len() < M::LEN + 8 ==> ({
            &&& r == Err::<usize, ()>(())
            &&& final(buf)@ == old(buf)@
        }),
        old(buf)@.len() >= M::LEN + 8 ==> ({
            &&& r == Ok::<usize, ()>((M::LEN + 8) as usize)
            &&& final(buf)@ == frame_bytes(M::CLASS, M::ID, msg.spec_bytes()) + old(buf)@.skip(
                M::LEN + 8,
            )
        }),
{
    proof {
        msg.lemma_bytes_len();
    }
    let total = M::LEN + 8;
    if buf.len() < total {
        return Err(());
    }
    let mut payload: Vec<u8> = Vec::new();
    let _ = msg.serialize(&mut payload);
    let f = Frame { class: M::CLASS, id: M::ID, message: payload };
    let bytes = f.into_framed_vec();
    let n = bytes.len();
    let mut i: usize = 0;
    while i < n
        invariant
            0 <= i <= n,
            n == bytes@.len(),
            n <= buf@.len(),
            buf@.len() == old(buf)@.len(),
            bytes@ == frame_bytes(M::CLASS, M::ID, msg.spec_bytes()),
            forall|j: int| 0 <= j < i ==> buf@[j] == bytes@[j],
            forall|j: int| i <= j < buf@.len() ==> buf@[j] == old(buf)@[j],
        decreases n - i,
    {
        let b = bytes[i];
        buf[i] = b;
        i += 1;
    }
    proof {
        assert(buf@ =~= frame_bytes(M::CLASS, M::ID, msg.spec_bytes()) + old(buf)@.skip(
            M::LEN + 8,
        ));
    }
    Ok(total)
}

} // verus!
