//! u-blox message types.

pub mod ack;
pub mod cfg;
pub mod nav;
pub mod primitive;

use crate::framing::Frame;
use ack::{Ack, AckNak, Nak};
use cfg::{Cfg, SetMsgRates};
use nav::{Nav, Pvt, TimeGps};
use vstd::prelude::*;

verus! {

/// Top-level enum for valid u-blox messages.
#[derive(Clone, Debug, Eq, PartialEq)]
pub enum Msg {
    /// Ack/Nak
    AckNak(AckNak),
    /// Configuration message.
    Cfg(Cfg),
    /// Navigation message.
    Nav(Nav),
}

impl Msg {
    /// What [`Msg::from_frame`] yields for a frame with the given
    /// class, id and payload: the decoded message exactly when class,
    /// id and payload length all match a registered message type, and
    /// failure otherwise.
    pub open spec fn spec_from_frame(class: u8, id: u8, message: Seq<u8>) -> Result<Msg, ()> {
        if class == Cfg::CLASS {
            match Cfg::spec_from_frame(class, id, message) {
                Ok(c) => Ok(Msg::Cfg(c)),
                Err(()) => Err(()),
            }
        } else if class == Nav::CLASS {
            match Nav::spec_from_frame(class, id, message) {
                Ok(n) => Ok(Msg::Nav(n)),
                Err(()) => Err(()),
            }
        } else if class == AckNak::CLASS {
            match AckNak::spec_from_frame(class, id, message) {
                Ok(a) => Ok(Msg::AckNak(a)),
                Err(()) => Err(()),
            }
        } else {
            Err(())
        }
    }

    /// Parses a u-blox message from a [`Frame`].
    pub fn from_frame(frame: &Frame) -> (r: Result<Msg, ()>)
        ensures
            r == Msg::spec_from_frame(frame.class, frame.id, frame.message@),
    {
        if frame.class == Cfg::CLASS {
            match Cfg::from_frame(frame) {
                Ok(c) => Ok(Msg::Cfg(c)),
                Err(()) => Err(()),
            }
        } else if frame.class == Nav::CLASS {
            match Nav::from_frame(frame) {
                Ok(n) => Ok(Msg::Nav(n)),
                Err(()) => Err(()),
            }
        } else if frame.class == AckNak::CLASS {
            match AckNak::from_frame(frame) {
                Ok(a) => Ok(Msg::AckNak(a)),
                Err(()) => Err(()),
            }
        } else {
            Err(())
        }
    }
}

/// Whether the dispatcher recognizes the pair of class and id: true
/// exactly for the registered message types.
pub open spec fn registered(class: u8, id: u8) -> bool {
    ||| (class == Ack::CLASS && id == Ack::ID)
    ||| (class == Nak::CLASS && id == Nak::ID)
    ||| (class == SetMsgRates::CLASS && id == SetMsgRates::ID)
    ||| (class == TimeGps::CLASS && id == TimeGps::ID)
    ||| (class == Pvt::CLASS && id == Pvt::ID)
}

/// The fixed length of the message type registered for the pair of
/// class and id.
pub open spec fn registered_len(class: u8, id: u8) -> usize
    recommends
        registered(class, id),
{
    if class == Ack::CLASS {
        Ack::LEN
    } else if class == SetMsgRates::CLASS {
        SetMsgRates::LEN
    } else if id == TimeGps::ID {
        TimeGps::LEN
    } else {
        Pvt::LEN
    }
}

/// Exact-length dispatch: a frame whose class and id match a
/// registered message type but whose payload length differs from that
/// type's fixed length is unrecognized, not decoded as a truncated or
/// padded instance of that type.
pub proof fn lemma_exact_length_dispatch(class: u8, id: u8, message: Seq<u8>)
    requires
        registered(class, id),
        message.len() != registered_len(class, id),
    ensures
        Msg::spec_from_frame(class, id, message) == Err::<Msg, ()>(()),
{
    ack::lemma_ack_consts();
    cfg::lemma_msg_consts();
    nav::lemma_timegps_consts();
    nav::lemma_pvt_consts();
    if class == Ack::CLASS {
        assert(AckNak::spec_from_frame(class, id, message) == Err::<AckNak, ()>(()));
    } else if class == SetMsgRates::CLASS {
        assert(Cfg::spec_from_frame(class, id, message) == Err::<Cfg, ()>(()));
    } else {
        assert(Nav::spec_from_frame(class, id, message) == Err::<Nav, ()>(()));
    }
}

/// Represents any u-blox protocol message: a fixed class/id/length
/// triple together with an encoding and a decoding that agree.
pub trait Message: Sized {
    /// Message class.
    const CLASS: u8;

    /// Message ID.
    const ID: u8;

    /// Message length.
    const LEN: usize;

    /// The exact wire layout of this message: always `LEN` bytes.
    spec fn spec_bytes(&self) -> Seq<u8>;

    /// What deserializing a byte buffer yields: a message, or failure.
    spec fn spec_deserialize(s: Seq<u8>) -> Result<Self, ()>;

    /// The byte layout always has exactly the fixed length, and the
    /// fixed length fits the 16-bit wire length field.
    proof fn lemma_bytes_len(&self)
        ensures
            self.spec_bytes().len() == Self::LEN,
            Self::LEN <= 0xFFFF,
    ;

    /// Round trip: deserializing a message's own bytes yields the
    /// message back.
    proof fn lemma_deserialize_bytes(&self)
        ensures
            Self::spec_deserialize(self.spec_bytes()) == Ok::<Self, ()>(*self),
    ;

    /// Serialize message bytes to a buffer, appending exactly the
    /// fixed number of bytes.
    fn serialize(&self, dst: &mut Vec<u8>) -> (r: Result<(), ()>)
        ensures
            r is Ok,
            final(dst)@ == old(dst)@ + self.spec_bytes(),
    ;

    /// Deserialize a message from a buffer of bytes.
    fn deserialize(src: &[u8]) -> (r: Result<Self, ()>)
        ensures
            r == Self::spec_deserialize(src@),
    ;
}

} // verus!
