//! Ack/Nak Messages: i.e. Acknowledge or Reject messages to UBX-CFG
//! input messages.
//!
//! Messages in the UBX-ACK class output the
//! processing results to UBX-CFG and some other messages.

use crate::framing::Frame;
use crate::messages::Message;
use vstd::prelude::*;

verus! {

/// Ack/Nak.
#[allow(missing_docs)]
#[derive(Clone, Debug, Eq, PartialEq)]
pub enum AckNak {
    Ack(Ack),
    Nak(Nak),
}

impl AckNak {
    /// ACK class.
    pub const CLASS: u8 = 0x05;

    /// What [`AckNak::from_frame`] yields for a frame with the given
    /// class, id and payload: an `Ack` or `Nak` exactly when class,
    /// id and payload length all match that type, failure otherwise.
    pub open spec fn spec_from_frame(class: u8, id: u8, message: Seq<u8>) -> Result<AckNak, ()> {
        if class != AckNak::CLASS {
            Err(())
        } else if id == Ack::ID && message.len() == Ack::LEN {
            match Ack::spec_deserialize(message) {
                Ok(a) => Ok(AckNak::Ack(a)),
                Err(()) => Err(()),
            }
        } else if id == Nak::ID && message.len() == Nak::LEN {
            match Nak::spec_deserialize(message) {
                Ok(n) => Ok(AckNak::Nak(n)),
                Err(()) => Err(()),
            }
        } else {
            Err(())
        }
    }

    /// Parses an Ack/Nak message from a [`Frame`].
    pub fn from_frame(frame: &Frame) -> (r: Result<AckNak, ()>)
        ensures
            r == AckNak::spec_from_frame(frame.class, frame.id, frame.message@),
    {
        if frame.class != Self::CLASS {
            return Err(());
        }
        if frame.id == Ack::ID && frame.message.len() == Ack::LEN {
            match Ack::deserialize(frame.message.as_slice()) {
                Ok(a) => Ok(AckNak::Ack(a)),
                Err(()) => Err(()),
            }
        } else if frame.id == Nak::ID && frame.message.len() == Nak::LEN {
            match Nak::deserialize(frame.message.as_slice()) {
                Ok(n) => Ok(AckNak::Nak(n)),
                Err(()) => Err(()),
            }
        } else {
            Err(())
        }
    }
}

/// Output upon processing of an input message.
///
/// A UBX-ACK-ACK is sent as soon as possible but at least within one second.
#[derive(Clone, Debug, Eq, PartialEq)]
pub struct Ack {
    /// Acknowledged message's class.
    pub class: u8,
    /// Acknowledged message's ID.
    pub id: u8,
}

/// The dispatch triples of this module's message types.
pub proof fn lemma_ack_consts()
    ensures
        Ack::CLASS == 0x05 && Ack::ID == 0x01 && Ack::LEN == 2,
        Nak::CLASS == 0x05 && Nak::ID == 0x00 && Nak::LEN == 2,
{
}

impl Message for Ack {
    const CLASS: u8 = 0x05;

    const ID: u8 = 0x01;

    const LEN: usize = 2;

    open spec fn spec_bytes(&self) -> Seq<u8> {
        seq![self.class, self.id]
    }

    open spec fn spec_deserialize(s: Seq<u8>) -> Result<Ack, ()> {
        if s.len() < Ack::LEN {
            Err(())
        } else {
            Ok(Ack { class: s[0], id: s[1] })
        }
    }

    proof fn lemma_bytes_len(&self) {
    }

    proof fn lemma_deserialize_bytes(&self) {
    }

    fn serialize(&self, dst: &mut Vec<u8>) -> (r: Result<(), ()>) {
        dst.push(self.class);
        dst.push(self.id);
        proof {
            assert(dst@ =~= old(dst)@ + self.spec_bytes());
        }
        Ok(())
    }

    fn deserialize(src: &[u8]) -> (r: Result<Ack, ()>) {
        if src.len() < 2 {
            return Err(());
        }
        let class = src[0];
        let id = src[1];
        Ok(Ack { class, id })
    }
}

/// Output upon processing of an input message.
///
/// A UBX-ACK-NAK is sent as soon as possible but at least within one second.
#[derive(Clone, Debug, Eq, PartialEq)]
pub struct Nak {
    /// Rejected message's class.
    pub class: u8,
    /// Rejected message's ID.
    pub id: u8,
}

impl Message for Nak {
    const CLASS: u8 = 0x05;

    const ID: u8 = 0x00;

    const LEN: usize = 2;

    open spec fn spec_bytes(&self) -> Seq<u8> {
        seq![self.class, self.id]
    }

    open spec fn spec_deserialize(s: Seq<u8>) -> Result<Nak, ()> {
        if s.len() < Nak::LEN {
            Err(())
        } else {
            Ok(Nak { class: s[0], id: s[1] })
        }
    }

    proof fn lemma_bytes_len(&self) {
    }

    proof fn lemma_deserialize_bytes(&self) {
    }

    fn serialize(&self, dst: &mut Vec<u8>) -> (r: Result<(), ()>) {
        dst.push(self.class);
        dst.push(self.id);
        proof {
            assert(dst@ =~= old(dst)@ + self.spec_bytes());
        }
        Ok(())
    }

    fn deserialize(src: &[u8]) -> (r: Result<Nak, ()>) {
        if src.len() < 2 {
            return Err(());
        }
        let class = src[0];
        let id = src[1];
        Ok(Nak { class, id })
    }
}

} // verus!
