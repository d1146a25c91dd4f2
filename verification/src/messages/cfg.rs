//! Configuration Input Messages: i.e. Configure the receiver.
//!
//! Messages in the CFG class can be used to configure the receiver and
//! poll current configuration values. Any messages in the CFG class sent
//! to the receiver are either acknowledged (with message UBX-ACK-ACK) if
//! processed successfully or rejected (with message UBX-ACK-NAK) if
//! processing unsuccessfully.

mod msg;
pub mod prt;

pub use msg::{lemma_msg_consts, SetMsgRates};

use crate::framing::Frame;
use crate::messages::Message;
use vstd::prelude::*;

verus! {

/// Configuration messages.
#[allow(missing_docs)]
#[derive(Clone, Debug, Eq, PartialEq)]
pub enum Cfg {
    SetMsgRates(SetMsgRates),
}

impl Cfg {
    /// CFG class.
    pub const CLASS: u8 = 0x06;

    /// What [`Cfg::from_frame`] yields for a frame with the given
    /// class, id and payload: a configuration message exactly when
    /// class, id and payload length all match a registered type,
    /// failure otherwise.
    pub open spec fn spec_from_frame(class: u8, id: u8, message: Seq<u8>) -> Result<Cfg, ()> {
        if class != Cfg::CLASS {
            Err(())
        } else if id == SetMsgRates::ID && message.len() == SetMsgRates::LEN {
            match SetMsgRates::spec_deserialize(message) {
                Ok(m) => Ok(Cfg::SetMsgRates(m)),
                Err(()) => Err(()),
            }
        } else {
            Err(())
        }
    }

    /// Parses a configuration message from a [`Frame`].
    pub fn from_frame(frame: &Frame) -> (r: Result<Cfg, ()>)
        ensures
            r == Cfg::spec_from_frame(frame.class, frame.id, frame.message@),
    {
        if frame.class != Self::CLASS {
            return Err(());
        }
        if frame.id == SetMsgRates::ID && frame.message.len() == SetMsgRates::LEN {
            match SetMsgRates::deserialize(frame.message.as_slice()) {
                Ok(m) => Ok(Cfg::SetMsgRates(m)),
                Err(()) => Err(()),
            }
        } else {
            Err(())
        }
    }
}

} // verus!
