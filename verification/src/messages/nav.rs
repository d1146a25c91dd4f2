//! Navigation messages.

mod pvt;
mod timegps;

pub use self::pvt::{lemma_pvt_consts, Flags, Flags2, Pvt, Valid};
pub use self::timegps::{lemma_timegps_consts, TimeGps};

use crate::framing::Frame;
use crate::messages::Message;
use vstd::prelude::*;

verus! {

/// Navigation Results Messages
///
/// Includes:
/// - Position
/// - Speed
/// - Time
/// - Acceleration
/// - Heading
/// - DOP
/// - SVs used
#[allow(missing_docs)]
#[derive(Clone, Debug, Eq, PartialEq)]
pub enum Nav {
    TimeGps(TimeGps),
    Pvt(Pvt),
}

impl Nav {
    /// NAV class.
    pub const CLASS: u8 = 0x01;

    /// What [`Nav::from_frame`] yields for a frame with the given
    /// class, id and payload: a navigation message exactly when
    /// class, id and payload length all match a registered type,
    /// failure otherwise.
    pub open spec fn spec_from_frame(class: u8, id: u8, message: Seq<u8>) -> Result<Nav, ()> {
        if class != Nav::CLASS {
            Err(())
        } else if id == TimeGps::ID && message.len() == TimeGps::LEN {
            match TimeGps::spec_deserialize(message) {
                Ok(t) => Ok(Nav::TimeGps(t)),
                Err(()) => Err(()),
            }
        } else if id == Pvt::ID && message.len() == Pvt::LEN {
            match Pvt::spec_deserialize(message) {
                Ok(p) => Ok(Nav::Pvt(p)),
                Err(()) => Err(()),
            }
        } else {
            Err(())
        }
    }

    /// Parses a navigation message from a [`Frame`].
    pub fn from_frame(frame: &Frame) -> (r: Result<Nav, ()>)
        ensures
            r == Nav::spec_from_frame(frame.class, frame.id, frame.message@),
    {
        if frame.class != Self::CLASS {
            return Err(());
        }
        if frame.id == TimeGps::ID && frame.message.len() == TimeGps::LEN {
            match TimeGps::deserialize(frame.message.as_slice()) {
                Ok(t) => Ok(Nav::TimeGps(t)),
                Err(()) => Err(()),
            }
        } else if frame.id == Pvt::ID && frame.message.len() == Pvt::LEN {
            match Pvt::deserialize(frame.message.as_slice()) {
                Ok(p) => Ok(Nav::Pvt(p)),
                Err(()) => Err(()),
            }
        } else {
            Err(())
        }
    }
}

} // verus!
