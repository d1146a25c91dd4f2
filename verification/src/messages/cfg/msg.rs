//! Message rate configuration.

use crate::messages::primitive::U1;
use crate::messages::Message;
use vstd::prelude::*;

verus! {

/// Get/set message rate configuration(s) to/from the receiver.
///
/// Send rate is relative to the event a message is registered on. For
/// example, if the rate of a navigation message is set to 2, the
/// message is sent every second navigation solution.
#[derive(Clone, Debug, Eq, PartialEq)]
pub struct SetMsgRates {
    /// Message class of message to configure (not `Self`'s class).
    pub class: U1,
    /// Message identifier of message to configure (not `Self`'s identifier).
    pub id: U1,
    /// DDC (I²C) rate.
    pub ddc: U1,
    /// UART 1 rate.
    pub uart1: U1,
    /// USB rate.
    pub usb: U1,
    /// SPI rate.
    pub spi: U1,
}

/// The dispatch triple of the message rate configuration type.
pub proof fn lemma_msg_consts()
    ensures
        SetMsgRates::CLASS == 0x06 && SetMsgRates::ID == 0x01 && SetMsgRates::LEN == 8,
{
}

impl Message for SetMsgRates {
    const CLASS: u8 = 0x06;

    const ID: u8 = 0x01;

    const LEN: usize = 8;

    open spec fn spec_bytes(&self) -> Seq<u8> {
        seq![self.class, self.id, self.ddc, self.uart1, self.usb, self.spi, 0u8, 0u8]
    }

    open spec fn spec_deserialize(s: Seq<u8>) -> Result<SetMsgRates, ()> {
        if s.len() < SetMsgRates::LEN {
            Err(())
        } else {
            Ok(
                SetMsgRates {
                    class: s[0],
                    id: s[1],
                    ddc: s[2],
                    uart1: s[3],
                    usb: s[4],
                    spi: s[5],
                },
            )
        }
    }

    proof fn lemma_bytes_len(&self) {
    }

    proof fn lemma_deserialize_bytes(&self) {
    }

    fn serialize(&self, dst: &mut Vec<u8>) -> (r: Result<(), ()>) {
        dst.push(self.class);
        dst.push(self.id);
        dst.push(self.ddc);
        dst.push(self.uart1);
        dst.push(self.usb);
        dst.push(self.spi);
        // Reserved 1
        dst.push(0);
        // Reserved 2
        dst.push(0);
        proof {
            assert(dst@ =~= old(dst)@ + self.spec_bytes());
        }
        Ok(())
    }

    fn deserialize(src: &[u8]) -> (r: Result<SetMsgRates, ()>) {
        if src.len() < 8 {
            return Err(());
        }
        let class = src[0];
        let id = src[1];
        let ddc = src[2];
        let uart1 = src[3];
        let usb = src[4];
        let spi = src[5];
        Ok(SetMsgRates { class, id, ddc, uart1, usb, spi })
    }
}

} // verus!
