//! GPS time solution message.

use crate::messages::primitive::{
    le32, le32_bytes, lemma_le32_roundtrip, lemma_signed8_roundtrip, lemma_sle16_roundtrip,
    lemma_sle32_roundtrip, read_i16_le, read_i32_le, read_i8, read_u32_le, signed8, sle16,
    sle16_bytes, sle32, sle32_bytes, unsigned8, write_i16_le, write_i32_le, write_i8, write_u32_le,
    I1, I2, I4, U4, X1,
};
use crate::messages::Message;
use vstd::prelude::*;

verus! {

/// This message reports the precise GPS time of the most recent
/// navigation solution including validity flags and an accuracy
/// estimate.
#[derive(Clone, Debug, Eq, PartialEq)]
pub struct TimeGps {
    /// GPS time of week of the navigation epoch.
    ///
    /// ### Unit
    /// millisecond
    pub iTOW: U4,
    /// Fractional part of iTOW (range: +/- 500000).
    ///
    /// The precise GPS time of week in seconds is:
    /// (iTOW * 1e-3) + (fTOW * 1e-9)
    ///
    /// ### Unit
    /// nanosecond
    pub fTOW: I4,
    /// GPS week number of the navigation epoch.
    ///
    /// ### Unit
    /// week
    pub week: I2,
    /// GPS leap seconds (GPS-UTC).
    ///
    /// ### Unit
    /// second
    pub leapS: I1,
    /// Validity Flags.
    pub valid: X1,
    /// Time Accuracy Estimate.
    ///
    /// ### Unit
    /// nanosecond
    pub tAcc: U4,
}

/// The dispatch triple of the GPS time message type.
pub proof fn lemma_timegps_consts()
    ensures
        TimeGps::CLASS == 0x01 && TimeGps::ID == 0x20 && TimeGps::LEN == 16,
{
}

impl Message for TimeGps {
    const CLASS: u8 = 0x01;

    const ID: u8 = 0x20;

    const LEN: usize = 16;

    open spec fn spec_bytes(&self) -> Seq<u8> {
        le32_bytes(self.iTOW) + sle32_bytes(self.fTOW) + sle16_bytes(self.week) + seq![
            unsigned8(self.leapS),
            self.valid,
        ] + le32_bytes(self.tAcc)
    }

    open spec fn spec_deserialize(s: Seq<u8>) -> Result<TimeGps, ()> {
        if s.len() < TimeGps::LEN {
            Err(())
        } else {
            Ok(
                TimeGps {
                    iTOW: le32(s[0], s[1], s[2], s[3]),
                    fTOW: sle32(s[4], s[5], s[6], s[7]),
                    week: sle16(s[8], s[9]),
                    leapS: signed8(s[10]),
                    valid: s[11],
                    tAcc: le32(s[12], s[13], s[14], s[15]),
                },
            )
        }
    }

    proof fn lemma_bytes_len(&self) {
    }

    proof fn lemma_deserialize_bytes(&self) {
        lemma_le32_roundtrip(self.iTOW);
        lemma_sle32_roundtrip(self.fTOW);
        lemma_sle16_roundtrip(self.week);
        lemma_signed8_roundtrip(self.leapS);
        lemma_le32_roundtrip(self.tAcc);
    }

    fn serialize(&self, dst: &mut Vec<u8>) -> (r: Result<(), ()>) {
        write_u32_le(dst, self.iTOW);
        write_i32_le(dst, self.fTOW);
        write_i16_le(dst, self.week);
        write_i8(dst, self.leapS);
        dst.push(self.valid);
        write_u32_le(dst, self.tAcc);
        proof {
            assert(dst@ =~= old(dst)@ + self.spec_bytes());
        }
        Ok(())
    }

    fn deserialize(src: &[u8]) -> (r: Result<TimeGps, ()>) {
        if src.len() < 16 {
            return Err(());
        }
        let iTOW = read_u32_le(src, 0);
        let fTOW = read_i32_le(src, 4);
        let week = read_i16_le(src, 8);
        let leapS = read_i8(src, 10);
        let valid = src[11];
        let tAcc = read_u32_le(src, 12);
        Ok(TimeGps { iTOW, fTOW, week, leapS, valid, tAcc })
    }
}

} // verus!
