//! Position, velocity and time solution message.

use crate::messages::primitive::{
    le16, le16_bytes, le32, le32_bytes, lemma_le16_roundtrip, lemma_le32_roundtrip,
    lemma_sle16_roundtrip, lemma_sle32_roundtrip, read_i16_le, read_i32_le, read_u16_le,
    read_u32_le, sle16, sle16_bytes, sle32, sle32_bytes, write_i16_le, write_i32_le, write_u16_le,
    write_u32_le, I2, I4, U1, U2, U4, X1,
};
use crate::messages::Message;
use vstd::prelude::*;

verus! {

/// This message combines position, velocity and time solution,
/// including accuracy figures. Note that during a leap second there
/// may be more or less than 60 seconds in a minute.
#[derive(Clone, Debug, Eq, PartialEq)]
pub struct Pvt {
    /// GPS time of week of the navigation epoch.
    /// See the description of iTOW for details.
    ///
    /// ### Unit
    /// ms
    pub TOW: U4,
    /// Year (UTC)
    ///
    /// ### Unit
    /// y
    pub year: U2,
    /// Month, range 1..12 (UTC)
    ///
    /// ### Unit
    /// month
    pub month: U1,
    /// Day of month, range 1..31 (UTC)
    ///
    /// ### Unit
    /// d
    pub day: U1,
    /// Hour of day, range 0..23 (UTC)
    ///
    /// ### Unit
    /// h
    pub hour: U1,
    /// Minute of hour, range 0..59 (UTC)
    ///
    /// ### Unit
    /// min
    pub min: U1,
    /// Seconds of minute, range 0..60 (UTC)
    ///
    /// ### Unit
    /// s
    pub sec: U1,
    /// Validity flags.
    pub valid: Valid,
    /// Time accuracy estimate (UTC)
    ///
    /// ### Unit
    /// ns
    pub tAcc: U4,
    /// Fraction of second, range -1e9 ..1e9 (UTC)
    ///
    /// ### Unit
    /// ns
    pub nano: I4,
    /// GNSSfix Type: 0: no fix
    /// 1: dead reckoning only
    /// 2: 2D-fix
    /// 3: 3D-fix
    /// 4: GNSS + dead reckoning combined 5: time only fix
    pub fxType: U1,
    /// Fix status flags.
    pub flags: Flags,
    /// Additional flags.
    pub flags2: Flags2,
    /// Number of satellites used in Nav Solution
    pub numSV: U1,
    /// Longitude
    ///
    /// ### Unit
    /// deg
    pub lon: I4,
    /// Latitude
    ///
    /// ### Unit
    /// deg
    pub lat: I4,
    /// Height above ellipsoid
    ///
    /// ### Unit
    /// mm
    pub height: I4,
    /// Height above mean sea level
    ///
    /// ### Unit
    /// mm
    pub hMSL: I4,
    /// Horizontal accuracy estimate
    ///
    /// ### Unit
    /// mm
    pub hAcc: U4,
    /// Vertical accuracy estimate
    ///
    /// ### Unit
    /// mm
    pub vAcc: U4,
    /// NED north velocity
    ///
    /// ### Unit
    /// mm/s
    pub velN: I4,
    /// NED east velocity
    ///
    /// ### Unit
    /// mm/s
    pub velE: I4,
    /// NED down velocity
    ///
    /// ### Unit
    /// mm/s
    pub velD: I4,
    /// Ground Speed (2-D)
    ///
    /// ### Unit
    /// mm/s
    pub gSpeed: I4,
    /// Heading of motion (2-D)
    ///
    /// ### Unit
    /// deg
    pub headMot: I4,
    /// Speed accuracy estimate
    ///
    /// ### Unit
    /// mm/s
    pub sAcc: U4,
    /// Heading accuracy estimate (both motion and vehicle)
    ///
    /// ### Unit
    /// deg
    pub headAcc: U4,
    /// Position DOP
    pub pDOP: U2,
    /// Additional flags.
    pub flags3: X1,
    /// Heading of vehicle (2-D), this is only valid when headVehValid
    /// is set, otherwise the output is set to the heading of motion
    ///
    /// ### Unit
    /// deg
    pub headVeh: I4,
    /// Magnetic declination. Only supported in ADR 4.10 and later.
    ///
    /// ### Unit
    /// deg
    pub magDec: I2,
    /// Magnetic declination accuracy. Only supported in ADR 4.10 and
    /// later.
    ///
    /// ### Unit
    /// deg
    pub macAcc: U2,
}

/// Bitfield `valid`.
#[derive(Clone, Copy, Debug, Eq, PartialEq)]
pub struct Valid(pub X1);

impl Valid {
    /// valid magnetic declination
    pub fn validMag(&self) -> (r: bool)
        ensures
            r == (((self.0 >> 3) & 1) == 1),
    {
        ((self.0 >> 3) & 1) == 1
    }

    /// UTC time of day has been fully resolved (no seconds
    /// uncertainty). Cannot be used to check if time is completely
    /// solved.
    pub fn fullyResolved(&self) -> (r: bool)
        ensures
            r == (((self.0 >> 2) & 1) == 1),
    {
        ((self.0 >> 2) & 1) == 1
    }

    /// valid UTC time of day (see Time Validity section for details)
    pub fn validTime(&self) -> (r: bool)
        ensures
            r == (((self.0 >> 1) & 1) == 1),
    {
        ((self.0 >> 1) & 1) == 1
    }

    /// valid UTC Date (see Time Validity section for details)
    pub fn validDate(&self) -> (r: bool)
        ensures
            r == ((self.0 & 1) == 1),
    {
        (self.0 & 1) == 1
    }
}

/// Bitfield `flags`.
#[derive(Clone, Copy, Debug, Eq, PartialEq)]
pub struct Flags(pub X1);

impl Flags {
    /// Carrier phase range solution status
    ///
    /// 0: no carrier phase range solution
    /// 1: carrier phase range solution with floating ambiguities
    /// 2: carrier phase range solution with fixed ambiguities (not
    /// supported in protocol versions less than 20)
    pub fn carrSoln(&self) -> (r: X1)
        ensures
            r == ((self.0 >> 6) & 0x3),
    {
        (self.0 >> 6) & 0x3
    }

    /// heading of vehicle is valid, only set if the receiver is in
    /// sensor fusion mode
    pub fn headVehValid(&self) -> (r: bool)
        ensures
            r == (((self.0 >> 5) & 1) == 1),
    {
        ((self.0 >> 5) & 1) == 1
    }

    /// Undocumented
    pub fn psmState(&self) -> (r: X1)
        ensures
            r == ((self.0 >> 2) & 0x7),
    {
        (self.0 >> 2) & 0x7
    }

    /// differential corrections were applied
    pub fn diffSoln(&self) -> (r: bool)
        ensures
            r == (((self.0 >> 1) & 1) == 1),
    {
        ((self.0 >> 1) & 1) == 1
    }

    /// valid fix (i.e within DOP & accuracy masks)
    pub fn gnssFixOK(&self) -> (r: bool)
        ensures
            r == ((self.0 & 1) == 1),
    {
        (self.0 & 1) == 1
    }
}

/// Bitfield `flags2`.
#[derive(Clone, Copy, Debug, Eq, PartialEq)]
pub struct Flags2(pub X1);

impl Flags2 {
    /// information about UTC Date and Time of Day validity
    /// confirmation is available (see Time Validity section for
    /// details).
    ///
    /// This flag is only supported in Protocol Versions 19.00, 19.10,
    /// 20.10, 20.20, 20.30, 22.00, 23.00, 23.01, 27 and 28.
    pub fn confirmedAvai(&self) -> (r: bool)
        ensures
            r == (((self.0 >> 7) & 1) == 1),
    {
        ((self.0 >> 7) & 1) == 1
    }

    /// UTC Date validity could be confirmed (see Time Validity
    /// section for details)
    pub fn confirmedDate(&self) -> (r: bool)
        ensures
            r == (((self.0 >> 6) & 1) == 1),
    {
        ((self.0 >> 6) & 1) == 1
    }

    /// UTC Time of Day could be confirmed (see Time Validity section
    /// for details)
    pub fn confirmedTime(&self) -> (r: bool)
        ensures
            r == (((self.0 >> 5) & 1) == 1),
    {
        ((self.0 >> 5) & 1) == 1
    }
}


/// The byte layout of a [`Pvt`], in four consecutive groups.
impl Pvt {
    /// Bytes 0 to 23: time of week, calendar time, validity and fix
    /// information.
    pub open spec fn bytes_time(&self) -> Seq<u8> {
        le32_bytes(self.TOW) + le16_bytes(self.year) + seq![
            self.month,
            self.day,
            self.hour,
            self.min,
            self.sec,
            self.valid.0,
        ] + le32_bytes(self.tAcc) + sle32_bytes(self.nano) + seq![
            self.fxType,
            self.flags.0,
            self.flags2.0,
            self.numSV,
        ]
    }

    /// Bytes 24 to 47: position and its accuracy estimates.
    pub open spec fn bytes_position(&self) -> Seq<u8> {
        sle32_bytes(self.lon) + sle32_bytes(self.lat) + sle32_bytes(self.height) + sle32_bytes(
            self.hMSL,
        ) + le32_bytes(self.hAcc) + le32_bytes(self.vAcc)
    }

    /// Bytes 48 to 77: velocity, heading and their accuracy estimates.
    pub open spec fn bytes_velocity(&self) -> Seq<u8> {
        sle32_bytes(self.velN) + sle32_bytes(self.velE) + sle32_bytes(self.velD) + sle32_bytes(
            self.gSpeed,
        ) + sle32_bytes(self.headMot) + le32_bytes(self.sAcc) + le32_bytes(self.headAcc)
            + le16_bytes(self.pDOP)
    }

    /// Bytes 78 to 91: flags, reserved space and magnetic declination.
    pub open spec fn bytes_tail(&self) -> Seq<u8> {
        seq![self.flags3, 0u8, 0u8, 0u8, 0u8, 0u8] + sle32_bytes(self.headVeh) + sle16_bytes(
            self.magDec,
        ) + le16_bytes(self.macAcc)
    }

    /// Each group has its fixed width.
    pub proof fn lemma_group_lens(&self)
        ensures
            self.bytes_time().len() == 24,
            self.bytes_position().len() == 24,
            self.bytes_velocity().len() == 30,
            self.bytes_tail().len() == 14,
    {
    }
}

/// The dispatch triple of the position/velocity/time message type.
pub proof fn lemma_pvt_consts()
    ensures
        Pvt::CLASS == 0x01 && Pvt::ID == 0x07 && Pvt::LEN == 92,
{
}

impl Message for Pvt {
    const CLASS: u8 = 0x01;

    const ID: u8 = 0x07;

    const LEN: usize = 92;

    open spec fn spec_bytes(&self) -> Seq<u8> {
        self.bytes_time() + self.bytes_position() + self.bytes_velocity() + self.bytes_tail()
    }

    open spec fn spec_deserialize(s: Seq<u8>) -> Result<Pvt, ()> {
        if s.len() < Pvt::LEN {
            Err(())
        } else {
            Ok(
                Pvt {
                    TOW: le32(s[0], s[1], s[2], s[3]),
                    year: le16(s[4], s[5]),
                    month: s[6],
                    day: s[7],
                    hour: s[8],
                    min: s[9],
                    sec: s[10],
                    valid: Valid(s[11]),
                    tAcc: le32(s[12], s[13], s[14], s[15]),
                    nano: sle32(s[16], s[17], s[18], s[19]),
                    fxType: s[20],
                    flags: Flags(s[21]),
                    flags2: Flags2(s[22]),
                    numSV: s[23],
                    lon: sle32(s[24], s[25], s[26], s[27]),
                    lat: sle32(s[28], s[29], s[30], s[31]),
                    height: sle32(s[32], s[33], s[34], s[35]),
                    hMSL: sle32(s[36], s[37], s[38], s[39]),
                    hAcc: le32(s[40], s[41], s[42], s[43]),
                    vAcc: le32(s[44], s[45], s[46], s[47]),
                    velN: sle32(s[48], s[49], s[50], s[51]),
                    velE: sle32(s[52], s[53], s[54], s[55]),
                    velD: sle32(s[56], s[57], s[58], s[59]),
                    gSpeed: sle32(s[60], s[61], s[62], s[63]),
                    headMot: sle32(s[64], s[65], s[66], s[67]),
                    sAcc: le32(s[68], s[69], s[70], s[71]),
                    headAcc: le32(s[72], s[73], s[74], s[75]),
                    pDOP: le16(s[76], s[77]),
                    flags3: s[78],
                    headVeh: sle32(s[84], s[85], s[86], s[87]),
                    magDec: sle16(s[88], s[89]),
                    macAcc: le16(s[90], s[91]),
                },
            )
        }
    }

    proof fn lemma_bytes_len(&self) {
        self.lemma_group_lens();
    }

    #[verifier::rlimit(100)]
    proof fn lemma_deserialize_bytes(&self) {
        self.lemma_group_lens();
        let s = self.spec_bytes();
        assert(s.len() == 92);
        assert(s[0] == le32_bytes(self.TOW)[0] && s[1] == le32_bytes(self.TOW)[1] && s[2] == le32_bytes(self.TOW)[2] && s[3] == le32_bytes(self.TOW)[3]);
        assert(s[4] == le16_bytes(self.year)[0] && s[5] == le16_bytes(self.year)[1]);
        assert(s[6] == self.month);
        assert(s[7] == self.day);
        assert(s[8] == self.hour);
        assert(s[9] == self.min);
        assert(s[10] == self.sec);
        assert(s[11] == self.valid.0);
        assert(s[12] == le32_bytes(self.tAcc)[0] && s[13] == le32_bytes(self.tAcc)[1] && s[14] == le32_bytes(self.tAcc)[2] && s[15] == le32_bytes(self.tAcc)[3]);
        assert(s[16] == sle32_bytes(self.nano)[0] && s[17] == sle32_bytes(self.nano)[1] && s[18] == sle32_bytes(self.nano)[2] && s[19] == sle32_bytes(self.nano)[3]);
        assert(s[20] == self.fxType);
        assert(s[21] == self.flags.0);
        assert(s[22] == self.flags2.0);
        assert(s[23] == self.numSV);
        assert(s[24] == sle32_bytes(self.lon)[0] && s[25] == sle32_bytes(self.lon)[1] && s[26] == sle32_bytes(self.lon)[2] && s[27] == sle32_bytes(self.lon)[3]);
        assert(s[28] == sle32_bytes(self.lat)[0] && s[29] == sle32_bytes(self.lat)[1] && s[30] == sle32_bytes(self.lat)[2] && s[31] == sle32_bytes(self.lat)[3]);
        assert(s[32] == sle32_bytes(self.height)[0] && s[33] == sle32_bytes(self.height)[1] && s[34] == sle32_bytes(self.height)[2] && s[35] == sle32_bytes(self.height)[3]);
        assert(s[36] == sle32_bytes(self.hMSL)[0] && s[37] == sle32_bytes(self.hMSL)[1] && s[38] == sle32_bytes(self.hMSL)[2] && s[39] == sle32_bytes(self.hMSL)[3]);
        assert(s[40] == le32_bytes(self.hAcc)[0] && s[41] == le32_bytes(self.hAcc)[1] && s[42] == le32_bytes(self.hAcc)[2] && s[43] == le32_bytes(self.hAcc)[3]);
        assert(s[44] == le32_bytes(self.vAcc)[0] && s[45] == le32_bytes(self.vAcc)[1] && s[46] == le32_bytes(self.vAcc)[2] && s[47] == le32_bytes(self.vAcc)[3]);
        assert(s[48] == sle32_bytes(self.velN)[0] && s[49] == sle32_bytes(self.velN)[1] && s[50] == sle32_bytes(self.velN)[2] && s[51] == sle32_bytes(self.velN)[3]);
        assert(s[52] == sle32_bytes(self.velE)[0] && s[53] == sle32_bytes(self.velE)[1] && s[54] == sle32_bytes(self.velE)[2] && s[55] == sle32_bytes(self.velE)[3]);
        assert(s[56] == sle32_bytes(self.velD)[0] && s[57] == sle32_bytes(self.velD)[1] && s[58] == sle32_bytes(self.velD)[2] && s[59] == sle32_bytes(self.velD)[3]);
        assert(s[60] == sle32_bytes(self.gSpeed)[0] && s[61] == sle32_bytes(self.gSpeed)[1] && s[62] == sle32_bytes(self.gSpeed)[2] && s[63] == sle32_bytes(self.gSpeed)[3]);
        assert(s[64] == sle32_bytes(self.headMot)[0] && s[65] == sle32_bytes(self.headMot)[1] && s[66] == sle32_bytes(self.headMot)[2] && s[67] == sle32_bytes(self.headMot)[3]);
        assert(s[68] == le32_bytes(self.sAcc)[0] && s[69] == le32_bytes(self.sAcc)[1] && s[70] == le32_bytes(self.sAcc)[2] && s[71] == le32_bytes(self.sAcc)[3]);
        assert(s[72] == le32_bytes(self.headAcc)[0] && s[73] == le32_bytes(self.headAcc)[1] && s[74] == le32_bytes(self.headAcc)[2] && s[75] == le32_bytes(self.headAcc)[3]);
        assert(s[76] == le16_bytes(self.pDOP)[0] && s[77] == le16_bytes(self.pDOP)[1]);
        assert(s[78] == self.flags3);
        assert(s[84] == sle32_bytes(self.headVeh)[0] && s[85] == sle32_bytes(self.headVeh)[1] && s[86] == sle32_bytes(self.headVeh)[2] && s[87] == sle32_bytes(self.headVeh)[3]);
        assert(s[88] == sle16_bytes(self.magDec)[0] && s[89] == sle16_bytes(self.magDec)[1]);
        assert(s[90] == le16_bytes(self.macAcc)[0] && s[91] == le16_bytes(self.macAcc)[1]);
        lemma_le32_roundtrip(self.TOW);
        lemma_le16_roundtrip(self.year);
        lemma_le32_roundtrip(self.tAcc);
        lemma_sle32_roundtrip(self.nano);
        lemma_sle32_roundtrip(self.lon);
        lemma_sle32_roundtrip(self.lat);
        lemma_sle32_roundtrip(self.height);
        lemma_sle32_roundtrip(self.hMSL);
        lemma_le32_roundtrip(self.hAcc);
        lemma_le32_roundtrip(self.vAcc);
        lemma_sle32_roundtrip(self.velN);
        lemma_sle32_roundtrip(self.velE);
        lemma_sle32_roundtrip(self.velD);
        lemma_sle32_roundtrip(self.gSpeed);
        lemma_sle32_roundtrip(self.headMot);
        lemma_le32_roundtrip(self.sAcc);
        lemma_le32_roundtrip(self.headAcc);
        lemma_le16_roundtrip(self.pDOP);
        lemma_sle32_roundtrip(self.headVeh);
        lemma_sle16_roundtrip(self.magDec);
        lemma_le16_roundtrip(self.macAcc);
    }

    #[verifier::rlimit(100)]
    fn serialize(&self, dst: &mut Vec<u8>) -> (r: Result<(), ()>) {
        write_u32_le(dst, self.TOW);
        write_u16_le(dst, self.year);
        dst.push(self.month);
        dst.push(self.day);
        dst.push(self.hour);
        dst.push(self.min);
        dst.push(self.sec);
        dst.push(self.valid.0);
        write_u32_le(dst, self.tAcc);
        write_i32_le(dst, self.nano);
        dst.push(self.fxType);
        dst.push(self.flags.0);
        dst.push(self.flags2.0);
        dst.push(self.numSV);
        proof {
            assert(dst@ =~= old(dst)@ + self.bytes_time());
        }
        write_i32_le(dst, self.lon);
        write_i32_le(dst, self.lat);
        write_i32_le(dst, self.height);
        write_i32_le(dst, self.hMSL);
        write_u32_le(dst, self.hAcc);
        write_u32_le(dst, self.vAcc);
        proof {
            assert(dst@ =~= old(dst)@ + self.bytes_time() + self.bytes_position());
        }
        write_i32_le(dst, self.velN);
        write_i32_le(dst, self.velE);
        write_i32_le(dst, self.velD);
        write_i32_le(dst, self.gSpeed);
        write_i32_le(dst, self.headMot);
        write_u32_le(dst, self.sAcc);
        write_u32_le(dst, self.headAcc);
        write_u16_le(dst, self.pDOP);
        proof {
            assert(dst@ =~= old(dst)@ + self.bytes_time() + self.bytes_position()
                + self.bytes_velocity());
        }
        dst.push(self.flags3);
        // reserved1
        dst.push(0);
        dst.push(0);
        dst.push(0);
        dst.push(0);
        dst.push(0);
        write_i32_le(dst, self.headVeh);
        write_i16_le(dst, self.magDec);
        write_u16_le(dst, self.macAcc);
        proof {
            assert(dst@ =~= old(dst)@ + self.bytes_time() + self.bytes_position()
                + self.bytes_velocity() + self.bytes_tail());
            assert(dst@ =~= old(dst)@ + self.spec_bytes());
        }
        Ok(())
    }

    fn deserialize(src: &[u8]) -> (r: Result<Pvt, ()>) {
        if src.len() < 92 {
            return Err(());
        }
        let TOW = read_u32_le(src, 0);
        let year = read_u16_le(src, 4);
        let month = src[6];
        let day = src[7];
        let hour = src[8];
        let min = src[9];
        let sec = src[10];
        let valid = Valid(src[11]);
        let tAcc = read_u32_le(src, 12);
        let nano = read_i32_le(src, 16);
        let fxType = src[20];
        let flags = Flags(src[21]);
        let flags2 = Flags2(src[22]);
        let numSV = src[23];
        let lon = read_i32_le(src, 24);
        let lat = read_i32_le(src, 28);
        let height = read_i32_le(src, 32);
        let hMSL = read_i32_le(src, 36);
        let hAcc = read_u32_le(src, 40);
        let vAcc = read_u32_le(src, 44);
        let velN = read_i32_le(src, 48);
        let velE = read_i32_le(src, 52);
        let velD = read_i32_le(src, 56);
        let gSpeed = read_i32_le(src, 60);
        let headMot = read_i32_le(src, 64);
        let sAcc = read_u32_le(src, 68);
        let headAcc = read_u32_le(src, 72);
        let pDOP = read_u16_le(src, 76);
        let flags3 = src[78];
        // reserved1: bytes 79 to 83 are skipped
        let headVeh = read_i32_le(src, 84);
        let magDec = read_i16_le(src, 88);
        let macAcc = read_u16_le(src, 90);
        Ok(
            Pvt {
                TOW,
                year,
                month,
                day,
                hour,
                min,
                sec,
                valid,
                tAcc,
                nano,
                fxType,
                flags,
                flags2,
                numSV,
                lon,
                lat,
                height,
                hMSL,
                hAcc,
                vAcc,
                velN,
                velE,
                velD,
                gSpeed,
                headMot,
                sAcc,
                headAcc,
                pDOP,
                flags3,
                headVeh,
                magDec,
                macAcc,
            },
        )
    }
}

} // verus!
