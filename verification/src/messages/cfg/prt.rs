//! Port configuration messages.

use crate::messages::primitive::{
    le16, le16_bytes, le32, le32_bytes, lemma_le16_roundtrip, lemma_le32_roundtrip, read_u16_le,
    read_u32_le, write_u16_le, write_u32_le, U4, X2, X4,
};
use crate::messages::Message;
use vstd::prelude::*;

verus! {

/// Port configuration.
#[derive(Clone, Debug, Eq, PartialEq)]
pub enum Prt {
    /// Port configuration for UART ports
    ///
    /// Note that this message can affect baud rate and other
    /// transmission parameters. Because there may be messages queued
    /// for transmission there may be uncertainty about which protocol
    /// applies to such messages. In addition a message currently in
    /// transmission may be corrupted by a protocol change. Host data
    /// reception parameters may have to be changed to be able to
    /// receive future messages, including the acknowledge message
    /// resulting from the CFG-PRT message.
    Uart {
        /// TX ready PIN configuration.
        tx_ready: TxReady,
        /// A bit mask describing the UART mode.
        mode: UartMode,
        /// Baud rate in bits/second.
        baud_rate: U4,
        /// A mask describing which input protocols are active.
        ///
        /// Each bit of this mask is used for a protocol. Through
        /// that, multiple protocols can be defined on a single port.
        in_proto_mask: InProtoMask,
        /// A mask describing which output protocols are active.
        ///
        /// Each bit of this mask is used for a protocol. Through that,
        /// multiple protocols can be defined on a single port.
        out_proto_mask: OutProtoMask,
        /// Flags bit mask
        flags: Flags,
    },
    /// Port configuration for I2C (DDC) port.
    I2c {
        /// TX ready PIN configuration.
        tx_ready: TxReady,
        /// I2C (DDC) Mode Flags
        mode: I2cMode,
        /// A mask describing which input protocols are active.
        ///
        /// Each bit of this mask is used for a protocol. Through
        /// that, multiple protocols can be defined on a single port.
        in_proto_mask: InProtoMask,
        /// A mask describing which output protocols are active.
        ///
        /// Each bit of this mask is used for a protocol. Through that,
        /// multiple protocols can be defined on a single port.
        out_proto_mask: OutProtoMask,
        /// Flags bit mask
        flags: Flags,
    },
    /// Port configuration for SPI port.
    Spi {
        /// TX ready PIN configuration.
        tx_ready: TxReady,
        /// SPI Mode Flags
        mode: SpiMode,
        /// A mask describing which input protocols are active.
        ///
        /// Each bit of this mask is used for a protocol. Through
        /// that, multiple protocols can be defined on a single port.
        in_proto_mask: InProtoMask,
        /// A mask describing which output protocols are active.
        ///
        /// Each bit of this mask is used for a protocol. Through that,
        /// multiple protocols can be defined on a single port.
        out_proto_mask: OutProtoMask,
        /// Flags bit mask
        flags: Flags,
    },
}

impl Prt {
    /// Port identifier byte of the I2C (DDC) port.
    pub const I2C_PORT: u8 = 0;

    /// Port identifier byte of UART port 1.
    pub const UART_PORT: u8 = 1;

    /// Port identifier byte of the SPI port.
    pub const SPI_PORT: u8 = 4;
}

impl Message for Prt {
    const CLASS: u8 = 0x06;

    const ID: u8 = 0x00;

    const LEN: usize = 20;

    open spec fn spec_bytes(&self) -> Seq<u8> {
        match *self {
            Prt::Uart { tx_ready, mode, baud_rate, in_proto_mask, out_proto_mask, flags } => seq![
                Prt::UART_PORT,
                0u8,
            ] + le16_bytes(tx_ready.0) + le32_bytes(mode.0) + le32_bytes(baud_rate) + le16_bytes(
                in_proto_mask.0,
            ) + le16_bytes(out_proto_mask.0) + le16_bytes(flags.0) + seq![0u8, 0u8],
            Prt::I2c { tx_ready, mode, in_proto_mask, out_proto_mask, flags } => seq![
                Prt::I2C_PORT,
                0u8,
            ] + le16_bytes(tx_ready.0) + le32_bytes(mode.0) + seq![0u8, 0u8, 0u8, 0u8]
                + le16_bytes(in_proto_mask.0) + le16_bytes(out_proto_mask.0) + le16_bytes(flags.0)
                + seq![0u8, 0u8],
            Prt::Spi { tx_ready, mode, in_proto_mask, out_proto_mask, flags } => seq![
                Prt::SPI_PORT,
                0u8,
            ] + le16_bytes(tx_ready.0) + le32_bytes(mode.0) + seq![0u8, 0u8, 0u8, 0u8]
                + le16_bytes(in_proto_mask.0) + le16_bytes(out_proto_mask.0) + le16_bytes(flags.0)
                + seq![0u8, 0u8],
        }
    }

    open spec fn spec_deserialize(s: Seq<u8>) -> Result<Prt, ()> {
        if s.len() < Prt::LEN {
            Err(())
        } else if s[0] == Prt::UART_PORT {
            Ok(
                Prt::Uart {
                    tx_ready: TxReady(le16(s[2], s[3])),
                    mode: UartMode(le32(s[4], s[5], s[6], s[7])),
                    baud_rate: le32(s[8], s[9], s[10], s[11]),
                    in_proto_mask: InProtoMask(le16(s[12], s[13])),
                    out_proto_mask: OutProtoMask(le16(s[14], s[15])),
                    flags: Flags(le16(s[16], s[17])),
                },
            )
        } else if s[0] == Prt::I2C_PORT {
            Ok(
                Prt::I2c {
                    tx_ready: TxReady(le16(s[2], s[3])),
                    mode: I2cMode(le32(s[4], s[5], s[6], s[7])),
                    in_proto_mask: InProtoMask(le16(s[12], s[13])),
                    out_proto_mask: OutProtoMask(le16(s[14], s[15])),
                    flags: Flags(le16(s[16], s[17])),
                },
            )
        } else if s[0] == Prt::SPI_PORT {
            Ok(
                Prt::Spi {
                    tx_ready: TxReady(le16(s[2], s[3])),
                    mode: SpiMode(le32(s[4], s[5], s[6], s[7])),
                    in_proto_mask: InProtoMask(le16(s[12], s[13])),
                    out_proto_mask: OutProtoMask(le16(s[14], s[15])),
                    flags: Flags(le16(s[16], s[17])),
                },
            )
        } else {
            Err(())
        }
    }

    proof fn lemma_bytes_len(&self) {
    }

    #[verifier::rlimit(50)]
    proof fn lemma_deserialize_bytes(&self) {
        let s = self.spec_bytes();
        match *self {
            Prt::Uart { tx_ready, mode, baud_rate, in_proto_mask, out_proto_mask, flags } => {
                assert(s[0] == Prt::UART_PORT);
                assert(s[2] == le16_bytes(tx_ready.0)[0] && s[3] == le16_bytes(tx_ready.0)[1]);
                assert(s[4] == le32_bytes(mode.0)[0] && s[5] == le32_bytes(mode.0)[1] && s[6]
                    == le32_bytes(mode.0)[2] && s[7] == le32_bytes(mode.0)[3]);
                assert(s[8] == le32_bytes(baud_rate)[0] && s[9] == le32_bytes(baud_rate)[1] && s[10]
                    == le32_bytes(baud_rate)[2] && s[11] == le32_bytes(baud_rate)[3]);
                assert(s[12] == le16_bytes(in_proto_mask.0)[0] && s[13] == le16_bytes(
                    in_proto_mask.0,
                )[1]);
                assert(s[14] == le16_bytes(out_proto_mask.0)[0] && s[15] == le16_bytes(
                    out_proto_mask.0,
                )[1]);
                assert(s[16] == le16_bytes(flags.0)[0] && s[17] == le16_bytes(flags.0)[1]);
                lemma_le16_roundtrip(tx_ready.0);
                lemma_le32_roundtrip(mode.0);
                lemma_le32_roundtrip(baud_rate);
                lemma_le16_roundtrip(in_proto_mask.0);
                lemma_le16_roundtrip(out_proto_mask.0);
                lemma_le16_roundtrip(flags.0);
            },
            Prt::I2c { tx_ready, mode, in_proto_mask, out_proto_mask, flags } => {
                assert(s[0] == Prt::I2C_PORT);
                assert(s[2] == le16_bytes(tx_ready.0)[0] && s[3] == le16_bytes(tx_ready.0)[1]);
                assert(s[4] == le32_bytes(mode.0)[0] && s[5] == le32_bytes(mode.0)[1] && s[6]
                    == le32_bytes(mode.0)[2] && s[7] == le32_bytes(mode.0)[3]);
                assert(s[12] == le16_bytes(in_proto_mask.0)[0] && s[13] == le16_bytes(
                    in_proto_mask.0,
                )[1]);
                assert(s[14] == le16_bytes(out_proto_mask.0)[0] && s[15] == le16_bytes(
                    out_proto_mask.0,
                )[1]);
                assert(s[16] == le16_bytes(flags.0)[0] && s[17] == le16_bytes(flags.0)[1]);
                lemma_le16_roundtrip(tx_ready.0);
                lemma_le32_roundtrip(mode.0);
                lemma_le16_roundtrip(in_proto_mask.0);
                lemma_le16_roundtrip(out_proto_mask.0);
                lemma_le16_roundtrip(flags.0);
            },
            Prt::Spi { tx_ready, mode, in_proto_mask, out_proto_mask, flags } => {
                assert(s[0] == Prt::SPI_PORT);
                assert(s[2] == le16_bytes(tx_ready.0)[0] && s[3] == le16_bytes(tx_ready.0)[1]);
                assert(s[4] == le32_bytes(mode.0)[0] && s[5] == le32_bytes(mode.0)[1] && s[6]
                    == le32_bytes(mode.0)[2] && s[7] == le32_bytes(mode.0)[3]);
                assert(s[12] == le16_bytes(in_proto_mask.0)[0] && s[13] == le16_bytes(
                    in_proto_mask.0,
                )[1]);
                assert(s[14] == le16_bytes(out_proto_mask.0)[0] && s[15] == le16_bytes(
                    out_proto_mask.0,
                )[1]);
                assert(s[16] == le16_bytes(flags.0)[0] && s[17] == le16_bytes(flags.0)[1]);
                lemma_le16_roundtrip(tx_ready.0);
                lemma_le32_roundtrip(mode.0);
                lemma_le16_roundtrip(in_proto_mask.0);
                lemma_le16_roundtrip(out_proto_mask.0);
                lemma_le16_roundtrip(flags.0);
            },
        }
    }

    fn serialize(&self, dst: &mut Vec<u8>) -> (r: Result<(), ()>) {
        match self {
            Prt::Uart { tx_ready, mode, baud_rate, in_proto_mask, out_proto_mask, flags } => {
                dst.push(Self::UART_PORT);
                // reserved 1
                dst.push(0);
                write_u16_le(dst, tx_ready.0);
                write_u32_le(dst, mode.0);
                write_u32_le(dst, *baud_rate);
                write_u16_le(dst, in_proto_mask.0);
                write_u16_le(dst, out_proto_mask.0);
                write_u16_le(dst, flags.0);
                // reserved 2
                dst.push(0);
                dst.push(0);
                proof {
                    assert(dst@ =~= old(dst)@ + self.spec_bytes());
                }
            },
            Prt::I2c { tx_ready, mode, in_proto_mask, out_proto_mask, flags } => {
                dst.push(Self::I2C_PORT);
                // reserved 1
                dst.push(0);
                write_u16_le(dst, tx_ready.0);
                write_u32_le(dst, mode.0);
                // reserved 2
                write_u32_le(dst, 0);
                write_u16_le(dst, in_proto_mask.0);
                write_u16_le(dst, out_proto_mask.0);
                write_u16_le(dst, flags.0);
                // reserved 3
                dst.push(0);
                dst.push(0);
                proof {
                    assert(le32_bytes(0u32) =~= seq![0u8, 0u8, 0u8, 0u8]);
                    assert(dst@ =~= old(dst)@ + self.spec_bytes());
                }
            },
            Prt::Spi { tx_ready, mode, in_proto_mask, out_proto_mask, flags } => {
                dst.push(Self::SPI_PORT);
                // reserved 1
                dst.push(0);
                write_u16_le(dst, tx_ready.0);
                write_u32_le(dst, mode.0);
                // reserved 2
                write_u32_le(dst, 0);
                write_u16_le(dst, in_proto_mask.0);
                write_u16_le(dst, out_proto_mask.0);
                write_u16_le(dst, flags.0);
                // reserved 3
                dst.push(0);
                dst.push(0);
                proof {
                    assert(le32_bytes(0u32) =~= seq![0u8, 0u8, 0u8, 0u8]);
                    assert(dst@ =~= old(dst)@ + self.spec_bytes());
                }
            },
        }
        Ok(())
    }

    fn deserialize(src: &[u8]) -> (r: Result<Prt, ()>) {
        if src.len() < 20 {
            return Err(());
        }
        let port = src[0];
        let tx_ready = TxReady(read_u16_le(src, 2));
        let mode_raw = read_u32_le(src, 4);
        let in_proto_mask = InProtoMask(read_u16_le(src, 12));
        let out_proto_mask = OutProtoMask(read_u16_le(src, 14));
        let flags = Flags(read_u16_le(src, 16));
        if port == Self::UART_PORT {
            let baud_rate = read_u32_le(src, 8);
            Ok(
                Prt::Uart {
                    tx_ready,
                    mode: UartMode(mode_raw),
                    baud_rate,
                    in_proto_mask,
                    out_proto_mask,
                    flags,
                },
            )
        } else if port == Self::I2C_PORT {
            Ok(Prt::I2c { tx_ready, mode: I2cMode(mode_raw), in_proto_mask, out_proto_mask, flags })
        } else if port == Self::SPI_PORT {
            Ok(Prt::Spi { tx_ready, mode: SpiMode(mode_raw), in_proto_mask, out_proto_mask, flags })
        } else {
            Err(())
        }
    }
}

/// TX ready pin configuration.
#[derive(Clone, Copy, Debug, Eq, PartialEq)]
pub struct TxReady(pub X2);

impl TxReady {
    /// Threshold
    ///
    /// The given threshold is multiplied by 8 bytes.
    ///
    /// The TX ready PIN goes active after >= thres*8 bytes are
    /// pending for the port and going inactive after the last pending
    /// bytes have been written to hardware (0-4 bytes before end of
    /// stream).
    ///
    /// - 0x000 no threshold
    /// - 0x001 8byte
    /// - 0x002 16byte
    /// - ...
    /// - 0x1FE 4080byte
    /// - 0x1FF 4088byte
    pub fn thres(&self) -> (r: X2)
        ensures
            r == ((self.0 >> 7) & 0x1FF),
    {
        (self.0 >> 7) & 0x1FF
    }

    /// Sets the threshold: bits 15 to 7.
    pub fn set_thres(&mut self, value: X2)
        ensures
            final(self).0 == ((old(self).0 & 0x007F) | ((value << 7) & 0xFF80)),
    {
        self.0 = (self.0 & 0x007F) | ((value << 7) & 0xFF80);
    }

    /// PIO to be used (must not be in use by another function)
    pub fn pin(&self) -> (r: X2)
        ensures
            r == ((self.0 >> 2) & 0x1F),
    {
        (self.0 >> 2) & 0x1F
    }

    /// Sets the PIO: bits 6 to 2.
    pub fn set_pin(&mut self, value: X2)
        ensures
            final(self).0 == ((old(self).0 & 0xFF83) | ((value << 2) & 0x007C)),
    {
        self.0 = (self.0 & 0xFF83) | ((value << 2) & 0x007C);
    }

    /// Polarity
    ///
    /// - 0 High-active
    /// - 1 Low-active
    pub fn pol(&self) -> (r: bool)
        ensures
            r == (((self.0 >> 1) & 1) == 1),
    {
        ((self.0 >> 1) & 1) == 1
    }

    /// Sets the polarity: bit 1.
    pub fn set_pol(&mut self, value: bool)
        ensures
            final(self).0 == (if value {
                old(self).0 | 0x0002
            } else {
                old(self).0 & 0xFFFD
            }),
    {
        if value {
            self.0 = self.0 | 0x0002;
        } else {
            self.0 = self.0 & 0xFFFD;
        }
    }

    /// Enable TX ready feature for this port
    pub fn en(&self) -> (r: bool)
        ensures
            r == ((self.0 & 1) == 1),
    {
        (self.0 & 1) == 1
    }

    /// Enables or disables the TX ready feature: bit 0.
    pub fn set_en(&mut self, value: bool)
        ensures
            final(self).0 == (if value {
                old(self).0 | 0x0001
            } else {
                old(self).0 & 0xFFFE
            }),
    {
        if value {
            self.0 = self.0 | 0x0001;
        } else {
            self.0 = self.0 & 0xFFFE;
        }
    }
}

/// Bitfield `mode` for uart port configuration.
#[derive(Clone, Copy, Debug, Eq, PartialEq)]
pub struct UartMode(pub X4);

impl UartMode {
    /// Number of Stop bits
    ///
    /// - 00 1 Stop bit
    /// - 01 1.5 Stop bit
    /// - 10 2 Stop bit
    /// - 11 0.5 Stop bit
    pub fn n_stop_bits(&self) -> (r: X4)
        ensures
            r == ((self.0 >> 12) & 0x3),
    {
        (self.0 >> 12) & 0x3
    }

    /// Sets the number of stop bits: bits 13 to 12.
    pub fn set_n_stop_bits(&mut self, value: X4)
        ensures
            final(self).0 == ((old(self).0 & 0xFFFF_CFFF) | ((value << 12) & 0x0000_3000)),
    {
        self.0 = (self.0 & 0xFFFF_CFFF) | ((value << 12) & 0x0000_3000);
    }

    /// Parity
    ///
    /// - 000 Even parity
    /// - 001 Odd parity
    /// - 10X No parity
    /// - X1X Reserved
    pub fn parity(&self) -> (r: X4)
        ensures
            r == ((self.0 >> 9) & 0x7),
    {
        (self.0 >> 9) & 0x7
    }

    /// Sets the parity mode: bits 11 to 9.
    pub fn set_parity(&mut self, value: X4)
        ensures
            final(self).0 == ((old(self).0 & 0xFFFF_F1FF) | ((value << 9) & 0x0000_0E00)),
    {
        self.0 = (self.0 & 0xFFFF_F1FF) | ((value << 9) & 0x0000_0E00);
    }

    /// Character length
    ///
    /// - 00 5bit (not supported)
    /// - 01 6bit (not supported)
    /// - 10 7bit (supported only with parity)
    /// - 11 8bit
    pub fn char_len(&self) -> (r: X4)
        ensures
            r == ((self.0 >> 6) & 0x3),
    {
        (self.0 >> 6) & 0x3
    }

    /// Sets the character length: bits 7 to 6.
    pub fn set_char_len(&mut self, value: X4)
        ensures
            final(self).0 == ((old(self).0 & 0xFFFF_FF3F) | ((value << 6) & 0x0000_00C0)),
    {
        self.0 = (self.0 & 0xFFFF_FF3F) | ((value << 6) & 0x0000_00C0);
    }
}

/// Bitfield `mode` for i2c port configuration.
#[derive(Clone, Copy, Debug, Eq, PartialEq)]
pub struct I2cMode(pub X4);

impl I2cMode {
    /// Slave addr.
    pub fn slave_addr(&self) -> (r: u8)
        ensures
            r == (((self.0 >> 1) & 0x7F) as u8),
    {
        ((self.0 >> 1) & 0x7F) as u8
    }

    /// Sets the slave address: bits 7 to 1.
    pub fn set_slave_addr(&mut self, value: u8)
        ensures
            final(self).0 == ((old(self).0 & 0xFFFF_FF01) | (((value as X4) << 1) & 0x0000_00FE)),
    {
        self.0 = (self.0 & 0xFFFF_FF01) | (((value as X4) << 1) & 0x0000_00FE);
    }
}

/// Bitfield `mode` for spi port configuration.
#[derive(Clone, Copy, Debug, Eq, PartialEq)]
pub struct SpiMode(pub X4);

impl SpiMode {
    /// Number of bytes containing 0xFF to receive before switching off reception.
    ///
    /// Range: 0 (mechanism off) - 63
    pub fn ff_cnt(&self) -> (r: u8)
        ensures
            r == (((self.0 >> 8) & 0x3F) as u8),
    {
        ((self.0 >> 8) & 0x3F) as u8
    }

    /// Sets the 0xFF count: bits 13 to 8.
    pub fn set_ff_cnt(&mut self, value: u8)
        ensures
            final(self).0 == ((old(self).0 & 0xFFFF_C0FF) | (((value as X4) << 8) & 0x0000_3F00)),
    {
        self.0 = (self.0 & 0xFFFF_C0FF) | (((value as X4) << 8) & 0x0000_3F00);
    }

    /// Phase.
    ///
    /// - 00 SPI Mode 0: CPOL = 0, CPHA = 0
    /// - 01 SPI Mode 1: CPOL = 0, CPHA = 1
    /// - 10 SPI Mode 2: CPOL = 1, CPHA = 0
    /// - 11 SPI Mode 3: CPOL = 1, CPHA = 1
    pub fn spi_mode(&self) -> (r: u8)
        ensures
            r == (((self.0 >> 1) & 0x3) as u8),
    {
        ((self.0 >> 1) & 0x3) as u8
    }

    /// Sets the phase: bits 2 to 1.
    pub fn set_spi_mode(&mut self, value: u8)
        ensures
            final(self).0 == ((old(self).0 & 0xFFFF_FFF9) | (((value as X4) << 1) & 0x0000_0006)),
    {
        self.0 = (self.0 & 0xFFFF_FFF9) | (((value as X4) << 1) & 0x0000_0006);
    }
}

/// A mask describing which input protocols are active.
#[derive(Clone, Copy, Debug, Eq, PartialEq)]
pub struct InProtoMask(pub X2);

impl InProtoMask {
    /// RTCM3 protocol (not supported in protocol versions less than 20)
    pub fn in_rtcm3(&self) -> (r: bool)
        ensures
            r == (((self.0 >> 5) & 1) == 1),
    {
        ((self.0 >> 5) & 1) == 1
    }

    /// Enables or disables the RTCM3 protocol: bit 5.
    pub fn set_in_rtcm3(&mut self, value: bool)
        ensures
            final(self).0 == (if value {
                old(self).0 | 0x0020
            } else {
                old(self).0 & 0xFFDF
            }),
    {
        if value {
            self.0 = self.0 | 0x0020;
        } else {
            self.0 = self.0 & 0xFFDF;
        }
    }

    /// RTCM2 protocol
    pub fn in_rtcm(&self) -> (r: bool)
        ensures
            r == (((self.0 >> 2) & 1) == 1),
    {
        ((self.0 >> 2) & 1) == 1
    }

    /// Enables or disables the RTCM2 protocol: bit 2.
    pub fn set_in_rtcm(&mut self, value: bool)
        ensures
            final(self).0 == (if value {
                old(self).0 | 0x0004
            } else {
                old(self).0 & 0xFFFB
            }),
    {
        if value {
            self.0 = self.0 | 0x0004;
        } else {
            self.0 = self.0 & 0xFFFB;
        }
    }

    /// NMEA protocol
    pub fn in_nmea(&self) -> (r: bool)
        ensures
            r == (((self.0 >> 1) & 1) == 1),
    {
        ((self.0 >> 1) & 1) == 1
    }

    /// Enables or disables the NMEA protocol: bit 1.
    pub fn set_in_nmea(&mut self, value: bool)
        ensures
            final(self).0 == (if value {
                old(self).0 | 0x0002
            } else {
                old(self).0 & 0xFFFD
            }),
    {
        if value {
            self.0 = self.0 | 0x0002;
        } else {
            self.0 = self.0 & 0xFFFD;
        }
    }

    /// UBX protocol
    pub fn in_ubx(&self) -> (r: bool)
        ensures
            r == ((self.0 & 1) == 1),
    {
        (self.0 & 1) == 1
    }

    /// Enables or disables the UBX protocol: bit 0.
    pub fn set_in_ubx(&mut self, value: bool)
        ensures
            final(self).0 == (if value {
                old(self).0 | 0x0001
            } else {
                old(self).0 & 0xFFFE
            }),
    {
        if value {
            self.0 = self.0 | 0x0001;
        } else {
            self.0 = self.0 & 0xFFFE;
        }
    }
}

/// A mask describing which output protocols are active.
#[derive(Clone, Copy, Debug, Eq, PartialEq)]
pub struct OutProtoMask(pub X2);

impl OutProtoMask {
    /// RTCM3 protocol (not supported in protocol versions less than 20)
    pub fn out_rtcm3(&self) -> (r: bool)
        ensures
            r == (((self.0 >> 5) & 1) == 1),
    {
        ((self.0 >> 5) & 1) == 1
    }

    /// Enables or disables the RTCM3 protocol: bit 5.
    pub fn set_out_rtcm3(&mut self, value: bool)
        ensures
            final(self).0 == (if value {
                old(self).0 | 0x0020
            } else {
                old(self).0 & 0xFFDF
            }),
    {
        if value {
            self.0 = self.0 | 0x0020;
        } else {
            self.0 = self.0 & 0xFFDF;
        }
    }

    /// NMEA protocol
    pub fn out_nmea(&self) -> (r: bool)
        ensures
            r == (((self.0 >> 1) & 1) == 1),
    {
        ((self.0 >> 1) & 1) == 1
    }

    /// Enables or disables the NMEA protocol: bit 1.
    pub fn set_out_nmea(&mut self, value: bool)
        ensures
            final(self).0 == (if value {
                old(self).0 | 0x0002
            } else {
                old(self).0 & 0xFFFD
            }),
    {
        if value {
            self.0 = self.0 | 0x0002;
        } else {
            self.0 = self.0 & 0xFFFD;
        }
    }

    /// UBX protocol
    pub fn out_ubx(&self) -> (r: bool)
        ensures
            r == ((self.0 & 1) == 1),
    {
        (self.0 & 1) == 1
    }

    /// Enables or disables the UBX protocol: bit 0.
    pub fn set_out_ubx(&mut self, value: bool)
        ensures
            final(self).0 == (if value {
                old(self).0 | 0x0001
            } else {
                old(self).0 & 0xFFFE
            }),
    {
        if value {
            self.0 = self.0 | 0x0001;
        } else {
            self.0 = self.0 & 0xFFFE;
        }
    }
}

/// Flags bit mask for port configuration.
#[derive(Clone, Copy, Debug, Eq, PartialEq)]
pub struct Flags(pub X2);

impl Flags {
    /// Extended TX timeout
    ///
    /// If set, the port will time out if allocated TX memory >=4 kB
    /// and no activity for 1.5 s. If not set the port will time out
    /// if no activity for 1.5 s regardless on the amount of allocated
    /// TX memory.
    pub fn extended_tx_timeout(&self) -> (r: bool)
        ensures
            r == (((self.0 >> 1) & 1) == 1),
    {
        ((self.0 >> 1) & 1) == 1
    }

    /// Enables or disables the extended TX timeout: bit 1.
    pub fn set_extended_tx_timeout(&mut self, value: bool)
        ensures
            final(self).0 == (if value {
                old(self).0 | 0x0002
            } else {
                old(self).0 & 0xFFFD
            }),
    {
        if value {
            self.0 = self.0 | 0x0002;
        } else {
            self.0 = self.0 & 0xFFFD;
        }
    }
}

} // verus!
