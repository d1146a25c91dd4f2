use ublox::framing::Frame;
use ublox::messages::ack::{Ack, AckNak, Nak};
use ublox::messages::cfg::prt::{I2cMode, InProtoMask, OutProtoMask, Prt, TxReady, UartMode};
use ublox::messages::cfg::{Cfg, SetMsgRates};
use ublox::messages::nav::{Nav, Pvt, TimeGps, Valid};
use ublox::messages::{Message, Msg};

#[test]
fn test_can_parse() {
    let bytes = [0x00, 0x01, 0x20, 0x00, 0x01, 0x01, 0x00, 0x00, 0x00];
    assert_eq!(
        SetMsgRates::deserialize(&bytes[1..]).unwrap(),
        SetMsgRates {
            class: 0x01,
            id: 0x20,
            ddc: 0x00,
            uart1: 0x01,
            usb: 0x01,
            spi: 0x00,
        }
    )
}

#[test]
fn test_can_encode() {
    let bytes = [0x01_u8, 0x20, 0x00, 0x01, 0x01, 0x00, 0x00, 0x00];
    let msg = SetMsgRates {
        class: 0x01,
        id: 0x20,
        ddc: 0x00,
        uart1: 0x01,
        usb: 0x01,
        spi: 0x00,
    };

    assert_eq!(msg, SetMsgRates::deserialize(&bytes[..]).unwrap());
}

#[test]
fn test_set_msg_rates_serialize() {
    let msg = SetMsgRates { class: 0x01, id: 0x20, ddc: 0x00, uart1: 0x01, usb: 0x01, spi: 0x00 };
    let mut out = Vec::new();
    msg.serialize(&mut out).unwrap();
    assert_eq!(out, vec![0x01, 0x20, 0x00, 0x01, 0x01, 0x00, 0x00, 0x00]);
}

#[test]
fn test_set_msg_rates_too_short() {
    let bytes = [0x01_u8, 0x20, 0x00, 0x01, 0x01, 0x00, 0x00];
    assert_eq!(SetMsgRates::deserialize(&bytes[..]), Err(()));
}

#[test]
fn test_ack_round_trip() {
    let ack = Ack { class: 0x06, id: 0x01 };
    let mut out = Vec::new();
    ack.serialize(&mut out).unwrap();
    assert_eq!(out, vec![0x06, 0x01]);
    assert_eq!(Ack::deserialize(&out).unwrap(), ack);
}

#[test]
fn test_nak_round_trip() {
    let nak = Nak { class: 0x06, id: 0x00 };
    let mut out = Vec::new();
    nak.serialize(&mut out).unwrap();
    assert_eq!(out, vec![0x06, 0x00]);
    assert_eq!(Nak::deserialize(&out).unwrap(), nak);
}

#[test]
fn test_timegps_round_trip() {
    let msg = TimeGps {
        iTOW: 123456789,
        fTOW: -250000,
        week: -3,
        leapS: -18,
        valid: 0x07,
        tAcc: 25,
    };
    let mut out = Vec::new();
    msg.serialize(&mut out).unwrap();
    assert_eq!(out.len(), 16);
    assert_eq!(TimeGps::deserialize(&out).unwrap(), msg);
}

#[test]
fn test_timegps_exact_bytes() {
    let msg = TimeGps { iTOW: 0x01020304, fTOW: -1, week: 0x0102, leapS: 18, valid: 0x03, tAcc: 5 };
    let mut out = Vec::new();
    msg.serialize(&mut out).unwrap();
    assert_eq!(
        out,
        vec![
            0x04, 0x03, 0x02, 0x01, // iTOW, little-endian
            0xff, 0xff, 0xff, 0xff, // fTOW = -1, two's complement
            0x02, 0x01, // week
            0x12, // leapS
            0x03, // valid
            0x05, 0x00, 0x00, 0x00, // tAcc
        ]
    );
}

#[test]
fn test_pvt_round_trip() {
    let msg = Pvt {
        TOW: 433200000,
        year: 2019,
        month: 10,
        day: 26,
        hour: 11,
        min: 52,
        sec: 0,
        valid: ublox::messages::nav::Valid(0x07),
        tAcc: 30,
        nano: -42,
        fxType: 3,
        flags: ublox::messages::nav::Flags(0x01),
        flags2: ublox::messages::nav::Flags2(0xe0),
        numSV: 9,
        lon: -122_39_41_00,
        lat: 37_46_29_00,
        height: 12345,
        hMSL: 11111,
        hAcc: 500,
        vAcc: 800,
        velN: -10,
        velE: 20,
        velD: -1,
        gSpeed: 22,
        headMot: -1800000,
        sAcc: 55,
        headAcc: 66,
        pDOP: 123,
        flags3: 0,
        headVeh: 0,
        magDec: -77,
        macAcc: 88,
    };
    let mut out = Vec::new();
    msg.serialize(&mut out).unwrap();
    assert_eq!(out.len(), 92);
    assert_eq!(Pvt::deserialize(&out).unwrap(), msg);
}

#[test]
fn test_pvt_valid_flags() {
    let valid = Valid(0b0000_1010);
    assert!(valid.validMag());
    assert!(!valid.fullyResolved());
    assert!(valid.validTime());
    assert!(!valid.validDate());
}

#[test]
fn test_pvt_flags_fields() {
    let flags = ublox::messages::nav::Flags(0b1010_0111);
    assert_eq!(flags.carrSoln(), 0b10);
    assert!(flags.headVehValid());
    assert_eq!(flags.psmState(), 0b001);
    assert!(flags.diffSoln());
    assert!(flags.gnssFixOK());
}

#[test]
fn test_prt_uart_round_trip() {
    let msg = Prt::Uart {
        tx_ready: TxReady(0),
        in_proto_mask: {
            let mut mask = InProtoMask(0);
            mask.set_in_ubx(true);
            mask
        },
        out_proto_mask: OutProtoMask(0),
        baud_rate: 9600,
        flags: ublox::messages::cfg::prt::Flags(0),
        mode: {
            let mut mode = UartMode(0);
            mode.set_n_stop_bits(0b00);
            mode.set_parity(0b100);
            mode.set_char_len(0b11);
            mode
        },
    };
    let mut out = Vec::new();
    msg.serialize(&mut out).unwrap();
    assert_eq!(out.len(), 20);
    assert_eq!(out[0], 1);
    assert_eq!(Prt::deserialize(&out).unwrap(), msg);
}

#[test]
fn test_prt_i2c_exact_bytes() {
    let msg = Prt::I2c {
        tx_ready: {
            let mut txr = TxReady(0);
            txr.set_thres(1);
            txr.set_pin(13);
            txr.set_en(true);
            txr
        },
        mode: {
            let mut mode = I2cMode(0);
            mode.set_slave_addr(0x42);
            mode
        },
        in_proto_mask: {
            let mut mask = InProtoMask(0);
            mask.set_in_ubx(true);
            mask
        },
        out_proto_mask: {
            let mut mask = OutProtoMask(0);
            mask.set_out_ubx(true);
            mask
        },
        flags: ublox::messages::cfg::prt::Flags(0),
    };
    let mut out = Vec::new();
    msg.serialize(&mut out).unwrap();
    assert_eq!(
        out,
        vec![
            0x00, 0x00, // I2C port, reserved
            0xb5, 0x00, // tx_ready: thres=1, pin=13, en
            0x84, 0x00, 0x00, 0x00, // mode: slave address 0x42 in bits 7 to 1
            0x00, 0x00, 0x00, 0x00, // reserved
            0x01, 0x00, // in: ubx only
            0x01, 0x00, // out: ubx only
            0x00, 0x00, // flags
            0x00, 0x00, // reserved
        ]
    );
    assert_eq!(Prt::deserialize(&out).unwrap(), msg);
}

#[test]
fn test_prt_unknown_port_rejected() {
    let mut bytes = vec![0u8; 20];
    bytes[0] = 2;
    assert_eq!(Prt::deserialize(&bytes), Err(()));
}

#[test]
fn test_txready_accessors() {
    let mut txr = TxReady(0);
    txr.set_thres(1);
    txr.set_pin(13);
    txr.set_pol(true);
    txr.set_en(true);
    assert_eq!(txr.0, 0x00b7);
    assert_eq!(txr.thres(), 1);
    assert_eq!(txr.pin(), 13);
    assert!(txr.pol());
    assert!(txr.en());
    txr.set_pol(false);
    assert!(!txr.pol());
    assert_eq!(txr.0, 0x00b5);
}

#[test]
fn test_uart_mode_accessors() {
    let mut mode = UartMode(0);
    mode.set_n_stop_bits(0b00);
    mode.set_parity(0b100);
    mode.set_char_len(0b11);
    assert_eq!(mode.0, 0x0000_08c0);
    assert_eq!(mode.n_stop_bits(), 0);
    assert_eq!(mode.parity(), 0b100);
    assert_eq!(mode.char_len(), 0b11);
}

#[test]
fn test_dispatch_ack() {
    let frame = Frame { class: 0x05, id: 0x01, message: vec![0x06, 0x01] };
    assert_eq!(
        Msg::from_frame(&frame).unwrap(),
        Msg::AckNak(AckNak::Ack(Ack { class: 0x06, id: 0x01 }))
    );
}

#[test]
fn test_dispatch_nak() {
    let frame = Frame { class: 0x05, id: 0x00, message: vec![0x06, 0x01] };
    assert_eq!(
        Msg::from_frame(&frame).unwrap(),
        Msg::AckNak(AckNak::Nak(Nak { class: 0x06, id: 0x01 }))
    );
}

#[test]
fn test_dispatch_cfg_rates() {
    let frame = Frame {
        class: 0x06,
        id: 0x01,
        message: vec![0x01, 0x20, 0x00, 0x01, 0x01, 0x00, 0x00, 0x00],
    };
    assert_eq!(
        Msg::from_frame(&frame).unwrap(),
        Msg::Cfg(Cfg::SetMsgRates(SetMsgRates {
            class: 0x01,
            id: 0x20,
            ddc: 0x00,
            uart1: 0x01,
            usb: 0x01,
            spi: 0x00,
        }))
    );
}

#[test]
fn test_dispatch_nav_timegps() {
    let mut payload = Vec::new();
    let msg = TimeGps { iTOW: 1000, fTOW: -5, week: 2048, leapS: 18, valid: 0x03, tAcc: 7 };
    msg.serialize(&mut payload).unwrap();
    let frame = Frame { class: 0x01, id: 0x20, message: payload };
    assert_eq!(Msg::from_frame(&frame).unwrap(), Msg::Nav(Nav::TimeGps(msg)));
}

#[test]
fn test_dispatch_unknown_class() {
    let frame = Frame { class: 0x0a, id: 0x01, message: vec![] };
    assert_eq!(Msg::from_frame(&frame), Err(()));
}

#[test]
fn test_dispatch_unknown_id_within_class() {
    let frame = Frame { class: 0x05, id: 0x07, message: vec![0x06, 0x01] };
    assert_eq!(Msg::from_frame(&frame), Err(()));
}

#[test]
fn test_exact_length_dispatch() {
    // Class and id match a registered type (UBX-ACK-ACK) but the
    // length does not equal that type's fixed length: unrecognized,
    // not a truncated or padded decode.
    let short = Frame { class: 0x05, id: 0x01, message: vec![0x06] };
    assert_eq!(Msg::from_frame(&short), Err(()));
    let long = Frame { class: 0x05, id: 0x01, message: vec![0x06, 0x01, 0x00] };
    assert_eq!(Msg::from_frame(&long), Err(()));

    // The same bytes with the exact length decode.
    let exact = Frame { class: 0x05, id: 0x01, message: vec![0x06, 0x01] };
    assert!(Msg::from_frame(&exact).is_ok());
}

#[test]
fn test_exact_length_dispatch_nav() {
    // UBX-NAV-PVT's class and id with a 16-byte payload must not be
    // decoded as UBX-NAV-TIMEGPS or a truncated PVT.
    let frame = Frame { class: 0x01, id: 0x07, message: vec![0u8; 16] };
    assert_eq!(Msg::from_frame(&frame), Err(()));
    let ok = Frame { class: 0x01, id: 0x07, message: vec![0u8; 92] };
    assert!(Msg::from_frame(&ok).is_ok());
}
