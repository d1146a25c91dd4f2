use ublox::framing::{deframe, frame, Checksum, Deframer, Frame, FrameError};
use ublox::messages::cfg::SetMsgRates;
use ublox::messages::Message;

#[test]
fn framing_test_deframe() {
    let msg = [0xb5, 0x62, 0x05, 0x01, 0x01, 0x00, 0x06, 0x0d, 0x26];
    let mut deframer = Deframer::new();
    let mut res = None;
    for b in msg.as_ref() {
        res = deframer.push(*b).unwrap();
    }
    assert!(res.is_some());
}

#[test]
fn deframer_test_deframe() {
    let msg = [0xb5, 0x62, 0x05, 0x01, 0x01, 0x00, 0x06, 0x0d, 0x26];
    let mut deframer = Deframer::new();
    let mut res = None;
    for b in msg.as_ref() {
        res = deframer.push(*b).unwrap();
    }
    assert!(res.is_some());
}

#[test]
fn test_concrete_vector() {
    // Sync, class=0x05, id=0x01, length=1, payload=[0x06],
    // checksum=[0x0D,0x26]: exactly one completed frame, on the final
    // byte only.
    let msg = [0xb5, 0x62, 0x05, 0x01, 0x01, 0x00, 0x06, 0x0d, 0x26];
    let mut deframer = Deframer::new();
    for b in &msg[..msg.len() - 1] {
        assert_eq!(deframer.push(*b).unwrap(), None);
    }
    let frame = deframer.push(msg[msg.len() - 1]).unwrap().unwrap();
    assert_eq!(frame.class, 0x05);
    assert_eq!(frame.id, 0x01);
    assert_eq!(frame.message, vec![0x06]);
}

#[test]
fn test_checksum_incremental() {
    let bytes = [0x05, 0x01, 0x01, 0x00, 0x06];
    let mut cksum = Checksum::new();
    for b in &bytes {
        assert_eq!(cksum.push(*b), *b);
    }
    assert_eq!(cksum.take(), (0x0d, 0x26));
}

#[test]
fn test_checksum_take_resets() {
    let bytes = [1, 2, 3, 4];
    let mut cksum = Checksum::new();
    for b in &bytes {
        cksum.push(*b);
    }
    let (ck_a, ck_b) = cksum.take();
    assert_eq!((ck_a, ck_b), (10, 20));
    // Calling take again returns (0, 0) since no more bytes were
    // pushed.
    assert_eq!((0, 0), cksum.take());
}

#[test]
fn test_checksum_with_seeds_first_byte() {
    let mut a = Checksum::new();
    a.push(0x42);
    let mut b = Checksum::with(0x42);
    assert_eq!(a.take(), b.take());
}

#[test]
fn test_into_framed_vec() {
    let frm = Frame { class: 0x05, id: 0x01, message: vec![0x06] };
    assert_eq!(
        frm.into_framed_vec(),
        vec![0xb5, 0x62, 0x05, 0x01, 0x01, 0x00, 0x06, 0x0d, 0x26]
    );
}

#[test]
fn test_into_framed_vec_poll_request() {
    // The kind of poll-rate request a transport loop sends on start-up.
    let frm = Frame { class: 6, id: 1, message: vec![0x01, 0x07, 1] };
    assert_eq!(
        frm.into_framed_vec(),
        vec![0xb5, 0x62, 0x06, 0x01, 0x03, 0x00, 0x01, 0x07, 0x01, 0x13, 0x51]
    );
}

#[test]
fn test_round_trip_encode_then_deframe() {
    let payload: Vec<u8> = (0u8..=255).collect();
    let frm = Frame { class: 0x02, id: 0x13, message: payload.clone() };
    let wire = frm.into_framed_vec();
    let mut deframer = Deframer::new();
    let mut got = None;
    for (i, b) in wire.iter().enumerate() {
        let res = deframer.push(*b).unwrap();
        if i < wire.len() - 1 {
            assert!(res.is_none());
        } else {
            got = res;
        }
    }
    let out = got.expect("the final byte completes the frame");
    assert_eq!(out.class, 0x02);
    assert_eq!(out.id, 0x13);
    assert_eq!(out.message, payload);
}

#[test]
fn test_round_trip_deframe_then_encode() {
    let wire = vec![0xb5, 0x62, 0x05, 0x01, 0x01, 0x00, 0x06, 0x0d, 0x26];
    let frame = deframe(&wire).unwrap().unwrap();
    assert_eq!(frame.into_framed_vec(), wire);
}

#[test]
fn test_round_trip_empty_payload() {
    let frm = Frame { class: 0x06, id: 0x01, message: vec![] };
    let wire = frm.into_framed_vec();
    assert_eq!(wire, vec![0xb5, 0x62, 0x06, 0x01, 0x00, 0x00, 0x07, 0x1b]);
    let out = deframe(&wire).unwrap().unwrap();
    assert_eq!(out.class, 0x06);
    assert_eq!(out.id, 0x01);
    assert_eq!(out.message, Vec::<u8>::new());
}

#[test]
fn test_resync_after_noise() {
    // An arbitrary run of non-sync bytes followed by a valid message
    // produces exactly one frame and no error.
    let mut stream: Vec<u8> = vec![0x00, 0xff, 0x62, 0xb5, 0xb5, 0x13, 0x62, 0x9a];
    stream.extend_from_slice(&[0xb5, 0x62, 0x05, 0x01, 0x01, 0x00, 0x06, 0x0d, 0x26]);
    let mut deframer = Deframer::new();
    let mut frames = 0;
    for (i, b) in stream.iter().enumerate() {
        let res = deframer.push(*b);
        assert!(res.is_ok());
        if let Some(frame) = res.unwrap() {
            assert_eq!(i, stream.len() - 1);
            assert_eq!(frame.class, 0x05);
            assert_eq!(frame.id, 0x01);
            assert_eq!(frame.message, vec![0x06]);
            frames += 1;
        }
    }
    assert_eq!(frames, 1);
}

#[test]
fn test_checksum_rejection() {
    // The final checksum byte is flipped: a checksum error on the last
    // byte, no frame, and the deframer is immediately ready for the
    // next message with no reset call.
    let bad = [0xb5, 0x62, 0x05, 0x01, 0x01, 0x00, 0x06, 0x0d, 0x27];
    let mut deframer = Deframer::new();
    for b in &bad[..bad.len() - 1] {
        assert_eq!(deframer.push(*b).unwrap(), None);
    }
    assert_eq!(deframer.push(bad[bad.len() - 1]), Err(FrameError::Checksum));

    let good = [0xb5, 0x62, 0x05, 0x01, 0x01, 0x00, 0x06, 0x0d, 0x26];
    let mut res = None;
    for b in &good {
        res = deframer.push(*b).unwrap();
    }
    assert!(res.is_some());
}

#[test]
fn test_first_checksum_byte_rejection() {
    // A corrupted first checksum byte is rejected immediately, one
    // byte earlier than the end of the frame.
    let bad = [0xb5, 0x62, 0x05, 0x01, 0x01, 0x00, 0x06, 0x0e];
    let mut deframer = Deframer::new();
    for b in &bad[..bad.len() - 1] {
        assert_eq!(deframer.push(*b).unwrap(), None);
    }
    assert_eq!(deframer.push(bad[bad.len() - 1]), Err(FrameError::Checksum));
}

#[test]
fn test_oversized_length_dropped_silently() {
    // A declared length beyond the ceiling (here 0x0400 = 1024) is
    // neither buffered nor reported; scanning resumes and a following
    // valid message still parses.
    let mut stream: Vec<u8> = vec![0xb5, 0x62, 0x05, 0x01, 0x00, 0x04];
    stream.extend_from_slice(&[0xb5, 0x62, 0x05, 0x01, 0x01, 0x00, 0x06, 0x0d, 0x26]);
    let mut deframer = Deframer::new();
    let mut frames = 0;
    for b in &stream {
        let res = deframer.push(*b);
        assert!(res.is_ok());
        if res.unwrap().is_some() {
            frames += 1;
        }
    }
    assert_eq!(frames, 1);
}

#[test]
fn test_deframe_one_shot() {
    let mut stream: Vec<u8> = vec![0x17, 0x2a];
    stream.extend_from_slice(&[0xb5, 0x62, 0x05, 0x01, 0x01, 0x00, 0x06, 0x0d, 0x26]);
    let frame = deframe(&stream).unwrap().unwrap();
    assert_eq!(frame.class, 0x05);
    assert_eq!(frame.id, 0x01);
    assert_eq!(frame.message, vec![0x06]);

    assert_eq!(deframe(&[0x01, 0x02, 0x03]).unwrap(), None);
}

#[test]
fn test_frame_to_buffer() {
    let msg = SetMsgRates { class: 0x01, id: 0x20, ddc: 0x00, uart1: 0x01, usb: 0x01, spi: 0x00 };
    let mut buf = [0u8; 32];
    let n = frame(&msg, &mut buf).unwrap();
    assert_eq!(n, 16);
    assert_eq!(
        &buf[..n],
        &[
            0xb5, 0x62, 0x06, 0x01, 0x08, 0x00, 0x01, 0x20, 0x00, 0x01, 0x01, 0x00, 0x00, 0x00,
            0x32, 0x94,
        ]
    );
    // Bytes past the encoded frame are untouched.
    assert!(buf[n..].iter().all(|b| *b == 0));
}

#[test]
fn test_frame_to_small_buffer() {
    let msg = SetMsgRates { class: 0x01, id: 0x20, ddc: 0x00, uart1: 0x01, usb: 0x01, spi: 0x00 };
    let mut buf = [0u8; 15];
    assert_eq!(frame(&msg, &mut buf), Err(()));
    assert!(buf.iter().all(|b| *b == 0));
}

#[test]
fn test_framed_message_deframes_to_same_rates() {
    let msg = SetMsgRates { class: 0xf0, id: 0x00, ddc: 0x00, uart1: 0x01, usb: 0x00, spi: 0x00 };
    let mut buf = [0u8; 16];
    let n = frame(&msg, &mut buf).unwrap();
    let out = deframe(&buf[..n]).unwrap().unwrap();
    assert_eq!(out.class, 0x06);
    assert_eq!(out.id, 0x01);
    assert_eq!(SetMsgRates::deserialize(&out.message).unwrap(), msg);
}

#[test]
fn test_largest_payload_accepted() {
    // A payload of exactly the ceiling length still round trips.
    let frm = Frame { class: 0x02, id: 0x13, message: vec![0xaa; ublox::framing::MAX_LEN] };
    let wire = frm.into_framed_vec();
    let out = deframe(&wire).unwrap().unwrap();
    assert_eq!(out.message.len(), ublox::framing::MAX_LEN);
}

#[test]
fn test_length_just_over_ceiling_dropped() {
    // A declared length of exactly one past the ceiling (1000 =
    // 0x03E8) is abandoned silently; a following message still parses.
    let mut stream: Vec<u8> = vec![0xb5, 0x62, 0x02, 0x13, 0xe8, 0x03];
    stream.extend_from_slice(&[0xb5, 0x62, 0x05, 0x01, 0x01, 0x00, 0x06, 0x0d, 0x26]);
    let mut deframer = Deframer::new();
    let mut frames = 0;
    for b in &stream {
        let res = deframer.push(*b);
        assert!(res.is_ok());
        if res.unwrap().is_some() {
            frames += 1;
        }
    }
    assert_eq!(frames, 1);
}
