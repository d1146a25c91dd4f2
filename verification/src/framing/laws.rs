//! Proved properties of the framing engine: what feeding whole byte
//! sequences to the deframer model produces.

use crate::framing::checksum::{
    checksum_of, ck_fold, ck_step, lemma_ck_fold_append, lemma_ck_fold_cons,
};
use crate::framing::deframer::{first_frame, DeframerModel, PushOut, MAX_LEN, SYNCWORD};
use crate::framing::frame::{body_bytes, frame_bytes, SYNC_1, SYNC_2};
use vstd::prelude::*;

verus! {

/// The state of the deframer model after consuming `bytes` from `s`,
/// one byte at a time.
pub open spec fn run_state(s: DeframerModel, bytes: Seq<u8>) -> DeframerModel
    decreases bytes.len(),
{
    if bytes.len() == 0 {
        s
    } else {
        run_state(s.step(bytes[0]).0, bytes.skip(1))
    }
}

/// The outcome the deframer model reports for each consumed byte, in
/// arrival order.
pub open spec fn run_outs(s: DeframerModel, bytes: Seq<u8>) -> Seq<PushOut>
    decreases bytes.len(),
{
    if bytes.len() == 0 {
        Seq::empty()
    } else {
        seq![s.step(bytes[0]).1] + run_outs(s.step(bytes[0]).0, bytes.skip(1))
    }
}

/// Every outcome in `outs` is `Pending`: no frame and no error.
pub open spec fn all_pending(outs: Seq<PushOut>) -> bool {
    forall|j: int| 0 <= j < outs.len() ==> outs[j] == PushOut::Pending
}

/// `noise` nowhere contains the two sync bytes adjacently.
pub open spec fn no_sync_pair(noise: Seq<u8>) -> bool {
    forall|j: int|
        0 <= j < noise.len() - 1 ==> !(#[trigger] noise[j] == SYNC_1 && noise[j + 1] == SYNC_2)
}

/// Resynchronization policy: after any terminal outcome — a completed
/// frame or a checksum failure — the machine is unconditionally back
/// in its initial scanning state, with no reset call needed.
pub proof fn lemma_terminal_resets(s: DeframerModel, input: u8)
    ensures
        !(s.step(input).1 is Pending) ==> s.step(input).0 == DeframerModel::init(),
{
}

/// Consuming nothing changes nothing.
proof fn lemma_run_nil(s: DeframerModel)
    ensures
        run_state(s, Seq::empty()) == s,
        run_outs(s, Seq::empty()) == Seq::<PushOut>::empty(),
{
}

/// Consuming a non-empty sequence takes one step and then consumes
/// the rest.
proof fn lemma_run_cons(s: DeframerModel, bytes: Seq<u8>)
    requires
        bytes.len() > 0,
    ensures
        run_state(s, bytes) == run_state(s.step(bytes[0]).0, bytes.skip(1)),
        run_outs(s, bytes) == seq![s.step(bytes[0]).1] + run_outs(s.step(bytes[0]).0, bytes.skip(1)),
{
}

/// Consuming a single byte is a single step.
proof fn lemma_run_one(s: DeframerModel, b: u8)
    ensures
        run_state(s, seq![b]) == s.step(b).0,
        run_outs(s, seq![b]) == seq![s.step(b).1],
{
    assert(seq![b][0] == b);
    assert(seq![b].skip(1) =~= Seq::<u8>::empty());
    lemma_run_cons(s, seq![b]);
    lemma_run_nil(s.step(b).0);
    assert(run_outs(s, seq![b]) =~= seq![s.step(b).1]);
}

/// Consuming a concatenation consumes the two halves in turn.
pub proof fn lemma_run_append(s: DeframerModel, a: Seq<u8>, b: Seq<u8>)
    ensures
        run_state(s, a + b) == run_state(run_state(s, a), b),
        run_outs(s, a + b) == run_outs(s, a) + run_outs(run_state(s, a), b),
    decreases a.len(),
{
    if a.len() == 0 {
        assert(a + b =~= b);
        lemma_run_nil(s);
        assert(run_outs(s, a) + run_outs(run_state(s, a), b) =~= run_outs(s, b));
    } else {
        let s2 = s.step(a[0]).0;
        assert((a + b)[0] == a[0]);
        assert((a + b).skip(1) =~= a.skip(1) + b);
        lemma_run_cons(s, a + b);
        lemma_run_cons(s, a);
        lemma_run_append(s2, a.skip(1), b);
        assert(run_outs(s, a + b) =~= run_outs(s, a) + run_outs(run_state(s, a), b));
    }
}

/// From any scanning state, the two sync bytes and nothing else move
/// the machine to the `Class` state.
proof fn lemma_sync_word(accum: u16)
    ensures
        run_state(DeframerModel::Sync { accum }, seq![SYNC_1, SYNC_2]) == DeframerModel::Class,
        run_outs(DeframerModel::Sync { accum }, seq![SYNC_1, SYNC_2]) == seq![
            PushOut::Pending,
            PushOut::Pending,
        ],
{
    let s0 = DeframerModel::Sync { accum };
    let bytes = seq![SYNC_1, SYNC_2];
    assert(bytes[0] == SYNC_1);
    assert(bytes.skip(1) =~= seq![SYNC_2]);
    let acc1 = (accum << 8) | (SYNC_1 as u16);
    assert(((accum << 8) | (0xB5u8 as u16)) != 0xB562u16) by (bit_vector);
    assert(s0.step(SYNC_1).0 == (DeframerModel::Sync { accum: acc1 }));
    let s1 = DeframerModel::Sync { accum: acc1 };
    assert(((((accum << 8) | (0xB5u8 as u16)) << 8) | (0x62u8 as u16)) == 0xB562u16)
        by (bit_vector);
    assert(s1.step(SYNC_2).0 == DeframerModel::Class);
    lemma_run_cons(s0, bytes);
    lemma_run_one(s1, SYNC_2);
    assert(run_outs(s0, bytes) =~= seq![PushOut::Pending, PushOut::Pending]);
}

/// While no adjacent pair of bytes forms the sync word, a scanning
/// deframer absorbs everything and keeps scanning.
proof fn lemma_noise_steps(accum: u16, noise: Seq<u8>)
    requires
        no_sync_pair(noise),
        noise.len() > 0 ==> !((accum & 0xFF) == 0xB5 && noise[0] == 0x62),
    ensures
        exists|a: u16| run_state(DeframerModel::Sync { accum }, noise) == (DeframerModel::Sync {
            accum: a,
        }),
        run_outs(DeframerModel::Sync { accum }, noise).len() == noise.len(),
        all_pending(run_outs(DeframerModel::Sync { accum }, noise)),
    decreases noise.len(),
{
    let s0 = DeframerModel::Sync { accum };
    if noise.len() == 0 {
        lemma_run_nil(s0);
        assert(run_state(s0, noise) == (DeframerModel::Sync { accum }));
    } else {
        let b = noise[0];
        let acc2 = (accum << 8) | (b as u16);
        assert((((accum << 8) | (b as u16)) == 0xB562u16) == ((accum & 0xFF) == 0xB5 && b == 0x62))
            by (bit_vector);
        assert(acc2 != SYNCWORD);
        assert(s0.step(b).0 == (DeframerModel::Sync { accum: acc2 }));
        assert(s0.step(b).1 == PushOut::Pending);
        assert((((accum << 8) | (b as u16)) & 0xFF) == (b as u16)) by (bit_vector);
        let rest = noise.skip(1);
        assert(forall|j: int|
            0 <= j < rest.len() - 1 ==> #[trigger] rest[j] == noise[j + 1] && rest[j + 1]
                == noise[j + 2]);
        assert(no_sync_pair(rest));
        if rest.len() > 0 {
            assert(rest[0] == noise[1]);
            assert(!(noise[0] == SYNC_1 && noise[1] == SYNC_2));
            if (acc2 & 0xFF) == 0xB5 && rest[0] == 0x62 {
                assert((b as u16) == 0xB5);
                assert(false);
            }
        }
        lemma_noise_steps(acc2, rest);
        lemma_run_cons(s0, noise);
        assert(all_pending(run_outs(s0, noise)));
    }
}

/// From the `Class` state, the four header bytes carrying `class`,
/// `id` and the little-endian length of `payload` lead to collecting
/// the payload (or directly to the checksum when it is empty), with
/// the running checksum covering exactly those four bytes.
proof fn lemma_header(class: u8, id: u8, payload: Seq<u8>)
    requires
        payload.len() <= MAX_LEN,
    ensures
        ({
            let l0 = (payload.len() % 256) as u8;
            let l1 = ((payload.len() / 256) % 256) as u8;
            let hdr = seq![class, id, l0, l1];
            let ckh = ck_fold((0u8, 0u8), hdr);
            &&& payload.len() == 0 ==> run_state(DeframerModel::Class, hdr)
                == (DeframerModel::CkA { class, id, message: Seq::empty(), ck: ckh })
            &&& payload.len() > 0 ==> run_state(DeframerModel::Class, hdr)
                == (DeframerModel::Message {
                class,
                id,
                len: payload.len() as usize,
                message: Seq::empty(),
                ck: ckh,
            })
            &&& run_outs(DeframerModel::Class, hdr).len() == 4
            &&& all_pending(run_outs(DeframerModel::Class, hdr))
        }),
{
    let n = payload.len();
    let l0 = (n % 256) as u8;
    let l1 = ((n / 256) % 256) as u8;
    let hdr = seq![class, id, l0, l1];
    assert(hdr.skip(1) =~= seq![id, l0, l1]);
    assert(seq![id, l0, l1].skip(1) =~= seq![l0, l1]);
    assert(seq![l0, l1].skip(1) =~= seq![l1]);
    let ck1 = ck_step((0u8, 0u8), class);
    let ck2 = ck_step(ck1, id);
    let ck3 = ck_step(ck2, l0);
    let ck4 = ck_step(ck3, l1);
    assert(hdr[0] == class && seq![id, l0, l1][0] == id && seq![l0, l1][0] == l0 && seq![l1][0]
        == l1);
    assert(seq![l1].skip(1) =~= Seq::<u8>::empty());
    lemma_ck_fold_cons((0u8, 0u8), hdr);
    lemma_ck_fold_cons(ck1, seq![id, l0, l1]);
    lemma_ck_fold_cons(ck2, seq![l0, l1]);
    lemma_ck_fold_cons(ck3, seq![l1]);
    assert(ck_fold((0u8, 0u8), hdr) == ck_fold(ck1, seq![id, l0, l1]));
    assert(ck_fold(ck1, seq![id, l0, l1]) == ck_fold(ck2, seq![l0, l1]));
    assert(ck_fold(ck2, seq![l0, l1]) == ck_fold(ck3, seq![l1]));
    assert(ck_fold(ck3, seq![l1]) == ck4);
    // The declared length decodes back to the payload's length.
    assert((n as int) == 256 * ((n as int) / 256) + ((n as int) % 256)) by {
        vstd::arithmetic::div_mod::lemma_fundamental_div_mod(n as int, 256);
    }
    assert((n as int) / 256 < 256);
    assert((l1 as int) * 256 + l0 == n);
    let s1 = DeframerModel::Id { class, ck: ck1 };
    let s2 = DeframerModel::LengthLsb { class, id, ck: ck2 };
    let s3 = DeframerModel::LengthMsb { class, id, len_b0: l0, ck: ck3 };
    lemma_run_cons(DeframerModel::Class, hdr);
    lemma_run_cons(s1, seq![id, l0, l1]);
    lemma_run_cons(s2, seq![l0, l1]);
    lemma_run_one(s3, l1);
    assert(DeframerModel::Class.step(class).0 == s1);
    assert(s1.step(id).0 == s2);
    assert(s2.step(l0).0 == s3);
    if n == 0 {
        assert(s3.step(l1).0 == (DeframerModel::CkA {
            class,
            id,
            message: Seq::empty(),
            ck: ck4,
        }));
    } else {
        assert(s3.step(l1).0 == (DeframerModel::Message {
            class,
            id,
            len: n as usize,
            message: Seq::empty(),
            ck: ck4,
        }));
    }
    assert(run_outs(DeframerModel::Class, hdr) =~= seq![
        PushOut::Pending,
        PushOut::Pending,
        PushOut::Pending,
        PushOut::Pending,
    ]);
}

/// Collecting the remaining payload bytes fills the buffer and then
/// moves to checking the first checksum byte.
proof fn lemma_payload(class: u8, id: u8, len: usize, got: Seq<u8>, rest: Seq<u8>, ck: (u8, u8))
    requires
        got.len() + rest.len() == len,
        rest.len() > 0,
    ensures
        run_state(DeframerModel::Message { class, id, len, message: got, ck }, rest)
            == (DeframerModel::CkA { class, id, message: got + rest, ck: ck_fold(ck, rest) }),
        run_outs(DeframerModel::Message { class, id, len, message: got, ck }, rest).len()
            == rest.len(),
        all_pending(run_outs(DeframerModel::Message { class, id, len, message: got, ck }, rest)),
    decreases rest.len(),
{
    let s = DeframerModel::Message { class, id, len, message: got, ck };
    let b = rest[0];
    let m2 = got.push(b);
    let ck2 = ck_step(ck, b);
    lemma_run_cons(s, rest);
    assert(ck_fold(ck, rest) == ck_fold(ck2, rest.skip(1)));
    if rest.len() == 1 {
        assert(m2.len() == len);
        assert(s.step(b).0 == (DeframerModel::CkA { class, id, message: m2, ck: ck2 }));
        assert(rest.skip(1) =~= Seq::<u8>::empty());
        assert(m2 =~= got + rest);
        lemma_run_nil(s.step(b).0);
        assert(ck_fold(ck2, Seq::empty()) == ck2);
        assert(run_outs(s, rest) =~= seq![PushOut::Pending]);
    } else {
        assert(m2.len() < len);
        let s2 = DeframerModel::Message { class, id, len, message: m2, ck: ck2 };
        assert(s.step(b).0 == s2);
        lemma_payload(class, id, len, m2, rest.skip(1), ck2);
        assert(m2 + rest.skip(1) =~= got + rest);
        assert(all_pending(run_outs(s, rest)));
    }
}

/// From any scanning state, everything of a well-formed frame up to
/// (but not including) its two checksum bytes is absorbed without
/// output, leaving the machine holding the full payload and the
/// frame's computed checksum.
proof fn lemma_to_cka(accum: u16, class: u8, id: u8, payload: Seq<u8>)
    requires
        payload.len() <= MAX_LEN,
    ensures
        ({
            let body = body_bytes(class, id, payload);
            let prefix = seq![SYNC_1, SYNC_2] + body;
            &&& run_state(DeframerModel::Sync { accum }, prefix) == (DeframerModel::CkA {
                class,
                id,
                message: payload,
                ck: checksum_of(body),
            })
            &&& run_outs(DeframerModel::Sync { accum }, prefix).len() == prefix.len()
            &&& all_pending(run_outs(DeframerModel::Sync { accum }, prefix))
        }),
{
    let s0 = DeframerModel::Sync { accum };
    let n = payload.len();
    let l0 = (n % 256) as u8;
    let l1 = ((n / 256) % 256) as u8;
    let hdr = seq![class, id, l0, l1];
    let body = body_bytes(class, id, payload);
    let sync = seq![SYNC_1, SYNC_2];
    let prefix = sync + body;
    assert(body =~= hdr + payload);
    let ckh = ck_fold((0u8, 0u8), hdr);

    lemma_sync_word(accum);
    lemma_header(class, id, payload);
    lemma_ck_fold_append((0u8, 0u8), hdr, payload);
    assert(checksum_of(body) == ck_fold(ckh, payload));

    if n == 0 {
        assert(prefix =~= sync + hdr);
        lemma_run_append(s0, sync, hdr);
        assert(payload =~= Seq::<u8>::empty());
        assert(ck_fold(ckh, payload) == ckh);
        assert(run_state(s0, prefix) == (DeframerModel::CkA {
            class,
            id,
            message: payload,
            ck: checksum_of(body),
        }));
        assert(all_pending(run_outs(s0, prefix)));
    } else {
        let s_msg = DeframerModel::Message {
            class,
            id,
            len: n as usize,
            message: Seq::empty(),
            ck: ckh,
        };
        lemma_payload(class, id, n as usize, Seq::empty(), payload, ckh);
        assert(Seq::<u8>::empty() + payload =~= payload);
        assert(prefix =~= sync + (hdr + payload));
        lemma_run_append(s0, sync, hdr + payload);
        lemma_run_append(DeframerModel::Class, hdr, payload);
        assert(run_state(s0, prefix) == run_state(DeframerModel::Class, hdr + payload));
        assert(run_state(DeframerModel::Class, hdr + payload) == run_state(s_msg, payload));
        assert(run_state(s_msg, payload) == (DeframerModel::CkA {
            class,
            id,
            message: payload,
            ck: checksum_of(body),
        }));
        assert(all_pending(run_outs(s0, prefix)));
    }
}

/// Feeding a complete well-formed frame to a scanning deframer yields
/// no output and no error on every byte but the last, exactly one
/// completed frame carrying the encoded triple on the last byte, and
/// leaves the machine back in its initial state.
pub proof fn lemma_frame_outcomes(accum: u16, class: u8, id: u8, payload: Seq<u8>)
    requires
        payload.len() <= MAX_LEN,
    ensures
        ({
            let s0 = DeframerModel::Sync { accum };
            let bytes = frame_bytes(class, id, payload);
            let outs = run_outs(s0, bytes);
            &&& bytes.len() == payload.len() + 8
            &&& run_state(s0, bytes) == DeframerModel::init()
            &&& outs.len() == bytes.len()
            &&& (forall|j: int| 0 <= j < outs.len() - 1 ==> outs[j] == PushOut::Pending)
            &&& outs.last() == (PushOut::Complete { class, id, message: payload })
        }),
{
    let s0 = DeframerModel::Sync { accum };
    let body = body_bytes(class, id, payload);
    let ck = checksum_of(body);
    let prefix = seq![SYNC_1, SYNC_2] + body;
    let trailer = seq![ck.0, ck.1];
    let bytes = frame_bytes(class, id, payload);
    assert(bytes =~= prefix + trailer);

    lemma_to_cka(accum, class, id, payload);
    let s_cka = DeframerModel::CkA { class, id, message: payload, ck };
    let s_ckb = DeframerModel::CkB { class, id, message: payload, ck };
    assert(trailer[0] == ck.0);
    assert(trailer.skip(1) =~= seq![ck.1]);
    assert(s_cka.step(ck.0).0 == s_ckb && s_cka.step(ck.0).1 == PushOut::Pending);
    assert(s_ckb.step(ck.1) == (DeframerModel::init(), PushOut::Complete {
        class,
        id,
        message: payload,
    }));
    lemma_run_cons(s_cka, trailer);
    lemma_run_one(s_ckb, ck.1);
    assert(run_state(s_cka, trailer) == DeframerModel::init());
    assert(run_outs(s_cka, trailer) =~= seq![
        PushOut::Pending,
        PushOut::Complete { class, id, message: payload },
    ]);

    lemma_run_append(s0, prefix, trailer);
    let outs = run_outs(s0, bytes);
    assert(outs =~= run_outs(s0, prefix) + run_outs(s_cka, trailer));
    assert(outs.last() == (PushOut::Complete { class, id, message: payload }));
    assert(forall|j: int| 0 <= j < outs.len() - 1 ==> outs[j] == PushOut::Pending);
}

/// When every outcome but the last is `Pending` and the last completes
/// a frame, that frame is the first (and only) one the batch scan
/// finds.
proof fn lemma_first_frame_from_outs(s: DeframerModel, bytes: Seq<u8>)
    requires
        bytes.len() > 0,
        run_outs(s, bytes).len() == bytes.len(),
        forall|j: int|
            0 <= j < run_outs(s, bytes).len() - 1 ==> run_outs(s, bytes)[j] == PushOut::Pending,
        run_outs(s, bytes).last() is Complete,
    ensures
        first_frame(s, bytes) == Some(run_outs(s, bytes).last()),
    decreases bytes.len(),
{
    let s2 = s.step(bytes[0]).0;
    let out = s.step(bytes[0]).1;
    let outs = run_outs(s, bytes);
    lemma_run_cons(s, bytes);
    assert(outs[0] == out);
    if bytes.len() == 1 {
        assert(out == outs.last());
        assert(out is Complete);
    } else {
        assert(out == PushOut::Pending);
        let rest = bytes.skip(1);
        assert(run_outs(s2, rest) =~= outs.skip(1));
        assert(forall|j: int|
            0 <= j < outs.skip(1).len() - 1 ==> outs.skip(1)[j] == PushOut::Pending);
        assert(outs.skip(1).last() == outs.last());
        lemma_first_frame_from_outs(s2, rest);
    }
}

/// Round trip: deframing the encoding of any class/id/payload triple
/// (with the payload within capacity) completes exactly that triple
/// on the final byte, and the completed frame re-encodes to the
/// original bytes, byte for byte.
pub proof fn lemma_round_trip(class: u8, id: u8, payload: Seq<u8>)
    requires
        payload.len() <= MAX_LEN,
    ensures
        ({
            let bytes = frame_bytes(class, id, payload);
            let outs = run_outs(DeframerModel::init(), bytes);
            &&& outs.len() == bytes.len()
            &&& (forall|j: int| 0 <= j < outs.len() - 1 ==> outs[j] == PushOut::Pending)
            &&& outs.last() == (PushOut::Complete { class, id, message: payload })
            &&& first_frame(DeframerModel::init(), bytes) == Some(
                PushOut::Complete { class, id, message: payload },
            )
            &&& frame_bytes(class, id, payload) == bytes
        }),
{
    lemma_frame_outcomes(0, class, id, payload);
    let bytes = frame_bytes(class, id, payload);
    lemma_first_frame_from_outs(DeframerModel::init(), bytes);
}

/// Resynchronization: an arbitrary run of bytes that nowhere contains
/// the sync word, followed by a well-formed frame, produces no output
/// and no error for every byte but the last, and exactly one
/// completed frame on the last byte.
pub proof fn lemma_resync_after_noise(noise: Seq<u8>, class: u8, id: u8, payload: Seq<u8>)
    requires
        no_sync_pair(noise),
        payload.len() <= MAX_LEN,
    ensures
        ({
            let bytes = noise + frame_bytes(class, id, payload);
            let outs = run_outs(DeframerModel::init(), bytes);
            &&& run_state(DeframerModel::init(), bytes) == DeframerModel::init()
            &&& outs.len() == bytes.len()
            &&& (forall|j: int| 0 <= j < outs.len() - 1 ==> outs[j] == PushOut::Pending)
            &&& outs.last() == (PushOut::Complete { class, id, message: payload })
        }),
{
    let s0 = DeframerModel::init();
    let fb = frame_bytes(class, id, payload);
    let bytes = noise + fb;
    assert((0u16 & 0xFF) != 0xB5) by (bit_vector);
    lemma_noise_steps(0, noise);
    let s1 = run_state(s0, noise);
    let a1 = choose|a: u16| s1 == (DeframerModel::Sync { accum: a });
    lemma_frame_outcomes(a1, class, id, payload);
    lemma_run_append(s0, noise, fb);
    let outs = run_outs(s0, bytes);
    assert(outs == run_outs(s0, noise) + run_outs(s1, fb));
    assert(outs.last() == run_outs(s1, fb).last());
    assert(forall|j: int| 0 <= j < outs.len() - 1 ==> outs[j] == PushOut::Pending);
}

/// Checksum rejection: a well-formed frame whose final checksum byte
/// was corrupted yields a checksum error on that last byte, nothing
/// before, and leaves the machine in its initial state, immediately
/// ready to parse the next message.
pub proof fn lemma_checksum_rejected(class: u8, id: u8, payload: Seq<u8>, bad: u8)
    requires
        payload.len() <= MAX_LEN,
        bad != checksum_of(body_bytes(class, id, payload)).1,
    ensures
        ({
            let good = frame_bytes(class, id, payload);
            let bytes = good.update(good.len() - 1, bad);
            let outs = run_outs(DeframerModel::init(), bytes);
            &&& run_state(DeframerModel::init(), bytes) == DeframerModel::init()
            &&& outs.len() == bytes.len()
            &&& (forall|j: int| 0 <= j < outs.len() - 1 ==> outs[j] == PushOut::Pending)
            &&& outs.last() == PushOut::BadChecksum
        }),
{
    let s0 = DeframerModel::init();
    let body = body_bytes(class, id, payload);
    let ck = checksum_of(body);
    let prefix = seq![SYNC_1, SYNC_2] + body;
    let good = frame_bytes(class, id, payload);
    let bytes = good.update(good.len() - 1, bad);
    assert(bytes =~= (prefix + seq![ck.0]) + seq![bad]);

    lemma_to_cka(0, class, id, payload);
    let s_cka = DeframerModel::CkA { class, id, message: payload, ck };
    let s_ckb = DeframerModel::CkB { class, id, message: payload, ck };
    assert(s_cka.step(ck.0) == (s_ckb, PushOut::Pending));
    lemma_run_one(s_cka, ck.0);
    lemma_run_append(s0, prefix, seq![ck.0]);
    assert(run_state(s0, prefix + seq![ck.0]) == s_ckb);

    assert(s_ckb.step(bad) == (DeframerModel::init(), PushOut::BadChecksum));
    lemma_run_one(s_ckb, bad);
    lemma_run_append(s0, prefix + seq![ck.0], seq![bad]);

    let outs = run_outs(s0, bytes);
    assert(outs == (run_outs(s0, prefix) + seq![PushOut::Pending]) + seq![PushOut::BadChecksum]);
    assert(outs.last() == PushOut::BadChecksum);
    assert(forall|j: int| 0 <= j < outs.len() - 1 ==> outs[j] == PushOut::Pending);
}

} // verus!
