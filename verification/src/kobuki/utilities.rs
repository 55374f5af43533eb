//! Checksum and framing of the drive-base serial protocol.

use vstd::prelude::*;

verus! {

/// Exclusive-or of all bytes of `s`.
pub open spec fn xor_fold(s: Seq<u8>) -> u8
    decreases s.len(),
{
    if s.len() == 0 {
        0u8
    } else {
        xor_fold(s.drop_last()) ^ s.last()
    }
}

/// The checksum of a frame buffer: the exclusive-or of every byte after the
/// two sync bytes. A buffer of at most two bytes has checksum zero.
pub open spec fn spec_checksum(buf: Seq<u8>) -> u8 {
    if buf.len() <= 2 {
        0u8
    } else {
        xor_fold(buf.skip(2))
    }
}

/// Computes the running exclusive-or over `buf`, skipping the two leading
/// sync bytes.
pub fn checksum(buf: &[u8]) -> (cs: u8)
    ensures
        cs == spec_checksum(buf@),
{
    let mut cs: u8 = 0;
    let mut i: usize = 2;
    while i < buf.len()
        invariant
            2 <= i,
            i <= buf.len() || buf.len() < 2,
            buf.len() >= 2 ==> cs == xor_fold(buf@.subrange(2, i as int)),
            buf.len() < 2 ==> cs == 0,
        decreases buf.len() - i,
    {
        proof {
            let next = buf@.subrange(2, i + 1);
            assert(next.drop_last() =~= buf@.subrange(2, i as int));
            assert(next.last() == buf@[i as int]);
        }
        cs = cs ^ buf[i];
        i += 1;
    }
    proof {
        if buf.len() > 2 {
            assert(buf@.subrange(2, i as int) =~= buf@.skip(2));
        } else if buf.len() == 2 {
            assert(buf@.subrange(2, 2).len() == 0);
        }
    }
    cs
}


/// First sync byte of every frame.
pub const SYNC_0: u8 = 0xAA;

/// Second sync byte of every frame.
pub const SYNC_1: u8 = 0x55;

/// Bytes that a frame adds to its payload: two sync bytes, the length byte
/// and the checksum byte.
pub const FRAME_OVERHEAD: usize = 4;

/// The head of the frame around `payload`: sync bytes, length byte, payload.
pub open spec fn frame_head(payload: Seq<u8>) -> Seq<u8>
    recommends
        payload.len() <= 255,
{
    seq![SYNC_0, SYNC_1, payload.len() as u8] + payload
}

/// The frame around `payload`: its head followed by the checksum of the head.
pub open spec fn frame_of(payload: Seq<u8>) -> Seq<u8>
    recommends
        payload.len() <= 255,
{
    frame_head(payload).push(spec_checksum(frame_head(payload)))
}

/// Whether the last byte of `frame` is the checksum of the bytes before it.
pub open spec fn checksum_matches(frame: Seq<u8>) -> bool {
    frame.len() >= 1 && frame.last() == spec_checksum(frame.drop_last())
}

/// Whether `frame` is a complete frame: sync bytes, a length byte that
/// agrees with the number of payload bytes, and a matching checksum.
pub open spec fn valid_frame(frame: Seq<u8>) -> bool {
    &&& frame.len() >= FRAME_OVERHEAD
    &&& frame[0] == SYNC_0
    &&& frame[1] == SYNC_1
    &&& frame[2] as int + FRAME_OVERHEAD == frame.len()
    &&& checksum_matches(frame)
}

/// The payload that a complete frame carries.
pub open spec fn frame_payload(frame: Seq<u8>) -> Seq<u8>
    recommends
        valid_frame(frame),
{
    frame.subrange(3, frame.len() - 1)
}

/// Builds the frame around `payload`.
pub fn frame(payload: &[u8]) -> (out: Vec<u8>)
    requires
        payload.len() <= 255,
    ensures
        out@ == frame_of(payload@),
        out.len() == payload.len() + FRAME_OVERHEAD,
        valid_frame(out@),
        frame_payload(out@) == payload@,
{
    proof {
        lemma_frame_round_trip(payload@);
    }
    let mut out: Vec<u8> = Vec::new();
    out.push(SYNC_0);
    out.push(SYNC_1);
    out.push(payload.len() as u8);
    out.extend_from_slice(payload);
    assert(out@ =~= frame_head(payload@));
    let cs = checksum(out.as_slice());
    out.push(cs);
    out
}

/// Says whether `frame` is a complete frame with a matching checksum.
pub fn is_valid_frame(frame: &[u8]) -> (ok: bool)
    ensures
        ok == valid_frame(frame@),
{
    let n = frame.len();
    if n < FRAME_OVERHEAD {
        return false;
    }
    if frame[0] != SYNC_0 || frame[1] != SYNC_1 || frame[2] as usize + FRAME_OVERHEAD != n {
        return false;
    }
    let head = vstd::slice::slice_subrange(frame, 0, n - 1);
    assert(head@ =~= frame@.drop_last());
    checksum(head) == frame[n - 1]
}

/// Replacing the byte at `i` by `b` changes the exclusive-or of a sequence
/// by the exclusive-or of the old and the new byte.
pub proof fn lemma_xor_fold_update(s: Seq<u8>, i: int, b: u8)
    requires
        0 <= i < s.len(),
    ensures
        xor_fold(s.update(i, b)) == (xor_fold(s) ^ s[i]) ^ b,
    decreases s.len(),
{
    let t = s.update(i, b);
    let x = xor_fold(s.drop_last());
    let l = s.last();
    if i == s.len() - 1 {
        assert(t.drop_last() =~= s.drop_last());
        assert(x ^ b == ((x ^ l) ^ l) ^ b) by (bit_vector);
    } else {
        assert(t.drop_last() =~= s.drop_last().update(i, b));
        lemma_xor_fold_update(s.drop_last(), i, b);
        let a = s[i];
        assert(((x ^ a) ^ b) ^ l == ((x ^ l) ^ a) ^ b) by (bit_vector);
    }
}

/// A frame built around a payload is complete, its checksum matches, and it
/// carries that payload.
pub proof fn lemma_frame_round_trip(payload: Seq<u8>)
    requires
        payload.len() <= 255,
    ensures
        valid_frame(frame_of(payload)),
        frame_payload(frame_of(payload)) == payload,
{
    let f = frame_of(payload);
    assert(f.drop_last() =~= frame_head(payload));
    assert(frame_payload(f) =~= payload);
}

/// A frame whose checksum matches stops matching when any one byte after
/// the sync bytes, be it the length, a payload byte or the checksum itself,
/// is replaced by another value; and it goes on matching when the byte is
/// replaced by itself.
pub proof fn lemma_single_byte_corruption_detected(frame: Seq<u8>, i: int, b: u8)
    requires
        checksum_matches(frame),
        2 <= i < frame.len(),
    ensures
        checksum_matches(frame.update(i, b)) <==> b == frame[i],
{
    let g = frame.update(i, b);
    if b == frame[i] {
        assert(g =~= frame);
    } else if i == frame.len() - 1 {
        assert(g.drop_last() =~= frame.drop_last());
    } else {
        let body = frame.drop_last().skip(2);
        assert(g.drop_last().skip(2) =~= body.update(i - 2, b));
        lemma_xor_fold_update(body, i - 2, b);
        let x = xor_fold(body);
        let a = frame[i];
        assert(body[i - 2] == a);
        assert(a != b ==> (x ^ a) ^ b != x) by (bit_vector);
    }
}

/// A frame whose checksum matches stops matching when a single bit of its
/// length, payload or checksum is flipped.
pub proof fn lemma_single_bit_flip_detected(frame: Seq<u8>, i: int, bit: u8)
    requires
        checksum_matches(frame),
        2 <= i < frame.len(),
        bit < 8,
    ensures
        !checksum_matches(frame.update(i, frame[i] ^ (1u8 << bit))),
{
    let a = frame[i];
    assert(bit < 8 ==> a ^ (1u8 << bit) != a) by (bit_vector);
    lemma_single_byte_corruption_detected(frame, i, a ^ (1u8 << bit));
}

/// A complete frame is no longer one when any single byte of it, a sync
/// byte too, is replaced by another value.
pub proof fn lemma_single_byte_corruption_invalidates(frame: Seq<u8>, i: int, b: u8)
    requires
        valid_frame(frame),
        0 <= i < frame.len(),
        b != frame[i],
    ensures
        !valid_frame(frame.update(i, b)),
{
    if i >= 2 {
        lemma_single_byte_corruption_detected(frame, i, b);
    }
}

} // verus!
