//! A wire format: each message is preceded by its length as two big-endian
//! bytes.
use vstd::prelude::*;
use vstd::slice::{slice_subrange, slice_to_vec};

use crate::decoder::{Decoder, DecoderResult};
use crate::encoder::Encoder;

verus! {

/// Longest payload that two length bytes can declare.
pub const MAX_PAYLOAD: usize = 65535;

/// The frame of `payload`: its length, high byte first, then the payload.
pub open spec fn frame_of(payload: Seq<u8>) -> Seq<u8> {
    seq![(payload.len() / 256) as u8, (payload.len() % 256) as u8] + payload
}

/// The payload length that the first two bytes of `data` declare.
pub open spec fn declared_len(data: Seq<u8>) -> int
    recommends
        data.len() >= 2,
{
    data[0] as int * 256 + data[1] as int
}

/// The payload of the frame at the head of `data` and the frame's length, when
/// the whole frame is there.
pub open spec fn frame_at_head(data: Seq<u8>) -> Option<(Seq<u8>, int)> {
    if data.len() >= 2 && data.len() >= 2 + declared_len(data) {
        Some((data.subrange(2, 2 + declared_len(data)), 2 + declared_len(data)))
    } else {
        None
    }
}

/// Encoder and decoder of length-prefixed frames of byte payloads.
#[derive(Clone, Copy)]
pub struct Uint16Framed;

/// The frame of `payload`, or an error when it is longer than `MAX_PAYLOAD`.
pub fn encode_frame(payload: &[u8]) -> (r: Result<Vec<u8>, String>)
    ensures
        match r {
            Ok(v) => payload@.len() <= MAX_PAYLOAD && v@ == frame_of(payload@),
            Err(_) => payload@.len() > MAX_PAYLOAD,
        },
{
    let len = payload.len();
    if len > MAX_PAYLOAD {
        return Err("Data too large to encode".to_string());
    }
    let mut encoded: Vec<u8> = Vec::with_capacity(2 + len);
    encoded.push((len / 256) as u8);
    encoded.push((len % 256) as u8);
    let mut body = slice_to_vec(payload);
    encoded.append(&mut body);
    assert(encoded@ =~= frame_of(payload@));
    Ok(encoded)
}

/// Decodes the frame at the head of `data`; asks for more bytes while it is
/// incomplete. Bytes after the frame are left alone.
pub fn decode_frame(data: &[u8]) -> (r: DecoderResult<Vec<u8>>)
    ensures
        match r {
            DecoderResult::Continue => frame_at_head(data@) is None,
            DecoderResult::Done(m, used) => frame_at_head(data@) == Some((m@, used as int)),
            DecoderResult::Error(_) => false,
        },
{
    if data.len() >= 2 {
        let msg_len: usize = data[0] as usize * 256 + data[1] as usize;
        if data.len() - 2 >= msg_len {
            let payload = slice_to_vec(slice_subrange(data, 2, 2 + msg_len));
            return DecoderResult::Done(payload, 2 + msg_len);
        }
    }
    DecoderResult::Continue
}

impl Encoder<Vec<u8>> for Uint16Framed {
    fn encode(&mut self, data: &Vec<u8>) -> (r: Result<Vec<u8>, String>)
        ensures
            match r {
                Ok(v) => data@.len() <= MAX_PAYLOAD && v@ == frame_of(data@),
                Err(_) => data@.len() > MAX_PAYLOAD,
            },
    {
        encode_frame(data.as_slice())
    }
}

impl Decoder<Vec<u8>> for Uint16Framed {
    fn decode(&mut self, data: &[u8]) -> (r: DecoderResult<Vec<u8>>)
        ensures
            match r {
                DecoderResult::Continue => frame_at_head(data@) is None,
                DecoderResult::Done(m, used) => frame_at_head(data@) == Some((m@, used as int)),
                DecoderResult::Error(_) => false,
            },
    {
        decode_frame(data)
    }
}

/// Decoding the frame of a payload gives back that payload, and the byte
/// count is the whole frame.
pub proof fn lemma_round_trip(payload: Seq<u8>)
    requires
        payload.len() <= MAX_PAYLOAD,
    ensures
        frame_at_head(frame_of(payload)) == Some((payload, frame_of(payload).len() as int)),
{
    let f = frame_of(payload);
    assert(declared_len(f) == payload.len()) by (nonlinear_arith)
        requires
            f[0] == (payload.len() / 256) as u8,
            f[1] == (payload.len() % 256) as u8,
            payload.len() <= 65535,
            declared_len(f) == f[0] as int * 256 + f[1] as int,
    ;
    assert(f.subrange(2, 2 + payload.len() as int) =~= payload);
}

/// However a stream's bytes are split into reads, the decoder sees growing
/// prefixes of them. Every prefix shorter than the first frame needs more
/// data; every prefix that holds it decodes to the same payload and byte count
/// as the bytes taken all at once.
pub proof fn lemma_chunking_invariance(data: Seq<u8>, k: int)
    requires
        0 <= k <= data.len(),
        frame_at_head(data) is Some,
    ensures
        frame_at_head(data.take(k)) == if k < frame_at_head(data).unwrap().1 {
            None
        } else {
            frame_at_head(data)
        },
{
    let p = data.take(k);
    if k >= 2 {
        assert(p[0] == data[0] && p[1] == data[1]);
        assert(declared_len(p) == declared_len(data));
        if k >= 2 + declared_len(data) {
            assert(p.subrange(2, 2 + declared_len(p)) =~= data.subrange(2, 2 + declared_len(data)));
        }
    }
}

/// A stream that ends inside a frame leaves the decoder asking for more data:
/// such bytes are never taken for a message, nor rejected as malformed.
pub proof fn lemma_truncated_frame(payload: Seq<u8>, k: int)
    requires
        payload.len() <= MAX_PAYLOAD,
        0 <= k < frame_of(payload).len(),
    ensures
        frame_at_head(frame_of(payload).take(k)) is None,
{
    lemma_round_trip(payload);
    lemma_chunking_invariance(frame_of(payload), k);
}

} // verus!
