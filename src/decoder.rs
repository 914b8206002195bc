//! The decode protocol: accumulated bytes in, one outcome out.
use vstd::prelude::*;

verus! {

/// The outcome of one decode attempt.
/// - `Continue`: more bytes are needed before a message is complete.
/// - `Done(message, used)`: a message was decoded from the first `used` bytes.
/// - `Error(reason)`: the bytes cannot be framed; the stream is unusable.
pub enum DecoderResult<T> {
    Continue,
    Done(T, usize),
    Error(String),
}

/// Number of bytes that an outcome retires from the buffer.
pub open spec fn bytes_used<T>(r: DecoderResult<T>) -> nat {
    match r {
        DecoderResult::Done(_, used) => used as nat,
        _ => 0,
    }
}

/// Decodes messages from the bytes accumulated so far.
///
/// An implementation looks only at the bytes it is given: the same bytes give
/// the same outcome, however often it is asked. It never reports more bytes
/// used than it was given.
pub trait Decoder<T> {
    /// Decodes at most one message from the head of `data`.
    fn decode(&mut self, data: &[u8]) -> (r: DecoderResult<T>)
        ensures
            bytes_used(r) <= data@.len(),
    ;
}

/// The trivial decoder for streams that carry no payload: every attempt yields
/// `()` and uses no bytes.
impl Decoder<()> for () {
    fn decode(&mut self, _data: &[u8]) -> (r: DecoderResult<()>) {
        DecoderResult::Done((), 0)
    }
}

} // verus!
