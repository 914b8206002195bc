//! The message I/O engine: every decision of the read and write paths.
//!
//! The engine owns the frame buffer and the encoder and decoder; the caller
//! owns the stream. To read a message the caller first asks `poll_message`,
//! which decodes what is already buffered. While the answer is `NeedData` it
//! reads one chunk from the stream and hands it to `on_read`. To write, the
//! caller writes all of what `encode_message` returned.
use vstd::prelude::*;

use crate::buffer::FrameBuffer;
use crate::decoder::{bytes_used, Decoder, DecoderResult};
use crate::encoder::Encoder;

verus! {

/// What the read path decided after one decode attempt.
pub enum ReadStep<M> {
    /// No complete message is buffered: read another chunk.
    NeedData,
    /// A complete message; the bytes it used have left the buffer.
    Message(M),
    /// The stream ended before another message arrived. Not an error.
    EndOfStream,
    /// The decoder rejected the buffered bytes; no resynchronisation follows.
    Malformed(String),
}

/// The step that a decode outcome leads to.
pub open spec fn step_for<M>(outcome: DecoderResult<M>) -> ReadStep<M> {
    match outcome {
        DecoderResult::Continue => ReadStep::NeedData,
        DecoderResult::Done(m, _) => ReadStep::Message(m),
        DecoderResult::Error(e) => ReadStep::Malformed(e),
    }
}

/// Frame buffer, encoder and decoder of one stream.
pub struct MessageEngine<E, D> {
    encoder: E,
    decoder: D,
    buffer: FrameBuffer,
}

impl<E, D> MessageEngine<E, D> {
    /// The bytes read and not yet retired by a decoded message.
    pub closed spec fn buffered(&self) -> Seq<u8> {
        self.buffer@
    }

    /// The encoder in use.
    pub closed spec fn encoder_value(&self) -> E {
        self.encoder
    }

    /// The decoder in use.
    pub closed spec fn decoder_value(&self) -> D {
        self.decoder
    }

    /// An engine with an empty buffer.
    pub fn new(encoder: E, decoder: D) -> (r: Self)
        ensures
            r.buffered() == Seq::<u8>::empty(),
            r.encoder_value() == encoder,
            r.decoder_value() == decoder,
    {
        MessageEngine { encoder, decoder, buffer: FrameBuffer::new() }
    }

    /// Number of bytes buffered.
    pub fn buffered_len(&self) -> (r: usize)
        ensures
            r == self.buffered().len(),
    {
        self.buffer.len()
    }

    /// Acts on a decode outcome for the buffered bytes: a decoded message
    /// retires exactly the bytes it used, and nothing else changes.
    pub fn settle<M>(&mut self, outcome: DecoderResult<M>) -> (r: ReadStep<M>)
        requires
            bytes_used(outcome) <= old(self).buffered().len(),
        ensures
            r == step_for(outcome),
            final(self).buffered() == old(self).buffered().skip(bytes_used(outcome) as int),
            final(self).encoder_value() == old(self).encoder_value(),
            final(self).decoder_value() == old(self).decoder_value(),
    {
        match outcome {
            DecoderResult::Continue => ReadStep::NeedData,
            DecoderResult::Done(m, used) => {
                self.buffer.consume(used);
                ReadStep::Message(m)
            },
            DecoderResult::Error(e) => ReadStep::Malformed(e),
        }
    }

    /// Tries to decode a message from what is already buffered, without
    /// reading. A message retires a prefix of the buffer; any other answer
    /// leaves the buffer as it was.
    pub fn poll_message<M>(&mut self) -> (r: ReadStep<M>) where D: Decoder<M>
        ensures
            match r {
                ReadStep::Message(_) => exists|n: int|
                    0 <= n <= old(self).buffered().len() && final(self).buffered()
                        == #[trigger] old(self).buffered().skip(n),
                ReadStep::EndOfStream => false,
                _ => final(self).buffered() == old(self).buffered(),
            },
            final(self).encoder_value() == old(self).encoder_value(),
    {
        let ghost before = self.buffered();
        let outcome = self.decoder.decode(self.buffer.as_slice());
        let ghost used = bytes_used(outcome) as int;
        let r = self.settle(outcome);
        assert(self.buffered() == before.skip(used));
        r
    }

    /// Acts on one chunk read from the stream. An empty chunk means the
    /// stream has ended: the answer is `EndOfStream`, whatever is buffered.
    /// Otherwise the chunk is appended and a decode is attempted on the whole
    /// buffer. A decoded message of `n` bytes leaves the previous bytes and
    /// the chunk, less their first `n`.
    pub fn on_read<M>(&mut self, chunk: &[u8]) -> (r: ReadStep<M>) where D: Decoder<M>
        requires
            old(self).buffered().len() + chunk@.len() <= isize::MAX,
        ensures
            chunk@.len() == 0 ==> r is EndOfStream && final(self).buffered() == old(self).buffered(),
            chunk@.len() > 0 ==> match r {
                ReadStep::Message(_) => exists|n: int|
                    0 <= n <= old(self).buffered().len() + chunk@.len() && final(self).buffered()
                        == #[trigger] (old(self).buffered() + chunk@).skip(n)
                        && final(self).buffered().len() == old(self).buffered().len()
                        + chunk@.len() - n,
                ReadStep::EndOfStream => false,
                _ => final(self).buffered() == old(self).buffered() + chunk@,
            },
            final(self).encoder_value() == old(self).encoder_value(),
    {
        if chunk.len() == 0 {
            return ReadStep::EndOfStream;
        }
        self.buffer.append(chunk);
        self.poll_message()
    }

    /// The wire bytes of `msg`, to be written to the stream whole, or the
    /// reason it cannot be encoded, in which case nothing is to be written.
    /// The buffer and the decoder are left alone.
    pub fn encode_message<M>(&mut self, msg: &M) -> (r: Result<Vec<u8>, String>) where
        E: Encoder<M>,
        ensures
            final(self).buffered() == old(self).buffered(),
            final(self).decoder_value() == old(self).decoder_value(),
    {
        self.encoder.encode(msg)
    }
}

impl<D> MessageEngine<(), D> {
    /// An engine that only reads, with `decoder`.
    pub fn new_reader(decoder: D) -> (r: Self)
        ensures
            r.buffered() == Seq::<u8>::empty(),
            r.decoder_value() == decoder,
    {
        MessageEngine::new((), decoder)
    }
}

impl<E> MessageEngine<E, ()> {
    /// An engine that only writes, with `encoder`.
    pub fn new_writer(encoder: E) -> (r: Self)
        ensures
            r.buffered() == Seq::<u8>::empty(),
            r.encoder_value() == encoder,
    {
        MessageEngine::new(encoder, ())
    }
}

impl<ED: Clone> MessageEngine<ED, ED> {
    /// An engine that reads and writes with one encoder-decoder; the encoder
    /// is a clone of it.
    pub fn new_rw(enc_dec: ED) -> (r: Self)
        ensures
            r.buffered() == Seq::<u8>::empty(),
            r.decoder_value() == enc_dec,
    {
        MessageEngine::new(enc_dec.clone(), enc_dec)
    }
}

} // verus!
