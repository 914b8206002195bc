//! Message framing over byte streams.
//!
//! A stream only guarantees ordered bytes. This library accumulates what is
//! read in a [`buffer::FrameBuffer`], hands the accumulated bytes to a
//! pluggable [`decoder::Decoder`], and retires exactly the bytes that a
//! decoded message used. Outgoing messages go through a pluggable
//! [`encoder::Encoder`]. The [`engine::MessageEngine`] makes every decision of
//! the read and write paths; the caller performs the reads and writes.
pub mod buffer;
pub mod constants;
pub mod decoder;
pub mod encoder;
pub mod length_prefixed;
pub mod engine;
