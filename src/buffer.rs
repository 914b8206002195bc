//! The frame buffer: bytes appended at the tail, retired from the head.
use bytes::{Buf, BytesMut};
use vstd::prelude::*;

use crate::constants::INITIAL_BUFFER_SIZE;

verus! {

#[verifier::external_type_specification]
#[verifier::external_body]
pub struct ExBytesMut(BytesMut);

/// The bytes that a `BytesMut` holds, from its head to its tail.
pub uninterp spec fn bytes_held(b: BytesMut) -> Seq<u8>;

/// Relies on `BytesMut::with_capacity`: the new buffer holds no bytes.
#[verifier::external_body]
fn bytes_with_capacity(capacity: usize) -> (r: BytesMut)
    ensures
        bytes_held(r) == Seq::<u8>::empty(),
{
    BytesMut::with_capacity(capacity)
}

/// Relies on `BytesMut::len`: the number of bytes held.
#[verifier::external_body]
fn bytes_len(b: &BytesMut) -> (r: usize)
    ensures
        r == bytes_held(*b).len(),
{
    b.len()
}

/// Relies on `BytesMut::extend_from_slice`: the slice is copied after the
/// bytes held. Growing past `isize::MAX` bytes panics, so that is ruled out.
#[verifier::external_body]
fn bytes_extend(b: &mut BytesMut, extend: &[u8])
    requires
        bytes_held(*old(b)).len() + extend@.len() <= isize::MAX,
    ensures
        bytes_held(*final(b)) == bytes_held(*old(b)) + extend@,
{
    b.extend_from_slice(extend)
}

/// Relies on `<BytesMut as Buf>::advance`: the first `cnt` bytes are dropped.
/// It panics when `cnt` exceeds the length, so that is ruled out.
#[verifier::external_body]
fn bytes_advance(b: &mut BytesMut, cnt: usize)
    requires
        cnt <= bytes_held(*old(b)).len(),
    ensures
        bytes_held(*final(b)) == bytes_held(*old(b)).skip(cnt as int),
{
    b.advance(cnt)
}

/// Relies on `<BytesMut as Deref>::deref`: a slice over the bytes held.
#[verifier::external_body]
fn bytes_slice(b: &BytesMut) -> (r: &[u8])
    ensures
        r@ == bytes_held(*b),
{
    &b[..]
}

/// An append-only, prefix-consumable byte accumulator.
///
/// Its view is the sequence of bytes that were appended and not yet consumed.
pub struct FrameBuffer {
    bytes: BytesMut,
}

impl View for FrameBuffer {
    type V = Seq<u8>;

    closed spec fn view(&self) -> Seq<u8> {
        bytes_held(self.bytes)
    }
}

impl FrameBuffer {
    /// An empty buffer with the initial capacity reserved.
    pub fn new() -> (r: Self)
        ensures
            r@ == Seq::<u8>::empty(),
    {
        FrameBuffer { bytes: bytes_with_capacity(INITIAL_BUFFER_SIZE) }
    }

    /// Number of bytes held.
    pub fn len(&self) -> (r: usize)
        ensures
            r == self@.len(),
    {
        bytes_len(&self.bytes)
    }

    /// The bytes held, for inspection.
    pub fn as_slice(&self) -> (r: &[u8])
        ensures
            r@ == self@,
    {
        bytes_slice(&self.bytes)
    }

    /// Appends `chunk` at the tail.
    pub fn append(&mut self, chunk: &[u8])
        requires
            old(self)@.len() + chunk@.len() <= isize::MAX,
        ensures
            final(self)@ == old(self)@ + chunk@,
    {
        bytes_extend(&mut self.bytes, chunk)
    }

    /// Retires the first `n` bytes; the rest becomes the new head.
    pub fn consume(&mut self, n: usize)
        requires
            n <= old(self)@.len(),
        ensures
            final(self)@ == old(self)@.skip(n as int),
    {
        bytes_advance(&mut self.bytes, n)
    }
}

} // verus!
