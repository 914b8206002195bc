//! The encode protocol: one message in, its complete wire bytes out.
use vstd::prelude::*;

verus! {

/// Encodes messages into self-contained wire bytes. Nothing is added on top of
/// what `encode` returns.
pub trait Encoder<T> {
    /// The wire bytes of `data`, or the reason it cannot be encoded.
    fn encode(&mut self, data: &T) -> Result<Vec<u8>, String>;
}

/// The trivial encoder for streams that carry no payload: `()` encodes to no
/// bytes.
impl Encoder<()> for () {
    fn encode(&mut self, _data: &()) -> (r: Result<Vec<u8>, String>)
        ensures
            r matches Ok(v) && v@.len() == 0,
    {
        Ok(Vec::new())
    }
}

} // verus!
