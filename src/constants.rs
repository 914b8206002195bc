//! Tunable sizes of the framing layer.
use vstd::prelude::*;

verus! {

/// Capacity that a fresh frame buffer reserves.
pub const INITIAL_BUFFER_SIZE: usize = 1024;

/// Size of the temporary buffer into which one chunk of the stream is read.
pub const TEMP_BUFFER_SIZE: usize = 1024;

} // verus!
