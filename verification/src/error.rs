//! Typed failures of the command protocol layer.

use vstd::prelude::*;

verus! {

/// Why a firmware exchange failed. Session setup and dispatch failures are
/// raised by the platform layer that owns the management session; the kinds
/// here are those this crate detects itself.
#[derive(Debug, Clone, Copy, PartialEq, Eq, Structural)]
pub enum LightError {
    /// The firmware rejected the request: its return code was not zero.
    Protocol { code: u32 },
    /// The response's data field is not an array of values.
    NotArray,
    /// The value at this index of the response array is not a single byte.
    BadElement { index: usize },
    /// The response array is longer than the protocol's 32-bit length field
    /// can describe.
    PayloadTooLarge { len: usize },
    /// The payload is too short to hold the requested range.
    ShortPayload { len: usize, need: usize },
}

} // verus!
