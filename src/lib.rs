//! Ownership and lifecycle layer for tensors, buffers and saved models that
//! cross into a native inference runtime, with a named timer service.
use vstd::prelude::*;

pub mod buffer;
pub mod bytes;
pub mod element;
pub mod prof;
pub mod profile;
pub mod saved_model;
pub mod status;
pub mod tensor;

verus! {

/// Errors reported by the library.
#[derive(Debug, PartialEq, Eq, Structural)]
pub enum Error {
    /// Malformed input: absent or empty native data, a type tag mismatch,
    /// a length mismatch, an unencodable path.
    InvalidArgument,
    /// A native call returned this non-zero outcome code.
    Runtime(u32),
    /// A model-specific outcome, such as an index out of range.
    Torch(status::Code),
}

} // verus!
