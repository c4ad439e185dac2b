//! What can go wrong outside the library and is reported through it.

use vstd::prelude::*;

verus! {

/// A failure of the environment that the library passes on to its caller.
#[derive(Debug, PartialEq, Eq)]
pub enum Error {
    /// The listening socket could not be bound, or its address not be read; the
    /// field is the text of the failure.
    Io(String),
    /// The system's source of randomness gave no bytes.
    Entropy,
}

} // verus!
