//! Error values surfaced by the bridge layer.

use vstd::prelude::*;

verus! {

/// An error produced while moving data across the parser boundary.
///
/// The only failure this layer itself can produce is a text handle whose
/// bytes are not valid UTF-8; an unresolvable source location is an expected
/// absent result, not an error, and an unrecognized diagnostic kind is
/// preserved as a value, not reported here.
#[derive(Clone, Copy, Debug, PartialEq, Eq, Structural)]
pub enum TableGenError {
    /// A text handle whose bytes did not decode as valid UTF-8.
    InvalidText,
}

} // verus!
