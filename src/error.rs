//! Why a scale degree could not be read.

use vstd::prelude::*;

verus! {

/// The ways reading a scale degree can fail.
#[derive(Debug, Clone, Copy, PartialEq, Eq, Structural)]
pub enum ProgressionError {
    /// The text names no pitch class, or is no integer.
    Parse,
    /// The semitone count lies outside 0 to 11.
    InvalidInterval,
}

} // verus!
