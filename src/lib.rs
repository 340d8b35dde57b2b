//! Computes the ii-V-I progression of the major key that a pitch class
//! belongs to, given how many semitones that pitch lies above the key's root.
//!
//! Pitch classes, intervals and chords are those of `rust_music_theory`;
//! the key arithmetic, the chord roles and the text of a progression are
//! this crate's own and carry proved contracts.

pub mod error;
pub mod laws;
pub mod parse;
pub mod progression;
pub mod theory;
