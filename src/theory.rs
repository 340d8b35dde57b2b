//! The music-theory primitives this crate builds on, as Verus sees them.
//!
//! The types of `rust_music_theory` are declared with their variants and
//! public fields, so contracts can speak of them directly. Each function of
//! that crate called from verified code carries an assumed contract below,
//! stated from its source.

use rust_music_theory::chord::{Chord, Number as ChordNumber, Quality as ChordQuality};
use rust_music_theory::interval::Interval;
use rust_music_theory::note::PitchClass;
use vstd::prelude::*;

verus! {

#[verifier::external_type_specification]
pub struct ExPitchClass(PitchClass);

#[verifier::external_type_specification]
#[verifier::external_body]
pub struct ExInterval(Interval);

#[verifier::external_type_specification]
pub struct ExChordQuality(ChordQuality);

#[verifier::external_type_specification]
pub struct ExChordNumber(ChordNumber);

#[verifier::external_type_specification]
pub struct ExChord(Chord);

/// Position of a pitch class on the chromatic circle: C is 0, B is 11.
pub open spec fn pitch_index(p: PitchClass) -> int {
    match p {
        PitchClass::C => 0,
        PitchClass::Cs => 1,
        PitchClass::D => 2,
        PitchClass::Ds => 3,
        PitchClass::E => 4,
        PitchClass::F => 5,
        PitchClass::Fs => 6,
        PitchClass::G => 7,
        PitchClass::Gs => 8,
        PitchClass::A => 9,
        PitchClass::As => 10,
        PitchClass::B => 11,
    }
}

/// The pitch class at position `n` of the chromatic circle, taken modulo 12.
pub open spec fn pitch_at(n: int) -> PitchClass {
    let m = n % 12;
    if m == 0 {
        PitchClass::C
    } else if m == 1 {
        PitchClass::Cs
    } else if m == 2 {
        PitchClass::D
    } else if m == 3 {
        PitchClass::Ds
    } else if m == 4 {
        PitchClass::E
    } else if m == 5 {
        PitchClass::F
    } else if m == 6 {
        PitchClass::Fs
    } else if m == 7 {
        PitchClass::G
    } else if m == 8 {
        PitchClass::Gs
    } else if m == 9 {
        PitchClass::A
    } else if m == 10 {
        PitchClass::As
    } else {
        PitchClass::B
    }
}

/// The pitch class reached by moving `semitones` clockwise from `p`.
pub open spec fn transposed(p: PitchClass, semitones: int) -> PitchClass {
    pitch_at(pitch_index(p) + semitones)
}

/// The position of the pitch class at `n` is `n` taken modulo 12.
pub proof fn lemma_index_of_pitch_at(n: int)
    ensures
        pitch_index(pitch_at(n)) == n % 12,
{
}

/// Moving by `a` and then by `b` semitones is moving by `a + b`.
pub proof fn lemma_transposed_twice(p: PitchClass, a: int, b: int)
    ensures
        transposed(transposed(p, a), b) == transposed(p, a + b),
{
    lemma_index_of_pitch_at(pitch_index(p) + a);
    assert(((pitch_index(p) + a) % 12 + b) % 12 == (pitch_index(p) + a + b) % 12);
}

/// Positions that agree modulo 12 name the same pitch class.
pub proof fn lemma_transposed_mod(p: PitchClass, a: int, b: int)
    requires
        a % 12 == b % 12,
    ensures
        transposed(p, a) == transposed(p, b),
{
    assert((pitch_index(p) + a) % 12 == (pitch_index(p) + b) % 12);
}

/// Relies on `PitchClass::from_interval`, which adds the interval's semitone
/// count to the pitch's position and wraps the sum around the octave, and on
/// `Interval::from_semitone`, which builds that interval for any count up
/// to 12.
#[verifier::external_body]
pub(crate) fn transpose(pitch: PitchClass, semitones: u8) -> (r: PitchClass)
    requires
        semitones <= 12,
    ensures
        r == transposed(pitch, semitones as int),
{
    PitchClass::from_interval(pitch, Interval::from_semitone(semitones).unwrap())
}

/// Relies on `Chord::new`: the chord keeps the root, quality and number it
/// was given, sits in octave 4, and a major or minor triad holds the two
/// intervals stacked above its root.
pub assume_specification[ Chord::new ](root: PitchClass, quality: ChordQuality, number: ChordNumber) -> (r: Chord)
    ensures
        r.root == root,
        r.quality == quality,
        r.number == number,
        r.octave == 4,
        number == ChordNumber::Triad && (quality == ChordQuality::Major || quality
            == ChordQuality::Minor) ==> r.intervals@.len() == 2,
;

/// The natural pitch class that a note letter names, in either case.
pub open spec fn letter_pitch(c: char) -> Option<PitchClass> {
    if c == 'C' || c == 'c' {
        Some(PitchClass::C)
    } else if c == 'D' || c == 'd' {
        Some(PitchClass::D)
    } else if c == 'E' || c == 'e' {
        Some(PitchClass::E)
    } else if c == 'F' || c == 'f' {
        Some(PitchClass::F)
    } else if c == 'G' || c == 'g' {
        Some(PitchClass::G)
    } else if c == 'A' || c == 'a' {
        Some(PitchClass::A)
    } else if c == 'B' || c == 'b' {
        Some(PitchClass::B)
    } else {
        None
    }
}

/// A sign that raises a letter by a semitone: `#`, `s`, `S` or the sharp sign.
pub open spec fn is_sharp_sign(c: char) -> bool {
    c == '#' || c == 's' || c == 'S' || c == '\u{266f}'
}

/// A sign that lowers a letter by a semitone: `b` or the flat sign.
pub open spec fn is_flat_sign(c: char) -> bool {
    c == 'b' || c == '\u{266d}'
}

/// The pitch class a name denotes: a note letter, optionally followed by one
/// sharp or flat sign, and nothing else.
pub open spec fn pitch_of_name(s: Seq<char>) -> Option<PitchClass> {
    if s.len() == 0 || s.len() > 2 {
        None
    } else {
        match letter_pitch(s[0]) {
            None => None,
            Some(base) => if s.len() == 1 {
                Some(base)
            } else if is_sharp_sign(s[1]) {
                Some(transposed(base, 1))
            } else if is_flat_sign(s[1]) {
                Some(transposed(base, 11))
            } else {
                None
            },
        }
    }
}

/// Relies on `PitchClass::from_str`, which reads a letter and at most one
/// accidental, moving the letter one semitone up or eleven up for a flat.
pub assume_specification[ PitchClass::from_str ](string: &str) -> (r: Option<PitchClass>)
    ensures
        r == pitch_of_name(string@),
;

/// The name that `PitchClass` displays: a letter, with `#` for a sharp.
pub open spec fn pitch_text(p: PitchClass) -> Seq<char> {
    match p {
        PitchClass::C => seq!['C'],
        PitchClass::Cs => seq!['C', '#'],
        PitchClass::D => seq!['D'],
        PitchClass::Ds => seq!['D', '#'],
        PitchClass::E => seq!['E'],
        PitchClass::F => seq!['F'],
        PitchClass::Fs => seq!['F', '#'],
        PitchClass::G => seq!['G'],
        PitchClass::Gs => seq!['G', '#'],
        PitchClass::A => seq!['A'],
        PitchClass::As => seq!['A', '#'],
        PitchClass::B => seq!['B'],
    }
}

/// Relies on the `Display` impl of `PitchClass`, which writes the names of
/// `pitch_text`.
#[verifier::external_body]
pub(crate) fn pitch_name(p: PitchClass) -> (r: String)
    ensures
        r@ == pitch_text(p),
{
    p.to_string()
}

} // verus!
