//! The ii-V-I progression of a major key, and its text.

use crate::error::ProgressionError;
use crate::theory::{
    lemma_transposed_mod, lemma_transposed_twice, pitch_name, pitch_text, transpose, transposed,
};
use rust_music_theory::chord::{Chord, Number as ChordNumber, Quality as ChordQuality};
use rust_music_theory::note::PitchClass;
use vstd::prelude::*;

verus! {

/// A pitch together with how many semitones it lies above the root of its
/// key.
#[derive(Debug, Clone, Copy, PartialEq, Eq)]
pub struct ScaleDegree {
    pub pitch: PitchClass,
    pub interval_from_root: u8,
}

impl ScaleDegree {
    /// The distance from the root stays within one octave.
    pub open spec fn wf(&self) -> bool {
        self.interval_from_root < 12
    }

    /// A scale degree, or `InvalidInterval` when the distance is not below 12.
    pub fn new(pitch: PitchClass, interval_from_root: u8) -> (r: Result<ScaleDegree, ProgressionError>)
        ensures
            interval_from_root < 12 ==> r == Ok::<ScaleDegree, ProgressionError>(
                ScaleDegree { pitch, interval_from_root },
            ),
            interval_from_root >= 12 ==> r == Err::<ScaleDegree, ProgressionError>(
                ProgressionError::InvalidInterval,
            ),
    {
        if interval_from_root < 12 {
            Ok(ScaleDegree { pitch, interval_from_root })
        } else {
            Err(ProgressionError::InvalidInterval)
        }
    }
}

/// The root of the key in which `degree.pitch` lies `degree.interval_from_root`
/// semitones above the root.
pub open spec fn implied_root(degree: ScaleDegree) -> PitchClass {
    transposed(degree.pitch, 12 - degree.interval_from_root)
}

/// `c` is the triad of `quality` on `root`.
pub open spec fn is_triad(c: Chord, root: PitchClass, quality: ChordQuality) -> bool {
    &&& c.root == root
    &&& c.quality == quality
    &&& c.number == ChordNumber::Triad
    &&& c.octave == 4
    &&& c.intervals@.len() == 2
}

/// The three chords of a ii-V-I progression.
#[derive(Debug)]
pub struct TwoFiveProgression {
    pub root_chord: Chord,
    pub two_chord: Chord,
    pub five_chord: Chord,
}

/// `p` is the ii-V-I progression of the major key on `root`: the major
/// triad on the root, the minor triad a major second above it, and the
/// major triad a perfect fifth above it.
pub open spec fn is_progression_of_key(p: TwoFiveProgression, root: PitchClass) -> bool {
    &&& is_triad(p.root_chord, root, ChordQuality::Major)
    &&& is_triad(p.two_chord, transposed(root, 2), ChordQuality::Minor)
    &&& is_triad(p.five_chord, transposed(root, 7), ChordQuality::Major)
}

/// The word for a chord quality.
pub open spec fn quality_text(q: ChordQuality) -> Seq<char> {
    match q {
        ChordQuality::Major => "major"@,
        ChordQuality::Minor => "minor"@,
        ChordQuality::Diminished => "diminished"@,
        ChordQuality::Augmented => "augmented"@,
        ChordQuality::HalfDiminished => "half-diminished"@,
        ChordQuality::Dominant => "dominant"@,
        ChordQuality::Suspended2 => "suspended2"@,
        ChordQuality::Suspended4 => "suspended4"@,
    }
}

/// A chord written as its root's name, a hyphen and its quality.
pub open spec fn chord_text(c: Chord) -> Seq<char> {
    pitch_text(c.root) + "-"@ + quality_text(c.quality)
}

/// A progression written in the order it is played: ii, V, then I,
/// separated by single spaces.
pub open spec fn progression_text(p: TwoFiveProgression) -> Seq<char> {
    chord_text(p.two_chord) + " "@ + chord_text(p.five_chord) + " "@ + chord_text(p.root_chord)
}

/// The word for a chord quality.
pub fn quality_name(q: ChordQuality) -> (r: &'static str)
    ensures
        r@ == quality_text(q),
{
    match q {
        ChordQuality::Major => "major",
        ChordQuality::Minor => "minor",
        ChordQuality::Diminished => "diminished",
        ChordQuality::Augmented => "augmented",
        ChordQuality::HalfDiminished => "half-diminished",
        ChordQuality::Dominant => "dominant",
        ChordQuality::Suspended2 => "suspended2",
        ChordQuality::Suspended4 => "suspended4",
    }
}

/// A chord as text, such as `D-minor`.
pub fn chord_name(chord: &Chord) -> (r: String)
    ensures
        r@ == chord_text(*chord),
{
    let mut s = pitch_name(chord.root);
    s.append("-");
    s.append(quality_name(chord.quality));
    s
}

impl TwoFiveProgression {
    /// The ii-V-I progression of the key that `scale_degree` implies.
    pub fn new(scale_degree: ScaleDegree) -> (r: Self)
        requires
            scale_degree.wf(),
        ensures
            is_progression_of_key(r, implied_root(scale_degree)),
    {
        let pitch = scale_degree.pitch;
        let offset: u8 = 12 - scale_degree.interval_from_root;
        let root_pitch = transpose(pitch, (offset + 0) % 12);
        let two_pitch = transpose(pitch, (offset + 2) % 12);
        let five_pitch = transpose(pitch, (offset + 7) % 12);
        proof {
            let root = implied_root(scale_degree);
            lemma_transposed_mod(pitch, offset as int, ((offset + 0) % 12) as int);
            lemma_transposed_twice(pitch, offset as int, 2);
            lemma_transposed_mod(pitch, offset + 2, ((offset + 2) % 12) as int);
            lemma_transposed_twice(pitch, offset as int, 7);
            lemma_transposed_mod(pitch, offset + 7, ((offset + 7) % 12) as int);
        }
        TwoFiveProgression {
            root_chord: Chord::new(root_pitch, ChordQuality::Major, ChordNumber::Triad),
            two_chord: Chord::new(two_pitch, ChordQuality::Minor, ChordNumber::Triad),
            five_chord: Chord::new(five_pitch, ChordQuality::Major, ChordNumber::Triad),
        }
    }

    /// The progression as one line, ii first, then V, then I, such as
    /// `D-minor G-major C-major`.
    pub fn render(&self) -> (r: String)
        ensures
            r@ == progression_text(*self),
    {
        let mut s = chord_name(&self.two_chord);
        s.append(" ");
        let five = chord_name(&self.five_chord);
        s.append(five.as_str());
        s.append(" ");
        let root = chord_name(&self.root_chord);
        s.append(root.as_str());
        s
    }
}

} // verus!
