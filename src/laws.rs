//! Facts that relate several scale degrees or several progressions.

use crate::progression::{
    implied_root, is_progression_of_key, progression_text, ScaleDegree, TwoFiveProgression,
};
use crate::theory::{lemma_transposed_mod, lemma_transposed_twice, pitch_at, pitch_index, transposed};
use rust_music_theory::chord::Chord;
use rust_music_theory::note::PitchClass;
use vstd::prelude::*;

verus! {

/// A pitch class sits at its own position.
proof fn lemma_pitch_at_index(p: PitchClass)
    ensures
        pitch_at(pitch_index(p)) == p,
{
}

/// Moving by a whole octave leaves a pitch class where it was.
proof fn lemma_transposed_octave(p: PitchClass)
    ensures
        transposed(p, 12) == p,
{
    lemma_transposed_mod(p, 12, 0);
    lemma_pitch_at_index(p);
}

/// Moving the implied root up by a degree's distance from the root gives
/// back the degree's pitch, for every pitch and every distance from 0 to 11.
pub proof fn lemma_root_reaches_pitch(degree: ScaleDegree)
    requires
        degree.wf(),
    ensures
        transposed(implied_root(degree), degree.interval_from_root as int) == degree.pitch,
{
    lemma_transposed_twice(degree.pitch, 12 - degree.interval_from_root, degree.interval_from_root as int);
    lemma_transposed_octave(degree.pitch);
}

/// Any pitch of a key, given with its own distance from the key's root,
/// implies that root, so it yields the progression that the root itself
/// yields at distance 0.
pub proof fn lemma_degree_implies_its_root(root: PitchClass, degree: ScaleDegree)
    requires
        degree.wf(),
        degree.pitch == transposed(root, degree.interval_from_root as int),
    ensures
        implied_root(degree) == root,
        implied_root(degree) == implied_root(ScaleDegree { pitch: root, interval_from_root: 0 }),
        forall|p: TwoFiveProgression|
            is_progression_of_key(p, implied_root(degree)) <==> is_progression_of_key(
                p,
                implied_root(ScaleDegree { pitch: root, interval_from_root: 0 }),
            ),
{
    lemma_transposed_twice(root, degree.interval_from_root as int, 12 - degree.interval_from_root);
    lemma_transposed_octave(root);
}

/// Two chords agree in everything a contract can observe of them.
pub open spec fn same_chord(a: Chord, b: Chord) -> bool {
    &&& a.root == b.root
    &&& a.quality == b.quality
    &&& a.number == b.number
    &&& a.octave == b.octave
    &&& a.intervals@.len() == b.intervals@.len()
}

/// Two progressions built for the same scale degree hold the same chords in
/// the same roles and read the same.
pub proof fn lemma_progression_determined(
    degree: ScaleDegree,
    a: TwoFiveProgression,
    b: TwoFiveProgression,
)
    requires
        degree.wf(),
        is_progression_of_key(a, implied_root(degree)),
        is_progression_of_key(b, implied_root(degree)),
    ensures
        same_chord(a.root_chord, b.root_chord),
        same_chord(a.two_chord, b.two_chord),
        same_chord(a.five_chord, b.five_chord),
        progression_text(a) == progression_text(b),
{
}

} // verus!
