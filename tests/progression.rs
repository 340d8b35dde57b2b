use rust_music_theory::chord::{Number, Quality};
use rust_music_theory::note::PitchClass;
use two_five::error::ProgressionError;
use two_five::parse::{parse_interval, parse_pitch, parse_scale_degree};
use two_five::progression::{chord_name, quality_name, ScaleDegree, TwoFiveProgression};

fn rendered(pitch: &str, interval: &str) -> Result<String, ProgressionError> {
    let degree = parse_scale_degree(pitch, interval)?;
    Ok(TwoFiveProgression::new(degree).render())
}

fn index(p: PitchClass) -> u8 {
    p.into_u8()
}

#[test]
fn c_at_root_renders_c_major_key() {
    assert_eq!(rendered("C", "0").unwrap(), "D-minor G-major C-major");
}

#[test]
fn d_as_second_degree_renders_c_major_key() {
    assert_eq!(rendered("D", "2").unwrap(), "D-minor G-major C-major");
}

#[test]
fn g_as_fifth_degree_renders_c_major_key() {
    assert_eq!(rendered("G", "7").unwrap(), "D-minor G-major C-major");
}

#[test]
fn a_as_sixth_degree_implies_root_c() {
    let degree = parse_scale_degree("A", "9").unwrap();
    let progression = TwoFiveProgression::new(degree);
    assert_eq!(progression.root_chord.root, PitchClass::C);
    assert_eq!(progression.render(), "D-minor G-major C-major");
}

#[test]
fn interval_twelve_is_invalid() {
    assert_eq!(parse_interval("12"), Err(ProgressionError::InvalidInterval));
    assert_eq!(rendered("C", "12"), Err(ProgressionError::InvalidInterval));
}

#[test]
fn negative_interval_is_invalid() {
    assert_eq!(parse_interval("-1"), Err(ProgressionError::InvalidInterval));
    assert_eq!(rendered("C", "-1"), Err(ProgressionError::InvalidInterval));
}

#[test]
fn unknown_pitch_name_fails_to_parse() {
    assert_eq!(parse_pitch("H"), Err(ProgressionError::Parse));
    assert_eq!(rendered("H", "0"), Err(ProgressionError::Parse));
}

#[test]
fn pitch_error_wins_over_interval_error() {
    assert_eq!(rendered("H", "12"), Err(ProgressionError::Parse));
}

#[test]
fn interval_text_forms() {
    assert_eq!(parse_interval("0"), Ok(0));
    assert_eq!(parse_interval("11"), Ok(11));
    assert_eq!(parse_interval("+7"), Ok(7));
    assert_eq!(parse_interval("-0"), Ok(0));
    assert_eq!(parse_interval("007"), Ok(7));
    assert_eq!(parse_interval("255"), Err(ProgressionError::InvalidInterval));
    assert_eq!(
        parse_interval("99999999999999999999999"),
        Err(ProgressionError::InvalidInterval)
    );
    assert_eq!(parse_interval(""), Err(ProgressionError::Parse));
    assert_eq!(parse_interval("+"), Err(ProgressionError::Parse));
    assert_eq!(parse_interval("-"), Err(ProgressionError::Parse));
    assert_eq!(parse_interval("seven"), Err(ProgressionError::Parse));
    assert_eq!(parse_interval("7 "), Err(ProgressionError::Parse));
    assert_eq!(parse_interval("1-1"), Err(ProgressionError::Parse));
}

#[test]
fn pitch_name_forms() {
    assert_eq!(parse_pitch("C"), Ok(PitchClass::C));
    assert_eq!(parse_pitch("c"), Ok(PitchClass::C));
    assert_eq!(parse_pitch("D#"), Ok(PitchClass::Ds));
    assert_eq!(parse_pitch("fs"), Ok(PitchClass::Fs));
    assert_eq!(parse_pitch("Gb"), Ok(PitchClass::Fs));
    assert_eq!(parse_pitch("Cb"), Ok(PitchClass::B));
    assert_eq!(parse_pitch("B\u{266f}"), Ok(PitchClass::C));
    assert_eq!(parse_pitch("E\u{266d}"), Ok(PitchClass::Ds));
    assert_eq!(parse_pitch(""), Err(ProgressionError::Parse));
    assert_eq!(parse_pitch("C##"), Err(ProgressionError::Parse));
    assert_eq!(parse_pitch("Cx"), Err(ProgressionError::Parse));
}

#[test]
fn scale_degree_constructor_checks_range() {
    assert_eq!(
        ScaleDegree::new(PitchClass::E, 4),
        Ok(ScaleDegree { pitch: PitchClass::E, interval_from_root: 4 })
    );
    assert_eq!(
        ScaleDegree::new(PitchClass::E, 12),
        Err(ProgressionError::InvalidInterval)
    );
}

#[test]
fn every_degree_of_a_key_yields_the_same_progression() {
    for root in 0u8..12 {
        let root_pitch = PitchClass::from_u8(root);
        let canonical = TwoFiveProgression::new(ScaleDegree {
            pitch: root_pitch,
            interval_from_root: 0,
        })
        .render();
        for k in [0u8, 2, 7] {
            let degree = ScaleDegree {
                pitch: PitchClass::from_u8(root + k),
                interval_from_root: k,
            };
            assert_eq!(TwoFiveProgression::new(degree).render(), canonical);
        }
    }
}

#[test]
fn implied_root_moved_up_reaches_the_pitch() {
    for pitch in 0u8..12 {
        for interval in 0u8..12 {
            let degree = ScaleDegree {
                pitch: PitchClass::from_u8(pitch),
                interval_from_root: interval,
            };
            let root = TwoFiveProgression::new(degree).root_chord.root;
            assert_eq!((index(root) + interval) % 12, pitch);
        }
    }
}

#[test]
fn chord_roles_have_fixed_qualities() {
    for pitch in 0u8..12 {
        let p = TwoFiveProgression::new(ScaleDegree {
            pitch: PitchClass::from_u8(pitch),
            interval_from_root: 5,
        });
        assert_eq!(p.root_chord.quality, Quality::Major);
        assert_eq!(p.two_chord.quality, Quality::Minor);
        assert_eq!(p.five_chord.quality, Quality::Major);
        assert_eq!(p.root_chord.number, Number::Triad);
        assert_eq!(p.two_chord.number, Number::Triad);
        assert_eq!(p.five_chord.number, Number::Triad);
        assert_eq!((index(p.two_chord.root) + 12 - index(p.root_chord.root)) % 12, 2);
        assert_eq!((index(p.five_chord.root) + 12 - index(p.root_chord.root)) % 12, 7);
    }
}

#[test]
fn render_plays_two_then_five_then_one() {
    let p = TwoFiveProgression::new(ScaleDegree {
        pitch: PitchClass::Fs,
        interval_from_root: 0,
    });
    assert_eq!(p.render(), "G#-minor C#-major F#-major");
    let expected = format!(
        "{} {} {}",
        chord_name(&p.two_chord),
        chord_name(&p.five_chord),
        chord_name(&p.root_chord)
    );
    assert_eq!(p.render(), expected);
}

#[test]
fn computing_twice_gives_equal_progressions() {
    let degree = ScaleDegree {
        pitch: PitchClass::As,
        interval_from_root: 3,
    };
    let a = TwoFiveProgression::new(degree);
    let b = TwoFiveProgression::new(degree);
    assert_eq!(format!("{:?}", a), format!("{:?}", b));
    assert_eq!(a.render(), b.render());
    assert_eq!(a.render(), "A-minor D-major G-major");
}

#[test]
fn chord_names_use_sharps_and_lower_case_qualities() {
    let p = TwoFiveProgression::new(ScaleDegree {
        pitch: PitchClass::Cs,
        interval_from_root: 0,
    });
    assert_eq!(chord_name(&p.root_chord), "C#-major");
    assert_eq!(chord_name(&p.two_chord), "D#-minor");
    assert_eq!(quality_name(Quality::Diminished), "diminished");
    assert_eq!(quality_name(Quality::HalfDiminished), "half-diminished");
}

#[test]
fn triads_hold_two_stacked_intervals() {
    let p = TwoFiveProgression::new(ScaleDegree {
        pitch: PitchClass::C,
        interval_from_root: 0,
    });
    assert_eq!(p.root_chord.octave, 4);
    assert_eq!(p.root_chord.intervals.len(), 2);
    assert_eq!(p.root_chord.intervals[0].semitone_count, 4);
    assert_eq!(p.two_chord.intervals[0].semitone_count, 3);
}
