//! Reading a scale degree from the text of a pitch name and a semitone count.

use crate::error::ProgressionError;
use crate::progression::ScaleDegree;
use crate::theory::pitch_of_name;
use rust_music_theory::note::PitchClass;
use vstd::prelude::*;

verus! {

/// A decimal digit.
pub open spec fn is_digit(c: char) -> bool {
    '0' <= c && c <= '9'
}

/// A non-empty run of decimal digits.
pub open spec fn is_decimal(s: Seq<char>) -> bool {
    s.len() > 0 && forall|i: int| 0 <= i < s.len() ==> is_digit(#[trigger] s[i])
}

/// The value of a run of decimal digits.
pub open spec fn decimal_value(s: Seq<char>) -> int
    decreases s.len(),
{
    if s.len() == 0 {
        0
    } else {
        decimal_value(s.drop_last()) * 10 + (s.last() as int - '0' as int)
    }
}

/// The integer a text writes: digits, optionally after a `+` or `-` sign.
pub open spec fn integer_of_text(s: Seq<char>) -> Option<int> {
    if is_decimal(s) {
        Some(decimal_value(s))
    } else if s.len() > 0 && s[0] == '+' && is_decimal(s.drop_first()) {
        Some(decimal_value(s.drop_first()))
    } else if s.len() > 0 && s[0] == '-' && is_decimal(s.drop_first()) {
        Some(-decimal_value(s.drop_first()))
    } else {
        None
    }
}

/// What reading a semitone count from `s` gives: the count when `s` writes an
/// integer from 0 to 11, `InvalidInterval` for any other integer, and
/// `Parse` when `s` writes no integer.
pub open spec fn interval_of_text(s: Seq<char>) -> Result<u8, ProgressionError> {
    match integer_of_text(s) {
        None => Err(ProgressionError::Parse),
        Some(n) => if 0 <= n < 12 {
            Ok(n as u8)
        } else {
            Err(ProgressionError::InvalidInterval)
        },
    }
}

/// What reading a pitch class from `s` gives.
pub open spec fn pitch_of_text(s: Seq<char>) -> Result<PitchClass, ProgressionError> {
    match pitch_of_name(s) {
        None => Err(ProgressionError::Parse),
        Some(p) => Ok(p),
    }
}

/// What reading a scale degree gives: the pitch is read first, and its
/// error wins over the interval's.
pub open spec fn scale_degree_of_text(pitch: Seq<char>, interval: Seq<char>) -> Result<
    ScaleDegree,
    ProgressionError,
> {
    match pitch_of_text(pitch) {
        Err(e) => Err(e),
        Ok(p) => match interval_of_text(interval) {
            Err(e) => Err(e),
            Ok(n) => Ok(ScaleDegree { pitch: p, interval_from_root: n }),
        },
    }
}

/// Adding a digit to a run of digits scales the value by ten.
proof fn lemma_decimal_push(s: Seq<char>, start: int, i: int)
    requires
        0 <= start <= i < s.len(),
    ensures
        decimal_value(s.subrange(start, i + 1)) == decimal_value(s.subrange(start, i)) * 10 + (
        s[i] as int - '0' as int),
{
    assert(s.subrange(start, i + 1).drop_last() =~= s.subrange(start, i));
}

/// Reads a semitone count from its decimal text.
pub fn parse_interval(semitone: &str) -> (r: Result<u8, ProgressionError>)
    ensures
        r == interval_of_text(semitone@),
{
    let ghost s = semitone@;
    let n = semitone.unicode_len();
    if n == 0 {
        return Err(ProgressionError::Parse);
    }
    let first = semitone.get_char(0);
    let start: usize = if first == '+' || first == '-' {
        1
    } else {
        0
    };
    if start == n {
        assert(!is_decimal(s));
        assert(s.drop_first().len() == 0);
        return Err(ProgressionError::Parse);
    }
    // `value` is the value of the digits so far, held at 12 once it passes 11.

    let mut value: u8 = 0;
    let mut i: usize = start;
    while i < n
        invariant
            s == semitone@,
            n == s.len(),
            start <= i <= n,
            start == 0 || start == 1,
            start == 1 <==> (s[0] == '+' || s[0] == '-'),
            forall|j: int| start <= j < i ==> is_digit(#[trigger] s[j]),
            decimal_value(s.subrange(start as int, i as int)) < 12 ==> value == decimal_value(
                s.subrange(start as int, i as int),
            ),
            decimal_value(s.subrange(start as int, i as int)) >= 12 ==> value == 12,
        decreases n - i,
    {
        let c = semitone.get_char(i);
        if !('0' <= c && c <= '9') {
            assert(!is_digit(s[i as int]));
            assert(!is_decimal(s));
            if i >= 1 {
                assert(s.drop_first()[i - 1] == s[i as int]);
                assert(!is_decimal(s.drop_first()));
            }
            return Err(ProgressionError::Parse);
        }
        proof {
            lemma_decimal_push(s, start as int, i as int);
        }
        let d = (c as u32 - '0' as u32) as u8;
        if value < 12 {
            let v = value * 10 + d;
            value = if v < 12 {
                v
            } else {
                12
            };
        }
        i += 1;
    }
    proof {
        if start == 0 {
            assert(s.subrange(0, n as int) =~= s);
        } else {
            assert(s.subrange(1, n as int) =~= s.drop_first());
            assert(!is_digit(s[0]));
        }
    }
    if first == '-' {
        if value == 0 {
            Ok(0)
        } else {
            Err(ProgressionError::InvalidInterval)
        }
    } else if value < 12 {
        Ok(value)
    } else {
        Err(ProgressionError::InvalidInterval)
    }
}

/// Reads a pitch class from its name, such as `C`, `d#` or `Gb`.
pub fn parse_pitch(name: &str) -> (r: Result<PitchClass, ProgressionError>)
    ensures
        r == pitch_of_text(name@),
{
    match PitchClass::from_str(name) {
        Some(p) => Ok(p),
        None => Err(ProgressionError::Parse),
    }
}

/// Reads a scale degree from a pitch name and the text of its distance in
/// semitones from the root.
pub fn parse_scale_degree(pitch: &str, interval: &str) -> (r: Result<ScaleDegree, ProgressionError>)
    ensures
        r == scale_degree_of_text(pitch@, interval@),
        r matches Ok(d) ==> d.wf(),
{
    let p = parse_pitch(pitch)?;
    let n = parse_interval(interval)?;
    Ok(ScaleDegree { pitch: p, interval_from_root: n })
}

} // verus!
