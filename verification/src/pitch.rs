//! Note names such as `D#5` or `Bb3` and the pitch numbers they stand for.

use vstd::prelude::*;

verus! {

/// The highest pitch number that a channel-voice message can carry.
pub const MAX_PITCH: u8 = 127;

/// The semitone offset of a note letter inside its octave, in either case.
pub open spec fn letter_offset(c: char) -> Option<int> {
    if c == 'C' || c == 'c' {
        Some(0int)
    } else if c == 'D' || c == 'd' {
        Some(2int)
    } else if c == 'E' || c == 'e' {
        Some(4int)
    } else if c == 'F' || c == 'f' {
        Some(5int)
    } else if c == 'G' || c == 'g' {
        Some(7int)
    } else if c == 'A' || c == 'a' {
        Some(9int)
    } else if c == 'B' || c == 'b' {
        Some(11int)
    } else {
        None
    }
}

/// The value of a decimal digit.
pub open spec fn digit_value(c: char) -> Option<int> {
    if '0' <= c && c <= '9' {
        Some(c as int - '0' as int)
    } else {
        None
    }
}

/// Whether the second character of a name is a sharp or a flat sign.
pub open spec fn has_accidental(name: Seq<char>) -> bool {
    name.len() >= 2 && (name[1] == '#' || name[1] == 'b')
}

/// By how many semitones the accidental of a name moves its pitch.
pub open spec fn accidental_shift(name: Seq<char>) -> int {
    if name.len() >= 2 && name[1] == '#' {
        1
    } else if name.len() >= 2 && name[1] == 'b' {
        -1
    } else {
        0
    }
}

/// Where the octave digit of a name stands: behind the accidental if there is
/// one, behind the letter if not.
pub open spec fn octave_index(name: Seq<char>) -> int {
    if has_accidental(name) {
        2
    } else {
        1
    }
}

/// A name is malformed when it is empty, starts with no note letter, ends
/// before its octave digit, or has something else than a digit there.
pub open spec fn malformed(name: Seq<char>) -> bool {
    ||| name.len() == 0
    ||| letter_offset(name[0]) is None
    ||| octave_index(name) >= name.len()
    ||| digit_value(name[octave_index(name)]) is None
}

/// The pitch that a well-formed name denotes, before any range is applied:
/// the letter's offset, twelve semitones for each octave counted from -1, and
/// the accidental.
pub open spec fn semitones(name: Seq<char>) -> int
    recommends
        !malformed(name),
{
    letter_offset(name[0]).unwrap() + (digit_value(name[octave_index(name)]).unwrap() + 1) * 12
        + accidental_shift(name)
}

/// What a note name parses to. A name is read up to its octave digit; what
/// follows the digit plays no part. A pitch outside 0..=127 is no pitch.
pub open spec fn parse_note(name: Seq<char>) -> Option<u8> {
    if malformed(name) || semitones(name) < 0 || semitones(name) > MAX_PITCH {
        None
    } else {
        Some(semitones(name) as u8)
    }
}

fn letter_semitones(c: char) -> (offset: Option<u8>)
    ensures
        offset is Some <==> letter_offset(c) is Some,
        offset is Some ==> offset.unwrap() == letter_offset(c).unwrap(),
{
    if c == 'C' || c == 'c' {
        Some(0)
    } else if c == 'D' || c == 'd' {
        Some(2)
    } else if c == 'E' || c == 'e' {
        Some(4)
    } else if c == 'F' || c == 'f' {
        Some(5)
    } else if c == 'G' || c == 'g' {
        Some(7)
    } else if c == 'A' || c == 'a' {
        Some(9)
    } else if c == 'B' || c == 'b' {
        Some(11)
    } else {
        None
    }
}

fn decimal_digit(c: char) -> (digit: Option<u8>)
    ensures
        digit is Some <==> digit_value(c) is Some,
        digit is Some ==> digit.unwrap() == digit_value(c).unwrap() && digit.unwrap() <= 9,
{
    if '0' <= c && c <= '9' {
        Some((c as u32 - '0' as u32) as u8)
    } else {
        None
    }
}

/// Converts a note name to its pitch number.
///
/// Returns `None` exactly for the names that are malformed or whose pitch
/// falls outside 0..=127.
pub fn note_to_midi_value(note_name: &str) -> (pitch: Option<u8>)
    ensures
        pitch == parse_note(note_name@),
        pitch is None <==> malformed(note_name@) || semitones(note_name@) > MAX_PITCH,
        pitch is Some ==> pitch.unwrap() == semitones(note_name@) && pitch.unwrap() <= MAX_PITCH,
{
    let len: usize = note_name.unicode_len();
    if len == 0 {
        return None;
    }
    let note_char = note_name.get_char(0);
    let mut is_sharp = false;
    let mut is_flat = false;
    let mut octave_at: usize = 1;
    if len >= 2 {
        let next_char = note_name.get_char(1);
        if next_char == '#' {
            is_sharp = true;
            octave_at = 2;
        } else if next_char == 'b' {
            is_flat = true;
            octave_at = 2;
        }
    }
    if octave_at >= len {
        return None;
    }
    let octave = match decimal_digit(note_name.get_char(octave_at)) {
        Some(digit) => digit,
        None => return None,
    };
    let base = match letter_semitones(note_char) {
        Some(offset) => offset,
        None => return None,
    };
    let mut midi_value: u8 = base + (octave + 1) * 12;
    if is_sharp {
        midi_value += 1;
    } else if is_flat {
        midi_value -= 1;
    }
    if midi_value <= MAX_PITCH {
        Some(midi_value)
    } else {
        None
    }
}

/// A letter, an optional sharp or flat sign and one octave digit, written out
/// as a name.
pub open spec fn spelled(letter: char, accidental: Option<char>, octave: char) -> Seq<char> {
    match accidental {
        Some(sign) => seq![letter, sign, octave],
        None => seq![letter, octave],
    }
}

/// Every name made of a note letter, an optional `#` or `b` and one octave
/// digit parses to the letter's offset plus twelve times the octave counted
/// from -1, one more for a sharp and one less for a flat, whenever that number
/// is at most 127.
pub proof fn lemma_spelled_names_parse(letter: char, accidental: Option<char>, octave: char)
    requires
        letter_offset(letter) is Some,
        digit_value(octave) is Some,
        accidental is Some ==> accidental.unwrap() == '#' || accidental.unwrap() == 'b',
        letter_offset(letter).unwrap() + (digit_value(octave).unwrap() + 1) * 12 + (match accidental {
            Some(sign) => if sign == '#' { 1int } else { -1int },
            None => 0int,
        }) <= MAX_PITCH,
    ensures
        parse_note(spelled(letter, accidental, octave)) == Some(
            (letter_offset(letter).unwrap() + (digit_value(octave).unwrap() + 1) * 12 + (match accidental {
                Some(sign) => if sign == '#' { 1int } else { -1int },
                None => 0int,
            })) as u8,
        ),
{
}

/// The empty name, a name with an unknown letter, a name that ends before its
/// octave digit and a name with something else than a digit in that place all
/// fail to parse.
pub proof fn lemma_malformed_names_fail(name: Seq<char>)
    requires
        malformed(name),
    ensures
        parse_note(name) is None,
{
}

/// No well-formed name denotes a negative pitch: the lowest is `Cb0`, at 11.
pub proof fn lemma_semitones_at_least_eleven(name: Seq<char>)
    requires
        !malformed(name),
    ensures
        semitones(name) >= 11,
{
}

} // verus!
