//! Naming of MIDI notes: pitch class and octave.
use vstd::prelude::*;
use vstd::string::*;
use crate::decimal::{append_decimal, decimal_digits};

verus! {

/// Number of pitch classes in one octave.
pub const SEMITONES_PER_OCTAVE: i32 = 12;

/// MIDI number of the reference note A4.
pub const A4_MIDI: i32 = 69;

/// Index of a note's pitch class in the table C, C#, D, ..., B. The remainder
/// is the floored one, so it lies in `0..12` for negative notes too.
pub open spec fn pitch_class_index(midi: int) -> int {
    midi % 12
}

/// Octave of a note in the MIDI convention: note 60 is C4 and note 69 is A4.
/// The quotient is floored, so notes below 0 fall into octaves below -1.
pub open spec fn octave_of(midi: int) -> int {
    midi / 12 - 1
}

/// The label of the pitch class at `index`.
pub open spec fn pitch_class_label(index: int) -> Seq<char> {
    if index == 0 {
        seq!['C']
    } else if index == 1 {
        seq!['C', '#']
    } else if index == 2 {
        seq!['D']
    } else if index == 3 {
        seq!['D', '#']
    } else if index == 4 {
        seq!['E']
    } else if index == 5 {
        seq!['F']
    } else if index == 6 {
        seq!['F', '#']
    } else if index == 7 {
        seq!['G']
    } else if index == 8 {
        seq!['G', '#']
    } else if index == 9 {
        seq!['A']
    } else if index == 10 {
        seq!['A', '#']
    } else {
        seq!['B']
    }
}

/// The full name of a note: its pitch class label followed by its octave in
/// decimal.
pub open spec fn note_label(midi: int) -> Seq<char> {
    pitch_class_label(pitch_class_index(midi)) + decimal_digits(octave_of(midi))
}

/// The pitch class index of `midi`, always in `0..12`.
pub fn note_index(midi: i32) -> (index: usize)
    ensures
        index == pitch_class_index(midi as int),
        index < 12,
{
    if midi >= 0 {
        (midi % SEMITONES_PER_OCTAVE) as usize
    } else {
        let below: i32 = -(midi + 1);
        (SEMITONES_PER_OCTAVE - 1 - below % SEMITONES_PER_OCTAVE) as usize
    }
}

/// The octave of `midi`.
pub fn octave(midi: i32) -> (o: i32)
    ensures
        o == octave_of(midi as int),
{
    if midi >= 0 {
        midi / SEMITONES_PER_OCTAVE - 1
    } else {
        let below: i32 = -(midi + 1);
        -(below / SEMITONES_PER_OCTAVE) - 2
    }
}

/// The label of the pitch class at `index`.
pub fn pitch_class_name(index: usize) -> (name: &'static str)
    requires
        index < 12,
    ensures
        name@ == pitch_class_label(index as int),
{
    proof {
        reveal_strlit("C");
        reveal_strlit("C#");
        reveal_strlit("D");
        reveal_strlit("D#");
        reveal_strlit("E");
        reveal_strlit("F");
        reveal_strlit("F#");
        reveal_strlit("G");
        reveal_strlit("G#");
        reveal_strlit("A");
        reveal_strlit("A#");
        reveal_strlit("B");
    }
    let name: &'static str = if index == 0 {
        "C"
    } else if index == 1 {
        "C#"
    } else if index == 2 {
        "D"
    } else if index == 3 {
        "D#"
    } else if index == 4 {
        "E"
    } else if index == 5 {
        "F"
    } else if index == 6 {
        "F#"
    } else if index == 7 {
        "G"
    } else if index == 8 {
        "G#"
    } else if index == 9 {
        "A"
    } else if index == 10 {
        "A#"
    } else {
        "B"
    };
    assert(name@ =~= pitch_class_label(index as int));
    name
}

/// The name of the note `midi`, such as `A4` for 69 or `B-2` for -1.
pub fn note_name(midi: i32) -> (name: String)
    ensures
        name@ == note_label(midi as int),
{
    let mut name = String::from_str(pitch_class_name(note_index(midi)));
    append_decimal(&mut name, octave(midi));
    name
}

/// A note is recovered from its octave and pitch class.
pub proof fn lemma_note_decomposition(midi: int)
    ensures
        0 <= pitch_class_index(midi) < 12,
        midi == 12 * (octave_of(midi) + 1) + pitch_class_index(midi),
{
}

/// The octave and the pitch class are the only pair `(o, c)` with `c` in
/// `0..12` from which the note is recovered.
pub proof fn lemma_note_decomposition_unique(midi: int, o: int, c: int)
    requires
        0 <= c < 12,
        midi == 12 * (o + 1) + c,
    ensures
        o == octave_of(midi),
        c == pitch_class_index(midi),
{
    let q = octave_of(midi) + 1;
    let r = pitch_class_index(midi);
    assert(midi == 12 * q + r);
    assert(12 * (o + 1 - q) == r - c);
    if o + 1 > q {
        assert(12 * (o + 1 - q) >= 12);
    } else if o + 1 < q {
        assert(12 * (o + 1 - q) <= -12);
    }
}

/// Notes below C0 (MIDI note 12), and so every negative MIDI note, have a
/// negative octave and still a pitch class index in `0..12`.
pub proof fn lemma_low_notes(midi: int)
    ensures
        0 <= pitch_class_index(midi) < 12,
        midi < 12 <==> octave_of(midi) < 0,
        midi < 0 ==> octave_of(midi) <= -2,
{
}

/// One octave up keeps the pitch class and raises the octave by one.
pub proof fn lemma_octave_step(midi: int)
    ensures
        pitch_class_index(midi + 12) == pitch_class_index(midi),
        octave_of(midi + 12) == octave_of(midi) + 1,
{
}

} // verus!
