//! Fixed-point pitch positions and the nearest equal-tempered note.
//!
//! A position is a pitch measured in millicents (thousandths of a cent) above
//! MIDI note 0. A semitone is 100 cents, so note `n` sits exactly at position
//! `100_000 * n`, and a frequency `f` in hertz has the position
//! `100_000 * (12 * log2(f / 440) + 69)`.
use vstd::arithmetic::div_mod::{
    lemma_div_pos_is_pos, lemma_fundamental_div_mod, lemma_fundamental_div_mod_converse,
};
use vstd::prelude::*;
use crate::note::{note_label, note_name};

verus! {

/// Width of one cent in millicents.
pub const MILLICENTS_PER_CENT: i32 = 1_000;

/// Width of one semitone in millicents.
pub const MILLICENTS_PER_SEMITONE: i32 = 100_000;

/// Half a semitone in millicents: the largest deviation from a nearest note.
pub const HALF_SEMITONE: i32 = 50_000;

/// Position of the reference note A4 (440 Hz).
pub const A4_POSITION: i32 = 6_900_000;

/// Position of the note `note` at its exact tuning.
pub open spec fn note_position(note: int) -> int {
    note * 100_000
}

/// Signed distance in millicents from the exact tuning of `note` up to
/// `position`: positive is sharp, negative is flat.
pub open spec fn offset_from(position: int, note: int) -> int {
    position - note_position(note)
}

/// The note nearest to `position`. A position exactly halfway between two
/// notes goes to the one farther from zero.
pub open spec fn nearest_note(position: int) -> int {
    if position >= 0 {
        (position + 50_000) / 100_000
    } else {
        -((50_000 - position) / 100_000)
    }
}

/// What it means for `note` to be the nearest note: the position is at most
/// half a semitone away, and at exactly half a semitone the note is the one
/// of the two candidates that is farther from zero.
pub open spec fn is_nearest(position: int, note: int) -> bool {
    let offset = offset_from(position, note);
    &&& -50_000 <= offset <= 50_000
    &&& offset == 50_000 ==> position < 0
    &&& offset == -50_000 ==> position > 0
}

/// The nearest note of a pitch measured in units `scale` times finer than a
/// millicent, with the same rule for ties.
pub open spec fn nearest_note_at_scale(fine: int, scale: int) -> int {
    if fine >= 0 {
        (fine + 50_000 * scale) / (100_000 * scale)
    } else {
        -((50_000 * scale - fine) / (100_000 * scale))
    }
}

/// A pitch in units `scale` times finer than a millicent, cut to whole
/// millicents toward zero.
pub open spec fn truncated_position(fine: int, scale: int) -> int {
    if fine >= 0 {
        fine / scale
    } else {
        -((-fine) / scale)
    }
}

/// Absolute value.
pub open spec fn magnitude(v: int) -> int {
    if v < 0 {
        -v
    } else {
        v
    }
}

/// A mapped pitch: the nearest note, its name, and the deviation from it.
#[derive(Clone, Debug)]
pub struct NoteResult {
    /// MIDI number of the nearest note.
    pub midi_note: i32,
    /// Name of the nearest note, pitch class then octave.
    pub note_name: String,
    /// Deviation from the note's exact tuning in millicents.
    pub offset: i32,
}

impl NoteResult {
    /// The result that `position` maps to.
    pub open spec fn describes(&self, position: int) -> bool {
        &&& self.midi_note == nearest_note(position)
        &&& self.note_name@ == note_label(nearest_note(position))
        &&& self.offset == offset_from(position, nearest_note(position))
    }
}

/// The MIDI number of the note nearest to `position`.
pub fn nearest_midi_note(position: i32) -> (note: i32)
    ensures
        note == nearest_note(position as int),
        is_nearest(position as int, note as int),
{
    let wide: i64 = position as i64;
    let half: i64 = HALF_SEMITONE as i64;
    let semitone: i64 = MILLICENTS_PER_SEMITONE as i64;
    if wide >= 0 {
        ((wide + half) / semitone) as i32
    } else {
        (-((half - wide) / semitone)) as i32
    }
}

/// The deviation of `position` from its nearest note, in millicents.
pub fn tuning_offset(position: i32) -> (offset: i32)
    ensures
        offset == offset_from(position as int, nearest_note(position as int)),
        -50_000 <= offset <= 50_000,
{
    let note: i64 = nearest_midi_note(position) as i64;
    (position as i64 - note * (MILLICENTS_PER_SEMITONE as i64)) as i32
}

/// Maps a pitch position to its nearest note, the note's name and the
/// deviation from the note.
pub fn map_position(position: i32) -> (result: NoteResult)
    ensures
        result.describes(position as int),
        is_nearest(position as int, result.midi_note as int),
{
    let midi_note: i32 = nearest_midi_note(position);
    NoteResult { midi_note, note_name: note_name(midi_note), offset: tuning_offset(position) }
}

/// The nearest note is within half a semitone, with ties resolved away from
/// zero.
pub proof fn lemma_nearest_note_is_nearest(position: int)
    ensures
        is_nearest(position, nearest_note(position)),
{
}

/// Only one note satisfies `is_nearest` for a given position.
pub proof fn lemma_nearest_note_unique(position: int, note: int)
    requires
        is_nearest(position, note),
    ensures
        note == nearest_note(position),
{
    let n = nearest_note(position);
    if note > n {
        assert(note_position(note) >= note_position(n) + 100_000);
    } else if note < n {
        assert(note_position(note) <= note_position(n) - 100_000);
    }
}

/// No note is closer to a position than its nearest note.
pub proof fn lemma_no_note_is_closer(position: int, other: int)
    ensures
        magnitude(offset_from(position, nearest_note(position))) <= magnitude(
            offset_from(position, other),
        ),
{
    let n = nearest_note(position);
    if other > n {
        assert(note_position(other) >= note_position(n) + 100_000);
    } else if other < n {
        assert(note_position(other) <= note_position(n) - 100_000);
    }
}

/// A position that sits exactly on a note maps to that note with no
/// deviation.
pub proof fn lemma_exact_note_in_tune(note: int)
    ensures
        nearest_note(note_position(note)) == note,
        offset_from(note_position(note), note) == 0,
{
}

/// The deviation is zero only for positions that sit exactly on a note.
pub proof fn lemma_in_tune_only_on_notes(position: int)
    ensures
        offset_from(position, nearest_note(position)) == 0 <==> position % 100_000 == 0,
{
}

/// The nearest note never goes down when the position goes up.
pub proof fn lemma_nearest_note_monotonic(lower: int, upper: int)
    requires
        lower <= upper,
    ensures
        nearest_note(lower) <= nearest_note(upper),
{
}

/// Around the boundary halfway between `note` and the next note: just below
/// it the position belongs to `note` and is almost half a semitone sharp,
/// just above it the position belongs to the next note and is almost half a
/// semitone flat.
pub proof fn lemma_boundary_sides(note: int)
    ensures
        nearest_note(note_position(note) + 49_999) == note,
        offset_from(note_position(note) + 49_999, note) == 49_999,
        nearest_note(note_position(note) + 50_001) == note + 1,
        offset_from(note_position(note) + 50_001, note + 1) == -49_999,
{
}

/// Exactly on the boundary halfway between `note` and the next note, the
/// position goes to the note farther from zero.
pub proof fn lemma_boundary_tie(note: int)
    ensures
        note >= 0 ==> nearest_note(note_position(note) + 50_000) == note + 1,
        note < 0 ==> nearest_note(note_position(note) + 50_000) == note,
{
}

/// Cutting a finer measurement to whole millicents toward zero never moves
/// it to another note: the nearest note of the cut position is the nearest
/// note of the measurement itself.
pub proof fn lemma_truncation_keeps_nearest_note(fine: int, scale: int)
    requires
        scale >= 1,
    ensures
        nearest_note(truncated_position(fine, scale)) == nearest_note_at_scale(fine, scale),
{
    let size = if fine >= 0 {
        fine
    } else {
        -fine
    };
    let cut = size / scale;
    let rest = size % scale;
    let note = (cut + 50_000) / 100_000;
    let unit = 100_000 * scale;
    lemma_fundamental_div_mod(size, scale);
    assert(size == scale * cut + rest);
    assert(0 <= rest < scale);
    assert(cut >= 0) by {
        lemma_div_pos_is_pos(size, scale);
    }
    assert(100_000 * note <= cut + 50_000 <= 100_000 * note + 99_999);
    assert(size + 50_000 * scale == scale * (cut + 50_000) + rest) by (nonlinear_arith)
        requires
            size == scale * cut + rest,
    ;
    assert(unit * note <= scale * (cut + 50_000)) by (nonlinear_arith)
        requires
            100_000 * note <= cut + 50_000,
            scale >= 1,
            unit == 100_000 * scale,
    ;
    assert(scale * (cut + 50_000) + scale <= unit * note + unit) by (nonlinear_arith)
        requires
            cut + 50_000 <= 100_000 * note + 99_999,
            scale >= 1,
            unit == 100_000 * scale,
    ;
    let shifted = size + 50_000 * scale;
    assert(unit * note <= shifted < unit * note + unit);
    lemma_fundamental_div_mod_converse(shifted, unit, note, shifted - unit * note);
    assert(shifted / unit == note);
}

} // verus!
