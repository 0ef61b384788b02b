//! Equal-temperament note arithmetic for an instrument tuner.
//!
//! Pitches are handled in fixed point: a *position* counts millicents
//! (thousandths of a cent) above MIDI note 0, so that every decision the tuner
//! makes (which note is nearest, how far off it is, what the note is called)
//! is exact integer arithmetic.
//!
//! - [`pitch`] finds the nearest note of a position and the deviation from it.
//! - [`note`] names a MIDI note by pitch class and octave.
//! - [`decimal`] renders integers in decimal.
//! - [`window`] lays out the analysis window of the pitch detector.
pub mod decimal;
pub mod note;
pub mod pitch;
pub mod window;
