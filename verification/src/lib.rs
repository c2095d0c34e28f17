//! A library for handling tonal pitch classes, keys, intervals, accidentals
//! and alterations. A tonal pitch class ([`Tpc`]) does not distinguish pitches
//! in different octaves, but it does distinguish different enharmonic
//! spellings of notes, intervals, and keys. This is done based on the "line of
//! fifths" concept: every type is a bounded coordinate on (or derived from)
//! a single fifths axis, and all conversions are checked integer arithmetic
//! on those coordinates.
//!
//! Distinguishing enharmonic spellings is desirable in several applications:
//!
//! - In musical notation, where using an incorrect enharmonic spelling harms
//!   legibility
//! - When using other tunings than twelve tone equal temperament (12TET), in
//!   which case notes normally considered enharmonic should actually be
//!   played at different pitches.
//!
//! Another important type is the [`Step`], which represents the fact that
//! G sharp and G flat are written on the same line of the staff. A `Step`
//! combined with a [`Key`] or [`Accidental`] gives a `Tpc`.
//!
//! Arithmetic operations with `Tpc`s and [`Interval`]s return optional
//! values, because they may result in alterations beyond the domain of the
//! library. Triple sharps/flats or double diminished/augmented intervals are
//! not supported: the operations report `None` instead of wrapping.

pub mod accidental;
pub mod alteration;
pub mod interval;
pub mod key;
pub mod step;
pub mod tpc;

pub use accidental::Accidental;
pub use alteration::Alteration;
pub use interval::Interval;
pub use key::Key;
pub use step::Step;
pub use tpc::Tpc;
