//! Accidentals
use vstd::prelude::*;

verus! {

/// Double or single flat, natural, double or single sharp.
///
/// An accidental is an absolute spelling modifier: applied to a [`crate::Step`]
/// it yields a fully spelled [`crate::Tpc`]. Its coordinate (the view) is the
/// alteration level, from `-2` for a double flat to `2` for a double sharp.
#[derive(Clone, Copy, Debug, PartialEq, Eq, Structural)]
pub enum Accidental {
    DblFlat,
    Flat,
    Natural,
    Sharp,
    DblSharp,
}

impl View for Accidental {
    type V = int;

    /// The alteration level: -2 (double flat) up to 2 (double sharp).
    open spec fn view(&self) -> int {
        match *self {
            Accidental::DblFlat => -2,
            Accidental::Flat => -1,
            Accidental::Natural => 0,
            Accidental::Sharp => 1,
            Accidental::DblSharp => 2,
        }
    }
}

impl Accidental {
    /// The accidental sitting at a given alteration level.
    ///
    /// Meaningful for levels in `-2..=2`, the five representable accidentals.
    pub open spec fn of_level(level: int) -> Accidental
        recommends
            -2 <= level <= 2,
    {
        if level == -2 {
            Accidental::DblFlat
        } else if level == -1 {
            Accidental::Flat
        } else if level == 0 {
            Accidental::Natural
        } else if level == 1 {
            Accidental::Sharp
        } else {
            Accidental::DblSharp
        }
    }

    /// Construct an accidental from its raw alteration level.
    ///
    /// Fails (returns `None`) for levels outside `-2..=2`.
    pub fn from_level(level: i8) -> (r: Option<Accidental>)
        ensures
            -2 <= level <= 2 ==> r == Some(Accidental::of_level(level as int)),
            !(-2 <= level <= 2) ==> r is None,
    {
        match level {
            -2 => Some(Accidental::DblFlat),
            -1 => Some(Accidental::Flat),
            0 => Some(Accidental::Natural),
            1 => Some(Accidental::Sharp),
            2 => Some(Accidental::DblSharp),
            _ => None,
        }
    }

    /// The alteration level of this accidental.
    pub fn level(&self) -> (r: i8)
        ensures
            r as int == self@,
    {
        match *self {
            Accidental::DblFlat => -2,
            Accidental::Flat => -1,
            Accidental::Natural => 0,
            Accidental::Sharp => 1,
            Accidental::DblSharp => 2,
        }
    }
}

} // verus!
