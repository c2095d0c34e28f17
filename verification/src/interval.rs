//! Intervals with enharmonic distinction
use vstd::prelude::*;
use vstd::arithmetic::div_mod::lemma_mod_multiples_vanish;

verus! {

/// An interval relates two tonal pitch classes to each other.
///
/// The 25 variants are the distances on the line of fifths from `-12`
/// (a diminished second) to `12` (an augmented seventh); that coordinate is
/// the view. Note: intervals are ordered by distance on the line of fifths,
/// not by the number of semitones, so for instance `P5 < Aug4`.
#[derive(Clone, Copy, Debug, PartialEq, Eq, Structural, PartialOrd, Ord)]
pub enum Interval {
    Dim2,
    Dim6,
    Dim3,
    Dim7,
    Dim4,
    Dim1,
    Dim5,
    Min2,
    Min6,
    Min3,
    Min7,
    P4,
    Unison,
    P5,
    Maj2,
    Maj6,
    Maj3,
    Maj7,
    Aug4,
    Aug1,
    Aug5,
    Aug2,
    Aug6,
    Aug3,
    Aug7,
}

impl View for Interval {
    type V = int;

    /// The distance on the line of fifths, from -12 (`Dim2`) to 12 (`Aug7`).
    open spec fn view(&self) -> int {
        match *self {
            Interval::Dim2 => -12,
            Interval::Dim6 => -11,
            Interval::Dim3 => -10,
            Interval::Dim7 => -9,
            Interval::Dim4 => -8,
            Interval::Dim1 => -7,
            Interval::Dim5 => -6,
            Interval::Min2 => -5,
            Interval::Min6 => -4,
            Interval::Min3 => -3,
            Interval::Min7 => -2,
            Interval::P4 => -1,
            Interval::Unison => 0,
            Interval::P5 => 1,
            Interval::Maj2 => 2,
            Interval::Maj6 => 3,
            Interval::Maj3 => 4,
            Interval::Maj7 => 5,
            Interval::Aug4 => 6,
            Interval::Aug1 => 7,
            Interval::Aug5 => 8,
            Interval::Aug2 => 9,
            Interval::Aug6 => 10,
            Interval::Aug3 => 11,
            Interval::Aug7 => 12,
        }
    }
}

impl Interval {
    /// The smallest interval is a diminished second.
    pub const MIN: Interval = Interval::Dim2;

    /// The biggest interval is an augmented seventh.
    pub const MAX: Interval = Interval::Aug7;

    /// The number of steps along the line of fifths to an enharmonic
    /// variant of an interval.
    pub const DELTA_ENHARMONIC: i8 = 12;

    /// The interval sitting at a given position on the line of fifths.
    ///
    /// Meaningful for positions in `-12..=12`.
    pub open spec fn of_fifths(fifths: int) -> Interval
        recommends
            -12 <= fifths <= 12,
    {
        if fifths == -12 {
            Interval::Dim2
        } else if fifths == -11 {
            Interval::Dim6
        } else if fifths == -10 {
            Interval::Dim3
        } else if fifths == -9 {
            Interval::Dim7
        } else if fifths == -8 {
            Interval::Dim4
        } else if fifths == -7 {
            Interval::Dim1
        } else if fifths == -6 {
            Interval::Dim5
        } else if fifths == -5 {
            Interval::Min2
        } else if fifths == -4 {
            Interval::Min6
        } else if fifths == -3 {
            Interval::Min3
        } else if fifths == -2 {
            Interval::Min7
        } else if fifths == -1 {
            Interval::P4
        } else if fifths == 0 {
            Interval::Unison
        } else if fifths == 1 {
            Interval::P5
        } else if fifths == 2 {
            Interval::Maj2
        } else if fifths == 3 {
            Interval::Maj6
        } else if fifths == 4 {
            Interval::Maj3
        } else if fifths == 5 {
            Interval::Maj7
        } else if fifths == 6 {
            Interval::Aug4
        } else if fifths == 7 {
            Interval::Aug1
        } else if fifths == 8 {
            Interval::Aug5
        } else if fifths == 9 {
            Interval::Aug2
        } else if fifths == 10 {
            Interval::Aug6
        } else if fifths == 11 {
            Interval::Aug3
        } else {
            Interval::Aug7
        }
    }

    /// Construct an interval from its raw position on the line of fifths.
    ///
    /// Fails (returns `None`) for positions outside `-12..=12`.
    pub fn from_fifths(fifths: i8) -> (r: Option<Interval>)
        ensures
            -12 <= fifths <= 12 ==> r == Some(Interval::of_fifths(fifths as int)),
            !(-12 <= fifths <= 12) ==> r is None,
    {
        match fifths {
            -12 => Some(Interval::Dim2),
            -11 => Some(Interval::Dim6),
            -10 => Some(Interval::Dim3),
            -9 => Some(Interval::Dim7),
            -8 => Some(Interval::Dim4),
            -7 => Some(Interval::Dim1),
            -6 => Some(Interval::Dim5),
            -5 => Some(Interval::Min2),
            -4 => Some(Interval::Min6),
            -3 => Some(Interval::Min3),
            -2 => Some(Interval::Min7),
            -1 => Some(Interval::P4),
            0 => Some(Interval::Unison),
            1 => Some(Interval::P5),
            2 => Some(Interval::Maj2),
            3 => Some(Interval::Maj6),
            4 => Some(Interval::Maj3),
            5 => Some(Interval::Maj7),
            6 => Some(Interval::Aug4),
            7 => Some(Interval::Aug1),
            8 => Some(Interval::Aug5),
            9 => Some(Interval::Aug2),
            10 => Some(Interval::Aug6),
            11 => Some(Interval::Aug3),
            12 => Some(Interval::Aug7),
            _ => None,
        }
    }

    /// The position of this interval on the line of fifths.
    pub fn fifths(self) -> (r: i8)
        ensures
            r as int == self@,
    {
        match self {
            Interval::Dim2 => -12,
            Interval::Dim6 => -11,
            Interval::Dim3 => -10,
            Interval::Dim7 => -9,
            Interval::Dim4 => -8,
            Interval::Dim1 => -7,
            Interval::Dim5 => -6,
            Interval::Min2 => -5,
            Interval::Min6 => -4,
            Interval::Min3 => -3,
            Interval::Min7 => -2,
            Interval::P4 => -1,
            Interval::Unison => 0,
            Interval::P5 => 1,
            Interval::Maj2 => 2,
            Interval::Maj6 => 3,
            Interval::Maj3 => 4,
            Interval::Maj7 => 5,
            Interval::Aug4 => 6,
            Interval::Aug1 => 7,
            Interval::Aug5 => 8,
            Interval::Aug2 => 9,
            Interval::Aug6 => 10,
            Interval::Aug3 => 11,
            Interval::Aug7 => 12,
        }
    }

    /// In the representable range, `of_fifths` produces the interval at the
    /// asked-for position.
    pub proof fn lemma_of_fifths_view(fifths: int)
        requires
            -12 <= fifths <= 12,
        ensures
            Interval::of_fifths(fifths)@ == fifths,
    {
    }

    /// Whether two intervals are enharmonic: whether they represent the same
    /// distance in semitones in twelve tone equal temperament, which holds
    /// exactly when their fifths positions differ by a multiple of 12.
    pub open spec fn enharmonic_spec(self, other: Interval) -> bool {
        (self@ - other@) % 12 == 0
    }

    /// Whether the two intervals are enharmonic, i.e. represent the same
    /// distance in semitones in twelve tone equal temperament.
    pub fn enharmonic(self, other: Interval) -> (r: bool)
        ensures
            r == self.enharmonic_spec(other),
    {
        let d: i8 = self.fifths() - other.fifths();
        let m: u8 = ((d + 24) as u8) % 12;
        proof {
            lemma_mod_multiples_vanish(2, self@ - other@, 12);
        }
        m == 0
    }

    /// The sum of the two intervals on the line of fifths, where that sum is
    /// still a representable interval.
    pub open spec fn add_spec(self, rhs: Interval) -> Option<Interval> {
        if -12 <= self@ + rhs@ <= 12 {
            Some(Interval::of_fifths(self@ + rhs@))
        } else {
            None
        }
    }

    /// The difference of the two intervals on the line of fifths, where that
    /// difference is still a representable interval.
    pub open spec fn sub_spec(self, rhs: Interval) -> Option<Interval> {
        if -12 <= self@ - rhs@ <= 12 {
            Some(Interval::of_fifths(self@ - rhs@))
        } else {
            None
        }
    }

    /// Add two intervals.
    ///
    /// Returns `None` if the sum falls outside the representable range, as
    /// when composing two large intervals exceeds an augmented seventh or a
    /// diminished second.
    pub fn add(self, rhs: Interval) -> (r: Option<Interval>)
        ensures
            r == self.add_spec(rhs),
    {
        Interval::from_fifths(self.fifths() + rhs.fifths())
    }

    /// Subtract an interval from this one.
    ///
    /// Returns `None` if the difference falls outside the representable
    /// range.
    pub fn sub(self, rhs: Interval) -> (r: Option<Interval>)
        ensures
            r == self.sub_spec(rhs),
    {
        Interval::from_fifths(self.fifths() - rhs.fifths())
    }
}

impl Default for Interval {
    /// The default interval is the unison.
    fn default() -> (r: Self)
        ensures
            r == Interval::Unison,
    {
        Interval::Unison
    }
}

} // verus!
