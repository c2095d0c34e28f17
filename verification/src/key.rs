//! Key signatures
use vstd::prelude::*;
use vstd::arithmetic::div_mod::lemma_mod_multiples_vanish;
use crate::step::rem7;
use crate::step::Step;
use crate::tpc::Tpc;

verus! {

/// Key signatures, named after their major key.
///
/// The coordinate of a key (its view) is the fifths-offset of its tonic from
/// C, from -7 (C flat major, seven flats) to 7 (C sharp major, seven sharps).
/// Every key coordinate is also a valid [`Tpc`] coordinate.
#[derive(Clone, Copy, Debug, PartialEq, Eq, Structural)]
pub enum Key {
    Cb,
    Gb,
    Db,
    Ab,
    Eb,
    Bb,
    F,
    C,
    G,
    D,
    A,
    E,
    B,
    Fs,
    Cs,
}

impl View for Key {
    type V = int;

    /// The fifths-offset of the tonic from C, from -7 (`Cb`) to 7 (`Cs`).
    open spec fn view(&self) -> int {
        match *self {
            Key::Cb => -7,
            Key::Gb => -6,
            Key::Db => -5,
            Key::Ab => -4,
            Key::Eb => -3,
            Key::Bb => -2,
            Key::F => -1,
            Key::C => 0,
            Key::G => 1,
            Key::D => 2,
            Key::A => 3,
            Key::E => 4,
            Key::B => 5,
            Key::Fs => 6,
            Key::Cs => 7,
        }
    }
}

impl Key {
    /// The flattest key is C flat with seven flats.
    pub const MIN: Key = Key::Cb;

    /// The sharpest key is C sharp with seven sharps.
    pub const MAX: Key = Key::Cs;

    /// The number of different keys.
    pub const NUM_OF: isize = 15;

    /// Steps along the line of fifths to end up at an enharmonic key:
    /// for instance G flat major and F sharp major sound alike.
    pub const DELTA_ENHARMONIC: isize = 12;

    /// The key whose tonic sits at a given position on the line of fifths.
    ///
    /// Meaningful for positions in `-7..=7`.
    pub open spec fn of_fifths(fifths: int) -> Key
        recommends
            -7 <= fifths <= 7,
    {
        if fifths == -7 {
            Key::Cb
        } else if fifths == -6 {
            Key::Gb
        } else if fifths == -5 {
            Key::Db
        } else if fifths == -4 {
            Key::Ab
        } else if fifths == -3 {
            Key::Eb
        } else if fifths == -2 {
            Key::Bb
        } else if fifths == -1 {
            Key::F
        } else if fifths == 0 {
            Key::C
        } else if fifths == 1 {
            Key::G
        } else if fifths == 2 {
            Key::D
        } else if fifths == 3 {
            Key::A
        } else if fifths == 4 {
            Key::E
        } else if fifths == 5 {
            Key::B
        } else if fifths == 6 {
            Key::Fs
        } else {
            Key::Cs
        }
    }

    /// Construct a key from the raw position of its tonic on the line of
    /// fifths.
    ///
    /// Fails (returns `None`) for positions outside `-7..=7`.
    pub fn from_fifths(fifths: i8) -> (r: Option<Key>)
        ensures
            -7 <= fifths <= 7 ==> r == Some(Key::of_fifths(fifths as int)),
            !(-7 <= fifths <= 7) ==> r is None,
    {
        match fifths {
            -7 => Some(Key::Cb),
            -6 => Some(Key::Gb),
            -5 => Some(Key::Db),
            -4 => Some(Key::Ab),
            -3 => Some(Key::Eb),
            -2 => Some(Key::Bb),
            -1 => Some(Key::F),
            0 => Some(Key::C),
            1 => Some(Key::G),
            2 => Some(Key::D),
            3 => Some(Key::A),
            4 => Some(Key::E),
            5 => Some(Key::B),
            6 => Some(Key::Fs),
            7 => Some(Key::Cs),
            _ => None,
        }
    }

    /// The position of this key's tonic on the line of fifths.
    pub fn fifths(&self) -> (r: i8)
        ensures
            r as int == self@,
    {
        match *self {
            Key::Cb => -7,
            Key::Gb => -6,
            Key::Db => -5,
            Key::Ab => -4,
            Key::Eb => -3,
            Key::Bb => -2,
            Key::F => -1,
            Key::C => 0,
            Key::G => 1,
            Key::D => 2,
            Key::A => 3,
            Key::E => 4,
            Key::B => 5,
            Key::Fs => 6,
            Key::Cs => 7,
        }
    }

    /// The tonic of the key reinterpreted as a fully spelled pitch class:
    /// valid because every key coordinate is also a pitch-class coordinate.
    pub open spec fn root_spec(self) -> Tpc {
        Tpc::of_fifths(self@)
    }

    /// The root of this key's major scale.
    pub fn root(&self) -> (r: Tpc)
        ensures
            r == self.root_spec(),
    {
        Tpc::from_fifths(self.fifths()).unwrap()
    }

    /// The staff letter of the key's tonic.
    pub open spec fn root_step_spec(self) -> Step {
        self.root_spec().step_spec()
    }

    /// The root of the key's major scale, as a bare staff letter.
    pub fn root_step(&self) -> (r: Step)
        ensures
            r == self.root_step_spec(),
    {
        let m: u8 = ((self.fifths() + 7) as u8) % 7;
        proof {
            lemma_mod_multiples_vanish(1, self@, 7);
            Tpc::lemma_of_fifths_view(self@);
        }
        match m {
            0 => Step::C,
            1 => Step::G,
            2 => Step::D,
            3 => Step::A,
            4 => Step::E,
            5 => Step::B,
            _ => Step::F,
        }
    }

    /// The distance in fifths of each zero-indexed major-scale degree
    /// (I up to VII) from the tonic.
    pub open spec fn degree_offset(degree: int) -> int
        recommends
            0 <= degree < 7,
    {
        if degree == 0 {
            0
        } else if degree == 1 {
            2
        } else if degree == 2 {
            4
        } else if degree == 3 {
            -1
        } else if degree == 4 {
            1
        } else if degree == 5 {
            3
        } else {
            5
        }
    }

    /// The pitch class of a scale degree of the key's major scale, the
    /// degree taken cyclically.
    pub open spec fn scale_degree_spec(self, degree: int) -> Tpc {
        Tpc::of_fifths(self@ + Key::degree_offset(degree % 7))
    }

    /// Zero-indexed scale degrees: 0 is root, 4 is fifth.
    ///
    /// The degree wraps cyclically through the seven degrees, so this is
    /// total; the result always stays notatable because a major scale spans
    /// at most one fifth below and five above its tonic.
    pub fn scale_degree(&self, degree: isize) -> (r: Tpc)
        ensures
            r == self.scale_degree_spec(degree as int),
    {
        let d: usize = rem7(degree);
        let off: i8 = match d {
            0 => 0,
            1 => 2,
            2 => 4,
            3 => -1,
            4 => 1,
            5 => 3,
            _ => 5,
        };
        Tpc::from_fifths(self.fifths() + off).unwrap()
    }
}

/// The first scale degree of every key is its root.
pub proof fn lemma_root_is_first_scale_degree(key: Key)
    ensures
        key.root_spec() == key.scale_degree_spec(0),
{
}

/// Each major scale visits every letter: the diatonic spelling of any step
/// in a key is one of the key's seven scale degrees.
pub proof fn lemma_with_key_spells_scale_degree(step: Step, key: Key)
    ensures
        exists|n: int|
            0 <= n < 7 && key.scale_degree_spec(n) == step.with_key_spec(key),
{
    let v = (step.fifths_position() - key@) % 7 - 1;
    let n: int = if v == 0 {
        0
    } else if v == 2 {
        1
    } else if v == 4 {
        2
    } else if v == -1 {
        3
    } else if v == 1 {
        4
    } else if v == 3 {
        5
    } else {
        6
    };
    assert(0 <= n < 7 && key.scale_degree_spec(n) == step.with_key_spec(key));
}

impl Default for Key {
    /// The default key is C major, with no fixed accidentals.
    fn default() -> (r: Self)
        ensures
            r == Key::C,
    {
        Key::C
    }
}

} // verus!
