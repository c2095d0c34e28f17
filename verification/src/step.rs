//! A position on a music staff
use vstd::prelude::*;
use vstd::arithmetic::div_mod::{
    lemma_add_mod_noop_right, lemma_fundamental_div_mod, lemma_fundamental_div_mod_converse,
    lemma_mod_add_multiples_vanish, lemma_sub_mod_noop_right,
};
use crate::accidental::Accidental;
use crate::key::Key;
use crate::tpc::Tpc;

verus! {

/// A `Step` corresponds to a position on a music staff, and relates to a
/// [`Tpc`] by stripping the latter of any alterations.
///
/// Its coordinate (the view) is the alphabetical position of the letter,
/// C = 0 up to B = 6. The seven letters form a true cycle, so stepping up or
/// down the staff alphabet wraps around and never fails.
#[derive(Clone, Copy, Debug, PartialEq, Eq, Structural, PartialOrd, Ord)]
#[must_use]
pub enum Step {
    C,
    D,
    E,
    F,
    G,
    A,
    B,
}

impl View for Step {
    type V = int;

    /// The alphabetical position of the letter, C = 0 up to B = 6.
    open spec fn view(&self) -> int {
        match *self {
            Step::C => 0,
            Step::D => 1,
            Step::E => 2,
            Step::F => 3,
            Step::G => 4,
            Step::A => 5,
            Step::B => 6,
        }
    }
}

/// Reduce an arbitrary signed count of letters into the seven-letter cycle:
/// the Euclidean (always nonnegative) remainder of a division by seven.
pub(crate) fn rem7(n: isize) -> (r: usize)
    ensures
        r as int == (n as int) % 7,
{
    if n >= 0 {
        (n as usize) % 7
    } else {
        let p: usize = ((-(n + 1)) as usize) % 7;
        proof {
            let ni = n as int;
            lemma_fundamental_div_mod(ni, 7);
            lemma_fundamental_div_mod_converse(-ni - 1, 7, -(ni / 7) - 1, 6 - (ni % 7));
        }
        6 - p
    }
}

impl Step {
    /// C is the lowest step.
    pub const MIN: Step = Step::C;

    /// B is the highest step.
    pub const MAX: Step = Step::B;

    /// The step at a given alphabetical position.
    ///
    /// Meaningful for positions in `0..=6`.
    pub open spec fn of_index(index: int) -> Step
        recommends
            0 <= index < 7,
    {
        if index == 0 {
            Step::C
        } else if index == 1 {
            Step::D
        } else if index == 2 {
            Step::E
        } else if index == 3 {
            Step::F
        } else if index == 4 {
            Step::G
        } else if index == 5 {
            Step::A
        } else {
            Step::B
        }
    }

    /// The position of the letter on the circle of fifths starting at F:
    /// F = 0, C = 1, G = 2, D = 3, A = 4, E = 5, B = 6.
    pub open spec fn fifths_position(self) -> int {
        match self {
            Step::C => 1,
            Step::D => 3,
            Step::E => 5,
            Step::F => 0,
            Step::G => 2,
            Step::A => 4,
            Step::B => 6,
        }
    }

    /// Construct a step from its raw alphabetical position.
    ///
    /// Fails (returns `None`) for positions outside `0..=6`.
    pub fn from_index(index: i8) -> (r: Option<Step>)
        ensures
            0 <= index < 7 ==> r == Some(Step::of_index(index as int)),
            !(0 <= index < 7) ==> r is None,
    {
        match index {
            0 => Some(Step::C),
            1 => Some(Step::D),
            2 => Some(Step::E),
            3 => Some(Step::F),
            4 => Some(Step::G),
            5 => Some(Step::A),
            6 => Some(Step::B),
            _ => None,
        }
    }

    /// The alphabetical position of this step.
    pub fn index(self) -> (r: i8)
        ensures
            r as int == self@,
    {
        match self {
            Step::C => 0,
            Step::D => 1,
            Step::E => 2,
            Step::F => 3,
            Step::G => 4,
            Step::A => 5,
            Step::B => 6,
        }
    }

    /// The position of this step's letter on the circle of fifths.
    fn fifths_pos(self) -> (r: i8)
        ensures
            r as int == self.fifths_position(),
    {
        match self {
            Step::C => 1,
            Step::D => 3,
            Step::E => 5,
            Step::F => 0,
            Step::G => 2,
            Step::A => 4,
            Step::B => 6,
        }
    }

    /// Steps with the same position on the circle of fifths are equal.
    pub proof fn lemma_fifths_position_injective(self, other: Step)
        ensures
            self.fifths_position() == other.fifths_position() ==> self == other,
            0 <= self.fifths_position() < 7,
    {
    }

    /// The step a given number of letters up the cyclic staff alphabet.
    pub open spec fn add_spec(self, n: int) -> Step {
        Step::of_index((self@ + n) % 7)
    }

    /// The step a given number of letters down the cyclic staff alphabet.
    pub open spec fn sub_spec(self, n: int) -> Step {
        Step::of_index((self@ - n) % 7)
    }

    /// Move the step up the staff alphabet, wrapping cyclically.
    ///
    /// Total: the seven letters form a true cycle, so this never fails.
    pub fn add(self, rhs: isize) -> (r: Step)
        ensures
            r == self.add_spec(rhs as int),
    {
        let i: usize = ((self.index() as usize) + rem7(rhs)) % 7;
        proof {
            lemma_add_mod_noop_right(self@, rhs as int, 7);
        }
        Step::of_index_total(i)
    }

    /// Move the step down the staff alphabet, wrapping cyclically.
    ///
    /// Total: the seven letters form a true cycle, so this never fails.
    pub fn sub(self, rhs: isize) -> (r: Step)
        ensures
            r == self.sub_spec(rhs as int),
    {
        let i: usize = ((self.index() as usize) + 7 - rem7(rhs)) % 7;
        proof {
            lemma_sub_mod_noop_right(self@, rhs as int, 7);
            lemma_mod_add_multiples_vanish(self@ - (rhs as int) % 7, 7);
        }
        Step::of_index_total(i)
    }

    /// The step at a position known to lie in the seven-letter cycle.
    fn of_index_total(index: usize) -> (r: Step)
        requires
            index < 7,
        ensures
            r == Step::of_index(index as int),
    {
        match index {
            0 => Step::C,
            1 => Step::D,
            2 => Step::E,
            3 => Step::F,
            4 => Step::G,
            5 => Step::A,
            _ => Step::B,
        }
    }

    /// The unique tonal pitch class whose letter is this step and whose
    /// accidental level is the given accidental's.
    pub open spec fn with_accidental_spec(self, alter: Accidental) -> Tpc {
        Tpc::of_fifths(7 * alter@ + self.fifths_position() - 1)
    }

    /// The tonal pitch class resulting from applying an accidental to the
    /// step.
    ///
    /// Total: every letter with up to a double sharp or double flat is
    /// notatable.
    pub fn with_accidental(self, alter: Accidental) -> (r: Tpc)
        ensures
            r == self.with_accidental_spec(alter),
    {
        let f: i8 = 7 * alter.level() + self.fifths_pos() - 1;
        Tpc::from_fifths(f).unwrap()
    }

    /// The canonical diatonic spelling of this step inside the major scale
    /// built on the given key: the unique pitch class carrying this letter
    /// in the seven-fifths band that the key's scale occupies.
    pub open spec fn with_key_spec(self, key: Key) -> Tpc {
        Tpc::of_fifths(key@ - 1 + (self.fifths_position() - key@) % 7)
    }

    /// The tonal pitch class of the step in the given key.
    ///
    /// Total: each major scale visits every letter exactly once.
    pub fn with_key(self, key: Key) -> (r: Tpc)
        ensures
            r == self.with_key_spec(key),
    {
        let k: i8 = key.fifths();
        let m: i8 = (((self.fifths_pos() - k + 7) as u8) % 7) as i8;
        proof {
            lemma_mod_add_multiples_vanish(self.fifths_position() - key@, 7);
        }
        Tpc::from_fifths(k - 1 + m).unwrap()
    }
}

impl From<Tpc> for Step {
    /// The step of a tonal pitch class, stripping any alteration.
    fn from(tpc: Tpc) -> (r: Step) {
        tpc.step()
    }
}

impl vstd::std_specs::convert::FromSpecImpl<Tpc> for Step {
    open spec fn obeys_from_spec() -> bool {
        true
    }

    open spec fn from_spec(tpc: Tpc) -> Step {
        tpc.step_spec()
    }
}

/// Spelling a step in any key keeps the letter: the diatonic spelling of a
/// step in a key carries that very step.
pub proof fn lemma_with_key_keeps_step(step: Step, key: Key)
    ensures
        step.with_key_spec(key).step_spec() == step,
{
    let p = step.fifths_position();
    let k = key@;
    let w = step.with_key_spec(key);
    Tpc::lemma_of_fifths_view(k - 1 + (p - k) % 7);
    w.lemma_step_fifths_position();
    lemma_add_mod_noop_right(k, p - k, 7);
    step.lemma_fifths_position_injective(w.step_spec());
}

} // verus!
