//! Tonal pitch classes
use vstd::prelude::*;
use vstd::arithmetic::div_mod::{
    lemma_add_mod_noop, lemma_fundamental_div_mod, lemma_fundamental_div_mod_converse,
    lemma_mod_multiples_vanish, lemma_sub_mod_noop, lemma_sub_mod_noop_right,
};
use crate::accidental::Accidental;
use crate::alteration::Alteration;
use crate::interval::Interval;
use crate::key::Key;
use crate::step::Step;

verus! {

/// Tonal pitch class.
///
/// Has variants for all pitch classes with double or single flats, natural,
/// double or single sharps. The coordinate of a variant (its view) is its
/// number of steps away from C on the "line of fifths": for instance F is one
/// fifth below C and has the coordinate -1. The full range runs from -15
/// (F double flat) to 19 (B double sharp).
///
/// Note that the "s" and "ss" suffixes mean sharp and double sharp. Should
/// not be confused with the names of flat notes, which in some languages use
/// the -s suffix.
#[derive(Clone, Copy, Debug, PartialEq, Eq, Structural, PartialOrd, Ord)]
#[must_use]
pub enum Tpc {
    Fbb,
    Cbb,
    Gbb,
    Dbb,
    Abb,
    Ebb,
    Bbb,
    Fb,
    Cb,
    Gb,
    Db,
    Ab,
    Eb,
    Bb,
    F,
    C,
    G,
    D,
    A,
    E,
    B,
    Fs,
    Cs,
    Gs,
    Ds,
    As,
    Es,
    Bs,
    Fss,
    Css,
    Gss,
    Dss,
    Ass,
    Ess,
    Bss,
}

impl View for Tpc {
    type V = int;

    /// The position on the line of fifths, from -15 (`Fbb`) to 19 (`Bss`),
    /// with C at 0.
    open spec fn view(&self) -> int {
        match *self {
            Tpc::Fbb => -15,
            Tpc::Cbb => -14,
            Tpc::Gbb => -13,
            Tpc::Dbb => -12,
            Tpc::Abb => -11,
            Tpc::Ebb => -10,
            Tpc::Bbb => -9,
            Tpc::Fb => -8,
            Tpc::Cb => -7,
            Tpc::Gb => -6,
            Tpc::Db => -5,
            Tpc::Ab => -4,
            Tpc::Eb => -3,
            Tpc::Bb => -2,
            Tpc::F => -1,
            Tpc::C => 0,
            Tpc::G => 1,
            Tpc::D => 2,
            Tpc::A => 3,
            Tpc::E => 4,
            Tpc::B => 5,
            Tpc::Fs => 6,
            Tpc::Cs => 7,
            Tpc::Gs => 8,
            Tpc::Ds => 9,
            Tpc::As => 10,
            Tpc::Es => 11,
            Tpc::Bs => 12,
            Tpc::Fss => 13,
            Tpc::Css => 14,
            Tpc::Gss => 15,
            Tpc::Dss => 16,
            Tpc::Ass => 17,
            Tpc::Ess => 18,
            Tpc::Bss => 19,
        }
    }
}

impl Tpc {
    /// The flattest valid Tpc: F double flat.
    pub const MIN: Tpc = Tpc::Fbb;

    /// The sharpest valid Tpc: B double sharp.
    pub const MAX: Tpc = Tpc::Bss;

    /// The tonal pitch class sitting at a given position on the line of
    /// fifths.
    ///
    /// Meaningful for positions in `-15..=19`, the notatable spellings.
    pub open spec fn of_fifths(fifths: int) -> Tpc
        recommends
            -15 <= fifths <= 19,
    {
        if fifths == -15 {
            Tpc::Fbb
        } else if fifths == -14 {
            Tpc::Cbb
        } else if fifths == -13 {
            Tpc::Gbb
        } else if fifths == -12 {
            Tpc::Dbb
        } else if fifths == -11 {
            Tpc::Abb
        } else if fifths == -10 {
            Tpc::Ebb
        } else if fifths == -9 {
            Tpc::Bbb
        } else if fifths == -8 {
            Tpc::Fb
        } else if fifths == -7 {
            Tpc::Cb
        } else if fifths == -6 {
            Tpc::Gb
        } else if fifths == -5 {
            Tpc::Db
        } else if fifths == -4 {
            Tpc::Ab
        } else if fifths == -3 {
            Tpc::Eb
        } else if fifths == -2 {
            Tpc::Bb
        } else if fifths == -1 {
            Tpc::F
        } else if fifths == 0 {
            Tpc::C
        } else if fifths == 1 {
            Tpc::G
        } else if fifths == 2 {
            Tpc::D
        } else if fifths == 3 {
            Tpc::A
        } else if fifths == 4 {
            Tpc::E
        } else if fifths == 5 {
            Tpc::B
        } else if fifths == 6 {
            Tpc::Fs
        } else if fifths == 7 {
            Tpc::Cs
        } else if fifths == 8 {
            Tpc::Gs
        } else if fifths == 9 {
            Tpc::Ds
        } else if fifths == 10 {
            Tpc::As
        } else if fifths == 11 {
            Tpc::Es
        } else if fifths == 12 {
            Tpc::Bs
        } else if fifths == 13 {
            Tpc::Fss
        } else if fifths == 14 {
            Tpc::Css
        } else if fifths == 15 {
            Tpc::Gss
        } else if fifths == 16 {
            Tpc::Dss
        } else if fifths == 17 {
            Tpc::Ass
        } else if fifths == 18 {
            Tpc::Ess
        } else {
            Tpc::Bss
        }
    }

    /// Construct a tonal pitch class from its raw position on the line of
    /// fifths.
    ///
    /// Fails (returns `None`) for positions outside `-15..=19`.
    pub fn from_fifths(fifths: i8) -> (r: Option<Tpc>)
        ensures
            -15 <= fifths <= 19 ==> r == Some(Tpc::of_fifths(fifths as int)),
            !(-15 <= fifths <= 19) ==> r is None,
    {
        match fifths {
            -15 => Some(Tpc::Fbb),
            -14 => Some(Tpc::Cbb),
            -13 => Some(Tpc::Gbb),
            -12 => Some(Tpc::Dbb),
            -11 => Some(Tpc::Abb),
            -10 => Some(Tpc::Ebb),
            -9 => Some(Tpc::Bbb),
            -8 => Some(Tpc::Fb),
            -7 => Some(Tpc::Cb),
            -6 => Some(Tpc::Gb),
            -5 => Some(Tpc::Db),
            -4 => Some(Tpc::Ab),
            -3 => Some(Tpc::Eb),
            -2 => Some(Tpc::Bb),
            -1 => Some(Tpc::F),
            0 => Some(Tpc::C),
            1 => Some(Tpc::G),
            2 => Some(Tpc::D),
            3 => Some(Tpc::A),
            4 => Some(Tpc::E),
            5 => Some(Tpc::B),
            6 => Some(Tpc::Fs),
            7 => Some(Tpc::Cs),
            8 => Some(Tpc::Gs),
            9 => Some(Tpc::Ds),
            10 => Some(Tpc::As),
            11 => Some(Tpc::Es),
            12 => Some(Tpc::Bs),
            13 => Some(Tpc::Fss),
            14 => Some(Tpc::Css),
            15 => Some(Tpc::Gss),
            16 => Some(Tpc::Dss),
            17 => Some(Tpc::Ass),
            18 => Some(Tpc::Ess),
            19 => Some(Tpc::Bss),
            _ => None,
        }
    }

    /// The position of this tonal pitch class on the line of fifths.
    pub fn fifths(self) -> (r: i8)
        ensures
            r as int == self@,
    {
        match self {
            Tpc::Fbb => -15,
            Tpc::Cbb => -14,
            Tpc::Gbb => -13,
            Tpc::Dbb => -12,
            Tpc::Abb => -11,
            Tpc::Ebb => -10,
            Tpc::Bbb => -9,
            Tpc::Fb => -8,
            Tpc::Cb => -7,
            Tpc::Gb => -6,
            Tpc::Db => -5,
            Tpc::Ab => -4,
            Tpc::Eb => -3,
            Tpc::Bb => -2,
            Tpc::F => -1,
            Tpc::C => 0,
            Tpc::G => 1,
            Tpc::D => 2,
            Tpc::A => 3,
            Tpc::E => 4,
            Tpc::B => 5,
            Tpc::Fs => 6,
            Tpc::Cs => 7,
            Tpc::Gs => 8,
            Tpc::Ds => 9,
            Tpc::As => 10,
            Tpc::Es => 11,
            Tpc::Bs => 12,
            Tpc::Fss => 13,
            Tpc::Css => 14,
            Tpc::Gss => 15,
            Tpc::Dss => 16,
            Tpc::Ass => 17,
            Tpc::Ess => 18,
            Tpc::Bss => 19,
        }
    }

    /// Each tonal pitch class is the pitch class of its own fifths position.
    pub proof fn lemma_of_fifths_id(self)
        ensures
            Tpc::of_fifths(self@) == self,
            -15 <= self@ <= 19,
    {
    }

    /// In the notatable range, `of_fifths` produces the pitch class at the
    /// asked-for position.
    pub proof fn lemma_of_fifths_view(fifths: int)
        requires
            -15 <= fifths <= 19,
        ensures
            Tpc::of_fifths(fifths)@ == fifths,
    {
    }

    /// The staff letter of the pitch class: the letter repeats every seven
    /// positions along the line of fifths, with C at position 0.
    pub open spec fn step_spec(self) -> Step {
        let m = self@ % 7;
        if m == 0 {
            Step::C
        } else if m == 1 {
            Step::G
        } else if m == 2 {
            Step::D
        } else if m == 3 {
            Step::A
        } else if m == 4 {
            Step::E
        } else if m == 5 {
            Step::B
        } else {
            Step::F
        }
    }

    /// The basic step of the Tpc, or where it is placed on the staff.
    pub fn step(self) -> (s: Step)
        ensures
            s == self.step_spec(),
    {
        let m: u8 = ((self.fifths() + 21) as u8) % 7;
        proof {
            lemma_mod_multiples_vanish(3, self@, 7);
        }
        match m {
            0 => Step::C,
            1 => Step::G,
            2 => Step::D,
            3 => Step::A,
            4 => Step::E,
            5 => Step::B,
            _ => Step::F,
        }
    }

    /// The letter of a pitch class sits on the circle of fifths one place
    /// after the pitch class's own position, reduced to the seven letters.
    pub proof fn lemma_step_fifths_position(self)
        ensures
            self.step_spec().fifths_position() == (self@ + 1) % 7,
    {
        lemma_add_mod_noop(self@, 1, 7);
    }

    /// The accidental of the pitch class: one alteration level for each band
    /// of seven positions along the line of fifths.
    pub open spec fn accidental_spec(self) -> Accidental {
        Accidental::of_level((self@ + 1) / 7)
    }

    /// The accidental for the Tpc, from double flat up to double sharp.
    ///
    /// You rarely want an accidental without the context of a key: see
    /// [`Tpc::altered_step`].
    pub fn accidental(self) -> (r: Accidental)
        ensures
            r == self.accidental_spec(),
    {
        let q: u8 = ((self.fifths() + 15) as u8) / 7;
        proof {
            lemma_fundamental_div_mod(self@ + 1, 7);
            lemma_fundamental_div_mod_converse(
                self@ + 15,
                7,
                (self@ + 1) / 7 + 2,
                (self@ + 1) % 7,
            );
        }
        match q {
            0 => Accidental::DblFlat,
            1 => Accidental::Flat,
            2 => Accidental::Natural,
            3 => Accidental::Sharp,
            _ => Accidental::DblSharp,
        }
    }

    /// The number of semitones by which the pitch class is altered with
    /// respect to the diatonic spelling of its letter in a key.
    pub open spec fn alteration_spec(self, key: Key) -> int {
        (self@ - key@ + 22) / 7 - 3
    }

    /// The number of semitones by which the tpc is altered with respect to
    /// the key: zero exactly when the pitch is diatonic in the key, and in
    /// general the delta that [`Tpc::alter`] would need to rebuild the pitch
    /// from its diatonic spelling.
    pub fn alteration(self, key: Key) -> (r: Alteration)
        ensures
            r as int == self.alteration_spec(key),
            self@ == self.step_spec().with_key_spec(key)@ + 7 * (r as int),
    {
        let n: u8 = ((self.fifths() - key.fifths() + 22) as u8) / 7;
        proof {
            self.lemma_alteration_meaning(key);
        }
        (n as i8) - 3
    }

    /// The alteration against a key measures the distance, in semitone
    /// bands of seven fifths, from the diatonic spelling of the letter.
    proof fn lemma_alteration_meaning(self, key: Key)
        ensures
            self@ == self.step_spec().with_key_spec(key)@ + 7 * self.alteration_spec(key),
    {
        let x = self@;
        let k = key@;
        let y = x + 1 - k;
        self.lemma_step_fifths_position();
        lemma_sub_mod_noop_right((x + 1) % 7, k, 7);
        lemma_sub_mod_noop(x + 1, k, 7);
        Tpc::lemma_of_fifths_view(k - 1 + y % 7);
        lemma_fundamental_div_mod(y, 7);
        lemma_fundamental_div_mod_converse(y + 21, 7, y / 7 + 3, y % 7);
    }

    /// The step of the pitch class, together with the accidental it needs in
    /// a key: no accidental when the pitch is the key's own diatonic
    /// spelling of the letter, its absolute accidental otherwise.
    pub open spec fn altered_step_spec(self, key: Option<Key>) -> (Step, Option<Accidental>) {
        let k = match key {
            Some(k0) => k0,
            None => Key::C,
        };
        let step = self.step_spec();
        if step.with_key_spec(k) == self {
            (step, None)
        } else {
            (step, Some(self.accidental_spec()))
        }
    }

    /// Find the appropriate accidental for the Tpc in a key.
    ///
    /// If no key is given, default to C major with no fixed accidentals.
    pub fn altered_step(self, key: Option<Key>) -> (r: (Step, Option<Accidental>))
        ensures
            r == self.altered_step_spec(key),
    {
        let k: Key = match key {
            Some(k0) => k0,
            None => Key::C,
        };
        let step: Step = self.step();
        if step.with_key(k) == self {
            (step, None)
        } else {
            (step, Some(self.accidental()))
        }
    }

    /// The pitch class a number of semitones away with the same letter,
    /// where that spelling is still notatable.
    pub open spec fn alter_spec(self, by: int) -> Option<Tpc> {
        if -15 <= self@ + 7 * by <= 19 {
            Some(Tpc::of_fifths(self@ + 7 * by))
        } else {
            None
        }
    }

    /// Adjust alteration while maintaining the step value.
    ///
    /// Returns `None` if the alteration would be sharper than double sharp
    /// or flatter than double flat; the successful result always keeps the
    /// letter of the original spelling.
    pub fn alter(self, by: Alteration) -> (r: Option<Tpc>)
        ensures
            r == self.alter_spec(by as int),
            r matches Some(t) ==> t.step_spec() == self.step_spec(),
    {
        let v: i32 = (self.fifths() as i32) + 7 * (by as i32);
        if -15 <= v && v <= 19 {
            proof {
                Tpc::lemma_of_fifths_view(self@ + 7 * (by as int));
                lemma_mod_multiples_vanish(by as int, self@, 7);
            }
            Some(Tpc::from_fifths(v as i8).unwrap())
        } else {
            None
        }
    }

    /// The pitch class an interval above this one, where that spelling is
    /// still notatable.
    pub open spec fn add_spec(self, rhs: Interval) -> Option<Tpc> {
        if -15 <= self@ + rhs@ <= 19 {
            Some(Tpc::of_fifths(self@ + rhs@))
        } else {
            None
        }
    }

    /// The pitch class an interval below this one, where that spelling is
    /// still notatable.
    pub open spec fn sub_spec(self, rhs: Interval) -> Option<Tpc> {
        if -15 <= self@ - rhs@ <= 19 {
            Some(Tpc::of_fifths(self@ - rhs@))
        } else {
            None
        }
    }

    /// Transpose the pitch class up by an interval.
    ///
    /// Returns `None` where no valid notated spelling exists, as when a
    /// diminished fifth above F double flat would need a triple flat.
    pub fn add(self, rhs: Interval) -> (r: Option<Tpc>)
        ensures
            r == self.add_spec(rhs),
    {
        Tpc::from_fifths(self.fifths() + rhs.fifths())
    }

    /// Transpose the pitch class down by an interval.
    ///
    /// Returns `None` where no valid notated spelling exists.
    pub fn sub(self, rhs: Interval) -> (r: Option<Tpc>)
        ensures
            r == self.sub_spec(rhs),
    {
        Tpc::from_fifths(self.fifths() - rhs.fifths())
    }
}

/// Spelling recomposition: splitting a pitch class into its step and its
/// accidental part relative to a key, then recombining — through the key
/// when no accidental was needed, through the accidental otherwise — gives
/// back the original pitch class.
pub proof fn lemma_altered_step_recompose(t: Tpc, key: Key)
    ensures
        ({
            let (step, acc) = t.altered_step_spec(Some(key));
            match acc {
                None => step.with_key_spec(key) == t,
                Some(a) => step.with_accidental_spec(a) == t,
            }
        }),
{
    let x = t@;
    t.lemma_of_fifths_id();
    t.lemma_step_fifths_position();
    lemma_fundamental_div_mod(x + 1, 7);
}

/// Altering a pitch class by a semitone count keeps its letter and shifts
/// its accidental level by exactly that count: each band of seven positions
/// on the line of fifths is one accidental level.
pub proof fn lemma_alter_shifts_accidental(t: Tpc, by: int)
    ensures
        t.alter_spec(by) matches Some(u) ==> {
            &&& u.step_spec() == t.step_spec()
            &&& u.accidental_spec()@ == t.accidental_spec()@ + by
        },
{
    if -15 <= t@ + 7 * by <= 19 {
        let x = t@;
        Tpc::lemma_of_fifths_view(x + 7 * by);
        lemma_mod_multiples_vanish(by, x, 7);
        lemma_fundamental_div_mod(x + 1, 7);
        lemma_fundamental_div_mod_converse(x + 1 + 7 * by, 7, (x + 1) / 7 + by, (x + 1) % 7);
    }
}

/// Partial associativity of transposition: whenever transposing first by one
/// interval and then by another is defined, and transposing by their sum is
/// defined as well, the two paths agree.
pub proof fn lemma_transpose_associative(t: Tpc, i1: Interval, i2: Interval)
    ensures
        ({
            let stepwise = match t.add_spec(i1) {
                Some(u) => u.add_spec(i2),
                None => None,
            };
            let summed = match i1.add_spec(i2) {
                Some(j) => t.add_spec(j),
                None => None,
            };
            match (stepwise, summed) {
                (Some(v), Some(w)) => v == w,
                _ => true,
            }
        }),
{
    if -15 <= t@ + i1@ <= 19 {
        Tpc::lemma_of_fifths_view(t@ + i1@);
    }
    if -12 <= i1@ + i2@ <= 12 {
        Interval::lemma_of_fifths_view(i1@ + i2@);
    }
}

} // verus!
