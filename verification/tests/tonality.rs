use tonality::Accidental;
use tonality::Alteration;
use tonality::Interval;
use tonality::Key;
use tonality::Step;
use tonality::Tpc;

#[test]
fn test_root() {
    assert_eq!(Tpc::Cs, Key::Cs.root());
    assert_eq!(Tpc::C, Key::C.root());
}

#[test]
fn test_scale_step() {
    assert_eq!(Tpc::Bb, Key::Bb.scale_degree(0));
    assert_eq!(Tpc::Es, Key::Cs.scale_degree(2));
}

#[test]
fn test_step_to_tpc() {
    assert_eq!(Step::C.with_accidental(Accidental::Natural), Tpc::C);
    assert_eq!(Step::F.with_accidental(Accidental::Sharp), Tpc::Fs);
    assert_eq!(Step::A.with_accidental(Accidental::Flat), Tpc::Ab);
    assert_eq!(Step::E.with_accidental(Accidental::DblFlat), Tpc::Ebb);
    assert_eq!(Step::B.with_accidental(Accidental::Sharp), Tpc::Bs);
}

#[test]
fn test_with_key() {
    assert_eq!(Tpc::C, Step::C.with_key(Key::C));
    assert_eq!(Tpc::Cs, Step::C.with_key(Key::D));
    assert_eq!(Tpc::B, Step::B.with_key(Key::Fs));
    assert_eq!(Tpc::Bb, Step::B.with_key(Key::Ab));
    assert_eq!(Tpc::G, Step::G.with_key(Key::D));
    assert_eq!(Tpc::E, Step::E.with_key(Key::F));
}

#[test]
fn test_enharmonic_transpose() {
    let c = Tpc::C;
    let enharmonic = c.fifths() + 12;
    let enharmonic: Tpc = Tpc::from_fifths(enharmonic).unwrap();
    assert_eq!(enharmonic, Tpc::Bs);
}

#[test]
fn test_to_alter_with_key() {
    // A in C Maj: No alteration
    assert_eq!(0, Tpc::A.alteration(Key::C));
    // F# in C Maj: One semitone higher
    assert_eq!(1, Tpc::Fs.alteration(Key::C));
    // C in D Maj: One semitone lower
    assert_eq!(-1, Tpc::C.alteration(Key::D));
    // Fbb in C# Maj: Three semitones lower
    assert_eq!(-3, Tpc::Fbb.alteration(Key::Cs));
    // Eb in Bb Maj: No alteration
    assert_eq!(0, Tpc::Eb.alteration(Key::Bb));
}

#[test]
fn test_to_accidental() {
    assert_eq!(Accidental::DblFlat, Tpc::Fbb.accidental());
    assert_eq!(Accidental::DblFlat, Tpc::Bbb.accidental());
    assert_eq!(Accidental::Flat, Tpc::Cb.accidental());
    assert_eq!(Accidental::Flat, Tpc::Eb.accidental());
    assert_eq!(Accidental::Natural, Tpc::G.accidental());
    assert_eq!(Accidental::Natural, Tpc::A.accidental());
    assert_eq!(Accidental::Sharp, Tpc::Cs.accidental());
    assert_eq!(Accidental::Sharp, Tpc::Es.accidental());
    assert_eq!(Accidental::DblSharp, Tpc::Fss.accidental());
    assert_eq!(Accidental::DblSharp, Tpc::Bss.accidental());
}

fn property_alter_keeps_step(tpc: Tpc, alter: Alteration) {
    if let Some(altered) = tpc.alter(alter) {
        assert_eq!(tpc.step(), altered.step())
    }
}

#[test]
fn test_alter_property() {
    for tpc in vec![Tpc::C, Tpc::Ab, Tpc::E, Tpc::Fss, Tpc::Gb] {
        for alter in vec![0, 1, 2, -3, -2] {
            property_alter_keeps_step(tpc, alter)
        }
    }
}

#[test]
fn add_interval() {
    assert_eq!(Some(Tpc::E), Tpc::C.add(Interval::Maj3));
    assert_eq!(Some(Tpc::C), Tpc::Fs.add(Interval::Dim5));

    // A dim 5th from Fbb would be Cbbb - out of range
    assert_eq!(None, Tpc::Fbb.add(Interval::Dim5));

    // A major 3rd above D## would be F### - out of range
    assert_eq!(None, Tpc::Dss.add(Interval::Maj3));
}

#[test]
fn sub_interval() {
    assert_eq!(Some(Tpc::F), Tpc::C.sub(Interval::P5));
    assert_eq!(Some(Tpc::A), Tpc::Cs.sub(Interval::Maj3));

    // A perfect fifth below Fbb would be Bbbb - out of range
    assert_eq!(None, Tpc::Fbb.sub(Interval::P5));

    // A diminished second below Bss would be beyond a double sharp
    assert_eq!(None, Tpc::Bss.sub(Interval::Dim2));
}

#[test]
fn test_enharmonic() {
    assert!(Interval::Aug4.enharmonic(Interval::Dim5));
    assert!(Interval::Aug2.enharmonic(Interval::Min3));
    assert!(!Interval::Unison.enharmonic(Interval::Aug1));
    assert!(Interval::Dim2.enharmonic(Interval::Aug7));
    assert!(Interval::Unison.enharmonic(Interval::Unison));
}

#[test]
fn test_interval_arithmetic() {
    assert_eq!(Some(Interval::P5), Interval::Maj3.add(Interval::Min3));
    assert_eq!(Some(Interval::Unison), Interval::P4.add(Interval::P5));
    assert_eq!(None, Interval::Aug7.add(Interval::P5));
    assert_eq!(Some(Interval::Min3), Interval::P5.sub(Interval::Maj3));
    assert_eq!(Some(Interval::Dim2), Interval::Unison.sub(Interval::Aug7));
    assert_eq!(None, Interval::Dim2.sub(Interval::P5));
}

#[test]
fn test_altered_step() {
    let tpc = Tpc::C;
    let key: Option<Key> = None;
    assert_eq!((Step::C, None), tpc.altered_step(key));

    let key: Option<Key> = Some(Key::A);
    assert_eq!((Step::C, Some(Accidental::Natural)), tpc.altered_step(key));

    let tpc = Tpc::Fss;
    let key: Option<Key> = None;
    assert_eq!((Step::F, Some(Accidental::DblSharp)), tpc.altered_step(key));

    let tpc = Tpc::Bb;
    let key: Option<Key> = Some(Key::Eb);
    assert_eq!((Step::B, None), tpc.altered_step(key));
}

#[test]
fn test_alter() {
    assert_eq!(Some(Tpc::As), Tpc::Ab.alter(2));
    assert_eq!(Some(Tpc::Cbb), Tpc::C.alter(-2));
    assert_eq!(Some(Tpc::Fbb), Tpc::Fss.alter(-4));
    assert_eq!(None, Tpc::Bss.alter(1));
    assert_eq!(None, Tpc::C.alter(-3));
    assert_eq!(None, Tpc::C.alter(100));
}

#[test]
fn test_step_arithmetic() {
    assert_eq!(Step::E, Step::B.add(3));
    assert_eq!(Step::B, Step::C.add(-1));
    assert_eq!(Step::C, Step::B.add(8));
    assert_eq!(Step::A, Step::A.add(-7));
    assert_eq!(Step::B, Step::C.sub(1));
    assert_eq!(Step::C, Step::E.sub(9));
    assert_eq!(Step::F, Step::D.sub(-2));
}

#[test]
fn test_step_of_tpc() {
    assert_eq!(Step::C, Tpc::Cs.step());
    assert_eq!(Step::F, Tpc::Fbb.step());
    assert_eq!(Step::B, Tpc::Bss.step());
    assert_eq!(Step::E, Step::from(Tpc::Eb));
    assert_eq!(Step::G, Step::from(Tpc::Gss));
}

#[test]
fn test_root_step() {
    assert_eq!(Step::C, Key::Cs.root_step());
    assert_eq!(Step::F, Key::F.root_step());
    assert_eq!(Step::B, Key::B.root_step());
    assert_eq!(Step::G, Key::Gb.root_step());
}

#[test]
fn test_scale_degrees_of_c() {
    let key = Key::C;
    assert_eq!(Tpc::C, key.scale_degree(0));
    assert_eq!(Tpc::D, key.scale_degree(1));
    assert_eq!(Tpc::E, key.scale_degree(2));
    assert_eq!(Tpc::F, key.scale_degree(3));
    assert_eq!(Tpc::G, key.scale_degree(4));
    assert_eq!(Tpc::A, key.scale_degree(5));
    assert_eq!(Tpc::B, key.scale_degree(6));
    // The degree is cyclic in both directions
    assert_eq!(Tpc::C, key.scale_degree(7));
    assert_eq!(Tpc::B, key.scale_degree(-1));
    assert_eq!(Tpc::D, key.scale_degree(15));
}

#[test]
fn test_defaults() {
    assert_eq!(Interval::Unison, Interval::default());
    assert_eq!(Key::C, Key::default());
}

#[test]
fn test_from_fifths() {
    assert_eq!(Some(Tpc::Fbb), Tpc::from_fifths(-15));
    assert_eq!(Some(Tpc::C), Tpc::from_fifths(0));
    assert_eq!(Some(Tpc::Bss), Tpc::from_fifths(19));
    assert_eq!(None, Tpc::from_fifths(-16));
    assert_eq!(None, Tpc::from_fifths(20));

    assert_eq!(Some(Key::Cb), Key::from_fifths(-7));
    assert_eq!(Some(Key::Cs), Key::from_fifths(7));
    assert_eq!(None, Key::from_fifths(-8));
    assert_eq!(None, Key::from_fifths(8));

    assert_eq!(Some(Interval::Dim2), Interval::from_fifths(-12));
    assert_eq!(Some(Interval::Aug7), Interval::from_fifths(12));
    assert_eq!(None, Interval::from_fifths(-13));
    assert_eq!(None, Interval::from_fifths(13));
}

#[test]
fn test_raw_coordinates() {
    assert_eq!(-15, Tpc::Fbb.fifths());
    assert_eq!(0, Tpc::C.fifths());
    assert_eq!(19, Tpc::Bss.fifths());
    assert_eq!(-7, Key::Cb.fifths());
    assert_eq!(7, Key::Cs.fifths());
    assert_eq!(-12, Interval::Dim2.fifths());
    assert_eq!(12, Interval::Aug7.fifths());
}

#[test]
fn test_step_and_accidental_raw() {
    assert_eq!(Some(Step::C), Step::from_index(0));
    assert_eq!(Some(Step::B), Step::from_index(6));
    assert_eq!(None, Step::from_index(7));
    assert_eq!(None, Step::from_index(-1));
    assert_eq!(3, Step::F.index());

    assert_eq!(Some(Accidental::DblFlat), Accidental::from_level(-2));
    assert_eq!(Some(Accidental::Natural), Accidental::from_level(0));
    assert_eq!(Some(Accidental::DblSharp), Accidental::from_level(2));
    assert_eq!(None, Accidental::from_level(3));
    assert_eq!(None, Accidental::from_level(-3));
    assert_eq!(-1, Accidental::Flat.level());
}

#[test]
fn test_recompose_spot_checks() {
    // The spelling recomposition round trip on a few concrete pitches
    for tpc in vec![Tpc::Fbb, Tpc::C, Tpc::Gs, Tpc::Bb, Tpc::Ess] {
        for key in vec![Key::Cb, Key::C, Key::D, Key::Fs] {
            let (step, acc) = tpc.altered_step(Some(key));
            let recomposed = match acc {
                None => step.with_key(key),
                Some(a) => step.with_accidental(a),
            };
            assert_eq!(tpc, recomposed);
        }
    }
}

#[test]
fn test_ordering_by_fifths() {
    // Intervals and pitch classes are ordered along the line of fifths,
    // not by semitone distance
    assert!(Interval::P5 < Interval::Aug4);
    assert!(Tpc::Gb < Tpc::Fs);
    assert!(Step::C < Step::B);
}
