//! Alterations
use vstd::prelude::*;

verus! {

/// A relative change in semitones applied to a [`crate::Tpc`].
///
/// Unlike an [`crate::Accidental`], which is an absolute spelling modifier,
/// an alteration is a signed semitone delta: it is produced by
/// [`crate::Tpc::alteration`] and consumed by [`crate::Tpc::alter`]. Any
/// integer is syntactically valid; only deltas that keep the altered pitch
/// inside the notatable range succeed when applied.
pub type Alteration = i8;

} // verus!
