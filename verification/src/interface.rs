//! The public merge interface that generated operations implement.
//!
//! A generated merge implementation provides the `*Into` direction — merging
//! `Self` into a given target record — and every type gains the outer
//! direction for free through the blanket implementations below. Callers use
//! the four stable entry points: `merge`, `merge_soft`, `merge_ref`, and
//! `merge_ref_soft`.

use vstd::prelude::*;

verus! {

/// Merge another record into `Self`, consuming it.
pub trait StructMerge<Src> {
    /// Merge the given record into `self` while consuming it: every
    /// compatible field is overwritten.
    fn merge(&mut self, src: Src);

    /// As `merge`, but an optional field of `self` is only filled while its
    /// value is currently empty.
    fn merge_soft(&mut self, src: Src);
}

/// Counterpart of [`StructMerge`]: merge `Self` into a given target.
pub trait StructMergeInto<Target: ?Sized> {
    /// See [`StructMerge::merge`].
    fn merge_into(self, target: &mut Target);

    /// See [`StructMerge::merge_soft`].
    fn merge_into_soft(self, target: &mut Target);
}

impl<Target, Src: StructMergeInto<Target>> StructMerge<Src> for Target {
    fn merge(&mut self, src: Src) {
        src.merge_into(self);
    }

    fn merge_soft(&mut self, src: Src) {
        src.merge_into_soft(self);
    }
}

/// Merge another, borrowed record into `Self`. Every merged field has to
/// support duplication.
pub trait StructMergeRef<Src> {
    /// Merge the given record into `self`, duplicating merged values.
    fn merge_ref(&mut self, src: &Src);

    /// As `merge_ref`, but an optional field of `self` is only filled while
    /// its value is currently empty.
    fn merge_ref_soft(&mut self, src: &Src);
}

/// Counterpart of [`StructMergeRef`]: merge `&Self` into a given target.
pub trait StructMergeIntoRef<Target: ?Sized> {
    /// See [`StructMergeRef::merge_ref`].
    fn merge_into_ref(&self, target: &mut Target);

    /// See [`StructMergeRef::merge_ref_soft`].
    fn merge_into_ref_soft(&self, target: &mut Target);
}

impl<Target, Src: StructMergeIntoRef<Target>> StructMergeRef<Src> for Target {
    fn merge_ref(&mut self, src: &Src) {
        src.merge_into_ref(self);
    }

    fn merge_ref_soft(&mut self, src: &Src) {
        src.merge_into_ref_soft(self);
    }
}

} // verus!
