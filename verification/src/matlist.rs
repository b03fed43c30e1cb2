//! The material-offset list of a mesh builder.
//!
//! The builder keeps its `(material, starting index offset)` pairs in a
//! `smallvec::SmallVec` inlining one entry, since almost every mesh uses
//! a single material. The vector is opaque to the verifier; its contents
//! are named by [`mat_offsets_seq`], and the few operations the builder
//! needs are trusted wrappers whose contracts state what the smallvec
//! sources show.

use vstd::prelude::*;
use crate::gfx::MaterialID;

verus! {

/// The ordered `(material, starting index offset)` pairs of a builder,
/// held in a one-entry-inline `smallvec::SmallVec`. Opaque to the
/// verifier: its contents are named by [`mat_offsets_seq`].
#[verifier::external_body]
pub struct MatOffsets {
    inner: smallvec::SmallVec<[(MaterialID, u32); 1]>,
}

/// The elements a material-offset list holds, in order.
pub uninterp spec fn mat_offsets_seq(v: MatOffsets) -> Seq<(MaterialID, u32)>;

/// Relies on `smallvec::SmallVec::new`: it constructs an empty vector.
#[verifier::external_body]
pub(crate) fn mat_offsets_new() -> (r: MatOffsets)
    ensures
        mat_offsets_seq(r) == Seq::<(MaterialID, u32)>::empty(),
{
    MatOffsets { inner: smallvec::SmallVec::new() }
}

/// Relies on `smallvec::SmallVec::push`: it appends one element at the
/// end, keeping the existing elements in place.
#[verifier::external_body]
pub(crate) fn mat_offsets_push(v: &mut MatOffsets, mat: MaterialID, offset: u32)
    ensures
        mat_offsets_seq(*final(v)) == mat_offsets_seq(*old(v)).push((mat, offset)),
{
    v.inner.push((mat, offset));
}

/// Relies on `smallvec::SmallVec::as_slice` (the elements in order) and
/// `slice::to_vec`: the result holds the same elements in the same order.
#[verifier::external_body]
pub(crate) fn mat_offsets_to_vec(v: &MatOffsets) -> (r: Vec<(MaterialID, u32)>)
    ensures
        r@ == mat_offsets_seq(*v),
{
    v.inner.as_slice().to_vec()
}

} // verus!
