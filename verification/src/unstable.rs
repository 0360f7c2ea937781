//! Core conversions between an enum and its newtype variants.
//!
//! [`VariantCore`] is the low-level face of the capability contract: the
//! code emitted by the transformation implements it once per (enum,
//! payload type) pair.  Use the counterparts in the [`Enum`](crate::Enum)
//! trait instead of calling these methods directly.

use vstd::prelude::*;
use vstd::pervasive::unreached;

verus! {

/// Mark a type as a newtype variant of the enum `E` and relate the two:
/// a payload can be wrapped into the enum, extracted back out (by value,
/// by reference, or by mutable reference), and tested for.
///
/// The three spec functions fix the meaning of one tag: `spec_matches`
/// says whether an enum value currently holds this variant, `spec_value`
/// reads its payload, and `spec_embed` wraps a payload.  Every
/// implementation proves that wrapping establishes the tag and preserves
/// the payload ([`VariantCore::lemma_embed_matches`]).
pub trait VariantCore<E>: Sized {
    /// Whether `e` currently holds this newtype variant.
    spec fn spec_matches(e: &E) -> bool;

    /// The payload `e` carries, when it holds this newtype variant.
    spec fn spec_value(e: &E) -> Self
        recommends
            Self::spec_matches(e),
    ;

    /// The enum value that wraps `self` under this variant's tag.
    spec fn spec_embed(self) -> E;

    /// Wrapping a payload yields an enum that holds this variant and
    /// carries exactly that payload.
    proof fn lemma_embed_matches(v: Self)
        ensures
            Self::spec_matches(&v.spec_embed()),
            Self::spec_value(&v.spec_embed()) == v,
    ;

    /// Convert this newtype variant into the enum `E`.
    fn into_enum(self) -> (e: E)
        ensures
            e == self.spec_embed(),
    ;

    /// Convert an enum into this newtype variant: the payload exactly
    /// when the tag matches, `None` otherwise.
    fn from_enum(e: E) -> (r: Option<Self>)
        ensures
            r == if Self::spec_matches(&e) {
                Some(Self::spec_value(&e))
            } else {
                None::<Self>
            },
    ;

    /// Get a reference to this newtype variant's payload: `Some` exactly
    /// when the tag matches.
    fn ref_enum(e: &E) -> (r: Option<&Self>)
        ensures
            (r matches Some(v) ==> Self::spec_matches(e) && *v == Self::spec_value(e)),
            (r is None ==> !Self::spec_matches(e)),
    ;

    /// Get a mutable reference to this newtype variant's payload: `Some`
    /// exactly when the tag matches, and writing through the reference
    /// replaces the payload under the same tag; on a mismatch the enum is
    /// untouched.
    fn mut_enum(e: &mut E) -> (r: Option<&mut Self>)
        ensures
            match r {
                Some(v) => Self::spec_matches(old(e)) && *v == Self::spec_value(old(e))
                    && *final(e) == (*final(v)).spec_embed(),
                None => !Self::spec_matches(old(e)) && *final(e) == *old(e),
            },
    ;

    /// Check whether an enum currently holds this newtype variant.
    ///
    /// When this returns `true`, the `unchecked` conversions may be
    /// called on the same value.
    fn is_enum_variant(e: &E) -> (r: bool)
        ensures
            r == Self::spec_matches(e),
    {
        Self::ref_enum(e).is_some()
    }

    /// Convert an enum into this newtype variant and unwrap the payload.
    ///
    /// The caller must have established that the tag matches.
    fn from_enum_unwrap(e: E) -> (r: Self)
        requires
            Self::spec_matches(&e),
        ensures
            r == Self::spec_value(&e),
    {
        match Self::from_enum(e) {
            Some(v) => v,
            None => unreached(),
        }
    }

    /// Convert an enum into this newtype variant without a runtime
    /// check; the caller must have established that the tag matches.
    fn from_enum_unchecked(e: E) -> (r: Self)
        requires
            Self::spec_matches(&e),
        ensures
            r == Self::spec_value(&e),
    {
        match Self::from_enum(e) {
            Some(v) => v,
            None => unreached(),
        }
    }

    /// Get a reference to this newtype variant's payload without a
    /// runtime check; the caller must have established that the tag
    /// matches.
    fn ref_enum_unchecked(e: &E) -> (r: &Self)
        requires
            Self::spec_matches(e),
        ensures
            *r == Self::spec_value(e),
    {
        match Self::ref_enum(e) {
            Some(v) => v,
            None => unreached(),
        }
    }

    /// Get a mutable reference to this newtype variant's payload without
    /// a runtime check; the caller must have established that the tag
    /// matches.
    fn mut_enum_unchecked(e: &mut E) -> (r: &mut Self)
        requires
            Self::spec_matches(old(e)),
        ensures
            *r == Self::spec_value(old(e)),
            *final(e) == (*final(r)).spec_embed(),
    {
        match Self::mut_enum(e) {
            Some(v) => v,
            None => unreached(),
        }
    }
}

} // verus!
