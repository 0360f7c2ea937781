//! Newtype enums: enums whose every variant wraps exactly one payload type,
//! together with the source-to-source transformation that rewrites an
//! arbitrary enum declaration into that shape.
//!
//! The crate has two halves:
//!
//! * the transformation engine ([`transform`]): given a model of an enum
//!   declaration and the attribute arguments, it classifies each variant,
//!   synthesizes a payload struct for every unit or struct variant,
//!   projects visibilities one nesting level deeper ([`vis`]), and produces
//!   the rewritten enum, the companion namespace and the list of
//!   capability bindings;
//! * the capability traits ([`Enum`], [`Variant`],
//!   [`VariantCore`](unstable::VariantCore)) that the generated code
//!   implements, relating an enum to each of its payload types by
//!   construct / extract / tag-test operations; [`status`] holds a worked
//!   example of the implementations the transformation emits.
//!
//! Turning Rust tokens into the model and the produced model back into
//! tokens is the job of an (unverified) front end; everything in this
//! crate operates on plain values.

use vstd::prelude::*;

pub mod ast;
pub mod config;
pub mod error;
pub mod status;
pub mod status_variants;
pub mod text;
pub mod transform;
pub mod unstable;
pub mod vis;

use crate::unstable::VariantCore;

verus! {

/// Mark a type as an `enum` whose variants are all newtype wrappers.
///
/// The transformation implements this trait for the rewritten enum; all
/// methods have provided bodies that forward to the payload type's
/// [`VariantCore`] implementation.
pub trait Enum: Sized {
    /// Construct an enum from one of its newtype variants.
    fn from_variant<V: Variant<Self>>(v: V) -> (e: Self)
        ensures
            e == v.spec_embed(),
    {
        v.into_enum()
    }

    /// Set the enum to one of its newtype variants; the old value of the
    /// enum is returned.
    #[must_use]
    fn set_variant<V: Variant<Self>>(&mut self, v: V) -> (prev: Self)
        ensures
            prev == *old(self),
            *final(self) == v.spec_embed(),
    {
        let mut e = v.into_enum();
        core::mem::swap(self, &mut e);
        e
    }

    /// Convert the enum into one of its newtype variants: the payload
    /// exactly when the enum holds `V`'s tag, `None` otherwise.
    fn into_variant<V: Variant<Self>>(self) -> (r: Option<V>)
        ensures
            r == if V::spec_matches(&self) {
                Some(V::spec_value(&self))
            } else {
                None::<V>
            },
    {
        V::from_enum(self)
    }

    /// Get a reference to the payload of one of its newtype variants:
    /// `Some` exactly when the enum holds `V`'s tag.
    fn variant<V: Variant<Self>>(&self) -> (r: Option<&V>)
        ensures
            match r {
                Some(v) => V::spec_matches(self) && *v == V::spec_value(self),
                None => !V::spec_matches(self),
            },
    {
        V::ref_enum(self)
    }

    /// Get a mutable reference to the payload of one of its newtype
    /// variants: `Some` exactly when the enum holds `V`'s tag, and
    /// writing through the reference replaces the payload under the same
    /// tag.
    fn variant_mut<V: Variant<Self>>(&mut self) -> (r: Option<&mut V>)
        ensures
            match r {
                Some(v) => V::spec_matches(old(self)) && *v == V::spec_value(old(self))
                    && *final(self) == (*final(v)).spec_embed(),
                None => !V::spec_matches(old(self)) && *final(self) == *old(self),
            },
    {
        V::mut_enum(self)
    }

    /// Check whether the enum currently holds the newtype variant `V`.
    ///
    /// When this returns `true`, the `unchecked` methods may be called on
    /// the same value.
    fn is_variant<V: Variant<Self>>(&self) -> (r: bool)
        ensures
            r == V::spec_matches(self),
    {
        V::is_enum_variant(self)
    }

    /// Convert the enum into one of its newtype variants and unwrap the
    /// payload.  The caller must have established that the tag matches.
    fn into_variant_unwrap<V: Variant<Self>>(self) -> (r: V)
        requires
            V::spec_matches(&self),
        ensures
            r == V::spec_value(&self),
    {
        V::from_enum_unwrap(self)
    }

    /// Convert the enum into one of its newtype variants without a
    /// runtime check.  The caller must have established that the tag
    /// matches.
    fn into_variant_unchecked<V: Variant<Self>>(self) -> (r: V)
        requires
            V::spec_matches(&self),
        ensures
            r == V::spec_value(&self),
    {
        V::from_enum_unchecked(self)
    }

    /// Get a reference to the payload of one of its newtype variants
    /// without a runtime check.  The caller must have established that
    /// the tag matches.
    fn variant_unchecked<V: Variant<Self>>(&self) -> (r: &V)
        requires
            V::spec_matches(self),
        ensures
            *r == V::spec_value(self),
    {
        V::ref_enum_unchecked(self)
    }

    /// Get a mutable reference to the payload of one of its newtype
    /// variants without a runtime check.  The caller must have
    /// established that the tag matches.
    fn variant_unchecked_mut<V: Variant<Self>>(&mut self) -> (r: &mut V)
        requires
            V::spec_matches(old(self)),
        ensures
            *r == V::spec_value(old(self)),
            *final(self) == (*final(r)).spec_embed(),
    {
        V::mut_enum_unchecked(self)
    }
}

/// Mark a type as a newtype variant of the [`Enum`] `E`.
///
/// The transformation implements this trait for every payload type of a
/// rewritten enum.  (`E` is in practice always an [`Enum`]; stating that
/// as a bound here would make the two trait declarations mutually
/// recursive, which the verifier rejects.)
pub trait Variant<E>: VariantCore<E> {}

/// Tag round trip: wrapping a payload establishes the matching tag and
/// extracting gives the payload back — so, by the contracts of
/// [`Enum::from_variant`] and [`Enum::into_variant`], converting a
/// payload into its enum and back returns exactly that payload.
pub proof fn lemma_tag_round_trip<E: Enum, V: Variant<E>>(v: V)
    ensures
        V::spec_matches(&v.spec_embed()),
        V::spec_value(&v.spec_embed()) == v,
{
    V::lemma_embed_matches(v);
}

} // verus!
