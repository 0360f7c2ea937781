//! A worked example of the code the transformation emits, written out and
//! verified.
//!
//! The declared enum had a unit variant `Ready`, a wrapper variant
//! `Code(u16)` and a struct variant `Window { width, height }`.  After
//! rewriting, every variant wraps exactly one payload type, the
//! synthesized payloads live in [`crate::status_variants`], and each
//! payload type implements the capability contract against [`Status`].

use vstd::prelude::*;
use crate::Enum;
use crate::Variant;
use crate::status_variants::Ready;
use crate::status_variants::Window;
use crate::unstable::VariantCore;

verus! {

/// The rewritten enum: every variant a newtype wrapper.
#[derive(Debug, Clone, Copy, PartialEq, Eq, Structural)]
pub enum Status {
    /// See `Ready` in `status_variants`.
    Ready(Ready),
    /// A pre-existing wrapper variant: its payload type is kept.
    Code(u16),
    /// See `Window` in `status_variants`.
    Window(Window),
}

impl VariantCore<Status> for Ready {
    open spec fn spec_matches(e: &Status) -> bool {
        e is Ready
    }

    open spec fn spec_value(e: &Status) -> Ready {
        e->Ready_0
    }

    open spec fn spec_embed(self) -> Status {
        Status::Ready(self)
    }

    proof fn lemma_embed_matches(v: Self) {
    }

    fn into_enum(self) -> Status {
        Status::Ready(self)
    }

    fn from_enum(e: Status) -> Option<Ready> {
        match e {
            Status::Ready(v) => Some(v),
            _ => None,
        }
    }

    // Each ref_enum restates its inherited contract at the concrete
    // type: the verifier discharges the generic clause only through
    // this concrete form.
    fn ref_enum(e: &Status) -> (r: Option<&Ready>)
        ensures
            (r matches Some(v) ==> <Ready as VariantCore<Status>>::spec_matches(e) && *v == <Ready as VariantCore<Status>>::spec_value(e)),
            (r is None ==> !<Ready as VariantCore<Status>>::spec_matches(e)),
    {
        match e {
            Status::Ready(v) => Some(v),
            _ => None,
        }
    }

    fn mut_enum(e: &mut Status) -> Option<&mut Ready> {
        match e {
            Status::Ready(v) => Some(v),
            _ => None,
        }
    }
}

impl Variant<Status> for Ready {

}

impl VariantCore<Status> for u16 {
    open spec fn spec_matches(e: &Status) -> bool {
        e is Code
    }

    open spec fn spec_value(e: &Status) -> u16 {
        e->Code_0
    }

    open spec fn spec_embed(self) -> Status {
        Status::Code(self)
    }

    proof fn lemma_embed_matches(v: Self) {
    }

    fn into_enum(self) -> Status {
        Status::Code(self)
    }

    fn from_enum(e: Status) -> Option<u16> {
        match e {
            Status::Code(v) => Some(v),
            _ => None,
        }
    }

    fn ref_enum(e: &Status) -> (r: Option<&u16>)
        ensures
            (r matches Some(v) ==> <u16 as VariantCore<Status>>::spec_matches(e) && *v == <u16 as VariantCore<Status>>::spec_value(e)),
            (r is None ==> !<u16 as VariantCore<Status>>::spec_matches(e)),
    {
        match e {
            Status::Code(v) => Some(v),
            _ => None,
        }
    }

    fn mut_enum(e: &mut Status) -> Option<&mut u16> {
        match e {
            Status::Code(v) => Some(v),
            _ => None,
        }
    }
}

impl Variant<Status> for u16 {

}

impl VariantCore<Status> for Window {
    open spec fn spec_matches(e: &Status) -> bool {
        e is Window
    }

    open spec fn spec_value(e: &Status) -> Window {
        e->Window_0
    }

    open spec fn spec_embed(self) -> Status {
        Status::Window(self)
    }

    proof fn lemma_embed_matches(v: Self) {
    }

    fn into_enum(self) -> Status {
        Status::Window(self)
    }

    fn from_enum(e: Status) -> Option<Window> {
        match e {
            Status::Window(v) => Some(v),
            _ => None,
        }
    }

    fn ref_enum(e: &Status) -> (r: Option<&Window>)
        ensures
            (r matches Some(v) ==> <Window as VariantCore<Status>>::spec_matches(e) && *v == <Window as VariantCore<Status>>::spec_value(e)),
            (r is None ==> !<Window as VariantCore<Status>>::spec_matches(e)),
    {
        match e {
            Status::Window(v) => Some(v),
            _ => None,
        }
    }

    fn mut_enum(e: &mut Status) -> Option<&mut Window> {
        match e {
            Status::Window(v) => Some(v),
            _ => None,
        }
    }
}

impl Variant<Status> for Window {

}

impl Enum for Status {

}

/// Mutual exclusivity of tags: a `Status` value holds exactly one of its
/// three payload types — the tag test is true for that payload type and
/// false for the other two.
pub proof fn lemma_status_tag_exclusive(e: &Status)
    ensures
        <Ready as VariantCore<Status>>::spec_matches(e) || <u16 as VariantCore<
            Status,
        >>::spec_matches(e) || <Window as VariantCore<Status>>::spec_matches(e),
        !(<Ready as VariantCore<Status>>::spec_matches(e) && <u16 as VariantCore<
            Status,
        >>::spec_matches(e)),
        !(<Ready as VariantCore<Status>>::spec_matches(e) && <Window as VariantCore<
            Status,
        >>::spec_matches(e)),
        !(<u16 as VariantCore<Status>>::spec_matches(e) && <Window as VariantCore<
            Status,
        >>::spec_matches(e)),
{
}

} // verus!
