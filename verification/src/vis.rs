//! Visibilities and the projection that moves a declared visibility one
//! nesting level deeper.
//!
//! A visibility written on the original declaration is relative to the
//! scope `S` enclosing that declaration.  Items synthesized by the
//! transformation live in a namespace module directly under `S`, one level
//! deeper, so every copied visibility must be rewritten to denote the same
//! absolute boundary from its new position.  [`super_vis`] performs that
//! rewrite; [`lemma_super_vis_preserves_scope`] proves that the denoted
//! boundary is preserved exactly (in particular, never widened).

use vstd::prelude::*;
use vstd::string::StringExecFns;
use crate::error::ErrorKind;
use crate::error::MacroError;
use crate::error::MacroErrorView;
use crate::error::result_view;
use crate::text::str_eq;

verus! {

/// A module path inside a restricted visibility: an optional leading `::`
/// and the path segments.
#[derive(Debug, PartialEq, Eq)]
pub struct VisPath {
    pub leading_colon: bool,
    pub segments: Vec<String>,
}

/// The mathematical image of a [`VisPath`].
pub struct VisPathView {
    pub leading_colon: bool,
    pub segments: Seq<Seq<char>>,
}

impl View for VisPath {
    type V = VisPathView;

    open spec fn view(&self) -> VisPathView {
        VisPathView { leading_colon: self.leading_colon, segments: self.segments.deep_view() }
    }
}

impl DeepView for VisPath {
    type V = VisPathView;

    open spec fn deep_view(&self) -> VisPathView {
        self.view()
    }
}

/// A declared visibility.
#[derive(Debug, PartialEq, Eq)]
pub enum Visibility {
    /// No modifier: private to the immediately enclosing scope.
    Inherited,
    /// `pub`.
    Public,
    /// A restriction: `pub(crate)`, `pub(self)`, `pub(super)` when
    /// `has_in` is false, or `pub(in path)` when it is true.
    Restricted { has_in: bool, path: VisPath },
}

/// The mathematical image of a [`Visibility`].
pub enum VisibilityView {
    Inherited,
    Public,
    Restricted { has_in: bool, path: VisPathView },
}

impl View for Visibility {
    type V = VisibilityView;

    open spec fn view(&self) -> VisibilityView {
        match self {
            Visibility::Inherited => VisibilityView::Inherited,
            Visibility::Public => VisibilityView::Public,
            Visibility::Restricted { has_in, path } => VisibilityView::Restricted {
                has_in: *has_in,
                path: path.deep_view(),
            },
        }
    }
}

impl DeepView for Visibility {
    type V = VisibilityView;

    open spec fn deep_view(&self) -> VisibilityView {
        self.view()
    }
}

/// Copy a vector of path segments.
fn clone_segments(v: &Vec<String>) -> (r: Vec<String>)
    ensures
        r.deep_view() == v.deep_view(),
{
    let mut r: Vec<String> = Vec::new();
    let mut i: usize = 0;
    while i < v.len()
        invariant
            i <= v.len(),
            r.len() == i,
            forall|j: int| 0 <= j < i ==> r.deep_view()[j] == v.deep_view()[j],
        decreases v.len() - i,
    {
        r.push(v[i].clone());
        i = i + 1;
    }
    proof {
        assert(r.deep_view() =~= v.deep_view());
    }
    r
}

impl Clone for VisPath {
    fn clone(&self) -> (res: Self)
        ensures
            res@ == self@,
    {
        VisPath { leading_colon: self.leading_colon, segments: clone_segments(&self.segments) }
    }
}

impl Clone for Visibility {
    fn clone(&self) -> (res: Self)
        ensures
            res@ == self@,
    {
        match self {
            Visibility::Inherited => Visibility::Inherited,
            Visibility::Public => Visibility::Public,
            Visibility::Restricted { has_in, path } => Visibility::Restricted {
                has_in: *has_in,
                path: path.clone(),
            },
        }
    }
}

/// A restriction without `in`, on a single keyword segment.
pub open spec fn keyword_restriction(word: Seq<char>) -> VisibilityView {
    VisibilityView::Restricted {
        has_in: false,
        path: VisPathView { leading_colon: false, segments: seq![word] },
    }
}

/// The visibility written `pub(super)`.
pub open spec fn pub_super() -> VisibilityView {
    keyword_restriction("super"@)
}

/// Project a visibility, declared in some scope `S`, one nesting level
/// deeper, so that it still denotes the same boundary.
///
/// * inherited visibility becomes the caller-supplied `default`;
/// * `pub` and absolutely rooted `pub(in ::path)` are copied unchanged;
/// * `pub(crate)` stays, `pub(self)` becomes `pub(super)`, `pub(super)`
///   becomes `pub(in super::super)`; any other bare identifier is an
///   "unknown identifier" error;
/// * a relative `pub(in path)` gains one leading `super` segment;
/// * a multi-segment restriction without `in` is a "path without `in`
///   token" error.
pub open spec fn spec_super_vis(vis: VisibilityView, default: VisibilityView) -> Result<
    VisibilityView,
    MacroErrorView,
> {
    match vis {
        VisibilityView::Inherited => Ok(default),
        VisibilityView::Public => Ok(VisibilityView::Public),
        VisibilityView::Restricted { has_in, path } => {
            if has_in {
                if path.leading_colon {
                    Ok(VisibilityView::Restricted { has_in, path })
                } else {
                    Ok(
                        VisibilityView::Restricted {
                            has_in: true,
                            path: VisPathView {
                                leading_colon: false,
                                segments: seq!["super"@] + path.segments,
                            },
                        },
                    )
                }
            } else if path.segments.len() == 1 && !path.leading_colon {
                let id = path.segments[0];
                if id == "crate"@ {
                    Ok(keyword_restriction("crate"@))
                } else if id == "self"@ {
                    Ok(keyword_restriction("super"@))
                } else if id == "super"@ {
                    Ok(
                        VisibilityView::Restricted {
                            has_in: true,
                            path: VisPathView {
                                leading_colon: false,
                                segments: seq!["super"@, "super"@],
                            },
                        },
                    )
                } else {
                    Err(MacroErrorView { kind: ErrorKind::UnknownIdentifier, token: id })
                }
            } else {
                Err(
                    MacroErrorView {
                        kind: ErrorKind::PathWithoutIn,
                        token: if path.segments.len() > 0 {
                            path.segments[0]
                        } else {
                            Seq::empty()
                        },
                    },
                )
            }
        },
    }
}

/// Build the single-keyword restriction `pub(<word>)`.
pub(crate) fn keyword_restriction_exec(word: &str) -> (r: Visibility)
    ensures
        r@ == keyword_restriction(word@),
{
    let mut segments: Vec<String> = Vec::new();
    segments.push(String::from_str(word));
    proof {
        assert(segments.deep_view() =~= seq![word@]);
    }
    Visibility::Restricted { has_in: false, path: VisPath { leading_colon: false, segments } }
}

/// Project a visibility one nesting level deeper.  Inherited visibility
/// falls back to `default`.
pub fn super_vis(vis: &Visibility, default: Visibility) -> (r: Result<Visibility, MacroError>)
    ensures
        result_view(r) == spec_super_vis(vis.deep_view(), default.deep_view()),
{
    match vis {
        Visibility::Inherited => Ok(default),
        Visibility::Public => Ok(Visibility::Public),
        Visibility::Restricted { has_in, path } => {
            if *has_in {
                if path.leading_colon {
                    Ok(Visibility::Restricted { has_in: true, path: path.clone() })
                } else {
                    let mut segments: Vec<String> = Vec::new();
                    segments.push(String::from_str("super"));
                    let mut i: usize = 0;
                    while i < path.segments.len()
                        invariant
                            i <= path.segments.len(),
                            segments.len() == i + 1,
                            segments.deep_view()[0] == "super"@,
                            forall|j: int|
                                0 <= j < i ==> segments.deep_view()[j + 1]
                                    == path.segments.deep_view()[j],
                        decreases path.segments.len() - i,
                    {
                        segments.push(path.segments[i].clone());
                        i = i + 1;
                    }
                    proof {
                        assert(segments.deep_view() =~= seq!["super"@]
                            + path.segments.deep_view());
                    }
                    Ok(
                        Visibility::Restricted {
                            has_in: true,
                            path: VisPath { leading_colon: false, segments },
                        },
                    )
                }
            } else if path.segments.len() == 1 && !path.leading_colon {
                let id: &String = &path.segments[0];
                if str_eq(id.as_str(), "crate") {
                    Ok(keyword_restriction_exec("crate"))
                } else if str_eq(id.as_str(), "self") {
                    Ok(keyword_restriction_exec("super"))
                } else if str_eq(id.as_str(), "super") {
                    let mut segments: Vec<String> = Vec::new();
                    segments.push(String::from_str("super"));
                    segments.push(String::from_str("super"));
                    proof {
                        assert(segments.deep_view() =~= seq!["super"@, "super"@]);
                    }
                    Ok(
                        Visibility::Restricted {
                            has_in: true,
                            path: VisPath { leading_colon: false, segments },
                        },
                    )
                } else {
                    Err(MacroError { kind: ErrorKind::UnknownIdentifier, token: id.clone() })
                }
            } else {
                let token = if path.segments.len() > 0 {
                    path.segments[0].clone()
                } else {
                    String::new()
                };
                Err(MacroError { kind: ErrorKind::PathWithoutIn, token })
            }
        },
    }
}

/// An absolute accessibility boundary, named relative to the scope `S`
/// that encloses the original declaration.
pub enum ScopeRef {
    /// `pub`: every scope.
    Everywhere,
    /// The whole compilation unit.
    WholeCrate,
    /// The module `level` steps above `S`; level 0 is `S` itself, and a
    /// negative level is a module nested below `S`.
    Module(int),
    /// The module reached from `Module(level)` by descending `segments`.
    Below(int, Seq<Seq<char>>),
    /// An absolutely rooted path, independent of nesting depth.
    Rooted(Seq<Seq<char>>),
}

/// How many leading `super` segments a path has.
pub open spec fn count_supers(segs: Seq<Seq<char>>) -> int
    decreases segs.len(),
{
    if segs.len() > 0 && segs[0] == "super"@ {
        1 + count_supers(segs.drop_first())
    } else {
        0
    }
}

/// A segment that names a module, rather than a path keyword.
pub open spec fn plain_seg(s: Seq<char>) -> bool {
    s != "super"@ && s != "crate"@ && s != "self"@
}

pub open spec fn all_plain(segs: Seq<Seq<char>>) -> bool {
    forall|i: int| 0 <= i < segs.len() ==> plain_seg(#[trigger] segs[i])
}

proof fn lemma_count_supers_bounds(segs: Seq<Seq<char>>)
    ensures
        0 <= count_supers(segs) <= segs.len(),
    decreases segs.len(),
{
    if segs.len() > 0 && segs[0] == "super"@ {
        lemma_count_supers_bounds(segs.drop_first());
    }
}

/// Resolve a relative restriction path (leading `super`s, then plain
/// module names) written `depth` levels below `S`.
pub open spec fn resolve_rel(depth: int, segs: Seq<Seq<char>>) -> Option<ScopeRef> {
    let k = count_supers(segs);
    let rest = segs.skip(k);
    if all_plain(rest) {
        if rest.len() == 0 {
            Some(ScopeRef::Module(k - depth))
        } else {
            Some(ScopeRef::Below(k - depth, rest))
        }
    } else {
        None
    }
}

/// The boundary a visibility denotes when written `depth` levels below
/// the original scope `S` (`depth` is 0 for the declaration itself and 1
/// inside the synthesized namespace).  `None` when the visibility is
/// malformed or lies outside the forms the projector reasons about.
pub open spec fn vis_scope(v: VisibilityView, depth: int) -> Option<ScopeRef> {
    match v {
        VisibilityView::Inherited => Some(ScopeRef::Module(-depth)),
        VisibilityView::Public => Some(ScopeRef::Everywhere),
        VisibilityView::Restricted { has_in, path } => {
            if path.leading_colon {
                if has_in {
                    Some(ScopeRef::Rooted(path.segments))
                } else {
                    None
                }
            } else if !has_in {
                if path.segments.len() == 1 {
                    let id = path.segments[0];
                    if id == "crate"@ {
                        Some(ScopeRef::WholeCrate)
                    } else if id == "self"@ {
                        Some(ScopeRef::Module(-depth))
                    } else if id == "super"@ {
                        Some(ScopeRef::Module(-depth + 1))
                    } else {
                        None
                    }
                } else {
                    None
                }
            } else {
                resolve_rel(depth, path.segments)
            }
        },
    }
}

/// The default the engine passes for a payload struct's visibility:
/// `pub(super)` written one level deeper denotes the original scope
/// itself — so the payload structs of an unqualified (private) enum are
/// exactly as visible as the enum was, never more.
pub proof fn lemma_pub_super_denotes_original_scope()
    ensures
        vis_scope(pub_super(), 1) == vis_scope(VisibilityView::Inherited, 0),
{
    reveal_strlit("crate");
    reveal_strlit("self");
    reveal_strlit("super");
    assert("super"@.len() == 5 && "crate"@.len() == 5 && "self"@.len() == 4);
    assert("super"@[0] == 's' && "crate"@[0] == 'c');
    assert(vis_scope(pub_super(), 1) == Some(ScopeRef::Module(0)));
}

/// Visibility projection never changes the accessibility boundary: a
/// visibility that denoted boundary `b` when written `depth` levels below
/// the original scope denotes the very same boundary one nesting level
/// deeper after projection — so the projected visibility in particular
/// never grants access to a larger set of scopes than the declared one
/// did, and iterating the projection keeps the boundary stable at every
/// depth.
///
/// For inherited visibility the projection returns the caller's default,
/// so the law asks the caller to pass a default that denotes the original
/// boundary (as both call sites of the engine do).
pub proof fn lemma_super_vis_preserves_scope(
    v: VisibilityView,
    default: VisibilityView,
    w: VisibilityView,
    depth: int,
)
    requires
        spec_super_vis(v, default) == Ok::<VisibilityView, MacroErrorView>(w),
        vis_scope(v, depth) is Some,
        v is Inherited ==> vis_scope(default, depth + 1) == vis_scope(v, depth),
    ensures
        vis_scope(w, depth + 1) == vis_scope(v, depth),
{
    reveal_strlit("crate");
    reveal_strlit("self");
    reveal_strlit("super");
    assert("super"@.len() == 5 && "crate"@.len() == 5 && "self"@.len() == 4);
    assert("super"@[0] == 's' && "crate"@[0] == 'c');
    assert("super"@ != "crate"@ && "super"@ != "self"@ && "crate"@ != "self"@);
    match v {
        VisibilityView::Inherited => {},
        VisibilityView::Public => {},
        VisibilityView::Restricted { has_in, path } => {
            if has_in {
                if path.leading_colon {
                } else {
                    let segs = path.segments;
                    let wsegs = seq!["super"@] + segs;
                    assert(wsegs[0] == "super"@);
                    assert(wsegs.drop_first() =~= segs);
                    let k = count_supers(segs);
                    assert(count_supers(wsegs) == 1 + k);
                    lemma_count_supers_bounds(segs);
                    assert(wsegs.skip(1 + k) =~= segs.skip(k));
                }
            } else {
                if path.segments.len() == 1 && !path.leading_colon {
                    let id = path.segments[0];
                    if id == "crate"@ {
                        assert(vis_scope(w, depth + 1) == Some(ScopeRef::WholeCrate));
                    } else if id == "self"@ {
                        assert(vis_scope(w, depth + 1) == Some(ScopeRef::Module(-depth)));
                    } else if id == "super"@ {
                        let wsegs = seq!["super"@, "super"@];
                        assert(seq!["super"@].drop_first() =~= Seq::<Seq<char>>::empty());
                        assert(count_supers(Seq::<Seq<char>>::empty()) == 0);
                        assert(count_supers(seq!["super"@]) == 1);
                        assert(wsegs.drop_first() =~= seq!["super"@]);
                        assert(count_supers(wsegs) == 2);
                        assert(wsegs.skip(2) =~= Seq::<Seq<char>>::empty());
                    }
                }
            }
        },
    }
}

/// Projection fixes every visibility whose boundary is independent of the
/// nesting depth: `pub`, `pub(crate)` and absolutely rooted restrictions
/// come back unchanged, so on these forms the projection is idempotent.
pub proof fn lemma_super_vis_fixes_depth_independent(v: VisibilityView, default: VisibilityView)
    requires
        v is Public || (v matches VisibilityView::Restricted { has_in, path } && ((has_in
            && path.leading_colon) || (!has_in && !path.leading_colon && path.segments
            =~= seq!["crate"@]))),
    ensures
        spec_super_vis(v, default) == Ok::<VisibilityView, MacroErrorView>(v),
{
    reveal_strlit("crate");
    reveal_strlit("self");
    reveal_strlit("super");
    assert("super"@.len() == 5 && "crate"@.len() == 5 && "self"@.len() == 4);
    assert("super"@[0] == 's' && "crate"@[0] == 'c');
    match v {
        VisibilityView::Restricted { has_in, path } => {
            if !has_in {
                assert(path.segments == seq!["crate"@]);
                assert(path.segments[0] == "crate"@);
                assert(spec_super_vis(v, default) == Ok::<VisibilityView, MacroErrorView>(
                    keyword_restriction("crate"@),
                ));
                assert(keyword_restriction("crate"@) == v);
            }
        },
        _ => {},
    }
}

} // verus!