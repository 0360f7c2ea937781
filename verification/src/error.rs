//! Diagnostics produced by the transformation.
//!
//! Every failure of the engine is a deferred diagnostic: the transformation
//! of one declaration stops and reports a [`MacroError`], while unrelated
//! declarations are unaffected.  An error carries the kind of failure and
//! the offending token, so a front end can attach it to the right span.

use vstd::prelude::*;

verus! {

/// What went wrong while transforming one declaration.
#[derive(Clone, Copy, PartialEq, Eq, Structural, Debug)]
pub enum ErrorKind {
    /// An attribute argument key was not a plain identifier.
    ExpectedIdentifier,
    /// An attribute argument key is not recognized, or was used with the
    /// wrong grammar (a value where none is taken, or none where one is).
    UnknownArgument,
    /// A relative visibility restriction used an identifier other than
    /// `crate`, `self` or `super`.
    UnknownIdentifier,
    /// A visibility restriction used a multi-segment path without the
    /// `in` qualifier.
    PathWithoutIn,
    /// A variant with zero or several unnamed fields cannot be rewritten.
    UnsupportedVariantType,
    /// A `variants` argument carried a visibility prefix that does not
    /// parse as a visibility.
    MalformedVisibility,
    /// A `variants` argument carried a namespace name that is not an
    /// identifier.
    MalformedIdentifier,
}

/// A deferred compile-time diagnostic: its kind, and the offending token.
///
/// `token` locates the error for the reader: the unknown identifier or
/// argument key, the name of the unsupported variant, or the whole
/// malformed string, depending on `kind`.
#[derive(Debug, PartialEq, Eq)]
pub struct MacroError {
    pub kind: ErrorKind,
    pub token: String,
}

/// The mathematical image of a [`MacroError`].
pub struct MacroErrorView {
    pub kind: ErrorKind,
    pub token: Seq<char>,
}

impl View for MacroError {
    type V = MacroErrorView;

    open spec fn view(&self) -> MacroErrorView {
        MacroErrorView { kind: self.kind, token: self.token@ }
    }
}

impl DeepView for MacroError {
    type V = MacroErrorView;

    open spec fn deep_view(&self) -> MacroErrorView {
        self.view()
    }
}

impl Clone for MacroError {
    fn clone(&self) -> (res: Self)
        ensures
            res@ == self@,
    {
        MacroError { kind: self.kind, token: self.token.clone() }
    }
}

/// The fixed diagnostic text of each error kind.
pub open spec fn spec_message(kind: ErrorKind) -> Seq<char> {
    match kind {
        ErrorKind::ExpectedIdentifier => "expected identifier"@,
        ErrorKind::UnknownArgument => "unknown argument"@,
        ErrorKind::UnknownIdentifier => "unknown identifier"@,
        ErrorKind::PathWithoutIn => "path without `in` token"@,
        ErrorKind::UnsupportedVariantType => "unsupported variant type"@,
        ErrorKind::MalformedVisibility => "malformed visibility"@,
        ErrorKind::MalformedIdentifier => "malformed identifier"@,
    }
}

impl MacroError {
    /// The diagnostic text for this error.
    pub fn message(&self) -> (m: &'static str)
        ensures
            m@ == spec_message(self.kind),
    {
        match self.kind {
            ErrorKind::ExpectedIdentifier => "expected identifier",
            ErrorKind::UnknownArgument => "unknown argument",
            ErrorKind::UnknownIdentifier => "unknown identifier",
            ErrorKind::PathWithoutIn => "path without `in` token",
            ErrorKind::UnsupportedVariantType => "unsupported variant type",
            ErrorKind::MalformedVisibility => "malformed visibility",
            ErrorKind::MalformedIdentifier => "malformed identifier",
        }
    }
}

/// The image of a `Result` whose sides both have deep views.
pub open spec fn result_view<T: DeepView, E: DeepView>(r: Result<T, E>) -> Result<T::V, E::V> {
    match r {
        Ok(t) => Ok(t.deep_view()),
        Err(e) => Err(e.deep_view()),
    }
}

} // verus!
