//! The macro's own configuration: parsing the attribute argument list and
//! the `variants = "..."` namespace specification.
//!
//! The `variants` value optionally carries a visibility prefix: when the
//! string contains a space, everything before the last space is parsed as
//! a visibility (canonical spacing: `pub`, `pub(crate)`, `pub(self)`,
//! `pub(super)`, `pub(in path)`) and the suffix after it is the namespace
//! identifier; without a space the whole string is the identifier.

use vstd::prelude::*;
use vstd::string::StrSliceExecFns;
use vstd::string::StringExecFns;
use crate::ast::CratePath;
use crate::ast::CratePathView;
use crate::error::ErrorKind;
use crate::error::MacroError;
use crate::error::MacroErrorView;
use crate::error::result_view;
use crate::text::is_ident;
use crate::text::rfind_char;
use crate::text::spec_is_ident;
use crate::text::spec_rfind;
use crate::text::str_eq;
use crate::vis::VisPath;
use crate::vis::VisPathView;
use crate::vis::Visibility;
use crate::vis::VisibilityView;
use crate::vis::keyword_restriction;
use crate::vis::keyword_restriction_exec;

verus! {

/// The first index at or after `from` where `::` occurs.
pub open spec fn first_cc(s: Seq<char>, from: int) -> Option<int>
    decreases s.len() - from,
{
    if from < 0 || from + 2 > s.len() {
        None
    } else if s[from] == ':' && s[from + 1] == ':' {
        Some(from)
    } else {
        first_cc(s, from + 1)
    }
}

/// The segments of a `::`-separated path, read from index `from`: each
/// segment must have identifier shape.
pub open spec fn spec_split_from(s: Seq<char>, from: int) -> Option<Seq<Seq<char>>>
    decreases s.len() - from,
{
    if from < 0 || from > s.len() {
        None
    } else {
        match first_cc(s, from) {
            None => {
                let seg = s.subrange(from, s.len() as int);
                if spec_is_ident(seg) {
                    Some(seq![seg])
                } else {
                    None
                }
            },
            Some(i) => {
                if from <= i && i + 2 <= s.len() {
                    let seg = s.subrange(from, i);
                    if spec_is_ident(seg) {
                        match spec_split_from(s, i + 2) {
                            Some(rest) => Some(seq![seg] + rest),
                            None => None,
                        }
                    } else {
                        None
                    }
                } else {
                    None
                }
            },
        }
    }
}

/// A restriction path read from index `from`: an optional leading `::`,
/// then `::`-separated segments.
pub open spec fn spec_parse_path(s: Seq<char>, from: int) -> Option<VisPathView> {
    if from + 2 <= s.len() && s[from] == ':' && s[from + 1] == ':' {
        match spec_split_from(s, from + 2) {
            Some(segments) => Some(VisPathView { leading_colon: true, segments }),
            None => None,
        }
    } else {
        match spec_split_from(s, from) {
            Some(segments) => Some(VisPathView { leading_colon: false, segments }),
            None => None,
        }
    }
}

/// Parse a visibility string (canonical spacing).
pub open spec fn spec_parse_vis(s: Seq<char>) -> Result<VisibilityView, MacroErrorView> {
    if s.len() == 0 {
        Ok(VisibilityView::Inherited)
    } else if s == "pub"@ {
        Ok(VisibilityView::Public)
    } else if s.len() >= 5 && s.take(4) == "pub("@ && s[s.len() - 1] == ')' {
        let inner = s.subrange(4, s.len() - 1);
        if inner == "crate"@ {
            Ok(keyword_restriction("crate"@))
        } else if inner == "self"@ {
            Ok(keyword_restriction("self"@))
        } else if inner == "super"@ {
            Ok(keyword_restriction("super"@))
        } else if inner.len() >= 3 && inner.take(3) == "in "@ {
            match spec_parse_path(inner, 3) {
                Some(path) => Ok(VisibilityView::Restricted { has_in: true, path }),
                None => Err(MacroErrorView { kind: ErrorKind::MalformedVisibility, token: s }),
            }
        } else {
            Err(MacroErrorView { kind: ErrorKind::MalformedVisibility, token: s })
        }
    } else {
        Err(MacroErrorView { kind: ErrorKind::MalformedVisibility, token: s })
    }
}

/// Find the first `::` at or after `from`.
fn find_cc(s: &str, from: usize) -> (r: Option<usize>)
    ensures
        match r {
            Some(i) => first_cc(s@, from as int) == Some(i as int) && from <= i && i + 2
                <= s@.len(),
            None => first_cc(s@, from as int) is None,
        },
    decreases s@.len() - from,
{
    let n = s.unicode_len();
    if from >= n || n - from < 2 {
        None
    } else if s.get_char(from) == ':' && s.get_char(from + 1) == ':' {
        Some(from)
    } else {
        find_cc(s, from + 1)
    }
}

/// Read the `::`-separated segments of `s` from index `from`.
fn split_from(s: &str, from: usize) -> (r: Option<Vec<String>>)
    requires
        from <= s@.len(),
    ensures
        match r {
            Some(v) => spec_split_from(s@, from as int) == Some(v.deep_view()),
            None => spec_split_from(s@, from as int) is None,
        },
    decreases s@.len() - from,
{
    let n = s.unicode_len();
    match find_cc(s, from) {
        None => {
            let seg = s.substring_char(from, n);
            if is_ident(seg) {
                let mut v: Vec<String> = Vec::new();
                v.push(String::from_str(seg));
                proof {
                    assert(v.deep_view() =~= seq![s@.subrange(from as int, s@.len() as int)]);
                }
                Some(v)
            } else {
                None
            }
        },
        Some(i) => {
            let seg = s.substring_char(from, i);
            if is_ident(seg) {
                match split_from(s, i + 2) {
                    Some(mut rest) => {
                        let ghost tail = rest.deep_view();
                        rest.insert(0, String::from_str(seg));
                        proof {
                            assert(rest.deep_view() =~= seq![s@.subrange(from as int, i as int)]
                                + tail);
                        }
                        Some(rest)
                    },
                    None => None,
                }
            } else {
                None
            }
        },
    }
}

/// Read a restriction path from index `from`.
fn parse_path(s: &str, from: usize) -> (r: Option<VisPath>)
    requires
        from <= s@.len(),
    ensures
        match r {
            Some(p) => spec_parse_path(s@, from as int) == Some(p.deep_view()),
            None => spec_parse_path(s@, from as int) is None,
        },
{
    let n = s.unicode_len();
    if from < n && n - from >= 2 && s.get_char(from) == ':' && s.get_char(from + 1) == ':' {
        match split_from(s, from + 2) {
            Some(segments) => Some(VisPath { leading_colon: true, segments }),
            None => None,
        }
    } else {
        match split_from(s, from) {
            Some(segments) => Some(VisPath { leading_colon: false, segments }),
            None => None,
        }
    }
}

/// Parse a visibility string.
pub fn parse_vis(s: &str) -> (r: Result<Visibility, MacroError>)
    ensures
        result_view(r) == spec_parse_vis(s@),
{
    let n = s.unicode_len();
    if n == 0 {
        return Ok(Visibility::Inherited);
    }
    if str_eq(s, "pub") {
        return Ok(Visibility::Public);
    }
    if n >= 5 {
        let head = s.substring_char(0, 4);
        proof {
            assert(head@ =~= s@.take(4));
        }
        if str_eq(head, "pub(") && s.get_char(n - 1) == ')' {
            let inner = s.substring_char(4, n - 1);
            if str_eq(inner, "crate") {
                return Ok(keyword_restriction_exec("crate"));
            }
            if str_eq(inner, "self") {
                return Ok(keyword_restriction_exec("self"));
            }
            if str_eq(inner, "super") {
                return Ok(keyword_restriction_exec("super"));
            }
            let m = inner.unicode_len();
            if m >= 3 {
                let inner_head = inner.substring_char(0, 3);
                proof {
                    assert(inner_head@ =~= inner@.take(3));
                }
                if str_eq(inner_head, "in ") {
                    match parse_path(inner, 3) {
                        Some(path) => {
                            return Ok(Visibility::Restricted { has_in: true, path });
                        },
                        None => {
                            return Err(
                                MacroError {
                                    kind: ErrorKind::MalformedVisibility,
                                    token: String::from_str(s),
                                },
                            );
                        },
                    }
                }
            }
            return Err(
                MacroError { kind: ErrorKind::MalformedVisibility, token: String::from_str(s) },
            );
        }
    }
    Err(MacroError { kind: ErrorKind::MalformedVisibility, token: String::from_str(s) })
}

/// Parse the value of a `variants = "..."` argument: an optional
/// visibility before the last space, then the namespace identifier.
pub open spec fn spec_parse_variants_value(s: Seq<char>) -> Result<
    (Option<VisibilityView>, Seq<char>),
    MacroErrorView,
> {
    match spec_rfind(s, ' ') {
        Some(i) => match spec_parse_vis(s.take(i)) {
            Ok(v) => {
                let name = s.skip(i + 1);
                if spec_is_ident(name) {
                    Ok((Some(v), name))
                } else {
                    Err(MacroErrorView { kind: ErrorKind::MalformedIdentifier, token: s })
                }
            },
            Err(_) => Err(MacroErrorView { kind: ErrorKind::MalformedVisibility, token: s }),
        },
        None => {
            if spec_is_ident(s) {
                Ok((None, s))
            } else {
                Err(MacroErrorView { kind: ErrorKind::MalformedIdentifier, token: s })
            }
        },
    }
}

/// Parse the value of a `variants = "..."` argument.
pub fn parse_variants_value(s: &str) -> (r: Result<(Option<Visibility>, String), MacroError>)
    ensures
        match r {
            Ok(p) => spec_parse_variants_value(s@) == Ok::<_, MacroErrorView>(
                (p.0.deep_view(), p.1@),
            ),
            Err(e) => spec_parse_variants_value(s@) == Err::<(Option<VisibilityView>, Seq<char>),
                _,
            >(e@),
        },
{
    let n = s.unicode_len();
    match rfind_char(s, ' ') {
        Some(i) => {
            let prefix = s.substring_char(0, i);
            proof {
                assert(prefix@ =~= s@.take(i as int));
            }
            match parse_vis(prefix) {
                Ok(v) => {
                    let name = s.substring_char(i + 1, n);
                    proof {
                        assert(name@ =~= s@.skip(i as int + 1));
                    }
                    if is_ident(name) {
                        Ok((Some(v), String::from_str(name)))
                    } else {
                        Err(
                            MacroError {
                                kind: ErrorKind::MalformedIdentifier,
                                token: String::from_str(s),
                            },
                        )
                    }
                },
                Err(_) => Err(
                    MacroError { kind: ErrorKind::MalformedVisibility, token: String::from_str(s) },
                ),
            }
        },
        None => {
            if is_ident(s) {
                Ok((None, String::from_str(s)))
            } else {
                Err(MacroError { kind: ErrorKind::MalformedIdentifier, token: String::from_str(s) })
            }
        },
    }
}

/// One argument of the attribute invocation.
#[derive(Debug, PartialEq, Eq)]
pub enum MacroArg {
    /// A bare key, as in `unstable_self_test`.
    Bare { key: String },
    /// A key with a string value, as in `variants = "..."`.
    Assigned { key: String, value: String },
}

/// The mathematical image of a [`MacroArg`].
pub enum MacroArgView {
    Bare { key: Seq<char> },
    Assigned { key: Seq<char>, value: Seq<char> },
}

impl View for MacroArg {
    type V = MacroArgView;

    open spec fn view(&self) -> MacroArgView {
        match self {
            MacroArg::Bare { key } => MacroArgView::Bare { key: key@ },
            MacroArg::Assigned { key, value } => MacroArgView::Assigned {
                key: key@,
                value: value@,
            },
        }
    }
}

impl DeepView for MacroArg {
    type V = MacroArgView;

    open spec fn deep_view(&self) -> MacroArgView {
        self.view()
    }
}

/// The key of an argument.
pub open spec fn arg_key(a: MacroArgView) -> Seq<char> {
    match a {
        MacroArgView::Bare { key } => key,
        MacroArgView::Assigned { key, .. } => key,
    }
}

/// The parsed configuration of one invocation.
#[derive(Debug, PartialEq, Eq)]
pub struct Config {
    /// The name of the companion namespace.
    pub variants_ident: String,
    /// The visibility of the companion namespace.
    pub variants_vis: Visibility,
    /// How emitted implementations refer to the trait crate.
    pub crate_path: CratePath,
}

/// The mathematical image of a [`Config`].
pub struct ConfigView {
    pub variants_ident: Seq<char>,
    pub variants_vis: VisibilityView,
    pub crate_path: CratePathView,
}

impl View for Config {
    type V = ConfigView;

    open spec fn view(&self) -> ConfigView {
        ConfigView {
            variants_ident: self.variants_ident@,
            variants_vis: self.variants_vis.deep_view(),
            crate_path: self.crate_path.deep_view(),
        }
    }
}

impl DeepView for Config {
    type V = ConfigView;

    open spec fn deep_view(&self) -> ConfigView {
        self.view()
    }
}

/// Apply one argument to the configuration.
///
/// `variants = "..."` renames the namespace and optionally sets its
/// visibility; bare `unstable_self_test` redirects the trait-crate path to
/// the declaring crate itself.  A key that is not a plain identifier, an
/// unknown key, or a known key with the wrong grammar is an error.
pub open spec fn spec_apply_arg(c: ConfigView, a: MacroArgView) -> Result<
    ConfigView,
    MacroErrorView,
> {
    let key = arg_key(a);
    if !spec_is_ident(key) {
        Err(MacroErrorView { kind: ErrorKind::ExpectedIdentifier, token: key })
    } else if key == "variants"@ {
        match a {
            MacroArgView::Assigned { value, .. } => match spec_parse_variants_value(value) {
                Ok((ov, name)) => Ok(
                    ConfigView {
                        variants_ident: name,
                        variants_vis: match ov {
                            Some(v) => v,
                            None => c.variants_vis,
                        },
                        crate_path: c.crate_path,
                    },
                ),
                Err(e) => Err(e),
            },
            MacroArgView::Bare { .. } => Err(
                MacroErrorView { kind: ErrorKind::UnknownArgument, token: key },
            ),
        }
    } else if key == "unstable_self_test"@ {
        match a {
            MacroArgView::Bare { .. } => Ok(
                ConfigView {
                    variants_ident: c.variants_ident,
                    variants_vis: c.variants_vis,
                    crate_path: CratePathView::Itself,
                },
            ),
            MacroArgView::Assigned { .. } => Err(
                MacroErrorView { kind: ErrorKind::UnknownArgument, token: key },
            ),
        }
    } else {
        Err(MacroErrorView { kind: ErrorKind::UnknownArgument, token: key })
    }
}

/// Fold the argument list over the configuration, left to right; the
/// first failing argument decides the error.
pub open spec fn spec_parse_config(args: Seq<MacroArgView>, c: ConfigView) -> Result<
    ConfigView,
    MacroErrorView,
>
    decreases args.len(),
{
    if args.len() == 0 {
        Ok(c)
    } else {
        match spec_apply_arg(c, args[0]) {
            Ok(c2) => spec_parse_config(args.drop_first(), c2),
            Err(e) => Err(e),
        }
    }
}

/// Apply one argument to the configuration.
fn apply_arg(c: Config, a: &MacroArg) -> (r: Result<Config, MacroError>)
    ensures
        result_view(r) == spec_apply_arg(c@, a@),
{
    let key: &String = match a {
        MacroArg::Bare { key } => key,
        MacroArg::Assigned { key, .. } => key,
    };
    if !is_ident(key.as_str()) {
        return Err(MacroError { kind: ErrorKind::ExpectedIdentifier, token: key.clone() });
    }
    if str_eq(key.as_str(), "variants") {
        match a {
            MacroArg::Assigned { value, .. } => match parse_variants_value(value.as_str()) {
                Ok((ov, name)) => Ok(
                    Config {
                        variants_ident: name,
                        variants_vis: match ov {
                            Some(v) => v,
                            None => c.variants_vis,
                        },
                        crate_path: c.crate_path,
                    },
                ),
                Err(e) => Err(e),
            },
            MacroArg::Bare { .. } => Err(
                MacroError { kind: ErrorKind::UnknownArgument, token: key.clone() },
            ),
        }
    } else if str_eq(key.as_str(), "unstable_self_test") {
        match a {
            MacroArg::Bare { .. } => Ok(
                Config {
                    variants_ident: c.variants_ident,
                    variants_vis: c.variants_vis,
                    crate_path: CratePath::Itself,
                },
            ),
            MacroArg::Assigned { .. } => Err(
                MacroError { kind: ErrorKind::UnknownArgument, token: key.clone() },
            ),
        }
    } else {
        Err(MacroError { kind: ErrorKind::UnknownArgument, token: key.clone() })
    }
}

/// Fold the argument list over the configuration.
#[verifier::loop_isolation(false)]
pub fn parse_config(args: &Vec<MacroArg>, init: Config) -> (r: Result<Config, MacroError>)
    ensures
        result_view(r) == spec_parse_config(args.deep_view(), init@),
{
    let ghost args0 = args.deep_view();
    let ghost init0 = init@;
    let mut c = init;
    let mut i: usize = 0;
    proof {
        assert(args0.skip(0) =~= args0);
    }
    while i < args.len()
        invariant
            i <= args.len(),
            args.deep_view() == args0,
            spec_parse_config(args0, init0) == spec_parse_config(args0.skip(i as int), c@),
        decreases args.len() - i,
    {
        proof {
            assert(args0.skip(i as int)[0] == args0[i as int]);
            assert(args0.skip(i as int).drop_first() =~= args0.skip(i as int + 1));
        }
        let ghost cpre = c@;
        match apply_arg(c, &args[i]) {
            Ok(c2) => {
                proof {
                    assert(spec_parse_config(args0.skip(i as int), cpre) == spec_parse_config(
                        args0.skip(i as int + 1),
                        c2@,
                    ));
                }
                c = c2;
            },
            Err(e) => {
                proof {
                    assert(spec_parse_config(args0.skip(i as int), cpre) == Err::<
                        ConfigView,
                        MacroErrorView,
                    >(e@));
                }
                return Err(e);
            },
        }
        i = i + 1;
    }
    proof {
        assert(args0.skip(i as int) =~= Seq::<MacroArgView>::empty());
    }
    Ok(c)
}

/// How the emitted implementations name the trait crate: the effective
/// local name when the build-metadata query found one, and the fixed
/// default name otherwise.
pub open spec fn spec_resolve_crate_name(found: Option<Seq<char>>) -> CratePathView {
    match found {
        Some(name) => CratePathView::Rooted(name),
        None => CratePathView::Rooted("newtype_enum"@),
    }
}

/// Turn the outcome of the build-metadata query into the path used by the
/// emitted implementations.
pub fn resolve_crate_name(found: Option<String>) -> (r: CratePath)
    ensures
        r@ == spec_resolve_crate_name(found.deep_view()),
{
    match found {
        Some(name) => CratePath::Rooted(name),
        None => CratePath::Rooted(String::from_str("newtype_enum")),
    }
}

} // verus!
