//! The model of the declarations the transformation reads and writes.
//!
//! The engine works on plain values: identifiers are strings, types and
//! attribute bodies are opaque token text, visibilities are the structured
//! [`Visibility`] model.  A front end converts real syntax into this model
//! and renders the produced model back into syntax.

use vstd::prelude::*;
use crate::vis::Visibility;
use crate::vis::VisibilityView;

verus! {

/// One attribute (metadata tag) on a declaration.
///
/// Attribute bodies are opaque: the engine only distinguishes doc comments
/// (which it filters and generates) from everything else.
#[derive(Debug, PartialEq, Eq)]
pub enum Attr {
    /// A doc comment: `#[doc = "..."]` with the given text.
    Doc(String),
    /// The structural doc comment placed on a rewritten variant,
    /// pointing at its payload type: "See `<variant>` in `<ns>`".
    DocSee { variant: String, ns: String },
    /// Any other attribute, carried through as opaque token text.
    Other(String),
}

/// The mathematical image of an [`Attr`].
pub enum AttrView {
    Doc(Seq<char>),
    DocSee { variant: Seq<char>, ns: Seq<char> },
    Other(Seq<char>),
}

impl View for Attr {
    type V = AttrView;

    open spec fn view(&self) -> AttrView {
        match self {
            Attr::Doc(s) => AttrView::Doc(s@),
            Attr::DocSee { variant, ns } => AttrView::DocSee { variant: variant@, ns: ns@ },
            Attr::Other(s) => AttrView::Other(s@),
        }
    }
}

impl DeepView for Attr {
    type V = AttrView;

    open spec fn deep_view(&self) -> AttrView {
        self.view()
    }
}

impl Clone for Attr {
    fn clone(&self) -> (res: Self)
        ensures
            res@ == self@,
    {
        match self {
            Attr::Doc(s) => Attr::Doc(s.clone()),
            Attr::DocSee { variant, ns } => Attr::DocSee {
                variant: variant.clone(),
                ns: ns.clone(),
            },
            Attr::Other(s) => Attr::Other(s.clone()),
        }
    }
}

/// A type as it appears in a field.
#[derive(Debug, PartialEq, Eq)]
pub enum Ty {
    /// A pre-existing type, carried through as opaque token text.
    Opaque(String),
    /// A synthesized payload type: `<ns>::<name>`.
    InNamespace { ns: String, name: String },
}

/// The mathematical image of a [`Ty`].
pub enum TyView {
    Opaque(Seq<char>),
    InNamespace { ns: Seq<char>, name: Seq<char> },
}

impl View for Ty {
    type V = TyView;

    open spec fn view(&self) -> TyView {
        match self {
            Ty::Opaque(s) => TyView::Opaque(s@),
            Ty::InNamespace { ns, name } => TyView::InNamespace { ns: ns@, name: name@ },
        }
    }
}

impl DeepView for Ty {
    type V = TyView;

    open spec fn deep_view(&self) -> TyView {
        self.view()
    }
}

impl Clone for Ty {
    fn clone(&self) -> (res: Self)
        ensures
            res@ == self@,
    {
        match self {
            Ty::Opaque(s) => Ty::Opaque(s.clone()),
            Ty::InNamespace { ns, name } => Ty::InNamespace { ns: ns.clone(), name: name.clone() },
        }
    }
}

/// A named field of a struct variant or of a synthesized payload struct.
#[derive(Debug, PartialEq, Eq)]
pub struct FieldDef {
    pub attrs: Vec<Attr>,
    pub vis: Visibility,
    pub ident: String,
    pub ty: Ty,
}

/// The mathematical image of a [`FieldDef`].
pub struct FieldView {
    pub attrs: Seq<AttrView>,
    pub vis: VisibilityView,
    pub ident: Seq<char>,
    pub ty: TyView,
}

impl View for FieldDef {
    type V = FieldView;

    open spec fn view(&self) -> FieldView {
        FieldView {
            attrs: self.attrs.deep_view(),
            vis: self.vis.deep_view(),
            ident: self.ident@,
            ty: self.ty.deep_view(),
        }
    }
}

impl DeepView for FieldDef {
    type V = FieldView;

    open spec fn deep_view(&self) -> FieldView {
        self.view()
    }
}

/// Copy a vector of attributes.
pub fn clone_attrs(v: &Vec<Attr>) -> (r: Vec<Attr>)
    ensures
        r.deep_view() == v.deep_view(),
{
    let mut r: Vec<Attr> = Vec::new();
    let mut i: usize = 0;
    while i < v.len()
        invariant
            i <= v.len(),
            r.len() == i,
            forall|j: int| 0 <= j < i ==> r.deep_view()[j] == v.deep_view()[j],
        decreases v.len() - i,
    {
        r.push(v[i].clone());
        i = i + 1;
    }
    proof {
        assert(r.deep_view() =~= v.deep_view());
    }
    r
}

/// Copy a vector of types.
pub fn clone_tys(v: &Vec<Ty>) -> (r: Vec<Ty>)
    ensures
        r.deep_view() == v.deep_view(),
{
    let mut r: Vec<Ty> = Vec::new();
    let mut i: usize = 0;
    while i < v.len()
        invariant
            i <= v.len(),
            r.len() == i,
            forall|j: int| 0 <= j < i ==> r.deep_view()[j] == v.deep_view()[j],
        decreases v.len() - i,
    {
        r.push(v[i].clone());
        i = i + 1;
    }
    proof {
        assert(r.deep_view() =~= v.deep_view());
    }
    r
}

impl Clone for FieldDef {
    fn clone(&self) -> (res: Self)
        ensures
            res@ == self@,
    {
        FieldDef {
            attrs: clone_attrs(&self.attrs),
            vis: self.vis.clone(),
            ident: self.ident.clone(),
            ty: self.ty.clone(),
        }
    }
}

/// Copy a vector of named fields.
pub fn clone_fields(v: &Vec<FieldDef>) -> (r: Vec<FieldDef>)
    ensures
        r.deep_view() == v.deep_view(),
{
    let mut r: Vec<FieldDef> = Vec::new();
    let mut i: usize = 0;
    while i < v.len()
        invariant
            i <= v.len(),
            r.len() == i,
            forall|j: int| 0 <= j < i ==> r.deep_view()[j] == v.deep_view()[j],
        decreases v.len() - i,
    {
        r.push(v[i].clone());
        i = i + 1;
    }
    proof {
        assert(r.deep_view() =~= v.deep_view());
    }
    r
}

/// The payload shape of a variant (or of a synthesized struct).
#[derive(Debug, PartialEq, Eq)]
pub enum FieldsDef {
    /// No fields at all.
    Unit,
    /// Unnamed (tuple) fields: only their types matter to the engine.
    Unnamed(Vec<Ty>),
    /// Named fields.
    Named(Vec<FieldDef>),
}

/// The mathematical image of a [`FieldsDef`].
pub enum FieldsView {
    Unit,
    Unnamed(Seq<TyView>),
    Named(Seq<FieldView>),
}

impl View for FieldsDef {
    type V = FieldsView;

    open spec fn view(&self) -> FieldsView {
        match self {
            FieldsDef::Unit => FieldsView::Unit,
            FieldsDef::Unnamed(tys) => FieldsView::Unnamed(tys.deep_view()),
            FieldsDef::Named(fs) => FieldsView::Named(fs.deep_view()),
        }
    }
}

impl DeepView for FieldsDef {
    type V = FieldsView;

    open spec fn deep_view(&self) -> FieldsView {
        self.view()
    }
}

impl Clone for FieldsDef {
    fn clone(&self) -> (res: Self)
        ensures
            res@ == self@,
    {
        match self {
            FieldsDef::Unit => FieldsDef::Unit,
            FieldsDef::Unnamed(tys) => FieldsDef::Unnamed(clone_tys(tys)),
            FieldsDef::Named(fs) => FieldsDef::Named(clone_fields(fs)),
        }
    }
}

/// One variant of the declared enum.
#[derive(Debug, PartialEq, Eq)]
pub struct VariantDef {
    pub attrs: Vec<Attr>,
    pub ident: String,
    pub fields: FieldsDef,
    /// An explicit discriminant expression, as opaque token text.
    pub discriminant: Option<String>,
}

/// The mathematical image of a [`VariantDef`].
pub struct VariantView {
    pub attrs: Seq<AttrView>,
    pub ident: Seq<char>,
    pub fields: FieldsView,
    pub discriminant: Option<Seq<char>>,
}

impl View for VariantDef {
    type V = VariantView;

    open spec fn view(&self) -> VariantView {
        VariantView {
            attrs: self.attrs.deep_view(),
            ident: self.ident@,
            fields: self.fields.deep_view(),
            discriminant: self.discriminant.deep_view(),
        }
    }
}

impl DeepView for VariantDef {
    type V = VariantView;

    open spec fn deep_view(&self) -> VariantView {
        self.view()
    }
}

impl Clone for VariantDef {
    fn clone(&self) -> (res: Self)
        ensures
            res@ == self@,
    {
        let discriminant = match &self.discriminant {
            Some(d) => Some(d.clone()),
            None => None,
        };
        VariantDef {
            attrs: clone_attrs(&self.attrs),
            ident: self.ident.clone(),
            fields: self.fields.clone(),
            discriminant,
        }
    }
}

/// The declared enum: the input of the transformation.
#[derive(Debug, PartialEq, Eq)]
pub struct EnumDef {
    pub attrs: Vec<Attr>,
    pub vis: Visibility,
    pub ident: String,
    pub variants: Vec<VariantDef>,
}

/// The mathematical image of an [`EnumDef`].
pub struct EnumView {
    pub attrs: Seq<AttrView>,
    pub vis: VisibilityView,
    pub ident: Seq<char>,
    pub variants: Seq<VariantView>,
}

impl View for EnumDef {
    type V = EnumView;

    open spec fn view(&self) -> EnumView {
        EnumView {
            attrs: self.attrs.deep_view(),
            vis: self.vis.deep_view(),
            ident: self.ident@,
            variants: self.variants.deep_view(),
        }
    }
}

impl DeepView for EnumDef {
    type V = EnumView;

    open spec fn deep_view(&self) -> EnumView {
        self.view()
    }
}

/// A synthesized payload struct.
#[derive(Debug, PartialEq, Eq)]
pub struct StructDef {
    pub attrs: Vec<Attr>,
    pub vis: Visibility,
    pub ident: String,
    pub fields: FieldsDef,
}

/// The mathematical image of a [`StructDef`].
pub struct StructView {
    pub attrs: Seq<AttrView>,
    pub vis: VisibilityView,
    pub ident: Seq<char>,
    pub fields: FieldsView,
}

impl View for StructDef {
    type V = StructView;

    open spec fn view(&self) -> StructView {
        StructView {
            attrs: self.attrs.deep_view(),
            vis: self.vis.deep_view(),
            ident: self.ident@,
            fields: self.fields.deep_view(),
        }
    }
}

impl DeepView for StructDef {
    type V = StructView;

    open spec fn deep_view(&self) -> StructView {
        self.view()
    }
}

/// The companion namespace holding all synthesized payload structs of one
/// enum.  It exists only when at least one variant needed synthesis.
#[derive(Debug, PartialEq, Eq)]
pub struct NamespaceDef {
    pub vis: Visibility,
    pub ident: String,
    pub structs: Vec<StructDef>,
}

/// The mathematical image of a [`NamespaceDef`].
pub struct NamespaceView {
    pub vis: VisibilityView,
    pub ident: Seq<char>,
    pub structs: Seq<StructView>,
}

impl View for NamespaceDef {
    type V = NamespaceView;

    open spec fn view(&self) -> NamespaceView {
        NamespaceView {
            vis: self.vis.deep_view(),
            ident: self.ident@,
            structs: self.structs.deep_view(),
        }
    }
}

impl DeepView for NamespaceDef {
    type V = NamespaceView;

    open spec fn deep_view(&self) -> NamespaceView {
        self.view()
    }
}

/// How the emitted implementations refer to the crate that declares the
/// capability traits.
#[derive(Debug, PartialEq, Eq)]
pub enum CratePath {
    /// An absolutely rooted external name, `::<name>`.
    Rooted(String),
    /// The declaring crate itself (`self`), used by the self-test mode.
    Itself,
}

/// The mathematical image of a [`CratePath`].
pub enum CratePathView {
    Rooted(Seq<char>),
    Itself,
}

impl View for CratePath {
    type V = CratePathView;

    open spec fn view(&self) -> CratePathView {
        match self {
            CratePath::Rooted(s) => CratePathView::Rooted(s@),
            CratePath::Itself => CratePathView::Itself,
        }
    }
}

impl DeepView for CratePath {
    type V = CratePathView;

    open spec fn deep_view(&self) -> CratePathView {
        self.view()
    }
}

impl Clone for CratePath {
    fn clone(&self) -> (res: Self)
        ensures
            res@ == self@,
    {
        match self {
            CratePath::Rooted(s) => CratePath::Rooted(s.clone()),
            CratePath::Itself => CratePath::Itself,
        }
    }
}

/// One capability binding: for the variant named `variant_ident`, the
/// payload type that the implementations relate to the enum.
#[derive(Debug, PartialEq, Eq)]
pub struct Binding {
    pub variant_ident: String,
    pub payload: Ty,
}

/// The mathematical image of a [`Binding`].
pub struct BindingView {
    pub variant_ident: Seq<char>,
    pub payload: TyView,
}

impl View for Binding {
    type V = BindingView;

    open spec fn view(&self) -> BindingView {
        BindingView { variant_ident: self.variant_ident@, payload: self.payload.deep_view() }
    }
}

impl DeepView for Binding {
    type V = BindingView;

    open spec fn deep_view(&self) -> BindingView {
        self.view()
    }
}

/// The complete result of one transformation: the rewritten enum, the
/// optional companion namespace, the capability bindings, and the path
/// under which the emitted implementations name the trait crate.
#[derive(Debug, PartialEq, Eq)]
pub struct Expansion {
    pub item: EnumDef,
    pub namespace: Option<NamespaceDef>,
    pub bindings: Vec<Binding>,
    pub crate_path: CratePath,
}

/// The mathematical image of an [`Expansion`].
pub struct ExpansionView {
    pub item: EnumView,
    pub namespace: Option<NamespaceView>,
    pub bindings: Seq<BindingView>,
    pub crate_path: CratePathView,
}

impl View for Expansion {
    type V = ExpansionView;

    open spec fn view(&self) -> ExpansionView {
        ExpansionView {
            item: self.item.deep_view(),
            namespace: self.namespace.deep_view(),
            bindings: self.bindings.deep_view(),
            crate_path: self.crate_path.deep_view(),
        }
    }
}

impl DeepView for Expansion {
    type V = ExpansionView;

    open spec fn deep_view(&self) -> ExpansionView {
        self.view()
    }
}

/// A doc-comment attribute, excluded when the enum's outer attributes are
/// copied onto synthesized payload structs.
pub open spec fn attr_is_doc(a: AttrView) -> bool {
    a is Doc || a is DocSee
}

/// The enum's outer attributes with doc comments removed.
pub open spec fn nondoc_attrs(attrs: Seq<AttrView>) -> Seq<AttrView> {
    attrs.filter(|a: AttrView| !attr_is_doc(a))
}

/// A variant that is already a newtype wrapper: exactly one unnamed field.
pub open spec fn is_wrapper(v: VariantView) -> bool {
    v.fields matches FieldsView::Unnamed(tys) && tys.len() == 1
}

/// Decide whether a variant is already a newtype wrapper.
pub fn is_wrapper_variant(v: &VariantDef) -> (r: bool)
    ensures
        r == is_wrapper(v.deep_view()),
{
    match &v.fields {
        FieldsDef::Unnamed(tys) => tys.len() == 1,
        _ => false,
    }
}

} // verus!
