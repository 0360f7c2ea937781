//! The transformation engine.
//!
//! Given the model of an enum declaration and the parsed configuration,
//! the engine classifies every variant — a variant with exactly one
//! unnamed field is already a newtype wrapper and passes through (losing
//! only its discriminant); every other variant (unit or struct shape) is
//! rewritten into a wrapper around a freshly synthesized payload struct —
//! and produces three coupled outputs: the rewritten enum, the companion
//! namespace of payload structs, and the capability bindings.

use vstd::prelude::*;
use crate::ast::Attr;
use crate::ast::AttrView;
use crate::ast::Binding;
use crate::ast::BindingView;
use crate::ast::CratePath;
use crate::ast::CratePathView;
use crate::ast::EnumDef;
use crate::ast::EnumView;
use crate::ast::Expansion;
use crate::ast::ExpansionView;
use crate::ast::FieldDef;
use crate::ast::FieldView;
use crate::ast::FieldsDef;
use crate::ast::FieldsView;
use crate::ast::NamespaceDef;
use crate::ast::NamespaceView;
use crate::ast::StructDef;
use crate::ast::StructView;
use crate::ast::Ty;
use crate::ast::TyView;
use crate::ast::VariantDef;
use crate::ast::VariantView;
use crate::ast::attr_is_doc;
use crate::ast::clone_attrs;
use crate::ast::is_wrapper;
use crate::ast::is_wrapper_variant;
use crate::config::Config;
use crate::config::ConfigView;
use crate::config::MacroArg;
use crate::config::MacroArgView;
use crate::config::parse_config;
use crate::config::resolve_crate_name;
use crate::config::spec_parse_config;
use crate::config::spec_resolve_crate_name;
use crate::error::ErrorKind;
use crate::error::MacroError;
use crate::error::MacroErrorView;
use crate::error::result_view;
use crate::text::ident_append;
use crate::vis::Visibility;
use crate::vis::VisibilityView;
use crate::vis::keyword_restriction_exec;
use crate::vis::pub_super;
use crate::vis::spec_super_vis;
use crate::vis::super_vis;

verus! {

/// Rewrite one variant for the rewritten enum: a wrapper keeps its shape
/// and loses its discriminant; any other variant becomes a wrapper around
/// its synthesized payload type, carrying only the structural doc comment
/// that points at that type.
pub open spec fn spec_rewrite_variant(v: VariantView, ns: Seq<char>) -> VariantView {
    if is_wrapper(v) {
        VariantView { discriminant: None, ..v }
    } else {
        VariantView {
            attrs: seq![AttrView::DocSee { variant: v.ident, ns }],
            ident: v.ident,
            fields: FieldsView::Unnamed(seq![TyView::InNamespace { ns, name: v.ident }]),
            discriminant: None,
        }
    }
}

/// The rewritten enum: same name, visibility and attributes, every
/// variant rewritten.
pub open spec fn spec_define_enum(e: EnumView, ns: Seq<char>) -> EnumView {
    EnumView {
        variants: Seq::new(e.variants.len(), |i: int| spec_rewrite_variant(e.variants[i], ns)),
        ..e
    }
}

/// The attributes copied from the enum onto every synthesized payload
/// struct: the enum's outer attributes with doc comments removed.
pub open spec fn nondoc_attrs(attrs: Seq<AttrView>) -> Seq<AttrView>
    decreases attrs.len(),
{
    if attrs.len() == 0 {
        Seq::empty()
    } else if attr_is_doc(attrs[0]) {
        nondoc_attrs(attrs.drop_first())
    } else {
        seq![attrs[0]] + nondoc_attrs(attrs.drop_first())
    }
}

/// Re-project the visibilities of a struct variant's fields; the default
/// for a field without a modifier is the payload struct's own computed
/// visibility.  The first failing field decides the error.
pub open spec fn spec_project_fields(fs: Seq<FieldView>, dflt: VisibilityView) -> Result<
    Seq<FieldView>,
    MacroErrorView,
>
    decreases fs.len(),
{
    if fs.len() == 0 {
        Ok(Seq::empty())
    } else {
        match spec_super_vis(fs[0].vis, dflt) {
            Err(e) => Err(e),
            Ok(v) => match spec_project_fields(fs.drop_first(), dflt) {
                Err(e) => Err(e),
                Ok(rest) => Ok(seq![FieldView { vis: v, ..fs[0] }] + rest),
            },
        }
    }
}

/// Synthesize the payload struct of one non-wrapper variant: the enum's
/// non-doc attributes followed by the variant's own, the computed struct
/// visibility, the variant's name, and its fields (re-projected when
/// named).  A variant with zero or several unnamed fields is rejected.
pub open spec fn spec_synth_struct(
    nondoc: Seq<AttrView>,
    svis: VisibilityView,
    v: VariantView,
) -> Result<StructView, MacroErrorView> {
    match v.fields {
        FieldsView::Unit => Ok(
            StructView {
                attrs: nondoc + v.attrs,
                vis: svis,
                ident: v.ident,
                fields: FieldsView::Unit,
            },
        ),
        FieldsView::Named(fs) => match spec_project_fields(fs, svis) {
            Ok(gs) => Ok(
                StructView {
                    attrs: nondoc + v.attrs,
                    vis: svis,
                    ident: v.ident,
                    fields: FieldsView::Named(gs),
                },
            ),
            Err(e) => Err(e),
        },
        FieldsView::Unnamed(_) => Err(
            MacroErrorView { kind: ErrorKind::UnsupportedVariantType, token: v.ident },
        ),
    }
}

/// Synthesize the payload structs of all non-wrapper variants, in
/// declaration order; the first failing variant decides the error.
pub open spec fn spec_synth_structs(
    nondoc: Seq<AttrView>,
    svis: VisibilityView,
    vs: Seq<VariantView>,
) -> Result<Seq<StructView>, MacroErrorView>
    decreases vs.len(),
{
    if vs.len() == 0 {
        Ok(Seq::empty())
    } else if is_wrapper(vs[0]) {
        spec_synth_structs(nondoc, svis, vs.drop_first())
    } else {
        match spec_synth_struct(nondoc, svis, vs[0]) {
            Err(e) => Err(e),
            Ok(s) => match spec_synth_structs(nondoc, svis, vs.drop_first()) {
                Err(e) => Err(e),
                Ok(rest) => Ok(seq![s] + rest),
            },
        }
    }
}

/// Whether any variant needs a synthesized payload struct.
pub open spec fn spec_any_synthesis(vs: Seq<VariantView>) -> bool {
    exists|i: int| 0 <= i < vs.len() && !is_wrapper(vs[i])
}

/// The companion namespace: absent when every variant is already a
/// wrapper, otherwise the synthesized structs under the configured name
/// and visibility.  The struct visibility is the enum's own visibility
/// projected one level deeper, defaulting to `pub(super)`.
pub open spec fn spec_define_variants(
    e: EnumView,
    ns_ident: Seq<char>,
    ns_vis: VisibilityView,
) -> Result<Option<NamespaceView>, MacroErrorView> {
    if !spec_any_synthesis(e.variants) {
        Ok(None)
    } else {
        match spec_super_vis(e.vis, pub_super()) {
            Err(er) => Err(er),
            Ok(svis) => match spec_synth_structs(nondoc_attrs(e.attrs), svis, e.variants) {
                Err(er) => Err(er),
                Ok(structs) => Ok(Some(NamespaceView { vis: ns_vis, ident: ns_ident, structs })),
            },
        }
    }
}

/// The payload type a variant's capability binding relates to the enum:
/// its own wrapped type for a wrapper variant, the synthesized
/// `<ns>::<variant>` type otherwise.
pub open spec fn spec_payload_ty(v: VariantView, ns: Seq<char>) -> TyView {
    if is_wrapper(v) {
        match v.fields {
            FieldsView::Unnamed(tys) => tys[0],
            _ => TyView::Opaque(Seq::empty()),
        }
    } else {
        TyView::InNamespace { ns, name: v.ident }
    }
}

/// One capability binding per variant, in declaration order.
pub open spec fn spec_implement_variants(e: EnumView, ns: Seq<char>) -> Seq<BindingView> {
    Seq::new(
        e.variants.len(),
        |i: int|
            BindingView {
                variant_ident: e.variants[i].ident,
                payload: spec_payload_ty(e.variants[i], ns),
            },
    )
}

/// The configuration before any argument is applied: namespace named
/// `<enum>_variants`, namespace visibility equal to the enum's own, trait
/// crate resolved from the build-metadata query.
pub open spec fn spec_default_config(e: EnumView, found: Option<Seq<char>>) -> ConfigView {
    ConfigView {
        variants_ident: e.ident + "_variants"@,
        variants_vis: e.vis,
        crate_path: spec_resolve_crate_name(found),
    }
}

/// A prepared transformation: the declaration together with the parsed
/// configuration.
pub struct NewtypeEnum {
    pub item: EnumDef,
    pub crate_name: CratePath,
    pub variants: String,
    pub variants_vis: Visibility,
}

/// The mathematical image of a [`NewtypeEnum`].
pub struct NewtypeEnumView {
    pub item: EnumView,
    pub crate_name: CratePathView,
    pub variants: Seq<char>,
    pub variants_vis: VisibilityView,
}

impl View for NewtypeEnum {
    type V = NewtypeEnumView;

    open spec fn view(&self) -> NewtypeEnumView {
        NewtypeEnumView {
            item: self.item.deep_view(),
            crate_name: self.crate_name.deep_view(),
            variants: self.variants@,
            variants_vis: self.variants_vis.deep_view(),
        }
    }
}

impl DeepView for NewtypeEnum {
    type V = NewtypeEnumView;

    open spec fn deep_view(&self) -> NewtypeEnumView {
        self.view()
    }
}

/// Prepare a transformation: resolve the trait crate, apply the
/// defaults, then the attribute arguments.
pub open spec fn spec_new(
    args: Seq<MacroArgView>,
    found: Option<Seq<char>>,
    item: EnumView,
) -> Result<NewtypeEnumView, MacroErrorView> {
    match spec_parse_config(args, spec_default_config(item, found)) {
        Ok(c) => Ok(
            NewtypeEnumView {
                item,
                crate_name: c.crate_path,
                variants: c.variants_ident,
                variants_vis: c.variants_vis,
            },
        ),
        Err(e) => Err(e),
    }
}

/// The three coupled outputs of a prepared transformation.
pub open spec fn spec_expansion(n: NewtypeEnumView) -> Result<ExpansionView, MacroErrorView> {
    match spec_define_variants(n.item, n.variants, n.variants_vis) {
        Err(e) => Err(e),
        Ok(namespace) => Ok(
            ExpansionView {
                item: spec_define_enum(n.item, n.variants),
                namespace,
                bindings: spec_implement_variants(n.item, n.variants),
                crate_path: n.crate_name,
            },
        ),
    }
}

/// The whole transformation, from arguments and declaration to expansion.
pub open spec fn spec_newtype_enum_impl(
    args: Seq<MacroArgView>,
    found: Option<Seq<char>>,
    item: EnumView,
) -> Result<ExpansionView, MacroErrorView> {
    match spec_new(args, found, item) {
        Ok(n) => spec_expansion(n),
        Err(e) => Err(e),
    }
}

/// Rewrite one variant.
fn rewrite_variant(v: &VariantDef, ns: &String) -> (r: VariantDef)
    ensures
        r@ == spec_rewrite_variant(v@, ns@),
{
    if is_wrapper_variant(v) {
        let mut c = v.clone();
        c.discriminant = None;
        c
    } else {
        let mut attrs: Vec<Attr> = Vec::new();
        attrs.push(Attr::DocSee { variant: v.ident.clone(), ns: ns.clone() });
        let mut tys: Vec<Ty> = Vec::new();
        tys.push(Ty::InNamespace { ns: ns.clone(), name: v.ident.clone() });
        proof {
            assert(attrs.deep_view() =~= seq![AttrView::DocSee { variant: v.ident@, ns: ns@ }]);
            assert(tys.deep_view() =~= seq![TyView::InNamespace { ns: ns@, name: v.ident@ }]);
        }
        VariantDef {
            attrs,
            ident: v.ident.clone(),
            fields: FieldsDef::Unnamed(tys),
            discriminant: None,
        }
    }
}

/// Decide whether any variant needs synthesis.
fn any_synthesis(vars: &Vec<VariantDef>) -> (r: bool)
    ensures
        r == spec_any_synthesis(vars.deep_view()),
{
    let mut i: usize = 0;
    while i < vars.len()
        invariant
            i <= vars.len(),
            forall|j: int| 0 <= j < i ==> is_wrapper(#[trigger] vars.deep_view()[j]),
        decreases vars.len() - i,
    {
        if !is_wrapper_variant(&vars[i]) {
            proof {
                assert(!is_wrapper(vars.deep_view()[i as int]));
            }
            return true;
        }
        i = i + 1;
    }
    false
}

/// Copy the attributes from index `from` on, dropping doc comments.
fn nondoc_attrs_from(attrs: &Vec<Attr>, from: usize) -> (r: Vec<Attr>)
    requires
        from <= attrs.len(),
    ensures
        r.deep_view() == nondoc_attrs(attrs.deep_view().skip(from as int)),
    decreases attrs.len() - from,
{
    if from == attrs.len() {
        proof {
            assert(attrs.deep_view().skip(from as int) =~= Seq::<AttrView>::empty());
        }
        return Vec::new();
    }
    proof {
        assert(attrs.deep_view().skip(from as int)[0] == attrs.deep_view()[from as int]);
        assert(attrs.deep_view().skip(from as int).drop_first() =~= attrs.deep_view().skip(
            from as int + 1,
        ));
    }
    let a = &attrs[from];
    let keep = match a {
        Attr::Doc(_) => false,
        Attr::DocSee { .. } => false,
        Attr::Other(_) => true,
    };
    let mut rest = nondoc_attrs_from(attrs, from + 1);
    if keep {
        let ghost tail = rest.deep_view();
        rest.insert(0, a.clone());
        proof {
            assert(rest.deep_view() =~= seq![attrs.deep_view()[from as int]] + tail);
        }
    }
    rest
}

/// Concatenate two attribute lists.
fn concat_attrs(a: &Vec<Attr>, b: &Vec<Attr>) -> (r: Vec<Attr>)
    ensures
        r.deep_view() == a.deep_view() + b.deep_view(),
{
    let mut r = clone_attrs(a);
    let mut i: usize = 0;
    while i < b.len()
        invariant
            i <= b.len(),
            r.deep_view().len() == a.deep_view().len() + i,
            forall|j: int| 0 <= j < a.deep_view().len() ==> r.deep_view()[j] == a.deep_view()[j],
            forall|j: int|
                0 <= j < i ==> r.deep_view()[a.deep_view().len() + j] == b.deep_view()[j],
        decreases b.len() - i,
    {
        r.push(b[i].clone());
        i = i + 1;
    }
    proof {
        assert(r.deep_view() =~= a.deep_view() + b.deep_view());
    }
    r
}

/// Re-project the fields from index `from` on.
fn project_fields(fs: &Vec<FieldDef>, dflt: &Visibility, from: usize) -> (r: Result<
    Vec<FieldDef>,
    MacroError,
>)
    requires
        from <= fs.len(),
    ensures
        result_view(r) == spec_project_fields(fs.deep_view().skip(from as int), dflt@),
    decreases fs.len() - from,
{
    if from == fs.len() {
        let empty: Vec<FieldDef> = Vec::new();
        proof {
            assert(fs.deep_view().skip(from as int) =~= Seq::<FieldView>::empty());
            assert(empty.deep_view() =~= Seq::<FieldView>::empty());
        }
        return Ok(empty);
    }
    proof {
        assert(fs.deep_view().skip(from as int)[0] == fs.deep_view()[from as int]);
        assert(fs.deep_view().skip(from as int).drop_first() =~= fs.deep_view().skip(
            from as int + 1,
        ));
    }
    let f = &fs[from];
    match super_vis(&f.vis, dflt.clone()) {
        Err(e) => Err(e),
        Ok(v) => match project_fields(fs, dflt, from + 1) {
            Err(e) => Err(e),
            Ok(mut rest) => {
                let nf = FieldDef {
                    attrs: clone_attrs(&f.attrs),
                    vis: v,
                    ident: f.ident.clone(),
                    ty: f.ty.clone(),
                };
                let ghost nfv = nf@;
                let ghost tail = rest.deep_view();
                rest.insert(0, nf);
                proof {
                    assert(nfv == FieldView { vis: nfv.vis, ..fs.deep_view()[from as int] });
                    assert(rest.deep_view() =~= seq![nfv] + tail);
                }
                Ok(rest)
            },
        },
    }
}

/// Synthesize the payload struct of one non-wrapper variant.
fn synth_struct(nondoc: &Vec<Attr>, svis: &Visibility, v: &VariantDef) -> (r: Result<
    StructDef,
    MacroError,
>)
    ensures
        result_view(r) == spec_synth_struct(nondoc.deep_view(), svis@, v@),
{
    match &v.fields {
        FieldsDef::Unit => Ok(
            StructDef {
                attrs: concat_attrs(nondoc, &v.attrs),
                vis: svis.clone(),
                ident: v.ident.clone(),
                fields: FieldsDef::Unit,
            },
        ),
        FieldsDef::Named(fs) => {
            proof {
                assert(fs.deep_view().skip(0) =~= fs.deep_view());
            }
            match project_fields(fs, svis, 0) {
                Ok(gs) => Ok(
                    StructDef {
                        attrs: concat_attrs(nondoc, &v.attrs),
                        vis: svis.clone(),
                        ident: v.ident.clone(),
                        fields: FieldsDef::Named(gs),
                    },
                ),
                Err(e) => Err(e),
            }
        },
        FieldsDef::Unnamed(_) => Err(
            MacroError { kind: ErrorKind::UnsupportedVariantType, token: v.ident.clone() },
        ),
    }
}

/// Synthesize the payload structs of the non-wrapper variants from index
/// `from` on.
fn synth_structs(
    nondoc: &Vec<Attr>,
    svis: &Visibility,
    vars: &Vec<VariantDef>,
    from: usize,
) -> (r: Result<Vec<StructDef>, MacroError>)
    requires
        from <= vars.len(),
    ensures
        result_view(r) == spec_synth_structs(
            nondoc.deep_view(),
            svis@,
            vars.deep_view().skip(from as int),
        ),
    decreases vars.len() - from,
{
    if from == vars.len() {
        let empty: Vec<StructDef> = Vec::new();
        proof {
            assert(vars.deep_view().skip(from as int) =~= Seq::<VariantView>::empty());
            assert(empty.deep_view() =~= Seq::<StructView>::empty());
        }
        return Ok(empty);
    }
    proof {
        assert(vars.deep_view().skip(from as int)[0] == vars.deep_view()[from as int]);
        assert(vars.deep_view().skip(from as int).drop_first() =~= vars.deep_view().skip(
            from as int + 1,
        ));
    }
    let v = &vars[from];
    if is_wrapper_variant(v) {
        return synth_structs(nondoc, svis, vars, from + 1);
    }
    match synth_struct(nondoc, svis, v) {
        Err(e) => Err(e),
        Ok(s) => match synth_structs(nondoc, svis, vars, from + 1) {
            Err(e) => Err(e),
            Ok(mut rest) => {
                let ghost sv = s@;
                let ghost tail = rest.deep_view();
                rest.insert(0, s);
                proof {
                    assert(rest.deep_view() =~= seq![sv] + tail);
                }
                Ok(rest)
            },
        },
    }
}

/// The payload type of one variant's capability binding.
fn payload_ty(v: &VariantDef, ns: &String) -> (r: Ty)
    ensures
        r@ == spec_payload_ty(v@, ns@),
{
    match &v.fields {
        FieldsDef::Unnamed(tys) => {
            if tys.len() == 1 {
                tys[0].clone()
            } else {
                Ty::InNamespace { ns: ns.clone(), name: v.ident.clone() }
            }
        },
        _ => Ty::InNamespace { ns: ns.clone(), name: v.ident.clone() },
    }
}

impl NewtypeEnum {
    /// Prepare a transformation: resolve the trait-crate reference from
    /// the build-metadata query outcome, derive the default namespace
    /// name and visibility from the declaration, and apply the attribute
    /// arguments.
    pub fn new(args: &Vec<MacroArg>, found_crate: Option<String>, item: EnumDef) -> (r: Result<
        NewtypeEnum,
        MacroError,
    >)
        ensures
            result_view(r) == spec_new(args.deep_view(), found_crate.deep_view(), item@),
    {
        let crate_path = resolve_crate_name(found_crate);
        let variants_ident = ident_append(&item.ident, "_variants");
        let variants_vis = item.vis.clone();
        let init = Config { variants_ident, variants_vis, crate_path };
        proof {
            assert(init@ == spec_default_config(item@, found_crate.deep_view()));
        }
        match parse_config(args, init) {
            Ok(c) => Ok(
                NewtypeEnum {
                    item,
                    crate_name: c.crate_path,
                    variants: c.variants_ident,
                    variants_vis: c.variants_vis,
                },
            ),
            Err(e) => Err(e),
        }
    }

    /// The rewritten variants, in declaration order.
    pub fn variants(&self) -> (r: Vec<VariantDef>)
        ensures
            r.deep_view() == spec_define_enum(self.item@, self.variants@).variants,
    {
        let mut r: Vec<VariantDef> = Vec::new();
        let mut i: usize = 0;
        while i < self.item.variants.len()
            invariant
                i <= self.item.variants.len(),
                r.deep_view().len() == i,
                forall|j: int|
                    0 <= j < i ==> r.deep_view()[j] == spec_rewrite_variant(
                        self.item.variants.deep_view()[j],
                        self.variants@,
                    ),
            decreases self.item.variants.len() - i,
        {
            let nv = rewrite_variant(&self.item.variants[i], &self.variants);
            let ghost nvv = nv@;
            let ghost prev = r.deep_view();
            r.push(nv);
            proof {
                assert(self.item.variants.deep_view()[i as int] == self.item.variants@[i as int]@);
                assert forall|j: int| 0 <= j < i + 1 implies r.deep_view()[j]
                    == spec_rewrite_variant(
                    self.item.variants.deep_view()[j],
                    self.variants@,
                ) by {
                    if j < i {
                        assert(r.deep_view()[j] == prev[j]);
                    } else {
                        assert(r.deep_view()[j] == nvv);
                    }
                }
            }
            i = i + 1;
        }
        proof {
            assert(r.deep_view() =~= spec_define_enum(self.item@, self.variants@).variants);
        }
        r
    }

    /// The rewritten enum declaration.
    pub fn define_enum(&self) -> (r: EnumDef)
        ensures
            r@ == spec_define_enum(self.item@, self.variants@),
    {
        let variants = self.variants();
        EnumDef {
            attrs: clone_attrs(&self.item.attrs),
            vis: self.item.vis.clone(),
            ident: self.item.ident.clone(),
            variants,
        }
    }

    /// The companion namespace, absent when no variant needs synthesis.
    pub fn define_variants(&self) -> (r: Result<Option<NamespaceDef>, MacroError>)
        ensures
            result_view(r) == spec_define_variants(
                self.item@,
                self.variants@,
                self.variants_vis@,
            ),
    {
        if !any_synthesis(&self.item.variants) {
            return Ok(None);
        }
        let svis = match super_vis(&self.item.vis, keyword_restriction_exec("super")) {
            Ok(v) => v,
            Err(e) => {
                return Err(e);
            },
        };
        let nondoc = nondoc_attrs_from(&self.item.attrs, 0);
        proof {
            assert(self.item.attrs.deep_view().skip(0) =~= self.item.attrs.deep_view());
            assert(self.item.variants.deep_view().skip(0) =~= self.item.variants.deep_view());
        }
        match synth_structs(&nondoc, &svis, &self.item.variants, 0) {
            Ok(structs) => Ok(
                Some(
                    NamespaceDef {
                        vis: self.variants_vis.clone(),
                        ident: self.variants.clone(),
                        structs,
                    },
                ),
            ),
            Err(e) => Err(e),
        }
    }

    /// The capability bindings, one per variant.
    pub fn implement_variants(&self) -> (r: Vec<Binding>)
        ensures
            r.deep_view() == spec_implement_variants(self.item@, self.variants@),
    {
        let mut r: Vec<Binding> = Vec::new();
        let mut i: usize = 0;
        while i < self.item.variants.len()
            invariant
                i <= self.item.variants.len(),
                r.deep_view().len() == i,
                forall|j: int|
                    0 <= j < i ==> r.deep_view()[j] == spec_implement_variants(
                        self.item@,
                        self.variants@,
                    )[j],
            decreases self.item.variants.len() - i,
        {
            let v = &self.item.variants[i];
            let payload = payload_ty(v, &self.variants);
            let nb = Binding { variant_ident: v.ident.clone(), payload };
            let ghost nbv = nb@;
            let ghost prev = r.deep_view();
            r.push(nb);
            proof {
                assert(self.item.variants.deep_view()[i as int] == self.item.variants@[i as int]@);
                assert forall|j: int| 0 <= j < i + 1 implies r.deep_view()[j]
                    == spec_implement_variants(self.item@, self.variants@)[j] by {
                    if j < i {
                        assert(r.deep_view()[j] == prev[j]);
                    } else {
                        assert(r.deep_view()[j] == nbv);
                    }
                }
            }
            i = i + 1;
        }
        proof {
            assert(r.deep_view() =~= spec_implement_variants(self.item@, self.variants@));
        }
        r
    }
}

/// The whole transformation: prepare from the arguments and the
/// declaration, then produce the rewritten enum, the companion namespace
/// and the capability bindings.
pub fn newtype_enum_impl(
    args: &Vec<MacroArg>,
    found_crate: Option<String>,
    item: EnumDef,
) -> (r: Result<Expansion, MacroError>)
    ensures
        result_view(r) == spec_newtype_enum_impl(args.deep_view(), found_crate.deep_view(), item@),
{
    let e = match NewtypeEnum::new(args, found_crate, item) {
        Ok(e) => e,
        Err(err) => {
            return Err(err);
        },
    };
    let enum_item = e.define_enum();
    let namespace = match e.define_variants() {
        Ok(ns) => ns,
        Err(err) => {
            return Err(err);
        },
    };
    let bindings = e.implement_variants();
    Ok(Expansion { item: enum_item, namespace, bindings, crate_path: e.crate_name })
}

/// Every variant of a rewritten enum is a newtype wrapper: it has exactly
/// one unnamed field.
pub proof fn lemma_rewritten_enum_all_wrappers(e: EnumView, ns: Seq<char>)
    ensures
        forall|i: int|
            0 <= i < spec_define_enum(e, ns).variants.len() ==> is_wrapper(
                #[trigger] spec_define_enum(e, ns).variants[i],
            ),
{
    assert forall|i: int| 0 <= i < spec_define_enum(e, ns).variants.len() implies is_wrapper(
        spec_define_enum(e, ns).variants[i],
    ) by {
        let v = e.variants[i];
        let w = spec_rewrite_variant(v, ns);
        if is_wrapper(v) {
            assert(w.fields == v.fields);
        } else {
            assert(w.fields matches FieldsView::Unnamed(tys) && tys.len() == 1);
        }
    }
}

/// The variants that need a synthesized payload struct, in declaration
/// order.
pub open spec fn synth_variants(vs: Seq<VariantView>) -> Seq<VariantView>
    decreases vs.len(),
{
    if vs.len() == 0 {
        Seq::empty()
    } else if is_wrapper(vs[0]) {
        synth_variants(vs.drop_first())
    } else {
        seq![vs[0]] + synth_variants(vs.drop_first())
    }
}

/// Successful synthesis produces one payload struct per variant that
/// needs one, in declaration order: the j-th struct is the synthesis of
/// the j-th non-wrapper variant.
pub proof fn lemma_structs_match_variants(
    nondoc: Seq<AttrView>,
    svis: VisibilityView,
    vs: Seq<VariantView>,
    ss: Seq<StructView>,
)
    requires
        spec_synth_structs(nondoc, svis, vs) == Ok::<Seq<StructView>, MacroErrorView>(ss),
    ensures
        ss.len() == synth_variants(vs).len(),
        forall|j: int|
            0 <= j < ss.len() ==> spec_synth_struct(nondoc, svis, synth_variants(vs)[j]) == Ok::<
                StructView,
                MacroErrorView,
            >(#[trigger] ss[j]),
    decreases vs.len(),
{
    if vs.len() == 0 {
    } else if is_wrapper(vs[0]) {
        lemma_structs_match_variants(nondoc, svis, vs.drop_first(), ss);
    } else {
        let s0 = spec_synth_struct(nondoc, svis, vs[0])->Ok_0;
        let rest = spec_synth_structs(nondoc, svis, vs.drop_first())->Ok_0;
        lemma_structs_match_variants(nondoc, svis, vs.drop_first(), rest);
        assert(ss == seq![s0] + rest);
        assert(synth_variants(vs) == seq![vs[0]] + synth_variants(vs.drop_first()));
        assert forall|j: int| 0 <= j < ss.len() implies spec_synth_struct(
            nondoc,
            svis,
            synth_variants(vs)[j],
        ) == Ok::<StructView, MacroErrorView>(ss[j]) by {
            if j == 0 {
                assert(synth_variants(vs)[0] == vs[0]);
                assert(ss[0] == s0);
            } else {
                assert(synth_variants(vs)[j] == synth_variants(vs.drop_first())[j - 1]);
                assert(ss[j] == rest[j - 1]);
            }
        }
    }
}

/// Synthesizing the payload structs succeeds exactly when every
/// non-wrapper variant can be synthesized on its own.
pub proof fn lemma_synth_structs_ok_iff(
    nondoc: Seq<AttrView>,
    svis: VisibilityView,
    vs: Seq<VariantView>,
)
    ensures
        spec_synth_structs(nondoc, svis, vs) is Ok <==> forall|i: int|
            0 <= i < vs.len() ==> (is_wrapper(#[trigger] vs[i]) || spec_synth_struct(
                nondoc,
                svis,
                vs[i],
            ) is Ok),
    decreases vs.len(),
{
    if vs.len() == 0 {
    } else {
        lemma_synth_structs_ok_iff(nondoc, svis, vs.drop_first());
        assert forall|i: int| 1 <= i < vs.len() implies vs.drop_first()[i - 1] == vs[i] by {}
        if spec_synth_structs(nondoc, svis, vs) is Ok {
        } else {
            if is_wrapper(vs[0]) || spec_synth_struct(nondoc, svis, vs[0]) is Ok {
                let w = choose|k: int|
                    0 <= k < vs.drop_first().len() && !(is_wrapper(#[trigger] vs.drop_first()[k])
                        || spec_synth_struct(nondoc, svis, vs.drop_first()[k]) is Ok);
                assert(vs.drop_first()[w] == vs[w + 1]);
            }
        }
    }
}

/// A payload struct synthesized from a unit variant has no fields; it
/// keeps the variant's name, carries the enum's non-doc attributes
/// followed by the variant's own, and the computed struct visibility.
pub proof fn lemma_unit_variant_struct(
    nondoc: Seq<AttrView>,
    svis: VisibilityView,
    v: VariantView,
    s: StructView,
)
    requires
        v.fields is Unit,
        spec_synth_struct(nondoc, svis, v) == Ok::<StructView, MacroErrorView>(s),
    ensures
        s.fields is Unit,
        s.ident == v.ident,
        s.vis == svis,
        s.attrs == nondoc + v.attrs,
{
}

/// Re-projecting a field list keeps every field's name, type and
/// attributes, and rewrites exactly its visibility.
pub proof fn lemma_project_fields_pointwise(
    fs: Seq<FieldView>,
    dflt: VisibilityView,
    gs: Seq<FieldView>,
)
    requires
        spec_project_fields(fs, dflt) == Ok::<Seq<FieldView>, MacroErrorView>(gs),
    ensures
        gs.len() == fs.len(),
        forall|i: int|
            0 <= i < fs.len() ==> {
                &&& (#[trigger] gs[i]).ident == fs[i].ident
                &&& gs[i].ty == fs[i].ty
                &&& gs[i].attrs == fs[i].attrs
                &&& spec_super_vis(fs[i].vis, dflt) == Ok::<VisibilityView, MacroErrorView>(
                    gs[i].vis,
                )
            },
    decreases fs.len(),
{
    if fs.len() == 0 {
    } else {
        let v = spec_super_vis(fs[0].vis, dflt)->Ok_0;
        let rest = spec_project_fields(fs.drop_first(), dflt)->Ok_0;
        lemma_project_fields_pointwise(fs.drop_first(), dflt, rest);
        assert(gs == seq![FieldView { vis: v, ..fs[0] }] + rest);
        assert forall|i: int| 0 <= i < fs.len() implies {
            &&& (#[trigger] gs[i]).ident == fs[i].ident
            &&& gs[i].ty == fs[i].ty
            &&& gs[i].attrs == fs[i].attrs
            &&& spec_super_vis(fs[i].vis, dflt) == Ok::<VisibilityView, MacroErrorView>(gs[i].vis)
        } by {
            if i == 0 {
            } else {
                assert(gs[i] == rest[i - 1]);
                assert(fs.drop_first()[i - 1] == fs[i]);
            }
        }
    }
}

/// A payload struct synthesized from a struct variant has exactly the
/// same named fields, in the same order, with the same names, types and
/// attributes; each field visibility is the declared one projected one
/// level deeper, with the struct's own visibility as the default.
pub proof fn lemma_named_variant_struct(
    nondoc: Seq<AttrView>,
    svis: VisibilityView,
    v: VariantView,
    s: StructView,
    fs: Seq<FieldView>,
)
    requires
        v.fields == FieldsView::Named(fs),
        spec_synth_struct(nondoc, svis, v) == Ok::<StructView, MacroErrorView>(s),
    ensures
        s.ident == v.ident,
        s.vis == svis,
        s.attrs == nondoc + v.attrs,
        s.fields matches FieldsView::Named(gs) && gs.len() == fs.len() && forall|i: int|
            0 <= i < fs.len() ==> {
                &&& (#[trigger] gs[i]).ident == fs[i].ident
                &&& gs[i].ty == fs[i].ty
                &&& gs[i].attrs == fs[i].attrs
                &&& spec_super_vis(fs[i].vis, svis) == Ok::<VisibilityView, MacroErrorView>(
                    gs[i].vis,
                )
            },
{
    let gs = spec_project_fields(fs, svis)->Ok_0;
    lemma_project_fields_pointwise(fs, svis, gs);
}

} // verus!
