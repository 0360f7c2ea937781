use newtype_enum::ast::Attr;
use newtype_enum::ast::CratePath;
use newtype_enum::ast::EnumDef;
use newtype_enum::ast::FieldDef;
use newtype_enum::ast::FieldsDef;
use newtype_enum::ast::Ty;
use newtype_enum::ast::VariantDef;
use newtype_enum::config::MacroArg;
use newtype_enum::config::parse_vis;
use newtype_enum::config::parse_variants_value;
use newtype_enum::config::resolve_crate_name;
use newtype_enum::error::ErrorKind;
use newtype_enum::text::ident_append;
use newtype_enum::text::is_ident;
use newtype_enum::text::rfind_char;
use newtype_enum::text::str_eq;
use newtype_enum::transform::newtype_enum_impl;
use newtype_enum::vis::VisPath;
use newtype_enum::vis::Visibility;
use newtype_enum::vis::super_vis;

fn unit_variant(name: &str) -> VariantDef {
    VariantDef {
        attrs: vec![],
        ident: name.to_string(),
        fields: FieldsDef::Unit,
        discriminant: None,
    }
}

fn wrapper_variant(name: &str, ty: &str) -> VariantDef {
    VariantDef {
        attrs: vec![],
        ident: name.to_string(),
        fields: FieldsDef::Unnamed(vec![Ty::Opaque(ty.to_string())]),
        discriminant: None,
    }
}

fn plain_enum(name: &str, vis: Visibility, variants: Vec<VariantDef>) -> EnumDef {
    EnumDef { attrs: vec![], vis, ident: name.to_string(), variants }
}

fn pub_restricted(word: &str) -> Visibility {
    Visibility::Restricted {
        has_in: false,
        path: VisPath { leading_colon: false, segments: vec![word.to_string()] },
    }
}

fn pub_in(segments: Vec<&str>) -> Visibility {
    Visibility::Restricted {
        has_in: true,
        path: VisPath {
            leading_colon: false,
            segments: segments.into_iter().map(|s| s.to_string()).collect(),
        },
    }
}

#[test]
fn unit_variant_default_namespace() {
    let item = plain_enum("Test", Visibility::Inherited, vec![unit_variant("Example")]);
    let r = newtype_enum_impl(&vec![], None, item).unwrap();

    let ns = r.namespace.expect("a unit variant needs a namespace");
    assert_eq!(ns.ident, "Test_variants");
    assert_eq!(ns.vis, Visibility::Inherited);
    assert_eq!(ns.structs.len(), 1);
    assert_eq!(ns.structs[0].ident, "Example");
    assert_eq!(ns.structs[0].fields, FieldsDef::Unit);
    assert_eq!(ns.structs[0].vis, pub_restricted("super"));

    assert_eq!(r.item.variants.len(), 1);
    assert_eq!(r.item.variants[0].ident, "Example");
    assert_eq!(
        r.item.variants[0].fields,
        FieldsDef::Unnamed(vec![Ty::InNamespace {
            ns: "Test_variants".to_string(),
            name: "Example".to_string(),
        }])
    );
    assert_eq!(
        r.item.variants[0].attrs,
        vec![Attr::DocSee { variant: "Example".to_string(), ns: "Test_variants".to_string() }]
    );

    assert_eq!(r.bindings.len(), 1);
    assert_eq!(r.bindings[0].variant_ident, "Example");
    assert_eq!(
        r.bindings[0].payload,
        Ty::InNamespace { ns: "Test_variants".to_string(), name: "Example".to_string() }
    );
}

#[test]
fn wrapper_variant_no_namespace() {
    let item = plain_enum("Test", Visibility::Inherited, vec![wrapper_variant("Example", "usize")]);
    let r = newtype_enum_impl(&vec![], None, item).unwrap();

    assert!(r.namespace.is_none());
    assert_eq!(r.item.variants.len(), 1);
    assert_eq!(r.item.variants[0].fields, FieldsDef::Unnamed(vec![Ty::Opaque("usize".to_string())]));
    assert_eq!(r.bindings[0].payload, Ty::Opaque("usize".to_string()));
}

#[test]
fn named_variant_field_default_visibility() {
    let field = FieldDef {
        attrs: vec![],
        vis: Visibility::Inherited,
        ident: "test".to_string(),
        ty: Ty::Opaque("usize".to_string()),
    };
    let variant = VariantDef {
        attrs: vec![],
        ident: "Example".to_string(),
        fields: FieldsDef::Named(vec![field]),
        discriminant: None,
    };
    let item = plain_enum("Test", pub_restricted("crate"), vec![variant]);
    let r = newtype_enum_impl(&vec![], None, item).unwrap();

    let ns = r.namespace.unwrap();
    // The namespace visibility defaults to the enum's own declared visibility.
    assert_eq!(ns.vis, pub_restricted("crate"));
    // pub(crate) projects to pub(crate); the field inherits the struct's
    // computed visibility as its default.
    assert_eq!(ns.structs[0].vis, pub_restricted("crate"));
    match &ns.structs[0].fields {
        FieldsDef::Named(fs) => {
            assert_eq!(fs.len(), 1);
            assert_eq!(fs[0].ident, "test");
            assert_eq!(fs[0].ty, Ty::Opaque("usize".to_string()));
            assert_eq!(fs[0].vis, pub_restricted("crate"));
        }
        other => panic!("expected named fields, got {:?}", other),
    }
}

#[test]
fn private_enum_field_gets_pub_super() {
    let field = FieldDef {
        attrs: vec![],
        vis: Visibility::Inherited,
        ident: "test".to_string(),
        ty: Ty::Opaque("usize".to_string()),
    };
    let variant = VariantDef {
        attrs: vec![],
        ident: "Example".to_string(),
        fields: FieldsDef::Named(vec![field]),
        discriminant: None,
    };
    let item = plain_enum("Test", Visibility::Inherited, vec![variant]);
    let r = newtype_enum_impl(&vec![], None, item).unwrap();

    let ns = r.namespace.unwrap();
    assert_eq!(ns.structs[0].vis, pub_restricted("super"));
    match &ns.structs[0].fields {
        FieldsDef::Named(fs) => assert_eq!(fs[0].vis, pub_restricted("super")),
        other => panic!("expected named fields, got {:?}", other),
    }
}

#[test]
fn variants_argument_sets_name_and_visibility() {
    let args = vec![MacroArg::Assigned {
        key: "variants".to_string(),
        value: "pub(crate) test".to_string(),
    }];
    let item = plain_enum("Test", Visibility::Inherited, vec![unit_variant("Example")]);
    let r = newtype_enum_impl(&args, None, item).unwrap();

    let ns = r.namespace.unwrap();
    assert_eq!(ns.ident, "test");
    assert_eq!(ns.vis, pub_restricted("crate"));
    assert_eq!(
        r.bindings[0].payload,
        Ty::InNamespace { ns: "test".to_string(), name: "Example".to_string() }
    );
}

#[test]
fn variants_argument_name_only_keeps_enum_visibility() {
    let args = vec![MacroArg::Assigned { key: "variants".to_string(), value: "test".to_string() }];
    let item = plain_enum("Test", pub_restricted("crate"), vec![unit_variant("Example")]);
    let r = newtype_enum_impl(&args, None, item).unwrap();

    let ns = r.namespace.unwrap();
    assert_eq!(ns.ident, "test");
    assert_eq!(ns.vis, pub_restricted("crate"));
}

#[test]
fn multi_unnamed_variant_rejected() {
    let variant = VariantDef {
        attrs: vec![],
        ident: "Example".to_string(),
        fields: FieldsDef::Unnamed(vec![
            Ty::Opaque("usize".to_string()),
            Ty::Opaque("usize".to_string()),
        ]),
        discriminant: None,
    };
    let item = plain_enum("Test", Visibility::Inherited, vec![variant]);
    let e = newtype_enum_impl(&vec![], None, item).unwrap_err();
    assert_eq!(e.kind, ErrorKind::UnsupportedVariantType);
    assert_eq!(e.token, "Example");
    assert_eq!(e.message(), "unsupported variant type");
}

#[test]
fn unknown_argument_rejected() {
    let args = vec![MacroArg::Bare { key: "mystery".to_string() }];
    let item = plain_enum("Test", Visibility::Inherited, vec![unit_variant("Example")]);
    let e = newtype_enum_impl(&args, None, item).unwrap_err();
    assert_eq!(e.kind, ErrorKind::UnknownArgument);
    assert_eq!(e.token, "mystery");
}

#[test]
fn non_identifier_key_rejected() {
    let args = vec![MacroArg::Bare { key: "a::b".to_string() }];
    let item = plain_enum("Test", Visibility::Inherited, vec![unit_variant("Example")]);
    let e = newtype_enum_impl(&args, None, item).unwrap_err();
    assert_eq!(e.kind, ErrorKind::ExpectedIdentifier);
}

#[test]
fn variants_without_value_rejected() {
    let args = vec![MacroArg::Bare { key: "variants".to_string() }];
    let item = plain_enum("Test", Visibility::Inherited, vec![unit_variant("Example")]);
    let e = newtype_enum_impl(&args, None, item).unwrap_err();
    assert_eq!(e.kind, ErrorKind::UnknownArgument);
}

#[test]
fn malformed_namespace_visibility_rejected() {
    let args = vec![MacroArg::Assigned {
        key: "variants".to_string(),
        value: "pub(oops test".to_string(),
    }];
    let item = plain_enum("Test", Visibility::Inherited, vec![unit_variant("Example")]);
    let e = newtype_enum_impl(&args, None, item).unwrap_err();
    assert_eq!(e.kind, ErrorKind::MalformedVisibility);
}

#[test]
fn unknown_identifier_in_enum_visibility() {
    let item = plain_enum("Test", pub_restricted("mystery"), vec![unit_variant("Example")]);
    let e = newtype_enum_impl(&vec![], None, item).unwrap_err();
    assert_eq!(e.kind, ErrorKind::UnknownIdentifier);
    assert_eq!(e.token, "mystery");
    assert_eq!(e.message(), "unknown identifier");
}

#[test]
fn wrapper_discriminant_dropped() {
    let mut v = wrapper_variant("Example", "u8");
    v.discriminant = Some("7".to_string());
    let item = plain_enum("Test", Visibility::Inherited, vec![v]);
    let r = newtype_enum_impl(&vec![], None, item).unwrap();
    assert_eq!(r.item.variants[0].discriminant, None);
}

#[test]
fn doc_comments_not_copied_to_structs() {
    let item = EnumDef {
        attrs: vec![
            Attr::Doc("Overview.".to_string()),
            Attr::Other("#[derive(Debug)]".to_string()),
        ],
        vis: Visibility::Inherited,
        ident: "Test".to_string(),
        variants: vec![{
            let mut v = unit_variant("Example");
            v.attrs = vec![Attr::Other("#[derive(Clone)]".to_string())];
            v
        }],
    };
    let r = newtype_enum_impl(&vec![], None, item).unwrap();
    let ns = r.namespace.unwrap();
    assert_eq!(
        ns.structs[0].attrs,
        vec![
            Attr::Other("#[derive(Debug)]".to_string()),
            Attr::Other("#[derive(Clone)]".to_string()),
        ]
    );
}

#[test]
fn self_test_redirects_crate_path() {
    let args = vec![MacroArg::Bare { key: "unstable_self_test".to_string() }];
    let item = plain_enum("Test", Visibility::Inherited, vec![unit_variant("Example")]);
    let r = newtype_enum_impl(&args, None, item).unwrap();
    assert_eq!(r.crate_path, CratePath::Itself);
}

#[test]
fn crate_path_resolution() {
    assert_eq!(
        resolve_crate_name(Some("renamed".to_string())),
        CratePath::Rooted("renamed".to_string())
    );
    assert_eq!(resolve_crate_name(None), CratePath::Rooted("newtype_enum".to_string()));
}

#[test]
fn super_vis_keyword_rules() {
    let dflt = pub_restricted("super");
    assert_eq!(super_vis(&Visibility::Inherited, dflt.clone()).unwrap(), dflt);
    assert_eq!(super_vis(&Visibility::Public, dflt.clone()).unwrap(), Visibility::Public);
    assert_eq!(
        super_vis(&pub_restricted("crate"), dflt.clone()).unwrap(),
        pub_restricted("crate")
    );
    assert_eq!(super_vis(&pub_restricted("self"), dflt.clone()).unwrap(), pub_restricted("super"));
    assert_eq!(
        super_vis(&pub_restricted("super"), dflt.clone()).unwrap(),
        pub_in(vec!["super", "super"])
    );
    let e = super_vis(&pub_restricted("mystery"), dflt).unwrap_err();
    assert_eq!(e.kind, ErrorKind::UnknownIdentifier);
}

#[test]
fn super_vis_path_rules() {
    let dflt = pub_restricted("super");
    // a relative `in` path gains one leading `super`
    assert_eq!(
        super_vis(&pub_in(vec!["a", "b"]), dflt.clone()).unwrap(),
        pub_in(vec!["super", "a", "b"])
    );
    // an absolutely rooted path is copied unchanged
    let rooted = Visibility::Restricted {
        has_in: true,
        path: VisPath { leading_colon: true, segments: vec!["a".to_string()] },
    };
    assert_eq!(super_vis(&rooted, dflt.clone()).unwrap(), rooted);
    // a multi-segment path without `in` is an error
    let bad = Visibility::Restricted {
        has_in: false,
        path: VisPath {
            leading_colon: false,
            segments: vec!["a".to_string(), "b".to_string()],
        },
    };
    let e = super_vis(&bad, dflt).unwrap_err();
    assert_eq!(e.kind, ErrorKind::PathWithoutIn);
    assert_eq!(e.message(), "path without `in` token");
}

#[test]
fn parse_vis_grammar() {
    assert_eq!(parse_vis("").unwrap(), Visibility::Inherited);
    assert_eq!(parse_vis("pub").unwrap(), Visibility::Public);
    assert_eq!(parse_vis("pub(crate)").unwrap(), pub_restricted("crate"));
    assert_eq!(parse_vis("pub(self)").unwrap(), pub_restricted("self"));
    assert_eq!(parse_vis("pub(super)").unwrap(), pub_restricted("super"));
    assert_eq!(parse_vis("pub(in super::super)").unwrap(), pub_in(vec!["super", "super"]));
    assert_eq!(parse_vis("pub(in a::b)").unwrap(), pub_in(vec!["a", "b"]));
    let rooted = parse_vis("pub(in ::a::b)").unwrap();
    assert_eq!(
        rooted,
        Visibility::Restricted {
            has_in: true,
            path: VisPath {
                leading_colon: true,
                segments: vec!["a".to_string(), "b".to_string()],
            },
        }
    );
    assert!(parse_vis("public").is_err());
    assert!(parse_vis("pub(in )").is_err());
    assert!(parse_vis("pub(in a::)").is_err());
}

#[test]
fn parse_variants_value_split() {
    let (v, name) = parse_variants_value("pub(crate) test").unwrap();
    assert_eq!(v, Some(pub_restricted("crate")));
    assert_eq!(name, "test");

    let (v, name) = parse_variants_value("test").unwrap();
    assert_eq!(v, None);
    assert_eq!(name, "test");

    let e = parse_variants_value("pub(crate) not ident!").unwrap_err();
    assert_eq!(e.kind, ErrorKind::MalformedVisibility);

    let e = parse_variants_value("pub(crate) 1bad").unwrap_err();
    assert_eq!(e.kind, ErrorKind::MalformedIdentifier);
}

#[test]
fn text_helpers() {
    assert!(str_eq("abc", "abc"));
    assert!(!str_eq("abc", "abd"));
    assert!(!str_eq("abc", "ab"));
    assert!(is_ident("abc_1"));
    assert!(is_ident("_x"));
    assert!(!is_ident(""));
    assert!(!is_ident("1abc"));
    assert!(!is_ident("a-b"));
    assert_eq!(ident_append(&"Test".to_string(), "_variants"), "Test_variants");
    assert_eq!(rfind_char("a b c", ' '), Some(3));
    assert_eq!(rfind_char("abc", ' '), None);
}

#[test]
fn mixed_enum_keeps_declaration_order() {
    let item = plain_enum(
        "Test",
        Visibility::Inherited,
        vec![
            unit_variant("First"),
            wrapper_variant("Second", "u8"),
            unit_variant("Third"),
        ],
    );
    let r = newtype_enum_impl(&vec![], None, item).unwrap();
    let ns = r.namespace.unwrap();
    assert_eq!(ns.structs.len(), 2);
    assert_eq!(ns.structs[0].ident, "First");
    assert_eq!(ns.structs[1].ident, "Third");
    assert_eq!(r.bindings.len(), 3);
    assert_eq!(r.bindings[1].payload, Ty::Opaque("u8".to_string()));
}
