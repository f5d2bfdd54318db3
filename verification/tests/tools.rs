//! Unit scenarios for the directive parser, the type-expression rewriter and
//! the reference tools, plus the two sibling generators.

use degeneric::args::{
    parse_degeneric_args, parse_trait_header, DegenericArg, LitValue, MetaEntry, RawAttr,
    Visibility,
};
use degeneric::clone_ext::{process_struct as clone_process, CloneBehavior, CloneInput, FieldToClone};
use degeneric::errors::{DirectiveParseReason, GenError};
use degeneric::generics::{GenericParamDecl, LifetimeParamDecl, TypeParamDecl};
use degeneric::named_requirement::{process_input, NrInput};
use degeneric::textscan::exec_attrs_wf;
use degeneric::ty::{ArgList, Bound, GenArg, PathSeg, Ty, TyPath};
use degeneric::type_tools::associated::to_associated_ty;
use degeneric::type_tools::references::{can_be_made_mutable, make_reference};

fn bare_ty(name: &str) -> Ty {
    Ty::Path {
        path: TyPath {
            global: false,
            segments: vec![PathSeg { ident: name.to_string(), args: ArgList::NoArgs }],
        },
    }
}

fn projection_ty(name: &str) -> Ty {
    Ty::Path {
        path: TyPath {
            global: false,
            segments: vec![
                PathSeg { ident: "Self".to_string(), args: ArgList::NoArgs },
                PathSeg { ident: name.to_string(), args: ArgList::NoArgs },
            ],
        },
    }
}

#[test]
fn trait_header_with_visibility() {
    let td = parse_trait_header("pub trait ContainerTrait").unwrap();
    assert_eq!(td.vis, Visibility::Public);
    assert_eq!(td.ident, "ContainerTrait");
}

#[test]
fn trait_header_without_visibility() {
    let td = parse_trait_header("  trait X  ").unwrap();
    assert_eq!(td.vis, Visibility::Inherited);
    assert_eq!(td.ident, "X");
}

#[test]
fn trait_header_with_restricted_visibility() {
    let td = parse_trait_header("pub(crate) trait Something").unwrap();
    assert_eq!(td.vis, Visibility::Restricted { scope: "crate".to_string() });
    assert_eq!(td.ident, "Something");
}

#[test]
fn trait_header_rejects_malformed_input() {
    assert!(parse_trait_header("struct X").is_none());
    assert!(parse_trait_header("trait").is_none());
    assert!(parse_trait_header("trait 9x").is_none());
    assert!(parse_trait_header("pub trait X trailing").is_none());
    assert!(parse_trait_header("pub(crate trait X").is_none());
    assert!(parse_trait_header("").is_none());
}

#[test]
fn attribute_fragments_are_checked() {
    assert!(exec_attrs_wf(""));
    assert!(exec_attrs_wf("  #[doc = \"x\"]  #[allow(unused)] "));
    assert!(exec_attrs_wf("#[cfg_attr(test, derive(Debug))]"));
    // a bracket inside a string literal does not close the fragment
    assert!(exec_attrs_wf("#[doc = \"]\"]"));
    assert!(!exec_attrs_wf("#[unclosed"));
    assert!(!exec_attrs_wf("not an attribute"));
    assert!(!exec_attrs_wf("#[a] trailing"));
}

#[test]
fn rewrite_projects_only_hidden_names() {
    let names = vec!["T".to_string()];
    let t = Ty::Tuple { elems: vec![bare_ty("T"), bare_ty("U")] };
    let r = to_associated_ty(&t, &names).unwrap();
    assert_eq!(r, Ty::Tuple { elems: vec![projection_ty("T"), bare_ty("U")] });
}

#[test]
fn rewrite_descends_into_generic_arguments() {
    let names = vec!["T".to_string()];
    let t = Ty::Path {
        path: TyPath {
            global: false,
            segments: vec![PathSeg {
                ident: "Vec".to_string(),
                args: ArgList::Angle { args: vec![GenArg::TyArg { ty: bare_ty("T") }] },
            }],
        },
    };
    let r = to_associated_ty(&t, &names).unwrap();
    assert_eq!(
        r,
        Ty::Path {
            path: TyPath {
                global: false,
                segments: vec![PathSeg {
                    ident: "Vec".to_string(),
                    args: ArgList::Angle { args: vec![GenArg::TyArg { ty: projection_ty("T") }] },
                }],
            },
        }
    );
}

#[test]
fn rewrite_is_idempotent_on_concrete_input() {
    let names = vec!["T".to_string(), "U".to_string()];
    let t = Ty::Tuple {
        elems: vec![
            bare_ty("T"),
            Ty::Reference { lifetime: None, mutable: true, elem: Box::new(bare_ty("U")) },
            Ty::BareFn { inputs: vec![bare_ty("T")], output: Some(Box::new(bare_ty("u32"))) },
        ],
    };
    let once = to_associated_ty(&t, &names).unwrap();
    let twice = to_associated_ty(&once, &names).unwrap();
    assert_eq!(once, twice);
}

#[test]
fn rewrite_rejects_unsupported_shapes() {
    let names: Vec<String> = vec![];
    assert!(to_associated_ty(&Ty::TraitObject, &names).is_err());
    assert!(to_associated_ty(&Ty::ImplTrait, &names).is_err());
    assert!(to_associated_ty(&Ty::Macro, &names).is_err());
    assert!(to_associated_ty(&Ty::Never, &names).is_err());
    assert!(to_associated_ty(&Ty::Infer, &names).is_err());
    // an exotic generic argument is a hard failure, not a pass-through
    let t = Ty::Path {
        path: TyPath {
            global: false,
            segments: vec![PathSeg {
                ident: "Weird".to_string(),
                args: ArgList::Angle { args: vec![GenArg::OtherArg] },
            }],
        },
    };
    assert!(to_associated_ty(&t, &names).is_err());
}

#[test]
fn mutability_classification() {
    assert!(can_be_made_mutable(&bare_ty("T")));
    assert!(can_be_made_mutable(&Ty::Tuple { elems: vec![] }));
    assert!(can_be_made_mutable(&Ty::Reference {
        lifetime: None,
        mutable: true,
        elem: Box::new(bare_ty("T")),
    }));
    assert!(!can_be_made_mutable(&Ty::Reference {
        lifetime: Some("a".to_string()),
        mutable: false,
        elem: Box::new(bare_ty("T")),
    }));
    assert!(!can_be_made_mutable(&Ty::RawPtr { mutable: false, elem: Box::new(bare_ty("T")) }));
    assert!(can_be_made_mutable(&Ty::RawPtr { mutable: true, elem: Box::new(bare_ty("T")) }));
}

#[test]
fn make_reference_adjusts_in_place() {
    // a reference has its mutability adjusted rather than being double-wrapped
    let r = make_reference(
        Ty::Reference { lifetime: Some("a".to_string()), mutable: false, elem: Box::new(bare_ty("T")) },
        true,
    )
    .unwrap();
    assert_eq!(
        r,
        Ty::Reference { lifetime: Some("a".to_string()), mutable: true, elem: Box::new(bare_ty("T")) }
    );
    // a plain type is wrapped
    let r = make_reference(bare_ty("T"), false).unwrap();
    assert_eq!(
        r,
        Ty::Reference { lifetime: None, mutable: false, elem: Box::new(bare_ty("T")) }
    );
    // parentheses are adjusted inside
    let r = make_reference(
        Ty::Paren {
            elem: Box::new(Ty::RawPtr { mutable: false, elem: Box::new(bare_ty("T")) }),
        },
        true,
    )
    .unwrap();
    assert_eq!(
        r,
        Ty::Paren { elem: Box::new(Ty::RawPtr { mutable: true, elem: Box::new(bare_ty("T")) }) }
    );
    // the never type cannot be referenced
    assert!(make_reference(Ty::Never, false).is_err());
}

#[test]
fn directive_flags_and_errors() {
    let args = parse_degeneric_args(&vec![RawAttr::Degeneric {
        entries: vec![
            MetaEntry::Flag { path: vec!["no_getter".to_string()], span: 1 },
            MetaEntry::Flag { path: vec!["preserve".to_string()], span: 2 },
            MetaEntry::Flag { path: vec!["dynamize".to_string()], span: 3 },
        ],
        span: 0,
    }])
    .unwrap();
    assert_eq!(
        args,
        vec![DegenericArg::NoGetter, DegenericArg::PreserveGeneric, DegenericArg::Dynamize]
    );

    let unknown = parse_degeneric_args(&vec![RawAttr::Degeneric {
        entries: vec![MetaEntry::Flag { path: vec!["nope".to_string()], span: 4 }],
        span: 0,
    }]);
    assert_eq!(
        unknown,
        Err(GenError::DirectiveParse { reason: DirectiveParseReason::UnknownFlag, span: 4 })
    );

    let two_segment = parse_degeneric_args(&vec![RawAttr::Degeneric {
        entries: vec![MetaEntry::Flag {
            path: vec!["a".to_string(), "b".to_string()],
            span: 5,
        }],
        span: 0,
    }]);
    assert_eq!(
        two_segment,
        Err(GenError::DirectiveParse { reason: DirectiveParseReason::KeyNotIdent, span: 5 })
    );

    let non_string = parse_degeneric_args(&vec![RawAttr::Degeneric {
        entries: vec![MetaEntry::KeyValue {
            path: vec!["trait".to_string()],
            value: LitValue::OtherLit,
            path_span: 6,
            value_span: 7,
        }],
        span: 0,
    }]);
    assert_eq!(
        non_string,
        Err(GenError::DirectiveParse { reason: DirectiveParseReason::NonStringLiteral, span: 7 })
    );

    let bad_header = parse_degeneric_args(&vec![RawAttr::Degeneric {
        entries: vec![MetaEntry::KeyValue {
            path: vec!["trait_decl".to_string()],
            value: LitValue::StrLit { value: "not a header".to_string() },
            path_span: 8,
            value_span: 9,
        }],
        span: 0,
    }]);
    assert_eq!(
        bad_header,
        Err(GenError::DirectiveParse { reason: DirectiveParseReason::BadTraitHeader, span: 9 })
    );

    let malformed_list = parse_degeneric_args(&vec![RawAttr::DegenericMalformed { span: 10 }]);
    assert_eq!(
        malformed_list,
        Err(GenError::DirectiveParse { reason: DirectiveParseReason::MalformedList, span: 10 })
    );

    let other_meta = parse_degeneric_args(&vec![RawAttr::Degeneric {
        entries: vec![MetaEntry::OtherMeta { span: 11 }],
        span: 0,
    }]);
    assert_eq!(
        other_meta,
        Err(GenError::DirectiveParse { reason: DirectiveParseReason::MalformedEntry, span: 11 })
    );

    // non-directive attributes contribute nothing
    let skipped = parse_degeneric_args(&vec![RawAttr::Other {
        name: "doc".to_string(),
        text: "#[doc = \"x\"]".to_string(),
    }])
    .unwrap();
    assert!(skipped.is_empty());
}

#[test]
fn both_trait_keys_are_accepted() {
    for key in ["trait", "trait_decl"] {
        let args = parse_degeneric_args(&vec![RawAttr::Degeneric {
            entries: vec![MetaEntry::KeyValue {
                path: vec![key.to_string()],
                value: LitValue::StrLit { value: "pub trait T".to_string() },
                path_span: 0,
                value_span: 1,
            }],
            span: 0,
        }])
        .unwrap();
        assert_eq!(args.len(), 1);
        match &args[0] {
            DegenericArg::TraitDecl(td) => {
                assert_eq!(td.ident, "T");
                assert_eq!(td.vis, Visibility::Public);
            },
            other => panic!("expected a trait declaration, got {:?}", other),
        }
    }
}

#[test]
fn clone_generator_maps_fields() {
    let input = CloneInput {
        ident: "Container".to_string(),
        generics: vec![GenericParamDecl::TypeParam(TypeParamDecl {
            ident: "T".to_string(),
            bounds: vec![],
            attrs: vec![],
        })],
        where_preds: vec![],
        fields: vec![
            FieldToClone { ident: "nc".to_string(), behavior: CloneBehavior::CallFunction { path: "Default::default".to_string() } },
            FieldToClone { ident: "v".to_string(), behavior: CloneBehavior::CloneValue },
        ],
    };
    let art = clone_process(&input);
    assert_eq!(art.self_ty, "Container");
    assert_eq!(art.field_exprs.len(), 2);
    assert_eq!(art.field_exprs[0].ident, "nc");
    assert_eq!(
        art.field_exprs[0].behavior,
        CloneBehavior::CallFunction { path: "Default::default".to_string() }
    );
    assert_eq!(art.field_exprs[1].behavior, CloneBehavior::CloneValue);
}

fn send_bound() -> Bound {
    Bound::TraitBound {
        binder: None,
        maybe: false,
        path: TyPath {
            global: false,
            segments: vec![PathSeg { ident: "Send".to_string(), args: ArgList::NoArgs }],
        },
    }
}

#[test]
fn named_requirement_generator() {
    let input = NrInput {
        is_pub: true,
        ident: "Fast".to_string(),
        generics: vec![
            GenericParamDecl::LifetimeParam(LifetimeParamDecl {
                name: "a".to_string(),
                bounds: vec![],
            }),
            GenericParamDecl::TypeParam(TypeParamDecl {
                ident: "T".to_string(),
                bounds: vec![],
                attrs: vec![],
            }),
        ],
        bounds: vec![send_bound()],
    };
    let art = process_input(&input);
    assert!(art.is_pub);
    assert_eq!(art.trait_name, "Fast");
    assert_eq!(art.supertraits, vec![send_bound()]);
    assert_eq!(art.impl_param, "NamedRequirementName");
    assert_eq!(art.impl_param_bounds, vec![send_bound()]);
    assert_eq!(art.lifetime_args, vec!["a".to_string()]);
    assert_eq!(art.type_args, vec!["T".to_string()]);
}
