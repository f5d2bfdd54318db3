//! End-to-end scenarios for the interface-and-implementation synthesizer.

use degeneric::args::{LitValue, MetaEntry, RawAttr, Visibility};
use degeneric::degeneric::{process_struct, Artifact, Declaration, FieldDecl, StructDecl};
use degeneric::errors::{DirectiveParseReason, GenError};
use degeneric::generics::{GenericParamDecl, LifetimeParamDecl, TypeParamDecl, WherePred};
use degeneric::ty::{ArgList, Bound, PathSeg, Ty, TyPath};

fn bare_ty(name: &str) -> Ty {
    Ty::Path {
        path: TyPath {
            global: false,
            segments: vec![PathSeg { ident: name.to_string(), args: ArgList::NoArgs }],
        },
    }
}

fn projection_ty(name: &str) -> Ty {
    Ty::Path {
        path: TyPath {
            global: false,
            segments: vec![
                PathSeg { ident: "Self".to_string(), args: ArgList::NoArgs },
                PathSeg { ident: name.to_string(), args: ArgList::NoArgs },
            ],
        },
    }
}

fn trait_directive(header: &str) -> RawAttr {
    RawAttr::Degeneric {
        entries: vec![MetaEntry::KeyValue {
            path: vec!["trait".to_string()],
            value: LitValue::StrLit { value: header.to_string() },
            path_span: 1,
            value_span: 2,
        }],
        span: 0,
    }
}

fn flag_attr(flag: &str, span: usize) -> RawAttr {
    RawAttr::Degeneric {
        entries: vec![MetaEntry::Flag { path: vec![flag.to_string()], span }],
        span,
    }
}

fn plain_type_param(name: &str) -> GenericParamDecl {
    GenericParamDecl::TypeParam(TypeParamDecl {
        ident: name.to_string(),
        bounds: vec![],
        attrs: vec![],
    })
}

fn field(name: &str, ty: Ty, span: usize) -> FieldDecl {
    FieldDecl { ident: name.to_string(), ty, ty_span: span, attrs: vec![] }
}

fn container_decl() -> StructDecl {
    StructDecl {
        ident: "Container".to_string(),
        attrs: vec![trait_directive("pub trait ContainerTrait")],
        generics: vec![plain_type_param("Logger"), plain_type_param("Http")],
        where_preds: vec![],
        fields: vec![
            field("logger", bare_ty("Logger"), 10),
            field("client", bare_ty("Http"), 11),
        ],
        span: 5,
    }
}

fn run(decl: StructDecl) -> Result<Artifact, GenError> {
    process_struct(&Declaration::NamedStruct(decl))
}

#[test]
fn scenario_two_hidden_params() {
    let art = run(container_decl()).unwrap();
    let t = &art.trait_def;
    assert_eq!(t.name, "ContainerTrait");
    assert_eq!(t.vis, Visibility::Public);
    assert_eq!(t.slots.len(), 2);
    assert_eq!(t.slots[0].ident, "Logger");
    assert_eq!(t.slots[1].ident, "Http");
    assert!(t.slots[0].bounds.is_empty());
    assert_eq!(t.getters.len(), 2);
    assert_eq!(t.getters[0].name, "logger");
    assert_eq!(t.getters[1].name, "client");
    assert_eq!(
        t.getters[0].ret,
        Ty::Reference {
            lifetime: None,
            mutable: false,
            elem: Box::new(projection_ty("Logger")),
        }
    );
    assert_eq!(
        t.getters[1].ret,
        Ty::Reference { lifetime: None, mutable: false, elem: Box::new(projection_ty("Http")) }
    );
    assert_eq!(t.mut_getters.len(), 2);
    assert_eq!(t.mut_getters[0].name, "logger_mut");
    assert_eq!(
        t.mut_getters[0].ret,
        Ty::Reference { lifetime: None, mutable: true, elem: Box::new(projection_ty("Logger")) }
    );
    let b = &art.impl_block;
    assert_eq!(b.trait_name, "ContainerTrait");
    assert_eq!(b.self_ty, "Container");
    assert_eq!(b.slot_bindings, vec!["Logger".to_string(), "Http".to_string()]);
    assert_eq!(b.getters.len(), 2);
    assert_eq!(b.getters[0].name, "logger");
    assert_eq!(b.getters[0].field, "logger");
    assert_eq!(b.mut_getters.len(), 2);
    assert_eq!(b.mut_getters[1].name, "client_mut");
    assert_eq!(b.mut_getters[1].field, "client");
    assert!(t.dynamize_hooks.is_empty());
}

#[test]
fn scenario_skip_accessor_keeps_slot() {
    let mut decl = container_decl();
    decl.fields[1].attrs.push(flag_attr("no_getter", 20));
    let art = run(decl).unwrap();
    let t = &art.trait_def;
    // the skipped field has no accessor at all, but the slot remains
    assert_eq!(t.getters.len(), 1);
    assert_eq!(t.getters[0].name, "logger");
    assert_eq!(t.mut_getters.len(), 1);
    assert_eq!(t.slots.len(), 2);
    assert_eq!(t.slots[1].ident, "Http");
    assert_eq!(art.impl_block.getters.len(), 1);
    assert_eq!(art.impl_block.mut_getters.len(), 1);
}

#[test]
fn scenario_reference_field_keeps_wrapper() {
    let decl = StructDecl {
        ident: "Wrapper".to_string(),
        attrs: vec![trait_directive("trait WrapperTrait")],
        generics: vec![
            GenericParamDecl::LifetimeParam(LifetimeParamDecl {
                name: "a".to_string(),
                bounds: vec![],
            }),
            plain_type_param("T"),
        ],
        where_preds: vec![],
        fields: vec![field(
            "x",
            Ty::Reference {
                lifetime: Some("a".to_string()),
                mutable: false,
                elem: Box::new(bare_ty("T")),
            },
            30,
        )],
        span: 6,
    };
    let art = run(decl).unwrap();
    let t = &art.trait_def;
    assert_eq!(t.vis, Visibility::Inherited);
    // the outer immutable reference is kept, only the inner type is projected
    assert_eq!(
        t.getters[0].ret,
        Ty::Reference {
            lifetime: Some("a".to_string()),
            mutable: false,
            elem: Box::new(projection_ty("T")),
        }
    );
    // an immutable reference never gets a mutable accessor
    assert!(t.mut_getters.is_empty());
    // the lifetime is preserved on the trait's own parameter list
    assert_eq!(
        t.generics.0,
        vec![GenericParamDecl::LifetimeParam(LifetimeParamDecl {
            name: "a".to_string(),
            bounds: vec![],
        })]
    );
    assert_eq!(t.slots.len(), 1);
    assert_eq!(t.slots[0].ident, "T");
}

#[test]
fn scenario_missing_directive_is_rejected() {
    let mut decl = container_decl();
    decl.attrs = vec![];
    assert_eq!(run(decl), Err(GenError::MissingRequiredDirective));
}

#[test]
fn scenario_trait_object_field_is_rejected() {
    let mut decl = container_decl();
    decl.fields[0].ty = Ty::TraitObject;
    decl.fields[0].ty_span = 77;
    assert_eq!(run(decl), Err(GenError::UnsupportedShape { span: 77 }));
}

#[test]
fn non_struct_declaration_is_rejected() {
    let r = process_struct(&Declaration::OtherDecl { span: 9 });
    assert_eq!(r, Err(GenError::UnsupportedDeclarationKind { span: 9 }));
}

#[test]
fn preserve_marker_keeps_parameter_visible() {
    let mut decl = container_decl();
    decl.generics[0] = GenericParamDecl::TypeParam(TypeParamDecl {
        ident: "Logger".to_string(),
        bounds: vec![],
        attrs: vec![flag_attr("preserve", 40)],
    });
    let art = run(decl).unwrap();
    let t = &art.trait_def;
    // the preserved parameter stays on the trait's parameter list
    assert_eq!(
        t.generics.0,
        vec![GenericParamDecl::TypeParam(TypeParamDecl {
            ident: "Logger".to_string(),
            bounds: vec![],
            attrs: vec![],
        })]
    );
    // only the other parameter becomes a slot
    assert_eq!(t.slots.len(), 1);
    assert_eq!(t.slots[0].ident, "Http");
    // the preserved parameter is not projected in the accessor types
    assert_eq!(
        t.getters[0].ret,
        Ty::Reference { lifetime: None, mutable: false, elem: Box::new(bare_ty("Logger")) }
    );
    assert_eq!(art.impl_block.slot_bindings, vec!["Http".to_string()]);
}

#[test]
fn where_clause_bounds_are_merged_and_rewritten() {
    let mut decl = container_decl();
    // where Logger: Facade<Http>
    decl.where_preds = vec![WherePred::TypePred {
        bounded: bare_ty("Logger"),
        bounds: vec![Bound::TraitBound {
            binder: None,
            maybe: false,
            path: TyPath {
                global: false,
                segments: vec![PathSeg {
                    ident: "Facade".to_string(),
                    args: ArgList::Angle {
                        args: vec![degeneric::ty::GenArg::TyArg { ty: bare_ty("Http") }],
                    },
                }],
            },
        }],
    }];
    let art = run(decl).unwrap();
    let slot = &art.trait_def.slots[0];
    assert_eq!(slot.ident, "Logger");
    assert_eq!(slot.bounds.len(), 1);
    // the bound's mention of the other hidden parameter is self-projected
    assert_eq!(
        slot.bounds[0],
        Bound::TraitBound {
            binder: None,
            maybe: false,
            path: TyPath {
                global: false,
                segments: vec![PathSeg {
                    ident: "Facade".to_string(),
                    args: ArgList::Angle {
                        args: vec![degeneric::ty::GenArg::TyArg { ty: projection_ty("Http") }],
                    },
                }],
            },
        }
    );
}

#[test]
fn dynamize_marker_emits_hooks() {
    let mut decl = container_decl();
    decl.attrs.push(flag_attr("dynamize", 50));
    let art = run(decl).unwrap();
    let hooks = &art.trait_def.dynamize_hooks;
    assert_eq!(hooks.len(), 2);
    assert_eq!(hooks[0].slot, "Logger");
    assert_eq!(hooks[1].slot, "Http");
}

#[test]
fn const_parameter_is_rejected() {
    let mut decl = container_decl();
    decl.generics.push(GenericParamDecl::ConstParam { span: 60 });
    assert_eq!(run(decl), Err(GenError::UnsupportedShape { span: 60 }));
}

#[test]
fn unknown_directive_key_is_rejected() {
    let mut decl = container_decl();
    decl.attrs.push(RawAttr::Degeneric {
        entries: vec![MetaEntry::KeyValue {
            path: vec!["mystery".to_string()],
            value: LitValue::StrLit { value: "x".to_string() },
            path_span: 70,
            value_span: 71,
        }],
        span: 70,
    });
    assert_eq!(
        run(decl),
        Err(GenError::DirectiveParse {
            reason: DirectiveParseReason::UnrecognizedKeyValue,
            span: 70,
        })
    );
}

#[test]
fn scoped_attributes_reach_their_items() {
    let mut decl = container_decl();
    decl.attrs.push(RawAttr::Degeneric {
        entries: vec![MetaEntry::KeyValue {
            path: vec!["trait_decl_impl_attr".to_string()],
            value: LitValue::StrLit { value: "#[cfg(feature = \"x\")]".to_string() },
            path_span: 80,
            value_span: 81,
        }],
        span: 80,
    });
    decl.fields[0].attrs.push(RawAttr::Degeneric {
        entries: vec![MetaEntry::KeyValue {
            path: vec!["getter_impl_attr".to_string()],
            value: LitValue::StrLit { value: "#[allow(unused)]".to_string() },
            path_span: 82,
            value_span: 83,
        }],
        span: 82,
    });
    decl.fields[0].attrs.push(RawAttr::Other {
        name: "doc".to_string(),
        text: "#[doc = \"the logger\"]".to_string(),
    });
    let art = run(decl).unwrap();
    assert_eq!(art.trait_def.inject, vec!["#[cfg(feature = \"x\")]".to_string()]);
    assert_eq!(art.impl_block.inject, vec!["#[cfg(feature = \"x\")]".to_string()]);
    assert!(art.trait_def.getters[0].inject.is_empty());
    assert_eq!(art.impl_block.getters[0].inject, vec!["#[allow(unused)]".to_string()]);
    // the field's own attributes are forwarded onto every accessor of it
    assert_eq!(art.trait_def.getters[0].forward, vec!["#[doc = \"the logger\"]".to_string()]);
    assert_eq!(art.trait_def.mut_getters[0].forward, vec!["#[doc = \"the logger\"]".to_string()]);
}

#[test]
fn malformed_attr_fragment_is_rejected() {
    let mut decl = container_decl();
    decl.attrs.push(RawAttr::Degeneric {
        entries: vec![MetaEntry::KeyValue {
            path: vec!["trait_impl_attr".to_string()],
            value: LitValue::StrLit { value: "#[unbalanced".to_string() },
            path_span: 90,
            value_span: 91,
        }],
        span: 90,
    });
    assert_eq!(
        run(decl),
        Err(GenError::DirectiveParse {
            reason: DirectiveParseReason::BadAttrFragment,
            span: 91,
        })
    );
}

#[test]
fn struct_docs_are_forwarded() {
    let mut decl = container_decl();
    decl.attrs.push(RawAttr::Other {
        name: "doc".to_string(),
        text: "#[doc = \"a container\"]".to_string(),
    });
    decl.attrs.push(RawAttr::Other {
        name: "derive".to_string(),
        text: "#[derive(Default)]".to_string(),
    });
    let art = run(decl).unwrap();
    assert_eq!(art.trait_def.docs, vec!["#[doc = \"a container\"]".to_string()]);
}
