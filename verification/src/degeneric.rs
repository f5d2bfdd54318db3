//! The interface-and-implementation synthesizer.
//!
//! `process_struct` takes a declaration and produces the emitted artifact: a
//! trait definition whose body holds one associated-slot declaration per
//! hidden type parameter and one accessor signature per eligible field (plus
//! a mutable accessor where the field's type allows one), and an
//! implementation block that binds every slot to its original type parameter
//! and implements every accessor as a borrow of the namesake field.

use vstd::prelude::*;
use vstd::string::StringExecFns;

use crate::args::{
    extract_attrs, extract_trait_decl, has_dynamize, has_no_getter, parse_degeneric_args,
    spec_attrs_for_scope, spec_first_trait_decl, spec_has_dynamize, spec_has_no_getter,
    spec_has_preserve, spec_parse_degeneric_args, AttributeScope, DegenericTypeAttrs, RawAttr,
    RawAttrV, TraitDecl, Visibility, VisibilityV,
};
use crate::errors::GenError;
use crate::generics::{
    other_attr_texts, spec_associated_type, spec_other_attr_texts, spec_param_bounds,
    spec_rw_ok_bounds, spec_strip_param, spec_trait_generics, AssociatedType, AssociatedTypeV,
    GenericParamDecl, GenericParamDeclV, LifetimeParamDecl, TraitGenerics, TypeParamDecl,
    WherePred, WherePredV,
};
use crate::ty::{
    bound_view, bounds_view, clone_bounds, clone_ty, ty_view, ArgList, ArgListV, Bound, BoundV,
    GenArg, GenArgV, PathSeg, PathSegV, Ty, TyPath, TyPathV, TyV,
};
use crate::type_tools::associated::{spec_rw_ok_ty, spec_rw_ty, to_associated_ty};
use crate::type_tools::references::{
    can_be_made_mutable, make_reference, spec_can_be_made_mutable, spec_make_reference,
    spec_make_reference_ok,
};

verus! {

/// One named field of the declaration (mathematical form).
#[verifier::ext_equal]
pub struct FieldDeclV {
    pub ident: Seq<char>,
    pub ty: TyV,
    pub ty_span: usize,
    pub attrs: Seq<RawAttrV>,
}

/// One named field of the declaration: its identifier, its type, the span of
/// that type (for anchoring failures), and its raw attributes.
#[derive(Debug, PartialEq, Eq)]
pub struct FieldDecl {
    pub ident: String,
    pub ty: Ty,
    pub ty_span: usize,
    pub attrs: Vec<RawAttr>,
}

impl DeepView for FieldDecl {
    type V = FieldDeclV;

    open spec fn deep_view(&self) -> FieldDeclV {
        FieldDeclV {
            ident: self.ident@,
            ty: ty_view(self.ty),
            ty_span: self.ty_span,
            attrs: self.attrs.deep_view(),
        }
    }
}

/// The input declaration (mathematical form).
#[verifier::ext_equal]
pub struct StructDeclV {
    pub ident: Seq<char>,
    pub attrs: Seq<RawAttrV>,
    pub generics: Seq<GenericParamDeclV>,
    pub where_preds: Seq<WherePredV>,
    pub fields: Seq<FieldDeclV>,
    pub span: usize,
}

/// The input declaration: a struct with named fields.
#[derive(Debug, PartialEq, Eq)]
pub struct StructDecl {
    pub ident: String,
    pub attrs: Vec<RawAttr>,
    pub generics: Vec<GenericParamDecl>,
    pub where_preds: Vec<WherePred>,
    pub fields: Vec<FieldDecl>,
    pub span: usize,
}

impl DeepView for StructDecl {
    type V = StructDeclV;

    open spec fn deep_view(&self) -> StructDeclV {
        StructDeclV {
            ident: self.ident@,
            attrs: self.attrs.deep_view(),
            generics: self.generics.deep_view(),
            where_preds: self.where_preds.deep_view(),
            fields: self.fields.deep_view(),
            span: self.span,
        }
    }
}

/// What the host hands over (mathematical form).
#[verifier::ext_equal]
pub enum DeclarationV {
    NamedStruct { decl: StructDeclV },
    OtherDecl { span: usize },
}

/// What the host hands over: a struct with named fields, or anything else
/// (a tuple or unit struct, an enum, a union), which is rejected.
#[derive(Debug, PartialEq, Eq)]
pub enum Declaration {
    NamedStruct(StructDecl),
    OtherDecl { span: usize },
}

impl DeepView for Declaration {
    type V = DeclarationV;

    open spec fn deep_view(&self) -> DeclarationV {
        match self {
            Declaration::NamedStruct(decl) => DeclarationV::NamedStruct {
                decl: decl.deep_view(),
            },
            Declaration::OtherDecl { span } => DeclarationV::OtherDecl { span: *span },
        }
    }
}

/// One accessor signature of the trait body (mathematical form).
#[verifier::ext_equal]
pub struct GetterSigV {
    pub inject: Seq<Seq<char>>,
    pub forward: Seq<Seq<char>>,
    pub name: Seq<char>,
    pub ret: TyV,
    pub mutable: bool,
}

/// One accessor signature of the trait body: the scoped attribute fragments
/// injected onto it, the field's own forwarded attributes, its name, its
/// return type (the slot-rewritten field type wrapped in a reference), and
/// whether it takes `&mut self`.
#[derive(Debug, PartialEq, Eq)]
pub struct GetterSig {
    pub inject: Vec<String>,
    pub forward: Vec<String>,
    pub name: String,
    pub ret: Ty,
    pub mutable: bool,
}

impl DeepView for GetterSig {
    type V = GetterSigV;

    open spec fn deep_view(&self) -> GetterSigV {
        GetterSigV {
            inject: self.inject.deep_view(),
            forward: self.forward.deep_view(),
            name: self.name@,
            ret: ty_view(self.ret),
            mutable: self.mutable,
        }
    }
}

/// One accessor body of the implementation block (mathematical form).
#[verifier::ext_equal]
pub struct GetterImplV {
    pub inject: Seq<Seq<char>>,
    pub forward: Seq<Seq<char>>,
    pub name: Seq<char>,
    pub field: Seq<char>,
    pub ret: TyV,
    pub mutable: bool,
}

/// One accessor body of the implementation block: as the signature, plus the
/// field whose borrow the body returns.
#[derive(Debug, PartialEq, Eq)]
pub struct GetterImpl {
    pub inject: Vec<String>,
    pub forward: Vec<String>,
    pub name: String,
    pub field: String,
    pub ret: Ty,
    pub mutable: bool,
}

impl DeepView for GetterImpl {
    type V = GetterImplV;

    open spec fn deep_view(&self) -> GetterImplV {
        GetterImplV {
            inject: self.inject.deep_view(),
            forward: self.forward.deep_view(),
            name: self.name@,
            field: self.field@,
            ret: ty_view(self.ret),
            mutable: self.mutable,
        }
    }
}

/// The accessors of one declaration (mathematical form): the trait body's
/// signatures and the implementation block's bodies, immutable and mutable.
#[verifier::ext_equal]
pub struct AccessorsV {
    pub decls: Seq<GetterSigV>,
    pub impls: Seq<GetterImplV>,
    pub mut_decls: Seq<GetterSigV>,
    pub mut_impls: Seq<GetterImplV>,
}

/// The accessors one field contributes (mathematical form): nothing when
/// skipped, otherwise an immutable pair and possibly a mutable pair.
#[verifier::ext_equal]
pub struct FieldAccessorsV {
    pub decl: GetterSigV,
    pub impl_item: GetterImplV,
    pub mut_pair: Option<(GetterSigV, GetterImplV)>,
}

/// The suffix a mutable accessor's name appends to the field identifier.
pub open spec fn mut_suffix() -> Seq<char> {
    "_mut"@
}

/// What one field contributes to the accessors, or the failure it raises:
/// a skipped field contributes nothing; otherwise its type is rewritten
/// (failing on an unsupported shape) and wrapped as a reference (failing on
/// a shape that cannot be referenced), and a mutable pair is added exactly
/// when the declared type is not an immutable reference or pointer.
pub open spec fn spec_field_accessors(f: FieldDeclV, names: Seq<Seq<char>>) -> Result<
    Option<FieldAccessorsV>,
    GenError,
> {
    match spec_parse_degeneric_args(f.attrs) {
        Result::Err(e) => Result::Err(e),
        Result::Ok(args) => {
            if spec_has_no_getter(args) {
                Result::Ok(Option::None)
            } else if !spec_rw_ok_ty(f.ty) {
                Result::Err(GenError::UnsupportedShape { span: f.ty_span })
            } else if !spec_make_reference_ok(spec_rw_ty(f.ty, names)) {
                Result::Err(GenError::AccessorType { span: f.ty_span })
            } else {
                let rw = spec_rw_ty(f.ty, names);
                let forward = spec_other_attr_texts(f.attrs);
                let decl = GetterSigV {
                    inject: spec_attrs_for_scope(args, AttributeScope::GetterDecl),
                    forward,
                    name: f.ident,
                    ret: spec_make_reference(rw, false),
                    mutable: false,
                };
                let impl_item = GetterImplV {
                    inject: spec_attrs_for_scope(args, AttributeScope::GetterImpl),
                    forward,
                    name: f.ident,
                    field: f.ident,
                    ret: spec_make_reference(rw, false),
                    mutable: false,
                };
                let mut_pair = if spec_can_be_made_mutable(f.ty) {
                    Option::Some(
                        (
                            GetterSigV {
                                inject: spec_attrs_for_scope(args, AttributeScope::MutGetterDecl),
                                forward,
                                name: f.ident + mut_suffix(),
                                ret: spec_make_reference(rw, true),
                                mutable: true,
                            },
                            GetterImplV {
                                inject: spec_attrs_for_scope(args, AttributeScope::MutGetterImpl),
                                forward,
                                name: f.ident + mut_suffix(),
                                field: f.ident,
                                ret: spec_make_reference(rw, true),
                                mutable: true,
                            },
                        ),
                    )
                } else {
                    Option::None
                };
                Result::Ok(Option::Some(FieldAccessorsV { decl, impl_item, mut_pair }))
            }
        },
    }
}

/// The empty accessor collection.
pub open spec fn spec_no_accessors() -> AccessorsV {
    AccessorsV {
        decls: Seq::empty(),
        impls: Seq::empty(),
        mut_decls: Seq::empty(),
        mut_impls: Seq::empty(),
    }
}

/// One field's contribution appended to an accessor collection.
pub open spec fn spec_push_accessors(acc: AccessorsV, fa: Option<FieldAccessorsV>) -> AccessorsV {
    match fa {
        Option::None => acc,
        Option::Some(a) => {
            let with_imm = AccessorsV {
                decls: acc.decls.push(a.decl),
                impls: acc.impls.push(a.impl_item),
                mut_decls: acc.mut_decls,
                mut_impls: acc.mut_impls,
            };
            match a.mut_pair {
                Option::None => with_imm,
                Option::Some(p) => AccessorsV {
                    decls: with_imm.decls,
                    impls: with_imm.impls,
                    mut_decls: with_imm.mut_decls.push(p.0),
                    mut_impls: with_imm.mut_impls.push(p.1),
                },
            }
        },
    }
}

/// The accessors of a whole field list, or the first failure.
pub open spec fn spec_accessors(fields: Seq<FieldDeclV>, names: Seq<Seq<char>>) -> Result<
    AccessorsV,
    GenError,
>
    decreases fields.len(),
{
    if fields.len() == 0 {
        Result::Ok(spec_no_accessors())
    } else {
        match spec_accessors(fields.drop_last(), names) {
            Result::Err(e) => Result::Err(e),
            Result::Ok(acc) => match spec_field_accessors(fields.last(), names) {
                Result::Err(e) => Result::Err(e),
                Result::Ok(fa) => Result::Ok(spec_push_accessors(acc, fa)),
            },
        }
    }
}

/// One step of `spec_accessors` along a prefix.
proof fn lemma_accessors_step(fields: Seq<FieldDeclV>, names: Seq<Seq<char>>, i: int)
    requires
        0 <= i < fields.len(),
    ensures
        spec_accessors(fields.take(i + 1), names) == (match spec_accessors(
            fields.take(i),
            names,
        ) {
            Result::Err(e) => Result::<AccessorsV, GenError>::Err(e),
            Result::Ok(acc) => match spec_field_accessors(fields[i], names) {
                Result::Err(e) => Result::Err(e),
                Result::Ok(fa) => Result::Ok(spec_push_accessors(acc, fa)),
            },
        }),
{
    assert(fields.take(i + 1).drop_last() =~= fields.take(i));
    assert(fields.take(i + 1).last() == fields[i]);
}

/// A failing prefix decides the whole field list.
proof fn lemma_accessors_err_extends(fields: Seq<FieldDeclV>, names: Seq<Seq<char>>, n: int)
    requires
        0 <= n <= fields.len(),
        spec_accessors(fields.take(n), names) is Err,
    ensures
        spec_accessors(fields, names) == spec_accessors(fields.take(n), names),
    decreases fields.len(),
{
    if n == fields.len() {
        assert(fields.take(n) =~= fields);
    } else {
        assert(fields.drop_last().take(n) =~= fields.take(n));
        lemma_accessors_err_extends(fields.drop_last(), names, n);
    }
}

/// The return type of an accessor for a field of this type: the
/// slot-rewritten field type wrapped in a reference of the wanted
/// mutability.
pub open spec fn spec_accessor_ret(ty: TyV, names: Seq<Seq<char>>, mutable: bool) -> TyV {
    spec_make_reference(spec_rw_ty(ty, names), mutable)
}

impl FieldDecl {
    /// Rewrites this field's type and wraps it in a reference of the wanted
    /// mutability; fails on an unsupported shape or an unreferenceable one,
    /// anchored at the field type's span.
    fn accessor_ret(&self, names: &Vec<String>, mutable: bool) -> (r: Result<Ty, GenError>)
        ensures
            r is Ok <==> spec_rw_ok_ty(self.deep_view().ty) && spec_make_reference_ok(
                spec_rw_ty(self.deep_view().ty, names.deep_view()),
            ),
            r matches Ok(t) ==> t.deep_view() == spec_accessor_ret(
                self.deep_view().ty,
                names.deep_view(),
                mutable,
            ),
            r matches Err(e) ==> e == (if !spec_rw_ok_ty(self.deep_view().ty) {
                GenError::UnsupportedShape { span: self.deep_view().ty_span }
            } else {
                GenError::AccessorType { span: self.deep_view().ty_span }
            }),
    {
        let rw = match to_associated_ty(&self.ty, names) {
            Result::Ok(t) => t,
            Result::Err(_) => {
                return Result::Err(GenError::UnsupportedShape { span: self.ty_span });
            },
        };
        match make_reference(rw, mutable) {
            Result::Ok(t) => Result::Ok(t),
            Result::Err(_) => Result::Err(GenError::AccessorType { span: self.ty_span }),
        }
    }

    /// The immutable accessor signature for this field: named after the
    /// field, returning an immutable reference to its slot-rewritten type.
    pub fn declare_getter(&self, associated_types_idents: &Vec<String>) -> (r: Result<
        GetterSig,
        GenError,
    >)
        ensures
            r matches Ok(g) ==> spec_parse_degeneric_args(self.deep_view().attrs) matches
                Result::Ok(args) && g.deep_view() == (GetterSigV {
                inject: spec_attrs_for_scope(args, AttributeScope::GetterDecl),
                forward: spec_other_attr_texts(self.deep_view().attrs),
                name: self.deep_view().ident,
                ret: spec_accessor_ret(
                    self.deep_view().ty,
                    associated_types_idents.deep_view(),
                    false,
                ),
                mutable: false,
            }),
            r is Ok <==> spec_parse_degeneric_args(self.deep_view().attrs) is Ok && spec_rw_ok_ty(
                self.deep_view().ty,
            ) && spec_make_reference_ok(
                spec_rw_ty(self.deep_view().ty, associated_types_idents.deep_view()),
            ),
            r matches Err(e) ==> e == (match spec_parse_degeneric_args(self.deep_view().attrs) {
                Result::Err(pe) => pe,
                Result::Ok(_) => if !spec_rw_ok_ty(self.deep_view().ty) {
                    GenError::UnsupportedShape { span: self.deep_view().ty_span }
                } else {
                    GenError::AccessorType { span: self.deep_view().ty_span }
                },
            }),
    {
        let args = match parse_degeneric_args(&self.attrs) {
            Result::Ok(a) => a,
            Result::Err(e) => {
                return Result::Err(e);
            },
        };
        let ret = match self.accessor_ret(associated_types_idents, false) {
            Result::Ok(t) => t,
            Result::Err(e) => {
                return Result::Err(e);
            },
        };
        Result::Ok(
            GetterSig {
                inject: extract_attrs(&args, AttributeScope::GetterDecl),
                forward: other_attr_texts(&self.attrs),
                name: self.ident.clone(),
                ret,
                mutable: false,
            },
        )
    }

    /// The immutable accessor body for this field: a borrow of the field.
    pub fn implement_getter(&self, associated_types_idents: &Vec<String>) -> (r: Result<
        GetterImpl,
        GenError,
    >)
        ensures
            r matches Ok(g) ==> spec_parse_degeneric_args(self.deep_view().attrs) matches
                Result::Ok(args) && g.deep_view() == (GetterImplV {
                inject: spec_attrs_for_scope(args, AttributeScope::GetterImpl),
                forward: spec_other_attr_texts(self.deep_view().attrs),
                name: self.deep_view().ident,
                field: self.deep_view().ident,
                ret: spec_accessor_ret(
                    self.deep_view().ty,
                    associated_types_idents.deep_view(),
                    false,
                ),
                mutable: false,
            }),
            r is Ok <==> spec_parse_degeneric_args(self.deep_view().attrs) is Ok && spec_rw_ok_ty(
                self.deep_view().ty,
            ) && spec_make_reference_ok(
                spec_rw_ty(self.deep_view().ty, associated_types_idents.deep_view()),
            ),
            r matches Err(e) ==> e == (match spec_parse_degeneric_args(self.deep_view().attrs) {
                Result::Err(pe) => pe,
                Result::Ok(_) => if !spec_rw_ok_ty(self.deep_view().ty) {
                    GenError::UnsupportedShape { span: self.deep_view().ty_span }
                } else {
                    GenError::AccessorType { span: self.deep_view().ty_span }
                },
            }),
    {
        let args = match parse_degeneric_args(&self.attrs) {
            Result::Ok(a) => a,
            Result::Err(e) => {
                return Result::Err(e);
            },
        };
        let ret = match self.accessor_ret(associated_types_idents, false) {
            Result::Ok(t) => t,
            Result::Err(e) => {
                return Result::Err(e);
            },
        };
        Result::Ok(
            GetterImpl {
                inject: extract_attrs(&args, AttributeScope::GetterImpl),
                forward: other_attr_texts(&self.attrs),
                name: self.ident.clone(),
                field: self.ident.clone(),
                ret,
                mutable: false,
            },
        )
    }

    /// The mutable accessor signature for this field: the field's name with
    /// the suffix appended, returning a mutable reference.
    pub fn declare_mut_getter(&self, associated_types_idents: &Vec<String>) -> (r: Result<
        GetterSig,
        GenError,
    >)
        ensures
            r matches Ok(g) ==> spec_parse_degeneric_args(self.deep_view().attrs) matches
                Result::Ok(args) && g.deep_view() == (GetterSigV {
                inject: spec_attrs_for_scope(args, AttributeScope::MutGetterDecl),
                forward: spec_other_attr_texts(self.deep_view().attrs),
                name: self.deep_view().ident + mut_suffix(),
                ret: spec_accessor_ret(
                    self.deep_view().ty,
                    associated_types_idents.deep_view(),
                    true,
                ),
                mutable: true,
            }),
            r is Ok <==> spec_parse_degeneric_args(self.deep_view().attrs) is Ok && spec_rw_ok_ty(
                self.deep_view().ty,
            ) && spec_make_reference_ok(
                spec_rw_ty(self.deep_view().ty, associated_types_idents.deep_view()),
            ),
            r matches Err(e) ==> e == (match spec_parse_degeneric_args(self.deep_view().attrs) {
                Result::Err(pe) => pe,
                Result::Ok(_) => if !spec_rw_ok_ty(self.deep_view().ty) {
                    GenError::UnsupportedShape { span: self.deep_view().ty_span }
                } else {
                    GenError::AccessorType { span: self.deep_view().ty_span }
                },
            }),
    {
        let args = match parse_degeneric_args(&self.attrs) {
            Result::Ok(a) => a,
            Result::Err(e) => {
                return Result::Err(e);
            },
        };
        let ret = match self.accessor_ret(associated_types_idents, true) {
            Result::Ok(t) => t,
            Result::Err(e) => {
                return Result::Err(e);
            },
        };
        Result::Ok(
            GetterSig {
                inject: extract_attrs(&args, AttributeScope::MutGetterDecl),
                forward: other_attr_texts(&self.attrs),
                name: self.ident.clone().concat("_mut"),
                ret,
                mutable: true,
            },
        )
    }

    /// The mutable accessor body for this field: a mutable borrow of the
    /// field.
    pub fn implement_mut_getter(&self, associated_types_idents: &Vec<String>) -> (r: Result<
        GetterImpl,
        GenError,
    >)
        ensures
            r matches Ok(g) ==> spec_parse_degeneric_args(self.deep_view().attrs) matches
                Result::Ok(args) && g.deep_view() == (GetterImplV {
                inject: spec_attrs_for_scope(args, AttributeScope::MutGetterImpl),
                forward: spec_other_attr_texts(self.deep_view().attrs),
                name: self.deep_view().ident + mut_suffix(),
                field: self.deep_view().ident,
                ret: spec_accessor_ret(
                    self.deep_view().ty,
                    associated_types_idents.deep_view(),
                    true,
                ),
                mutable: true,
            }),
            r is Ok <==> spec_parse_degeneric_args(self.deep_view().attrs) is Ok && spec_rw_ok_ty(
                self.deep_view().ty,
            ) && spec_make_reference_ok(
                spec_rw_ty(self.deep_view().ty, associated_types_idents.deep_view()),
            ),
            r matches Err(e) ==> e == (match spec_parse_degeneric_args(self.deep_view().attrs) {
                Result::Err(pe) => pe,
                Result::Ok(_) => if !spec_rw_ok_ty(self.deep_view().ty) {
                    GenError::UnsupportedShape { span: self.deep_view().ty_span }
                } else {
                    GenError::AccessorType { span: self.deep_view().ty_span }
                },
            }),
    {
        let args = match parse_degeneric_args(&self.attrs) {
            Result::Ok(a) => a,
            Result::Err(e) => {
                return Result::Err(e);
            },
        };
        let ret = match self.accessor_ret(associated_types_idents, true) {
            Result::Ok(t) => t,
            Result::Err(e) => {
                return Result::Err(e);
            },
        };
        Result::Ok(
            GetterImpl {
                inject: extract_attrs(&args, AttributeScope::MutGetterImpl),
                forward: other_attr_texts(&self.attrs),
                name: self.ident.clone().concat("_mut"),
                field: self.ident.clone(),
                ret,
                mutable: true,
            },
        )
    }
}

/// Builds the accessors of a field list: per field, in order, the immutable
/// signature and body, and the mutable ones where the field's type allows a
/// mutable borrow; a field marked to skip contributes nothing.
fn build_accessors(fields: &Vec<FieldDecl>, names: &Vec<String>) -> (r: Result<
    (Vec<GetterSig>, Vec<GetterImpl>, Vec<GetterSig>, Vec<GetterImpl>),
    GenError,
>)
    ensures
        r matches Ok(t) ==> spec_accessors(fields.deep_view(), names.deep_view()) == Result::<
            AccessorsV,
            GenError,
        >::Ok(
            AccessorsV {
                decls: t.0.deep_view(),
                impls: t.1.deep_view(),
                mut_decls: t.2.deep_view(),
                mut_impls: t.3.deep_view(),
            },
        ),
        r matches Err(e) ==> spec_accessors(fields.deep_view(), names.deep_view()) == Result::<
            AccessorsV,
            GenError,
        >::Err(e),
{
    let ghost fv = fields.deep_view();
    let ghost nv = names.deep_view();
    let mut decls: Vec<GetterSig> = Vec::new();
    let mut impls: Vec<GetterImpl> = Vec::new();
    let mut mut_decls: Vec<GetterSig> = Vec::new();
    let mut mut_impls: Vec<GetterImpl> = Vec::new();
    proof {
        assert(fv.take(0) =~= Seq::<FieldDeclV>::empty());
        assert(decls.deep_view() =~= Seq::<GetterSigV>::empty());
        assert(impls.deep_view() =~= Seq::<GetterImplV>::empty());
        assert(mut_decls.deep_view() =~= Seq::<GetterSigV>::empty());
        assert(mut_impls.deep_view() =~= Seq::<GetterImplV>::empty());
    }
    let mut i: usize = 0;
    while i < fields.len()
        invariant
            0 <= i <= fields@.len(),
            fv == fields.deep_view(),
            nv == names.deep_view(),
            fv.len() == fields@.len(),
            spec_accessors(fv.take(i as int), nv) == Result::<AccessorsV, GenError>::Ok(
                AccessorsV {
                    decls: decls.deep_view(),
                    impls: impls.deep_view(),
                    mut_decls: mut_decls.deep_view(),
                    mut_impls: mut_impls.deep_view(),
                },
            ),
        decreases fields@.len() - i,
    {
        proof {
            lemma_accessors_step(fv, nv, i as int);
            assert(fv[i as int] == fields@[i as int].deep_view());
        }
        let f = &fields[i];
        let args = match parse_degeneric_args(&f.attrs) {
            Result::Ok(a) => a,
            Result::Err(e) => {
                proof {
                    lemma_accessors_err_extends(fv, nv, i as int + 1);
                }
                return Result::Err(e);
            },
        };
        if !has_no_getter(&args) {
            let decl = match f.declare_getter(names) {
                Result::Ok(g) => g,
                Result::Err(e) => {
                    proof {
                        assert(spec_field_accessors(fv[i as int], nv) == Result::<
                            Option<FieldAccessorsV>,
                            GenError,
                        >::Err(e));
                        lemma_accessors_err_extends(fv, nv, i as int + 1);
                    }
                    return Result::Err(e);
                },
            };
            let impl_item = match f.implement_getter(names) {
                Result::Ok(g) => g,
                Result::Err(e) => {
                    proof {
                        lemma_accessors_err_extends(fv, nv, i as int + 1);
                    }
                    return Result::Err(e);
                },
            };
            let ghost pre_decls = decls.deep_view();
            let ghost pre_impls = impls.deep_view();
            let ghost pre_mut_decls = mut_decls.deep_view();
            let ghost pre_mut_impls = mut_impls.deep_view();
            decls.push(decl);
            impls.push(impl_item);
            if can_be_made_mutable(&f.ty) {
                let mut_decl = match f.declare_mut_getter(names) {
                    Result::Ok(g) => g,
                    Result::Err(e) => {
                        proof {
                            lemma_accessors_err_extends(fv, nv, i as int + 1);
                        }
                        return Result::Err(e);
                    },
                };
                let mut_impl = match f.implement_mut_getter(names) {
                    Result::Ok(g) => g,
                    Result::Err(e) => {
                        proof {
                            lemma_accessors_err_extends(fv, nv, i as int + 1);
                        }
                        return Result::Err(e);
                    },
                };
                mut_decls.push(mut_decl);
                mut_impls.push(mut_impl);
            }
            proof {
                assert(decls.deep_view() =~= pre_decls.push(decls@.last().deep_view()));
                assert(impls.deep_view() =~= pre_impls.push(impls@.last().deep_view()));
                if spec_can_be_made_mutable(fv[i as int].ty) {
                    assert(mut_decls.deep_view() =~= pre_mut_decls.push(
                        mut_decls@.last().deep_view(),
                    ));
                    assert(mut_impls.deep_view() =~= pre_mut_impls.push(
                        mut_impls@.last().deep_view(),
                    ));
                }
                assert(spec_accessors(fv.take(i as int + 1), nv) == Result::<
                    AccessorsV,
                    GenError,
                >::Ok(
                    AccessorsV {
                        decls: decls.deep_view(),
                        impls: impls.deep_view(),
                        mut_decls: mut_decls.deep_view(),
                        mut_impls: mut_impls.deep_view(),
                    },
                ));
            }
        } else {
            proof {
                assert(spec_accessors(fv.take(i as int + 1), nv) == Result::<
                    AccessorsV,
                    GenError,
                >::Ok(
                    AccessorsV {
                        decls: decls.deep_view(),
                        impls: impls.deep_view(),
                        mut_decls: mut_decls.deep_view(),
                        mut_impls: mut_impls.deep_view(),
                    },
                ));
            }
        }
        i += 1;
    }
    proof {
        assert(fv.take(fields@.len() as int) =~= fv);
    }
    Result::Ok((decls, impls, mut_decls, mut_impls))
}

/// The idents of the hidden type parameters, in declaration order, or the
/// first directive failure.
pub open spec fn spec_hidden_idents(gs: Seq<GenericParamDeclV>) -> Result<Seq<Seq<char>>, GenError>
    decreases gs.len(),
{
    if gs.len() == 0 {
        Result::Ok(Seq::empty())
    } else {
        match spec_hidden_idents(gs.drop_last()) {
            Result::Err(e) => Result::Err(e),
            Result::Ok(pre) => match gs.last() {
                GenericParamDeclV::TypeParam { tp } => match spec_parse_degeneric_args(tp.attrs) {
                    Result::Err(e) => Result::Err(e),
                    Result::Ok(args) => if spec_has_preserve(args) {
                        Result::Ok(pre)
                    } else {
                        Result::Ok(pre.push(tp.ident))
                    },
                },
                _ => Result::Ok(pre),
            },
        }
    }
}

/// The associated-slot declarations, one per hidden type parameter in
/// declaration order, or the first failure; a bound the rewriter cannot
/// handle is anchored at `anchor`.
pub open spec fn spec_slots(
    gs: Seq<GenericParamDeclV>,
    preds: Seq<WherePredV>,
    names: Seq<Seq<char>>,
    anchor: usize,
) -> Result<Seq<AssociatedTypeV>, GenError>
    decreases gs.len(),
{
    if gs.len() == 0 {
        Result::Ok(Seq::empty())
    } else {
        match spec_slots(gs.drop_last(), preds, names, anchor) {
            Result::Err(e) => Result::Err(e),
            Result::Ok(pre) => match gs.last() {
                GenericParamDeclV::TypeParam { tp } => match spec_parse_degeneric_args(tp.attrs) {
                    Result::Err(e) => Result::Err(e),
                    Result::Ok(args) => if spec_has_preserve(args) {
                        Result::Ok(pre)
                    } else if spec_rw_ok_bounds(spec_param_bounds(tp, preds)) {
                        Result::Ok(pre.push(spec_associated_type(tp, preds, names)))
                    } else {
                        Result::Err(GenError::UnsupportedShape { span: anchor })
                    },
                },
                _ => Result::Ok(pre),
            },
        }
    }
}

/// A failing prefix decides the hidden-ident list.
proof fn lemma_hidden_idents_err_extends(gs: Seq<GenericParamDeclV>, n: int)
    requires
        0 <= n <= gs.len(),
        spec_hidden_idents(gs.take(n)) is Err,
    ensures
        spec_hidden_idents(gs) == spec_hidden_idents(gs.take(n)),
    decreases gs.len(),
{
    if n == gs.len() {
        assert(gs.take(n) =~= gs);
    } else {
        assert(gs.drop_last().take(n) =~= gs.take(n));
        lemma_hidden_idents_err_extends(gs.drop_last(), n);
    }
}

/// A failing prefix decides the slot list.
proof fn lemma_slots_err_extends(
    gs: Seq<GenericParamDeclV>,
    preds: Seq<WherePredV>,
    names: Seq<Seq<char>>,
    anchor: usize,
    n: int,
)
    requires
        0 <= n <= gs.len(),
        spec_slots(gs.take(n), preds, names, anchor) is Err,
    ensures
        spec_slots(gs, preds, names, anchor) == spec_slots(gs.take(n), preds, names, anchor),
    decreases gs.len(),
{
    if n == gs.len() {
        assert(gs.take(n) =~= gs);
    } else {
        assert(gs.drop_last().take(n) =~= gs.take(n));
        lemma_slots_err_extends(gs.drop_last(), preds, names, anchor, n);
    }
}

/// Collects the idents of the hidden type parameters: every type parameter
/// not marked preserved, in declaration order.
pub fn determine_hidden_generics(generics: &Vec<GenericParamDecl>) -> (r: Result<
    Vec<String>,
    GenError,
>)
    ensures
        r matches Ok(v) ==> spec_hidden_idents(generics.deep_view()) == Result::<
            Seq<Seq<char>>,
            GenError,
        >::Ok(v.deep_view()),
        r matches Err(e) ==> spec_hidden_idents(generics.deep_view()) == Result::<
            Seq<Seq<char>>,
            GenError,
        >::Err(e),
{
    let ghost gv = generics.deep_view();
    let mut out: Vec<String> = Vec::new();
    proof {
        assert(gv.take(0) =~= Seq::<GenericParamDeclV>::empty());
        assert(out.deep_view() =~= Seq::<Seq<char>>::empty());
    }
    let mut i: usize = 0;
    while i < generics.len()
        invariant
            0 <= i <= generics@.len(),
            gv == generics.deep_view(),
            gv.len() == generics@.len(),
            spec_hidden_idents(gv.take(i as int)) == Result::<Seq<Seq<char>>, GenError>::Ok(
                out.deep_view(),
            ),
        decreases generics@.len() - i,
    {
        proof {
            assert(gv.take(i as int + 1).drop_last() =~= gv.take(i as int));
            assert(gv.take(i as int + 1).last() == gv[i as int]);
            assert(gv[i as int] == generics@[i as int].deep_view());
        }
        let ghost pre = out.deep_view();
        match &generics[i] {
            GenericParamDecl::TypeParam(tp) => match parse_degeneric_args(&tp.attrs) {
                Result::Err(e) => {
                    proof {
                        lemma_hidden_idents_err_extends(gv, i as int + 1);
                    }
                    return Result::Err(e);
                },
                Result::Ok(args) => {
                    let ta = DegenericTypeAttrs::from_args(&args);
                    if !ta.preserve {
                        out.push(tp.ident.clone());
                        proof {
                            assert(out.deep_view() =~= pre.push(tp.ident@));
                        }
                    }
                },
            },
            _ => {},
        }
        proof {
            assert(spec_hidden_idents(gv.take(i as int + 1)) == Result::<
                Seq<Seq<char>>,
                GenError,
            >::Ok(out.deep_view()));
        }
        i += 1;
    }
    proof {
        assert(gv.take(generics@.len() as int) =~= gv);
    }
    Result::Ok(out)
}

/// Builds the associated-slot declarations for the hidden type parameters.
fn build_slots(
    generics: &Vec<GenericParamDecl>,
    preds: &Vec<WherePred>,
    names: &Vec<String>,
    anchor: usize,
) -> (r: Result<Vec<AssociatedType>, GenError>)
    ensures
        r matches Ok(v) ==> spec_slots(
            generics.deep_view(),
            preds.deep_view(),
            names.deep_view(),
            anchor,
        ) == Result::<Seq<AssociatedTypeV>, GenError>::Ok(v.deep_view()),
        r matches Err(e) ==> spec_slots(
            generics.deep_view(),
            preds.deep_view(),
            names.deep_view(),
            anchor,
        ) == Result::<Seq<AssociatedTypeV>, GenError>::Err(e),
{
    let ghost gv = generics.deep_view();
    let ghost pv = preds.deep_view();
    let ghost nv = names.deep_view();
    let mut out: Vec<AssociatedType> = Vec::new();
    proof {
        assert(gv.take(0) =~= Seq::<GenericParamDeclV>::empty());
        assert(out.deep_view() =~= Seq::<AssociatedTypeV>::empty());
    }
    let mut i: usize = 0;
    while i < generics.len()
        invariant
            0 <= i <= generics@.len(),
            gv == generics.deep_view(),
            pv == preds.deep_view(),
            nv == names.deep_view(),
            gv.len() == generics@.len(),
            spec_slots(gv.take(i as int), pv, nv, anchor) == Result::<
                Seq<AssociatedTypeV>,
                GenError,
            >::Ok(out.deep_view()),
        decreases generics@.len() - i,
    {
        proof {
            assert(gv.take(i as int + 1).drop_last() =~= gv.take(i as int));
            assert(gv.take(i as int + 1).last() == gv[i as int]);
            assert(gv[i as int] == generics@[i as int].deep_view());
        }
        let ghost pre = out.deep_view();
        match &generics[i] {
            GenericParamDecl::TypeParam(tp) => match parse_degeneric_args(&tp.attrs) {
                Result::Err(e) => {
                    proof {
                        lemma_slots_err_extends(gv, pv, nv, anchor, i as int + 1);
                    }
                    return Result::Err(e);
                },
                Result::Ok(args) => {
                    let ta = DegenericTypeAttrs::from_args(&args);
                    if !ta.preserve {
                        match AssociatedType::from_parts(tp, preds, names) {
                            Result::Ok(at) => {
                                out.push(at);
                                proof {
                                    assert(out.deep_view() =~= pre.push(
                                        spec_associated_type(tp.deep_view(), pv, nv),
                                    ));
                                }
                            },
                            Result::Err(_) => {
                                let err = GenError::UnsupportedShape { span: anchor };
                                proof {
                                    lemma_slots_err_extends(gv, pv, nv, anchor, i as int + 1);
                                }
                                return Result::Err(err);
                            },
                        }
                    }
                },
            },
            _ => {},
        }
        proof {
            assert(spec_slots(gv.take(i as int + 1), pv, nv, anchor) == Result::<
                Seq<AssociatedTypeV>,
                GenError,
            >::Ok(out.deep_view()));
        }
        i += 1;
    }
    proof {
        assert(gv.take(generics@.len() as int) =~= gv);
    }
    Result::Ok(out)
}

/// A generic parameter with directive attributes dropped, the form repeated
/// on the implementation block.
pub open spec fn spec_strip_generic(p: GenericParamDeclV) -> GenericParamDeclV {
    match p {
        GenericParamDeclV::TypeParam { tp } => GenericParamDeclV::TypeParam {
            tp: spec_strip_param(tp),
        },
        x => x,
    }
}

/// The declaration's generic parameters, stripped for re-emission.
pub open spec fn spec_strip_generics(gs: Seq<GenericParamDeclV>) -> Seq<GenericParamDeclV> {
    Seq::new(
        gs.len(),
        |i: int| if 0 <= i < gs.len() {
            spec_strip_generic(gs[i])
        } else {
            GenericParamDeclV::ConstParam { span: 0 }
        },
    )
}

/// A bare, argument-free path made of one identifier.
pub open spec fn spec_bare_path(id: Seq<char>) -> TyV {
    TyV::Path {
        path: TyPathV {
            global: false,
            segments: seq![PathSegV { ident: id, args: ArgListV::NoArgs }],
        },
    }
}

/// Generic parameters used as generic arguments: each lifetime as itself,
/// each type parameter as its bare identifier.
pub open spec fn spec_params_as_args(gs: Seq<GenericParamDeclV>) -> Seq<GenArgV> {
    Seq::new(
        gs.len(),
        |i: int| if 0 <= i < gs.len() {
            match gs[i] {
                GenericParamDeclV::LifetimeParam { lp } => GenArgV::LifetimeArg { name: lp.name },
                GenericParamDeclV::TypeParam { tp } => GenArgV::TyArg {
                    ty: spec_bare_path(tp.ident),
                },
                GenericParamDeclV::ConstParam { .. } => GenArgV::OtherArg,
            }
        } else {
            GenArgV::OtherArg
        },
    )
}

/// The verbatim texts of the documentation attributes in a raw-attribute
/// list, in order.
pub open spec fn spec_doc_texts(attrs: Seq<RawAttrV>) -> Seq<Seq<char>>
    decreases attrs.len(),
{
    if attrs.len() == 0 {
        Seq::empty()
    } else {
        spec_doc_texts(attrs.drop_last()) + (match attrs.last() {
            RawAttrV::Other { name, text } => if name == "doc"@ {
                seq![text]
            } else {
                Seq::empty()
            },
            _ => Seq::empty(),
        })
    }
}

/// Strips directive attributes off the declaration's generic parameters for
/// re-emission on the implementation block.
pub(crate) fn strip_params(generics: &Vec<GenericParamDecl>) -> (r: Vec<GenericParamDecl>)
    ensures
        r.deep_view() == spec_strip_generics(generics.deep_view()),
{
    let ghost gv = generics.deep_view();
    let mut out: Vec<GenericParamDecl> = Vec::new();
    let mut i: usize = 0;
    while i < generics.len()
        invariant
            0 <= i <= generics@.len(),
            gv == generics.deep_view(),
            gv.len() == generics@.len(),
            out@.len() == i,
            forall|j: int|
                0 <= j < i ==> (#[trigger] out@[j]).deep_view() == spec_strip_generic(gv[j]),
        decreases generics@.len() - i,
    {
        proof {
            assert(gv[i as int] == generics@[i as int].deep_view());
        }
        match &generics[i] {
            GenericParamDecl::TypeParam(tp) => {
                out.push(
                    GenericParamDecl::TypeParam(
                        TypeParamDecl {
                            ident: tp.ident.clone(),
                            bounds: clone_bounds(&tp.bounds),
                            attrs: Vec::new(),
                        },
                    ),
                );
            },
            GenericParamDecl::LifetimeParam(lp) => {
                let mut bounds: Vec<String> = Vec::new();
                let mut k: usize = 0;
                while k < lp.bounds.len()
                    invariant
                        0 <= k <= lp.bounds@.len(),
                        bounds@.len() == k,
                        forall|m: int| 0 <= m < k ==> #[trigger] bounds@[m]@ == lp.bounds@[m]@,
                    decreases lp.bounds@.len() - k,
                {
                    bounds.push(lp.bounds[k].clone());
                    k += 1;
                }
                proof {
                    assert(bounds.deep_view() =~= lp.bounds.deep_view());
                }
                out.push(
                    GenericParamDecl::LifetimeParam(
                        LifetimeParamDecl { name: lp.name.clone(), bounds },
                    ),
                );
            },
            GenericParamDecl::ConstParam { span } => {
                out.push(GenericParamDecl::ConstParam { span: *span });
            },
        }
        i += 1;
    }
    proof {
        assert(out.deep_view() =~= spec_strip_generics(gv));
    }
    out
}

/// Turns generic parameters into the matching generic arguments.
fn params_as_args(generics: &Vec<GenericParamDecl>) -> (r: Vec<GenArg>)
    ensures
        crate::ty::gen_args_view(r@) == spec_params_as_args(generics.deep_view()),
{
    let ghost gv = generics.deep_view();
    let mut out: Vec<GenArg> = Vec::new();
    let mut i: usize = 0;
    while i < generics.len()
        invariant
            0 <= i <= generics@.len(),
            gv == generics.deep_view(),
            gv.len() == generics@.len(),
            out@.len() == i,
            forall|j: int|
                0 <= j < i ==> crate::ty::gen_arg_view(#[trigger] out@[j]) == spec_params_as_args(
                    gv,
                )[j],
        decreases generics@.len() - i,
    {
        proof {
            assert(gv[i as int] == generics@[i as int].deep_view());
        }
        match &generics[i] {
            GenericParamDecl::LifetimeParam(lp) => {
                out.push(GenArg::LifetimeArg { name: lp.name.clone() });
            },
            GenericParamDecl::TypeParam(tp) => {
                let mut segments: Vec<PathSeg> = Vec::new();
                segments.push(PathSeg { ident: tp.ident.clone(), args: ArgList::NoArgs });
                proof {
                    assert(segments@.len() == 1);
                    assert(segments@[0].ident@ == tp.ident@);
                    assert(segments@[0].args is NoArgs);
                    assert(crate::ty::seg_view(segments@[0]) == (PathSegV {
                        ident: tp.ident@,
                        args: ArgListV::NoArgs,
                    }));
                    assert(crate::ty::segs_view(segments@)[0] == crate::ty::seg_view(
                        segments@[0],
                    ));
                    assert(crate::ty::segs_view(segments@) =~= seq![
                        PathSegV { ident: tp.ident@, args: ArgListV::NoArgs },
                    ]);
                }
                let path = TyPath { global: false, segments };
                proof {
                    assert(crate::ty::path_view(path) =~= (TyPathV {
                        global: false,
                        segments: seq![PathSegV { ident: tp.ident@, args: ArgListV::NoArgs }],
                    }));
                }
                let ty = Ty::Path { path };
                proof {
                    assert(ty_view(ty) == spec_bare_path(tp.ident@));
                }
                out.push(GenArg::TyArg { ty });
            },
            GenericParamDecl::ConstParam { .. } => {
                out.push(GenArg::OtherArg);
            },
        }
        i += 1;
    }
    proof {
        assert(crate::ty::gen_args_view(out@) =~= spec_params_as_args(gv));
    }
    out
}

/// Collects the verbatim texts of the documentation attributes, in order.
fn doc_texts(attrs: &Vec<RawAttr>) -> (r: Vec<String>)
    ensures
        r.deep_view() == spec_doc_texts(attrs.deep_view()),
{
    let ghost av = attrs.deep_view();
    let mut out: Vec<String> = Vec::new();
    proof {
        assert(av.take(0) =~= Seq::<RawAttrV>::empty());
        assert(out.deep_view() =~= Seq::<Seq<char>>::empty());
    }
    let mut i: usize = 0;
    while i < attrs.len()
        invariant
            0 <= i <= attrs@.len(),
            av == attrs.deep_view(),
            av.len() == attrs@.len(),
            out.deep_view() == spec_doc_texts(av.take(i as int)),
        decreases attrs@.len() - i,
    {
        proof {
            assert(av.take(i as int + 1).drop_last() =~= av.take(i as int));
            assert(av.take(i as int + 1).last() == av[i as int]);
            assert(av[i as int] == attrs@[i as int].deep_view());
        }
        let ghost pre = out.deep_view();
        match &attrs[i] {
            RawAttr::Other { name, text } => {
                if crate::textscan::str_eq(name.as_str(), "doc") {
                    out.push(text.clone());
                    proof {
                        assert(out.deep_view() =~= pre.push(text@));
                    }
                }
            },
            _ => {},
        }
        proof {
            assert(out.deep_view() =~= spec_doc_texts(av.take(i as int + 1)));
        }
        i += 1;
    }
    proof {
        assert(av.take(attrs@.len() as int) =~= av);
    }
    out
}

/// One dynamization hook (mathematical form).
#[verifier::ext_equal]
pub struct DynHookV {
    pub slot: Seq<char>,
    pub bounds: Seq<BoundV>,
}

/// One dynamization hook: for one associated slot, the pair of conversion
/// expressions that narrow a slot reference down to its declared bound type,
/// enabling a downstream dynamic-dispatch erasure.
#[derive(Debug, PartialEq, Eq)]
pub struct DynHook {
    pub slot: String,
    pub bounds: Vec<Bound>,
}

impl DeepView for DynHook {
    type V = DynHookV;

    open spec fn deep_view(&self) -> DynHookV {
        DynHookV { slot: self.slot@, bounds: bounds_view(self.bounds@) }
    }
}

/// The dynamization hooks: one per associated slot, in order.
pub open spec fn spec_dyn_hooks(slots: Seq<AssociatedTypeV>) -> Seq<DynHookV> {
    Seq::new(
        slots.len(),
        |i: int| if 0 <= i < slots.len() {
            DynHookV { slot: slots[i].ident, bounds: slots[i].bounds }
        } else {
            DynHookV { slot: Seq::empty(), bounds: Seq::empty() }
        },
    )
}

/// Emits the dynamization hooks: for each associated slot, a conversion-hook
/// pair that narrows a slot reference down to the slot's declared bounds.
pub fn emit_dynamize(slots: &Vec<AssociatedType>) -> (r: Vec<DynHook>)
    ensures
        r.deep_view() == spec_dyn_hooks(slots.deep_view()),
{
    let ghost sv = slots.deep_view();
    let mut out: Vec<DynHook> = Vec::new();
    let mut i: usize = 0;
    while i < slots.len()
        invariant
            0 <= i <= slots@.len(),
            sv == slots.deep_view(),
            sv.len() == slots@.len(),
            out@.len() == i,
            forall|j: int|
                0 <= j < i ==> (#[trigger] out@[j]).deep_view() == spec_dyn_hooks(sv)[j],
        decreases slots@.len() - i,
    {
        proof {
            assert(sv[i as int] == slots@[i as int].deep_view());
        }
        let slot = &slots[i];
        out.push(DynHook { slot: slot.ident.clone(), bounds: clone_bounds(&slot.bounds) });
        i += 1;
    }
    proof {
        assert(out.deep_view() =~= spec_dyn_hooks(sv));
    }
    out
}

/// Duplicates the `where`-clause predicates for re-emission.
pub(crate) fn clone_where_preds(preds: &Vec<WherePred>) -> (r: Vec<WherePred>)
    ensures
        r.deep_view() == preds.deep_view(),
{
    let ghost pv = preds.deep_view();
    let mut out: Vec<WherePred> = Vec::new();
    let mut i: usize = 0;
    while i < preds.len()
        invariant
            0 <= i <= preds@.len(),
            pv == preds.deep_view(),
            pv.len() == preds@.len(),
            out@.len() == i,
            forall|j: int| 0 <= j < i ==> (#[trigger] out@[j]).deep_view() == pv[j],
        decreases preds@.len() - i,
    {
        proof {
            assert(pv[i as int] == preds@[i as int].deep_view());
        }
        match &preds[i] {
            WherePred::TypePred { bounded, bounds } => {
                out.push(
                    WherePred::TypePred {
                        bounded: clone_ty(bounded),
                        bounds: clone_bounds(bounds),
                    },
                );
            },
            WherePred::LifetimePred { lifetime, bounds } => {
                let mut bs: Vec<String> = Vec::new();
                let mut k: usize = 0;
                while k < bounds.len()
                    invariant
                        0 <= k <= bounds@.len(),
                        bs@.len() == k,
                        forall|m: int| 0 <= m < k ==> #[trigger] bs@[m]@ == bounds@[m]@,
                    decreases bounds@.len() - k,
                {
                    bs.push(bounds[k].clone());
                    k += 1;
                }
                proof {
                    assert(bs.deep_view() =~= bounds.deep_view());
                }
                out.push(
                    WherePred::LifetimePred { lifetime: lifetime.clone(), bounds: bs },
                );
            },
        }
        i += 1;
    }
    proof {
        assert(out.deep_view() =~= pv);
    }
    out
}

/// The synthesized trait definition (mathematical form).
#[verifier::ext_equal]
pub struct TraitDefV {
    pub docs: Seq<Seq<char>>,
    pub inject: Seq<Seq<char>>,
    pub vis: VisibilityV,
    pub name: Seq<char>,
    pub generics: Seq<GenericParamDeclV>,
    pub slots: Seq<AssociatedTypeV>,
    pub getters: Seq<GetterSigV>,
    pub mut_getters: Seq<GetterSigV>,
    pub dynamize_hooks: Seq<DynHookV>,
}

/// The synthesized trait definition: forwarded documentation, injected
/// attributes, the directive's visibility and name, the preserved generic
/// parameters, one associated slot per hidden parameter, the accessor
/// signatures, and the dynamization hooks (empty unless asked for).
#[derive(Debug, PartialEq, Eq)]
pub struct TraitDef {
    pub docs: Vec<String>,
    pub inject: Vec<String>,
    pub vis: Visibility,
    pub name: String,
    pub generics: TraitGenerics,
    pub slots: Vec<AssociatedType>,
    pub getters: Vec<GetterSig>,
    pub mut_getters: Vec<GetterSig>,
    pub dynamize_hooks: Vec<DynHook>,
}

impl DeepView for TraitDef {
    type V = TraitDefV;

    open spec fn deep_view(&self) -> TraitDefV {
        TraitDefV {
            docs: self.docs.deep_view(),
            inject: self.inject.deep_view(),
            vis: self.vis.deep_view(),
            name: self.name@,
            generics: self.generics.deep_view(),
            slots: self.slots.deep_view(),
            getters: self.getters.deep_view(),
            mut_getters: self.mut_getters.deep_view(),
            dynamize_hooks: self.dynamize_hooks.deep_view(),
        }
    }
}

/// The synthesized implementation block (mathematical form).
#[verifier::ext_equal]
pub struct TraitImplBlockV {
    pub inject: Seq<Seq<char>>,
    pub generics: Seq<GenericParamDeclV>,
    pub where_preds: Seq<WherePredV>,
    pub trait_name: Seq<char>,
    pub trait_args: Seq<GenArgV>,
    pub self_ty: Seq<char>,
    pub self_args: Seq<GenArgV>,
    pub slot_bindings: Seq<Seq<char>>,
    pub getters: Seq<GetterImplV>,
    pub mut_getters: Seq<GetterImplV>,
}

/// The synthesized implementation block: injected attributes, the
/// declaration's own generics and `where` clause repeated, the implemented
/// trait with its arguments, the implementing type with its arguments, one
/// slot binding per hidden parameter (each bound to the namesake parameter),
/// and the accessor bodies.
#[derive(Debug, PartialEq, Eq)]
pub struct TraitImplBlock {
    pub inject: Vec<String>,
    pub generics: Vec<GenericParamDecl>,
    pub where_preds: Vec<WherePred>,
    pub trait_name: String,
    pub trait_args: Vec<GenArg>,
    pub self_ty: String,
    pub self_args: Vec<GenArg>,
    pub slot_bindings: Vec<String>,
    pub getters: Vec<GetterImpl>,
    pub mut_getters: Vec<GetterImpl>,
}

impl DeepView for TraitImplBlock {
    type V = TraitImplBlockV;

    open spec fn deep_view(&self) -> TraitImplBlockV {
        TraitImplBlockV {
            inject: self.inject.deep_view(),
            generics: self.generics.deep_view(),
            where_preds: self.where_preds.deep_view(),
            trait_name: self.trait_name@,
            trait_args: crate::ty::gen_args_view(self.trait_args@),
            self_ty: self.self_ty@,
            self_args: crate::ty::gen_args_view(self.self_args@),
            slot_bindings: self.slot_bindings.deep_view(),
            getters: self.getters.deep_view(),
            mut_getters: self.mut_getters.deep_view(),
        }
    }
}

/// The emitted artifact (mathematical form).
#[verifier::ext_equal]
pub struct ArtifactV {
    pub trait_def: TraitDefV,
    pub impl_block: TraitImplBlockV,
}

/// The emitted artifact: the trait definition and its implementation block.
#[derive(Debug, PartialEq, Eq)]
pub struct Artifact {
    pub trait_def: TraitDef,
    pub impl_block: TraitImplBlock,
}

impl DeepView for Artifact {
    type V = ArtifactV;

    open spec fn deep_view(&self) -> ArtifactV {
        ArtifactV {
            trait_def: self.trait_def.deep_view(),
            impl_block: self.impl_block.deep_view(),
        }
    }
}

/// The whole generation, stage by stage: parse the declaration's directives,
/// pick the trait declaration, resolve the preserved parameters, the hidden
/// parameters and their slots, build the accessors, and assemble the
/// artifact; the first failure aborts everything.
pub open spec fn spec_process(s: StructDeclV) -> Result<ArtifactV, GenError> {
    match spec_parse_degeneric_args(s.attrs) {
        Result::Err(e) => Result::Err(e),
        Result::Ok(args) => match spec_first_trait_decl(args) {
            Option::None => Result::Err(GenError::MissingRequiredDirective),
            Option::Some(td) => match spec_trait_generics(s.generics, s.where_preds) {
                Result::Err(e) => Result::Err(e),
                Result::Ok(tg) => match spec_hidden_idents(s.generics) {
                    Result::Err(e) => Result::Err(e),
                    Result::Ok(names) => match spec_slots(s.generics, s.where_preds, names, s.span) {
                        Result::Err(e) => Result::Err(e),
                        Result::Ok(slots) => match spec_accessors(s.fields, names) {
                            Result::Err(e) => Result::Err(e),
                            Result::Ok(acc) => Result::Ok(
                                ArtifactV {
                                    trait_def: TraitDefV {
                                        docs: spec_doc_texts(s.attrs),
                                        inject: spec_attrs_for_scope(
                                            args,
                                            AttributeScope::TraitDecl,
                                        ),
                                        vis: td.vis,
                                        name: td.ident,
                                        generics: tg,
                                        slots,
                                        getters: acc.decls,
                                        mut_getters: acc.mut_decls,
                                        dynamize_hooks: if spec_has_dynamize(args) {
                                            spec_dyn_hooks(slots)
                                        } else {
                                            Seq::empty()
                                        },
                                    },
                                    impl_block: TraitImplBlockV {
                                        inject: spec_attrs_for_scope(
                                            args,
                                            AttributeScope::TraitImpl,
                                        ),
                                        generics: spec_strip_generics(s.generics),
                                        where_preds: s.where_preds,
                                        trait_name: td.ident,
                                        trait_args: spec_params_as_args(tg),
                                        self_ty: s.ident,
                                        self_args: spec_params_as_args(s.generics),
                                        slot_bindings: names,
                                        getters: acc.impls,
                                        mut_getters: acc.mut_impls,
                                    },
                                },
                            ),
                        },
                    },
                },
            },
        },
    }
}

/// What the whole generation does with a declaration: a struct with named
/// fields is processed, anything else is rejected.
pub open spec fn spec_process_declaration(d: DeclarationV) -> Result<ArtifactV, GenError> {
    match d {
        DeclarationV::NamedStruct { decl } => spec_process(decl),
        DeclarationV::OtherDecl { span } => Result::Err(
            GenError::UnsupportedDeclarationKind { span },
        ),
    }
}

/// Synthesizes the trait and its implementation for one declaration, or
/// fails with the first failure, anchored at the offending place: the whole
/// generation is all-or-nothing.
pub fn process_struct(d: &Declaration) -> (r: Result<Artifact, GenError>)
    ensures
        r matches Ok(a) ==> spec_process_declaration(d.deep_view()) == Result::<
            ArtifactV,
            GenError,
        >::Ok(a.deep_view()),
        r matches Err(e) ==> spec_process_declaration(d.deep_view()) == Result::<
            ArtifactV,
            GenError,
        >::Err(e),
{
    let s = match d {
        Declaration::NamedStruct(s) => s,
        Declaration::OtherDecl { span } => {
            return Result::Err(GenError::UnsupportedDeclarationKind { span: *span });
        },
    };
    let ghost sv = s.deep_view();
    let args = match parse_degeneric_args(&s.attrs) {
        Result::Ok(a) => a,
        Result::Err(e) => {
            return Result::Err(e);
        },
    };
    let td = match extract_trait_decl(&args) {
        Result::Ok(t) => t,
        Result::Err(e) => {
            return Result::Err(e);
        },
    };
    let tg = match TraitGenerics::from_parts(&s.generics, &s.where_preds) {
        Result::Ok(t) => t,
        Result::Err(e) => {
            return Result::Err(e);
        },
    };
    let names = match determine_hidden_generics(&s.generics) {
        Result::Ok(n) => n,
        Result::Err(e) => {
            return Result::Err(e);
        },
    };
    let slots = match build_slots(&s.generics, &s.where_preds, &names, s.span) {
        Result::Ok(v) => v,
        Result::Err(e) => {
            return Result::Err(e);
        },
    };
    let acc = match build_accessors(&s.fields, &names) {
        Result::Ok(t) => t,
        Result::Err(e) => {
            return Result::Err(e);
        },
    };
    let (decls, impls, mut_decls, mut_impls) = acc;
    let dynamize_hooks = if has_dynamize(&args) {
        emit_dynamize(&slots)
    } else {
        Vec::new()
    };
    proof {
        if !spec_has_dynamize(args.deep_view()) {
            assert(dynamize_hooks.deep_view() =~= Seq::<DynHookV>::empty());
        }
    }
    let trait_args = params_as_args(&tg.0);
    let trait_def = TraitDef {
        docs: doc_texts(&s.attrs),
        inject: extract_attrs(&args, AttributeScope::TraitDecl),
        vis: td.vis,
        name: td.ident.clone(),
        generics: tg,
        slots,
        getters: decls,
        mut_getters: mut_decls,
        dynamize_hooks,
    };
    let impl_block = TraitImplBlock {
        inject: extract_attrs(&args, AttributeScope::TraitImpl),
        generics: strip_params(&s.generics),
        where_preds: clone_where_preds(&s.where_preds),
        trait_name: td.ident,
        trait_args,
        self_ty: s.ident.clone(),
        self_args: params_as_args(&s.generics),
        slot_bindings: names,
        getters: impls,
        mut_getters: mut_impls,
    };
    let artifact = Artifact { trait_def, impl_block };
    proof {
        assert(spec_process(sv) matches Result::Ok(av) && av =~= artifact.deep_view());
    }
    Result::Ok(artifact)
}

/// Whether a field gets accessors: its directives parse and none of them
/// suppresses the accessor.
pub open spec fn spec_is_eligible(f: FieldDeclV) -> bool {
    match spec_parse_degeneric_args(f.attrs) {
        Result::Ok(args) => !spec_has_no_getter(args),
        Result::Err(_) => false,
    }
}

/// How many fields get accessors.
pub open spec fn spec_eligible_count(fields: Seq<FieldDeclV>) -> int
    decreases fields.len(),
{
    if fields.len() == 0 {
        0
    } else {
        spec_eligible_count(fields.drop_last()) + if spec_is_eligible(fields.last()) {
            1int
        } else {
            0int
        }
    }
}

/// How many fields get a mutable accessor.
pub open spec fn spec_mutable_count(fields: Seq<FieldDeclV>) -> int
    decreases fields.len(),
{
    if fields.len() == 0 {
        0
    } else {
        spec_mutable_count(fields.drop_last()) + if spec_is_eligible(fields.last())
            && spec_can_be_made_mutable(fields.last().ty) {
            1int
        } else {
            0int
        }
    }
}

/// The identifiers of the fields that get accessors, in order.
pub open spec fn spec_eligible_idents(fields: Seq<FieldDeclV>) -> Seq<Seq<char>>
    decreases fields.len(),
{
    if fields.len() == 0 {
        Seq::empty()
    } else {
        spec_eligible_idents(fields.drop_last()) + (if spec_is_eligible(fields.last()) {
            seq![fields.last().ident]
        } else {
            Seq::empty()
        })
    }
}

/// The identifiers of the fields that get a mutable accessor, in order.
pub open spec fn spec_mutable_idents(fields: Seq<FieldDeclV>) -> Seq<Seq<char>>
    decreases fields.len(),
{
    if fields.len() == 0 {
        Seq::empty()
    } else {
        spec_mutable_idents(fields.drop_last()) + (if spec_is_eligible(fields.last())
            && spec_can_be_made_mutable(fields.last().ty) {
            seq![fields.last().ident]
        } else {
            Seq::empty()
        })
    }
}

/// The emitted artifact defines exactly one immutable accessor signature per
/// eligible field and exactly one mutable accessor signature per eligible
/// field whose type is not an immutable reference or pointer — and the
/// implementation block holds exactly as many accessor bodies; the mutable
/// ones are never more than the immutable ones.
pub proof fn lemma_accessor_counts(fields: Seq<FieldDeclV>, names: Seq<Seq<char>>)
    requires
        spec_accessors(fields, names) is Ok,
    ensures
        ({
            let acc = spec_accessors(fields, names)->Ok_0;
            &&& acc.decls.len() == spec_eligible_count(fields)
            &&& acc.impls.len() == spec_eligible_count(fields)
            &&& acc.mut_decls.len() == spec_mutable_count(fields)
            &&& acc.mut_impls.len() == spec_mutable_count(fields)
            &&& acc.mut_decls.len() <= acc.decls.len()
        }),
    decreases fields.len(),
{
    if fields.len() > 0 {
        lemma_accessor_counts(fields.drop_last(), names);
        lemma_mutable_le_eligible(fields);
    } else {
        lemma_mutable_le_eligible(fields);
    }
}

/// A mutable accessor always stands beside an immutable one.
pub proof fn lemma_mutable_le_eligible(fields: Seq<FieldDeclV>)
    ensures
        0 <= spec_mutable_count(fields) <= spec_eligible_count(fields),
    decreases fields.len(),
{
    if fields.len() > 0 {
        lemma_mutable_le_eligible(fields.drop_last());
    }
}

/// Accessor names track the fields exactly: the immutable signatures and
/// bodies are named after the eligible fields, in order; the mutable ones
/// append the suffix; and every body borrows precisely its namesake field.
pub proof fn lemma_accessor_names(fields: Seq<FieldDeclV>, names: Seq<Seq<char>>)
    requires
        spec_accessors(fields, names) is Ok,
    ensures
        ({
            let acc = spec_accessors(fields, names)->Ok_0;
            &&& acc.decls.len() == spec_eligible_idents(fields).len()
            &&& acc.impls.len() == spec_eligible_idents(fields).len()
            &&& acc.mut_decls.len() == spec_mutable_idents(fields).len()
            &&& acc.mut_impls.len() == spec_mutable_idents(fields).len()
            &&& forall|i: int|
                0 <= i < acc.decls.len() ==> (#[trigger] acc.decls[i]).name
                    == spec_eligible_idents(fields)[i]
            &&& forall|i: int|
                0 <= i < acc.impls.len() ==> (#[trigger] acc.impls[i]).name
                    == spec_eligible_idents(fields)[i] && acc.impls[i].field
                    == spec_eligible_idents(fields)[i]
            &&& forall|i: int|
                0 <= i < acc.mut_decls.len() ==> (#[trigger] acc.mut_decls[i]).name
                    == spec_mutable_idents(fields)[i] + mut_suffix()
            &&& forall|i: int|
                0 <= i < acc.mut_impls.len() ==> (#[trigger] acc.mut_impls[i]).name
                    == spec_mutable_idents(fields)[i] + mut_suffix() && acc.mut_impls[i].field
                    == spec_mutable_idents(fields)[i]
        }),
    decreases fields.len(),
{
    if fields.len() > 0 {
        lemma_accessor_names(fields.drop_last(), names);
    }
}

/// Round trip, structurally: every accessor body in the implementation block
/// returns a borrow of exactly the field the accessor is named after — the
/// immutable accessor `f` borrows field `f`, and the mutable accessor
/// borrows the field its name minus the suffix denotes.
pub proof fn lemma_accessor_bodies(fields: Seq<FieldDeclV>, names: Seq<Seq<char>>)
    requires
        spec_accessors(fields, names) is Ok,
    ensures
        ({
            let acc = spec_accessors(fields, names)->Ok_0;
            &&& forall|i: int|
                0 <= i < acc.impls.len() ==> (#[trigger] acc.impls[i]).name == acc.impls[i].field
            &&& forall|i: int|
                0 <= i < acc.mut_impls.len() ==> (#[trigger] acc.mut_impls[i]).name
                    == acc.mut_impls[i].field + mut_suffix()
        }),
    decreases fields.len(),
{
    if fields.len() > 0 {
        lemma_accessor_bodies(fields.drop_last(), names);
    }
}

/// A field marked to skip its accessor produces no accessor signature and no
/// accessor body at all: provided no other field reuses its identifier (as
/// no well-formed struct does), its name is absent from the trait body and
/// from the implementation block alike.
pub proof fn lemma_no_getter_absent(
    fields: Seq<FieldDeclV>,
    names: Seq<Seq<char>>,
    k: int,
)
    requires
        spec_accessors(fields, names) is Ok,
        0 <= k < fields.len(),
        !spec_is_eligible(fields[k]),
        forall|j: int|
            0 <= j < fields.len() && j != k ==> (#[trigger] fields[j]).ident != fields[k].ident,
        forall|j: int|
            0 <= j < fields.len() ==> (#[trigger] fields[j]).ident + mut_suffix()
                != fields[k].ident,
    ensures
        ({
            let acc = spec_accessors(fields, names)->Ok_0;
            &&& forall|i: int|
                0 <= i < acc.decls.len() ==> (#[trigger] acc.decls[i]).name != fields[k].ident
            &&& forall|i: int|
                0 <= i < acc.impls.len() ==> (#[trigger] acc.impls[i]).name != fields[k].ident
            &&& forall|i: int|
                0 <= i < acc.mut_decls.len() ==> (#[trigger] acc.mut_decls[i]).name
                    != fields[k].ident
            &&& forall|i: int|
                0 <= i < acc.mut_impls.len() ==> (#[trigger] acc.mut_impls[i]).name
                    != fields[k].ident
        }),
{
    lemma_accessor_names(fields, names);
    lemma_eligible_idents_from(fields, k);
    lemma_mutable_idents_from(fields, k);
}

/// Every eligible ident is the ident of some eligible field other than a
/// given ineligible one.
proof fn lemma_eligible_idents_from(fields: Seq<FieldDeclV>, k: int)
    requires
        0 <= k < fields.len(),
        !spec_is_eligible(fields[k]),
    ensures
        forall|i: int|
            0 <= i < spec_eligible_idents(fields).len() ==> exists|j: int|
                0 <= j < fields.len() && j != k && (#[trigger] spec_eligible_idents(fields)[i])
                    == fields[j].ident,
    decreases fields.len(),
{
    if fields.len() > 0 {
        if k < fields.len() - 1 {
            lemma_eligible_idents_from(fields.drop_last(), k);
            assert forall|i: int| 0 <= i < spec_eligible_idents(fields).len() implies exists|j: int|
                0 <= j < fields.len() && j != k && (#[trigger] spec_eligible_idents(fields)[i])
                    == fields[j].ident by {
                if i < spec_eligible_idents(fields.drop_last()).len() {
                    let j0 = choose|j: int|
                        0 <= j < fields.drop_last().len() && j != k && spec_eligible_idents(
                            fields.drop_last(),
                        )[i] == fields.drop_last()[j].ident;
                    assert(fields[j0] == fields.drop_last()[j0]);
                } else {
                    assert(spec_eligible_idents(fields)[i] == fields[fields.len() - 1].ident);
                }
            }
        } else {
            // the ineligible field is the last one: it contributes nothing
            lemma_eligible_idents_all(fields.drop_last());
            assert forall|i: int| 0 <= i < spec_eligible_idents(fields).len() implies exists|j: int|
                0 <= j < fields.len() && j != k && (#[trigger] spec_eligible_idents(fields)[i])
                    == fields[j].ident by {
                let j0 = choose|j: int|
                    0 <= j < fields.drop_last().len() && spec_eligible_idents(
                        fields.drop_last(),
                    )[i] == fields.drop_last()[j].ident;
                assert(fields[j0] == fields.drop_last()[j0]);
            }
        }
    }
}

/// Every eligible ident is the ident of some field.
proof fn lemma_eligible_idents_all(fields: Seq<FieldDeclV>)
    ensures
        forall|i: int|
            0 <= i < spec_eligible_idents(fields).len() ==> exists|j: int|
                0 <= j < fields.len() && (#[trigger] spec_eligible_idents(fields)[i])
                    == fields[j].ident,
    decreases fields.len(),
{
    if fields.len() > 0 {
        lemma_eligible_idents_all(fields.drop_last());
        assert forall|i: int| 0 <= i < spec_eligible_idents(fields).len() implies exists|j: int|
            0 <= j < fields.len() && (#[trigger] spec_eligible_idents(fields)[i])
                == fields[j].ident by {
            if i < spec_eligible_idents(fields.drop_last()).len() {
                let j0 = choose|j: int|
                    0 <= j < fields.drop_last().len() && spec_eligible_idents(
                        fields.drop_last(),
                    )[i] == fields.drop_last()[j].ident;
                assert(fields[j0] == fields.drop_last()[j0]);
            } else {
                assert(spec_eligible_idents(fields)[i] == fields[fields.len() - 1].ident);
            }
        }
    }
}

/// Every mutable-accessor ident is the ident of some eligible field other
/// than a given ineligible one.
proof fn lemma_mutable_idents_from(fields: Seq<FieldDeclV>, k: int)
    requires
        0 <= k < fields.len(),
        !spec_is_eligible(fields[k]),
    ensures
        forall|i: int|
            0 <= i < spec_mutable_idents(fields).len() ==> exists|j: int|
                0 <= j < fields.len() && j != k && (#[trigger] spec_mutable_idents(fields)[i])
                    == fields[j].ident,
    decreases fields.len(),
{
    if fields.len() > 0 {
        if k < fields.len() - 1 {
            lemma_mutable_idents_from(fields.drop_last(), k);
            assert forall|i: int| 0 <= i < spec_mutable_idents(fields).len() implies exists|j: int|
                0 <= j < fields.len() && j != k && (#[trigger] spec_mutable_idents(fields)[i])
                    == fields[j].ident by {
                if i < spec_mutable_idents(fields.drop_last()).len() {
                    let j0 = choose|j: int|
                        0 <= j < fields.drop_last().len() && j != k && spec_mutable_idents(
                            fields.drop_last(),
                        )[i] == fields.drop_last()[j].ident;
                    assert(fields[j0] == fields.drop_last()[j0]);
                } else {
                    assert(spec_mutable_idents(fields)[i] == fields[fields.len() - 1].ident);
                }
            }
        } else {
            lemma_mutable_idents_all(fields.drop_last());
            assert forall|i: int| 0 <= i < spec_mutable_idents(fields).len() implies exists|j: int|
                0 <= j < fields.len() && j != k && (#[trigger] spec_mutable_idents(fields)[i])
                    == fields[j].ident by {
                let j0 = choose|j: int|
                    0 <= j < fields.drop_last().len() && spec_mutable_idents(
                        fields.drop_last(),
                    )[i] == fields.drop_last()[j].ident;
                assert(fields[j0] == fields.drop_last()[j0]);
            }
        }
    }
}

/// Every mutable-accessor ident is the ident of some field.
proof fn lemma_mutable_idents_all(fields: Seq<FieldDeclV>)
    ensures
        forall|i: int|
            0 <= i < spec_mutable_idents(fields).len() ==> exists|j: int|
                0 <= j < fields.len() && (#[trigger] spec_mutable_idents(fields)[i])
                    == fields[j].ident,
    decreases fields.len(),
{
    if fields.len() > 0 {
        lemma_mutable_idents_all(fields.drop_last());
        assert forall|i: int| 0 <= i < spec_mutable_idents(fields).len() implies exists|j: int|
            0 <= j < fields.len() && (#[trigger] spec_mutable_idents(fields)[i])
                == fields[j].ident by {
            if i < spec_mutable_idents(fields.drop_last()).len() {
                let j0 = choose|j: int|
                    0 <= j < fields.drop_last().len() && spec_mutable_idents(
                        fields.drop_last(),
                    )[i] == fields.drop_last()[j].ident;
                assert(fields[j0] == fields.drop_last()[j0]);
            } else {
                assert(spec_mutable_idents(fields)[i] == fields[fields.len() - 1].ident);
            }
        }
    }
}

/// No hidden slot is named `x` when every type parameter named `x` is
/// preserved.
proof fn lemma_hidden_not_contains(gs: Seq<GenericParamDeclV>, x: Seq<char>)
    requires
        spec_hidden_idents(gs) is Ok,
        forall|j: int|
            0 <= j < gs.len() ==> (match #[trigger] gs[j] {
                GenericParamDeclV::TypeParam { tp } => tp.ident == x ==> {
                    &&& spec_parse_degeneric_args(tp.attrs) is Ok
                    &&& spec_has_preserve(spec_parse_degeneric_args(tp.attrs)->Ok_0)
                },
                _ => true,
            }),
    ensures
        !spec_hidden_idents(gs)->Ok_0.contains(x),
    decreases gs.len(),
{
    if gs.len() > 0 {
        assert forall|j: int| 0 <= j < gs.drop_last().len() implies (match #[trigger] gs.drop_last()[j] {
            GenericParamDeclV::TypeParam { tp } => tp.ident == x ==> {
                &&& spec_parse_degeneric_args(tp.attrs) is Ok
                &&& spec_has_preserve(spec_parse_degeneric_args(tp.attrs)->Ok_0)
            },
            _ => true,
        }) by {
            assert(gs.drop_last()[j] == gs[j]);
        }
        lemma_hidden_not_contains(gs.drop_last(), x);
        let pre = spec_hidden_idents(gs.drop_last())->Ok_0;
        let whole = spec_hidden_idents(gs)->Ok_0;
        match gs.last() {
            GenericParamDeclV::TypeParam { tp } => {
                if spec_has_preserve(spec_parse_degeneric_args(tp.attrs)->Ok_0) {
                    assert(whole == pre);
                } else {
                    assert(tp.ident != x);
                    assert(whole == pre.push(tp.ident));
                    assert forall|m: int| 0 <= m < whole.len() implies whole[m] != x by {
                        if m < pre.len() {
                            assert(!pre.contains(x));
                            assert(pre[m] != x);
                        }
                    }
                }
            },
            _ => {
                assert(whole == pre);
            },
        }
    }
}

/// A preserved type parameter stands among the interface's own generic
/// parameters.
proof fn lemma_preserved_in_trait_generics(
    gs: Seq<GenericParamDeclV>,
    preds: Seq<WherePredV>,
    i: int,
)
    requires
        spec_trait_generics(gs, preds) is Ok,
        0 <= i < gs.len(),
        gs[i] is TypeParam,
        spec_parse_degeneric_args(gs[i]->TypeParam_tp.attrs) is Ok,
        spec_has_preserve(spec_parse_degeneric_args(gs[i]->TypeParam_tp.attrs)->Ok_0),
    ensures
        spec_trait_generics(gs, preds)->Ok_0.contains(
            GenericParamDeclV::TypeParam { tp: spec_strip_param(gs[i]->TypeParam_tp) },
        ),
    decreases gs.len(),
{
    let whole = spec_trait_generics(gs, preds)->Ok_0;
    if i == gs.len() - 1 {
        let pre = spec_trait_generics(gs.drop_last(), preds)->Ok_0;
        assert(whole == pre.push(
            GenericParamDeclV::TypeParam { tp: spec_strip_param(gs[i]->TypeParam_tp) },
        ));
        assert(whole[whole.len() - 1] == (GenericParamDeclV::TypeParam {
            tp: spec_strip_param(gs[i]->TypeParam_tp),
        }));
    } else {
        assert(gs.drop_last()[i] == gs[i]);
        lemma_preserved_in_trait_generics(gs.drop_last(), preds, i);
        let pre = spec_trait_generics(gs.drop_last(), preds)->Ok_0;
        let target = GenericParamDeclV::TypeParam { tp: spec_strip_param(gs[i]->TypeParam_tp) };
        let m = choose|m: int| 0 <= m < pre.len() && pre[m] == target;
        match gs.last() {
            GenericParamDeclV::LifetimeParam { lp } => {
                assert(whole[m] == target);
            },
            GenericParamDeclV::TypeParam { tp } => {
                if spec_has_preserve(spec_parse_degeneric_args(tp.attrs)->Ok_0) {
                    assert(whole[m] == target);
                } else {
                    assert(whole[m] == target);
                }
            },
            GenericParamDeclV::ConstParam { .. } => {},
        }
    }
}

/// A type parameter marked preserved appears as an ordinary generic
/// parameter on the synthesized interface and is never turned into an
/// associated slot: it is not among the hidden slot names — provided no
/// other type parameter reuses its identifier, as none can in a well-formed
/// declaration.
pub proof fn lemma_preserve_partition(
    gs: Seq<GenericParamDeclV>,
    preds: Seq<WherePredV>,
    i: int,
)
    requires
        spec_trait_generics(gs, preds) is Ok,
        spec_hidden_idents(gs) is Ok,
        0 <= i < gs.len(),
        gs[i] is TypeParam,
        spec_parse_degeneric_args(gs[i]->TypeParam_tp.attrs) is Ok,
        spec_has_preserve(spec_parse_degeneric_args(gs[i]->TypeParam_tp.attrs)->Ok_0),
        forall|j: int|
            0 <= j < gs.len() && j != i ==> (match #[trigger] gs[j] {
                GenericParamDeclV::TypeParam { tp } => tp.ident != gs[i]->TypeParam_tp.ident,
                _ => true,
            }),
    ensures
        spec_trait_generics(gs, preds)->Ok_0.contains(
            GenericParamDeclV::TypeParam { tp: spec_strip_param(gs[i]->TypeParam_tp) },
        ),
        !spec_hidden_idents(gs)->Ok_0.contains(gs[i]->TypeParam_tp.ident),
{
    lemma_preserved_in_trait_generics(gs, preds, i);
    lemma_hidden_not_contains(gs, gs[i]->TypeParam_tp.ident);
}

/// A preserved parameter is never self-projected in any accessor type: an
/// identifier outside the hidden slot names that no field type already
/// projects stays unprojected in every accessor return type the generation
/// emits.
pub proof fn lemma_preserved_never_projected(
    fields: Seq<FieldDeclV>,
    names: Seq<Seq<char>>,
    x: Seq<char>,
)
    requires
        spec_accessors(fields, names) is Ok,
        !names.contains(x),
        forall|j: int|
            0 <= j < fields.len() ==> crate::type_tools::associated::no_proj_ty(
                (#[trigger] fields[j]).ty,
                x,
            ),
    ensures
        ({
            let acc = spec_accessors(fields, names)->Ok_0;
            &&& forall|i: int|
                0 <= i < acc.decls.len() ==> crate::type_tools::associated::no_proj_ty(
                    (#[trigger] acc.decls[i]).ret,
                    x,
                )
            &&& forall|i: int|
                0 <= i < acc.impls.len() ==> crate::type_tools::associated::no_proj_ty(
                    (#[trigger] acc.impls[i]).ret,
                    x,
                )
            &&& forall|i: int|
                0 <= i < acc.mut_decls.len() ==> crate::type_tools::associated::no_proj_ty(
                    (#[trigger] acc.mut_decls[i]).ret,
                    x,
                )
            &&& forall|i: int|
                0 <= i < acc.mut_impls.len() ==> crate::type_tools::associated::no_proj_ty(
                    (#[trigger] acc.mut_impls[i]).ret,
                    x,
                )
        }),
    decreases fields.len(),
{
    if fields.len() > 0 {
        assert forall|j: int| 0 <= j < fields.drop_last().len()
            implies crate::type_tools::associated::no_proj_ty(
            (#[trigger] fields.drop_last()[j]).ty,
            x,
        ) by {
            assert(fields.drop_last()[j] == fields[j]);
        }
        lemma_preserved_never_projected(fields.drop_last(), names, x);
        let f = fields.last();
        match spec_field_accessors(f, names) {
            Result::Ok(Option::Some(_)) => {
                crate::type_tools::associated::lemma_rw_no_new_projection_ty(f.ty, names, x);
                crate::type_tools::references::lemma_make_reference_no_projection(
                    spec_rw_ty(f.ty, names),
                    false,
                    x,
                );
                crate::type_tools::references::lemma_make_reference_no_projection(
                    spec_rw_ty(f.ty, names),
                    true,
                    x,
                );
            },
            _ => {},
        }
    }
}

/// One slot per hidden parameter: the slot list and the hidden-ident list
/// have the same length.
proof fn lemma_slots_len(
    gs: Seq<GenericParamDeclV>,
    preds: Seq<WherePredV>,
    names: Seq<Seq<char>>,
    anchor: usize,
)
    requires
        spec_slots(gs, preds, names, anchor) is Ok,
        spec_hidden_idents(gs) is Ok,
    ensures
        spec_slots(gs, preds, names, anchor)->Ok_0.len() == spec_hidden_idents(gs)->Ok_0.len(),
    decreases gs.len(),
{
    if gs.len() > 0 {
        lemma_slots_len(gs.drop_last(), preds, names, anchor);
    }
}

/// The emitted artifact, counted: the trait defines exactly one immutable
/// accessor signature per eligible field and one mutable signature per
/// eligible field whose type allows a mutable borrow, never more mutable
/// than immutable ones; the implementation block holds exactly as many
/// accessor bodies, and exactly one slot binding per associated slot.
pub proof fn lemma_artifact_counts(s: StructDeclV)
    requires
        spec_process(s) is Ok,
    ensures
        ({
            let art = spec_process(s)->Ok_0;
            &&& art.trait_def.getters.len() == spec_eligible_count(s.fields)
            &&& art.trait_def.mut_getters.len() == spec_mutable_count(s.fields)
            &&& art.trait_def.mut_getters.len() <= art.trait_def.getters.len()
            &&& art.impl_block.getters.len() == art.trait_def.getters.len()
            &&& art.impl_block.mut_getters.len() == art.trait_def.mut_getters.len()
            &&& art.impl_block.slot_bindings.len() == art.trait_def.slots.len()
        }),
{
    let names = spec_hidden_idents(s.generics)->Ok_0;
    lemma_accessor_counts(s.fields, names);
    lemma_slots_len(s.generics, s.where_preds, names, s.span);
}

} // verus!
