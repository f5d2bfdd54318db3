//! The type-expression rewriter.
//!
//! `to_associated_ty` walks a type expression and replaces every bare
//! reference to a hidden type parameter — a non-global, single-segment,
//! argument-free path whose identifier is one of the given slot names — with
//! a projection through the implementing type, `Self::<name>`. Every other
//! structural constituent is rewritten recursively: the targets of references
//! and pointers (their constness, mutability and lifetime kept verbatim),
//! array and slice elements, tuple elements, function-pointer argument and
//! return types, grouped and parenthesized inner types, and generic-argument
//! lists of both the angle-bracketed and the parenthesized kind. A path that
//! is not a bare slot reference keeps its own segments and only has their
//! generic arguments rewritten.
//!
//! Unsupported shapes (trait objects, `impl Trait`, macro invocations, the
//! never type, inferred types, exotic generic arguments) are a hard failure,
//! never silently passed through.
//!
//! `bound_to_associated_ty` applies the same leaf rule to the path of a trait
//! bound, so that a hidden parameter's bound mentioning another hidden
//! parameter becomes a self-projection rather than a dangling identifier.

use vstd::assert_seqs_equal;
use vstd::prelude::*;

use crate::errors::UnsupportedShapeError;
use crate::ty::{
    arg_list_view, bound_view, gen_arg_view, gen_args_view, path_view, seg_view, segs_view,
    ty_view, tys_view, ArgList, ArgListV, Bound, BoundV, GenArg, GenArgV, PathSeg, PathSegV, Ty,
    TyPath, TyPathV, TyV,
};

verus! {

/// The path segment `Self`, the head of every projection the rewriter builds.
pub open spec fn self_seg() -> PathSegV {
    PathSegV { ident: "Self"@, args: ArgListV::NoArgs }
}

/// Whether a path is a bare reference to one of the named slots: non-global,
/// a single segment, no generic arguments, and an identifier among `names`.
pub open spec fn is_slot_ref(p: TyPathV, names: Seq<Seq<char>>) -> bool {
    &&& !p.global
    &&& p.segments.len() == 1
    &&& p.segments[0].args is NoArgs
    &&& names.contains(p.segments[0].ident)
}

/// Whether the rewriter accepts this type expression.
pub open spec fn spec_rw_ok_ty(t: TyV) -> bool
    decreases t,
{
    match t {
        TyV::Path { path } => spec_rw_ok_path(path),
        TyV::Reference { elem, .. } => spec_rw_ok_ty(*elem),
        TyV::RawPtr { elem, .. } => spec_rw_ok_ty(*elem),
        TyV::Array { elem, .. } => spec_rw_ok_ty(*elem),
        TyV::Slice { elem } => spec_rw_ok_ty(*elem),
        TyV::Tuple { elems } => spec_rw_ok_tys(elems),
        TyV::BareFn { inputs, output } => spec_rw_ok_tys(inputs) && spec_rw_ok_opt(output),
        TyV::Group { elem } => spec_rw_ok_ty(*elem),
        TyV::Paren { elem } => spec_rw_ok_ty(*elem),
        TyV::TraitObject => false,
        TyV::ImplTrait => false,
        TyV::Macro => false,
        TyV::Never => false,
        TyV::Infer => false,
    }
}

/// Whether the rewriter accepts every element of a sequence of types.
pub open spec fn spec_rw_ok_tys(s: Seq<TyV>) -> bool
    decreases s,
{
    forall|i: int| 0 <= i < s.len() ==> spec_rw_ok_ty(#[trigger] s[i])
}

/// Whether the rewriter accepts an optional return type.
pub open spec fn spec_rw_ok_opt(o: Option<Box<TyV>>) -> bool
    decreases o,
{
    match o {
        Option::None => true,
        Option::Some(t) => spec_rw_ok_ty(*t),
    }
}

/// Whether the rewriter accepts every segment of a path.
pub open spec fn spec_rw_ok_path(p: TyPathV) -> bool
    decreases p,
{
    forall|i: int| 0 <= i < p.segments.len() ==> spec_rw_ok_seg(#[trigger] p.segments[i])
}

/// Whether the rewriter accepts a path segment's generic arguments.
pub open spec fn spec_rw_ok_seg(s: PathSegV) -> bool
    decreases s,
{
    spec_rw_ok_args(s.args)
}

/// Whether the rewriter accepts a generic-argument list: lifetime and type
/// arguments are fine, any other kind of argument is not.
pub open spec fn spec_rw_ok_args(a: ArgListV) -> bool
    decreases a,
{
    match a {
        ArgListV::NoArgs => true,
        ArgListV::Angle { args } => forall|i: int|
            0 <= i < args.len() ==> spec_rw_ok_gen_arg(#[trigger] args[i]),
        ArgListV::ParenArgs { inputs, output } => spec_rw_ok_tys(inputs) && spec_rw_ok_opt(output),
    }
}

/// Whether the rewriter accepts one generic argument.
pub open spec fn spec_rw_ok_gen_arg(a: GenArgV) -> bool
    decreases a,
{
    match a {
        GenArgV::LifetimeArg { .. } => true,
        GenArgV::TyArg { ty } => spec_rw_ok_ty(ty),
        GenArgV::OtherArg => false,
    }
}

/// The rewritten form of a type expression. Total: on shapes the rewriter
/// rejects it returns the type unchanged; `spec_rw_ok_ty` says which types
/// those are.
pub open spec fn spec_rw_ty(t: TyV, names: Seq<Seq<char>>) -> TyV
    decreases t,
{
    match t {
        TyV::Path { path } => TyV::Path { path: spec_rw_path(path, names) },
        TyV::Reference { lifetime, mutable, elem } => TyV::Reference {
            lifetime,
            mutable,
            elem: Box::new(spec_rw_ty(*elem, names)),
        },
        TyV::RawPtr { mutable, elem } => TyV::RawPtr {
            mutable,
            elem: Box::new(spec_rw_ty(*elem, names)),
        },
        TyV::Array { elem, len_expr } => TyV::Array {
            elem: Box::new(spec_rw_ty(*elem, names)),
            len_expr,
        },
        TyV::Slice { elem } => TyV::Slice { elem: Box::new(spec_rw_ty(*elem, names)) },
        TyV::Tuple { elems } => TyV::Tuple { elems: spec_rw_tys(elems, names) },
        TyV::BareFn { inputs, output } => TyV::BareFn {
            inputs: spec_rw_tys(inputs, names),
            output: spec_rw_opt(output, names),
        },
        TyV::Group { elem } => TyV::Group { elem: Box::new(spec_rw_ty(*elem, names)) },
        TyV::Paren { elem } => TyV::Paren { elem: Box::new(spec_rw_ty(*elem, names)) },
        _ => t,
    }
}

/// The elementwise rewritten form of a sequence of types.
pub open spec fn spec_rw_tys(s: Seq<TyV>, names: Seq<Seq<char>>) -> Seq<TyV>
    decreases s,
{
    Seq::new(
        s.len(),
        |i: int| if 0 <= i < s.len() { spec_rw_ty(s[i], names) } else { TyV::Infer },
    )
}

/// The rewritten form of an optional return type.
pub open spec fn spec_rw_opt(o: Option<Box<TyV>>, names: Seq<Seq<char>>) -> Option<Box<TyV>>
    decreases o,
{
    match o {
        Option::None => Option::None,
        Option::Some(t) => Option::Some(Box::new(spec_rw_ty(*t, names))),
    }
}

/// The rewritten form of a path: the leaf rule proper. A bare slot reference
/// becomes the two-segment projection `Self::<name>`; any other path keeps
/// its segments and rewrites their generic arguments only.
pub open spec fn spec_rw_path(p: TyPathV, names: Seq<Seq<char>>) -> TyPathV
    decreases p,
{
    if is_slot_ref(p, names) {
        TyPathV { global: false, segments: seq![self_seg(), p.segments[0]] }
    } else {
        TyPathV { global: p.global, segments: spec_rw_segs(p.segments, names) }
    }
}

/// The elementwise rewritten form of a sequence of path segments.
pub open spec fn spec_rw_segs(s: Seq<PathSegV>, names: Seq<Seq<char>>) -> Seq<PathSegV>
    decreases s,
{
    Seq::new(
        s.len(),
        |i: int| if 0 <= i < s.len() { spec_rw_seg(s[i], names) } else { self_seg() },
    )
}

/// The rewritten form of one path segment: the identifier is kept, the
/// generic arguments are rewritten.
pub open spec fn spec_rw_seg(s: PathSegV, names: Seq<Seq<char>>) -> PathSegV
    decreases s,
{
    PathSegV { ident: s.ident, args: spec_rw_args(s.args, names) }
}

/// The rewritten form of a generic-argument list.
pub open spec fn spec_rw_args(a: ArgListV, names: Seq<Seq<char>>) -> ArgListV
    decreases a,
{
    match a {
        ArgListV::NoArgs => ArgListV::NoArgs,
        ArgListV::Angle { args } => ArgListV::Angle { args: spec_rw_gen_args(args, names) },
        ArgListV::ParenArgs { inputs, output } => ArgListV::ParenArgs {
            inputs: spec_rw_tys(inputs, names),
            output: spec_rw_opt(output, names),
        },
    }
}

/// The elementwise rewritten form of a sequence of generic arguments.
pub open spec fn spec_rw_gen_args(s: Seq<GenArgV>, names: Seq<Seq<char>>) -> Seq<GenArgV>
    decreases s,
{
    Seq::new(
        s.len(),
        |i: int| if 0 <= i < s.len() { spec_rw_gen_arg(s[i], names) } else { GenArgV::OtherArg },
    )
}

/// The rewritten form of one generic argument: a lifetime is kept, a type is
/// rewritten, any other kind is kept (and rejected by `spec_rw_ok_gen_arg`).
pub open spec fn spec_rw_gen_arg(a: GenArgV, names: Seq<Seq<char>>) -> GenArgV
    decreases a,
{
    match a {
        GenArgV::LifetimeArg { name } => GenArgV::LifetimeArg { name },
        GenArgV::TyArg { ty } => GenArgV::TyArg { ty: spec_rw_ty(ty, names) },
        GenArgV::OtherArg => GenArgV::OtherArg,
    }
}

/// The rewritten form of one bound: the leaf rule applied to a trait bound's
/// path; a lifetime bound is untouched.
pub open spec fn spec_rw_bound(b: BoundV, names: Seq<Seq<char>>) -> BoundV {
    match b {
        BoundV::TraitBound { binder, maybe, path } => BoundV::TraitBound {
            binder,
            maybe,
            path: spec_rw_path(path, names),
        },
        BoundV::LifetimeBound { name } => BoundV::LifetimeBound { name },
    }
}

/// Whether the rewriter accepts one bound.
pub open spec fn spec_rw_ok_bound(b: BoundV) -> bool {
    match b {
        BoundV::TraitBound { path, .. } => spec_rw_ok_path(path),
        BoundV::LifetimeBound { .. } => true,
    }
}

/// Whether one of `names` reads, character for character, as `id`.
fn contains_name(names: &Vec<String>, id: &String) -> (r: bool)
    ensures
        r == names.deep_view().contains(id@),
{
    let mut i: usize = 0;
    while i < names.len()
        invariant
            0 <= i <= names@.len(),
            forall|j: int| 0 <= j < i ==> names.deep_view()[j] != id@,
        decreases names@.len() - i,
    {
        if names[i] == *id {
            assert(names.deep_view()[i as int] == id@);
            return true;
        }
        i += 1;
    }
    return false;
}

/// Clones an optional lifetime name.
fn clone_opt_string(o: &Option<String>) -> (r: Option<String>)
    ensures
        r.deep_view() == o.deep_view(),
{
    match o {
        Option::Some(s) => Option::Some(s.clone()),
        Option::None => Option::None,
    }
}

/// Rewrites every element of a sequence of types.
fn rw_tys(s: &Vec<Ty>, names: &Vec<String>) -> (r: Result<Vec<Ty>, UnsupportedShapeError>)
    ensures
        r is Ok <==> spec_rw_ok_tys(tys_view(s@)),
        r matches Ok(out) ==> tys_view(out@) == spec_rw_tys(
            tys_view(s@),
            names.deep_view(),
        ),
    decreases s,
{
    let mut out: Vec<Ty> = Vec::new();
    let mut i: usize = 0;
    while i < s.len()
        invariant
            0 <= i <= s@.len(),
            out@.len() == i,
            forall|j: int| 0 <= j < i ==> spec_rw_ok_ty(tys_view(s@)[j]),
            forall|j: int|
                0 <= j < i ==> ty_view(#[trigger] out@[j]) == spec_rw_ty(
                    tys_view(s@)[j],
                    names.deep_view(),
                ),
        decreases s@.len() - i,
    {
        assert(tys_view(s@)[i as int] == ty_view(s@[i as int]));
        match to_associated_ty(&s[i], names) {
            Ok(t) => out.push(t),
            Err(e) => {
                return Err(e);
            },
        }
        i += 1;
    }
    proof {
        assert(tys_view(out@) =~= spec_rw_tys(tys_view(s@), names.deep_view()));
    }
    Ok(out)
}

/// Rewrites an optional return type.
fn rw_opt(o: &Option<Box<Ty>>, names: &Vec<String>) -> (r: Result<
    Option<Box<Ty>>,
    UnsupportedShapeError,
>)
    ensures
        r is Ok <==> spec_rw_ok_opt(crate::ty::opt_ty_view(*o)),
        r matches Ok(out) ==> crate::ty::opt_ty_view(out) == spec_rw_opt(
            crate::ty::opt_ty_view(*o),
            names.deep_view(),
        ),
    decreases o,
{
    match o {
        Option::None => Ok(Option::None),
        Option::Some(t) => match to_associated_ty(t, names) {
            Ok(out) => Ok(Option::Some(Box::new(out))),
            Err(e) => Err(e),
        },
    }
}

/// Rewrites one generic argument.
fn rw_gen_arg(a: &GenArg, names: &Vec<String>) -> (r: Result<GenArg, UnsupportedShapeError>)
    ensures
        r is Ok <==> spec_rw_ok_gen_arg(gen_arg_view(*a)),
        r matches Ok(out) ==> gen_arg_view(out) == spec_rw_gen_arg(
            gen_arg_view(*a),
            names.deep_view(),
        ),
    decreases a,
{
    match a {
        GenArg::LifetimeArg { name } => Ok(GenArg::LifetimeArg { name: name.clone() }),
        GenArg::TyArg { ty } => match to_associated_ty(ty, names) {
            Ok(t) => Ok(GenArg::TyArg { ty: t }),
            Err(e) => Err(e),
        },
        GenArg::OtherArg => Err(UnsupportedShapeError),
    }
}

/// Rewrites every generic argument of an angle-bracketed list.
fn rw_gen_args(s: &Vec<GenArg>, names: &Vec<String>) -> (r: Result<
    Vec<GenArg>,
    UnsupportedShapeError,
>)
    ensures
        r is Ok <==> (forall|j: int|
            0 <= j < s@.len() ==> spec_rw_ok_gen_arg(gen_arg_view(#[trigger] s@[j]))),
        r matches Ok(out) ==> out@.len() == s@.len() && (forall|j: int|
            0 <= j < s@.len() ==> gen_arg_view(#[trigger] out@[j]) == spec_rw_gen_arg(
                gen_arg_view(s@[j]),
                names.deep_view(),
            )),
    decreases s,
{
    let mut out: Vec<GenArg> = Vec::new();
    let mut i: usize = 0;
    while i < s.len()
        invariant
            0 <= i <= s@.len(),
            out@.len() == i,
            forall|j: int| 0 <= j < i ==> spec_rw_ok_gen_arg(gen_arg_view(#[trigger] s@[j])),
            forall|j: int|
                0 <= j < i ==> gen_arg_view(#[trigger] out@[j]) == spec_rw_gen_arg(
                    gen_arg_view(s@[j]),
                    names.deep_view(),
                ),
        decreases s@.len() - i,
    {
        match rw_gen_arg(&s[i], names) {
            Ok(a) => out.push(a),
            Err(e) => {
                return Err(e);
            },
        }
        i += 1;
    }
    Ok(out)
}

/// Rewrites a generic-argument list.
fn rw_args(a: &ArgList, names: &Vec<String>) -> (r: Result<ArgList, UnsupportedShapeError>)
    ensures
        r is Ok <==> spec_rw_ok_args(arg_list_view(*a)),
        r matches Ok(out) ==> arg_list_view(out) == spec_rw_args(
            arg_list_view(*a),
            names.deep_view(),
        ),
    decreases a,
{
    match a {
        ArgList::NoArgs => Ok(ArgList::NoArgs),
        ArgList::Angle { args } => match rw_gen_args(args, names) {
            Ok(out) => {
                proof {
                    assert forall|j: int| 0 <= j < args@.len() implies #[trigger] gen_args_view(
                        args@,
                    )[j] == gen_arg_view(args@[j]) by {}
                    assert(gen_args_view(out@) =~= spec_rw_gen_args(
                        gen_args_view(args@),
                        names.deep_view(),
                    ));
                }
                Ok(ArgList::Angle { args: out })
            },
            Err(e) => {
                proof {
                    let j0 = choose|j: int|
                        0 <= j < args@.len() && !spec_rw_ok_gen_arg(gen_arg_view(args@[j]));
                    assert(gen_args_view(args@)[j0] == gen_arg_view(args@[j0]));
                    assert(!spec_rw_ok_args(arg_list_view(*a)));
                }
                Err(e)
            },
        },
        ArgList::ParenArgs { inputs, output } => {
            let new_inputs = match rw_tys(inputs, names) {
                Ok(out) => out,
                Err(e) => {
                    return Err(e);
                },
            };
            match rw_opt(output, names) {
                Ok(out) => Ok(ArgList::ParenArgs { inputs: new_inputs, output: out }),
                Err(e) => Err(e),
            }
        },
    }
}

/// Rewrites one path segment: the identifier is kept, the arguments are
/// rewritten.
fn rw_seg(s: &PathSeg, names: &Vec<String>) -> (r: Result<PathSeg, UnsupportedShapeError>)
    ensures
        r is Ok <==> spec_rw_ok_seg(seg_view(*s)),
        r matches Ok(out) ==> seg_view(out) == spec_rw_seg(seg_view(*s), names.deep_view()),
    decreases s,
{
    match rw_args(&s.args, names) {
        Ok(out) => Ok(PathSeg { ident: s.ident.clone(), args: out }),
        Err(e) => Err(e),
    }
}

/// Rewrites a path: a bare slot reference becomes `Self::<name>`, any other
/// path keeps its segments and has their generic arguments rewritten.
#[verifier::rlimit(50)]
fn rw_path(p: &TyPath, names: &Vec<String>) -> (r: Result<TyPath, UnsupportedShapeError>)
    ensures
        r is Ok <==> spec_rw_ok_path(path_view(*p)),
        r matches Ok(out) ==> path_view(out) == spec_rw_path(path_view(*p), names.deep_view()),
    decreases p,
{
    if !p.global && p.segments.len() == 1 && matches!(&p.segments[0].args, ArgList::NoArgs)
        && contains_name(names, &p.segments[0].ident) {
        let mut segments: Vec<PathSeg> = Vec::new();
        segments.push(PathSeg { ident: "Self".to_owned(), args: ArgList::NoArgs });
        segments.push(PathSeg { ident: p.segments[0].ident.clone(), args: ArgList::NoArgs });
        let out = TyPath { global: false, segments };
        proof {
            assert(seg_view(out.segments@[1]) == path_view(*p).segments[0]);
            assert(path_view(out).segments =~= spec_rw_path(
                path_view(*p),
                names.deep_view(),
            ).segments);
        }
        Ok(out)
    } else {
        let mut out: Vec<PathSeg> = Vec::new();
        let mut i: usize = 0;
        while i < p.segments.len()
            invariant
                0 <= i <= p.segments@.len(),
                out@.len() == i,
                forall|j: int| 0 <= j < i ==> spec_rw_ok_seg(segs_view(p.segments@)[j]),
                forall|j: int|
                    0 <= j < i ==> seg_view(#[trigger] out@[j]) == spec_rw_seg(
                        segs_view(p.segments@)[j],
                        names.deep_view(),
                    ),
            decreases p.segments@.len() - i,
        {
            assert(segs_view(p.segments@)[i as int] == seg_view(p.segments@[i as int]));
            match rw_seg(&p.segments[i], names) {
                Ok(s) => out.push(s),
                Err(e) => {
                    proof {
                        assert(!spec_rw_ok_seg(path_view(*p).segments[i as int]));
                        assert(!spec_rw_ok_path(path_view(*p)));
                    }
                    return Err(e);
                },
            }
            i += 1;
        }
        proof {
            assert(segs_view(out@) =~= spec_rw_segs(segs_view(p.segments@), names.deep_view()));
        }
        Ok(TyPath { global: p.global, segments: out })
    }
}

/// Rewrites a type expression, replacing every bare reference to one of
/// `generic_idents` with the projection `Self::<that identifier>` and
/// recursing into every structural constituent; fails on a shape the
/// rewriter does not understand.
pub fn to_associated_ty(t: &Ty, generic_idents: &Vec<String>) -> (r: Result<
    Ty,
    UnsupportedShapeError,
>)
    ensures
        r is Ok <==> spec_rw_ok_ty(t.deep_view()),
        r matches Ok(out) ==> out.deep_view() == spec_rw_ty(
            t.deep_view(),
            generic_idents.deep_view(),
        ),
    decreases t,
{
    match t {
        Ty::Path { path } => match rw_path(path, generic_idents) {
            Ok(out) => Ok(Ty::Path { path: out }),
            Err(e) => Err(e),
        },
        Ty::Reference { lifetime, mutable, elem } => match to_associated_ty(
            elem,
            generic_idents,
        ) {
            Ok(out) => Ok(
                Ty::Reference {
                    lifetime: clone_opt_string(lifetime),
                    mutable: *mutable,
                    elem: Box::new(out),
                },
            ),
            Err(e) => Err(e),
        },
        Ty::RawPtr { mutable, elem } => match to_associated_ty(elem, generic_idents) {
            Ok(out) => Ok(Ty::RawPtr { mutable: *mutable, elem: Box::new(out) }),
            Err(e) => Err(e),
        },
        Ty::Array { elem, len_expr } => match to_associated_ty(elem, generic_idents) {
            Ok(out) => Ok(Ty::Array { elem: Box::new(out), len_expr: len_expr.clone() }),
            Err(e) => Err(e),
        },
        Ty::Slice { elem } => match to_associated_ty(elem, generic_idents) {
            Ok(out) => Ok(Ty::Slice { elem: Box::new(out) }),
            Err(e) => Err(e),
        },
        Ty::Tuple { elems } => match rw_tys(elems, generic_idents) {
            Ok(out) => Ok(Ty::Tuple { elems: out }),
            Err(e) => Err(e),
        },
        Ty::BareFn { inputs, output } => {
            let new_inputs = match rw_tys(inputs, generic_idents) {
                Ok(out) => out,
                Err(e) => {
                    return Err(e);
                },
            };
            match rw_opt(output, generic_idents) {
                Ok(out) => Ok(Ty::BareFn { inputs: new_inputs, output: out }),
                Err(e) => Err(e),
            }
        },
        Ty::Group { elem } => match to_associated_ty(elem, generic_idents) {
            Ok(out) => Ok(Ty::Group { elem: Box::new(out) }),
            Err(e) => Err(e),
        },
        Ty::Paren { elem } => match to_associated_ty(elem, generic_idents) {
            Ok(out) => Ok(Ty::Paren { elem: Box::new(out) }),
            Err(e) => Err(e),
        },
        Ty::TraitObject => Err(UnsupportedShapeError),
        Ty::ImplTrait => Err(UnsupportedShapeError),
        Ty::Macro => Err(UnsupportedShapeError),
        Ty::Never => Err(UnsupportedShapeError),
        Ty::Infer => Err(UnsupportedShapeError),
    }
}

/// Rewrites the path of a trait bound through the same leaf rule as
/// `to_associated_ty`; a lifetime bound passes through unchanged.
pub fn bound_to_associated_ty(b: &Bound, generic_idents: &Vec<String>) -> (r: Result<
    Bound,
    UnsupportedShapeError,
>)
    ensures
        r is Ok <==> spec_rw_ok_bound(b.deep_view()),
        r matches Ok(out) ==> out.deep_view() == spec_rw_bound(
            b.deep_view(),
            generic_idents.deep_view(),
        ),
{
    match b {
        Bound::TraitBound { binder, maybe, path } => match rw_path(path, generic_idents) {
            Ok(out) => Ok(
                Bound::TraitBound { binder: clone_opt_string(binder), maybe: *maybe, path: out },
            ),
            Err(e) => Err(e),
        },
        Bound::LifetimeBound { name } => Ok(Bound::LifetimeBound { name: name.clone() }),
    }
}

/// Idempotence of rewriting, on whole types: rewriting an already-rewritten
/// type expression a second time, with the same slot-name set, is a no-op.
pub proof fn lemma_rw_idempotent_ty(t: TyV, names: Seq<Seq<char>>)
    ensures
        spec_rw_ty(spec_rw_ty(t, names), names) == spec_rw_ty(t, names),
    decreases t,
{
    match t {
        TyV::Path { path } => {
            lemma_rw_idempotent_path(path, names);
        },
        TyV::Reference { elem, .. } => {
            lemma_rw_idempotent_ty(*elem, names);
        },
        TyV::RawPtr { elem, .. } => {
            lemma_rw_idempotent_ty(*elem, names);
        },
        TyV::Array { elem, .. } => {
            lemma_rw_idempotent_ty(*elem, names);
        },
        TyV::Slice { elem } => {
            lemma_rw_idempotent_ty(*elem, names);
        },
        TyV::Tuple { elems } => {
            lemma_rw_idempotent_tys(elems, names);
        },
        TyV::BareFn { inputs, output } => {
            lemma_rw_idempotent_tys(inputs, names);
            lemma_rw_idempotent_opt(output, names);
        },
        TyV::Group { elem } => {
            lemma_rw_idempotent_ty(*elem, names);
        },
        TyV::Paren { elem } => {
            lemma_rw_idempotent_ty(*elem, names);
        },
        _ => {},
    }
}

/// Idempotence of rewriting, on sequences of types.
pub proof fn lemma_rw_idempotent_tys(s: Seq<TyV>, names: Seq<Seq<char>>)
    ensures
        spec_rw_tys(spec_rw_tys(s, names), names) == spec_rw_tys(s, names),
    decreases s,
{
    assert_seqs_equal!(
        spec_rw_tys(spec_rw_tys(s, names), names) == spec_rw_tys(s, names),
        i => {
            lemma_rw_idempotent_ty(s[i], names);
            assert(spec_rw_tys(s, names)[i] == spec_rw_ty(s[i], names));
            assert(spec_rw_tys(spec_rw_tys(s, names), names)[i] == spec_rw_ty(
                spec_rw_tys(s, names)[i],
                names,
            ));
        }
    );
}

/// Idempotence of rewriting, on optional return types.
pub proof fn lemma_rw_idempotent_opt(o: Option<Box<TyV>>, names: Seq<Seq<char>>)
    ensures
        spec_rw_opt(spec_rw_opt(o, names), names) == spec_rw_opt(o, names),
    decreases o,
{
    match o {
        Option::None => {},
        Option::Some(t) => {
            lemma_rw_idempotent_ty(*t, names);
        },
    }
}

/// Idempotence of rewriting, on paths: in particular, a bare slot reference
/// turns into a two-segment projection, which the leaf rule never matches
/// again.
pub proof fn lemma_rw_idempotent_path(p: TyPathV, names: Seq<Seq<char>>)
    ensures
        spec_rw_path(spec_rw_path(p, names), names) == spec_rw_path(p, names),
    decreases p,
{
    if is_slot_ref(p, names) {
        let q = spec_rw_path(p, names);
        assert(!is_slot_ref(q, names));
        assert(spec_rw_seg(q.segments[0], names) == q.segments[0]);
        assert(spec_rw_seg(q.segments[1], names) == q.segments[1]);
        assert(spec_rw_segs(q.segments, names) =~= q.segments);
        assert(spec_rw_path(q, names) =~= q);
    } else {
        let q = spec_rw_path(p, names);
        lemma_rw_idempotent_segs(p.segments, names);
        if !q.global && q.segments.len() == 1 {
            assert(q.segments[0] == spec_rw_seg(p.segments[0], names));
            match p.segments[0].args {
                ArgListV::NoArgs => {
                    assert(q.segments[0].ident == p.segments[0].ident);
                    assert(!is_slot_ref(q, names));
                },
                ArgListV::Angle { .. } => {
                    assert(!(q.segments[0].args is NoArgs));
                },
                ArgListV::ParenArgs { .. } => {
                    assert(!(q.segments[0].args is NoArgs));
                },
            }
        }
        assert(!is_slot_ref(q, names));
        assert(spec_rw_path(q, names) =~= q);
    }
}

/// Idempotence of rewriting, on sequences of path segments.
pub proof fn lemma_rw_idempotent_segs(s: Seq<PathSegV>, names: Seq<Seq<char>>)
    ensures
        spec_rw_segs(spec_rw_segs(s, names), names) == spec_rw_segs(s, names),
    decreases s,
{
    assert_seqs_equal!(
        spec_rw_segs(spec_rw_segs(s, names), names) == spec_rw_segs(s, names),
        i => {
            lemma_rw_idempotent_args(s[i].args, names);
            assert(spec_rw_segs(s, names)[i] == spec_rw_seg(s[i], names));
            assert(spec_rw_segs(spec_rw_segs(s, names), names)[i] == spec_rw_seg(
                spec_rw_segs(s, names)[i],
                names,
            ));
        }
    );
}

/// Idempotence of rewriting, on generic-argument lists.
pub proof fn lemma_rw_idempotent_args(a: ArgListV, names: Seq<Seq<char>>)
    ensures
        spec_rw_args(spec_rw_args(a, names), names) == spec_rw_args(a, names),
    decreases a,
{
    match a {
        ArgListV::NoArgs => {},
        ArgListV::Angle { args } => {
            lemma_rw_idempotent_gen_args(args, names);
        },
        ArgListV::ParenArgs { inputs, output } => {
            lemma_rw_idempotent_tys(inputs, names);
            lemma_rw_idempotent_opt(output, names);
        },
    }
}

/// Idempotence of rewriting, on sequences of generic arguments.
pub proof fn lemma_rw_idempotent_gen_args(s: Seq<GenArgV>, names: Seq<Seq<char>>)
    ensures
        spec_rw_gen_args(spec_rw_gen_args(s, names), names) == spec_rw_gen_args(s, names),
    decreases s,
{
    assert_seqs_equal!(
        spec_rw_gen_args(spec_rw_gen_args(s, names), names) == spec_rw_gen_args(s, names),
        i => {
            match s[i] {
                GenArgV::TyArg { ty } => {
                    lemma_rw_idempotent_ty(ty, names);
                },
                _ => {},
            }
            assert(spec_rw_gen_args(s, names)[i] == spec_rw_gen_arg(s[i], names));
            assert(spec_rw_gen_args(spec_rw_gen_args(s, names), names)[i] == spec_rw_gen_arg(
                spec_rw_gen_args(s, names)[i],
                names,
            ));
        }
    );
}

/// Idempotence of rewriting, on bounds.
pub proof fn lemma_rw_idempotent_bound(b: BoundV, names: Seq<Seq<char>>)
    ensures
        spec_rw_bound(spec_rw_bound(b, names), names) == spec_rw_bound(b, names),
{
    match b {
        BoundV::TraitBound { path, .. } => {
            lemma_rw_idempotent_path(path, names);
        },
        BoundV::LifetimeBound { .. } => {},
    }
}

/// Whether a path is, itself, the projection `Self::<x>`.
pub open spec fn is_self_projection(p: TyPathV, x: Seq<char>) -> bool {
    &&& !p.global
    &&& p.segments.len() == 2
    &&& p.segments[0] == self_seg()
    &&& p.segments[1].ident == x
}

/// Whether a type expression nowhere contains the projection `Self::<x>`.
pub open spec fn no_proj_ty(t: TyV, x: Seq<char>) -> bool
    decreases t,
{
    match t {
        TyV::Path { path } => no_proj_path(path, x),
        TyV::Reference { elem, .. } => no_proj_ty(*elem, x),
        TyV::RawPtr { elem, .. } => no_proj_ty(*elem, x),
        TyV::Array { elem, .. } => no_proj_ty(*elem, x),
        TyV::Slice { elem } => no_proj_ty(*elem, x),
        TyV::Tuple { elems } => forall|i: int|
            0 <= i < elems.len() ==> no_proj_ty(#[trigger] elems[i], x),
        TyV::BareFn { inputs, output } => (forall|i: int|
            0 <= i < inputs.len() ==> no_proj_ty(#[trigger] inputs[i], x)) && no_proj_opt(
            output,
            x,
        ),
        TyV::Group { elem } => no_proj_ty(*elem, x),
        TyV::Paren { elem } => no_proj_ty(*elem, x),
        _ => true,
    }
}

/// Whether an optional return type nowhere contains `Self::<x>`.
pub open spec fn no_proj_opt(o: Option<Box<TyV>>, x: Seq<char>) -> bool
    decreases o,
{
    match o {
        Option::None => true,
        Option::Some(t) => no_proj_ty(*t, x),
    }
}

/// Whether a path neither is nor contains the projection `Self::<x>`.
pub open spec fn no_proj_path(p: TyPathV, x: Seq<char>) -> bool
    decreases p,
{
    &&& !is_self_projection(p, x)
    &&& forall|i: int| 0 <= i < p.segments.len() ==> no_proj_seg(#[trigger] p.segments[i], x)
}

/// Whether a path segment's arguments nowhere contain `Self::<x>`.
pub open spec fn no_proj_seg(s: PathSegV, x: Seq<char>) -> bool
    decreases s,
{
    no_proj_args(s.args, x)
}

/// Whether a generic-argument list nowhere contains `Self::<x>`.
pub open spec fn no_proj_args(a: ArgListV, x: Seq<char>) -> bool
    decreases a,
{
    match a {
        ArgListV::NoArgs => true,
        ArgListV::Angle { args } => forall|i: int|
            0 <= i < args.len() ==> no_proj_gen_arg(#[trigger] args[i], x),
        ArgListV::ParenArgs { inputs, output } => (forall|i: int|
            0 <= i < inputs.len() ==> no_proj_ty(#[trigger] inputs[i], x)) && no_proj_opt(
            output,
            x,
        ),
    }
}

/// Whether one generic argument nowhere contains `Self::<x>`.
pub open spec fn no_proj_gen_arg(a: GenArgV, x: Seq<char>) -> bool
    decreases a,
{
    match a {
        GenArgV::TyArg { ty } => no_proj_ty(ty, x),
        _ => true,
    }
}

/// Whether one bound nowhere contains `Self::<x>`.
pub open spec fn no_proj_bound(b: BoundV, x: Seq<char>) -> bool {
    match b {
        BoundV::TraitBound { path, .. } => no_proj_path(path, x),
        BoundV::LifetimeBound { .. } => true,
    }
}

/// The rewrite projects only the names it is given: an identifier outside
/// the slot-name set that a type expression does not already project is not
/// projected in the rewritten expression either.
pub proof fn lemma_rw_no_new_projection_ty(t: TyV, names: Seq<Seq<char>>, x: Seq<char>)
    requires
        !names.contains(x),
        no_proj_ty(t, x),
    ensures
        no_proj_ty(spec_rw_ty(t, names), x),
    decreases t,
{
    match t {
        TyV::Path { path } => {
            lemma_rw_no_new_projection_path(path, names, x);
            assert(spec_rw_ty(t, names) == TyV::Path { path: spec_rw_path(path, names) });
            assert(no_proj_ty(spec_rw_ty(t, names), x));
        },
        TyV::Reference { elem, .. } => {
            lemma_rw_no_new_projection_ty(*elem, names, x);
        },
        TyV::RawPtr { elem, .. } => {
            lemma_rw_no_new_projection_ty(*elem, names, x);
        },
        TyV::Array { elem, .. } => {
            lemma_rw_no_new_projection_ty(*elem, names, x);
        },
        TyV::Slice { elem } => {
            lemma_rw_no_new_projection_ty(*elem, names, x);
        },
        TyV::Tuple { elems } => {
            lemma_rw_no_new_projection_tys(elems, names, x);
            let relems = spec_rw_tys(elems, names);
            assert(spec_rw_ty(t, names) == TyV::Tuple { elems: relems });
            assert(no_proj_ty(spec_rw_ty(t, names), x));
        },
        TyV::BareFn { inputs, output } => {
            lemma_rw_no_new_projection_tys(inputs, names, x);
            lemma_rw_no_new_projection_opt(output, names, x);
            let rinputs = spec_rw_tys(inputs, names);
            assert(spec_rw_ty(t, names) == TyV::BareFn {
                inputs: rinputs,
                output: spec_rw_opt(output, names),
            });
            assert(no_proj_ty(spec_rw_ty(t, names), x));
        },
        TyV::Group { elem } => {
            lemma_rw_no_new_projection_ty(*elem, names, x);
        },
        TyV::Paren { elem } => {
            lemma_rw_no_new_projection_ty(*elem, names, x);
        },
        _ => {},
    }
}

/// The rewrite projects only the names it is given, on sequences of types.
pub proof fn lemma_rw_no_new_projection_tys(s: Seq<TyV>, names: Seq<Seq<char>>, x: Seq<char>)
    requires
        !names.contains(x),
        forall|i: int| 0 <= i < s.len() ==> no_proj_ty(#[trigger] s[i], x),
    ensures
        forall|i: int|
            0 <= i < spec_rw_tys(s, names).len() ==> no_proj_ty(
                #[trigger] spec_rw_tys(s, names)[i],
                x,
            ),
    decreases s,
{
    assert forall|i: int| 0 <= i < spec_rw_tys(s, names).len() implies no_proj_ty(
        #[trigger] spec_rw_tys(s, names)[i],
        x,
    ) by {
        lemma_rw_no_new_projection_ty(s[i], names, x);
        assert(spec_rw_tys(s, names)[i] == spec_rw_ty(s[i], names));
    }
}

/// The rewrite projects only the names it is given, on return types.
pub proof fn lemma_rw_no_new_projection_opt(
    o: Option<Box<TyV>>,
    names: Seq<Seq<char>>,
    x: Seq<char>,
)
    requires
        !names.contains(x),
        no_proj_opt(o, x),
    ensures
        no_proj_opt(spec_rw_opt(o, names), x),
    decreases o,
{
    match o {
        Option::None => {},
        Option::Some(t) => {
            lemma_rw_no_new_projection_ty(*t, names, x);
        },
    }
}

/// The rewrite projects only the names it is given, on paths.
pub proof fn lemma_rw_no_new_projection_path(p: TyPathV, names: Seq<Seq<char>>, x: Seq<char>)
    requires
        !names.contains(x),
        no_proj_path(p, x),
    ensures
        no_proj_path(spec_rw_path(p, names), x),
    decreases p,
{
    let q = spec_rw_path(p, names);
    if is_slot_ref(p, names) {
        assert(q.segments[1].ident == p.segments[0].ident);
        assert(q.segments[1].ident != x);
        assert(!is_self_projection(q, x));
        assert forall|i: int| 0 <= i < q.segments.len() implies no_proj_seg(
            #[trigger] q.segments[i],
            x,
        ) by {
            if i == 0 {
                assert(q.segments[0] == self_seg());
            } else {
                assert(q.segments[1] == p.segments[0]);
            }
        }
    } else {
        lemma_rw_no_new_projection_segs(p.segments, names, x);
        assert forall|i: int| 0 <= i < q.segments.len() implies no_proj_seg(
            #[trigger] q.segments[i],
            x,
        ) by {
            assert(q.segments[i] == spec_rw_segs(p.segments, names)[i]);
        }
        if !q.global && q.segments.len() == 2 {
            assert(q.segments[0] == spec_rw_seg(p.segments[0], names));
            assert(q.segments[1] == spec_rw_seg(p.segments[1], names));
            if q.segments[0] == self_seg() && q.segments[1].ident == x {
                assert(p.segments[0].args is NoArgs);
                assert(p.segments[0] == self_seg());
                assert(is_self_projection(p, x));
            }
        }
        assert(!is_self_projection(q, x));
    }
    assert(no_proj_path(q, x));
}

/// The rewrite projects only the names it is given, on path segments.
pub proof fn lemma_rw_no_new_projection_segs(
    s: Seq<PathSegV>,
    names: Seq<Seq<char>>,
    x: Seq<char>,
)
    requires
        !names.contains(x),
        forall|i: int| 0 <= i < s.len() ==> no_proj_seg(#[trigger] s[i], x),
    ensures
        forall|i: int|
            0 <= i < spec_rw_segs(s, names).len() ==> no_proj_seg(
                #[trigger] spec_rw_segs(s, names)[i],
                x,
            ),
    decreases s,
{
    assert forall|i: int| 0 <= i < spec_rw_segs(s, names).len() implies no_proj_seg(
        #[trigger] spec_rw_segs(s, names)[i],
        x,
    ) by {
        lemma_rw_no_new_projection_args(s[i].args, names, x);
        assert(spec_rw_segs(s, names)[i] == spec_rw_seg(s[i], names));
    }
}

/// The rewrite projects only the names it is given, on argument lists.
pub proof fn lemma_rw_no_new_projection_args(a: ArgListV, names: Seq<Seq<char>>, x: Seq<char>)
    requires
        !names.contains(x),
        no_proj_args(a, x),
    ensures
        no_proj_args(spec_rw_args(a, names), x),
    decreases a,
{
    match a {
        ArgListV::NoArgs => {},
        ArgListV::Angle { args } => {
            let rw = spec_rw_gen_args(args, names);
            assert forall|i: int| 0 <= i < rw.len() implies no_proj_gen_arg(
                #[trigger] rw[i],
                x,
            ) by {
                assert(rw[i] == spec_rw_gen_arg(args[i], names));
                assert(no_proj_gen_arg(args[i], x));
                match args[i] {
                    GenArgV::TyArg { ty } => {
                        lemma_rw_no_new_projection_ty(ty, names, x);
                    },
                    _ => {},
                }
            }
            assert(spec_rw_args(a, names) == ArgListV::Angle { args: rw });
            assert(no_proj_args(spec_rw_args(a, names), x));
        },
        ArgListV::ParenArgs { inputs, output } => {
            lemma_rw_no_new_projection_tys(inputs, names, x);
            lemma_rw_no_new_projection_opt(output, names, x);
            let rinputs = spec_rw_tys(inputs, names);
            assert(spec_rw_args(a, names) == ArgListV::ParenArgs {
                inputs: rinputs,
                output: spec_rw_opt(output, names),
            });
            assert(no_proj_args(spec_rw_args(a, names), x));
        },
    }
}

/// The rewrite projects only the names it is given, on bounds.
pub proof fn lemma_rw_no_new_projection_bound(b: BoundV, names: Seq<Seq<char>>, x: Seq<char>)
    requires
        !names.contains(x),
        no_proj_bound(b, x),
    ensures
        no_proj_bound(spec_rw_bound(b, names), x),
{
    match b {
        BoundV::TraitBound { path, .. } => {
            lemma_rw_no_new_projection_path(path, names, x);
        },
        BoundV::LifetimeBound { .. } => {},
    }
}

} // verus!
