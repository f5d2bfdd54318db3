//! The syntax model of type expressions.
//!
//! A type expression is modelled twice: once as executable data (`Ty` and its
//! companions, built from `String`, `Vec` and `Box`) and once as a
//! mathematical value (`TyV` and its companions, built from `Seq`). The
//! mathematical form is the one the contracts speak about; `deep_view`
//! connects the two.
//!
//! The model covers the structural shapes a field type can take: paths with
//! angle-bracketed or parenthesized generic arguments, references, raw
//! pointers, arrays, slices, tuples, function pointers, and grouped or
//! parenthesized forms. Trait objects, `impl Trait` types, macro invocations,
//! the never type and inferred types are represented but unsupported: the
//! rewriter rejects them outright.

use vstd::prelude::*;

verus! {

/// Generic arguments of one path segment (mathematical form).
#[verifier::ext_equal]
pub enum ArgListV {
    /// No generic arguments.
    NoArgs,
    /// Angle-bracketed arguments: `Segment<'a, T, U>`.
    Angle { args: Seq<GenArgV> },
    /// Parenthesized arguments as used by `Fn`-style bounds:
    /// `Segment(T, U) -> R`.
    ParenArgs { inputs: Seq<TyV>, output: Option<Box<TyV>> },
}

/// One path segment (mathematical form).
#[verifier::ext_equal]
pub struct PathSegV {
    pub ident: Seq<char>,
    pub args: ArgListV,
}

/// A type path (mathematical form): optional leading `::`, then segments.
#[verifier::ext_equal]
pub struct TyPathV {
    pub global: bool,
    pub segments: Seq<PathSegV>,
}

/// One generic argument (mathematical form).
#[verifier::ext_equal]
pub enum GenArgV {
    /// A lifetime argument; the name is stored without the leading tick.
    LifetimeArg { name: Seq<char> },
    /// A type argument.
    TyArg { ty: TyV },
    /// Any other kind of generic argument (a const argument, an associated
    /// type binding, an associated type constraint). The rewriter rejects it.
    OtherArg,
}

/// A type expression (mathematical form).
#[verifier::ext_equal]
pub enum TyV {
    Path { path: TyPathV },
    Reference { lifetime: Option<Seq<char>>, mutable: bool, elem: Box<TyV> },
    RawPtr { mutable: bool, elem: Box<TyV> },
    Array { elem: Box<TyV>, len_expr: Seq<char> },
    Slice { elem: Box<TyV> },
    Tuple { elems: Seq<TyV> },
    BareFn { inputs: Seq<TyV>, output: Option<Box<TyV>> },
    Group { elem: Box<TyV> },
    Paren { elem: Box<TyV> },
    TraitObject,
    ImplTrait,
    Macro,
    Never,
    Infer,
}

/// Generic arguments of one path segment.
#[derive(Debug, PartialEq, Eq)]
pub enum ArgList {
    NoArgs,
    Angle { args: Vec<GenArg> },
    ParenArgs { inputs: Vec<Ty>, output: Option<Box<Ty>> },
}

/// One path segment: an identifier plus its generic arguments.
#[derive(Debug, PartialEq, Eq)]
pub struct PathSeg {
    pub ident: String,
    pub args: ArgList,
}

/// A type path: optional leading `::`, then one or more segments.
#[derive(Debug, PartialEq, Eq)]
pub struct TyPath {
    pub global: bool,
    pub segments: Vec<PathSeg>,
}

/// One generic argument.
#[derive(Debug, PartialEq, Eq)]
pub enum GenArg {
    LifetimeArg { name: String },
    TyArg { ty: Ty },
    OtherArg,
}

/// A type expression. The `len_expr` of an array and every lifetime name are
/// carried verbatim: the logic copies them but never reads into them.
#[derive(Debug, PartialEq, Eq)]
pub enum Ty {
    Path { path: TyPath },
    Reference { lifetime: Option<String>, mutable: bool, elem: Box<Ty> },
    RawPtr { mutable: bool, elem: Box<Ty> },
    Array { elem: Box<Ty>, len_expr: String },
    Slice { elem: Box<Ty> },
    Tuple { elems: Vec<Ty> },
    BareFn { inputs: Vec<Ty>, output: Option<Box<Ty>> },
    Group { elem: Box<Ty> },
    Paren { elem: Box<Ty> },
    TraitObject,
    ImplTrait,
    Macro,
    Never,
    Infer,
}

/// One bound of a type parameter (mathematical form).
#[verifier::ext_equal]
pub enum BoundV {
    /// A trait bound: an optional higher-ranked binder carried verbatim, an
    /// optional `?` modifier, and the trait's path.
    TraitBound { binder: Option<Seq<char>>, maybe: bool, path: TyPathV },
    /// A lifetime bound; the name is stored without the leading tick.
    LifetimeBound { name: Seq<char> },
}

/// One bound of a type parameter: a trait bound or a lifetime bound.
#[derive(Debug, PartialEq, Eq)]
pub enum Bound {
    TraitBound { binder: Option<String>, maybe: bool, path: TyPath },
    LifetimeBound { name: String },
}

/// The mathematical value of one bound.
pub open spec fn bound_view(b: Bound) -> BoundV {
    match b {
        Bound::TraitBound { binder, maybe, path } => BoundV::TraitBound {
            binder: binder.deep_view(),
            maybe,
            path: path_view(path),
        },
        Bound::LifetimeBound { name } => BoundV::LifetimeBound { name: name@ },
    }
}

impl DeepView for Bound {
    type V = BoundV;

    open spec fn deep_view(&self) -> BoundV {
        bound_view(*self)
    }
}

/// The mathematical value of a sequence of type expressions.
pub open spec fn tys_view(s: Seq<Ty>) -> Seq<TyV>
    decreases s,
{
    Seq::new(s.len(), |i: int| if 0 <= i < s.len() { ty_view(s[i]) } else { TyV::Infer })
}

/// The mathematical value of a sequence of generic arguments.
pub open spec fn gen_args_view(s: Seq<GenArg>) -> Seq<GenArgV>
    decreases s,
{
    Seq::new(
        s.len(),
        |i: int| if 0 <= i < s.len() { gen_arg_view(s[i]) } else { GenArgV::OtherArg },
    )
}

/// The mathematical value of a sequence of path segments.
pub open spec fn segs_view(s: Seq<PathSeg>) -> Seq<PathSegV>
    decreases s,
{
    Seq::new(
        s.len(),
        |i: int| if 0 <= i < s.len() {
            seg_view(s[i])
        } else {
            PathSegV { ident: Seq::empty(), args: ArgListV::NoArgs }
        },
    )
}

/// The mathematical value of an optional boxed type expression.
pub open spec fn opt_ty_view(o: Option<Box<Ty>>) -> Option<Box<TyV>>
    decreases o,
{
    match o {
        Option::None => Option::None,
        Option::Some(t) => Option::Some(Box::new(ty_view(*t))),
    }
}

/// The mathematical value of a generic-argument list.
pub open spec fn arg_list_view(a: ArgList) -> ArgListV
    decreases a,
{
    match a {
        ArgList::NoArgs => ArgListV::NoArgs,
        ArgList::Angle { args } => ArgListV::Angle { args: gen_args_view(args@) },
        ArgList::ParenArgs { inputs, output } => ArgListV::ParenArgs {
            inputs: tys_view(inputs@),
            output: opt_ty_view(output),
        },
    }
}

/// The mathematical value of one path segment.
pub open spec fn seg_view(s: PathSeg) -> PathSegV
    decreases s,
{
    PathSegV { ident: s.ident@, args: arg_list_view(s.args) }
}

/// The mathematical value of a type path.
pub open spec fn path_view(p: TyPath) -> TyPathV
    decreases p,
{
    TyPathV { global: p.global, segments: segs_view(p.segments@) }
}

/// The mathematical value of one generic argument.
pub open spec fn gen_arg_view(a: GenArg) -> GenArgV
    decreases a,
{
    match a {
        GenArg::LifetimeArg { name } => GenArgV::LifetimeArg { name: name@ },
        GenArg::TyArg { ty } => GenArgV::TyArg { ty: ty_view(ty) },
        GenArg::OtherArg => GenArgV::OtherArg,
    }
}

/// The mathematical value of a type expression.
pub open spec fn ty_view(t: Ty) -> TyV
    decreases t,
{
    match t {
        Ty::Path { path } => TyV::Path { path: path_view(path) },
        Ty::Reference { lifetime, mutable, elem } => TyV::Reference {
            lifetime: lifetime.deep_view(),
            mutable,
            elem: Box::new(ty_view(*elem)),
        },
        Ty::RawPtr { mutable, elem } => TyV::RawPtr { mutable, elem: Box::new(ty_view(*elem)) },
        Ty::Array { elem, len_expr } => TyV::Array {
            elem: Box::new(ty_view(*elem)),
            len_expr: len_expr@,
        },
        Ty::Slice { elem } => TyV::Slice { elem: Box::new(ty_view(*elem)) },
        Ty::Tuple { elems } => TyV::Tuple { elems: tys_view(elems@) },
        Ty::BareFn { inputs, output } => TyV::BareFn {
            inputs: tys_view(inputs@),
            output: opt_ty_view(output),
        },
        Ty::Group { elem } => TyV::Group { elem: Box::new(ty_view(*elem)) },
        Ty::Paren { elem } => TyV::Paren { elem: Box::new(ty_view(*elem)) },
        Ty::TraitObject => TyV::TraitObject,
        Ty::ImplTrait => TyV::ImplTrait,
        Ty::Macro => TyV::Macro,
        Ty::Never => TyV::Never,
        Ty::Infer => TyV::Infer,
    }
}

impl DeepView for Ty {
    type V = TyV;

    open spec fn deep_view(&self) -> TyV {
        ty_view(*self)
    }
}

impl DeepView for PathSeg {
    type V = PathSegV;

    open spec fn deep_view(&self) -> PathSegV {
        seg_view(*self)
    }
}

impl DeepView for TyPath {
    type V = TyPathV;

    open spec fn deep_view(&self) -> TyPathV {
        path_view(*self)
    }
}

impl DeepView for GenArg {
    type V = GenArgV;

    open spec fn deep_view(&self) -> GenArgV {
        gen_arg_view(*self)
    }
}

impl DeepView for ArgList {
    type V = ArgListV;

    open spec fn deep_view(&self) -> ArgListV {
        arg_list_view(*self)
    }
}

/// Duplicates a type expression.
pub fn clone_ty(t: &Ty) -> (r: Ty)
    ensures
        r.deep_view() == t.deep_view(),
    decreases t,
{
    match t {
        Ty::Path { path } => Ty::Path { path: clone_path(path) },
        Ty::Reference { lifetime, mutable, elem } => Ty::Reference {
            lifetime: match lifetime {
                Option::Some(l) => Option::Some(l.clone()),
                Option::None => Option::None,
            },
            mutable: *mutable,
            elem: Box::new(clone_ty(elem)),
        },
        Ty::RawPtr { mutable, elem } => Ty::RawPtr {
            mutable: *mutable,
            elem: Box::new(clone_ty(elem)),
        },
        Ty::Array { elem, len_expr } => Ty::Array {
            elem: Box::new(clone_ty(elem)),
            len_expr: len_expr.clone(),
        },
        Ty::Slice { elem } => Ty::Slice { elem: Box::new(clone_ty(elem)) },
        Ty::Tuple { elems } => Ty::Tuple { elems: clone_tys(elems) },
        Ty::BareFn { inputs, output } => Ty::BareFn {
            inputs: clone_tys(inputs),
            output: clone_opt_ty(output),
        },
        Ty::Group { elem } => Ty::Group { elem: Box::new(clone_ty(elem)) },
        Ty::Paren { elem } => Ty::Paren { elem: Box::new(clone_ty(elem)) },
        Ty::TraitObject => Ty::TraitObject,
        Ty::ImplTrait => Ty::ImplTrait,
        Ty::Macro => Ty::Macro,
        Ty::Never => Ty::Never,
        Ty::Infer => Ty::Infer,
    }
}

/// Duplicates a sequence of type expressions.
pub fn clone_tys(v: &Vec<Ty>) -> (r: Vec<Ty>)
    ensures
        tys_view(r@) == tys_view(v@),
    decreases v,
{
    let mut out: Vec<Ty> = Vec::new();
    let mut i: usize = 0;
    while i < v.len()
        invariant
            0 <= i <= v@.len(),
            out@.len() == i,
            forall|j: int| 0 <= j < i ==> ty_view(#[trigger] out@[j]) == ty_view(v@[j]),
        decreases v@.len() - i,
    {
        out.push(clone_ty(&v[i]));
        i += 1;
    }
    proof {
        assert(tys_view(out@) =~= tys_view(v@));
    }
    out
}

/// Duplicates an optional return type.
pub fn clone_opt_ty(o: &Option<Box<Ty>>) -> (r: Option<Box<Ty>>)
    ensures
        opt_ty_view(r) == opt_ty_view(*o),
    decreases o,
{
    match o {
        Option::None => Option::None,
        Option::Some(t) => Option::Some(Box::new(clone_ty(t))),
    }
}

/// Duplicates a type path.
pub fn clone_path(p: &TyPath) -> (r: TyPath)
    ensures
        path_view(r) == path_view(*p),
    decreases p,
{
    let mut segments: Vec<PathSeg> = Vec::new();
    let mut i: usize = 0;
    while i < p.segments.len()
        invariant
            0 <= i <= p.segments@.len(),
            segments@.len() == i,
            forall|j: int|
                0 <= j < i ==> seg_view(#[trigger] segments@[j]) == seg_view(p.segments@[j]),
        decreases p.segments@.len() - i,
    {
        segments.push(clone_seg(&p.segments[i]));
        i += 1;
    }
    proof {
        assert(segs_view(segments@) =~= segs_view(p.segments@));
    }
    TyPath { global: p.global, segments }
}

/// Duplicates one path segment.
pub fn clone_seg(s: &PathSeg) -> (r: PathSeg)
    ensures
        seg_view(r) == seg_view(*s),
    decreases s,
{
    PathSeg { ident: s.ident.clone(), args: clone_args(&s.args) }
}

/// Duplicates a generic-argument list.
pub fn clone_args(a: &ArgList) -> (r: ArgList)
    ensures
        arg_list_view(r) == arg_list_view(*a),
    decreases a,
{
    match a {
        ArgList::NoArgs => ArgList::NoArgs,
        ArgList::Angle { args } => ArgList::Angle { args: clone_gen_args(args) },
        ArgList::ParenArgs { inputs, output } => ArgList::ParenArgs {
            inputs: clone_tys(inputs),
            output: clone_opt_ty(output),
        },
    }
}

/// Duplicates a sequence of generic arguments.
pub fn clone_gen_args(v: &Vec<GenArg>) -> (r: Vec<GenArg>)
    ensures
        gen_args_view(r@) == gen_args_view(v@),
    decreases v,
{
    let mut out: Vec<GenArg> = Vec::new();
    let mut i: usize = 0;
    while i < v.len()
        invariant
            0 <= i <= v@.len(),
            out@.len() == i,
            forall|j: int| 0 <= j < i ==> gen_arg_view(#[trigger] out@[j]) == gen_arg_view(v@[j]),
        decreases v@.len() - i,
    {
        out.push(clone_gen_arg(&v[i]));
        i += 1;
    }
    proof {
        assert(gen_args_view(out@) =~= gen_args_view(v@));
    }
    out
}

/// Duplicates one generic argument.
pub fn clone_gen_arg(a: &GenArg) -> (r: GenArg)
    ensures
        gen_arg_view(r) == gen_arg_view(*a),
    decreases a,
{
    match a {
        GenArg::LifetimeArg { name } => GenArg::LifetimeArg { name: name.clone() },
        GenArg::TyArg { ty } => GenArg::TyArg { ty: clone_ty(ty) },
        GenArg::OtherArg => GenArg::OtherArg,
    }
}

/// Duplicates one bound.
pub fn clone_bound(b: &Bound) -> (r: Bound)
    ensures
        bound_view(r) == bound_view(*b),
{
    match b {
        Bound::TraitBound { binder, maybe, path } => Bound::TraitBound {
            binder: match binder {
                Option::Some(x) => Option::Some(x.clone()),
                Option::None => Option::None,
            },
            maybe: *maybe,
            path: clone_path(path),
        },
        Bound::LifetimeBound { name } => Bound::LifetimeBound { name: name.clone() },
    }
}

/// The mathematical value of a sequence of bounds.
pub open spec fn bounds_view(s: Seq<Bound>) -> Seq<BoundV> {
    Seq::new(
        s.len(),
        |i: int| if 0 <= i < s.len() {
            bound_view(s[i])
        } else {
            BoundV::LifetimeBound { name: Seq::empty() }
        },
    )
}

/// Duplicates a sequence of bounds.
pub fn clone_bounds(v: &Vec<Bound>) -> (r: Vec<Bound>)
    ensures
        bounds_view(r@) == bounds_view(v@),
{
    let mut out: Vec<Bound> = Vec::new();
    let mut i: usize = 0;
    while i < v.len()
        invariant
            0 <= i <= v@.len(),
            out@.len() == i,
            forall|j: int| 0 <= j < i ==> bound_view(#[trigger] out@[j]) == bound_view(v@[j]),
        decreases v@.len() - i,
    {
        out.push(clone_bound(&v[i]));
        i += 1;
    }
    proof {
        assert(bounds_view(out@) =~= bounds_view(v@));
    }
    out
}

} // verus!
