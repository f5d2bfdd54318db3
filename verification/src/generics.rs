//! Generic parameters, `where`-clause predicates, and their resolution into
//! the synthesized interface's shape: associated-slot declarations for hidden
//! type parameters, and the interface's own (preserved) parameter list.
//!
//! A hidden type parameter's effective bound set merges its inline bounds
//! with every bound from a `where`-clause predicate whose bounded type is
//! exactly that parameter's bare identifier — inline bounds first, then
//! `where`-clause bounds in declaration order. Each merged bound is then
//! rewritten through the type-expression rewriter, so a bound that mentions
//! another hidden parameter projects through the implementing type instead
//! of dangling.

use vstd::prelude::*;

use crate::args::{
    parse_degeneric_args, spec_has_preserve, spec_parse_degeneric_args, DegenericTypeAttrs,
    RawAttr, RawAttrV,
};
use crate::errors::{GenError, UnsupportedShapeError};
use crate::ty::{
    bound_view, bounds_view, clone_bound, clone_bounds, ty_view, Bound, BoundV, Ty, TyV,
};
use crate::type_tools::associated::{
    bound_to_associated_ty, spec_rw_bound, spec_rw_ok_bound,
};

verus! {

/// A type parameter of the declaration (mathematical form).
#[verifier::ext_equal]
pub struct TypeParamDeclV {
    pub ident: Seq<char>,
    pub bounds: Seq<BoundV>,
    pub attrs: Seq<RawAttrV>,
}

/// A type parameter of the declaration: its identifier, inline bounds, and
/// raw attributes (which may carry directives).
#[derive(Debug, PartialEq, Eq)]
pub struct TypeParamDecl {
    pub ident: String,
    pub bounds: Vec<Bound>,
    pub attrs: Vec<RawAttr>,
}

impl DeepView for TypeParamDecl {
    type V = TypeParamDeclV;

    open spec fn deep_view(&self) -> TypeParamDeclV {
        TypeParamDeclV {
            ident: self.ident@,
            bounds: bounds_view(self.bounds@),
            attrs: self.attrs.deep_view(),
        }
    }
}

/// A lifetime parameter of the declaration (mathematical form).
#[verifier::ext_equal]
pub struct LifetimeParamDeclV {
    pub name: Seq<char>,
    pub bounds: Seq<Seq<char>>,
}

/// A lifetime parameter of the declaration: its name (without the leading
/// tick) and the lifetimes bounding it.
#[derive(Debug, PartialEq, Eq)]
pub struct LifetimeParamDecl {
    pub name: String,
    pub bounds: Vec<String>,
}

impl DeepView for LifetimeParamDecl {
    type V = LifetimeParamDeclV;

    open spec fn deep_view(&self) -> LifetimeParamDeclV {
        LifetimeParamDeclV { name: self.name@, bounds: self.bounds.deep_view() }
    }
}

/// One generic parameter of the declaration (mathematical form).
#[verifier::ext_equal]
pub enum GenericParamDeclV {
    TypeParam { tp: TypeParamDeclV },
    LifetimeParam { lp: LifetimeParamDeclV },
    ConstParam { span: usize },
}

/// One generic parameter of the declaration. A const parameter is carried
/// only far enough to be rejected: its semantics are not modelled.
#[derive(Debug, PartialEq, Eq)]
pub enum GenericParamDecl {
    TypeParam(TypeParamDecl),
    LifetimeParam(LifetimeParamDecl),
    ConstParam { span: usize },
}

impl DeepView for GenericParamDecl {
    type V = GenericParamDeclV;

    open spec fn deep_view(&self) -> GenericParamDeclV {
        match self {
            GenericParamDecl::TypeParam(tp) => GenericParamDeclV::TypeParam {
                tp: tp.deep_view(),
            },
            GenericParamDecl::LifetimeParam(lp) => GenericParamDeclV::LifetimeParam {
                lp: lp.deep_view(),
            },
            GenericParamDecl::ConstParam { span } => GenericParamDeclV::ConstParam { span: *span },
        }
    }
}

/// One `where`-clause predicate (mathematical form).
#[verifier::ext_equal]
pub enum WherePredV {
    TypePred { bounded: TyV, bounds: Seq<BoundV> },
    LifetimePred { lifetime: Seq<char>, bounds: Seq<Seq<char>> },
}

/// One `where`-clause predicate: a bounded type with its bounds, or a
/// bounded lifetime with its lifetime bounds.
#[derive(Debug, PartialEq, Eq)]
pub enum WherePred {
    TypePred { bounded: Ty, bounds: Vec<Bound> },
    LifetimePred { lifetime: String, bounds: Vec<String> },
}

impl DeepView for WherePred {
    type V = WherePredV;

    open spec fn deep_view(&self) -> WherePredV {
        match self {
            WherePred::TypePred { bounded, bounds } => WherePredV::TypePred {
                bounded: ty_view(*bounded),
                bounds: bounds_view(bounds@),
            },
            WherePred::LifetimePred { lifetime, bounds } => WherePredV::LifetimePred {
                lifetime: lifetime@,
                bounds: bounds.deep_view(),
            },
        }
    }
}

/// The identifier of a type that is a bare, argument-free, non-global
/// single-segment path — the only shape a `where`-clause predicate can bound
/// for it to count towards a type parameter.
pub open spec fn spec_ident_of_ty(t: TyV) -> Option<Seq<char>> {
    match t {
        TyV::Path { path } => if !path.global && path.segments.len() == 1 && path.segments[0].args
            is NoArgs {
            Option::Some(path.segments[0].ident)
        } else {
            Option::None
        },
        _ => Option::None,
    }
}

/// Whether a type is the bare identifier `id`.
pub fn is_bare_ident(t: &Ty, id: &String) -> (r: bool)
    ensures
        r == (spec_ident_of_ty(t.deep_view()) == Option::Some(id@)),
{
    match t {
        Ty::Path { path } => {
            proof {
                assert(t.deep_view() == TyV::Path { path: crate::ty::path_view(*path) });
                assert(crate::ty::path_view(*path).segments.len() == path.segments@.len());
            }
            if !path.global && path.segments.len() == 1 {
                let seg = &path.segments[0];
                proof {
                    assert(crate::ty::path_view(*path).segments[0] == crate::ty::seg_view(
                        path.segments@[0],
                    ));
                }
                if matches!(&seg.args, crate::ty::ArgList::NoArgs) {
                    crate::textscan::str_eq(seg.ident.as_str(), id.as_str())
                } else {
                    false
                }
            } else {
                false
            }
        },
        _ => false,
    }
}

/// The bounds the `where` clause contributes to the type parameter named
/// `ident`, in declaration order.
pub open spec fn spec_where_bounds_for(preds: Seq<WherePredV>, ident: Seq<char>) -> Seq<BoundV>
    decreases preds.len(),
{
    if preds.len() == 0 {
        Seq::empty()
    } else {
        spec_where_bounds_for(preds.drop_last(), ident) + (match preds.last() {
            WherePredV::TypePred { bounded, bounds } => if spec_ident_of_ty(bounded)
                == Option::Some(ident) {
                bounds
            } else {
                Seq::empty()
            },
            _ => Seq::empty(),
        })
    }
}

/// The effective bound set of a type parameter: inline bounds first, then
/// the matching `where`-clause bounds in declaration order.
pub open spec fn spec_param_bounds(tp: TypeParamDeclV, preds: Seq<WherePredV>) -> Seq<BoundV> {
    tp.bounds + spec_where_bounds_for(preds, tp.ident)
}

/// One step of `spec_where_bounds_for` along a prefix.
proof fn lemma_where_bounds_step(preds: Seq<WherePredV>, ident: Seq<char>, i: int)
    requires
        0 <= i < preds.len(),
    ensures
        spec_where_bounds_for(preds.take(i + 1), ident) == spec_where_bounds_for(
            preds.take(i),
            ident,
        ) + (match preds[i] {
            WherePredV::TypePred { bounded, bounds } => if spec_ident_of_ty(bounded)
                == Option::Some(ident) {
                bounds
            } else {
                Seq::empty()
            },
            _ => Seq::empty(),
        }),
{
    assert(preds.take(i + 1).drop_last() =~= preds.take(i));
    assert(preds.take(i + 1).last() == preds[i]);
}

/// Builds the effective bound set of a type parameter, unrewritten.
fn merged_param_bounds(tp: &TypeParamDecl, preds: &Vec<WherePred>) -> (r: Vec<Bound>)
    ensures
        bounds_view(r@) == spec_param_bounds(tp.deep_view(), preds.deep_view()),
{
    let ghost pv = preds.deep_view();
    let mut out = clone_bounds(&tp.bounds);
    proof {
        assert(pv.take(0) =~= Seq::<WherePredV>::empty());
        assert(bounds_view(out@) =~= bounds_view(tp.bounds@) + spec_where_bounds_for(
            pv.take(0),
            tp.ident@,
        ));
    }
    let mut k: usize = 0;
    while k < preds.len()
        invariant
            0 <= k <= preds@.len(),
            pv == preds.deep_view(),
            pv.len() == preds@.len(),
            bounds_view(out@) == bounds_view(tp.bounds@) + spec_where_bounds_for(
                pv.take(k as int),
                tp.ident@,
            ),
        decreases preds@.len() - k,
    {
        proof {
            lemma_where_bounds_step(pv, tp.ident@, k as int);
            assert(pv[k as int] == preds@[k as int].deep_view());
        }
        let ghost pre = bounds_view(out@);
        match &preds[k] {
            WherePred::TypePred { bounded, bounds } => {
                if is_bare_ident(bounded, &tp.ident) {
                    let mut j: usize = 0;
                    while j < bounds.len()
                        invariant
                            0 <= j <= bounds@.len(),
                            bounds_view(out@) == pre + bounds_view(bounds@).take(j as int),
                        decreases bounds@.len() - j,
                    {
                        let ghost mid = bounds_view(out@);
                        out.push(clone_bound(&bounds[j]));
                        proof {
                            assert(bounds_view(out@) =~= mid.push(bound_view(bounds@[j as int])));
                            assert(bounds_view(bounds@).take(j as int + 1) =~= bounds_view(
                                bounds@,
                            ).take(j as int).push(bound_view(bounds@[j as int])));
                            assert(bounds_view(out@) =~= pre + bounds_view(bounds@).take(
                                j as int + 1,
                            ));
                        }
                        j += 1;
                    }
                    proof {
                        assert(bounds_view(bounds@).take(bounds@.len() as int) =~= bounds_view(
                            bounds@,
                        ));
                        assert(bounds_view(out@) =~= bounds_view(tp.bounds@)
                            + spec_where_bounds_for(pv.take(k as int + 1), tp.ident@));
                    }
                }
            },
            _ => {},
        }
        proof {
            assert(bounds_view(out@) =~= bounds_view(tp.bounds@) + spec_where_bounds_for(
                pv.take(k as int + 1),
                tp.ident@,
            ));
        }
        k += 1;
    }
    proof {
        assert(pv.take(preds@.len() as int) =~= pv);
    }
    out
}

/// The elementwise rewritten form of a bound set.
pub open spec fn spec_rw_bounds(bs: Seq<BoundV>, names: Seq<Seq<char>>) -> Seq<BoundV> {
    Seq::new(
        bs.len(),
        |i: int| if 0 <= i < bs.len() {
            spec_rw_bound(bs[i], names)
        } else {
            BoundV::LifetimeBound { name: Seq::empty() }
        },
    )
}

/// Whether the rewriter accepts every bound of a set.
pub open spec fn spec_rw_ok_bounds(bs: Seq<BoundV>) -> bool {
    forall|i: int| 0 <= i < bs.len() ==> spec_rw_ok_bound(#[trigger] bs[i])
}

/// An associated-slot declaration (mathematical form).
#[verifier::ext_equal]
pub struct AssociatedTypeV {
    pub attrs: Seq<Seq<char>>,
    pub ident: Seq<char>,
    pub bounds: Seq<BoundV>,
}

/// An associated-slot declaration of the synthesized interface: one per
/// hidden type parameter, named after it, carrying the parameter's forwarded
/// attributes and its resolved, rewritten bound set. An empty bound set
/// emits no bound annotation at all.
#[derive(Debug, PartialEq, Eq)]
pub struct AssociatedType {
    pub attrs: Vec<String>,
    pub ident: String,
    pub bounds: Vec<Bound>,
}

impl DeepView for AssociatedType {
    type V = AssociatedTypeV;

    open spec fn deep_view(&self) -> AssociatedTypeV {
        AssociatedTypeV {
            attrs: self.attrs.deep_view(),
            ident: self.ident@,
            bounds: bounds_view(self.bounds@),
        }
    }
}

/// The verbatim texts of the non-directive attributes in a raw-attribute
/// list, in order.
pub open spec fn spec_other_attr_texts(attrs: Seq<RawAttrV>) -> Seq<Seq<char>>
    decreases attrs.len(),
{
    if attrs.len() == 0 {
        Seq::empty()
    } else {
        spec_other_attr_texts(attrs.drop_last()) + (match attrs.last() {
            RawAttrV::Other { text, .. } => seq![text],
            _ => Seq::empty(),
        })
    }
}

/// Collects the verbatim texts of the non-directive attributes, in order.
pub fn other_attr_texts(attrs: &Vec<RawAttr>) -> (r: Vec<String>)
    ensures
        r.deep_view() == spec_other_attr_texts(attrs.deep_view()),
{
    let ghost av = attrs.deep_view();
    let mut out: Vec<String> = Vec::new();
    proof {
        assert(av.take(0) =~= Seq::<RawAttrV>::empty());
        assert(out.deep_view() =~= Seq::<Seq<char>>::empty());
    }
    let mut i: usize = 0;
    while i < attrs.len()
        invariant
            0 <= i <= attrs@.len(),
            av == attrs.deep_view(),
            av.len() == attrs@.len(),
            out.deep_view() == spec_other_attr_texts(av.take(i as int)),
        decreases attrs@.len() - i,
    {
        proof {
            assert(av.take(i as int + 1).drop_last() =~= av.take(i as int));
            assert(av.take(i as int + 1).last() == av[i as int]);
            assert(av[i as int] == attrs@[i as int].deep_view());
        }
        let ghost pre = out.deep_view();
        match &attrs[i] {
            RawAttr::Other { text, .. } => {
                out.push(text.clone());
                proof {
                    assert(out.deep_view() =~= pre.push(text@));
                }
            },
            _ => {},
        }
        proof {
            assert(out.deep_view() =~= spec_other_attr_texts(av.take(i as int + 1)));
        }
        i += 1;
    }
    proof {
        assert(av.take(attrs@.len() as int) =~= av);
    }
    out
}

/// The associated slot a hidden type parameter resolves to: its name, its
/// forwarded attributes, and its merged, rewritten bound set.
pub open spec fn spec_associated_type(
    tp: TypeParamDeclV,
    preds: Seq<WherePredV>,
    names: Seq<Seq<char>>,
) -> AssociatedTypeV {
    AssociatedTypeV {
        attrs: spec_other_attr_texts(tp.attrs),
        ident: tp.ident,
        bounds: spec_rw_bounds(spec_param_bounds(tp, preds), names),
    }
}

impl AssociatedType {
    /// Resolves one hidden type parameter into its associated slot: merges
    /// the inline bounds with the matching `where`-clause bounds, and
    /// rewrites each through the slot-projection rule; fails if a bound uses
    /// a shape the rewriter does not understand.
    pub fn from_parts(
        tp: &TypeParamDecl,
        preds: &Vec<WherePred>,
        generic_idents: &Vec<String>,
    ) -> (r: Result<AssociatedType, UnsupportedShapeError>)
        ensures
            r is Ok <==> spec_rw_ok_bounds(spec_param_bounds(tp.deep_view(), preds.deep_view())),
            r matches Ok(at) ==> at.deep_view() == spec_associated_type(
                tp.deep_view(),
                preds.deep_view(),
                generic_idents.deep_view(),
            ),
    {
        let merged = merged_param_bounds(tp, preds);
        let ghost mv = bounds_view(merged@);
        let mut out: Vec<Bound> = Vec::new();
        let mut i: usize = 0;
        while i < merged.len()
            invariant
                0 <= i <= merged@.len(),
                mv == bounds_view(merged@),
                mv.len() == merged@.len(),
                mv == spec_param_bounds(tp.deep_view(), preds.deep_view()),
                out@.len() == i,
                forall|j: int| 0 <= j < i ==> spec_rw_ok_bound(mv[j]),
                forall|j: int|
                    0 <= j < i ==> bound_view(#[trigger] out@[j]) == spec_rw_bound(
                        mv[j],
                        generic_idents.deep_view(),
                    ),
            decreases merged@.len() - i,
        {
            proof {
                assert(mv[i as int] == bound_view(merged@[i as int]));
            }
            match bound_to_associated_ty(&merged[i], generic_idents) {
                Result::Ok(b) => {
                    out.push(b);
                },
                Result::Err(e) => {
                    return Result::Err(e);
                },
            }
            i += 1;
        }
        proof {
            assert(bounds_view(out@) =~= spec_rw_bounds(mv, generic_idents.deep_view()));
        }
        Result::Ok(AssociatedType { attrs: other_attr_texts(&tp.attrs), ident: tp.ident.clone(), bounds: out })
    }
}

/// The lifetime bounds the `where` clause contributes to the lifetime named
/// `name`, in declaration order.
pub open spec fn spec_where_lt_bounds(preds: Seq<WherePredV>, name: Seq<char>) -> Seq<Seq<char>>
    decreases preds.len(),
{
    if preds.len() == 0 {
        Seq::empty()
    } else {
        spec_where_lt_bounds(preds.drop_last(), name) + (match preds.last() {
            WherePredV::LifetimePred { lifetime, bounds } => if lifetime == name {
                bounds
            } else {
                Seq::empty()
            },
            _ => Seq::empty(),
        })
    }
}

/// One step of `spec_where_lt_bounds` along a prefix.
proof fn lemma_where_lt_bounds_step(preds: Seq<WherePredV>, name: Seq<char>, i: int)
    requires
        0 <= i < preds.len(),
    ensures
        spec_where_lt_bounds(preds.take(i + 1), name) == spec_where_lt_bounds(preds.take(i), name)
            + (match preds[i] {
            WherePredV::LifetimePred { lifetime, bounds } => if lifetime == name {
                bounds
            } else {
                Seq::empty()
            },
            _ => Seq::empty(),
        }),
{
    assert(preds.take(i + 1).drop_last() =~= preds.take(i));
    assert(preds.take(i + 1).last() == preds[i]);
}

/// A lifetime parameter with the matching `where`-clause bounds merged in.
pub open spec fn spec_lifetime_merged(
    lp: LifetimeParamDeclV,
    preds: Seq<WherePredV>,
) -> LifetimeParamDeclV {
    LifetimeParamDeclV { name: lp.name, bounds: lp.bounds + spec_where_lt_bounds(preds, lp.name) }
}

/// A type parameter with its attributes dropped, the form in which it is
/// repeated on emitted items.
pub open spec fn spec_strip_param(tp: TypeParamDeclV) -> TypeParamDeclV {
    TypeParamDeclV { ident: tp.ident, bounds: tp.bounds, attrs: Seq::empty() }
}

/// The synthesized interface's own generic parameters: every lifetime
/// parameter (with its `where`-clause bounds merged in), and every type
/// parameter marked preserved; hidden type parameters are left out, and a
/// const parameter is rejected.
pub open spec fn spec_trait_generics(
    gs: Seq<GenericParamDeclV>,
    preds: Seq<WherePredV>,
) -> Result<Seq<GenericParamDeclV>, GenError>
    decreases gs.len(),
{
    if gs.len() == 0 {
        Result::Ok(Seq::empty())
    } else {
        match spec_trait_generics(gs.drop_last(), preds) {
            Result::Err(e) => Result::Err(e),
            Result::Ok(pre) => match gs.last() {
                GenericParamDeclV::LifetimeParam { lp } => Result::Ok(
                    pre.push(
                        GenericParamDeclV::LifetimeParam { lp: spec_lifetime_merged(lp, preds) },
                    ),
                ),
                GenericParamDeclV::TypeParam { tp } => match spec_parse_degeneric_args(tp.attrs) {
                    Result::Err(e) => Result::Err(e),
                    Result::Ok(args) => if spec_has_preserve(args) {
                        Result::Ok(
                            pre.push(GenericParamDeclV::TypeParam { tp: spec_strip_param(tp) }),
                        )
                    } else {
                        Result::Ok(pre)
                    },
                },
                GenericParamDeclV::ConstParam { span } => Result::Err(
                    GenError::UnsupportedShape { span },
                ),
            },
        }
    }
}

/// The generic parameters of the synthesized interface.
#[derive(Debug, PartialEq, Eq)]
pub struct TraitGenerics(pub Vec<GenericParamDecl>);

impl DeepView for TraitGenerics {
    type V = Seq<GenericParamDeclV>;

    open spec fn deep_view(&self) -> Seq<GenericParamDeclV> {
        self.0.deep_view()
    }
}

/// Merges a lifetime parameter's bounds with the matching `where`-clause
/// lifetime bounds.
fn merged_lifetime_bounds(lp: &LifetimeParamDecl, preds: &Vec<WherePred>) -> (r: Vec<String>)
    ensures
        r.deep_view() == lp.deep_view().bounds + spec_where_lt_bounds(
            preds.deep_view(),
            lp.name@,
        ),
{
    let ghost pv = preds.deep_view();
    let mut out: Vec<String> = Vec::new();
    let mut i: usize = 0;
    while i < lp.bounds.len()
        invariant
            0 <= i <= lp.bounds@.len(),
            out@.len() == i,
            forall|j: int| 0 <= j < i ==> #[trigger] out@[j]@ == lp.bounds@[j]@,
        decreases lp.bounds@.len() - i,
    {
        out.push(lp.bounds[i].clone());
        i += 1;
    }
    proof {
        assert(out.deep_view() =~= lp.deep_view().bounds + spec_where_lt_bounds(
            pv.take(0),
            lp.name@,
        ));
    }
    let mut k: usize = 0;
    while k < preds.len()
        invariant
            0 <= k <= preds@.len(),
            pv == preds.deep_view(),
            pv.len() == preds@.len(),
            out.deep_view() == lp.deep_view().bounds + spec_where_lt_bounds(
                pv.take(k as int),
                lp.name@,
            ),
        decreases preds@.len() - k,
    {
        proof {
            lemma_where_lt_bounds_step(pv, lp.name@, k as int);
            assert(pv[k as int] == preds@[k as int].deep_view());
        }
        let ghost pre = out.deep_view();
        match &preds[k] {
            WherePred::LifetimePred { lifetime, bounds } => {
                if crate::textscan::str_eq(lifetime.as_str(), lp.name.as_str()) {
                    let mut j: usize = 0;
                    while j < bounds.len()
                        invariant
                            0 <= j <= bounds@.len(),
                            out.deep_view() == pre + bounds.deep_view().take(j as int),
                        decreases bounds@.len() - j,
                    {
                        let ghost mid = out.deep_view();
                        out.push(bounds[j].clone());
                        proof {
                            assert(out.deep_view() =~= mid.push(bounds@[j as int]@));
                            assert(bounds.deep_view().take(j as int + 1) =~= bounds.deep_view()
                                .take(j as int).push(bounds@[j as int]@));
                            assert(out.deep_view() =~= pre + bounds.deep_view().take(j as int + 1));
                        }
                        j += 1;
                    }
                    proof {
                        assert(bounds.deep_view().take(bounds@.len() as int) =~= bounds
                            .deep_view());
                    }
                }
            },
            _ => {},
        }
        proof {
            assert(out.deep_view() =~= lp.deep_view().bounds + spec_where_lt_bounds(
                pv.take(k as int + 1),
                lp.name@,
            ));
        }
        k += 1;
    }
    proof {
        assert(pv.take(preds@.len() as int) =~= pv);
    }
    out
}

impl TraitGenerics {
    /// Builds the synthesized interface's generic parameter list: lifetimes
    /// with their `where`-clause bounds merged in, and preserved type
    /// parameters; fails on a malformed directive or a const parameter.
    pub fn from_parts(generics: &Vec<GenericParamDecl>, preds: &Vec<WherePred>) -> (r: Result<
        TraitGenerics,
        GenError,
    >)
        ensures
            r matches Ok(tg) ==> spec_trait_generics(generics.deep_view(), preds.deep_view())
                == Result::<Seq<GenericParamDeclV>, GenError>::Ok(tg.deep_view()),
            r matches Err(e) ==> spec_trait_generics(generics.deep_view(), preds.deep_view())
                == Result::<Seq<GenericParamDeclV>, GenError>::Err(e),
    {
        let ghost gv = generics.deep_view();
        let ghost pv = preds.deep_view();
        let mut out: Vec<GenericParamDecl> = Vec::new();
        proof {
            assert(gv.take(0) =~= Seq::<GenericParamDeclV>::empty());
            assert(out.deep_view() =~= Seq::<GenericParamDeclV>::empty());
        }
        let mut i: usize = 0;
        while i < generics.len()
            invariant
                0 <= i <= generics@.len(),
                gv == generics.deep_view(),
                pv == preds.deep_view(),
                gv.len() == generics@.len(),
                spec_trait_generics(gv.take(i as int), pv) == Result::<
                    Seq<GenericParamDeclV>,
                    GenError,
                >::Ok(out.deep_view()),
            decreases generics@.len() - i,
        {
            proof {
                assert(gv.take(i as int + 1).drop_last() =~= gv.take(i as int));
                assert(gv.take(i as int + 1).last() == gv[i as int]);
                assert(gv[i as int] == generics@[i as int].deep_view());
            }
            let ghost pre = out.deep_view();
            match &generics[i] {
                GenericParamDecl::LifetimeParam(lp) => {
                    let merged = merged_lifetime_bounds(lp, preds);
                    out.push(
                        GenericParamDecl::LifetimeParam(
                            LifetimeParamDecl { name: lp.name.clone(), bounds: merged },
                        ),
                    );
                    proof {
                        assert(out.deep_view() =~= pre.push(
                            GenericParamDeclV::LifetimeParam {
                                lp: spec_lifetime_merged(lp.deep_view(), pv),
                            },
                        ));
                    }
                },
                GenericParamDecl::TypeParam(tp) => {
                    match parse_degeneric_args(&tp.attrs) {
                        Result::Err(e) => {
                            proof {
                                lemma_trait_generics_err_extends(gv, pv, i as int + 1);
                            }
                            return Result::Err(e);
                        },
                        Result::Ok(args) => {
                            let ta = DegenericTypeAttrs::from_args(&args);
                            if ta.preserve {
                                out.push(
                                    GenericParamDecl::TypeParam(
                                        TypeParamDecl {
                                            ident: tp.ident.clone(),
                                            bounds: clone_bounds(&tp.bounds),
                                            attrs: Vec::new(),
                                        },
                                    ),
                                );
                                proof {
                                    assert(out@.last().deep_view()
                                        == (GenericParamDeclV::TypeParam {
                                        tp: spec_strip_param(tp.deep_view()),
                                    }));
                                    assert(out.deep_view() =~= pre.push(
                                        GenericParamDeclV::TypeParam {
                                            tp: spec_strip_param(tp.deep_view()),
                                        },
                                    ));
                                }
                            }
                        },
                    }
                },
                GenericParamDecl::ConstParam { span } => {
                    let err = GenError::UnsupportedShape { span: *span };
                    proof {
                        lemma_trait_generics_err_extends(gv, pv, i as int + 1);
                    }
                    return Result::Err(err);
                },
            }
            proof {
                assert(spec_trait_generics(gv.take(i as int + 1), pv) == Result::<
                    Seq<GenericParamDeclV>,
                    GenError,
                >::Ok(out.deep_view()));
            }
            i += 1;
        }
        proof {
            assert(gv.take(generics@.len() as int) =~= gv);
        }
        Result::Ok(TraitGenerics(out))
    }
}

/// A failing prefix decides the whole parameter list.
proof fn lemma_trait_generics_err_extends(gs: Seq<GenericParamDeclV>, preds: Seq<WherePredV>, n: int)
    requires
        0 <= n <= gs.len(),
        spec_trait_generics(gs.take(n), preds) is Err,
    ensures
        spec_trait_generics(gs, preds) == spec_trait_generics(gs.take(n), preds),
    decreases gs.len(),
{
    if n == gs.len() {
        assert(gs.take(n) =~= gs);
    } else {
        assert(gs.drop_last().take(n) =~= gs.take(n));
        lemma_trait_generics_err_extends(gs.drop_last(), preds, n);
    }
}

/// No matching predicate, no contribution.
proof fn lemma_where_bounds_empty(preds: Seq<WherePredV>, ident: Seq<char>)
    requires
        forall|i: int|
            0 <= i < preds.len() ==> !(match #[trigger] preds[i] {
                WherePredV::TypePred { bounded, .. } => spec_ident_of_ty(bounded) == Option::Some(
                    ident,
                ),
                _ => false,
            }),
    ensures
        spec_where_bounds_for(preds, ident).len() == 0,
    decreases preds.len(),
{
    if preds.len() > 0 {
        lemma_where_bounds_empty(preds.drop_last(), ident);
    }
}

/// A hidden type parameter with no inline bounds and no matching
/// `where`-clause predicate resolves to an associated slot whose bound set is
/// empty — so no bound annotation is emitted for it at all.
pub proof fn lemma_unbounded_slot(
    tp: TypeParamDeclV,
    preds: Seq<WherePredV>,
    names: Seq<Seq<char>>,
)
    requires
        tp.bounds.len() == 0,
        forall|i: int|
            0 <= i < preds.len() ==> !(match #[trigger] preds[i] {
                WherePredV::TypePred { bounded, .. } => spec_ident_of_ty(bounded) == Option::Some(
                    tp.ident,
                ),
                _ => false,
            }),
    ensures
        spec_associated_type(tp, preds, names).bounds.len() == 0,
{
    lemma_where_bounds_empty(preds, tp.ident);
}

} // verus!
