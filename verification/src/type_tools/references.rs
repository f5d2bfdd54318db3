//! Mutability classification and reference construction.
//!
//! An accessor that hands out a mutable borrow only makes sense for a field
//! whose type is not itself an immutable reference or pointer; and the return
//! type of an accessor is the field type wrapped in a reference of the wanted
//! mutability, where a type that already is a reference or pointer has its
//! mutability adjusted in place rather than being wrapped a second time.

use vstd::prelude::*;

use crate::errors::AccessorTypeError;
use crate::ty::{ty_view, Ty, TyV};
use crate::type_tools::associated::no_proj_ty;

verus! {

/// Whether a mutable accessor may be synthesized for a field of this type:
/// an immutable reference and an immutable raw pointer are excluded, every
/// other shape is eligible.
pub open spec fn spec_can_be_made_mutable(t: TyV) -> bool {
    match t {
        TyV::Reference { mutable, .. } => mutable,
        TyV::RawPtr { mutable, .. } => mutable,
        _ => true,
    }
}

/// Whether `spec_make_reference` is defined on this type: everything but the
/// never type (also looked for under parentheses) can be referenced.
pub open spec fn spec_make_reference_ok(t: TyV) -> bool
    decreases t,
{
    match t {
        TyV::Paren { elem } => spec_make_reference_ok(*elem),
        TyV::Never => false,
        _ => true,
    }
}

/// The reference form of a type: a reference or raw pointer has its
/// mutability adjusted in place, a parenthesized type is adjusted inside the
/// parentheses, and every other shape is wrapped in a plain reference of the
/// requested mutability.
pub open spec fn spec_make_reference(t: TyV, mutable: bool) -> TyV
    decreases t,
{
    match t {
        TyV::Reference { lifetime, mutable: _, elem } => TyV::Reference {
            lifetime,
            mutable,
            elem,
        },
        TyV::RawPtr { mutable: _, elem } => TyV::RawPtr { mutable, elem },
        TyV::Paren { elem } => TyV::Paren { elem: Box::new(spec_make_reference(*elem, mutable)) },
        _ => TyV::Reference { lifetime: Option::None, mutable, elem: Box::new(t) },
    }
}

/// Decides whether a mutable accessor may be synthesized for a field of type
/// `t`: a reference type only if declared mutable, a raw pointer type only if
/// declared mutable, every other shape is eligible.
pub fn can_be_made_mutable(t: &Ty) -> (r: bool)
    ensures
        r == spec_can_be_made_mutable(t.deep_view()),
{
    match t {
        Ty::Reference { mutable, .. } => *mutable,
        Ty::RawPtr { mutable, .. } => *mutable,
        _ => true,
    }
}

/// Wraps `t` in a reference of the requested mutability, adjusting the
/// existing annotation in place when `t` already is a reference, a raw
/// pointer or a parenthesized form, and failing on a shape that cannot
/// sensibly be referenced.
pub fn make_reference(t: Ty, mutable: bool) -> (r: Result<Ty, AccessorTypeError>)
    ensures
        r is Ok <==> spec_make_reference_ok(t.deep_view()),
        r matches Ok(rt) ==> rt.deep_view() == spec_make_reference(t.deep_view(), mutable),
    decreases t,
{
    match t {
        Ty::Reference { lifetime, mutable: _, elem } => Ok(
            Ty::Reference { lifetime, mutable, elem },
        ),
        Ty::RawPtr { mutable: _, elem } => Ok(Ty::RawPtr { mutable, elem }),
        Ty::Paren { elem } => match make_reference(*elem, mutable) {
            Ok(inner) => Ok(Ty::Paren { elem: Box::new(inner) }),
            Err(e) => Err(e),
        },
        Ty::Never => Err(AccessorTypeError),
        other => Ok(
            Ty::Reference { lifetime: Option::None, mutable, elem: Box::new(other) },
        ),
    }
}

/// Wrapping a type as a reference introduces no projection: an identifier
/// the type does not project is not projected by its reference form either.
pub proof fn lemma_make_reference_no_projection(t: TyV, mutable: bool, x: Seq<char>)
    requires
        no_proj_ty(t, x),
    ensures
        no_proj_ty(spec_make_reference(t, mutable), x),
    decreases t,
{
    match t {
        TyV::Paren { elem } => {
            lemma_make_reference_no_projection(*elem, mutable, x);
        },
        _ => {},
    }
}

} // verus!
