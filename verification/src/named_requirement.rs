//! The named-requirement generator.
//!
//! Given a trait-like header and a capability-bound expression, it
//! synthesizes a zero-method marker trait whose supertraits are the bounds,
//! plus a blanket implementation of that trait for every type satisfying the
//! bounds.

use vstd::prelude::*;

use crate::degeneric::{spec_strip_generics, strip_params};
use crate::generics::{GenericParamDecl, GenericParamDeclV};
use crate::ty::{bounds_view, clone_bounds, Bound, BoundV};

verus! {

/// The generator's input (mathematical form).
#[verifier::ext_equal]
pub struct NrInputV {
    pub is_pub: bool,
    pub ident: Seq<char>,
    pub generics: Seq<GenericParamDeclV>,
    pub bounds: Seq<BoundV>,
}

/// The generator's input: whether the marker trait is public, its name, its
/// generic parameters, and the capability-bound expression it bundles.
#[derive(Debug, PartialEq, Eq)]
pub struct NrInput {
    pub is_pub: bool,
    pub ident: String,
    pub generics: Vec<GenericParamDecl>,
    pub bounds: Vec<Bound>,
}

impl DeepView for NrInput {
    type V = NrInputV;

    open spec fn deep_view(&self) -> NrInputV {
        NrInputV {
            is_pub: self.is_pub,
            ident: self.ident@,
            generics: self.generics.deep_view(),
            bounds: bounds_view(self.bounds@),
        }
    }
}

/// The synthesized marker trait and blanket implementation (mathematical
/// form).
#[verifier::ext_equal]
pub struct NrArtifactV {
    pub is_pub: bool,
    pub trait_name: Seq<char>,
    pub trait_generics: Seq<GenericParamDeclV>,
    pub supertraits: Seq<BoundV>,
    pub impl_param: Seq<char>,
    pub impl_param_bounds: Seq<BoundV>,
    pub lifetime_args: Seq<Seq<char>>,
    pub type_args: Seq<Seq<char>>,
}

/// The synthesized marker trait and blanket implementation: the trait header
/// with the bounds as supertraits and an empty body, and an implementation
/// for a fresh type parameter bounded by the same bounds, applied to the
/// input's lifetimes followed by its type parameters.
#[derive(Debug, PartialEq, Eq)]
pub struct NrArtifact {
    pub is_pub: bool,
    pub trait_name: String,
    pub trait_generics: Vec<GenericParamDecl>,
    pub supertraits: Vec<Bound>,
    pub impl_param: String,
    pub impl_param_bounds: Vec<Bound>,
    pub lifetime_args: Vec<String>,
    pub type_args: Vec<String>,
}

impl DeepView for NrArtifact {
    type V = NrArtifactV;

    open spec fn deep_view(&self) -> NrArtifactV {
        NrArtifactV {
            is_pub: self.is_pub,
            trait_name: self.trait_name@,
            trait_generics: self.trait_generics.deep_view(),
            supertraits: bounds_view(self.supertraits@),
            impl_param: self.impl_param@,
            impl_param_bounds: bounds_view(self.impl_param_bounds@),
            lifetime_args: self.lifetime_args.deep_view(),
            type_args: self.type_args.deep_view(),
        }
    }
}

/// The names of the lifetime parameters, in order.
pub open spec fn spec_lifetime_names(gs: Seq<GenericParamDeclV>) -> Seq<Seq<char>>
    decreases gs.len(),
{
    if gs.len() == 0 {
        Seq::empty()
    } else {
        spec_lifetime_names(gs.drop_last()) + (match gs.last() {
            GenericParamDeclV::LifetimeParam { lp } => seq![lp.name],
            _ => Seq::empty(),
        })
    }
}

/// The idents of the type parameters, in order.
pub open spec fn spec_type_param_names(gs: Seq<GenericParamDeclV>) -> Seq<Seq<char>>
    decreases gs.len(),
{
    if gs.len() == 0 {
        Seq::empty()
    } else {
        spec_type_param_names(gs.drop_last()) + (match gs.last() {
            GenericParamDeclV::TypeParam { tp } => seq![tp.ident],
            _ => Seq::empty(),
        })
    }
}

/// The name of the blanket implementation's fresh type parameter.
pub open spec fn spec_nr_param() -> Seq<char> {
    "NamedRequirementName"@
}

/// What the generator emits: the marker trait under the input's name and
/// visibility, with the input's generics (minus directive attributes) and
/// the bounds as supertraits; and a blanket implementation for a fresh type
/// parameter carrying the same bounds, applied to the input's lifetimes then
/// its type parameters.
pub open spec fn spec_nr_artifact(input: NrInputV) -> NrArtifactV {
    NrArtifactV {
        is_pub: input.is_pub,
        trait_name: input.ident,
        trait_generics: spec_strip_generics(input.generics),
        supertraits: input.bounds,
        impl_param: spec_nr_param(),
        impl_param_bounds: input.bounds,
        lifetime_args: spec_lifetime_names(input.generics),
        type_args: spec_type_param_names(input.generics),
    }
}

/// Collects the lifetime names of a parameter list.
fn lifetime_names(gs: &Vec<GenericParamDecl>) -> (r: Vec<String>)
    ensures
        r.deep_view() == spec_lifetime_names(gs.deep_view()),
{
    let ghost gv = gs.deep_view();
    let mut out: Vec<String> = Vec::new();
    proof {
        assert(gv.take(0) =~= Seq::<GenericParamDeclV>::empty());
        assert(out.deep_view() =~= Seq::<Seq<char>>::empty());
    }
    let mut i: usize = 0;
    while i < gs.len()
        invariant
            0 <= i <= gs@.len(),
            gv == gs.deep_view(),
            gv.len() == gs@.len(),
            out.deep_view() == spec_lifetime_names(gv.take(i as int)),
        decreases gs@.len() - i,
    {
        proof {
            assert(gv.take(i as int + 1).drop_last() =~= gv.take(i as int));
            assert(gv.take(i as int + 1).last() == gv[i as int]);
            assert(gv[i as int] == gs@[i as int].deep_view());
        }
        let ghost pre = out.deep_view();
        match &gs[i] {
            GenericParamDecl::LifetimeParam(lp) => {
                out.push(lp.name.clone());
                proof {
                    assert(out.deep_view() =~= pre.push(lp.name@));
                }
            },
            _ => {},
        }
        proof {
            assert(out.deep_view() =~= spec_lifetime_names(gv.take(i as int + 1)));
        }
        i += 1;
    }
    proof {
        assert(gv.take(gs@.len() as int) =~= gv);
    }
    out
}

/// Collects the type-parameter idents of a parameter list.
fn type_param_names(gs: &Vec<GenericParamDecl>) -> (r: Vec<String>)
    ensures
        r.deep_view() == spec_type_param_names(gs.deep_view()),
{
    let ghost gv = gs.deep_view();
    let mut out: Vec<String> = Vec::new();
    proof {
        assert(gv.take(0) =~= Seq::<GenericParamDeclV>::empty());
        assert(out.deep_view() =~= Seq::<Seq<char>>::empty());
    }
    let mut i: usize = 0;
    while i < gs.len()
        invariant
            0 <= i <= gs@.len(),
            gv == gs.deep_view(),
            gv.len() == gs@.len(),
            out.deep_view() == spec_type_param_names(gv.take(i as int)),
        decreases gs@.len() - i,
    {
        proof {
            assert(gv.take(i as int + 1).drop_last() =~= gv.take(i as int));
            assert(gv.take(i as int + 1).last() == gv[i as int]);
            assert(gv[i as int] == gs@[i as int].deep_view());
        }
        let ghost pre = out.deep_view();
        match &gs[i] {
            GenericParamDecl::TypeParam(tp) => {
                out.push(tp.ident.clone());
                proof {
                    assert(out.deep_view() =~= pre.push(tp.ident@));
                }
            },
            _ => {},
        }
        proof {
            assert(out.deep_view() =~= spec_type_param_names(gv.take(i as int + 1)));
        }
        i += 1;
    }
    proof {
        assert(gv.take(gs@.len() as int) =~= gv);
    }
    out
}

/// Synthesizes the marker trait and its blanket implementation.
pub fn process_input(input: &NrInput) -> (r: NrArtifact)
    ensures
        r.deep_view() == spec_nr_artifact(input.deep_view()),
{
    let r = NrArtifact {
        is_pub: input.is_pub,
        trait_name: input.ident.clone(),
        trait_generics: strip_params(&input.generics),
        supertraits: clone_bounds(&input.bounds),
        impl_param: "NamedRequirementName".to_owned(),
        impl_param_bounds: clone_bounds(&input.bounds),
        lifetime_args: lifetime_names(&input.generics),
        type_args: type_param_names(&input.generics),
    };
    proof {
        assert(r.deep_view() =~= spec_nr_artifact(input.deep_view()));
    }
    r
}

} // verus!
