//! The clone-behavior generator.
//!
//! A structure may hold fields that are not natively copyable; this generator
//! synthesizes a clone implementation in which every field is either cloned
//! by value or rebuilt by a zero-argument substitute constructor, as the
//! per-field strategy directs.

use vstd::prelude::*;

use crate::degeneric::{clone_where_preds, spec_strip_generics, strip_params};
use crate::generics::{GenericParamDecl, GenericParamDeclV, WherePred, WherePredV};

verus! {

/// How one field is reproduced (mathematical form).
#[verifier::ext_equal]
pub enum CloneBehaviorV {
    /// Clone the field's value.
    CloneValue,
    /// Call the named zero-argument constructor instead; the path is carried
    /// verbatim.
    CallFunction { path: Seq<char> },
}

/// How one field is reproduced: cloned by value (the default), or rebuilt by
/// a named zero-argument substitute constructor.
#[derive(Debug, PartialEq, Eq)]
pub enum CloneBehavior {
    CloneValue,
    CallFunction { path: String },
}

impl DeepView for CloneBehavior {
    type V = CloneBehaviorV;

    open spec fn deep_view(&self) -> CloneBehaviorV {
        match self {
            CloneBehavior::CloneValue => CloneBehaviorV::CloneValue,
            CloneBehavior::CallFunction { path } => CloneBehaviorV::CallFunction { path: path@ },
        }
    }
}

/// One field to reproduce (mathematical form).
#[verifier::ext_equal]
pub struct FieldToCloneV {
    pub ident: Seq<char>,
    pub behavior: CloneBehaviorV,
}

/// One field to reproduce: its identifier and its strategy.
#[derive(Debug, PartialEq, Eq)]
pub struct FieldToClone {
    pub ident: String,
    pub behavior: CloneBehavior,
}

impl DeepView for FieldToClone {
    type V = FieldToCloneV;

    open spec fn deep_view(&self) -> FieldToCloneV {
        FieldToCloneV { ident: self.ident@, behavior: self.behavior.deep_view() }
    }
}

/// The input of the clone generator (mathematical form).
#[verifier::ext_equal]
pub struct CloneInputV {
    pub ident: Seq<char>,
    pub generics: Seq<GenericParamDeclV>,
    pub where_preds: Seq<WherePredV>,
    pub fields: Seq<FieldToCloneV>,
}

/// The input of the clone generator: the structure's name, its generics and
/// `where` clause, and its fields with their strategies.
#[derive(Debug, PartialEq, Eq)]
pub struct CloneInput {
    pub ident: String,
    pub generics: Vec<GenericParamDecl>,
    pub where_preds: Vec<WherePred>,
    pub fields: Vec<FieldToClone>,
}

impl DeepView for CloneInput {
    type V = CloneInputV;

    open spec fn deep_view(&self) -> CloneInputV {
        CloneInputV {
            ident: self.ident@,
            generics: self.generics.deep_view(),
            where_preds: self.where_preds.deep_view(),
            fields: self.fields.deep_view(),
        }
    }
}

/// The synthesized clone implementation (mathematical form).
#[verifier::ext_equal]
pub struct CloneArtifactV {
    pub self_ty: Seq<char>,
    pub generics: Seq<GenericParamDeclV>,
    pub where_preds: Seq<WherePredV>,
    pub field_exprs: Seq<FieldToCloneV>,
}

/// The synthesized clone implementation: an impl of the clone operation for
/// the structure, with one field-reproduction expression per field, in field
/// order.
#[derive(Debug, PartialEq, Eq)]
pub struct CloneArtifact {
    pub self_ty: String,
    pub generics: Vec<GenericParamDecl>,
    pub where_preds: Vec<WherePred>,
    pub field_exprs: Vec<FieldToClone>,
}

impl DeepView for CloneArtifact {
    type V = CloneArtifactV;

    open spec fn deep_view(&self) -> CloneArtifactV {
        CloneArtifactV {
            self_ty: self.self_ty@,
            generics: self.generics.deep_view(),
            where_preds: self.where_preds.deep_view(),
            field_exprs: self.field_exprs.deep_view(),
        }
    }
}

/// What the clone generator emits: the structure's own name, its generics
/// (minus directive attributes) and `where` clause repeated on the impl, and
/// exactly the input fields with their strategies, in order.
pub open spec fn spec_clone_artifact(input: CloneInputV) -> CloneArtifactV {
    CloneArtifactV {
        self_ty: input.ident,
        generics: spec_strip_generics(input.generics),
        where_preds: input.where_preds,
        field_exprs: input.fields,
    }
}

/// Duplicates one field strategy.
fn clone_field_to_clone(f: &FieldToClone) -> (r: FieldToClone)
    ensures
        r.deep_view() == f.deep_view(),
{
    FieldToClone {
        ident: f.ident.clone(),
        behavior: match &f.behavior {
            CloneBehavior::CloneValue => CloneBehavior::CloneValue,
            CloneBehavior::CallFunction { path } => CloneBehavior::CallFunction {
                path: path.clone(),
            },
        },
    }
}

/// Synthesizes the clone implementation for one structure: per field, in
/// order, a clone of the field's value or a call of its substitute
/// constructor.
pub fn process_struct(input: &CloneInput) -> (r: CloneArtifact)
    ensures
        r.deep_view() == spec_clone_artifact(input.deep_view()),
{
    let mut field_exprs: Vec<FieldToClone> = Vec::new();
    let mut i: usize = 0;
    while i < input.fields.len()
        invariant
            0 <= i <= input.fields@.len(),
            field_exprs@.len() == i,
            forall|j: int|
                0 <= j < i ==> (#[trigger] field_exprs@[j]).deep_view()
                    == input.fields@[j].deep_view(),
        decreases input.fields@.len() - i,
    {
        field_exprs.push(clone_field_to_clone(&input.fields[i]));
        i += 1;
    }
    let generics = strip_params(&input.generics);
    let where_preds = clone_where_preds(&input.where_preds);
    let r = CloneArtifact { self_ty: input.ident.clone(), generics, where_preds, field_exprs };
    proof {
        assert(r.deep_view().field_exprs =~= input.deep_view().fields);
        assert(r.deep_view() =~= spec_clone_artifact(input.deep_view()));
    }
    r
}

} // verus!
