//! Structural tools on type expressions: the rewrite to associated-slot
//! projections, and the classification and construction of reference forms.

pub mod associated;
pub mod references;
