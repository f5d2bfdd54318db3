//! The failure taxonomy of the generator.
//!
//! Every fallible step reports one of these values; the first failure aborts
//! the whole generation for the declaration at hand. A `span` is an opaque
//! source-location token handed in by the host adapter together with the
//! declaration; the library threads it through to the failure so a diagnostic
//! can be anchored at the offending place.

use vstd::prelude::*;

verus! {

/// Why parsing the directives attached to a declaration or a field failed.
#[derive(Clone, Copy, Debug, PartialEq, Eq)]
pub enum DirectiveParseReason {
    /// An attribute key is not a single identifier.
    KeyNotIdent,
    /// A key expects a string literal and got another kind of literal.
    NonStringLiteral,
    /// The value of the trait-declaration key does not parse as a trait
    /// header (an optional visibility, the `trait` keyword, an identifier).
    BadTraitHeader,
    /// The value of a scoped-attribute key does not parse as a sequence of
    /// outer attributes.
    BadAttrFragment,
    /// A key-value entry uses a key the generator does not recognize.
    UnrecognizedKeyValue,
    /// A bare-path entry uses a key the generator does not recognize.
    UnknownFlag,
    /// An entry is neither a key-value pair nor a bare path.
    MalformedEntry,
    /// The directive attribute itself does not carry a parenthesized list.
    MalformedList,
}

/// The failure of the type-expression rewriter: the type uses a structural
/// form the rewriter does not understand. The caller anchors it at the span
/// of the offending field type or bound.
#[derive(Clone, Copy, Debug, PartialEq, Eq)]
pub struct UnsupportedShapeError;

/// The failure of the reference builder: the type cannot sensibly be turned
/// into a reference. The caller anchors it at the span of the offending
/// field type.
#[derive(Clone, Copy, Debug, PartialEq, Eq)]
pub struct AccessorTypeError;

/// A failure of the generator.
#[derive(Clone, Copy, Debug, PartialEq, Eq)]
pub enum GenError {
    /// A directive was malformed or unrecognized.
    DirectiveParse { reason: DirectiveParseReason, span: usize },
    /// The declaration carries no trait-declaration directive.
    MissingRequiredDirective,
    /// A field type or a bound uses a structural form the rewriter does not
    /// understand (a trait object, an `impl Trait` type, a macro invocation,
    /// the never type, an inferred type, an exotic generic argument).
    UnsupportedShape { span: usize },
    /// The declaration is not a struct with named fields.
    UnsupportedDeclarationKind { span: usize },
    /// A field type could not be turned into a reference.
    AccessorType { span: usize },
}

} // verus!
