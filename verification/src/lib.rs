//! A compile-time code generator, modelled structurally: given a declaration
//! of a data structure annotated with directives, it synthesizes a trait that
//! exposes the structure's fields through accessors whose signatures replace
//! the structure's generic parameters with associated-type "slots", together
//! with an implementation of that trait for the structure.
//!
//! The host compiler's parser and token representation stay outside: the
//! library works on its own syntax model (plain strings and vectors) and
//! returns a structural artifact that an adapter renders back to tokens.

pub mod args;
pub mod clone_ext;
pub mod degeneric;
pub mod errors;
pub mod generics;
pub mod named_requirement;
pub mod textscan;
pub mod ty;
pub mod type_tools;
