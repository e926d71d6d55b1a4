//! Compile-time code generation modeled as pure syntax-tree transformations.
//!
//! Three independent facilities, each a single-shot transformation of an
//! immutable input fragment into a fresh output fragment:
//!
//! - renaming a function declaration according to a `name = "..."` annotation;
//! - expanding a comma-separated literal list into a block that builds a
//!   vector by pushing each element in order;
//! - deriving, from a structure with named fields, a mirrored structure whose
//!   name carries a fixed suffix and whose fields keep their types and keep
//!   their names unless a `rename(name = "...")` annotation overrides them.
//!
//! The fragments are held in the crate's own plain-value types; parsing source
//! text into those types is delegated to the `syn` crate behind small trusted
//! functions whose results are pinned to named parse functions, the Unicode
//! identifier tables come from the `unicode-ident` crate behind named trusted
//! functions, and everything downstream is verified.

pub mod ast;
pub mod derivator;
pub mod expander;
pub mod ident;
pub mod render;
pub mod renamer;
pub mod syntax;
