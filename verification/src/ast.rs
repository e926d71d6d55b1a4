//! The syntax-tree fragments the transformations work on, reduced to plain
//! values: every fragment holds exactly the parts a transformation inspects,
//! and keeps the rest as opaque token text.

use vstd::prelude::*;

verus! {

/// A literal attached to an annotation: a string literal, whose contents the
/// transformations read, or a literal of any other kind.
#[derive(Debug, Clone)]
pub enum LitValue {
    Str(String),
    Other,
}

/// One argument inside a bracketed annotation list, such as the
/// `name = "total"` inside `rename(name = "total")`. Only a `key = "value"`
/// pair is ever inspected; every other shape is kept as `Other`.
#[derive(Debug, Clone)]
pub enum NestedArg {
    KeyValue { key: String, lit: LitValue },
    Other,
}

/// An annotation attached to a declaration, reduced to what the
/// transformations inspect: the first segment of its path and its arguments.
#[derive(Debug, Clone)]
pub enum AttrMeta {
    /// A bare path annotation, such as `inline`.
    Word { key: String },
    /// A `key = "value"` annotation, such as `name = "world"`.
    KeyValue { key: String, lit: LitValue },
    /// A bracketed list annotation, such as `rename(name = "total")`.
    ArgList { key: String, args: Vec<NestedArg> },
    /// An annotation whose arguments do not parse as any of the shapes above.
    Opaque,
}

/// A function declaration: its name, the tokens that precede the name
/// (attributes, visibility, qualifiers and the `fn` keyword), and the tokens
/// that follow it (generics, parameters, return type, where clause and body).
#[derive(Debug, Clone)]
pub struct FnDecl {
    pub before: String,
    pub name: String,
    pub rest: String,
}

/// A named field of a structure: its name, the token text of its declared
/// type, and the annotations attached to it.
#[derive(Debug, Clone)]
pub struct FieldDecl {
    pub name: String,
    pub ty: String,
    pub attrs: Vec<AttrMeta>,
}

/// The body of an item handed to the structure derivation: a structure with
/// named fields, or anything else (tuple or unit structures, enumerations,
/// unions), which the derivation rejects.
#[derive(Debug, Clone)]
pub enum ItemData {
    NamedStruct { fields: Vec<FieldDecl> },
    Unsupported,
}

/// The item handed to the structure derivation: its name and its body.
#[derive(Debug, Clone)]
pub struct InputDecl {
    pub name: String,
    pub data: ItemData,
}

/// A field of a generated structure: a name and the token text of its type.
#[derive(Debug, Clone)]
pub struct GenField {
    pub name: String,
    pub ty: String,
}

/// A generated public structure declaration.
#[derive(Debug, Clone)]
pub struct GenStruct {
    pub name: String,
    pub fields: Vec<GenField>,
}

/// One statement of the block a literal list expands into.
#[derive(Debug, Clone)]
pub enum VecStmt {
    /// Bind a new, empty, mutable vector.
    Init,
    /// Append the value of one element expression, given by its source text.
    Push(String),
    /// Yield the vector as the value of the whole block.
    Finish,
}

/// The block a literal list expands into: statements evaluated in order.
#[derive(Debug, Clone)]
pub struct VecExpansion {
    pub stmts: Vec<VecStmt>,
}

/// The reasons a transformation rejects its input. Each one aborts the
/// surrounding expansion with the diagnostic text of [`MacroError::message`].
#[derive(Debug, Clone, Copy, PartialEq, Eq, Structural)]
pub enum MacroError {
    /// The annotation is not a `key = "string"` pair with the key `name`.
    UnsupportedAttr,
    /// The replacement name is not a valid identifier.
    InvalidIdent,
    /// The decorated item does not parse as a function declaration.
    ExpectedFunction,
    /// The decorated item is not a structure with named fields.
    ExpectedStruct,
}

impl MacroError {
    /// The diagnostic text reported when an expansion aborts with this error.
    pub open spec fn spec_message(self) -> Seq<char> {
        match self {
            MacroError::UnsupportedAttr => "only support NameValue attr, like [rename(path = \"fun_1\")]"@,
            MacroError::InvalidIdent => "the replacement name is not a valid identifier"@,
            MacroError::ExpectedFunction => "expect fn"@,
            MacroError::ExpectedStruct => "expect struct"@,
        }
    }

    /// Returns the diagnostic text for this error.
    pub fn message(&self) -> (r: &'static str)
        ensures
            r@ == self.spec_message(),
    {
        match self {
            MacroError::UnsupportedAttr => "only support NameValue attr, like [rename(path = \"fun_1\")]",
            MacroError::InvalidIdent => "the replacement name is not a valid identifier",
            MacroError::ExpectedFunction => "expect fn",
            MacroError::ExpectedStruct => "expect struct",
        }
    }
}

} // verus!
