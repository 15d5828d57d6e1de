//! Plain data model of the declarations the generators read.
//!
//! A registry declaration is a single-field struct whose field should be a
//! bare function-pointer type; a registration declaration is a named function.
//! Both are carried here as plain values (identifiers and type source text),
//! so that the generators are ordinary functions from values to emitted text.

use vstd::prelude::*;

verus! {

/// The matching algorithm of a registry, fixed when the registry is generated.
#[derive(Clone, Copy, PartialEq, Eq, Structural, Debug)]
pub enum SearchMode {
    Exact,
    IgnoreCase,
    RegExp,
}

/// One parameter of a function declaration: either the implicit receiver,
/// or a typed parameter carrying its type's source text.
pub enum FnArg {
    Receiver,
    Typed(String),
}

/// A named function declaration: its full source text (re-emitted verbatim by
/// the registration generator), its identifier, and its parameter list.
pub struct FnDecl {
    pub source: String,
    pub ident: String,
    pub inputs: Vec<FnArg>,
}

/// A bare function-pointer type: parameter types and an optional return type
/// (`None` stands for the default unit return).
pub struct BareFnType {
    pub inputs: Vec<String>,
    pub output: Option<String>,
}

/// The type of the registry struct's single field.
pub enum FieldType {
    BareFn(BareFnType),
    Other(String),
}

/// A registry declaration: a single-field struct with its attributes,
/// identifier and field type.
pub struct StructDecl {
    pub attrs: Vec<String>,
    pub ident: String,
    pub field: FieldType,
}

/// The value of one annotation argument: a string literal or an identifier.
pub enum AttrValue {
    Str(String),
    Ident(String),
}

/// One `name = value` annotation argument.
pub struct AttrArg {
    pub name: String,
    pub value: AttrValue,
}

/// Options of a registration declaration: the key under which the function is
/// registered and the identifier of the registry struct it belongs to.
pub struct StrategyFnParams {
    pub key: String,
    pub strategy: String,
}

/// Options of a registry declaration: the search mode, if given.
pub struct StrategyTypeParams {
    pub search: Option<String>,
}

} // verus!
