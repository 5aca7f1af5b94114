//! The recursive type-expression model and the declaration shapes that the
//! renderer, builder and dispatcher operate on.
use vstd::prelude::*;

verus! {

/// One parsed type annotation.
///
/// The set of variants is closed: after stripping the transparent wrappers
/// (`Pointer`, `Reference`, `Group`, `Parenthesized`), every expression
/// reduces to one of `Array`, `Tuple`, `Slice`, `Never`, `NamedPath` or
/// `Unsupported`. The transparent wrappers carry no information into the
/// rendered signature: indirection and ownership are erased by design.
#[derive(Debug)]
pub enum TypeExpr {
    /// A fixed-length array of one element type.
    Array { elem: Box<TypeExpr> },
    /// A tuple of element types, in declared order.
    Tuple { elems: Vec<TypeExpr> },
    /// A slice of one element type.
    Slice { elem: Box<TypeExpr> },
    /// A raw pointer; transparent.
    Pointer { elem: Box<TypeExpr> },
    /// A reference; transparent.
    Reference { elem: Box<TypeExpr> },
    /// A macro-introduced grouping; transparent.
    Group { elem: Box<TypeExpr> },
    /// A parenthesized type; transparent.
    Parenthesized { elem: Box<TypeExpr> },
    /// The never type.
    Never,
    /// A possibly-qualified type identifier with its generic type arguments.
    /// Only the final path segment is significant, so `name` holds that
    /// segment alone; earlier qualifying segments are discarded upstream.
    NamedPath { name: String, args: Vec<TypeExpr> },
    /// Catch-all for function types, trait objects, inferred types,
    /// macro-produced types and other shapes the signature grammar does not
    /// cover; renders as the empty string by design.
    Unsupported,
}

/// One declared parameter of a function declaration. An implicit receiver
/// parameter carries its bare binding name and no declared type.
#[derive(Debug)]
pub struct Param {
    pub binding: String,
    pub ty: Option<TypeExpr>,
}

/// A parsed function declaration: its name, its parameters in declared
/// order, and its optional return type.
#[derive(Debug)]
pub struct Declaration {
    pub name: String,
    pub params: Vec<Param>,
    pub ret: Option<TypeExpr>,
}

/// A source location, used to attach a diagnostic to the offending
/// declaration.
#[derive(Clone, Copy, Debug, PartialEq, Eq, Structural)]
pub struct SourceSpan {
    pub line: usize,
    pub column: usize,
}

/// One declaration-shaped item handed over by the host toolchain.
#[derive(Debug)]
pub enum Item {
    /// A function declaration; routed to the signature builder.
    Function { decl: Declaration },
    /// A data-structure declaration; accepted and ignored (field rendering
    /// is reserved, not implemented).
    DataStructure,
    /// Any other item kind, with its source location; rejected.
    Other { span: SourceSpan },
}

/// The diagnostic reported for an item that is neither a function nor a
/// data-structure declaration; it carries the item's source location.
#[derive(Clone, Copy, Debug, PartialEq, Eq, Structural)]
pub struct UnsupportedItemKind {
    pub span: SourceSpan,
}

} // verus!
