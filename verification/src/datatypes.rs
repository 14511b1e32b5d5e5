use vstd::prelude::*;

verus! {

/// A generic nested input value, as an external S-expression reader hands it
/// over: an integer atom, a symbol atom, some other kind of atom the
/// expression language never reads, or an ordered list of nested values.
#[derive(Debug, PartialEq, Eq)]
pub enum SVal {
    Int(i64),
    Sym(String),
    Other,
    List(Vec<SVal>),
}

/// The abstract syntax tree of the expression language: an immutable,
/// finite tree built once by the builder and then only read.
#[derive(Debug, PartialEq, Eq)]
pub enum Expr {
    /// A signed 32-bit integer literal.
    Num(i32),
    /// Denotes the operand's value plus one.
    Add1(Box<Expr>),
    /// Denotes the operand's value minus one.
    Sub1(Box<Expr>),
    /// Denotes the arithmetic negation of the operand's value.
    Negate(Box<Expr>),
}

/// Why building an AST from an input value failed. Building is the only
/// fallible step of the pipeline: evaluation and code generation are total
/// over well-formed trees.
#[derive(Debug, PartialEq, Eq)]
pub enum BuildError {
    /// An integer atom does not fit the signed 32-bit literal range.
    RangeError,
    /// The input value matches no recognized shape; carries a description.
    ParseError(String),
}

} // verus!
