//! The syntax tree that the rewriting passes work on.
//!
//! Only the constructs that the passes inspect have variants of their own. Any
//! other construct is held as `Other`: its source text, cut into pieces at the
//! places where nested expressions, types or items stand, so that the passes can
//! still reach everything that is nested inside it.
use vstd::prelude::*;

verus! {

/// A type.
#[derive(Debug, PartialEq, Eq)]
pub enum Ty {
    /// `&T` or `&mut T`.
    Ref { mutable: bool, elem: Box<Ty> },
    /// `*const T` or `*mut T`.
    Ptr { mutable: bool, elem: Box<Ty> },
    /// `_`.
    Infer,
    /// Any other type: its text, with the nested types cut out.
    Other(TyParts),
}

/// The pieces of a type of the `Other` kind, in source order.
#[derive(Debug, PartialEq, Eq)]
pub enum TyParts {
    End,
    Text(String, Box<TyParts>),
    Ty(Box<Ty>, Box<TyParts>),
}

/// An expression.
#[derive(Debug, PartialEq, Eq)]
pub enum Expr {
    /// `&e` or `&mut e`.
    Reference { mutable: bool, expr: Box<Expr> },
    /// `*e`.
    Deref(Box<Expr>),
    /// `left = right`.
    Assign { left: Box<Expr>, right: Box<Expr> },
    /// A path of one identifier, such as `x` or `f`.
    Ident(String),
    /// `func(args)`.
    Call { func: Box<Expr>, args: Args },
    /// `expr as ty`.
    Cast { expr: Box<Expr>, ty: Box<Ty> },
    /// `unsafe { ... }`, with the contents of the block.
    Unsafe(Parts),
    /// Marker left by the marking pass where `&e` or `&mut e` stood.
    MarkRef { mutable: bool, expr: Box<Expr> },
    /// Marker left by the marking pass where `*e` was read.
    MarkDeref(Box<Expr>),
    /// Marker left by the marking pass where `*left = right` stood.
    MarkAssign { left: Box<Expr>, right: Box<Expr> },
    /// Any other expression: its text, with the nested pieces cut out.
    Other(Parts),
}

/// The arguments of a call, in order.
#[derive(Debug, PartialEq, Eq)]
pub enum Args {
    End,
    Arg(Box<Expr>, Box<Args>),
}

/// A sequence of source pieces: text, and the expressions, types and items
/// nested in it, in source order.
#[derive(Debug, PartialEq, Eq)]
pub enum Parts {
    End,
    Text(String, Box<Parts>),
    Expr(Box<Expr>, Box<Parts>),
    Ty(Box<Ty>, Box<Parts>),
    Item(Box<Item>, Box<Parts>),
}

/// An item, or a method of an `impl` or a `trait` block.
#[derive(Debug, PartialEq, Eq)]
pub enum Item {
    /// A function or method with a body: its header (attributes, visibility
    /// and signature) and the contents of its body block.
    Fn { head: Parts, body: Parts },
    /// A `struct` or `enum` declaration: its outer attributes and the rest.
    Data { attrs: Attrs, rest: Parts },
    /// Any other item.
    Other(Parts),
}

/// The outer attributes of a data declaration, in order.
#[derive(Debug, PartialEq, Eq)]
pub enum Attrs {
    End,
    /// `#[derive(...)]` with its entries.
    Derive(Entries, Box<Attrs>),
    /// Any other attribute, as text.
    Other(String, Box<Attrs>),
}

/// The entries of one `derive` list, in order.
#[derive(Debug, PartialEq, Eq)]
pub enum Entries {
    End,
    Entry(DeriveEntry, Box<Entries>),
}

/// One entry of a `derive` list.
#[derive(Debug, PartialEq, Eq)]
pub enum DeriveEntry {
    /// The bare name `Clone`.
    Clone,
    /// The bare name `Copy`.
    Copy,
    /// Any other entry, as text.
    Other(String),
}

/// A whole source file: its inner attributes and its items, as pieces.
#[derive(Debug, PartialEq, Eq)]
pub struct SourceFile {
    pub parts: Parts,
}

} // verus!
