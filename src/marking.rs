//! The marking pass: every reference-taking, dereference and assignment through
//! a dereference becomes a marker node that carries its operands unchanged.
//! Marker nodes are inert to this pass, so what they carry is not marked again.
use vstd::prelude::*;

use crate::syntax::{Args, Expr, Item, Parts, SourceFile};

verus! {

/// The expression that the marking pass makes of `e`.
pub open spec fn marked_expr(e: Expr) -> Expr
    decreases e,
{
    match e {
        Expr::Reference { mutable, expr } => Expr::MarkRef { mutable, expr },
        Expr::Deref(x) => Expr::MarkDeref(x),
        Expr::Assign { left, right } => match *left {
            Expr::Deref(l) => Expr::MarkAssign { left: l, right },
            _ => Expr::Assign {
                left: Box::new(marked_expr(*left)),
                right: Box::new(marked_expr(*right)),
            },
        },
        Expr::Ident(n) => Expr::Ident(n),
        Expr::Call { func, args } => Expr::Call {
            func: Box::new(marked_expr(*func)),
            args: marked_args(args),
        },
        Expr::Cast { expr, ty } => Expr::Cast { expr: Box::new(marked_expr(*expr)), ty },
        Expr::Unsafe(ps) => Expr::Unsafe(marked_parts(ps)),
        Expr::MarkRef { mutable, expr } => Expr::MarkRef { mutable, expr },
        Expr::MarkDeref(x) => Expr::MarkDeref(x),
        Expr::MarkAssign { left, right } => Expr::MarkAssign { left, right },
        Expr::Other(ps) => Expr::Other(marked_parts(ps)),
    }
}

pub open spec fn marked_args(a: Args) -> Args
    decreases a,
{
    match a {
        Args::End => Args::End,
        Args::Arg(e, rest) => Args::Arg(Box::new(marked_expr(*e)), Box::new(marked_args(*rest))),
    }
}

pub open spec fn marked_parts(ps: Parts) -> Parts
    decreases ps,
{
    match ps {
        Parts::End => Parts::End,
        Parts::Text(s, rest) => Parts::Text(s, Box::new(marked_parts(*rest))),
        Parts::Expr(e, rest) => Parts::Expr(Box::new(marked_expr(*e)), Box::new(marked_parts(*rest))),
        Parts::Ty(t, rest) => Parts::Ty(t, Box::new(marked_parts(*rest))),
        Parts::Item(i, rest) => Parts::Item(Box::new(marked_item(*i)), Box::new(marked_parts(*rest))),
    }
}

pub open spec fn marked_item(i: Item) -> Item
    decreases i,
{
    match i {
        Item::Fn { head, body } => Item::Fn { head: marked_parts(head), body: marked_parts(body) },
        Item::Data { attrs, rest } => Item::Data { attrs, rest: marked_parts(rest) },
        Item::Other(ps) => Item::Other(marked_parts(ps)),
    }
}

pub open spec fn marked_file(f: SourceFile) -> SourceFile {
    SourceFile { parts: marked_parts(f.parts) }
}

/// Marks `e` and, outside the markers it makes, every expression nested in it.
pub fn mark_expr(e: Expr) -> (r: Expr)
    ensures
        r == marked_expr(e),
    decreases e,
{
    match e {
        Expr::Reference { mutable, expr } => Expr::MarkRef { mutable, expr },
        Expr::Deref(x) => Expr::MarkDeref(x),
        Expr::Assign { left, right } => match *left {
            Expr::Deref(l) => Expr::MarkAssign { left: l, right },
            other => Expr::Assign {
                left: Box::new(mark_expr(other)),
                right: Box::new(mark_expr(*right)),
            },
        },
        Expr::Ident(n) => Expr::Ident(n),
        Expr::Call { func, args } => Expr::Call {
            func: Box::new(mark_expr(*func)),
            args: mark_args(args),
        },
        Expr::Cast { expr, ty } => Expr::Cast { expr: Box::new(mark_expr(*expr)), ty },
        Expr::Unsafe(ps) => Expr::Unsafe(mark_parts(ps)),
        Expr::MarkRef { mutable, expr } => Expr::MarkRef { mutable, expr },
        Expr::MarkDeref(x) => Expr::MarkDeref(x),
        Expr::MarkAssign { left, right } => Expr::MarkAssign { left, right },
        Expr::Other(ps) => Expr::Other(mark_parts(ps)),
    }
}

pub fn mark_args(a: Args) -> (r: Args)
    ensures
        r == marked_args(a),
    decreases a,
{
    match a {
        Args::End => Args::End,
        Args::Arg(e, rest) => Args::Arg(Box::new(mark_expr(*e)), Box::new(mark_args(*rest))),
    }
}

pub fn mark_parts(ps: Parts) -> (r: Parts)
    ensures
        r == marked_parts(ps),
    decreases ps,
{
    match ps {
        Parts::End => Parts::End,
        Parts::Text(s, rest) => Parts::Text(s, Box::new(mark_parts(*rest))),
        Parts::Expr(e, rest) => Parts::Expr(Box::new(mark_expr(*e)), Box::new(mark_parts(*rest))),
        Parts::Ty(t, rest) => Parts::Ty(t, Box::new(mark_parts(*rest))),
        Parts::Item(i, rest) => Parts::Item(Box::new(mark_item(*i)), Box::new(mark_parts(*rest))),
    }
}

pub fn mark_item(i: Item) -> (r: Item)
    ensures
        r == marked_item(i),
    decreases i,
{
    match i {
        Item::Fn { head, body } => Item::Fn { head: mark_parts(head), body: mark_parts(body) },
        Item::Data { attrs, rest } => Item::Data { attrs, rest: mark_parts(rest) },
        Item::Other(ps) => Item::Other(mark_parts(ps)),
    }
}

/// The marking pass over a whole file.
pub fn mark_file(f: SourceFile) -> (r: SourceFile)
    ensures
        r == marked_file(f),
{
    SourceFile { parts: mark_parts(f.parts) }
}

} // verus!
