//! The replacement pass: markers become raw-pointer operations, reference types
//! become raw-pointer types, every body with code runs in an `unsafe` scope, and
//! every data declaration becomes bitwise-copyable.
use vstd::prelude::*;

use crate::derives::{make_copy, with_copy};
use crate::syntax::{Args, Expr, Item, Parts, SourceFile, Ty};
use crate::text::same_chars;
use crate::types::{pointer_ty, replace_ty};

verus! {

/// The reserved call target that stands for taking a shared reference.
pub const REF_HOOK: &'static str = "__amargo_ref";

/// The reserved call target that stands for taking a mutable reference.
pub const REF_MUT_HOOK: &'static str = "__amargo_ref_mut";

/// Where `func` is one of the two reserved call targets, the mutability of the
/// reference that the call stands for. The match is on the bare name only.
pub open spec fn hook_mutability(func: Expr) -> Option<bool> {
    match func {
        Expr::Ident(n) => if n@ == REF_HOOK@ {
            Some(false)
        } else if n@ == REF_MUT_HOOK@ {
            Some(true)
        } else {
            None
        },
        _ => None,
    }
}

/// The contents of a block that holds nothing but `unsafe { b }`.
pub open spec fn in_unsafe(b: Parts) -> Parts {
    Parts::Expr(Box::new(Expr::Unsafe(b)), Box::new(Parts::End))
}

/// The expression that the replacement pass makes of `e`.
pub open spec fn replaced_expr(e: Expr) -> Expr
    decreases e,
{
    match e {
        Expr::MarkRef { mutable, expr } => Expr::Cast {
            expr: Box::new(Expr::Reference { mutable, expr: Box::new(replaced_expr(*expr)) }),
            ty: Box::new(Ty::Ptr { mutable, elem: Box::new(Ty::Infer) }),
        },
        Expr::MarkDeref(x) => Expr::Unsafe(
            Parts::Expr(Box::new(Expr::Deref(Box::new(replaced_expr(*x)))), Box::new(Parts::End)),
        ),
        Expr::MarkAssign { left, right } => Expr::Unsafe(
            Parts::Expr(
                Box::new(
                    Expr::Assign {
                        left: Box::new(Expr::Deref(Box::new(replaced_expr(*left)))),
                        right: Box::new(replaced_expr(*right)),
                    },
                ),
                Box::new(Parts::End),
            ),
        ),
        Expr::Call { func, args } => match (hook_mutability(*func), args) {
            (Some(mutable), Args::Arg(first, _)) => Expr::Reference {
                mutable,
                expr: Box::new(replaced_expr(*first)),
            },
            _ => Expr::Call { func: Box::new(replaced_expr(*func)), args: replaced_args(args) },
        },
        Expr::Reference { mutable, expr } => Expr::Reference {
            mutable,
            expr: Box::new(replaced_expr(*expr)),
        },
        Expr::Deref(x) => Expr::Deref(Box::new(replaced_expr(*x))),
        Expr::Assign { left, right } => Expr::Assign {
            left: Box::new(replaced_expr(*left)),
            right: Box::new(replaced_expr(*right)),
        },
        Expr::Ident(n) => Expr::Ident(n),
        Expr::Cast { expr, ty } => Expr::Cast {
            expr: Box::new(replaced_expr(*expr)),
            ty: Box::new(pointer_ty(*ty)),
        },
        Expr::Unsafe(ps) => Expr::Unsafe(replaced_parts(ps)),
        Expr::Other(ps) => Expr::Other(replaced_parts(ps)),
    }
}

pub open spec fn replaced_args(a: Args) -> Args
    decreases a,
{
    match a {
        Args::End => Args::End,
        Args::Arg(e, rest) => Args::Arg(
            Box::new(replaced_expr(*e)),
            Box::new(replaced_args(*rest)),
        ),
    }
}

pub open spec fn replaced_parts(ps: Parts) -> Parts
    decreases ps,
{
    match ps {
        Parts::End => Parts::End,
        Parts::Text(s, rest) => Parts::Text(s, Box::new(replaced_parts(*rest))),
        Parts::Expr(e, rest) => Parts::Expr(
            Box::new(replaced_expr(*e)),
            Box::new(replaced_parts(*rest)),
        ),
        Parts::Ty(t, rest) => Parts::Ty(Box::new(pointer_ty(*t)), Box::new(replaced_parts(*rest))),
        Parts::Item(i, rest) => Parts::Item(
            Box::new(replaced_item(*i)),
            Box::new(replaced_parts(*rest)),
        ),
    }
}

pub open spec fn replaced_item(i: Item) -> Item
    decreases i,
{
    match i {
        Item::Fn { head, body } => Item::Fn {
            head: replaced_parts(head),
            body: in_unsafe(replaced_parts(body)),
        },
        Item::Data { attrs, rest } => Item::Data {
            attrs: with_copy(attrs),
            rest: replaced_parts(rest),
        },
        Item::Other(ps) => Item::Other(replaced_parts(ps)),
    }
}

pub open spec fn replaced_file(f: SourceFile) -> SourceFile {
    SourceFile { parts: replaced_parts(f.parts) }
}

/// The mutability of the reference that a call of `func` stands for, where
/// `func` is one of the two reserved call targets.
fn hook_target(func: &Expr) -> (r: Option<bool>)
    ensures
        r == hook_mutability(*func),
{
    match func {
        Expr::Ident(n) => if same_chars(n, REF_HOOK) {
            Some(false)
        } else if same_chars(n, REF_MUT_HOOK) {
            Some(true)
        } else {
            None
        },
        _ => None,
    }
}

/// Resolves the markers in `e`, rewrites the reference types, the reserved calls
/// and the items nested in it.
pub fn replace_expr(e: Expr) -> (r: Expr)
    ensures
        r == replaced_expr(e),
    decreases e,
{
    match e {
        Expr::MarkRef { mutable, expr } => Expr::Cast {
            expr: Box::new(Expr::Reference { mutable, expr: Box::new(replace_expr(*expr)) }),
            ty: Box::new(Ty::Ptr { mutable, elem: Box::new(Ty::Infer) }),
        },
        Expr::MarkDeref(x) => Expr::Unsafe(
            Parts::Expr(Box::new(Expr::Deref(Box::new(replace_expr(*x)))), Box::new(Parts::End)),
        ),
        Expr::MarkAssign { left, right } => Expr::Unsafe(
            Parts::Expr(
                Box::new(
                    Expr::Assign {
                        left: Box::new(Expr::Deref(Box::new(replace_expr(*left)))),
                        right: Box::new(replace_expr(*right)),
                    },
                ),
                Box::new(Parts::End),
            ),
        ),
        Expr::Call { func, args } => {
            let hook = hook_target(&func);
            match hook {
                Some(mutable) => match args {
                    Args::Arg(first, _) => Expr::Reference {
                        mutable,
                        expr: Box::new(replace_expr(*first)),
                    },
                    Args::End => Expr::Call {
                        func: Box::new(replace_expr(*func)),
                        args: replace_args(Args::End),
                    },
                },
                None => Expr::Call { func: Box::new(replace_expr(*func)), args: replace_args(args) },
            }
        },
        Expr::Reference { mutable, expr } => Expr::Reference {
            mutable,
            expr: Box::new(replace_expr(*expr)),
        },
        Expr::Deref(x) => Expr::Deref(Box::new(replace_expr(*x))),
        Expr::Assign { left, right } => Expr::Assign {
            left: Box::new(replace_expr(*left)),
            right: Box::new(replace_expr(*right)),
        },
        Expr::Ident(n) => Expr::Ident(n),
        Expr::Cast { expr, ty } => Expr::Cast {
            expr: Box::new(replace_expr(*expr)),
            ty: Box::new(replace_ty(*ty)),
        },
        Expr::Unsafe(ps) => Expr::Unsafe(replace_parts(ps)),
        Expr::Other(ps) => Expr::Other(replace_parts(ps)),
    }
}

pub fn replace_args(a: Args) -> (r: Args)
    ensures
        r == replaced_args(a),
    decreases a,
{
    match a {
        Args::End => Args::End,
        Args::Arg(e, rest) => Args::Arg(Box::new(replace_expr(*e)), Box::new(replace_args(*rest))),
    }
}

pub fn replace_parts(ps: Parts) -> (r: Parts)
    ensures
        r == replaced_parts(ps),
    decreases ps,
{
    match ps {
        Parts::End => Parts::End,
        Parts::Text(s, rest) => Parts::Text(s, Box::new(replace_parts(*rest))),
        Parts::Expr(e, rest) => Parts::Expr(
            Box::new(replace_expr(*e)),
            Box::new(replace_parts(*rest)),
        ),
        Parts::Ty(t, rest) => Parts::Ty(Box::new(replace_ty(*t)), Box::new(replace_parts(*rest))),
        Parts::Item(i, rest) => Parts::Item(
            Box::new(replace_item(*i)),
            Box::new(replace_parts(*rest)),
        ),
    }
}

/// Rewrites an item: a body with code is wrapped in an `unsafe` scope, and a data
/// declaration gains the `Clone` and `Copy` derive entries it lacks.
pub fn replace_item(i: Item) -> (r: Item)
    ensures
        r == replaced_item(i),
    decreases i,
{
    match i {
        Item::Fn { head, body } => {
            let head = replace_parts(head);
            let body = replace_parts(body);
            Item::Fn { head, body: Parts::Expr(Box::new(Expr::Unsafe(body)), Box::new(Parts::End)) }
        },
        Item::Data { attrs, rest } => Item::Data { attrs: make_copy(attrs), rest: replace_parts(rest) },
        Item::Other(ps) => Item::Other(replace_parts(ps)),
    }
}

/// The replacement pass over a whole file.
pub fn replace_file(f: SourceFile) -> (r: SourceFile)
    ensures
        r == replaced_file(f),
{
    SourceFile { parts: replace_parts(f.parts) }
}

} // verus!
