//! What holds of every tree after the replacement pass.
use vstd::prelude::*;

use crate::derives::{copy_ready, declared_once, lemma_with_copy_complete, with_copy};
use crate::marking::{marked_args, marked_expr, marked_file, marked_item, marked_parts};
use crate::replacing::{replaced_args, replaced_expr, replaced_file, replaced_item, replaced_parts};
use crate::syntax::{Args, Attrs, Expr, Item, Parts, SourceFile, Ty};
use crate::types::{lemma_pointer_ty_removes_refs, ty_has_ref};

verus! {

/// Whether a marker node occurs anywhere in `e`.
pub open spec fn expr_has_mark(e: Expr) -> bool
    decreases e,
{
    match e {
        Expr::MarkRef { .. } => true,
        Expr::MarkDeref(_) => true,
        Expr::MarkAssign { .. } => true,
        Expr::Reference { expr, .. } => expr_has_mark(*expr),
        Expr::Deref(x) => expr_has_mark(*x),
        Expr::Assign { left, right } => expr_has_mark(*left) || expr_has_mark(*right),
        Expr::Ident(_) => false,
        Expr::Call { func, args } => expr_has_mark(*func) || args_have_mark(args),
        Expr::Cast { expr, .. } => expr_has_mark(*expr),
        Expr::Unsafe(ps) => parts_have_mark(ps),
        Expr::Other(ps) => parts_have_mark(ps),
    }
}

pub open spec fn args_have_mark(a: Args) -> bool
    decreases a,
{
    match a {
        Args::End => false,
        Args::Arg(e, rest) => expr_has_mark(*e) || args_have_mark(*rest),
    }
}

pub open spec fn parts_have_mark(ps: Parts) -> bool
    decreases ps,
{
    match ps {
        Parts::End => false,
        Parts::Text(_, rest) => parts_have_mark(*rest),
        Parts::Expr(e, rest) => expr_has_mark(*e) || parts_have_mark(*rest),
        Parts::Ty(_, rest) => parts_have_mark(*rest),
        Parts::Item(i, rest) => item_has_mark(*i) || parts_have_mark(*rest),
    }
}

pub open spec fn item_has_mark(i: Item) -> bool
    decreases i,
{
    match i {
        Item::Fn { head, body } => parts_have_mark(head) || parts_have_mark(body),
        Item::Data { rest, .. } => parts_have_mark(rest),
        Item::Other(ps) => parts_have_mark(ps),
    }
}

/// Whether a reference type occurs anywhere in `e`, in a cast or in anything
/// nested in it.
pub open spec fn expr_has_ref_ty(e: Expr) -> bool
    decreases e,
{
    match e {
        Expr::MarkRef { expr, .. } => expr_has_ref_ty(*expr),
        Expr::MarkDeref(x) => expr_has_ref_ty(*x),
        Expr::MarkAssign { left, right } => expr_has_ref_ty(*left) || expr_has_ref_ty(*right),
        Expr::Reference { expr, .. } => expr_has_ref_ty(*expr),
        Expr::Deref(x) => expr_has_ref_ty(*x),
        Expr::Assign { left, right } => expr_has_ref_ty(*left) || expr_has_ref_ty(*right),
        Expr::Ident(_) => false,
        Expr::Call { func, args } => expr_has_ref_ty(*func) || args_have_ref_ty(args),
        Expr::Cast { expr, ty } => expr_has_ref_ty(*expr) || ty_has_ref(*ty),
        Expr::Unsafe(ps) => parts_have_ref_ty(ps),
        Expr::Other(ps) => parts_have_ref_ty(ps),
    }
}

pub open spec fn args_have_ref_ty(a: Args) -> bool
    decreases a,
{
    match a {
        Args::End => false,
        Args::Arg(e, rest) => expr_has_ref_ty(*e) || args_have_ref_ty(*rest),
    }
}

pub open spec fn parts_have_ref_ty(ps: Parts) -> bool
    decreases ps,
{
    match ps {
        Parts::End => false,
        Parts::Text(_, rest) => parts_have_ref_ty(*rest),
        Parts::Expr(e, rest) => expr_has_ref_ty(*e) || parts_have_ref_ty(*rest),
        Parts::Ty(t, rest) => ty_has_ref(*t) || parts_have_ref_ty(*rest),
        Parts::Item(i, rest) => item_has_ref_ty(*i) || parts_have_ref_ty(*rest),
    }
}

pub open spec fn item_has_ref_ty(i: Item) -> bool
    decreases i,
{
    match i {
        Item::Fn { head, body } => parts_have_ref_ty(head) || parts_have_ref_ty(body),
        Item::Data { rest, .. } => parts_have_ref_ty(rest),
        Item::Other(ps) => parts_have_ref_ty(ps),
    }
}

/// Whether the attributes of every data declaration in `e` satisfy `p`.
pub open spec fn expr_data_all(e: Expr, p: spec_fn(Attrs) -> bool) -> bool
    decreases e,
{
    match e {
        Expr::MarkRef { expr, .. } => expr_data_all(*expr, p),
        Expr::MarkDeref(x) => expr_data_all(*x, p),
        Expr::MarkAssign { left, right } => expr_data_all(*left, p) && expr_data_all(*right, p),
        Expr::Reference { expr, .. } => expr_data_all(*expr, p),
        Expr::Deref(x) => expr_data_all(*x, p),
        Expr::Assign { left, right } => expr_data_all(*left, p) && expr_data_all(*right, p),
        Expr::Ident(_) => true,
        Expr::Call { func, args } => expr_data_all(*func, p) && args_data_all(args, p),
        Expr::Cast { expr, .. } => expr_data_all(*expr, p),
        Expr::Unsafe(ps) => parts_data_all(ps, p),
        Expr::Other(ps) => parts_data_all(ps, p),
    }
}

pub open spec fn args_data_all(a: Args, p: spec_fn(Attrs) -> bool) -> bool
    decreases a,
{
    match a {
        Args::End => true,
        Args::Arg(e, rest) => expr_data_all(*e, p) && args_data_all(*rest, p),
    }
}

pub open spec fn parts_data_all(ps: Parts, p: spec_fn(Attrs) -> bool) -> bool
    decreases ps,
{
    match ps {
        Parts::End => true,
        Parts::Text(_, rest) => parts_data_all(*rest, p),
        Parts::Expr(e, rest) => expr_data_all(*e, p) && parts_data_all(*rest, p),
        Parts::Ty(_, rest) => parts_data_all(*rest, p),
        Parts::Item(i, rest) => item_data_all(*i, p) && parts_data_all(*rest, p),
    }
}

pub open spec fn item_data_all(i: Item, p: spec_fn(Attrs) -> bool) -> bool
    decreases i,
{
    match i {
        Item::Fn { head, body } => parts_data_all(head, p) && parts_data_all(body, p),
        Item::Data { attrs, rest } => p(attrs) && parts_data_all(rest, p),
        Item::Other(ps) => parts_data_all(ps, p),
    }
}

/// No marker node remains anywhere in the file.
pub open spec fn file_marker_free(f: SourceFile) -> bool {
    !parts_have_mark(f.parts)
}

/// No reference type remains anywhere in the file.
pub open spec fn file_ref_type_free(f: SourceFile) -> bool {
    !parts_have_ref_ty(f.parts)
}

/// Every data declaration of the file declares each of `Clone` and `Copy` at
/// most once over all its `derive` lists.
pub open spec fn file_declares_copy_once(f: SourceFile) -> bool {
    parts_data_all(f.parts, |a: Attrs| declared_once(a))
}

/// Every data declaration of the file declares `Clone` and `Copy` exactly once
/// each.
pub open spec fn file_copy_ready(f: SourceFile) -> bool {
    parts_data_all(f.parts, |a: Attrs| copy_ready(a))
}

/// What holds of `x` holds of the contents of a block made of `x` alone.
proof fn lemma_single_expr(x: Expr, q: spec_fn(Attrs) -> bool)
    ensures
        parts_have_mark(Parts::Expr(Box::new(x), Box::new(Parts::End))) == expr_has_mark(x),
        parts_have_ref_ty(Parts::Expr(Box::new(x), Box::new(Parts::End))) == expr_has_ref_ty(x),
        parts_data_all(Parts::Expr(Box::new(x), Box::new(Parts::End)), q) == expr_data_all(x, q),
{
    assert(!parts_have_mark(Parts::End) && !parts_have_ref_ty(Parts::End));
    assert(parts_data_all(Parts::End, q));
}

proof fn lemma_replaced_expr(e: Expr, p: spec_fn(Attrs) -> bool, q: spec_fn(Attrs) -> bool)
    requires
        forall|a: Attrs| p(a) ==> #[trigger] q(with_copy(a)),
    ensures
        !expr_has_mark(replaced_expr(e)),
        !expr_has_ref_ty(replaced_expr(e)),
        expr_data_all(e, p) ==> expr_data_all(replaced_expr(e), q),
    decreases e,
{
    match e {
        Expr::MarkRef { mutable, expr } => {
            lemma_replaced_expr(*expr, p, q);
            let inner = Expr::Reference { mutable, expr: Box::new(replaced_expr(*expr)) };
            assert(!expr_has_mark(inner) && !expr_has_ref_ty(inner));
            assert(expr_data_all(e, p) ==> expr_data_all(inner, q));
            assert(!ty_has_ref(Ty::Infer));
            assert(!ty_has_ref(Ty::Ptr { mutable, elem: Box::new(Ty::Infer) }));
        },
        Expr::MarkDeref(x) => {
            lemma_replaced_expr(*x, p, q);
            lemma_single_expr(Expr::Deref(Box::new(replaced_expr(*x))), q);
        },
        Expr::MarkAssign { left, right } => {
            lemma_replaced_expr(*left, p, q);
            lemma_replaced_expr(*right, p, q);
            let l = Expr::Deref(Box::new(replaced_expr(*left)));
            assert(!expr_has_mark(l) && !expr_has_ref_ty(l));
            assert(expr_data_all(e, p) ==> expr_data_all(l, q));
            let write = Expr::Assign { left: Box::new(l), right: Box::new(replaced_expr(*right)) };
            lemma_single_expr(write, q);
        },
        Expr::Call { func, args } => {
            lemma_replaced_expr(*func, p, q);
            lemma_replaced_args(args, p, q);
            if let Args::Arg(first, _) = args {
                lemma_replaced_expr(*first, p, q);
            }
        },
        Expr::Reference { expr, .. } => {
            lemma_replaced_expr(*expr, p, q);
        },
        Expr::Deref(x) => {
            lemma_replaced_expr(*x, p, q);
        },
        Expr::Assign { left, right } => {
            lemma_replaced_expr(*left, p, q);
            lemma_replaced_expr(*right, p, q);
        },
        Expr::Ident(_) => {},
        Expr::Cast { expr, ty } => {
            lemma_replaced_expr(*expr, p, q);
            lemma_pointer_ty_removes_refs(*ty);
        },
        Expr::Unsafe(ps) => {
            lemma_replaced_parts(ps, p, q);
        },
        Expr::Other(ps) => {
            lemma_replaced_parts(ps, p, q);
        },
    }
}

proof fn lemma_replaced_args(a: Args, p: spec_fn(Attrs) -> bool, q: spec_fn(Attrs) -> bool)
    requires
        forall|x: Attrs| p(x) ==> #[trigger] q(with_copy(x)),
    ensures
        !args_have_mark(replaced_args(a)),
        !args_have_ref_ty(replaced_args(a)),
        args_data_all(a, p) ==> args_data_all(replaced_args(a), q),
    decreases a,
{
    match a {
        Args::End => {},
        Args::Arg(e, rest) => {
            lemma_replaced_expr(*e, p, q);
            lemma_replaced_args(*rest, p, q);
        },
    }
}

proof fn lemma_replaced_parts(ps: Parts, p: spec_fn(Attrs) -> bool, q: spec_fn(Attrs) -> bool)
    requires
        forall|a: Attrs| p(a) ==> #[trigger] q(with_copy(a)),
    ensures
        !parts_have_mark(replaced_parts(ps)),
        !parts_have_ref_ty(replaced_parts(ps)),
        parts_data_all(ps, p) ==> parts_data_all(replaced_parts(ps), q),
    decreases ps,
{
    match ps {
        Parts::End => {},
        Parts::Text(_, rest) => {
            lemma_replaced_parts(*rest, p, q);
        },
        Parts::Expr(e, rest) => {
            lemma_replaced_expr(*e, p, q);
            lemma_replaced_parts(*rest, p, q);
        },
        Parts::Ty(t, rest) => {
            lemma_pointer_ty_removes_refs(*t);
            lemma_replaced_parts(*rest, p, q);
        },
        Parts::Item(i, rest) => {
            lemma_replaced_item(*i, p, q);
            lemma_replaced_parts(*rest, p, q);
        },
    }
}

proof fn lemma_replaced_item(i: Item, p: spec_fn(Attrs) -> bool, q: spec_fn(Attrs) -> bool)
    requires
        forall|a: Attrs| p(a) ==> #[trigger] q(with_copy(a)),
    ensures
        !item_has_mark(replaced_item(i)),
        !item_has_ref_ty(replaced_item(i)),
        item_data_all(i, p) ==> item_data_all(replaced_item(i), q),
    decreases i,
{
    match i {
        Item::Fn { head, body } => {
            lemma_replaced_parts(head, p, q);
            lemma_replaced_parts(body, p, q);
                        lemma_single_expr(Expr::Unsafe(replaced_parts(body)), q);
        },
        Item::Data { attrs, rest } => {
            lemma_replaced_parts(rest, p, q);
        },
        Item::Other(ps) => {
            lemma_replaced_parts(ps, p, q);
        },
    }
}

/// After the replacement pass no marker node remains, whatever the input.
pub proof fn lemma_no_marker_survives(f: SourceFile)
    ensures
        file_marker_free(replaced_file(f)),
{
    lemma_replaced_parts(f.parts, |a: Attrs| true, |a: Attrs| true);
}

/// After the replacement pass no reference type remains, whatever the input.
pub proof fn lemma_no_ref_type_survives(f: SourceFile)
    ensures
        file_ref_type_free(replaced_file(f)),
{
    lemma_replaced_parts(f.parts, |a: Attrs| true, |a: Attrs| true);
}

/// After the replacement pass every data declaration declares `Clone` and
/// `Copy` exactly once each, where the input declared each at most once, in any
/// of its `derive` lists, whether it declared none, one or both.
pub proof fn lemma_derive_complete(f: SourceFile)
    requires
        file_declares_copy_once(f),
    ensures
        file_copy_ready(replaced_file(f)),
{
    let p = |a: Attrs| declared_once(a);
    let q = |a: Attrs| copy_ready(a);
    assert forall|a: Attrs| p(a) implies #[trigger] q(with_copy(a)) by {
        lemma_with_copy_complete(a);
    }
    lemma_replaced_parts(f.parts, p, q);
}

proof fn lemma_marked_expr_data(e: Expr, p: spec_fn(Attrs) -> bool)
    ensures
        expr_data_all(marked_expr(e), p) == expr_data_all(e, p),
    decreases e,
{
    match e {
        Expr::Assign { left, right } => {
            lemma_marked_expr_data(*left, p);
            lemma_marked_expr_data(*right, p);
        },
        Expr::Call { func, args } => {
            lemma_marked_expr_data(*func, p);
            lemma_marked_args_data(args, p);
        },
        Expr::Cast { expr, .. } => {
            lemma_marked_expr_data(*expr, p);
        },
        Expr::Unsafe(ps) => {
            lemma_marked_parts_data(ps, p);
        },
        Expr::Other(ps) => {
            lemma_marked_parts_data(ps, p);
        },
        _ => {},
    }
}

proof fn lemma_marked_args_data(a: Args, p: spec_fn(Attrs) -> bool)
    ensures
        args_data_all(marked_args(a), p) == args_data_all(a, p),
    decreases a,
{
    match a {
        Args::End => {},
        Args::Arg(e, rest) => {
            lemma_marked_expr_data(*e, p);
            lemma_marked_args_data(*rest, p);
        },
    }
}

proof fn lemma_marked_parts_data(ps: Parts, p: spec_fn(Attrs) -> bool)
    ensures
        parts_data_all(marked_parts(ps), p) == parts_data_all(ps, p),
    decreases ps,
{
    match ps {
        Parts::End => {},
        Parts::Text(_, rest) => {
            lemma_marked_parts_data(*rest, p);
        },
        Parts::Expr(e, rest) => {
            lemma_marked_expr_data(*e, p);
            lemma_marked_parts_data(*rest, p);
        },
        Parts::Ty(_, rest) => {
            lemma_marked_parts_data(*rest, p);
        },
        Parts::Item(i, rest) => {
            lemma_marked_item_data(*i, p);
            lemma_marked_parts_data(*rest, p);
        },
    }
}

proof fn lemma_marked_item_data(i: Item, p: spec_fn(Attrs) -> bool)
    ensures
        item_data_all(marked_item(i), p) == item_data_all(i, p),
    decreases i,
{
    match i {
        Item::Fn { head, body } => {
            lemma_marked_parts_data(head, p);
            lemma_marked_parts_data(body, p);
        },
        Item::Data { rest, .. } => {
            lemma_marked_parts_data(rest, p);
        },
        Item::Other(ps) => {
            lemma_marked_parts_data(ps, p);
        },
    }
}

/// The marking pass leaves the attributes of every data declaration as they are.
pub proof fn lemma_marking_keeps_declarations(f: SourceFile)
    ensures
        file_declares_copy_once(marked_file(f)) == file_declares_copy_once(f),
{
    lemma_marked_parts_data(f.parts, |a: Attrs| declared_once(a));
}

} // verus!
