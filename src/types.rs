//! Rewriting of reference types into raw-pointer types.
use vstd::prelude::*;

use crate::syntax::{Ty, TyParts};

verus! {

/// Whether a reference type occurs anywhere in `t`.
pub open spec fn ty_has_ref(t: Ty) -> bool
    decreases t,
{
    match t {
        Ty::Ref { .. } => true,
        Ty::Ptr { elem, .. } => ty_has_ref(*elem),
        Ty::Infer => false,
        Ty::Other(ps) => ty_parts_have_ref(ps),
    }
}

pub open spec fn ty_parts_have_ref(ps: TyParts) -> bool
    decreases ps,
{
    match ps {
        TyParts::End => false,
        TyParts::Text(_, rest) => ty_parts_have_ref(*rest),
        TyParts::Ty(t, rest) => ty_has_ref(*t) || ty_parts_have_ref(*rest),
    }
}

/// `t` with every reference type replaced by the raw-pointer type of the same
/// mutability, at every depth.
pub open spec fn pointer_ty(t: Ty) -> Ty
    decreases t,
{
    match t {
        Ty::Ref { mutable, elem } => Ty::Ptr { mutable, elem: Box::new(pointer_ty(*elem)) },
        Ty::Ptr { mutable, elem } => Ty::Ptr { mutable, elem: Box::new(pointer_ty(*elem)) },
        Ty::Infer => Ty::Infer,
        Ty::Other(ps) => Ty::Other(pointer_ty_parts(ps)),
    }
}

pub open spec fn pointer_ty_parts(ps: TyParts) -> TyParts
    decreases ps,
{
    match ps {
        TyParts::End => TyParts::End,
        TyParts::Text(s, rest) => TyParts::Text(s, Box::new(pointer_ty_parts(*rest))),
        TyParts::Ty(t, rest) => TyParts::Ty(
            Box::new(pointer_ty(*t)),
            Box::new(pointer_ty_parts(*rest)),
        ),
    }
}

/// Rewrites every reference type in `t` into a raw-pointer type of the same
/// mutability.
pub fn replace_ty(t: Ty) -> (r: Ty)
    ensures
        r == pointer_ty(t),
        !ty_has_ref(r),
    decreases t,
{
    match t {
        Ty::Ref { mutable, elem } => Ty::Ptr { mutable, elem: Box::new(replace_ty(*elem)) },
        Ty::Ptr { mutable, elem } => Ty::Ptr { mutable, elem: Box::new(replace_ty(*elem)) },
        Ty::Infer => Ty::Infer,
        Ty::Other(ps) => Ty::Other(replace_ty_parts(ps)),
    }
}

pub fn replace_ty_parts(ps: TyParts) -> (r: TyParts)
    ensures
        r == pointer_ty_parts(ps),
        !ty_parts_have_ref(r),
    decreases ps,
{
    match ps {
        TyParts::End => TyParts::End,
        TyParts::Text(s, rest) => TyParts::Text(s, Box::new(replace_ty_parts(*rest))),
        TyParts::Ty(t, rest) => TyParts::Ty(
            Box::new(replace_ty(*t)),
            Box::new(replace_ty_parts(*rest)),
        ),
    }
}

/// A type in which no reference type occurs is left as it is by the rewriting.
pub proof fn lemma_pointer_ty_fixes_ref_free(t: Ty)
    requires
        !ty_has_ref(t),
    ensures
        pointer_ty(t) == t,
    decreases t,
{
    match t {
        Ty::Ref { .. } => {},
        Ty::Ptr { elem, .. } => {
            lemma_pointer_ty_fixes_ref_free(*elem);
        },
        Ty::Infer => {},
        Ty::Other(ps) => {
            lemma_pointer_ty_parts_fixes_ref_free(ps);
        },
    }
}

pub proof fn lemma_pointer_ty_parts_fixes_ref_free(ps: TyParts)
    requires
        !ty_parts_have_ref(ps),
    ensures
        pointer_ty_parts(ps) == ps,
    decreases ps,
{
    match ps {
        TyParts::End => {},
        TyParts::Text(_, rest) => {
            lemma_pointer_ty_parts_fixes_ref_free(*rest);
        },
        TyParts::Ty(t, rest) => {
            lemma_pointer_ty_fixes_ref_free(*t);
            lemma_pointer_ty_parts_fixes_ref_free(*rest);
        },
    }
}

/// No reference type remains in a rewritten type.
pub proof fn lemma_pointer_ty_removes_refs(t: Ty)
    ensures
        !ty_has_ref(pointer_ty(t)),
    decreases t,
{
    match t {
        Ty::Ref { elem, .. } => {
            lemma_pointer_ty_removes_refs(*elem);
        },
        Ty::Ptr { elem, .. } => {
            lemma_pointer_ty_removes_refs(*elem);
        },
        Ty::Infer => {},
        Ty::Other(ps) => {
            lemma_pointer_ty_parts_removes_refs(ps);
        },
    }
}

pub proof fn lemma_pointer_ty_parts_removes_refs(ps: TyParts)
    ensures
        !ty_parts_have_ref(pointer_ty_parts(ps)),
    decreases ps,
{
    match ps {
        TyParts::End => {},
        TyParts::Text(_, rest) => {
            lemma_pointer_ty_parts_removes_refs(*rest);
        },
        TyParts::Ty(t, rest) => {
            lemma_pointer_ty_removes_refs(*t);
            lemma_pointer_ty_parts_removes_refs(*rest);
        },
    }
}

/// Rewriting types twice gives what rewriting them once gives.
pub proof fn lemma_pointer_ty_idempotent(t: Ty)
    ensures
        pointer_ty(pointer_ty(t)) == pointer_ty(t),
{
    lemma_pointer_ty_removes_refs(t);
    lemma_pointer_ty_fixes_ref_free(pointer_ty(t));
}

} // verus!
