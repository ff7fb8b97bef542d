//! Adding the `Clone` and `Copy` derive entries to a data declaration.
use vstd::prelude::*;

use crate::syntax::{Attrs, DeriveEntry, Entries};

verus! {

/// How many times `k` occurs in `es`.
pub open spec fn entry_count(es: Entries, k: DeriveEntry) -> nat
    decreases es,
{
    match es {
        Entries::End => 0,
        Entries::Entry(e, rest) => (if e == k { 1nat } else { 0nat }) + entry_count(*rest, k),
    }
}

/// How many times `k` occurs over all the `derive` lists of `a`.
pub open spec fn derive_count(a: Attrs, k: DeriveEntry) -> nat
    decreases a,
{
    match a {
        Attrs::End => 0,
        Attrs::Derive(es, rest) => entry_count(es, k) + derive_count(*rest, k),
        Attrs::Other(_, rest) => derive_count(*rest, k),
    }
}

pub open spec fn has_derive(a: Attrs) -> bool
    decreases a,
{
    match a {
        Attrs::End => false,
        Attrs::Derive(..) => true,
        Attrs::Other(_, rest) => has_derive(*rest),
    }
}

/// `es` with `k` added at its end.
pub open spec fn entries_push(es: Entries, k: DeriveEntry) -> Entries
    decreases es,
{
    match es {
        Entries::End => Entries::Entry(k, Box::new(Entries::End)),
        Entries::Entry(e, rest) => Entries::Entry(e, Box::new(entries_push(*rest, k))),
    }
}

/// `es` with `Clone` added at its end if `add_clone`, then `Copy` if
/// `add_copy`.
pub open spec fn entries_add(es: Entries, add_clone: bool, add_copy: bool) -> Entries {
    let es1 = if add_clone {
        entries_push(es, DeriveEntry::Clone)
    } else {
        es
    };
    if add_copy {
        entries_push(es1, DeriveEntry::Copy)
    } else {
        es1
    }
}

/// `a` with `entries_add` applied to its first `derive` list.
pub open spec fn complete_first(a: Attrs, add_clone: bool, add_copy: bool) -> Attrs
    decreases a,
{
    match a {
        Attrs::End => Attrs::End,
        Attrs::Derive(es, rest) => Attrs::Derive(entries_add(es, add_clone, add_copy), rest),
        Attrs::Other(s, rest) => Attrs::Other(
            s,
            Box::new(complete_first(*rest, add_clone, add_copy)),
        ),
    }
}

/// `a` with the attribute `at` added at its end.
pub open spec fn attrs_push(a: Attrs, at: Attrs) -> Attrs
    decreases a,
{
    match a {
        Attrs::End => at,
        Attrs::Derive(es, rest) => Attrs::Derive(es, Box::new(attrs_push(*rest, at))),
        Attrs::Other(s, rest) => Attrs::Other(s, Box::new(attrs_push(*rest, at))),
    }
}

/// The `derive(Clone, Copy)` attribute on its own.
pub open spec fn clone_copy_derive() -> Attrs {
    Attrs::Derive(
        Entries::Entry(
            DeriveEntry::Clone,
            Box::new(Entries::Entry(DeriveEntry::Copy, Box::new(Entries::End))),
        ),
        Box::new(Attrs::End),
    )
}

/// The attributes of a data declaration once it is made bitwise-copyable:
/// whichever of `Clone` and `Copy` no `derive` list of the declaration holds is
/// added at the end of the first `derive` list; without a `derive` list,
/// `derive(Clone, Copy)` is added after the other attributes.
pub open spec fn with_copy(a: Attrs) -> Attrs {
    if has_derive(a) {
        complete_first(
            a,
            derive_count(a, DeriveEntry::Clone) == 0,
            derive_count(a, DeriveEntry::Copy) == 0,
        )
    } else {
        attrs_push(a, clone_copy_derive())
    }
}

/// Each of `Clone` and `Copy` is declared at most once over all the `derive`
/// lists.
pub open spec fn declared_once(a: Attrs) -> bool {
    &&& derive_count(a, DeriveEntry::Clone) <= 1
    &&& derive_count(a, DeriveEntry::Copy) <= 1
}

/// `Clone` and `Copy` are each declared exactly once.
pub open spec fn copy_ready(a: Attrs) -> bool {
    &&& derive_count(a, DeriveEntry::Clone) == 1
    &&& derive_count(a, DeriveEntry::Copy) == 1
}

fn is_clone(e: &DeriveEntry) -> (r: bool)
    ensures
        r == (*e == DeriveEntry::Clone),
{
    match e {
        DeriveEntry::Clone => true,
        _ => false,
    }
}

fn is_copy(e: &DeriveEntry) -> (r: bool)
    ensures
        r == (*e == DeriveEntry::Copy),
{
    match e {
        DeriveEntry::Copy => true,
        _ => false,
    }
}

/// Whether `es` holds `Clone`, and whether it holds `Copy`.
fn entries_declare(es: &Entries) -> (r: (bool, bool))
    ensures
        r.0 == (entry_count(*es, DeriveEntry::Clone) > 0),
        r.1 == (entry_count(*es, DeriveEntry::Copy) > 0),
    decreases es,
{
    match es {
        Entries::End => (false, false),
        Entries::Entry(e, rest) => {
            let (c, p) = entries_declare(rest);
            (c || is_clone(e), p || is_copy(e))
        },
    }
}

fn push_entry(es: Entries, k: DeriveEntry) -> (r: Entries)
    ensures
        r == entries_push(es, k),
    decreases es,
{
    match es {
        Entries::End => Entries::Entry(k, Box::new(Entries::End)),
        Entries::Entry(e, rest) => Entries::Entry(e, Box::new(push_entry(*rest, k))),
    }
}

fn add_entries(es: Entries, add_clone: bool, add_copy: bool) -> (r: Entries)
    ensures
        r == entries_add(es, add_clone, add_copy),
{
    let es1 = if add_clone {
        push_entry(es, DeriveEntry::Clone)
    } else {
        es
    };
    if add_copy {
        push_entry(es1, DeriveEntry::Copy)
    } else {
        es1
    }
}

/// Whether some `derive` list of `a` holds `Clone`, and whether some holds
/// `Copy`.
fn attrs_declare(a: &Attrs) -> (r: (bool, bool))
    ensures
        r.0 == (derive_count(*a, DeriveEntry::Clone) > 0),
        r.1 == (derive_count(*a, DeriveEntry::Copy) > 0),
    decreases a,
{
    match a {
        Attrs::End => (false, false),
        Attrs::Derive(es, rest) => {
            let (c, p) = entries_declare(es);
            let (rc, rp) = attrs_declare(rest);
            (c || rc, p || rp)
        },
        Attrs::Other(_, rest) => attrs_declare(rest),
    }
}

fn derive_present(a: &Attrs) -> (r: bool)
    ensures
        r == has_derive(*a),
    decreases a,
{
    match a {
        Attrs::End => false,
        Attrs::Derive(..) => true,
        Attrs::Other(_, rest) => derive_present(rest),
    }
}

fn complete_first_derive(a: Attrs, add_clone: bool, add_copy: bool) -> (r: Attrs)
    ensures
        r == complete_first(a, add_clone, add_copy),
    decreases a,
{
    match a {
        Attrs::End => Attrs::End,
        Attrs::Derive(es, rest) => Attrs::Derive(add_entries(es, add_clone, add_copy), rest),
        Attrs::Other(s, rest) => Attrs::Other(
            s,
            Box::new(complete_first_derive(*rest, add_clone, add_copy)),
        ),
    }
}

fn push_attr(a: Attrs, at: Attrs) -> (r: Attrs)
    ensures
        r == attrs_push(a, at),
    decreases a,
{
    match a {
        Attrs::End => at,
        Attrs::Derive(es, rest) => Attrs::Derive(es, Box::new(push_attr(*rest, at))),
        Attrs::Other(s, rest) => Attrs::Other(s, Box::new(push_attr(*rest, at))),
    }
}

/// Makes a data declaration bitwise-copyable: whichever of `Clone` and `Copy`
/// none of its `derive` lists holds is added at the end of its first `derive`
/// list, which keeps its entries and their order; with no `derive` list,
/// `derive(Clone, Copy)` is added at the end.
pub fn make_copy(attrs: Attrs) -> (r: Attrs)
    ensures
        r == with_copy(attrs),
{
    if derive_present(&attrs) {
        let (has_clone, has_copy) = attrs_declare(&attrs);
        complete_first_derive(attrs, !has_clone, !has_copy)
    } else {
        let both = Attrs::Derive(
            Entries::Entry(
                DeriveEntry::Clone,
                Box::new(Entries::Entry(DeriveEntry::Copy, Box::new(Entries::End))),
            ),
            Box::new(Attrs::End),
        );
        push_attr(attrs, both)
    }
}

proof fn lemma_entries_push_count(es: Entries, k: DeriveEntry, j: DeriveEntry)
    ensures
        entry_count(entries_push(es, k), j) == entry_count(es, j) + (if k == j { 1nat } else { 0nat }),
    decreases es,
{
    match es {
        Entries::End => {},
        Entries::Entry(_, rest) => {
            lemma_entries_push_count(*rest, k, j);
        },
    }
}

proof fn lemma_entries_add_count(es: Entries, add_clone: bool, add_copy: bool, k: DeriveEntry)
    requires
        k == DeriveEntry::Clone || k == DeriveEntry::Copy,
    ensures
        entry_count(entries_add(es, add_clone, add_copy), k) == entry_count(es, k) + (if (k
            == DeriveEntry::Clone && add_clone) || (k == DeriveEntry::Copy && add_copy) {
            1nat
        } else {
            0nat
        }),
{
    let es1 = if add_clone {
        entries_push(es, DeriveEntry::Clone)
    } else {
        es
    };
    lemma_entries_push_count(es, DeriveEntry::Clone, k);
    lemma_entries_push_count(es1, DeriveEntry::Copy, k);
}

proof fn lemma_complete_first_count(a: Attrs, add_clone: bool, add_copy: bool, k: DeriveEntry)
    requires
        k == DeriveEntry::Clone || k == DeriveEntry::Copy,
        has_derive(a),
    ensures
        derive_count(complete_first(a, add_clone, add_copy), k) == derive_count(a, k) + (if (k
            == DeriveEntry::Clone && add_clone) || (k == DeriveEntry::Copy && add_copy) {
            1nat
        } else {
            0nat
        }),
    decreases a,
{
    match a {
        Attrs::End => {},
        Attrs::Derive(es, _) => {
            lemma_entries_add_count(es, add_clone, add_copy, k);
        },
        Attrs::Other(_, rest) => {
            lemma_complete_first_count(*rest, add_clone, add_copy, k);
        },
    }
}

proof fn lemma_attrs_push_count(a: Attrs, at: Attrs, k: DeriveEntry)
    ensures
        derive_count(attrs_push(a, at), k) == derive_count(a, k) + derive_count(at, k),
    decreases a,
{
    match a {
        Attrs::End => {},
        Attrs::Derive(_, rest) => {
            lemma_attrs_push_count(*rest, at, k);
        },
        Attrs::Other(_, rest) => {
            lemma_attrs_push_count(*rest, at, k);
        },
    }
}

proof fn lemma_no_derive_counts(a: Attrs, k: DeriveEntry)
    requires
        !has_derive(a),
    ensures
        derive_count(a, k) == 0,
    decreases a,
{
    match a {
        Attrs::End => {},
        Attrs::Derive(..) => {},
        Attrs::Other(_, rest) => {
            lemma_no_derive_counts(*rest, k);
        },
    }
}

/// A data declaration that declares each of `Clone` and `Copy` at most once,
/// in any of its `derive` lists, declares each exactly once after `with_copy`,
/// whether it declared none, one or both of them before.
pub proof fn lemma_with_copy_complete(a: Attrs)
    requires
        declared_once(a),
    ensures
        copy_ready(with_copy(a)),
{
    if has_derive(a) {
        let add_clone = derive_count(a, DeriveEntry::Clone) == 0;
        let add_copy = derive_count(a, DeriveEntry::Copy) == 0;
        lemma_complete_first_count(a, add_clone, add_copy, DeriveEntry::Clone);
        lemma_complete_first_count(a, add_clone, add_copy, DeriveEntry::Copy);
    } else {
        lemma_no_derive_counts(a, DeriveEntry::Clone);
        lemma_no_derive_counts(a, DeriveEntry::Copy);
        lemma_attrs_push_count(a, clone_copy_derive(), DeriveEntry::Clone);
        lemma_attrs_push_count(a, clone_copy_derive(), DeriveEntry::Copy);
        assert(derive_count(clone_copy_derive(), DeriveEntry::Clone) == 1) by {
            reveal_with_fuel(entry_count, 3);
            reveal_with_fuel(derive_count, 2);
        }
        assert(derive_count(clone_copy_derive(), DeriveEntry::Copy) == 1) by {
            reveal_with_fuel(entry_count, 3);
            reveal_with_fuel(derive_count, 2);
        }
    }
}

/// The entries of `es`, in order.
pub open spec fn entries_seq(es: Entries) -> Seq<DeriveEntry>
    decreases es,
{
    match es {
        Entries::End => Seq::empty(),
        Entries::Entry(e, rest) => seq![e] + entries_seq(*rest),
    }
}

/// The entries of the first `derive` list of `a`, in order; none if `a` has no
/// `derive` list.
pub open spec fn first_entries(a: Attrs) -> Seq<DeriveEntry>
    decreases a,
{
    match a {
        Attrs::End => Seq::empty(),
        Attrs::Derive(es, _) => entries_seq(es),
        Attrs::Other(_, rest) => first_entries(*rest),
    }
}

/// `a` without its first `derive` list: its other attributes, in order.
pub open spec fn without_first_derive(a: Attrs) -> Attrs
    decreases a,
{
    match a {
        Attrs::End => Attrs::End,
        Attrs::Derive(_, rest) => *rest,
        Attrs::Other(s, rest) => Attrs::Other(s, Box::new(without_first_derive(*rest))),
    }
}

/// The markers that no `derive` list of `a` holds: `Clone`, then `Copy`.
pub open spec fn missing_markers(a: Attrs) -> Seq<DeriveEntry> {
    (if derive_count(a, DeriveEntry::Clone) == 0 {
        seq![DeriveEntry::Clone]
    } else {
        Seq::empty()
    }) + (if derive_count(a, DeriveEntry::Copy) == 0 {
        seq![DeriveEntry::Copy]
    } else {
        Seq::empty()
    })
}

proof fn lemma_entries_push_seq(es: Entries, k: DeriveEntry)
    ensures
        entries_seq(entries_push(es, k)) == entries_seq(es).push(k),
    decreases es,
{
    match es {
        Entries::End => {
            assert(entries_seq(Entries::End) == Seq::<DeriveEntry>::empty());
            assert(seq![k] + Seq::<DeriveEntry>::empty() =~= Seq::<DeriveEntry>::empty().push(k));
        },
        Entries::Entry(e, rest) => {
            lemma_entries_push_seq(*rest, k);
            assert(seq![e] + entries_seq(*rest).push(k) =~= (seq![e] + entries_seq(*rest)).push(k));
        },
    }
}

proof fn lemma_complete_first_shape(a: Attrs, add_clone: bool, add_copy: bool)
    requires
        has_derive(a),
    ensures
        has_derive(complete_first(a, add_clone, add_copy)),
        first_entries(complete_first(a, add_clone, add_copy)) == first_entries(a) + (if add_clone {
            seq![DeriveEntry::Clone]
        } else {
            Seq::empty()
        }) + (if add_copy {
            seq![DeriveEntry::Copy]
        } else {
            Seq::empty()
        }),
        without_first_derive(complete_first(a, add_clone, add_copy)) == without_first_derive(a),
    decreases a,
{
    match a {
        Attrs::End => {},
        Attrs::Derive(es, _) => {
            let es1 = if add_clone {
                entries_push(es, DeriveEntry::Clone)
            } else {
                es
            };
            lemma_entries_push_seq(es, DeriveEntry::Clone);
            lemma_entries_push_seq(es1, DeriveEntry::Copy);
            let s0 = entries_seq(es);
            let c: Seq<DeriveEntry> = if add_clone {
                seq![DeriveEntry::Clone]
            } else {
                Seq::empty()
            };
            let p: Seq<DeriveEntry> = if add_copy {
                seq![DeriveEntry::Copy]
            } else {
                Seq::empty()
            };
            assert(entries_seq(es1) =~= s0 + c);
            assert(entries_seq(entries_add(es, add_clone, add_copy)) =~= s0 + c + p);
        },
        Attrs::Other(_, rest) => {
            lemma_complete_first_shape(*rest, add_clone, add_copy);
        },
    }
}

proof fn lemma_attrs_push_shape(a: Attrs, at: Attrs)
    requires
        !has_derive(a),
    ensures
        has_derive(attrs_push(a, at)) == has_derive(at),
        first_entries(attrs_push(a, at)) == first_entries(at),
        without_first_derive(attrs_push(a, at)) == attrs_push(a, without_first_derive(at)),
    decreases a,
{
    match a {
        Attrs::End => {},
        Attrs::Derive(..) => {},
        Attrs::Other(_, rest) => {
            lemma_attrs_push_shape(*rest, at);
        },
    }
}

proof fn lemma_attrs_push_end(a: Attrs)
    ensures
        attrs_push(a, Attrs::End) == a,
    decreases a,
{
    match a {
        Attrs::End => {},
        Attrs::Derive(_, rest) => {
            lemma_attrs_push_end(*rest);
        },
        Attrs::Other(_, rest) => {
            lemma_attrs_push_end(*rest);
        },
    }
}

/// Making a data declaration bitwise-copyable keeps its other attributes and
/// their order, keeps the entries of its first `derive` list and their order,
/// and appends to that list exactly the markers that no `derive` list held,
/// `Clone` before `Copy`; a declaration without a `derive` list gains one that
/// holds both.
pub proof fn lemma_with_copy_appends_missing(a: Attrs)
    ensures
        has_derive(with_copy(a)),
        first_entries(with_copy(a)) == first_entries(a) + missing_markers(a),
        without_first_derive(with_copy(a)) == without_first_derive(a),
{
    if has_derive(a) {
        lemma_complete_first_shape(
            a,
            derive_count(a, DeriveEntry::Clone) == 0,
            derive_count(a, DeriveEntry::Copy) == 0,
        );
    } else {
        lemma_no_derive_counts(a, DeriveEntry::Clone);
        lemma_no_derive_counts(a, DeriveEntry::Copy);
        lemma_no_derive_first_entries(a);
        lemma_no_derive_without_first(a);
        lemma_attrs_push_shape(a, clone_copy_derive());
        lemma_attrs_push_end(a);
        assert(entries_seq(Entries::End) == Seq::<DeriveEntry>::empty());
        assert(entries_seq(Entries::Entry(DeriveEntry::Copy, Box::new(Entries::End)))
            =~= seq![DeriveEntry::Copy]);
        assert(first_entries(clone_copy_derive()) =~= seq![DeriveEntry::Clone, DeriveEntry::Copy]);
        assert(first_entries(a) + missing_markers(a) =~= seq![DeriveEntry::Clone, DeriveEntry::Copy]);
    }
}

proof fn lemma_no_derive_first_entries(a: Attrs)
    requires
        !has_derive(a),
    ensures
        first_entries(a) == Seq::<DeriveEntry>::empty(),
    decreases a,
{
    match a {
        Attrs::Other(_, rest) => {
            lemma_no_derive_first_entries(*rest);
        },
        _ => {},
    }
}

proof fn lemma_no_derive_without_first(a: Attrs)
    requires
        !has_derive(a),
    ensures
        without_first_derive(a) == a,
    decreases a,
{
    match a {
        Attrs::Other(_, rest) => {
            lemma_no_derive_without_first(*rest);
        },
        _ => {},
    }
}

} // verus!
