use amargo::derives::make_copy;
use amargo::marking::{mark_expr, mark_file};
use amargo::pipeline::transform_file;
use amargo::replacing::{replace_expr, replace_file};
use amargo::syntax::{Args, Attrs, DeriveEntry, Entries, Expr, Item, Parts, SourceFile, Ty, TyParts};
use amargo::types::replace_ty;

fn text(s: &str, rest: Parts) -> Parts {
    Parts::Text(s.to_string(), Box::new(rest))
}

fn expr_part(e: Expr, rest: Parts) -> Parts {
    Parts::Expr(Box::new(e), Box::new(rest))
}

fn ty_part(t: Ty, rest: Parts) -> Parts {
    Parts::Ty(Box::new(t), Box::new(rest))
}

fn item_part(i: Item, rest: Parts) -> Parts {
    Parts::Item(Box::new(i), Box::new(rest))
}

fn ident(s: &str) -> Expr {
    Expr::Ident(s.to_string())
}

fn named_ty(s: &str) -> Ty {
    Ty::Other(TyParts::Text(s.to_string(), Box::new(TyParts::End)))
}

fn ref_ty(mutable: bool, elem: Ty) -> Ty {
    Ty::Ref { mutable, elem: Box::new(elem) }
}

fn ptr_ty(mutable: bool, elem: Ty) -> Ty {
    Ty::Ptr { mutable, elem: Box::new(elem) }
}

fn deref(e: Expr) -> Expr {
    Expr::Deref(Box::new(e))
}

fn unsafe_of(e: Expr) -> Expr {
    Expr::Unsafe(expr_part(e, Parts::End))
}

fn entries(es: Vec<DeriveEntry>) -> Entries {
    let mut r = Entries::End;
    for e in es.into_iter().rev() {
        r = Entries::Entry(e, Box::new(r));
    }
    r
}

fn derive(es: Vec<DeriveEntry>, rest: Attrs) -> Attrs {
    Attrs::Derive(entries(es), Box::new(rest))
}

fn other_attr(s: &str, rest: Attrs) -> Attrs {
    Attrs::Other(s.to_string(), Box::new(rest))
}

fn data_item(attrs: Attrs) -> Item {
    Item::Data { attrs, rest: text("struct S { x: i32 }", Parts::End) }
}

fn count(a: &Attrs, k: &DeriveEntry) -> usize {
    match a {
        Attrs::End => 0,
        Attrs::Other(_, rest) => count(rest, k),
        Attrs::Derive(es, rest) => {
            let mut n = 0;
            let mut cur = es;
            while let Entries::Entry(e, next) = cur {
                if e == k {
                    n += 1;
                }
                cur = next;
            }
            n + count(rest, k)
        },
    }
}

// fn f(x: &i32) -> i32 { *x }
fn deref_fn() -> SourceFile {
    let head = text(
        "fn f(x:",
        ty_part(ref_ty(false, named_ty("i32")), text(") ->", ty_part(named_ty("i32"), Parts::End))),
    );
    let body = expr_part(deref(ident("x")), Parts::End);
    SourceFile { parts: item_part(Item::Fn { head, body }, Parts::End) }
}

#[test]
fn deref_function_is_rewritten() {
    let out = transform_file(deref_fn());
    let head = text(
        "fn f(x:",
        ty_part(ptr_ty(false, named_ty("i32")), text(") ->", ty_part(named_ty("i32"), Parts::End))),
    );
    let body = expr_part(unsafe_of(unsafe_of(deref(ident("x")))), Parts::End);
    let expected = SourceFile { parts: item_part(Item::Fn { head, body }, Parts::End) };
    assert_eq!(out, expected);
}

#[test]
fn assignment_through_deref_is_one_unsafe_write() {
    // *p = *p + 1
    let right = Expr::Other(expr_part(deref(ident("p")), text("+ 1", Parts::End)));
    let assign = Expr::Assign { left: Box::new(deref(ident("p"))), right: Box::new(right) };
    let out = replace_expr(mark_expr(assign));
    let right = Expr::Other(expr_part(deref(ident("p")), text("+ 1", Parts::End)));
    let expected = unsafe_of(Expr::Assign { left: Box::new(deref(ident("p"))), right: Box::new(right) });
    assert_eq!(out, expected);
}

#[test]
fn plain_assignment_marks_deref_read_on_the_right() {
    // x = *p
    let assign = Expr::Assign { left: Box::new(ident("x")), right: Box::new(deref(ident("p"))) };
    let out = replace_expr(mark_expr(assign));
    let expected = Expr::Assign { left: Box::new(ident("x")), right: Box::new(unsafe_of(deref(ident("p")))) };
    assert_eq!(out, expected);
}

#[test]
fn marking_leaves_marker_contents_alone() {
    let marked = mark_expr(Expr::Reference { mutable: false, expr: Box::new(deref(ident("x"))) });
    assert_eq!(marked, Expr::MarkRef { mutable: false, expr: Box::new(deref(ident("x"))) });
    let again = mark_expr(marked);
    assert_eq!(again, Expr::MarkRef { mutable: false, expr: Box::new(deref(ident("x"))) });
}

#[test]
fn reference_becomes_cast_to_pointer_of_same_mutability() {
    let shared = replace_expr(mark_expr(Expr::Reference { mutable: false, expr: Box::new(ident("x")) }));
    assert_eq!(
        shared,
        Expr::Cast {
            expr: Box::new(Expr::Reference { mutable: false, expr: Box::new(ident("x")) }),
            ty: Box::new(ptr_ty(false, Ty::Infer)),
        }
    );
    let unique = replace_expr(mark_expr(Expr::Reference { mutable: true, expr: Box::new(ident("x")) }));
    assert_eq!(
        unique,
        Expr::Cast {
            expr: Box::new(Expr::Reference { mutable: true, expr: Box::new(ident("x")) }),
            ty: Box::new(ptr_ty(true, Ty::Infer)),
        }
    );
}

#[test]
fn no_marker_survives_nested_markers() {
    let inner = Expr::MarkDeref(Box::new(Expr::MarkRef { mutable: true, expr: Box::new(ident("y")) }));
    let out = replace_expr(Expr::MarkAssign { left: Box::new(ident("p")), right: Box::new(inner) });
    let resolved_ref = Expr::Cast {
        expr: Box::new(Expr::Reference { mutable: true, expr: Box::new(ident("y")) }),
        ty: Box::new(ptr_ty(true, Ty::Infer)),
    };
    let expected = unsafe_of(Expr::Assign {
        left: Box::new(deref(ident("p"))),
        right: Box::new(unsafe_of(deref(resolved_ref))),
    });
    assert_eq!(out, expected);
}

#[test]
fn reserved_calls_become_references() {
    let call = |name: &str, args: Args| Expr::Call { func: Box::new(ident(name)), args };
    let one = || Args::Arg(Box::new(ident("v")), Box::new(Args::End));
    assert_eq!(
        replace_expr(call("__amargo_ref", one())),
        Expr::Reference { mutable: false, expr: Box::new(ident("v")) }
    );
    assert_eq!(
        replace_expr(call("__amargo_ref_mut", one())),
        Expr::Reference { mutable: true, expr: Box::new(ident("v")) }
    );
    assert_eq!(replace_expr(call("__amargo_ref", Args::End)), call("__amargo_ref", Args::End));
    assert_eq!(replace_expr(call("other", one())), call("other", one()));
}

#[test]
fn reference_types_become_pointers_at_every_depth() {
    let t = ref_ty(true, ref_ty(false, named_ty("u8")));
    assert_eq!(replace_ty(t), ptr_ty(true, ptr_ty(false, named_ty("u8"))));
    let generic = Ty::Other(TyParts::Text(
        "Vec<".to_string(),
        Box::new(TyParts::Ty(
            Box::new(ref_ty(false, named_ty("str"))),
            Box::new(TyParts::Text(">".to_string(), Box::new(TyParts::End))),
        )),
    ));
    let expected = Ty::Other(TyParts::Text(
        "Vec<".to_string(),
        Box::new(TyParts::Ty(
            Box::new(ptr_ty(false, named_ty("str"))),
            Box::new(TyParts::Text(">".to_string(), Box::new(TyParts::End))),
        )),
    ));
    assert_eq!(replace_ty(generic), expected);
}

#[test]
fn pointer_types_are_left_unchanged() {
    let t = ptr_ty(false, ptr_ty(true, named_ty("u8")));
    assert_eq!(replace_ty(t), ptr_ty(false, ptr_ty(true, named_ty("u8"))));
    assert_eq!(replace_ty(replace_ty(ref_ty(false, Ty::Infer))), ptr_ty(false, Ty::Infer));
}

#[test]
fn existing_clone_gets_copy_appended() {
    let attrs = derive(vec![DeriveEntry::Clone], Attrs::End);
    assert_eq!(make_copy(attrs), derive(vec![DeriveEntry::Clone, DeriveEntry::Copy], Attrs::End));
    let attrs = derive(vec![DeriveEntry::Other("Debug".to_string()), DeriveEntry::Clone], Attrs::End);
    assert_eq!(
        make_copy(attrs),
        derive(
            vec![DeriveEntry::Other("Debug".to_string()), DeriveEntry::Clone, DeriveEntry::Copy],
            Attrs::End
        )
    );
}

#[test]
fn missing_derive_list_is_added_after_other_attributes() {
    let attrs = other_attr("#[repr(C)]", Attrs::End);
    assert_eq!(
        make_copy(attrs),
        other_attr("#[repr(C)]", derive(vec![DeriveEntry::Clone, DeriveEntry::Copy], Attrs::End))
    );
}

#[test]
fn existing_copy_gets_clone_appended_and_both_stay_once() {
    let attrs = derive(vec![DeriveEntry::Copy], Attrs::End);
    assert_eq!(make_copy(attrs), derive(vec![DeriveEntry::Copy, DeriveEntry::Clone], Attrs::End));
    let attrs = derive(vec![DeriveEntry::Copy, DeriveEntry::Clone], Attrs::End);
    assert_eq!(make_copy(attrs), derive(vec![DeriveEntry::Copy, DeriveEntry::Clone], Attrs::End));
}

#[test]
fn only_the_first_derive_list_is_extended() {
    let attrs = derive(
        vec![DeriveEntry::Other("Debug".to_string())],
        derive(vec![DeriveEntry::Other("Hash".to_string())], Attrs::End),
    );
    assert_eq!(
        make_copy(attrs),
        derive(
            vec![DeriveEntry::Other("Debug".to_string()), DeriveEntry::Clone, DeriveEntry::Copy],
            derive(vec![DeriveEntry::Other("Hash".to_string())], Attrs::End)
        )
    );
}

#[test]
fn every_data_declaration_ends_with_clone_and_copy_once() {
    let inputs = vec![
        Attrs::End,
        derive(vec![DeriveEntry::Clone], Attrs::End),
        derive(vec![DeriveEntry::Copy], other_attr("#[repr(C)]", Attrs::End)),
        derive(vec![DeriveEntry::Clone, DeriveEntry::Copy], Attrs::End),
        derive(vec![DeriveEntry::Other("Debug".to_string())], derive(vec![DeriveEntry::Copy], Attrs::End)),
    ];
    for attrs in inputs {
        let file = SourceFile { parts: item_part(data_item(attrs), Parts::End) };
        let out = transform_file(file);
        match out.parts {
            Parts::Item(item, _) => match *item {
                Item::Data { attrs, .. } => {
                    assert_eq!(count(&attrs, &DeriveEntry::Clone), 1);
                    assert_eq!(count(&attrs, &DeriveEntry::Copy), 1);
                },
                other => panic!("unexpected item {:?}", other),
            },
            other => panic!("unexpected parts {:?}", other),
        }
    }
}

#[test]
fn nested_items_are_rewritten_too() {
    // mod m { fn g() {} struct S; }
    let g = Item::Fn { head: text("fn g()", Parts::End), body: Parts::End };
    let s = data_item(Attrs::End);
    let module = Item::Other(text("mod m {", item_part(g, item_part(s, text("}", Parts::End)))));
    let out = replace_file(mark_file(SourceFile { parts: item_part(module, Parts::End) }));
    let g = Item::Fn { head: text("fn g()", Parts::End), body: expr_part(Expr::Unsafe(Parts::End), Parts::End) };
    let s = data_item(derive(vec![DeriveEntry::Clone, DeriveEntry::Copy], Attrs::End));
    let module = Item::Other(text("mod m {", item_part(g, item_part(s, text("}", Parts::End)))));
    assert_eq!(out, SourceFile { parts: item_part(module, Parts::End) });
}

#[test]
fn cast_types_are_rewritten() {
    let cast = Expr::Cast { expr: Box::new(ident("x")), ty: Box::new(ref_ty(false, named_ty("u8"))) };
    assert_eq!(
        replace_expr(mark_expr(cast)),
        Expr::Cast { expr: Box::new(ident("x")), ty: Box::new(ptr_ty(false, named_ty("u8"))) }
    );
}

#[test]
fn marker_in_a_later_derive_list_is_not_added_again() {
    // #[derive(Debug)] #[derive(Copy)]
    let attrs = derive(
        vec![DeriveEntry::Other("Debug".to_string())],
        derive(vec![DeriveEntry::Copy], Attrs::End),
    );
    let out = make_copy(attrs);
    assert_eq!(
        out,
        derive(
            vec![DeriveEntry::Other("Debug".to_string()), DeriveEntry::Clone],
            derive(vec![DeriveEntry::Copy], Attrs::End)
        )
    );
    assert_eq!(count(&out, &DeriveEntry::Clone), 1);
    assert_eq!(count(&out, &DeriveEntry::Copy), 1);
}

#[test]
fn both_markers_in_later_lists_leave_the_first_list_alone() {
    let attrs = derive(
        vec![DeriveEntry::Other("Debug".to_string())],
        other_attr("#[repr(C)]", derive(vec![DeriveEntry::Clone, DeriveEntry::Copy], Attrs::End)),
    );
    let out = make_copy(attrs);
    assert_eq!(
        out,
        derive(
            vec![DeriveEntry::Other("Debug".to_string())],
            other_attr("#[repr(C)]", derive(vec![DeriveEntry::Clone, DeriveEntry::Copy], Attrs::End))
        )
    );
}
