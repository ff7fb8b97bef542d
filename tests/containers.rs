use amargo::shim::{__amargo_drop, AmargoBox, AmargoDrop, AmargoVec};

#[test]
fn pushes_then_pops_come_back_reversed() {
    let mut v = AmargoVec::new();
    assert_eq!(v.len(), 0);
    v.push(10);
    v.push(20);
    v.push(30);
    assert_eq!(v.len(), 3);
    assert_eq!(v.pop(), Some(30));
    assert_eq!(v.pop(), Some(20));
    assert_eq!(v.pop(), Some(10));
    assert_eq!(v.len(), 0);
    assert_eq!(v.pop(), None);
    assert_eq!(v.len(), 0);
}

#[test]
fn array_from_vec_keeps_contents() {
    let mut v = AmargoVec::__new_from_vec(vec![1, 2, 3]);
    assert_eq!(v.len(), 3);
    assert_eq!(*v.index(0), 1);
    assert_eq!(*v.index(2), 3);
    *v.index_mut(1) = 7;
    assert_eq!(*v.index(1), 7);
    v.push(4);
    assert_eq!(v.len(), 4);
    assert_eq!(v.pop(), Some(4));
    assert_eq!(v.pop(), Some(3));
    AmargoVec::destroy(v);
}

#[test]
fn box_reads_and_writes_its_value() {
    let mut b = AmargoBox::new(5);
    assert_eq!(*b.deref(), 5);
    *b.deref_mut() = 6;
    assert_eq!(*b.deref(), 6);
    b.drop();
}

#[test]
fn explicit_destruction_through_trait() {
    let v = AmargoVec::__new_from_vec(vec![String::from("a")]);
    __amargo_drop(v);
    let b = AmargoBox::new(String::from("b"));
    __amargo_drop(b);
    let x = 3;
    __amargo_drop(&x);
}
