//! Owned containers that rewritten code uses in place of `Box` and `Vec`: a
//! heap box and a growable array with the same construction, access, mutation
//! and destruction operations, and explicit destruction through `AmargoDrop`.
//!
//! Each mutating operation of the array takes its contents out as an owned
//! `Vec`, performs the standard operation on it, and stores the result back.
use vstd::prelude::*;

verus! {

/// Explicit destruction of a value: rewritten code calls it where the value's
/// owner ends, since nothing is destroyed on its own.
pub trait AmargoDrop: Sized {
    fn drop(self) {
    }
}

/// Destroys `val` through its `AmargoDrop` implementation.
pub fn __amargo_drop<T: AmargoDrop>(val: T) {
    <T as AmargoDrop>::drop(val);
}

impl<'a, T> AmargoDrop for &'a T {
}

/// A heap box holding one value.
pub struct AmargoBox<T> {
    value: Box<T>,
}

impl<T> View for AmargoBox<T> {
    type V = T;

    closed spec fn view(&self) -> T {
        *self.value
    }
}

impl<T> AmargoBox<T> {
    /// Moves `val` into a new box.
    pub fn new(val: T) -> (r: Self)
        ensures
            r@ == val,
    {
        AmargoBox { value: Box::new(val) }
    }

    /// Releases the box and its value.
    pub fn destroy(other: AmargoBox<T>) {
    }

    /// The boxed value.
    pub fn deref(&self) -> (r: &T)
        ensures
            *r == self@,
    {
        &self.value
    }

    /// The boxed value, for writing.
    pub fn deref_mut(&mut self) -> (r: &mut T)
        ensures
            *r == old(self)@,
            final(self)@ == *final(r),
    {
        &mut self.value
    }
}

impl<T> AmargoDrop for AmargoBox<T> {
    fn drop(self) {
        AmargoBox::destroy(self)
    }
}

/// A growable array.
pub struct AmargoVec<T> {
    items: Vec<T>,
}

impl<T> View for AmargoVec<T> {
    type V = Seq<T>;

    closed spec fn view(&self) -> Seq<T> {
        self.items@
    }
}

/// The contents of an array after a pop, and what the pop returns.
pub open spec fn popped<T>(s: Seq<T>) -> (Seq<T>, Option<T>) {
    if s.len() > 0 {
        (s.drop_last(), Some(s.last()))
    } else {
        (s, None)
    }
}

impl<T> AmargoVec<T> {
    /// An empty array.
    pub fn new() -> (r: Self)
        ensures
            r@ == Seq::<T>::empty(),
    {
        AmargoVec::__new_from_vec(Vec::new())
    }

    /// An array holding the contents of `vec`.
    pub fn __new_from_vec(vec: Vec<T>) -> (r: Self)
        ensures
            r@ == vec@,
    {
        AmargoVec { items: vec }
    }

    /// The number of values in the array.
    pub fn len(&self) -> (r: usize)
        ensures
            r == self@.len(),
    {
        self.items.len()
    }

    /// Adds `value` at the end.
    pub fn push(&mut self, value: T)
        ensures
            final(self)@ == old(self)@.push(value),
    {
        let mut vec = self.get_vec();
        vec.push(value);
        self.set_vec(&mut vec);
    }

    /// Removes the last value and returns it; `None` when the array is empty.
    pub fn pop(&mut self) -> (r: Option<T>)
        ensures
            (final(self)@, r) == popped(old(self)@),
    {
        let mut vec = self.get_vec();
        let ret = vec.pop();
        self.set_vec(&mut vec);
        ret
    }

    /// Takes the contents out as an owned `Vec`, leaving the array empty.
    fn get_vec(&mut self) -> (r: Vec<T>)
        ensures
            r@ == old(self)@,
            final(self)@ == Seq::<T>::empty(),
    {
        let mut vec = Vec::new();
        std::mem::swap(&mut self.items, &mut vec);
        vec
    }

    /// Stores the contents of `vec` in the array, and hands the array's former
    /// contents back in `vec`.
    fn set_vec(&mut self, vec: &mut Vec<T>)
        ensures
            final(self)@ == old(vec)@,
            final(vec)@ == old(self)@,
    {
        std::mem::swap(&mut self.items, vec);
    }

    /// Releases the array and its values.
    pub fn destroy(other: AmargoVec<T>) {
    }

    /// The value at `index`.
    pub fn index(&self, index: usize) -> (r: &T)
        requires
            index < self@.len(),
        ensures
            *r == self@[index as int],
    {
        &self.items[index]
    }

    /// The value at `index`, for writing.
    pub fn index_mut(&mut self, index: usize) -> (r: &mut T)
        requires
            index < old(self)@.len(),
        ensures
            *r == old(self)@[index as int],
            final(self)@ == old(self)@.update(index as int, *final(r)),
    {
        &mut self.items[index]
    }
}

impl<T> AmargoDrop for AmargoVec<T> {
    fn drop(self) {
        AmargoVec::destroy(self)
    }
}

/// The contents after pushing the values of `xs` onto `s`, first to last.
pub open spec fn after_pushes<T>(s: Seq<T>, xs: Seq<T>) -> Seq<T>
    decreases xs.len(),
{
    if xs.len() == 0 {
        s
    } else {
        after_pushes(s.push(xs[0]), xs.subrange(1, xs.len() as int))
    }
}

/// The contents after `n` pops from `s`, and the values the pops return, in
/// the order they return them.
pub open spec fn after_pops<T>(s: Seq<T>, n: nat) -> (Seq<T>, Seq<Option<T>>)
    decreases n,
{
    if n == 0 {
        (s, Seq::empty())
    } else {
        let (rest, out) = popped(s);
        let (fin, outs) = after_pops(rest, (n - 1) as nat);
        (fin, seq![out] + outs)
    }
}

proof fn lemma_after_pushes_appends<T>(s: Seq<T>, xs: Seq<T>)
    ensures
        after_pushes(s, xs) == s + xs,
    decreases xs.len(),
{
    if xs.len() == 0 {
        assert(s + xs =~= s);
    } else {
        let tail = xs.subrange(1, xs.len() as int);
        lemma_after_pushes_appends(s.push(xs[0]), tail);
        assert(s.push(xs[0]) + tail =~= s + xs);
    }
}

proof fn lemma_pops_undo<T>(s: Seq<T>, xs: Seq<T>)
    ensures
        after_pops(s + xs, xs.len()).0 == s,
        after_pops(s + xs, xs.len()).1 == xs.reverse().map_values(|x: T| Some(x)),
    decreases xs.len(),
{
    let n = xs.len();
    if n == 0 {
        assert(s + xs =~= s);
        assert(xs.reverse().map_values(|x: T| Some(x)) =~= Seq::<Option<T>>::empty());
    } else {
        let ys = xs.drop_last();
        lemma_pops_undo(s, ys);
        assert((s + xs).drop_last() =~= s + ys);
        assert((s + xs).last() == xs.last());
        let outs = after_pops(s + ys, ys.len()).1;
        assert(seq![Some(xs.last())] + outs =~= xs.reverse().map_values(|x: T| Some(x)));
    }
}

/// Pushing values onto an array and then popping as many returns the values in
/// reverse order, and leaves the array as it was: empty, if it was empty, so
/// that one more pop returns `None`.
pub proof fn lemma_push_pop_stack<T>(s: Seq<T>, xs: Seq<T>)
    ensures
        after_pops(after_pushes(s, xs), xs.len()).0 == s,
        after_pops(after_pushes(s, xs), xs.len()).1 == xs.reverse().map_values(|x: T| Some(x)),
        s.len() == 0 ==> popped(after_pops(after_pushes(s, xs), xs.len()).0) == (s, None::<T>),
{
    lemma_after_pushes_appends(s, xs);
    lemma_pops_undo(s, xs);
}

} // verus!
