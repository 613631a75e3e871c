//! A growable, contiguous container of elements of type `T`.

use vstd::prelude::*;

verus! {

/// A mutable, contiguous, dynamically-sized container of elements of type `T`.
///
/// The elements, in order, are the container's view.
pub struct Vector<T> {
    elems: Vec<T>,
}

impl<T> View for Vector<T> {
    type V = Seq<T>;

    closed spec fn view(&self) -> Seq<T> {
        self.elems@
    }
}

/// `Vec::capacity`: the number of elements the vector can hold without
/// reallocating, which std documents to be at least its length. The value
/// itself is the allocator's choice, so nothing else is claimed of it.
#[verifier::external_body]
fn vec_capacity<T>(v: &Vec<T>) -> (c: usize)
    ensures
        c >= v@.len(),
{
    v.capacity()
}

impl<T> Vector<T> {
    /// An empty container.
    pub fn new() -> (v: Vector<T>)
        ensures
            v@ == Seq::<T>::empty(),
    {
        Vector { elems: Vec::new() }
    }

    /// The number of elements.
    pub fn len(&self) -> (n: usize)
        ensures
            n == self@.len(),
    {
        self.elems.len()
    }

    /// Whether the container holds no element.
    pub fn is_empty(&self) -> (b: bool)
        ensures
            b <==> self@.len() == 0,
    {
        self.len() == 0
    }

    /// The number of elements that fit without reallocating: never less than
    /// `len()`.
    pub fn capacity(&self) -> (c: usize)
        ensures
            c >= self@.len(),
    {
        vec_capacity(&self.elems)
    }

    /// The element at `index`, if there is one.
    pub fn get(&self, index: usize) -> (r: Option<&T>)
        ensures
            index < self@.len() ==> r == Some(&self@[index as int]),
            index >= self@.len() ==> r is None,
    {
        if index < self.elems.len() {
            Some(&self.elems[index])
        } else {
            None
        }
    }

    /// The element at `index`.
    pub fn index(&self, index: usize) -> (r: &T)
        requires
            index < self@.len(),
        ensures
            *r == self@[index as int],
    {
        &self.elems[index]
    }

    /// Puts `value` in the place of the element at `index`.
    pub fn set(&mut self, index: usize, value: T)
        requires
            index < old(self)@.len(),
        ensures
            final(self)@ == old(self)@.update(index as int, value),
    {
        self.elems.set(index, value);
    }

    /// The elements as a slice.
    pub fn as_slice(&self) -> (r: &[T])
        ensures
            r@ == self@,
    {
        self.elems.as_slice()
    }

    /// Appends `value` after the last element.
    pub fn push(&mut self, value: T)
        ensures
            final(self)@ == old(self)@.push(value),
    {
        self.elems.push(value);
    }
}

impl<T> Default for Vector<T> {
    /// An empty container.
    fn default() -> (v: Vector<T>)
        ensures
            v@ == Seq::<T>::empty(),
    {
        Vector::new()
    }
}

} // verus!
