//! The ordered values of one kind of side effect.
use std::rc::Rc;
use vstd::prelude::*;
use vstd::std_specs::cmp::PartialEqSpec;

verus! {

/// A collection of all registered side effect values of a certain side effect.
///
/// The values stand in the order in which their producers registered. The
/// collection dereferences to a slice of shared values, and its view is the
/// sequence of those values.
#[derive(Debug)]
pub struct SideEffects<T> {
    inner: Vec<Rc<T>>,
}

impl<T> View for SideEffects<T> {
    type V = Seq<Rc<T>>;

    closed spec fn view(&self) -> Seq<Rc<T>> {
        self.inner@
    }
}

impl<T> std::ops::Deref for SideEffects<T> {
    type Target = [Rc<T>];

    fn deref(&self) -> (slice: &[Rc<T>])
        ensures
            slice@ == self@,
    {
        self.inner.as_slice()
    }
}

impl<T> SideEffects<T> {
    /// Wraps values that are already in order.
    pub fn new(from: Vec<Rc<T>>) -> (effects: Self)
        ensures
            effects@ == from@,
    {
        Self { inner: from }
    }
}

impl<T> Clone for SideEffects<T> {
    /// Shares every value once more; no value is copied.
    fn clone(&self) -> (copy: Self)
        ensures
            copy@ == self@,
    {
        let mut inner: Vec<Rc<T>> = Vec::new();
        let mut i: usize = 0;
        while i < self.inner.len()
            invariant
                i <= self.inner.len(),
                inner@ == self.inner@.take(i as int),
            decreases self.inner.len() - i,
        {
            inner.push(Rc::clone(&self.inner[i]));
            i = i + 1;
        }
        Self { inner }
    }
}

impl<T> Default for SideEffects<T> {
    fn default() -> (effects: Self)
        ensures
            effects@ == Seq::<Rc<T>>::empty(),
    {
        Self { inner: Vec::new() }
    }
}

impl<T: PartialEq> SideEffects<T> {
    /// Whether the values at place `i` of the two collections are equal.
    pub open spec fn eq_at(&self, other: &Self, i: int) -> bool {
        (*self@[i]).eq_spec(&*other@[i])
    }
}

impl<T: PartialEq> vstd::std_specs::cmp::PartialEqSpecImpl for SideEffects<T> {
    open spec fn obeys_eq_spec() -> bool {
        T::obeys_eq_spec()
    }

    open spec fn eq_spec(&self, other: &Self) -> bool {
        &&& self@.len() == other@.len()
        &&& forall|i: int| 0 <= i < self@.len() ==> #[trigger] self.eq_at(other, i)
    }
}

impl<T: PartialEq> PartialEq for SideEffects<T> {
    /// Two collections are equal when they hold equal values at every place.
    fn eq(&self, other: &Self) -> (same: bool) {
        if self.inner.len() != other.inner.len() {
            return false;
        }
        let mut i: usize = 0;
        while i < self.inner.len()
            invariant
                i <= self.inner.len(),
                self.inner.len() == other.inner.len(),
                T::obeys_eq_spec() ==> forall|k: int|
                    0 <= k < i ==> #[trigger] self.eq_at(other, k),
            decreases self.inner.len() - i,
        {
            if !(*self.inner[i] == *other.inner[i]) {
                assert(T::obeys_eq_spec() ==> !self.eq_at(other, i as int));
                return false;
            }
            i = i + 1;
        }
        true
    }
}

} // verus!
