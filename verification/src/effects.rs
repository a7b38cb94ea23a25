//! Ordered effect values, as the store-bridging components hand them on.
use std::rc::Rc;
use vstd::prelude::*;

verus! {

/// The values of all registered effects of one kind, oldest first.
///
/// It dereferences to a slice of shared values; its view is the sequence of
/// those values.
#[derive(Debug)]
pub struct Effects<T> {
    inner: Vec<Rc<T>>,
}

impl<T> View for Effects<T> {
    type V = Seq<Rc<T>>;

    closed spec fn view(&self) -> Seq<Rc<T>> {
        self.inner@
    }
}

impl<T> std::ops::Deref for Effects<T> {
    type Target = [Rc<T>];

    fn deref(&self) -> (slice: &[Rc<T>])
        ensures
            slice@ == self@,
    {
        self.inner.as_slice()
    }
}

impl<T> Effects<T> {
    /// Wraps values that are already in order.
    pub fn new(from: Vec<Rc<T>>) -> (effects: Self)
        ensures
            effects@ == from@,
    {
        Self { inner: from }
    }
}

impl<T> Default for Effects<T> {
    fn default() -> (effects: Self)
        ensures
            effects@ == Seq::<Rc<T>>::empty(),
    {
        Self { inner: Vec::new() }
    }
}

impl<T> Clone for Effects<T> {
    /// Shares every value once more; no value is copied.
    fn clone(&self) -> (copy: Self)
        ensures
            copy@ == self@,
    {
        let mut inner: Vec<Rc<T>> = Vec::new();
        let mut i: usize = 0;
        while i < self.inner.len()
            invariant
                i <= self.inner.len(),
                inner@ == self.inner@.take(i as int),
            decreases self.inner.len() - i,
        {
            inner.push(Rc::clone(&self.inner[i]));
            i = i + 1;
        }
        Self { inner }
    }
}

} // verus!
