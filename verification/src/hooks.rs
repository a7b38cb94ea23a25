//! Reading the store that surrounds a component.
use crate::collections::SideEffects;
use crate::store::Store;
use vstd::prelude::*;

verus! {

/// The failure of a component that finds no store around it.
#[derive(Debug, Clone, Copy, PartialEq, Eq, Structural)]
pub struct NoContext;

impl NoContext {
    /// What to tell whoever mounted the component.
    pub fn message(&self) -> (text: String)
        ensures
            text@ == "No context set."@,
    {
        "No context set.".to_owned()
    }
}

/// The store around a component, or the failure to report where there is
/// none.
pub fn use_store<'a, T>(context: Option<&'a Store<T>>) -> (found: Result<&'a Store<T>, NoContext>)
    ensures
        match context {
            Some(store) => found == Ok::<&Store<T>, NoContext>(store),
            None => found == Err::<&Store<T>, NoContext>(NoContext),
        },
{
    match context {
        Some(store) => Ok(store),
        None => Err(NoContext),
    }
}

/// A hook to read side effect.
///
/// Yields the side effects of the store around the component as they stand,
/// and nothing where no store is around.
pub fn use_side_effects<T>(context: Option<&Store<T>>) -> (effects: Option<SideEffects<T>>)
    ensures
        match context {
            Some(store) => effects matches Some(read) && read@ == store@.snapshot(),
            None => effects is None,
        },
{
    match context {
        Some(store) => Some(store.get()),
        None => None,
    }
}

} // verus!
