//! The producer of one side effect, as a function of what it is handed.
use crate::hooks::{use_store, NoContext};
use crate::store::{Message, Store};
use crate::utils::Id;
use std::rc::Rc;
use vstd::prelude::*;
use vstd::std_specs::cmp::PartialEqSpec;

verus! {

/// The properties of a producer: the value it registers.
#[derive(Debug)]
pub struct SideEffectProps<T> {
    pub value: Rc<T>,
}

impl<T> Clone for SideEffectProps<T> {
    /// Shares the value.
    fn clone(&self) -> (copy: Self)
        ensures
            copy == *self,
    {
        Self { value: Rc::clone(&self.value) }
    }
}

impl<T: PartialEq> vstd::std_specs::cmp::PartialEqSpecImpl for SideEffectProps<T> {
    open spec fn obeys_eq_spec() -> bool {
        T::obeys_eq_spec()
    }

    open spec fn eq_spec(&self, other: &Self) -> bool {
        (*self.value).eq_spec(&*other.value)
    }
}

impl<T: PartialEq> PartialEq for SideEffectProps<T> {
    fn eq(&self, other: &Self) -> (same: bool) {
        *self.value == *other.value
    }
}

/// Registers a single side effect.
///
/// This is the step a producer takes whenever it is activated or its value
/// changes: under the identifier `id` it tells the store around it of the
/// value in `props`. The message is an update where the store lists `id`
/// and an add where it does not, so that a producer which finds itself under
/// another store, or whose registration was removed from outside, registers
/// afresh. Outside of every store the step fails.
///
/// At its deactivation the producer dispatches [`Message::Remove`] for `id`
/// to the store it last registered with.
pub fn side_effect<T>(context: Option<&Store<T>>, id: &Id, props: &SideEffectProps<T>) -> (step:
    Result<Message<T>, NoContext>)
    ensures
        match context {
            Some(store) => step == Ok::<Message<T>, NoContext>(
                if store@.has(*id) {
                    Message::Update((*id, props.value))
                } else {
                    Message::Add((*id, props.value))
                },
            ),
            None => step == Err::<Message<T>, NoContext>(NoContext),
        },
{
    match use_store(context) {
        Ok(store) => {
            if store.has(id) {
                Ok(Message::Update((*id, Rc::clone(&props.value))))
            } else {
                Ok(Message::Add((*id, Rc::clone(&props.value))))
            }
        },
        Err(e) => Err(e),
    }
}

} // verus!
