//! The producer of one effect, with a lifecycle of its own.
use crate::store::{Message, Store};
use crate::utils::{Id, IdSource};
use std::rc::Rc;
use vstd::prelude::*;

verus! {

/// The properties of a producer: the value it registers.
pub struct EffectProps<T> {
    pub value: Rc<T>,
}

impl<T> Clone for EffectProps<T> {
    /// Shares the value.
    fn clone(&self) -> (copy: Self)
        ensures
            copy == *self,
    {
        Self { value: Rc::clone(&self.value) }
    }
}

/// A producer between its creation and its end.
///
/// It is registered from its creation on, keeps the store up to date while
/// its value changes, and is removed when it is destroyed. None of its steps
/// touches a store: each returns the message that its owner is to dispatch.
/// Once destroyed it has nothing more to dispatch.
pub struct Effect<T> {
    props: EffectProps<T>,
    id: Id,
    removed: bool,
}

impl<T> Effect<T> {
    /// The identifier the producer registers under.
    pub closed spec fn id(&self) -> Id {
        self.id
    }

    /// The value the producer last registered.
    pub closed spec fn value(&self) -> Rc<T> {
        self.props.value
    }

    /// Whether the producer was destroyed.
    pub closed spec fn removed(&self) -> bool {
        self.removed
    }

    /// Registers: draws an identifier from `ids` and adds the value of
    /// `props` under it.
    pub fn create(props: EffectProps<T>, ids: &mut IdSource) -> (made: (Self, Message<T>))
        ensures
            made.0.id()@ == old(ids)@,
            made.0.value() == props.value,
            !made.0.removed(),
            made.1 == Message::Add((made.0.id(), props.value)),
            final(ids)@ == IdSource::following(old(ids)@),
    {
        let id = Id::new(ids);
        let msg = Message::Add((id, Rc::clone(&props.value)));
        (Self { props, id, removed: false }, msg)
    }

    /// A producer has no messages of its own to react to: nothing changes
    /// and no render is asked for.
    pub fn update(&mut self, _msg: ()) -> (render: bool)
        ensures
            !render,
            *final(self) == *old(self),
    {
        false
    }

    /// Takes a new value. While the producer lives, the message brings the
    /// store up to date: an update where the store lists the producer's
    /// identifier, an add where it was removed from outside. A destroyed
    /// producer keeps its value and dispatches nothing. No render is asked
    /// for either way.
    pub fn change(&mut self, props: EffectProps<T>, store: &Store<T>) -> (step: (
        bool,
        Option<Message<T>>,
    ))
        ensures
            !step.0,
            final(self).id() == old(self).id(),
            final(self).removed() == old(self).removed(),
            old(self).removed() ==> step.1 is None && final(self).value() == old(self).value(),
            !old(self).removed() ==> final(self).value() == props.value && step.1 == Some(
                if store@.has(old(self).id()) {
                    Message::Update((old(self).id(), props.value))
                } else {
                    Message::Add((old(self).id(), props.value))
                },
            ),
    {
        if self.removed {
            return (false, None);
        }
        self.props = props;
        let value = Rc::clone(&self.props.value);
        if store.has(&self.id) {
            (false, Some(Message::Update((self.id, value))))
        } else {
            (false, Some(Message::Add((self.id, value))))
        }
    }

    /// Ends the producer. The first call yields the removal of its
    /// identifier, every later call nothing.
    pub fn destroy(&mut self) -> (msg: Option<Message<T>>)
        ensures
            final(self).removed(),
            final(self).id() == old(self).id(),
            final(self).value() == old(self).value(),
            msg == if old(self).removed() {
                None
            } else {
                Some(Message::<T>::Remove(old(self).id()))
            },
    {
        if self.removed {
            None
        } else {
            self.removed = true;
            Some(Message::Remove(self.id))
        }
    }
}

} // verus!
