//! The scope of one kind of side effect: its store and who listens to it.
use crate::collections::SideEffects;
use crate::store::{Message, State, Store};
use crate::utils::{Id, IdSource};
use std::rc::Rc;
use vstd::prelude::*;

verus! {

/// One step of a provider that keeps its stores apart: the store that
/// follows `prev` under `action`, and the side effects to call `on_change`
/// with. `prev` itself stays as it was.
pub fn side_effect_provider<T>(prev: &Store<T>, action: Message<T>) -> (next: (
    Store<T>,
    SideEffects<T>,
))
    ensures
        next.0@ == prev@.apply(action),
        next.0@.wf(),
        next.0.scope() == prev.scope(),
        next.1@ == next.0@.snapshot(),
{
    let mut store = prev.clone();
    store.reduce(action);
    let effects = store.get();
    (store, effects)
}

/// What a provider owes its subscribers after a change: the new side
/// effects, for each of the subscribers named.
pub struct Notice<T> {
    pub effects: SideEffects<T>,
    pub subscribers: Vec<Id>,
}

/// Provider of a Side Effect.
///
/// A provider owns the store of its scope and knows who subscribed to it.
/// Producers reach the store only through [`SideEffectProvider::dispatch`]
/// and the calls built on it, each of which returns the [`Notice`] that is
/// due at once: the provider calls nobody itself.
pub struct SideEffectProvider<T> {
    store: Store<T>,
    subscribers: Vec<Id>,
}

impl<T> SideEffectProvider<T> {
    /// What the store of the scope holds.
    pub closed spec fn state(&self) -> State<T> {
        self.store@
    }

    /// The identifier of the scope.
    pub closed spec fn scope(&self) -> Id {
        self.store.scope()
    }

    /// The subscribers, in the order in which they came.
    pub closed spec fn subscribers(&self) -> Seq<Id> {
        self.subscribers@
    }

    /// A scope with an empty store and no subscriber, under an identifier
    /// drawn from `ids`.
    pub fn new(ids: &mut IdSource) -> (provider: Self)
        ensures
            provider.state() == State::<T>::empty(),
            provider.subscribers() == Seq::<Id>::empty(),
            provider.scope()@ == old(ids)@,
            final(ids)@ == IdSource::following(old(ids)@),
    {
        Self { store: Store::new(ids), subscribers: Vec::new() }
    }

    /// The store, for the components that look it up.
    pub fn store(&self) -> (store: &Store<T>)
        ensures
            store@ == self.state(),
            store.scope() == self.scope(),
    {
        &self.store
    }

    /// The side effects as they stand.
    pub fn read(&self) -> (effects: SideEffects<T>)
        ensures
            effects@ == self.state().snapshot(),
            self.state().wf(),
    {
        self.store.get()
    }

    /// Takes a subscriber on, under an identifier drawn from `ids`, and
    /// hands it the side effects as they stand. The store is not touched.
    pub fn subscribe(&mut self, ids: &mut IdSource) -> (taken: (Id, SideEffects<T>))
        ensures
            taken.0@ == old(ids)@,
            final(ids)@ == IdSource::following(old(ids)@),
            final(self).state() == old(self).state(),
            final(self).scope() == old(self).scope(),
            final(self).subscribers() == if old(self).subscribers().contains(taken.0) {
                old(self).subscribers()
            } else {
                old(self).subscribers().push(taken.0)
            },
            taken.1@ == old(self).state().snapshot(),
    {
        let id = Id::new(ids);
        if !Self::listed(&self.subscribers, &id) {
            self.subscribers.push(id);
        }
        (id, self.store.get())
    }

    /// Lets a subscriber go: no later notice names it. Nothing changes if it
    /// never subscribed.
    pub fn unsubscribe(&mut self, subscriber: &Id)
        ensures
            final(self).state() == old(self).state(),
            final(self).scope() == old(self).scope(),
            final(self).subscribers() == old(self).subscribers().filter(
                State::<T>::other_than(*subscriber),
            ),
            !final(self).subscribers().contains(*subscriber),
    {
        let ghost keep = State::<T>::other_than(*subscriber);
        let mut kept: Vec<Id> = Vec::new();
        let mut i: usize = 0;
        while i < self.subscribers.len()
            invariant
                i <= self.subscribers.len(),
                keep == State::<T>::other_than(*subscriber),
                kept@ == self.subscribers@.take(i as int).filter(keep),
                *self == *old(self),
            decreases self.subscribers.len() - i,
        {
            proof {
                assert(self.subscribers@.take(i + 1) =~= self.subscribers@.take(i as int).push(
                    self.subscribers@[i as int],
                ));
                self.subscribers@.take(i as int).lemma_filter_push(self.subscribers@[i as int], keep);
            }
            if self.subscribers[i] != *subscriber {
                kept.push(self.subscribers[i]);
            }
            i = i + 1;
        }
        proof {
            assert(self.subscribers@.take(self.subscribers.len() as int) =~= self.subscribers@);
            if kept@.contains(*subscriber) {
                let k = choose|k: int| 0 <= k < kept@.len() && kept@[k] == *subscriber;
                self.subscribers@.lemma_filter_pred(keep, k);
            }
        }
        self.subscribers = kept;
    }

    /// Applies one message to the store and says whom to tell of what.
    pub fn dispatch(&mut self, msg: Message<T>) -> (notice: Notice<T>)
        ensures
            final(self).state() == old(self).state().apply(msg),
            final(self).state().wf(),
            final(self).scope() == old(self).scope(),
            final(self).subscribers() == old(self).subscribers(),
            notice.effects@ == final(self).state().snapshot(),
            notice.subscribers@ == final(self).subscribers(),
    {
        self.store.reduce(msg);
        let subscribers = self.subscribers.clone();
        assert(subscribers@ =~= self.subscribers@);
        Notice { effects: self.store.get(), subscribers }
    }

    /// Registers `value` under an identifier drawn from `ids`.
    pub fn register(&mut self, ids: &mut IdSource, value: Rc<T>) -> (made: (Id, Notice<T>))
        ensures
            made.0@ == old(ids)@,
            final(ids)@ == IdSource::following(old(ids)@),
            final(self).state() == old(self).state().add(made.0, value),
            final(self).state().wf(),
            final(self).scope() == old(self).scope(),
            final(self).subscribers() == old(self).subscribers(),
            made.1.effects@ == final(self).state().snapshot(),
            made.1.subscribers@ == final(self).subscribers(),
    {
        let id = Id::new(ids);
        let notice = self.dispatch(Message::Add((id, value)));
        (id, notice)
    }

    /// Gives `id` the value `value`, as a producer does: by an update where
    /// `id` is listed, and by an add where it is not, so that `id` is listed
    /// afterwards.
    pub fn update(&mut self, id: &Id, value: Rc<T>) -> (notice: Notice<T>)
        ensures
            final(self).state() == old(self).state().add(*id, value),
            final(self).state().wf(),
            final(self).scope() == old(self).scope(),
            final(self).subscribers() == old(self).subscribers(),
            notice.effects@ == final(self).state().snapshot(),
            notice.subscribers@ == final(self).subscribers(),
    {
        if self.store.has(id) {
            self.dispatch(Message::Update((*id, value)))
        } else {
            self.dispatch(Message::Add((*id, value)))
        }
    }

    /// Takes `id` out of the store.
    pub fn unregister(&mut self, id: &Id) -> (notice: Notice<T>)
        ensures
            final(self).state() == old(self).state().remove(*id),
            final(self).state().wf(),
            final(self).scope() == old(self).scope(),
            final(self).subscribers() == old(self).subscribers(),
            notice.effects@ == final(self).state().snapshot(),
            notice.subscribers@ == final(self).subscribers(),
    {
        self.dispatch(Message::Remove(*id))
    }

    /// Whether `id` occurs in `ids`.
    fn listed(ids: &Vec<Id>, id: &Id) -> (found: bool)
        ensures
            found == ids@.contains(*id),
    {
        let mut i: usize = 0;
        while i < ids.len()
            invariant
                i <= ids.len(),
                forall|k: int| 0 <= k < i ==> ids@[k] != *id,
            decreases ids.len() - i,
        {
            if ids[i] == *id {
                return true;
            }
            i = i + 1;
        }
        false
    }
}

} // verus!
