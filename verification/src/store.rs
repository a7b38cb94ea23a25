//! The ordered, keyed store of one kind of side effect.
//!
//! A [`Store`] pairs the order in which identifiers were added with the value
//! each identifier currently maps to. Its view is a [`State`], and every
//! operation of the store is stated as one step of that model.
use crate::collections::SideEffects;
use crate::effects::Effects;
use crate::utils::{Id, IdSource};
use std::collections::HashMap;
use std::rc::Rc;
use vstd::prelude::*;

verus! {

broadcast use vstd::std_specs::hash::group_hash_axioms;

/// One change to a store.
pub enum Message<T> {
    /// Register a value under an identifier.
    Add((Id, Rc<T>)),
    /// Replace the value of an identifier.
    Update((Id, Rc<T>)),
    /// Take an identifier out.
    Remove(Id),
}

impl<T> Message<T> {
    /// Whether this message adds `id`.
    pub open spec fn adds(self, id: Id) -> bool {
        self matches Message::Add((i, _)) && i == id
    }

    /// Whether this message updates `id`.
    pub open spec fn updates(self, id: Id) -> bool {
        self matches Message::Update((i, _)) && i == id
    }

    /// Whether this message removes `id`.
    pub open spec fn removes(self, id: Id) -> bool {
        self matches Message::Remove(i) && i == id
    }
}

/// What a store holds, as mathematics.
pub struct State<T> {
    /// The identifiers that a read walks, oldest registration first.
    pub order: Seq<Id>,
    /// The current value of every identifier that has one.
    pub values: Map<Id, Rc<T>>,
}

impl<T> State<T> {
    /// The state of a store that nothing was dispatched to.
    pub open spec fn empty() -> Self {
        State { order: Seq::empty(), values: Map::empty() }
    }

    /// No identifier is listed twice, and every listed identifier has a value.
    pub open spec fn wf(self) -> bool {
        &&& self.order.no_duplicates()
        &&& forall|id: Id| self.order.contains(id) ==> #[trigger] self.values.contains_key(id)
    }

    /// Whether `id` is listed.
    pub open spec fn has(self, id: Id) -> bool {
        self.order.contains(id)
    }

    /// A first add lists `id` last and gives it `value`; an add of a listed
    /// identifier only replaces its value.
    pub open spec fn add(self, id: Id, value: Rc<T>) -> Self {
        State {
            order: if self.has(id) {
                self.order
            } else {
                self.order.push(id)
            },
            values: self.values.insert(id, value),
        }
    }

    /// An update gives `id` the value `value` and never touches the order:
    /// the value of an identifier that is not listed stays out of every read
    /// until that identifier is added.
    pub open spec fn update(self, id: Id, value: Rc<T>) -> Self {
        State { order: self.order, values: self.values.insert(id, value) }
    }

    /// The test that every identifier but `id` passes.
    pub open spec fn other_than(id: Id) -> spec_fn(Id) -> bool {
        |other: Id| other != id
    }

    /// A removal unlists `id` and forgets its value.
    pub open spec fn remove(self, id: Id) -> Self {
        State { order: self.order.filter(Self::other_than(id)), values: self.values.remove(id) }
    }

    /// The state after one message.
    pub open spec fn apply(self, msg: Message<T>) -> Self {
        match msg {
            Message::Add((id, value)) => self.add(id, value),
            Message::Update((id, value)) => self.update(id, value),
            Message::Remove(id) => self.remove(id),
        }
    }

    /// The state after a run of messages, first message first.
    pub open spec fn replay(self, msgs: Seq<Message<T>>) -> Self
        decreases msgs.len(),
    {
        if msgs.len() == 0 {
            self
        } else {
            self.replay(msgs.drop_last()).apply(msgs.last())
        }
    }

    /// What a read yields: the values of the listed identifiers, in the order
    /// of listing, without those identifiers that have no value.
    pub open spec fn snapshot(self) -> Seq<Rc<T>> {
        self.order.filter_map(Self::lookup(self.values))
    }

    /// Looking an identifier up in `values`.
    pub open spec fn lookup(values: Map<Id, Rc<T>>) -> spec_fn(Id) -> Option<Rc<T>> {
        |id: Id| values.get(id)
    }
}

/// The store of one scope.
///
/// Whatever was dispatched to it, a store lists no identifier twice and holds
/// a value for every identifier it lists.
#[derive(Debug, PartialEq)]
pub struct Store<T> {
    id: Id,
    effect_ids: Vec<Id>,
    effects: HashMap<u64, Rc<T>>,
}

impl<T> View for Store<T> {
    type V = State<T>;

    closed spec fn view(&self) -> State<T> {
        State {
            order: self.effect_ids@,
            values: Self::keyed(self.effects@),
        }
    }
}

impl<T> Store<T> {
    #[verifier::type_invariant]
    spec fn well_formed(&self) -> bool {
        self@.wf()
    }

    /// The identifier of the store itself, which tells scopes apart.
    pub closed spec fn scope(&self) -> Id {
        self.id
    }

    /// An empty store, under an identifier of its own drawn from `ids`.
    pub fn new(ids: &mut IdSource) -> (store: Self)
        ensures
            store@ == State::<T>::empty(),
            store.scope()@ == old(ids)@,
            final(ids)@ == IdSource::following(old(ids)@),
    {
        let id = Id::new(ids);
        let store = Self { id, effect_ids: Vec::new(), effects: HashMap::new() };
        assert(Self::keyed(store.effects@) =~= Map::<Id, Rc<T>>::empty());
        store
    }

    /// The identifier of the store itself.
    pub fn id(&self) -> (id: Id)
        ensures
            id == self.scope(),
    {
        self.id
    }

    /// Whether `id` is listed, that is, whether a read walks it.
    pub fn has(&self, id: &Id) -> (found: bool)
        ensures
            found == self@.has(*id),
            self@.wf(),
    {
        proof {
            use_type_invariant(self);
        }
        let mut i: usize = 0;
        while i < self.effect_ids.len()
            invariant
                i <= self.effect_ids.len(),
                self@.wf(),
                forall|k: int| 0 <= k < i ==> self.effect_ids@[k] != *id,
            decreases self.effect_ids.len() - i,
        {
            if self.effect_ids[i] == *id {
                return true;
            }
            i = i + 1;
        }
        false
    }

    /// Lists `id` last if it is not listed yet, and gives it `effect`.
    pub fn add(&mut self, id: Id, effect: Rc<T>)
        ensures
            final(self)@ == old(self)@.add(id, effect),
            final(self)@.wf(),
            final(self).scope() == old(self).scope(),
    {
        let listed = self.has(&id);
        let (mut order, mut values) = self.take_parts();
        values.insert(id.value(), effect);
        if !listed {
            order.push(id);
        }
        proof {
            Self::lemma_insert_view(old(self).effects@, values@, id, effect);
            old(self)@.lemma_add_wf(id, effect);
        }
        self.put_parts(order, values);
    }

    /// Gives `id` the value `effect` and leaves the order as it is.
    pub fn update(&mut self, id: Id, effect: Rc<T>)
        ensures
            final(self)@ == old(self)@.update(id, effect),
            final(self)@.wf(),
            final(self).scope() == old(self).scope(),
    {
        proof {
            use_type_invariant(&*self);
        }
        let (order, mut values) = self.take_parts();
        values.insert(id.value(), effect);
        proof {
            Self::lemma_insert_view(old(self).effects@, values@, id, effect);
            old(self)@.lemma_update_wf(id, effect);
        }
        self.put_parts(order, values);
    }

    /// Unlists `id` and forgets its value; nothing changes if `id` is unknown.
    pub fn remove(&mut self, id: Id)
        ensures
            final(self)@ == old(self)@.remove(id),
            final(self)@.wf(),
            final(self).scope() == old(self).scope(),
    {
        proof {
            use_type_invariant(&*self);
        }
        let (order, mut values) = self.take_parts();
        let ghost keep = State::<T>::other_than(id);
        let mut kept: Vec<Id> = Vec::new();
        let mut i: usize = 0;
        while i < order.len()
            invariant
                i <= order.len(),
                keep == State::<T>::other_than(id),
                kept@ == order@.take(i as int).filter(keep),
            decreases order.len() - i,
        {
            proof {
                assert(order@.take(i + 1) =~= order@.take(i as int).push(order@[i as int]));
                order@.take(i as int).lemma_filter_push(order@[i as int], keep);
            }
            if order[i] != id {
                kept.push(order[i]);
            }
            i = i + 1;
        }
        values.remove(&id.value());
        proof {
            assert(order@.take(order.len() as int) =~= order@);
            Self::lemma_remove_view(old(self).effects@, values@, id);
            old(self)@.lemma_remove_wf(id);
        }
        self.put_parts(kept, values);
    }

    /// The values of the listed identifiers, oldest registration first.
    ///
    /// Every listed identifier has a value, so the result is as long as the
    /// order and its value at each place is the one of the identifier listed
    /// at that place.
    pub fn get(&self) -> (effects: SideEffects<T>)
        ensures
            effects@ == self@.snapshot(),
            effects@.len() == self@.order.len(),
            forall|i: int|
                0 <= i < self@.order.len() ==> #[trigger] effects@[i] == self@.values[self@.order[i]],
            self@.wf(),
    {
        SideEffects::new(self.collect())
    }

    /// The same read as [`Store::get`], for the components that work with
    /// [`Effects`].
    pub fn get_effects(&self) -> (effects: Effects<T>)
        ensures
            effects@ == self@.snapshot(),
            effects@.len() == self@.order.len(),
            forall|i: int|
                0 <= i < self@.order.len() ==> #[trigger] effects@[i] == self@.values[self@.order[i]],
            self@.wf(),
    {
        Effects::new(self.collect())
    }

    /// Walks the order and shares the value of each identifier.
    fn collect(&self) -> (effects: Vec<Rc<T>>)
        ensures
            effects@ == self@.snapshot(),
            effects@.len() == self@.order.len(),
            forall|i: int|
                0 <= i < self@.order.len() ==> #[trigger] effects@[i] == self@.values[self@.order[i]],
            self@.wf(),
    {
        proof {
            use_type_invariant(self);
            self@.lemma_snapshot_follows_order();
        }
        let ghost look = State::<T>::lookup(self@.values);
        let mut effects: Vec<Rc<T>> = Vec::new();
        let mut i: usize = 0;
        while i < self.effect_ids.len()
            invariant
                i <= self.effect_ids.len(),
                look == State::<T>::lookup(self@.values),
                effects@ == self.effect_ids@.take(i as int).filter_map(look),
            decreases self.effect_ids.len() - i,
        {
            proof {
                self.effect_ids@.lemma_filter_map_take_succ(look, i as int);
            }
            let key: u64 = self.effect_ids[i].value();
            if let Some(m) = self.effects.get(&key) {
                effects.push(Rc::clone(m));
            }
            i = i + 1;
        }
        proof {
            assert(self.effect_ids@.take(self.effect_ids.len() as int) =~= self.effect_ids@);
        }
        effects
    }

    /// Applies one message.
    pub fn reduce(&mut self, msg: Message<T>)
        ensures
            final(self)@ == old(self)@.apply(msg),
            final(self)@.wf(),
            final(self).scope() == old(self).scope(),
    {
        match msg {
            Message::Add((id, effect)) => self.add(id, effect),
            Message::Update((id, effect)) => self.update(id, effect),
            Message::Remove(id) => self.remove(id),
        }
    }

    /// Moves the order and the values out and leaves the store empty, so
    /// that they can be changed together and put back in one step.
    fn take_parts(&mut self) -> (parts: (Vec<Id>, HashMap<u64, Rc<T>>))
        ensures
            parts.0 == old(self).effect_ids,
            parts.1 == old(self).effects,
            final(self).id == old(self).id,
            final(self).effect_ids@.len() == 0,
    {
        let mut order: Vec<Id> = Vec::new();
        let mut values: HashMap<u64, Rc<T>> = HashMap::new();
        core::mem::swap(&mut self.effect_ids, &mut order);
        core::mem::swap(&mut self.effects, &mut values);
        (order, values)
    }

    /// Puts an order and values into a store left empty by `take_parts`.
    fn put_parts(&mut self, order: Vec<Id>, values: HashMap<u64, Rc<T>>)
        requires
            old(self).effect_ids@.len() == 0,
            (State { order: order@, values: Self::keyed(values@) }).wf(),
        ensures
            final(self).id == old(self).id,
            final(self).effect_ids == order,
            final(self).effects == values,
    {
        let mut order = order;
        let mut values = values;
        core::mem::swap(&mut self.effects, &mut values);
        core::mem::swap(&mut self.effect_ids, &mut order);
    }

    /// The values of a map keyed by numbers, keyed by the identifiers that
    /// carry those numbers.
    closed spec fn keyed(raw: Map<u64, Rc<T>>) -> Map<Id, Rc<T>> {
        Map::new(|id: Id| raw.contains_key(id@), |id: Id| raw[id@])
    }

    proof fn lemma_insert_view(before: Map<u64, Rc<T>>, after: Map<u64, Rc<T>>, id: Id, effect: Rc<T>)
        requires
            after == before.insert(id@, effect),
        ensures
            Self::keyed(after) == Self::keyed(before).insert(id, effect),
    {
        assert forall|other: Id| other@ == id@ implies other == id by {
            Id::lemma_view_injective(other, id);
        }
        assert(Self::keyed(after) =~= Self::keyed(before).insert(id, effect));
    }

    proof fn lemma_remove_view(before: Map<u64, Rc<T>>, after: Map<u64, Rc<T>>, id: Id)
        requires
            after == before.remove(id@),
        ensures
            Self::keyed(after) == Self::keyed(before).remove(id),
    {
        assert forall|other: Id| other@ == id@ implies other == id by {
            Id::lemma_view_injective(other, id);
        }
        assert(Self::keyed(after) =~= Self::keyed(before).remove(id));
    }
}

impl<T> Clone for Store<T> {
    /// A store of its own with the same identifier, order and values; the
    /// values are shared, not copied.
    fn clone(&self) -> (copy: Self)
        ensures
            copy@ == self@,
            copy.scope() == self.scope(),
    {
        proof {
            use_type_invariant(self);
        }
        let effect_ids = self.effect_ids.clone();
        assert(effect_ids@ =~= self.effect_ids@);
        Self { id: self.id, effect_ids, effects: self.effects.clone() }
    }
}

} // verus!
