//! What holds of every store, proved over its model.
use crate::store::{Message, State};
use crate::utils::Id;
use std::rc::Rc;
use vstd::prelude::*;

verus! {

impl<T> State<T> {
    /// An add keeps a state well formed.
    pub proof fn lemma_add_wf(self, id: Id, value: Rc<T>)
        requires
            self.wf(),
        ensures
            self.add(id, value).wf(),
    {
        let next = self.add(id, value);
        assert forall|other: Id| next.order.contains(other) implies #[trigger] next.values.contains_key(
            other,
        ) by {
            if other != id {
                let i = choose|i: int| 0 <= i < next.order.len() && next.order[i] == other;
                assert(self.order[i] == other);
                assert(self.order.contains(other));
                assert(self.values.contains_key(other));
            }
        }
    }

    /// An update keeps a state well formed.
    pub proof fn lemma_update_wf(self, id: Id, value: Rc<T>)
        requires
            self.wf(),
        ensures
            self.update(id, value).wf(),
    {
        let next = self.update(id, value);
        assert forall|other: Id| next.order.contains(other) implies #[trigger] next.values.contains_key(
            other,
        ) by {
            assert(self.values.contains_key(other));
        }
    }

    /// After a removal the order holds what it held before, without `id`.
    pub proof fn lemma_remove_order(self, id: Id)
        ensures
            forall|other: Id|
                self.remove(id).order.contains(other) <==> self.order.contains(other) && other
                    != id,
            self.order.no_duplicates() ==> self.remove(id).order.no_duplicates(),
    {
        let keep = Self::other_than(id);
        let kept = self.order.filter(keep);
        broadcast use {Seq::lemma_filter_pred, Seq::lemma_filter_contains, Seq::lemma_filter_contains_rev};
        assert forall|other: Id| kept.contains(other) <==> self.order.contains(other) && other
            != id by {
            if kept.contains(other) {
                let i = choose|i: int| 0 <= i < kept.len() && kept[i] == other;
                self.order.lemma_filter_pred(keep, i);
                self.order.lemma_filter_contains_rev(keep, other);
            }
            if self.order.contains(other) && other != id {
                let i = choose|i: int| 0 <= i < self.order.len() && self.order[i] == other;
                self.order.lemma_filter_contains(keep, i);
            }
        }
        if self.order.no_duplicates() {
            lemma_filter_no_duplicates(self.order, keep);
        }
    }

    /// A removal keeps a state well formed.
    pub proof fn lemma_remove_wf(self, id: Id)
        requires
            self.wf(),
        ensures
            self.remove(id).wf(),
    {
        self.lemma_remove_order(id);
        let next = self.remove(id);
        assert forall|other: Id| next.order.contains(other) implies #[trigger] next.values.contains_key(
            other,
        ) by {
            assert(self.values.contains_key(other));
        }
    }

    /// Any message keeps a state well formed.
    pub proof fn lemma_apply_wf(self, msg: Message<T>)
        requires
            self.wf(),
        ensures
            self.apply(msg).wf(),
    {
        match msg {
            Message::Add((id, value)) => self.lemma_add_wf(id, value),
            Message::Update((id, value)) => self.lemma_update_wf(id, value),
            Message::Remove(id) => self.lemma_remove_wf(id),
        }
    }
}

impl<T> State<T> {
    /// Whatever is dispatched, no identifier is ever listed twice and every
    /// listed identifier has a value.
    pub proof fn lemma_replay_wf(self, msgs: Seq<Message<T>>)
        requires
            self.wf(),
        ensures
            self.replay(msgs).wf(),
        decreases msgs.len(),
    {
        if msgs.len() > 0 {
            self.lemma_replay_wf(msgs.drop_last());
            self.replay(msgs.drop_last()).lemma_apply_wf(msgs.last());
        }
    }

    /// Every value belongs to a listed identifier: the identifiers with a
    /// value are exactly the listed ones.
    pub open spec fn exact(self) -> bool {
        self.values.dom() =~= self.order.to_set()
    }

    /// Every update in `msgs` reaches an identifier that is listed at that
    /// moment, when `msgs` is dispatched to `self`.
    pub open spec fn updates_reach_listed(self, msgs: Seq<Message<T>>) -> bool {
        forall|k: int, id: Id|
            0 <= k < msgs.len() && (#[trigger] msgs[k].updates(id)) ==> self.replay(
                msgs.take(k),
            ).has(id)
    }

    /// As long as no update reaches an identifier that is not listed, the
    /// identifiers with a value are exactly the listed ones. An update of an
    /// identifier that is not listed is what breaks this: it leaves a value
    /// that no read shows.
    pub proof fn lemma_replay_exact(self, msgs: Seq<Message<T>>)
        requires
            self.wf(),
            self.exact(),
            self.updates_reach_listed(msgs),
        ensures
            self.replay(msgs).wf(),
            self.replay(msgs).exact(),
        decreases msgs.len(),
    {
        self.lemma_replay_wf(msgs);
        if msgs.len() > 0 {
            let front = msgs.drop_last();
            assert forall|k: int, id: Id|
                0 <= k < front.len() && (#[trigger] front[k].updates(id)) implies self.replay(
                front.take(k),
            ).has(id) by {
                assert(msgs[k].updates(id));
                assert(front.take(k) =~= msgs.take(k));
            }
            self.lemma_replay_exact(front);
            let before = self.replay(front);
            let after = before.apply(msgs.last());
            assert(msgs.take(msgs.len() - 1) =~= front);
            match msgs.last() {
                Message::Add((id, value)) => {
                    assert(after.values.dom() =~= before.values.dom().insert(id));
                    assert(after.order.to_set() =~= before.order.to_set().insert(id)) by {
                        if !before.has(id) {
                            before.order.lemma_push_to_set_commute(id);
                        }
                    }
                },
                Message::Update((id, value)) => {
                    assert(msgs[msgs.len() - 1].updates(id));
                    assert(before.has(id));
                    assert(after.values.dom() =~= before.values.dom());
                },
                Message::Remove(id) => {
                    before.lemma_remove_order(id);
                    assert(after.values.dom() =~= before.values.dom().remove(id));
                    assert(after.order.to_set() =~= before.order.to_set().remove(id));
                },
            }
        }
    }

    /// An update of an identifier that is not listed leaves a value without
    /// a place in the order.
    pub proof fn lemma_update_unlisted_inexact(self, id: Id, value: Rc<T>)
        requires
            !self.has(id),
        ensures
            !self.update(id, value).exact(),
            self.update(id, value).order == self.order,
    {
        let next = self.update(id, value);
        assert(next.values.dom().contains(id));
        assert(!next.order.to_set().contains(id));
    }

    /// A read walks the order: in a well-formed state the snapshot has one
    /// value for each listed identifier, at the place where the identifier is
    /// listed.
    pub proof fn lemma_snapshot_follows_order(self)
        requires
            self.wf(),
        ensures
            self.snapshot().len() == self.order.len(),
            forall|i: int|
                0 <= i < self.order.len() ==> #[trigger] self.snapshot()[i] == self.values[self.order[i]],
    {
        lemma_filter_map_total(self.order, Self::lookup(self.values));
    }

    /// Removing twice is removing once.
    pub proof fn lemma_remove_idempotent(self, id: Id)
        ensures
            self.remove(id).remove(id) == self.remove(id),
    {
        let once = self.remove(id);
        let keep = Self::other_than(id);
        assert forall|i: int| 0 <= i < once.order.len() implies keep(#[trigger] once.order[i]) by {
            self.order.lemma_filter_pred(keep, i);
        }
        lemma_filter_all(once.order, keep);
        assert(once.values.remove(id) =~= once.values);
    }

    /// A removed identifier stays out of the order, and so out of every
    /// read, until it is added again: updates do not bring it back.
    pub proof fn lemma_removed_stays_out(self, id: Id, msgs: Seq<Message<T>>)
        requires
            forall|k: int| 0 <= k < msgs.len() ==> !(#[trigger] msgs[k]).adds(id),
        ensures
            !self.remove(id).replay(msgs).has(id),
        decreases msgs.len(),
    {
        if msgs.len() == 0 {
            self.lemma_remove_order(id);
        } else {
            self.lemma_removed_stays_out(id, msgs.drop_last());
            let before = self.remove(id).replay(msgs.drop_last());
            assert(!msgs[msgs.len() - 1].adds(id));
            match msgs.last() {
                Message::Add((other, value)) => {
                    assert(other != id);
                    if before.order.push(other).contains(id) {
                        let i = choose|i: int|
                            0 <= i < before.order.push(other).len() && before.order.push(other)[i]
                                == id;
                        assert(before.order[i] == id);
                    }
                },
                Message::Update((other, value)) => {},
                Message::Remove(other) => {
                    before.lemma_remove_order(other);
                },
            }
        }
    }

    /// Once an identifier is removed, no read shows a value of it until it
    /// is added again: every value of a later read is the value of a listed
    /// identifier, and none of these is the removed one.
    pub proof fn lemma_removed_value_unseen(self, id: Id, msgs: Seq<Message<T>>)
        requires
            self.wf(),
            forall|k: int| 0 <= k < msgs.len() ==> !(#[trigger] msgs[k]).adds(id),
        ensures
            ({
                let after = self.remove(id).replay(msgs);
                &&& after.snapshot().len() == after.order.len()
                &&& forall|i: int|
                    0 <= i < after.order.len() ==> after.order[i] != id
                        && #[trigger] after.snapshot()[i] == after.values[after.order[i]]
            }),
    {
        let after = self.remove(id).replay(msgs);
        self.lemma_remove_wf(id);
        self.remove(id).lemma_replay_wf(msgs);
        self.lemma_removed_stays_out(id, msgs);
        after.lemma_snapshot_follows_order();
        assert forall|i: int| 0 <= i < after.order.len() implies after.order[i] != id by {
            assert(after.order.contains(after.order[i]));
        }
    }

    /// After a removal, an update of the removed identifier changes no read.
    pub proof fn lemma_update_after_remove_unseen(self, id: Id, value: Rc<T>)
        requires
            self.wf(),
        ensures
            !self.remove(id).update(id, value).has(id),
            self.remove(id).update(id, value).snapshot() == self.remove(id).snapshot(),
    {
        self.lemma_remove_order(id);
        self.lemma_remove_wf(id);
        let removed = self.remove(id);
        let updated = removed.update(id, value);
        removed.lemma_update_wf(id, value);
        removed.lemma_snapshot_follows_order();
        updated.lemma_snapshot_follows_order();
        assert forall|i: int| 0 <= i < removed.order.len() implies updated.snapshot()[i]
            == removed.snapshot()[i] by {
            assert(removed.order.contains(removed.order[i]));
        }
        assert(updated.snapshot() =~= removed.snapshot());
    }
}

impl<T> State<T> {
    /// The place in `msgs` of the add that `id` owes its listing to, if `id`
    /// is listed once `msgs` was dispatched to an empty store: the first add
    /// of `id` since `id` was last removed.
    pub open spec fn listed_by(msgs: Seq<Message<T>>, id: Id) -> Option<int>
        decreases msgs.len(),
    {
        if msgs.len() == 0 {
            None
        } else {
            let before = Self::listed_by(msgs.drop_last(), id);
            if msgs.last().removes(id) {
                None
            } else if msgs.last().adds(id) && before is None {
                Some(msgs.len() - 1)
            } else {
                before
            }
        }
    }

    /// What `listed_by` picks, said without recursion: an add of `id` that no
    /// removal of `id` follows and that is the first add of `id` since the
    /// removal before it; and it picks nothing only if every add of `id` is
    /// followed by a removal of `id`.
    pub proof fn lemma_listed_by_first_add(msgs: Seq<Message<T>>, id: Id)
        ensures
            match Self::listed_by(msgs, id) {
                Some(k) => {
                    &&& 0 <= k < msgs.len()
                    &&& msgs[k].adds(id)
                    &&& forall|j: int| k < j < msgs.len() ==> !(#[trigger] msgs[j]).removes(id)
                    &&& forall|j: int|
                        0 <= j < k && (#[trigger] msgs[j]).adds(id) ==> exists|r: int|
                            j < r < k && (#[trigger] msgs[r]).removes(id)
                },
                None => forall|j: int|
                    0 <= j < msgs.len() && (#[trigger] msgs[j]).adds(id) ==> exists|r: int|
                        j < r < msgs.len() && (#[trigger] msgs[r]).removes(id),
            },
        decreases msgs.len(),
    {
        if msgs.len() > 0 {
            let front = msgs.drop_last();
            let last = msgs.len() - 1;
            Self::lemma_listed_by_first_add(front, id);
            let before = Self::listed_by(front, id);
            assert(forall|j: int| 0 <= j < last ==> front[j] == msgs[j]);
            if msgs.last().removes(id) {
                assert forall|j: int| 0 <= j < msgs.len() && (#[trigger] msgs[j]).adds(
                    id,
                ) implies exists|r: int| j < r < msgs.len() && (#[trigger] msgs[r]).removes(id) by {
                    assert(msgs[last].removes(id));
                }
            } else if msgs.last().adds(id) && before is None {
                assert forall|j: int| 0 <= j < last && (#[trigger] msgs[j]).adds(
                    id,
                ) implies exists|r: int| j < r < last && (#[trigger] msgs[r]).removes(id) by {
                    assert(front[j].adds(id));
                    let r = choose|r: int| j < r < front.len() && (#[trigger] front[r]).removes(id);
                    assert(msgs[r].removes(id));
                }
            } else {
                match before {
                    Some(k) => {
                        assert(front[k].adds(id));
                        assert forall|j: int| k < j < msgs.len() implies !(#[trigger] msgs[j]).removes(
                            id,
                        ) by {
                            if j < last {
                                assert(!front[j].removes(id));
                            }
                        }
                        assert forall|j: int| 0 <= j < k && (#[trigger] msgs[j]).adds(
                            id,
                        ) implies exists|r: int| j < r < k && (#[trigger] msgs[r]).removes(id) by {
                            assert(front[j].adds(id));
                            let r = choose|r: int| j < r < k && (#[trigger] front[r]).removes(id);
                            assert(msgs[r].removes(id));
                        }
                    },
                    None => {
                        assert forall|j: int| 0 <= j < msgs.len() && (#[trigger] msgs[j]).adds(
                            id,
                        ) implies exists|r: int| j < r < msgs.len() && (#[trigger] msgs[r]).removes(
                            id,
                        ) by {
                            assert(j < last);
                            assert(front[j].adds(id));
                            let r = choose|r: int|
                                j < r < front.len() && (#[trigger] front[r]).removes(id);
                            assert(msgs[r].removes(id));
                        }
                    },
                }
            }
        }
    }

    /// The order of a store is the order of first adds: after any run of
    /// messages to an empty store, the listed identifiers are those that an
    /// add still stands for, and they are listed in the order of those adds.
    /// Updates, however many, move nothing.
    pub proof fn lemma_order_is_order_of_adds(msgs: Seq<Message<T>>)
        ensures
            forall|id: Id| #[trigger]
                Self::empty().replay(msgs).has(id) <==> Self::listed_by(msgs, id) is Some,
            forall|i: int, j: int|
                0 <= i < j < Self::empty().replay(msgs).order.len() ==> Self::added_at(
                    msgs,
                    #[trigger] Self::empty().replay(msgs).order[i],
                ) < Self::added_at(msgs, #[trigger] Self::empty().replay(msgs).order[j]),
        decreases msgs.len(),
    {
        let after = Self::empty().replay(msgs);
        if msgs.len() == 0 {
            assert(after.order.len() == 0);
            assert forall|id: Id| !#[trigger] after.has(id) by {
                if after.order.contains(id) {
                    let i = choose|i: int| 0 <= i < after.order.len() && after.order[i] == id;
                }
            }
        } else {
            let front = msgs.drop_last();
            let before = Self::empty().replay(front);
            Self::lemma_order_is_order_of_adds(front);
            assert forall|id: Id| #[trigger] before.has(id) implies 0 <= Self::added_at(front, id)
                < front.len() by {
                Self::lemma_listed_by_first_add(front, id);
            }
            assert forall|i: int| 0 <= i < before.order.len() implies before.has(
                #[trigger] before.order[i],
            ) by {}
            match msgs.last() {
                Message::Add((new, value)) => {
                    if !before.has(new) {
                        let n = before.order.len() as int;
                        assert(after.order == before.order.push(new));
                        assert(after.order[n] == new);
                        assert forall|id: Id| #[trigger]
                            after.has(id) <==> Self::listed_by(msgs, id) is Some by {
                            if after.has(id) && id != new {
                                let i = choose|i: int|
                                    0 <= i < after.order.len() && after.order[i] == id;
                                assert(i < n);
                                assert(before.order[i] == id);
                                assert(before.has(id));
                            }
                            if before.has(id) {
                                let i = choose|i: int|
                                    0 <= i < before.order.len() && before.order[i] == id;
                                assert(after.order[i] == id);
                            }
                        }
                        assert forall|i: int, j: int|
                            0 <= i < j < after.order.len() implies Self::added_at(
                            msgs,
                            #[trigger] after.order[i],
                        ) < Self::added_at(msgs, #[trigger] after.order[j]) by {
                            assert(before.order[i] == after.order[i]);
                            if j < n {
                                assert(before.order[j] == after.order[j]);
                            }
                        }
                    } else {
                        assert(after.order == before.order);
                        assert forall|id: Id| #[trigger]
                            after.has(id) <==> Self::listed_by(msgs, id) is Some by {
                            assert(after.has(id) == before.has(id));
                        }
                    }
                },
                Message::Update((other, value)) => {
                    assert(after.order == before.order);
                    assert forall|id: Id| #[trigger]
                        after.has(id) <==> Self::listed_by(msgs, id) is Some by {
                        assert(after.has(id) == before.has(id));
                    }
                },
                Message::Remove(gone) => {
                    before.lemma_remove_order(gone);
                    let key = |id: Id| Self::added_at(front, id);
                    lemma_filter_increasing(before.order, Self::other_than(gone), key);
                    assert forall|id: Id| #[trigger]
                        after.has(id) <==> Self::listed_by(msgs, id) is Some by {
                        assert(after.has(id) == (before.has(id) && id != gone));
                    }
                    assert forall|i: int, j: int|
                        0 <= i < j < after.order.len() implies Self::added_at(
                        msgs,
                        #[trigger] after.order[i],
                    ) < Self::added_at(msgs, #[trigger] after.order[j]) by {
                        assert(after.order.contains(after.order[i]));
                        assert(after.order.contains(after.order[j]));
                        assert(key(after.order[i]) < key(after.order[j]));
                    }
                },
            }
        }
    }

    /// After any run of messages to an empty store, no identifier is listed
    /// twice, and the listed identifiers are exactly those that have a value
    /// and that an add stands for. An identifier whose value comes from
    /// updates alone has a value and is not listed.
    pub proof fn lemma_listed_are_added_keys(msgs: Seq<Message<T>>)
        ensures
            Self::empty().replay(msgs).order.no_duplicates(),
            forall|id: Id| #[trigger]
                Self::empty().replay(msgs).has(id) <==> Self::empty().replay(
                    msgs,
                ).values.contains_key(id) && Self::listed_by(msgs, id) is Some,
    {
        let after = Self::empty().replay(msgs);
        Self::empty().lemma_replay_wf(msgs);
        Self::lemma_order_is_order_of_adds(msgs);
        assert forall|id: Id| #[trigger]
            after.has(id) <==> after.values.contains_key(id) && Self::listed_by(
                msgs,
                id,
            ) is Some by {
            if after.has(id) {
                assert(after.values.contains_key(id));
            }
        }
    }

    /// The place of the add that listed `id`; meaningful where `id` is listed.
    pub open spec fn added_at(msgs: Seq<Message<T>>, id: Id) -> int {
        Self::listed_by(msgs, id).unwrap()
    }
}

/// Filtering keeps the elements in their order: where a key rises along a
/// sequence, it rises along what a filter leaves of it.
pub proof fn lemma_filter_increasing<A>(s: Seq<A>, keep: spec_fn(A) -> bool, key: spec_fn(A) -> int)
    requires
        forall|i: int, j: int| 0 <= i < j < s.len() ==> key(#[trigger] s[i]) < key(#[trigger] s[j]),
    ensures
        forall|i: int, j: int|
            0 <= i < j < s.filter(keep).len() ==> key(#[trigger] s.filter(keep)[i]) < key(
                #[trigger] s.filter(keep)[j],
            ),
    decreases s.len(),
{
    reveal(Seq::filter);
    if s.len() > 0 {
        let front = s.drop_last();
        assert forall|i: int, j: int| 0 <= i < j < front.len() implies key(#[trigger] front[i]) < key(
            #[trigger] front[j],
        ) by {
            assert(front[i] == s[i] && front[j] == s[j]);
        }
        lemma_filter_increasing(front, keep, key);
        let kept = front.filter(keep);
        if keep(s.last()) {
            assert forall|i: int| 0 <= i < kept.len() implies key(#[trigger] kept[i]) < key(
                s.last(),
            ) by {
                assert(kept.contains(kept[i]));
                front.lemma_filter_contains_rev(keep, kept[i]);
                let k = choose|k: int| 0 <= k < front.len() && front[k] == kept[i];
                assert(s[k] == kept[i]);
                assert(key(s[k]) < key(s[s.len() - 1]));
            }
        }
    }
}

/// Where `f` is defined on every element, `filter_map` keeps every place.
pub proof fn lemma_filter_map_total<A, B>(s: Seq<A>, f: spec_fn(A) -> Option<B>)
    requires
        forall|i: int| 0 <= i < s.len() ==> (#[trigger] f(s[i])) is Some,
    ensures
        s.filter_map(f).len() == s.len(),
        forall|i: int| 0 <= i < s.len() ==> f(s[i]) == Some(#[trigger] s.filter_map(f)[i]),
    decreases s.len(),
{
    if s.len() > 0 {
        let front = s.drop_last();
        assert forall|i: int| 0 <= i < front.len() implies (#[trigger] f(front[i])) is Some by {
            assert(front[i] == s[i]);
        }
        lemma_filter_map_total(front, f);
        assert(f(s[s.len() - 1]) is Some);
        assert forall|i: int| 0 <= i < s.len() implies f(s[i]) == Some(
            #[trigger] s.filter_map(f)[i],
        ) by {
            if i < front.len() {
                assert(front[i] == s[i]);
                assert(s.filter_map(f)[i] == front.filter_map(f)[i]);
            }
        }
    }
}

/// Filtering by a test that every element passes changes nothing.
pub proof fn lemma_filter_all<A>(s: Seq<A>, keep: spec_fn(A) -> bool)
    requires
        forall|i: int| 0 <= i < s.len() ==> keep(#[trigger] s[i]),
    ensures
        s.filter(keep) == s,
    decreases s.len(),
{
    reveal(Seq::filter);
    if s.len() > 0 {
        let front = s.drop_last();
        assert forall|i: int| 0 <= i < front.len() implies keep(#[trigger] front[i]) by {
            assert(front[i] == s[i]);
        }
        lemma_filter_all(front, keep);
        assert(keep(s[s.len() - 1]));
        assert(front.push(s.last()) =~= s);
    }
}

/// Filtering a sequence without duplicates leaves no duplicates.
pub proof fn lemma_filter_no_duplicates<A>(s: Seq<A>, keep: spec_fn(A) -> bool)
    requires
        s.no_duplicates(),
    ensures
        s.filter(keep).no_duplicates(),
    decreases s.len(),
{
    reveal(Seq::filter);
    if s.len() > 0 {
        let front = s.drop_last();
        lemma_filter_no_duplicates(front, keep);
        if keep(s.last()) {
            let kept = front.filter(keep);
            assert forall|i: int| 0 <= i < kept.len() implies kept[i] != s.last() by {
                if kept[i] == s.last() {
                    assert(kept.contains(s.last()));
                    front.lemma_filter_contains_rev(keep, s.last());
                    let j = choose|j: int| 0 <= j < front.len() && front[j] == s.last();
                    assert(s[j] == s[s.len() - 1]);
                }
            }
        }
    }
}

} // verus!
