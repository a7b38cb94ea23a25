use std::rc::Rc;

use yew_side_effect::store::{Message, Store};
use yew_side_effect::utils::{Id, IdSource};
use yew_side_effect::SideEffects;

fn texts(effects: &SideEffects<String>) -> Vec<String> {
    effects.iter().map(|m| (**m).clone()).collect()
}

fn text(s: &str) -> Rc<String> {
    Rc::new(s.to_string())
}

/// A source whose next identifier carries the number 1, and a store.
fn fresh() -> (IdSource, Store<String>) {
    let mut ids = IdSource::new();
    let store = Store::new(&mut ids);
    (ids, store)
}

#[test]
fn identifiers_count_up_from_zero() {
    let mut ids = IdSource::new();
    let a = Id::new(&mut ids);
    let b = Id::new(&mut ids);
    let c = Id::new(&mut ids);
    assert_eq!(a.value(), 0);
    assert_eq!(b.value(), 1);
    assert_eq!(c.value(), 2);
    assert!(a < b && b < c);
    assert_ne!(a, b);
    assert_eq!(a, a.clone());
}

#[test]
fn sources_are_independent() {
    let mut one = IdSource::new();
    let mut two = IdSource::new();
    let a = Id::new(&mut one);
    let _ = Id::new(&mut one);
    let b = Id::new(&mut two);
    assert_eq!(a, b);
}

#[test]
fn a_new_store_takes_an_identifier_and_is_empty() {
    let mut ids = IdSource::new();
    let first: Store<String> = Store::new(&mut ids);
    let second: Store<String> = Store::new(&mut ids);
    assert_eq!(first.id().value(), 0);
    assert_eq!(second.id().value(), 1);
    assert!(first.get().is_empty());
    assert!(first.get_effects().is_empty());
    assert_eq!(Id::new(&mut ids).value(), 2);
}

#[test]
fn add_update_remove_scenario() {
    let (mut ids, mut store) = fresh();
    let one = Id::new(&mut ids);
    let two = Id::new(&mut ids);
    assert_eq!((one.value(), two.value()), (1, 2));
    store.reduce(Message::Add((one, text("A"))));
    store.reduce(Message::Add((two, text("B"))));
    store.reduce(Message::Update((one, text("A2"))));
    store.reduce(Message::Remove(two));
    assert_eq!(texts(&store.get()), vec!["A2".to_string()]);
}

#[test]
fn remove_first_of_three_scenario() {
    let (mut ids, mut store) = fresh();
    let one = Id::new(&mut ids);
    let two = Id::new(&mut ids);
    let three = Id::new(&mut ids);
    assert_eq!((one.value(), two.value(), three.value()), (1, 2, 3));
    store.reduce(Message::Add((one, text("A"))));
    store.reduce(Message::Add((two, text("B"))));
    store.reduce(Message::Add((three, text("C"))));
    store.reduce(Message::Remove(one));
    assert_eq!(texts(&store.get()), vec!["B".to_string(), "C".to_string()]);
}

#[test]
fn snapshot_follows_the_order_of_first_adds() {
    let (mut ids, mut store) = fresh();
    let a = Id::new(&mut ids);
    let b = Id::new(&mut ids);
    let c = Id::new(&mut ids);
    store.add(c, text("c"));
    store.add(a, text("a"));
    store.add(b, text("b"));
    assert_eq!(texts(&store.get()), vec!["c", "a", "b"]);
    for round in 0..5 {
        store.update(a, text(&format!("a{}", round)));
        store.update(c, text(&format!("c{}", round)));
    }
    store.update(b, text("b0"));
    assert_eq!(texts(&store.get()), vec!["c4", "a4", "b0"]);
}

#[test]
fn a_second_add_is_an_update_in_place() {
    let (mut ids, mut store) = fresh();
    let a = Id::new(&mut ids);
    let b = Id::new(&mut ids);
    store.add(a, text("a"));
    store.add(b, text("b"));
    store.add(a, text("again"));
    assert_eq!(texts(&store.get()), vec!["again", "b"]);
    store.remove(a);
    assert_eq!(texts(&store.get()), vec!["b"]);
    assert!(!store.has(&a));
}

#[test]
fn an_added_id_after_removal_goes_last() {
    let (mut ids, mut store) = fresh();
    let a = Id::new(&mut ids);
    let b = Id::new(&mut ids);
    store.add(a, text("a"));
    store.add(b, text("b"));
    store.remove(a);
    store.add(a, text("a"));
    assert_eq!(texts(&store.get()), vec!["b", "a"]);
}

#[test]
fn has_tells_what_is_listed() {
    let (mut ids, mut store) = fresh();
    let a = Id::new(&mut ids);
    let b = Id::new(&mut ids);
    assert!(!store.has(&a));
    store.add(a, text("a"));
    assert!(store.has(&a));
    assert!(!store.has(&b));
    store.remove(a);
    assert!(!store.has(&a));
}

#[test]
fn an_update_before_any_add_stays_hidden() {
    let (mut ids, mut store) = fresh();
    let a = Id::new(&mut ids);
    let b = Id::new(&mut ids);
    store.add(a, text("a"));
    store.update(b, text("hidden"));
    assert!(!store.has(&b));
    assert_eq!(texts(&store.get()), vec!["a"]);
    store.add(b, text("shown"));
    assert!(store.has(&b));
    assert_eq!(texts(&store.get()), vec!["a", "shown"]);
}

#[test]
fn an_update_after_removal_does_not_bring_the_value_back() {
    let (mut ids, mut store) = fresh();
    let a = Id::new(&mut ids);
    let b = Id::new(&mut ids);
    store.add(a, text("a"));
    store.add(b, text("b"));
    store.remove(a);
    store.update(a, text("ghost"));
    store.update(a, text("ghost again"));
    assert!(!store.has(&a));
    assert_eq!(texts(&store.get()), vec!["b"]);
}

#[test]
fn removing_twice_is_removing_once() {
    let (mut ids, mut once) = fresh();
    let a = Id::new(&mut ids);
    let b = Id::new(&mut ids);
    once.add(a, text("a"));
    once.add(b, text("b"));
    let mut twice = once.clone();
    once.remove(a);
    twice.remove(a);
    twice.remove(a);
    assert_eq!(once, twice);
    assert_eq!(texts(&once.get()), texts(&twice.get()));
    assert_eq!(once.has(&a), twice.has(&a));
}

#[test]
fn removing_an_unknown_id_changes_nothing() {
    let (mut ids, mut store) = fresh();
    let a = Id::new(&mut ids);
    let stranger = Id::new(&mut ids);
    store.add(a, text("a"));
    let before = store.clone();
    store.remove(stranger);
    assert_eq!(store, before);
    assert_eq!(texts(&store.get()), vec!["a"]);
}

#[test]
fn no_id_is_listed_twice_whatever_is_dispatched() {
    let (mut ids, mut store) = fresh();
    let pool: Vec<Id> = (0..4).map(|_| Id::new(&mut ids)).collect();
    let mut listed: Vec<Id> = Vec::new();
    let mut seed: u32 = 7;
    for step in 0..400 {
        seed = seed.wrapping_mul(1_103_515_245).wrapping_add(12_345);
        let id = pool[(seed >> 16) as usize % pool.len()];
        match (seed >> 8) % 3 {
            0 => {
                store.reduce(Message::Add((id, text(&format!("v{}", step)))));
                if !listed.contains(&id) {
                    listed.push(id);
                }
            }
            1 => {
                if listed.contains(&id) {
                    store.reduce(Message::Update((id, text(&format!("v{}", step)))));
                }
            }
            _ => {
                store.reduce(Message::Remove(id));
                listed.retain(|m| m != &id);
            }
        }
        assert_eq!(store.get().len(), listed.len());
        for id in pool.iter() {
            assert_eq!(store.has(id), listed.contains(id));
        }
    }
}

#[test]
fn a_clone_is_a_store_of_its_own() {
    let (mut ids, mut store) = fresh();
    let a = Id::new(&mut ids);
    store.add(a, text("a"));
    let copy = store.clone();
    store.update(a, text("changed"));
    assert_eq!(copy.id(), store.id());
    assert_eq!(texts(&copy.get()), vec!["a"]);
    assert_eq!(texts(&store.get()), vec!["changed"]);
    assert_ne!(copy, store);
}

#[test]
fn values_are_shared_not_copied() {
    let (mut ids, mut store) = fresh();
    let a = Id::new(&mut ids);
    let value = text("a");
    store.add(a, value.clone());
    let read = store.get();
    assert!(Rc::ptr_eq(&read[0], &value));
    let old = store.get_effects();
    assert!(Rc::ptr_eq(&old[0], &value));
}
