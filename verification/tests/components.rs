use std::rc::Rc;

use yew_side_effect::effect::{Effect, EffectProps};
use yew_side_effect::hooks::{use_store, NoContext};
use yew_side_effect::store::{Message, Store};
use yew_side_effect::utils::{Id, IdSource};
use yew_side_effect::{
    side_effect, side_effect_provider, use_side_effects, SideEffectProps, SideEffectProvider,
    SideEffects, WithEffectProps, WithSideEffect, WithSideEffectMsg,
};

fn text(s: &str) -> Rc<String> {
    Rc::new(s.to_string())
}

fn texts(effects: &[Rc<String>]) -> Vec<String> {
    effects.iter().map(|m| (**m).clone()).collect()
}

fn kind(msg: &Message<String>) -> (&'static str, u64, Option<String>) {
    match msg {
        Message::Add((id, value)) => ("add", id.value(), Some((**value).clone())),
        Message::Update((id, value)) => ("update", id.value(), Some((**value).clone())),
        Message::Remove(id) => ("remove", id.value(), None),
    }
}

#[test]
fn subscribing_yields_the_current_snapshot_at_once() {
    let mut ids = IdSource::new();
    let mut provider: SideEffectProvider<String> = SideEffectProvider::new(&mut ids);
    let (_, first) = provider.subscribe(&mut ids);
    assert!(first.is_empty());
    provider.register(&mut ids, text("a"));
    let (_, second) = provider.subscribe(&mut ids);
    assert_eq!(texts(&second), vec!["a"]);
}

#[test]
fn every_dispatch_notifies_every_subscriber() {
    let mut ids = IdSource::new();
    let mut provider: SideEffectProvider<String> = SideEffectProvider::new(&mut ids);
    let (one, _) = provider.subscribe(&mut ids);
    let (two, _) = provider.subscribe(&mut ids);
    let (a, notice) = provider.register(&mut ids, text("a"));
    assert_eq!(notice.subscribers, vec![one, two]);
    assert_eq!(texts(&notice.effects), vec!["a"]);
    let notice = provider.update(&a, text("a2"));
    assert_eq!(notice.subscribers, vec![one, two]);
    assert_eq!(texts(&notice.effects), vec!["a2"]);
    let notice = provider.unregister(&a);
    assert_eq!(notice.subscribers, vec![one, two]);
    assert!(notice.effects.is_empty());
    let notice = provider.unregister(&a);
    assert_eq!(notice.subscribers, vec![one, two]);
    assert!(notice.effects.is_empty());
}

#[test]
fn nobody_is_notified_after_unsubscribing() {
    let mut ids = IdSource::new();
    let mut provider: SideEffectProvider<String> = SideEffectProvider::new(&mut ids);
    let (one, _) = provider.subscribe(&mut ids);
    let (two, _) = provider.subscribe(&mut ids);
    provider.unsubscribe(&one);
    let (_, notice) = provider.register(&mut ids, text("a"));
    assert_eq!(notice.subscribers, vec![two]);
    provider.unsubscribe(&one);
    provider.unsubscribe(&two);
    let (_, notice) = provider.register(&mut ids, text("b"));
    assert!(notice.subscribers.is_empty());
    assert_eq!(texts(&provider.read()), vec!["a", "b"]);
}

#[test]
fn scopes_keep_their_stores_apart() {
    let mut ids = IdSource::new();
    let mut left: SideEffectProvider<String> = SideEffectProvider::new(&mut ids);
    let mut right: SideEffectProvider<String> = SideEffectProvider::new(&mut ids);
    assert_ne!(left.store().id(), right.store().id());
    let (a, _) = left.register(&mut ids, text("left"));
    let (b, _) = right.register(&mut ids, text("right"));
    assert_ne!(a, b);
    assert_eq!(texts(&left.read()), vec!["left"]);
    assert_eq!(texts(&right.read()), vec!["right"]);
    right.unregister(&a);
    assert_eq!(texts(&left.read()), vec!["left"]);
}

#[test]
fn an_update_through_the_provider_registers_what_is_missing() {
    let mut ids = IdSource::new();
    let mut provider: SideEffectProvider<String> = SideEffectProvider::new(&mut ids);
    let (a, _) = provider.register(&mut ids, text("a"));
    provider.unregister(&a);
    let notice = provider.update(&a, text("back"));
    assert_eq!(texts(&notice.effects), vec!["back"]);
    assert!(provider.store().has(&a));
}

#[test]
fn the_provider_step_leaves_the_previous_store_alone() {
    let mut ids = IdSource::new();
    let prev: Store<String> = Store::new(&mut ids);
    let a = Id::new(&mut ids);
    let (next, effects) = side_effect_provider(&prev, Message::Add((a, text("a"))));
    assert!(prev.get().is_empty());
    assert_eq!(next.id(), prev.id());
    assert_eq!(texts(&effects), vec!["a"]);
    assert_eq!(texts(&next.get()), vec!["a"]);
    let (last, effects) = side_effect_provider(&next, Message::Remove(a));
    assert!(effects.is_empty());
    assert!(last.get().is_empty());
    assert_eq!(texts(&next.get()), vec!["a"]);
}

#[test]
fn producer_lifecycle_dispatches_add_updates_remove() {
    let mut ids = IdSource::new();
    let mut provider: SideEffectProvider<String> = SideEffectProvider::new(&mut ids);
    let mut log: Vec<(&'static str, u64, Option<String>)> = Vec::new();

    let (mut effect, add) = Effect::create(EffectProps { value: text("v0") }, &mut ids);
    log.push(kind(&add));
    provider.dispatch(add);
    for round in 1..=3 {
        let value = text(&format!("v{}", round));
        let (render, msg) = effect.change(EffectProps { value }, provider.store());
        assert!(!render);
        let msg = msg.expect("a living producer dispatches");
        log.push(kind(&msg));
        let notice = provider.dispatch(msg);
        assert_eq!(texts(&notice.effects), vec![format!("v{}", round)]);
    }
    let remove = effect.destroy().expect("the first destroy removes");
    log.push(kind(&remove));
    let notice = provider.dispatch(remove);
    assert!(notice.effects.is_empty());

    assert!(effect.destroy().is_none());
    let (render, msg) = effect.change(EffectProps { value: text("late") }, provider.store());
    assert!(!render);
    assert!(msg.is_none());
    assert!(!effect.update(()));

    let id = 1;
    assert_eq!(
        log,
        vec![
            ("add", id, Some("v0".to_string())),
            ("update", id, Some("v1".to_string())),
            ("update", id, Some("v2".to_string())),
            ("update", id, Some("v3".to_string())),
            ("remove", id, None),
        ]
    );
}

#[test]
fn a_producer_removed_from_outside_registers_again() {
    let mut ids = IdSource::new();
    let mut provider: SideEffectProvider<String> = SideEffectProvider::new(&mut ids);
    let (mut effect, add) = Effect::create(EffectProps { value: text("v0") }, &mut ids);
    let id = match &add {
        Message::Add((id, _)) => *id,
        _ => panic!("a new producer adds"),
    };
    provider.dispatch(add);
    provider.unregister(&id);
    let (_, msg) = effect.change(EffectProps { value: text("v1") }, provider.store());
    assert_eq!(kind(&msg.unwrap()), ("add", id.value(), Some("v1".to_string())));
}

#[test]
fn the_producer_step_adds_then_updates() {
    let mut ids = IdSource::new();
    let mut store: Store<String> = Store::new(&mut ids);
    let id = Id::new(&mut ids);
    let props = SideEffectProps { value: text("a") };
    let first = side_effect(Some(&store), &id, &props).unwrap();
    assert_eq!(kind(&first), ("add", 1, Some("a".to_string())));
    store.reduce(first);
    let props = SideEffectProps { value: text("b") };
    let second = side_effect(Some(&store), &id, &props).unwrap();
    assert_eq!(kind(&second), ("update", 1, Some("b".to_string())));
    store.reduce(second);
    assert_eq!(texts(&store.get()), vec!["b"]);
}

#[test]
fn a_producer_under_another_scope_registers_afresh() {
    let mut ids = IdSource::new();
    let mut old: Store<String> = Store::new(&mut ids);
    let new: Store<String> = Store::new(&mut ids);
    let id = Id::new(&mut ids);
    let props = SideEffectProps { value: text("a") };
    old.reduce(side_effect(Some(&old), &id, &props).unwrap());
    let msg = side_effect(Some(&new), &id, &props).unwrap();
    assert_eq!(kind(&msg), ("add", id.value(), Some("a".to_string())));
}

#[test]
fn a_producer_outside_of_every_scope_fails_loudly() {
    let mut ids = IdSource::new();
    let id = Id::new(&mut ids);
    let props = SideEffectProps { value: text("a") };
    let step = side_effect(None, &id, &props);
    assert!(matches!(step, Err(NoContext)));
    assert_eq!(NoContext.message(), "No context set.");
    assert!(matches!(use_store::<String>(None), Err(NoContext)));
}

#[test]
fn producer_props_compare_by_value() {
    let a = SideEffectProps { value: text("a") };
    let same = SideEffectProps { value: text("a") };
    let other = SideEffectProps { value: text("b") };
    assert!(a == same);
    assert!(a != other);
    let copy = a.clone();
    assert!(Rc::ptr_eq(&copy.value, &a.value));
    let old = EffectProps { value: text("a") };
    assert!(Rc::ptr_eq(&old.clone().value, &old.value));
}

#[test]
fn the_hook_reads_the_store_around() {
    let mut ids = IdSource::new();
    let mut store: Store<String> = Store::new(&mut ids);
    assert!(use_side_effects::<String>(None).is_none());
    assert!(use_side_effects(Some(&store)).unwrap().is_empty());
    store.add(Id::new(&mut ids), text("a"));
    store.add(Id::new(&mut ids), text("b"));
    assert_eq!(texts(&use_side_effects(Some(&store)).unwrap()), vec!["a", "b"]);
    assert_eq!(use_store(Some(&store)).unwrap().id(), store.id());
}

#[test]
fn a_consumer_renders_nothing_before_its_first_update() {
    let props: WithEffectProps<String> = WithEffectProps { side_effects: SideEffects::default() };
    let consumer = WithSideEffect::create(props);
    assert!(consumer.view().is_none());
}

#[test]
fn a_consumer_renders_with_the_latest_side_effects() {
    let mut ids = IdSource::new();
    let mut store: Store<String> = Store::new(&mut ids);
    let a = Id::new(&mut ids);
    let stale = SideEffects::new(vec![text("stale")]);
    let mut consumer = WithSideEffect::create(WithEffectProps { side_effects: stale });

    store.add(a, text("a"));
    assert!(consumer.update(WithSideEffectMsg::Updated(Rc::new(store.clone()))));
    let rendered = consumer.view().unwrap();
    assert_eq!(texts(&rendered.side_effects), vec!["a"]);

    store.update(a, text("a2"));
    store.add(Id::new(&mut ids), text("b"));
    assert!(consumer.update(WithSideEffectMsg::Updated(Rc::new(store.clone()))));
    let rendered = consumer.view().unwrap();
    assert_eq!(texts(&rendered.side_effects), vec!["a2", "b"]);
}

#[test]
fn a_consumer_does_not_take_new_properties() {
    let mut ids = IdSource::new();
    let store: Store<String> = Store::new(&mut ids);
    let mut consumer =
        WithSideEffect::create(WithEffectProps { side_effects: SideEffects::<String>::default() });
    let other = WithEffectProps { side_effects: SideEffects::new(vec![text("x")]) };
    assert!(!consumer.change(other));
    assert!(consumer.view().is_none());
    consumer.update(WithSideEffectMsg::Updated(Rc::new(store)));
    assert!(consumer.view().unwrap().side_effects.is_empty());
}
