use std::rc::Rc;

use yew_side_effect::effects::Effects;
use yew_side_effect::store::Store;
use yew_side_effect::utils::{Id, IdSource};
use yew_side_effect::with_effect::{WithEffect, WithEffectMsg};
use yew_side_effect::with_effect_props::{WithEffectProps, WithEffectPropsMut};

fn text(s: &str) -> Rc<String> {
    Rc::new(s.to_string())
}

fn texts(effects: &[Rc<String>]) -> Vec<String> {
    effects.iter().map(|m| (**m).clone()).collect()
}

#[test]
fn effects_props_hand_out_their_effects() {
    let mut props = WithEffectProps { effects: Effects::new(vec![Rc::new(1)]) };
    *props.effects_mut() = Effects::new(vec![Rc::new(2), Rc::new(3)]);
    assert_eq!(props.effects.len(), 2);
    assert_eq!(*props.clone().effects[0], 2);
}

#[test]
fn an_effects_consumer_renders_with_the_latest_effects() {
    let mut ids = IdSource::new();
    let mut store: Store<String> = Store::new(&mut ids);
    let mut consumer = WithEffect::create(WithEffectProps { effects: Effects::<String>::default() });
    assert!(consumer.view().is_none());
    assert!(!consumer.change(WithEffectProps { effects: Effects::new(vec![text("x")]) }));
    assert!(consumer.view().is_none());
    store.add(Id::new(&mut ids), text("a"));
    assert!(consumer.update(WithEffectMsg::EffectUpdated(Rc::new(store.clone()))));
    assert_eq!(texts(&consumer.view().unwrap().effects), vec!["a"]);
    store.add(Id::new(&mut ids), text("b"));
    assert_eq!(texts(&consumer.view().unwrap().effects), vec!["a"]);
    assert!(consumer.update(WithEffectMsg::EffectUpdated(Rc::new(store))));
    assert_eq!(texts(&consumer.view().unwrap().effects), vec!["a", "b"]);
}
