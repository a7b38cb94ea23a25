//! The consumer that hands the effects to a wrapped component.
use crate::effects::Effects;
use crate::store::Store;
use crate::with_effect_props::WithEffectPropsMut;
use std::rc::Rc;
use vstd::prelude::*;

verus! {

/// What a consumer is told.
pub enum WithEffectMsg<T> {
    /// The store changed; this is its new state.
    EffectUpdated(Rc<Store<T>>),
}

/// A component around another one that needs the effects.
///
/// It keeps the properties of the component it wraps and the latest effects
/// it was told of, and renders the wrapped component with those effects
/// written into a copy of the properties. Until it is told of a store it
/// renders nothing.
pub struct WithEffect<P: WithEffectPropsMut + Clone> {
    props: P,
    effects: Option<Effects<P::Effect>>,
}

impl<P: WithEffectPropsMut + Clone> WithEffect<P> {
    /// The properties the consumer was created with.
    pub closed spec fn props(&self) -> P {
        self.props
    }

    /// The effects of the latest update, if there was one.
    pub closed spec fn effects(&self) -> Option<Seq<Rc<P::Effect>>> {
        match self.effects {
            Some(m) => Some(m@),
            None => None,
        }
    }

    /// A consumer that has not been told of any store yet.
    pub fn create(props: P) -> (consumer: Self)
        ensures
            consumer.props() == props,
            consumer.effects() is None,
    {
        Self { props, effects: None }
    }

    /// Takes the effects of the store in `msg` in place of those held, and
    /// asks for a render.
    pub fn update(&mut self, msg: WithEffectMsg<P::Effect>) -> (render: bool)
        ensures
            render,
            final(self).props() == old(self).props(),
            msg matches WithEffectMsg::EffectUpdated(store) && final(self).effects() == Some(
                store@.snapshot(),
            ),
    {
        let WithEffectMsg::EffectUpdated(m) = msg;
        self.effects = Some(m.get_effects());
        true
    }

    /// New properties from outside are not taken: nothing changes and no
    /// render is asked for.
    pub fn change(&mut self, _props: P) -> (render: bool)
        ensures
            !render,
            *final(self) == *old(self),
    {
        false
    }

    /// The properties to render the wrapped component with: a copy of the
    /// consumer's own that carries the latest effects, or nothing before the
    /// first update.
    pub fn view(&self) -> (rendered: Option<P>)
        ensures
            rendered is Some <==> self.effects() is Some,
            P::obeys_effects_spec() ==> match self.effects() {
                Some(m) => rendered matches Some(props) && props.effects() == m,
                None => rendered is None,
            },
    {
        match &self.effects {
            Some(m) => {
                let mut props = self.props.clone();
                {
                    let effect_mut = props.effects_mut();
                    *effect_mut = m.clone();
                }
                Some(props)
            },
            None => None,
        }
    }
}

} // verus!
