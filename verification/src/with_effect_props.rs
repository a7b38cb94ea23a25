//! Properties through which a component receives the effects.
use crate::effects::Effects;
use std::rc::Rc;
use vstd::prelude::*;

verus! {

/// Properties that carry nothing but the effects.
#[derive(Debug)]
pub struct WithEffectProps<T> {
    pub effects: Effects<T>,
}

impl<T> Clone for WithEffectProps<T> {
    fn clone(&self) -> (copy: Self)
        ensures
            copy.effects@ == self.effects@,
    {
        Self { effects: self.effects.clone() }
    }
}

/// What the properties of a component must offer so that
/// [`WithEffect`](crate::with_effect::WithEffect) can hand it the effects.
pub trait WithEffectPropsMut {
    type Effect;

    /// Whether this type says, by [`WithEffectPropsMut::effects`], which
    /// effects its values carry. A type that does not say so promises
    /// nothing about the reference it hands out.
    open spec fn obeys_effects_spec() -> bool {
        false
    }

    /// The effects that these properties carry.
    open spec fn effects(&self) -> Seq<Rc<Self::Effect>> {
        Seq::empty()
    }

    /// The place of the effects: what is written through it is what the
    /// properties carry afterwards.
    fn effects_mut(&mut self) -> (effects: &mut Effects<Self::Effect>)
        ensures
            Self::obeys_effects_spec() ==> effects@ == old(self).effects(),
            Self::obeys_effects_spec() ==> final(self).effects() == final(effects)@,
    ;
}

impl<T> WithEffectPropsMut for WithEffectProps<T> {
    type Effect = T;

    open spec fn obeys_effects_spec() -> bool {
        true
    }

    open spec fn effects(&self) -> Seq<Rc<T>> {
        self.effects@
    }

    fn effects_mut(&mut self) -> (effects: &mut Effects<T>) {
        &mut self.effects
    }
}

} // verus!
