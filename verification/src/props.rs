//! Properties through which a component receives the side effects.
use crate::collections::SideEffects;
use std::rc::Rc;
use vstd::prelude::*;
use vstd::std_specs::cmp::PartialEqSpec;

verus! {

/// A Convenient Properties for a `Provider` to access the side effects.
#[derive(Debug)]
pub struct WithEffectProps<T> {
    pub side_effects: SideEffects<T>,
}

impl<T> Clone for WithEffectProps<T> {
    fn clone(&self) -> (copy: Self)
        ensures
            copy.side_effects@ == self.side_effects@,
    {
        Self { side_effects: self.side_effects.clone() }
    }
}

impl<T: PartialEq> vstd::std_specs::cmp::PartialEqSpecImpl for WithEffectProps<T> {
    open spec fn obeys_eq_spec() -> bool {
        T::obeys_eq_spec()
    }

    open spec fn eq_spec(&self, other: &Self) -> bool {
        PartialEqSpec::eq_spec(&self.side_effects, &other.side_effects)
    }
}

impl<T: PartialEq> PartialEq for WithEffectProps<T> {
    fn eq(&self, other: &Self) -> (same: bool) {
        self.side_effects == other.side_effects
    }
}

/// A trait for a `Provider` to access the side effects.
///
/// Any struct that implements this trait can serve as the properties of a
/// component that [`WithSideEffect`](crate::comps::with_side_effect::WithSideEffect)
/// hands the side effects to.
pub trait WithEffectPropsMut {
    type SideEffect;

    /// Whether this type says, by [`WithEffectPropsMut::side_effects`], which
    /// side effects its values carry. A type that does not say so promises
    /// nothing about the reference it hands out.
    open spec fn obeys_side_effects_spec() -> bool {
        false
    }

    /// The side effects that these properties carry.
    open spec fn side_effects(&self) -> Seq<Rc<Self::SideEffect>> {
        Seq::empty()
    }

    /// Returns a mutable reference of [`SideEffects`]: what is written
    /// through it is what the properties carry afterwards.
    fn side_effects_mut(&mut self) -> (effects: &mut SideEffects<Self::SideEffect>)
        ensures
            Self::obeys_side_effects_spec() ==> effects@ == old(self).side_effects(),
            Self::obeys_side_effects_spec() ==> final(self).side_effects() == final(effects)@,
    ;
}

impl<T> WithEffectPropsMut for WithEffectProps<T> {
    type SideEffect = T;

    open spec fn obeys_side_effects_spec() -> bool {
        true
    }

    open spec fn side_effects(&self) -> Seq<Rc<T>> {
        self.side_effects@
    }

    fn side_effects_mut(&mut self) -> (effects: &mut SideEffects<T>) {
        &mut self.side_effects
    }
}

} // verus!
