//! Reconciling side effects of a component tree.
//!
//! Components that come and go register a value each (a page title, say) in
//! the [`store::Store`] of the scope around them, which keeps the values in
//! the order of registration. Whoever consumes them reads the ordered
//! [`SideEffects`] after every change and applies them to the outside world.
//!
//! Nothing in this crate knows a component framework. A store is driven by
//! [`store::Message`]s; the components that produce and consume them are
//! written as steps that say which message to dispatch, or which values to
//! hand on, and leave the dispatching and rendering to their owner.
//!
//! - [`utils`]: identifiers and the counter that issues them.
//! - [`store`]: the ordered, keyed store and its model.
//! - [`laws`]: what holds of every store.
//! - [`comps`], [`effect`], [`with_effect`]: producers and consumers.
//! - [`hooks`]: reading the store around a component.
//! - [`title`]: the title of the document as a side effect.
pub mod collections;
pub mod comps;
pub mod effect;
pub mod effects;
pub mod hooks;
pub mod laws;
pub mod props;
pub mod store;
pub mod title;
pub mod utils;
pub mod with_effect;
pub mod with_effect_props;

pub use collections::SideEffects;
pub use comps::provider::{side_effect_provider, Notice, SideEffectProvider};
pub use comps::side_effect::{side_effect, SideEffectProps};
pub use comps::with_side_effect::{WithSideEffect, WithSideEffectMsg};
pub use hooks::use_side_effects;
pub use props::{WithEffectProps, WithEffectPropsMut};
