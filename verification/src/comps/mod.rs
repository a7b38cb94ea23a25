//! The components around a store: who feeds it and who reads it.
pub mod provider;
pub mod side_effect;
pub mod with_side_effect;
