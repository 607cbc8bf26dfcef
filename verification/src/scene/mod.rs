//! Scenes: what bodies there are before the simulation starts.

pub mod builder;

pub use builder::SceneBuilder;
