//! The state of the simulated bodies.

pub mod storage;

pub use storage::RigidBodyStorage;
