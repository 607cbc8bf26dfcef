//! Headless rendering of rigid-body simulations: the verified core.
//!
//! The library decides everything a frame consists of, and leaves the GPU and
//! the file system to its caller. It lays out vertex, instance and uniform
//! data, describes every GPU resource and pipeline, records the render passes
//! of a frame in order, and turns the padded read-back buffer into packed
//! pixels.

use vstd::prelude::*;

pub mod gpu;
pub mod physics;
pub mod scalar;
pub mod scene;
pub mod simulator;

pub use gpu::{Camera, GpuError, InstanceRenderer, OffscreenTarget};
pub use physics::RigidBodyStorage;
pub use scene::SceneBuilder;
pub use simulator::Simulator;

verus! {

/// Version of this library.
pub const VERSION: &'static str = "0.1.0";

/// The library version.
pub fn version() -> (v: &'static str)
    ensures
        v@ == VERSION@,
        v@ == "0.1.0"@,
{
    VERSION
}

} // verus!
