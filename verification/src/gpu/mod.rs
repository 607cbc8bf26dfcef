//! The render pipeline, described and sequenced without touching a device.

pub mod bytes;
pub mod camera;
pub mod command;
pub mod context;
pub mod descriptor;
pub mod ground_renderer;
pub mod instance_renderer;
pub mod pipelines;
pub mod render_target;
pub mod renderer;
pub mod shadow;
pub mod sky_renderer;
pub mod sphere_renderer;
pub mod tonemap;

pub use camera::Camera;
pub use context::GpuError;
pub use ground_renderer::GroundRenderer;
pub use instance_renderer::InstanceRenderer;
pub use pipelines::{HDR_FORMAT, LDR_FORMAT};
pub use render_target::OffscreenTarget;
pub use renderer::Renderer;
pub use shadow::{ShadowRenderer, SHADOW_MAP_SIZE};
pub use sky_renderer::SkyRenderer;
pub use sphere_renderer::SphereRenderer;
pub use tonemap::TonemapRenderer;
