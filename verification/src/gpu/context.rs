//! Acquiring a device: what is asked for, and what can go wrong.

use vstd::prelude::*;
use vstd::string::StringExecFns;

verus! {

/// Size in bytes that buffers and storage bindings must be allowed to reach:
/// 256 MiB, so that instance buffers for thousands of bodies fit.
pub const MAX_BUFFER_SIZE: u32 = 0x1000_0000;

/// Why no device could be acquired.
#[derive(Debug, PartialEq, Eq)]
pub enum GpuError {
    /// No adapter fits the request.
    NoAdapter,
    /// The adapter refused to create the device; the driver's words.
    DeviceRequest(String),
}

impl GpuError {
    /// The error in words.
    pub open spec fn spec_message(&self) -> Seq<char> {
        match self {
            GpuError::NoAdapter => "No suitable GPU adapter found"@,
            GpuError::DeviceRequest(reason) => "Failed to request device: "@ + reason@,
        }
    }

    /// The error in words.
    pub fn message(&self) -> (text: String)
        ensures
            text@ == self.spec_message(),
    {
        match self {
            GpuError::NoAdapter => String::from_str("No suitable GPU adapter found"),
            GpuError::DeviceRequest(reason) => String::from_str(
                "Failed to request device: ",
            ).concat(reason.as_str()),
        }
    }
}

/// Which kind of adapter is preferred.
#[derive(Clone, Copy, Debug, PartialEq, Eq, Structural)]
pub enum PowerPreference {
    /// The fastest adapter, such as a discrete GPU.
    HighPerformance,
}

/// The graphics API the instance is created for.
#[derive(Clone, Copy, Debug, PartialEq, Eq, Structural)]
pub enum Backend {
    Metal,
}

/// What is asked of an adapter.
#[derive(Clone, Copy, Debug, PartialEq, Eq, Structural)]
pub struct RequestAdapterOptions {
    pub power_preference: PowerPreference,
    /// Whether the adapter must be able to present to a surface. A headless
    /// renderer has none.
    pub needs_surface: bool,
    pub force_fallback_adapter: bool,
}

/// The limits that are raised above their defaults.
#[derive(Clone, Copy, Debug, PartialEq, Eq, Structural)]
pub struct Limits {
    pub max_storage_buffer_binding_size: u32,
    pub max_buffer_size: u64,
}

/// What is asked of a device: no optional features, and the limits given.
#[derive(Clone, Copy, Debug, PartialEq, Eq, Structural)]
pub struct DeviceDescriptor {
    pub required_limits: Limits,
}

/// The graphics API that is used.
pub fn backend() -> (b: Backend)
    ensures
        b == Backend::Metal,
{
    Backend::Metal
}

/// The adapter that is asked for: the fastest one, with no surface to present
/// to, and not the software fallback.
pub fn adapter_options() -> (options: RequestAdapterOptions)
    ensures
        options == (RequestAdapterOptions {
            power_preference: PowerPreference::HighPerformance,
            needs_surface: false,
            force_fallback_adapter: false,
        }),
{
    RequestAdapterOptions {
        power_preference: PowerPreference::HighPerformance,
        needs_surface: false,
        force_fallback_adapter: false,
    }
}

/// The device that is asked for: buffers and storage bindings of up to
/// 256 MiB.
pub fn device_descriptor() -> (descriptor: DeviceDescriptor)
    ensures
        descriptor == (DeviceDescriptor {
            required_limits: Limits {
                max_storage_buffer_binding_size: MAX_BUFFER_SIZE,
                max_buffer_size: MAX_BUFFER_SIZE as u64,
            },
        }),
{
    DeviceDescriptor {
        required_limits: Limits {
            max_storage_buffer_binding_size: MAX_BUFFER_SIZE,
            max_buffer_size: MAX_BUFFER_SIZE as u64,
        },
    }
}

/// The adapter that was found, or the error that none was.
pub fn adapter_or_error<A>(adapter: Option<A>) -> (result: Result<A, GpuError>)
    ensures
        adapter is Some ==> result == Ok::<A, GpuError>(adapter.unwrap()),
        adapter is None ==> result == Err::<A, GpuError>(GpuError::NoAdapter),
{
    match adapter {
        Some(a) => Ok(a),
        None => Err(GpuError::NoAdapter),
    }
}

/// The device that was created, or the error that carries the reason why it
/// was not.
pub fn device_or_error<D>(device: Result<D, String>) -> (result: Result<D, GpuError>)
    ensures
        device is Ok ==> result == Ok::<D, GpuError>(device->Ok_0),
        device is Err ==> result == Err::<D, GpuError>(GpuError::DeviceRequest(device->Err_0)),
{
    match device {
        Ok(d) => Ok(d),
        Err(reason) => Err(GpuError::DeviceRequest(reason)),
    }
}

} // verus!
