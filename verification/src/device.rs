//! What is asked of the GPU when the device context is created.

use vstd::prelude::*;

verus! {

/// A graphics backend.
#[derive(Clone, Copy, Debug, PartialEq, Eq, Structural)]
pub enum Backend {
    Vulkan,
    Metal,
    Dx12,
    Dx11,
    Gl,
    BrowserWebGpu,
}

/// Which kind of adapter is preferred.
#[derive(Clone, Copy, Debug, PartialEq, Eq, Structural)]
pub enum PowerPreference {
    Unspecified,
    LowPower,
    HighPerformance,
}

/// The limits a device is requested with.
#[derive(Clone, Copy, Debug, PartialEq, Eq, Structural)]
pub enum Limits {
    /// The default limits.
    Default,
    /// The limits that every downlevel device meets.
    Downlevel,
    /// The limits that every WebGL 2 device meets.
    DownlevelWebGl2,
}

/// The request for an adapter, a device and its queue.
#[derive(Clone, Copy, Debug, PartialEq, Eq, Structural)]
pub struct DeviceRequest {
    /// The single backend that is enabled; there is no fallback to another.
    pub backend: Backend,
    pub power_preference: PowerPreference,
    /// Whether a software adapter is demanded.
    pub force_fallback_adapter: bool,
    /// Whether the adapter must be able to present to the caller's surface.
    pub compatible_surface: bool,
    /// The optional device features that are requested, one bit each; 0 asks
    /// for none.
    pub features: u64,
    pub limits: Limits,
}

/// The request made for a device context: Vulkan alone, a high-performance
/// hardware adapter, default limits and no optional features. The adapter
/// must suit the surface exactly when one is given.
pub open spec fn device_request(surface_hint: bool) -> DeviceRequest {
    DeviceRequest {
        backend: Backend::Vulkan,
        power_preference: PowerPreference::HighPerformance,
        force_fallback_adapter: false,
        compatible_surface: surface_hint,
        features: 0,
        limits: Limits::Default,
    }
}

impl DeviceRequest {
    /// Builds the request; `surface_hint` says whether the caller has a
    /// surface that the adapter must be compatible with.
    pub fn new(surface_hint: bool) -> (request: DeviceRequest)
        ensures
            request == device_request(surface_hint),
    {
        DeviceRequest {
            backend: Backend::Vulkan,
            power_preference: PowerPreference::HighPerformance,
            force_fallback_adapter: false,
            compatible_surface: surface_hint,
            features: 0,
            limits: Limits::Default,
        }
    }
}

} // verus!
