//! Startup and steady-state failure classes of the engine.
//!
//! Enumeration failures (the platform cannot list devices at all) are kept
//! distinct from selection failures (devices exist but none qualifies), so
//! that callers can tell "zero GPUs" from "GPUs present but unsuitable".

use vstd::prelude::*;

verus! {

/// Everything that can go wrong while the engine starts up or presents.
#[derive(Debug, Clone, Copy, PartialEq, Eq, Structural)]
pub enum ErrorType {
    VulkanMissing,
    EventLoopCreationFailed,
    VulkanInstanceCreationFailed,
    WindowCreationFailed,
    VulkanSurfaceCreationFailed,
    VulkanPhysicalDeviceEnumerationFailed,
    NoSuitableVulkanPhysicalDevices,
    VulkanDeviceCreationFailed,
    GetSurfaceCapabilitiesFailed,
    GetSurfaceFormatFailed,
    VulkanSwapchainCreationFailed,
    GetSurfaceCompositeAlphaFailed,
}

/// A failure class together with a human-readable account of it.
#[derive(Debug)]
pub struct Error {
    pub error_type: ErrorType,
    pub message: String,
}

impl Error {
    pub fn new(error_type: ErrorType, message: String) -> (e: Error)
        ensures
            e.error_type == error_type,
            e.message == message,
    {
        Error { error_type, message }
    }
}

} // verus!
