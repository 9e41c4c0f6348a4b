//! Swapchains: the presentation chain of a device.

use vstd::prelude::*;
use crate::device::Device;
use crate::error::{check, Error, SUCCESS};
use crate::surface::SurfaceKhr;

verus! {

/// A swapchain of a device. It is destroyed before its device.
#[derive(Debug, Clone, Copy, PartialEq, Eq, Structural)]
pub struct SwapchainKhr {
    pub handle: u64,
    pub device: Device,
}

impl SwapchainKhr {
    /// The swapchain that a creation call gave for a device and a surface:
    /// there is one exactly where the call reported success; otherwise the
    /// error carries the code.
    pub fn new(device: &Device, surface: &SurfaceKhr, code: i32, handle: u64) -> (outcome: Result<
        SwapchainKhr,
        Error,
    >)
        ensures
            code == SUCCESS ==> outcome == Ok::<SwapchainKhr, Error>(
                SwapchainKhr { handle, device: *device },
            ),
            code != SUCCESS ==> outcome == Err::<SwapchainKhr, Error>(Error { code }),
    {
        check(code, SwapchainKhr { handle, device: *device })
    }
}

} // verus!
