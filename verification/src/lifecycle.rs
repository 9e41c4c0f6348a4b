//! The native calls that end the life of each object, and their order.

use vstd::prelude::*;
use crate::device::Device;
use crate::instance::Instance;
use crate::loader::DynamicLibrary;
use crate::surface::SurfaceKhr;
use crate::swapchain::SwapchainKhr;

verus! {

/// One native call that destroys an object or releases the library.
#[derive(Debug, Clone, Copy, PartialEq, Eq, Structural)]
pub enum DestroyCall {
    /// Destroy a swapchain of a device.
    DestroySwapchain { device: u64, swapchain: u64 },
    /// Destroy a logical device.
    DestroyDevice { device: u64 },
    /// Destroy a surface of an instance.
    DestroySurface { instance: u64, surface: u64 },
    /// Destroy an instance.
    DestroyInstance { instance: u64 },
    /// Release the library.
    FreeLibrary { module: isize },
}

impl DestroyCall {
    /// Whether this call must come before `other`: it destroys a child of
    /// what `other` destroys, or an instance's handle on the library that
    /// `other` releases.
    pub open spec fn before(self, other: DestroyCall) -> bool {
        match (self, other) {
            (
                DestroyCall::DestroySwapchain { device, .. },
                DestroyCall::DestroyDevice { device: parent },
            ) => device == parent,
            (DestroyCall::DestroySwapchain { .. }, DestroyCall::DestroyInstance { .. }) => true,
            (DestroyCall::DestroyDevice { .. }, DestroyCall::DestroyInstance { .. }) => true,
            (
                DestroyCall::DestroySurface { instance, .. },
                DestroyCall::DestroyInstance { instance: parent },
            ) => instance == parent,
            (DestroyCall::FreeLibrary { .. }, _) => false,
            (_, DestroyCall::FreeLibrary { .. }) => true,
            _ => false,
        }
    }
}

impl DynamicLibrary {
    /// The call that releases this library.
    pub fn release(&self) -> (call: DestroyCall)
        ensures
            call == (DestroyCall::FreeLibrary { module: self.handle() }),
    {
        DestroyCall::FreeLibrary { module: self.module() }
    }
}

impl Instance {
    /// The calls that end this instance.
    pub open spec fn destroy_calls(self) -> Seq<DestroyCall> {
        seq![
            DestroyCall::DestroyInstance { instance: self.handle },
            DestroyCall::FreeLibrary { module: self.library.handle() },
        ]
    }

    /// The calls that end this instance: its handle is destroyed first, the
    /// library is released after.
    pub fn destroy(&self) -> (calls: Vec<DestroyCall>)
        ensures
            calls@ == self.destroy_calls(),
    {
        let mut calls: Vec<DestroyCall> = Vec::new();
        calls.push(DestroyCall::DestroyInstance { instance: self.handle });
        calls.push(self.library.release());
        assert(calls@ =~= self.destroy_calls());
        calls
    }
}

impl SurfaceKhr {
    /// The call that destroys this surface, on its instance.
    pub fn destroy(&self) -> (call: DestroyCall)
        ensures
            call == (DestroyCall::DestroySurface {
                instance: self.instance.handle,
                surface: self.handle,
            }),
    {
        DestroyCall::DestroySurface { instance: self.instance.handle, surface: self.handle }
    }
}

impl Device {
    /// The call that destroys this device.
    pub fn destroy(&self) -> (call: DestroyCall)
        ensures
            call == (DestroyCall::DestroyDevice { device: self.handle }),
    {
        DestroyCall::DestroyDevice { device: self.handle }
    }
}

impl SwapchainKhr {
    /// The call that destroys this swapchain, on its device.
    pub fn destroy(&self) -> (call: DestroyCall)
        ensures
            call == (DestroyCall::DestroySwapchain {
                device: self.device.handle,
                swapchain: self.handle,
            }),
    {
        DestroyCall::DestroySwapchain { device: self.device.handle, swapchain: self.handle }
    }
}

} // verus!
