//! The renderer: the one instance, device, queue and surface of an
//! application, and the order in which they go.

use vstd::prelude::*;
use crate::device::{Device, Queue};
use crate::instance::Instance;
use crate::lifecycle::DestroyCall;
use crate::physical_device::PhysicalDevice;
use crate::surface::SurfaceKhr;
use crate::swapchain::SwapchainKhr;

verus! {

/// Something that can render.
pub trait Render {
    /// Renders one frame.
    fn render(&self);
}

/// The objects that an application renders with. Each object that was made
/// from another keeps to it: the physical device, the surface and the device
/// belong to the instance, the queue and the swapchain to the device.
pub struct Renderer {
    pub instance: Instance,
    pub physical_device: PhysicalDevice,
    pub device: Device,
    pub queue: Queue,
    pub surface: SurfaceKhr,
    pub swapchain: Option<SwapchainKhr>,
}

/// The calls that end a renderer's objects: the swapchain where there is one,
/// then the device, the surface, the instance, and the library last.
pub open spec fn teardown_calls(
    instance: Instance,
    device: Device,
    surface: SurfaceKhr,
    swapchain: Option<SwapchainKhr>,
) -> Seq<DestroyCall> {
    let rest = seq![
        DestroyCall::DestroyDevice { device: device.handle },
        DestroyCall::DestroySurface { instance: surface.instance.handle, surface: surface.handle },
        DestroyCall::DestroyInstance { instance: instance.handle },
        DestroyCall::FreeLibrary { module: instance.library.handle() },
    ];
    match swapchain {
        Some(s) => seq![
            DestroyCall::DestroySwapchain { device: s.device.handle, swapchain: s.handle },
        ] + rest,
        None => rest,
    }
}

/// No call of a teardown comes after a call that it must precede: every
/// object goes before the object that it was made from, and the library goes
/// last.
pub proof fn lemma_teardown_order(
    instance: Instance,
    device: Device,
    surface: SurfaceKhr,
    swapchain: Option<SwapchainKhr>,
)
    ensures
        forall|i: int, j: int|
            #![trigger teardown_calls(instance, device, surface, swapchain)[i], teardown_calls(instance, device, surface, swapchain)[j]]
            0 <= i <= j < teardown_calls(instance, device, surface, swapchain).len()
                ==> !teardown_calls(instance, device, surface, swapchain)[j].before(
                teardown_calls(instance, device, surface, swapchain)[i],
            ),
{
}

/// A full teardown is exactly five calls in the reverse order of creation:
/// swapchain, device, surface, instance, library.
pub proof fn lemma_teardown_reverses_creation(
    instance: Instance,
    device: Device,
    surface: SurfaceKhr,
    swapchain: SwapchainKhr,
)
    ensures
        teardown_calls(instance, device, surface, Some(swapchain)) == seq![
            DestroyCall::DestroySwapchain {
                device: swapchain.device.handle,
                swapchain: swapchain.handle,
            },
            DestroyCall::DestroyDevice { device: device.handle },
            DestroyCall::DestroySurface {
                instance: surface.instance.handle,
                surface: surface.handle,
            },
            DestroyCall::DestroyInstance { instance: instance.handle },
            DestroyCall::FreeLibrary { module: instance.library.handle() },
        ],
{
    assert(teardown_calls(instance, device, surface, Some(swapchain)) =~= seq![
        DestroyCall::DestroySwapchain {
            device: swapchain.device.handle,
            swapchain: swapchain.handle,
        },
        DestroyCall::DestroyDevice { device: device.handle },
        DestroyCall::DestroySurface { instance: surface.instance.handle, surface: surface.handle },
        DestroyCall::DestroyInstance { instance: instance.handle },
        DestroyCall::FreeLibrary { module: instance.library.handle() },
    ]);
}

impl Renderer {
    /// Each object keeps to the object that it was made from.
    pub open spec fn coherent(&self) -> bool {
        &&& self.physical_device.instance == self.instance
        &&& self.surface.instance == self.instance
        &&& self.device.instance == self.instance
        &&& self.queue.device == self.device
        &&& self.swapchain matches Some(s) ==> s.device == self.device
    }

    /// The renderer of these objects, without a swapchain. There is none
    /// where an object does not keep to the object that it was made from.
    pub fn new(
        instance: Instance,
        physical_device: PhysicalDevice,
        device: Device,
        queue: Queue,
        surface: SurfaceKhr,
    ) -> (renderer: Option<Renderer>)
        ensures
            renderer is Some <==> physical_device.instance == instance && surface.instance
                == instance && device.instance == instance && queue.device == device,
            renderer matches Some(r) ==> r.coherent() && r.instance == instance
                && r.physical_device == physical_device && r.device == device && r.queue == queue
                && r.surface == surface && r.swapchain is None,
    {
        if physical_device.instance == instance && surface.instance == instance && device.instance
            == instance && queue.device == device {
            Some(Renderer { instance, physical_device, device, queue, surface, swapchain: None })
        } else {
            None
        }
    }

    /// Gives the renderer its swapchain. A swapchain of another device is
    /// refused, and the renderer stays as it is.
    pub fn attach(&mut self, swapchain: SwapchainKhr) -> (attached: bool)
        ensures
            attached == (swapchain.device == old(self).device),
            attached ==> *final(self) == (Renderer { swapchain: Some(swapchain), ..*old(self) }),
            !attached ==> *final(self) == *old(self),
            old(self).coherent() ==> final(self).coherent(),
    {
        if swapchain.device == self.device {
            self.swapchain = Some(swapchain);
            true
        } else {
            false
        }
    }

    /// The calls that end this renderer's objects, in the order in which they
    /// are to be made.
    pub fn teardown(&self) -> (calls: Vec<DestroyCall>)
        ensures
            calls@ == teardown_calls(self.instance, self.device, self.surface, self.swapchain),
    {
        let mut calls: Vec<DestroyCall> = Vec::new();
        match &self.swapchain {
            Some(s) => {
                calls.push(s.destroy());
            },
            None => {},
        }
        calls.push(self.device.destroy());
        calls.push(self.surface.destroy());
        let mut last = self.instance.destroy();
        calls.append(&mut last);
        assert(calls@ =~= teardown_calls(self.instance, self.device, self.surface, self.swapchain));
        calls
    }
}

} // verus!
