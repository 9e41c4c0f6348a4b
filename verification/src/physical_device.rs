//! Physical devices: what the runtime reports of each accelerator and of its
//! queue families.

use vstd::prelude::*;
use crate::error::{check, Error, SUCCESS};
use crate::instance::Instance;
use crate::name::{name_text, read_name};
use crate::surface::SurfaceKhr;

verus! {

/// The native code of a device of no other kind.
pub const DEVICE_TYPE_OTHER: i32 = 0;

/// The native code of a GPU that is integrated with the host.
pub const DEVICE_TYPE_INTEGRATED_GPU: i32 = 1;

/// The native code of a separate GPU.
pub const DEVICE_TYPE_DISCRETE_GPU: i32 = 2;

/// The native code of a virtual GPU.
pub const DEVICE_TYPE_VIRTUAL_GPU: i32 = 3;

/// The native code of a device that runs on the host's processor.
pub const DEVICE_TYPE_CPU: i32 = 4;

/// The bit of a queue family that supports graphics operations.
pub const QUEUE_GRAPHICS: u32 = 0x1;

/// The bit of a queue family that supports compute operations.
pub const QUEUE_COMPUTE: u32 = 0x2;

/// The bit of a queue family that supports transfer operations.
pub const QUEUE_TRANSFER: u32 = 0x4;

/// The bit of a queue family that supports sparse memory management.
pub const QUEUE_SPARSE_BINDING: u32 = 0x8;

/// The bit of a queue family that supports protected operations.
pub const QUEUE_PROTECTED: u32 = 0x10;

/// The bit of a queue family that supports video decoding.
pub const QUEUE_VIDEO_DECODE: u32 = 0x20;

/// The bit of a queue family that supports video encoding.
pub const QUEUE_VIDEO_ENCODE: u32 = 0x40;

/// The kind of a physical device.
#[derive(Debug, Clone, Copy, PartialEq, Eq, Structural)]
pub enum PhysicalDeviceType {
    Other,
    IntegratedGpu,
    DiscreteGpu,
    VirtualGpu,
    Cpu,
}

/// The kind that a native code stands for. A code that stands for none of
/// the known kinds counts as `Other`.
pub open spec fn device_type_of(code: i32) -> PhysicalDeviceType {
    if code == DEVICE_TYPE_INTEGRATED_GPU {
        PhysicalDeviceType::IntegratedGpu
    } else if code == DEVICE_TYPE_DISCRETE_GPU {
        PhysicalDeviceType::DiscreteGpu
    } else if code == DEVICE_TYPE_VIRTUAL_GPU {
        PhysicalDeviceType::VirtualGpu
    } else if code == DEVICE_TYPE_CPU {
        PhysicalDeviceType::Cpu
    } else {
        PhysicalDeviceType::Other
    }
}

impl PhysicalDeviceType {
    /// The kind that a native code stands for.
    pub fn from_raw(code: i32) -> (kind: PhysicalDeviceType)
        ensures
            kind == device_type_of(code),
    {
        match code {
            1 => PhysicalDeviceType::IntegratedGpu,
            2 => PhysicalDeviceType::DiscreteGpu,
            3 => PhysicalDeviceType::VirtualGpu,
            4 => PhysicalDeviceType::Cpu,
            _ => PhysicalDeviceType::Other,
        }
    }
}

/// The properties of a physical device that are kept: its kind and its name.
#[derive(Debug, Clone)]
pub struct PhysicalDeviceProperties {
    pub device_type: PhysicalDeviceType,
    pub device_name: String,
}

impl PhysicalDeviceProperties {
    /// Reads the properties as the runtime reports them: the kind from its
    /// code, the name from its fixed-length buffer, up to the terminator.
    pub fn from_raw(device_type: i32, device_name: &[u8]) -> (props: PhysicalDeviceProperties)
        ensures
            props.device_type == device_type_of(device_type),
            props.device_name@ == name_text(device_name@),
    {
        PhysicalDeviceProperties {
            device_type: PhysicalDeviceType::from_raw(device_type),
            device_name: read_name(device_name),
        }
    }
}

/// One physical device as the runtime reports it.
#[derive(Debug, Clone)]
pub struct RawPhysicalDevice {
    pub handle: u64,
    pub device_type: i32,
    pub device_name: Vec<u8>,
}

/// A physical device of an instance, with its properties as they were when it
/// was enumerated.
#[derive(Debug, Clone)]
pub struct PhysicalDevice {
    pub handle: u64,
    pub instance: Instance,
    pub props: PhysicalDeviceProperties,
}

/// The device that `instance` makes of one report.
pub open spec fn reads_device(
    instance: Instance,
    raw: RawPhysicalDevice,
    device: PhysicalDevice,
) -> bool {
    &&& device.handle == raw.handle
    &&& device.instance == instance
    &&& device.props.device_type == device_type_of(raw.device_type)
    &&& device.props.device_name@ == name_text(raw.device_name@)
}

impl Instance {
    /// The physical devices of this instance, from what an enumeration
    /// returned: one device for each report, in the order of the reports.
    /// Where the enumeration failed, the error carries its code.
    pub fn enumerate_physical_devices(&self, code: i32, raw: &Vec<RawPhysicalDevice>) -> (outcome:
        Result<Vec<PhysicalDevice>, Error>)
        ensures
            outcome is Ok <==> code == SUCCESS,
            outcome matches Err(e) ==> e.code == code,
            outcome matches Ok(devices) ==> {
                &&& devices@.len() == raw@.len()
                &&& forall|i: int|
                    0 <= i < raw@.len() ==> reads_device(*self, raw@[i], #[trigger] devices@[i])
            },
    {
        if code != SUCCESS {
            return Err(Error::new(code));
        }
        let mut devices: Vec<PhysicalDevice> = Vec::new();
        let mut i: usize = 0;
        while i < raw.len()
            invariant
                i <= raw.len(),
                devices@.len() == i,
                forall|j: int| 0 <= j < i ==> reads_device(*self, raw@[j], #[trigger] devices@[j]),
            decreases raw.len() - i,
        {
            let props = PhysicalDeviceProperties::from_raw(
                raw[i].device_type,
                raw[i].device_name.as_slice(),
            );
            devices.push(PhysicalDevice { handle: raw[i].handle, instance: *self, props });
            i = i + 1;
        }
        Ok(devices)
    }
}

/// An extent in three dimensions.
#[derive(Debug, Clone)]
pub struct Extent3D {
    pub width: u32,
    pub height: u32,
    pub depth: u32,
}

impl Extent3D {
    /// The extent of the given width, height and depth.
    pub fn new(width: u32, height: u32, depth: u32) -> (extent: Extent3D)
        ensures
            extent == (Extent3D { width, height, depth }),
    {
        Extent3D { width, height, depth }
    }
}

/// What the queues of a family can do.
#[derive(Debug, Clone)]
pub struct QueueFamilyCapabilities {
    pub graphics: bool,
    pub compute: bool,
    pub transfer: bool,
    pub sparse_binding: bool,
    pub video_decode: bool,
    pub video_encode: bool,
    pub protected: bool,
}

/// Whether the flag word `bits` holds every bit of `flag`.
pub open spec fn has_flag(bits: u32, flag: u32) -> bool {
    bits & flag == flag
}

/// The capabilities that a word of queue flags stands for.
pub open spec fn capabilities_of(bits: u32) -> QueueFamilyCapabilities {
    QueueFamilyCapabilities {
        graphics: has_flag(bits, QUEUE_GRAPHICS),
        compute: has_flag(bits, QUEUE_COMPUTE),
        transfer: has_flag(bits, QUEUE_TRANSFER),
        sparse_binding: has_flag(bits, QUEUE_SPARSE_BINDING),
        video_decode: has_flag(bits, QUEUE_VIDEO_DECODE),
        video_encode: has_flag(bits, QUEUE_VIDEO_ENCODE),
        protected: has_flag(bits, QUEUE_PROTECTED),
    }
}

/// Calls `ash::vk::QueueFlags::contains` on the flags that
/// `ash::vk::QueueFlags::from_raw` makes of the two words: whether every bit
/// of the second is set in the first.
#[verifier::external_body]
fn queue_flags_contain(bits: u32, flag: u32) -> (held: bool)
    ensures
        held == has_flag(bits, flag),
{
    ash::vk::QueueFlags::from_raw(bits).contains(ash::vk::QueueFlags::from_raw(flag))
}

impl QueueFamilyCapabilities {
    /// Reads the capabilities from a word of queue flags.
    pub fn from_flags(bits: u32) -> (capabilities: QueueFamilyCapabilities)
        ensures
            capabilities == capabilities_of(bits),
    {
        QueueFamilyCapabilities {
            graphics: queue_flags_contain(bits, QUEUE_GRAPHICS),
            compute: queue_flags_contain(bits, QUEUE_COMPUTE),
            transfer: queue_flags_contain(bits, QUEUE_TRANSFER),
            sparse_binding: queue_flags_contain(bits, QUEUE_SPARSE_BINDING),
            video_decode: queue_flags_contain(bits, QUEUE_VIDEO_DECODE),
            video_encode: queue_flags_contain(bits, QUEUE_VIDEO_ENCODE),
            protected: queue_flags_contain(bits, QUEUE_PROTECTED),
        }
    }
}

/// One queue family as the runtime reports it.
#[derive(Debug, Clone)]
pub struct RawQueueFamily {
    pub queue_flags: u32,
    pub queue_count: u32,
    pub timestamp_valid_bits: u32,
    pub min_image_transfer_granularity: Extent3D,
}

/// The properties of a queue family. Its index is its place in the list that
/// the physical device gives.
#[derive(Debug)]
pub struct QueueFamilyProperties {
    pub capabilities: QueueFamilyCapabilities,
    pub queue_count: u32,
    pub timestamp_valid_bits: u32,
    pub min_image_transfer_granularity: Extent3D,
}

/// The properties that one report stands for.
pub open spec fn family_of(raw: RawQueueFamily) -> QueueFamilyProperties {
    QueueFamilyProperties {
        capabilities: capabilities_of(raw.queue_flags),
        queue_count: raw.queue_count,
        timestamp_valid_bits: raw.timestamp_valid_bits,
        min_image_transfer_granularity: raw.min_image_transfer_granularity,
    }
}

impl QueueFamilyProperties {
    /// Reads the properties of a queue family from what the runtime reports.
    pub fn from_raw(raw: &RawQueueFamily) -> (props: QueueFamilyProperties)
        ensures
            props == family_of(*raw),
    {
        QueueFamilyProperties {
            capabilities: QueueFamilyCapabilities::from_flags(raw.queue_flags),
            queue_count: raw.queue_count,
            timestamp_valid_bits: raw.timestamp_valid_bits,
            min_image_transfer_granularity: Extent3D::new(
                raw.min_image_transfer_granularity.width,
                raw.min_image_transfer_granularity.height,
                raw.min_image_transfer_granularity.depth,
            ),
        }
    }

    /// Whether the family supports graphics operations.
    pub fn graphics(&self) -> (held: bool)
        ensures
            held == self.capabilities.graphics,
    {
        self.capabilities.graphics
    }

    /// Whether the family supports compute operations.
    pub fn compute(&self) -> (held: bool)
        ensures
            held == self.capabilities.compute,
    {
        self.capabilities.compute
    }

    /// Whether the family supports transfer operations.
    pub fn transfer(&self) -> (held: bool)
        ensures
            held == self.capabilities.transfer,
    {
        self.capabilities.transfer
    }

    /// Whether the family supports sparse memory management.
    pub fn sparse_binding(&self) -> (held: bool)
        ensures
            held == self.capabilities.sparse_binding,
    {
        self.capabilities.sparse_binding
    }

    /// Whether the family supports video decoding.
    pub fn video_decode(&self) -> (held: bool)
        ensures
            held == self.capabilities.video_decode,
    {
        self.capabilities.video_decode
    }

    /// Whether the family supports video encoding.
    pub fn video_encode(&self) -> (held: bool)
        ensures
            held == self.capabilities.video_encode,
    {
        self.capabilities.video_encode
    }

    /// Whether the family supports protected operations.
    pub fn protected(&self) -> (held: bool)
        ensures
            held == self.capabilities.protected,
    {
        self.capabilities.protected
    }
}

/// A question to the runtime: can this queue family of this physical device
/// present to this surface?
#[derive(Debug, Clone, Copy, PartialEq, Eq, Structural)]
pub struct SurfaceSupportQuery {
    pub physical_device: u64,
    pub queue_family_index: u32,
    pub surface: u64,
}

impl PhysicalDevice {
    /// The properties of this device's queue families, from what the runtime
    /// reports: one for each report, in index order.
    pub fn queue_family_properties(&self, raw: &Vec<RawQueueFamily>) -> (families: Vec<
        QueueFamilyProperties,
    >)
        ensures
            families@ == raw@.map_values(|r: RawQueueFamily| family_of(r)),
    {
        let mut families: Vec<QueueFamilyProperties> = Vec::new();
        let mut i: usize = 0;
        while i < raw.len()
            invariant
                i <= raw.len(),
                families@ == raw@.take(i as int).map_values(|r: RawQueueFamily| family_of(r)),
            decreases raw.len() - i,
        {
            families.push(QueueFamilyProperties::from_raw(&raw[i]));
            i = i + 1;
            assert(families@ =~= raw@.take(i as int).map_values(|r: RawQueueFamily| family_of(r)));
        }
        assert(raw@.take(i as int) =~= raw@);
        families
    }

    /// The question whether a queue family of this device can present to a
    /// surface. There is none for an index beyond what the native API can
    /// express.
    pub fn surface_support_query(&self, queue_family_index: usize, surface: &SurfaceKhr) -> (query:
        Option<SurfaceSupportQuery>)
        ensures
            queue_family_index <= u32::MAX ==> query == Some(
                SurfaceSupportQuery {
                    physical_device: self.handle,
                    queue_family_index: queue_family_index as u32,
                    surface: surface.handle,
                },
            ),
            queue_family_index > u32::MAX ==> query is None,
    {
        if queue_family_index > u32::MAX as usize {
            None
        } else {
            Some(
                SurfaceSupportQuery {
                    physical_device: self.handle,
                    queue_family_index: queue_family_index as u32,
                    surface: surface.handle,
                },
            )
        }
    }

    /// The answer to a question of surface support: the family can present
    /// where the query succeeded with a word other than zero, and cannot where
    /// it succeeded with zero. A query that failed gives an error with its
    /// code.
    pub fn surface_support_khr(&self, code: i32, supported: u32) -> (outcome: Result<bool, Error>)
        ensures
            code == SUCCESS ==> outcome == Ok::<bool, Error>(supported != 0),
            code != SUCCESS ==> outcome == Err::<bool, Error>(Error { code }),
    {
        check(code, supported != 0)
    }

    /// The capabilities of a surface on this device. Nothing is queried yet.
    pub fn surface_capabilities(&self, surface: &SurfaceKhr) {
    }

    /// The name of the device.
    pub fn device_name(&self) -> (name: &str)
        ensures
            name@ == self.props.device_name@,
    {
        self.props.device_name.as_str()
    }

    /// The kind of the device.
    pub fn device_type(&self) -> (kind: PhysicalDeviceType)
        ensures
            kind == self.props.device_type,
    {
        self.props.device_type
    }
}

} // verus!
