//! Logical devices and their queues.

use vstd::prelude::*;
use vstd::string::*;
use crate::error::{message_text, result_description, Error, SUCCESS};
use crate::extension::{
    covers, device_extension_names, joined, missing, negotiate, offered, required_device_extensions,
    texts, ExtensionProperties, MissingExtensions,
};
use crate::instance::Instance;
use crate::physical_device::PhysicalDevice;

verus! {

/// What a device is created with: one queue of one family, and the enabled
/// extensions.
#[derive(Debug, Clone)]
pub struct DeviceCreateInfo {
    pub physical_device: u64,
    pub queue_family_index: u32,
    pub queue_count: u32,
    pub enabled_extensions: Vec<String>,
    pub enabled_extension_count: u32,
}

impl DeviceCreateInfo {
    /// Exactly one queue of the given family of the given device, and exactly
    /// the extensions that a device requires.
    pub open spec fn requests(&self, physical_device: u64, queue_family_index: int) -> bool {
        &&& self.physical_device == physical_device
        &&& self.queue_family_index == queue_family_index
        &&& self.queue_count == 1
        &&& texts(self.enabled_extensions@) == device_extension_names()
        &&& self.enabled_extension_count == 1
    }
}

/// Why no device came about.
#[derive(Debug, Clone)]
pub enum DeviceError {
    /// The index of the queue family is beyond what the native API can
    /// express.
    QueueFamilyOutOfRange,
    /// The device lacks extensions that are required.
    ExtensionsNotSupported(MissingExtensions),
    /// The runtime answered a call with a code other than success.
    Native(Error),
}

/// What is reported of an index that the native API cannot express.
pub const INDEX_OUT_OF_RANGE: &'static str = "Could not convert `usize` to `u32`";

/// What is reported, before their names, where device extensions are missing.
pub const DEVICE_EXTENSIONS_NOT_SUPPORTED: &'static str =
    "Required device extension(s) are not supported: ";

/// The message of each failure: it names what is missing, or gives the
/// native result code with its description.
pub open spec fn device_error_text(error: DeviceError) -> Seq<char> {
    match error {
        DeviceError::QueueFamilyOutOfRange => INDEX_OUT_OF_RANGE@,
        DeviceError::ExtensionsNotSupported(e) => DEVICE_EXTENSIONS_NOT_SUPPORTED@ + joined(
            texts(e.names@),
        ),
        DeviceError::Native(e) => message_text(result_description(e.code), e.code),
    }
}

impl DeviceError {
    /// The message of this failure.
    pub fn message(&self) -> (text: String)
        ensures
            text@ == device_error_text(*self),
    {
        match self {
            DeviceError::QueueFamilyOutOfRange => INDEX_OUT_OF_RANGE.to_owned(),
            DeviceError::ExtensionsNotSupported(e) => {
                let mut text = DEVICE_EXTENSIONS_NOT_SUPPORTED.to_owned();
                let names = e.list();
                text.append(names.as_str());
                text
            },
            DeviceError::Native(e) => e.message(),
        }
    }
}

/// A logical device. It is destroyed before its instance.
#[derive(Debug, Clone, Copy, PartialEq, Eq, Structural)]
pub struct Device {
    pub handle: u64,
    pub instance: Instance,
}

/// A question to the runtime: the handle of one queue of a device.
#[derive(Debug, Clone, Copy, PartialEq, Eq, Structural)]
pub struct QueueQuery {
    pub device: u64,
    pub queue_family_index: u32,
    pub queue_index: u32,
}

/// A queue of a device.
#[derive(Debug, Clone, Copy, PartialEq, Eq, Structural)]
pub struct Queue {
    pub handle: u64,
    pub device: Device,
}

impl Device {
    /// Negotiates the extensions of a device, from what the enumeration of
    /// its extensions returned, and says what to create it with. The index
    /// must be one that the native API can express, the enumeration must have
    /// succeeded, and the device must offer every required extension; the
    /// first of these that fails is the error.
    pub fn create_info(
        physical_device: &PhysicalDevice,
        queue_family_index: usize,
        code: i32,
        available: &Vec<ExtensionProperties>,
    ) -> (outcome: Result<DeviceCreateInfo, DeviceError>)
        ensures
            outcome is Ok <==> queue_family_index <= u32::MAX && code == SUCCESS && covers(
                offered(available@),
                device_extension_names(),
            ),
            outcome matches Ok(info) ==> info.requests(
                physical_device.handle,
                queue_family_index as int,
            ),
            queue_family_index > u32::MAX ==> outcome == Err::<DeviceCreateInfo, DeviceError>(
                DeviceError::QueueFamilyOutOfRange,
            ),
            queue_family_index <= u32::MAX && code != SUCCESS ==> outcome == Err::<
                DeviceCreateInfo,
                DeviceError,
            >(DeviceError::Native(Error { code })),
            queue_family_index <= u32::MAX && code == SUCCESS ==> (outcome matches Err(
                DeviceError::ExtensionsNotSupported(e),
            ) ==> texts(e.names@) == missing(device_extension_names(), offered(available@))),
            queue_family_index <= u32::MAX && code == SUCCESS && !covers(
                offered(available@),
                device_extension_names(),
            ) ==> outcome matches Err(DeviceError::ExtensionsNotSupported(_)),
    {
        if queue_family_index > u32::MAX as usize {
            return Err(DeviceError::QueueFamilyOutOfRange);
        }
        if code != SUCCESS {
            return Err(DeviceError::Native(Error::new(code)));
        }
        let required = required_device_extensions();
        match negotiate(&required, available) {
            Ok(()) => {
                assert(texts(required@).len() == required@.len());
                Ok(
                    DeviceCreateInfo {
                        physical_device: physical_device.handle,
                        queue_family_index: queue_family_index as u32,
                        queue_count: 1,
                        enabled_extensions: required,
                        enabled_extension_count: 1,
                    },
                )
            },
            Err(e) => Err(DeviceError::ExtensionsNotSupported(e)),
        }
    }

    /// The device that a creation call gave on a physical device: there is
    /// one exactly where the call reported success, and it belongs to the
    /// instance of the physical device; otherwise the error carries the code.
    pub fn new(physical_device: &PhysicalDevice, code: i32, handle: u64) -> (outcome: Result<
        Device,
        DeviceError,
    >)
        ensures
            code == SUCCESS ==> outcome == Ok::<Device, DeviceError>(
                Device { handle, instance: physical_device.instance },
            ),
            code != SUCCESS ==> outcome == Err::<Device, DeviceError>(
                DeviceError::Native(Error { code }),
            ),
    {
        if code == SUCCESS {
            Ok(Device { handle, instance: physical_device.instance })
        } else {
            Err(DeviceError::Native(Error::new(code)))
        }
    }

    /// The question for the handle of a queue. There is none where an index
    /// is beyond what the native API can express.
    pub fn queue_query(&self, queue_family_index: usize, queue_index: usize) -> (query: Option<
        QueueQuery,
    >)
        ensures
            queue_family_index <= u32::MAX && queue_index <= u32::MAX ==> query == Some(
                QueueQuery {
                    device: self.handle,
                    queue_family_index: queue_family_index as u32,
                    queue_index: queue_index as u32,
                },
            ),
            queue_family_index > u32::MAX || queue_index > u32::MAX ==> query is None,
    {
        if queue_family_index > u32::MAX as usize || queue_index > u32::MAX as usize {
            None
        } else {
            Some(
                QueueQuery {
                    device: self.handle,
                    queue_family_index: queue_family_index as u32,
                    queue_index: queue_index as u32,
                },
            )
        }
    }

    /// The queue behind the handle that the runtime returned. A null handle
    /// means that no such queue was created with the device, and gives none.
    pub fn get_queue(&self, handle: u64) -> (queue: Option<Queue>)
        ensures
            handle != 0 ==> queue == Some(Queue { handle, device: *self }),
            handle == 0 ==> queue is None,
    {
        if handle != 0 {
            Some(Queue { handle, device: *self })
        } else {
            None
        }
    }
}

} // verus!
