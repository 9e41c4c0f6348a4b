use render::device::{Device, DeviceError, Queue, QueueQuery};
use render::error::Error;
use render::extension::ExtensionProperties;
use render::instance::Instance;
use render::lifecycle::DestroyCall;
use render::loader::DynamicLibrary;
use render::physical_device::{PhysicalDevice, RawPhysicalDevice};
use render::surface::SurfaceKhr;
use render::swapchain::SwapchainKhr;

fn instance() -> Instance {
    Instance::new(DynamicLibrary::new(1).unwrap(), 0, 0x10).unwrap()
}

fn physical_device() -> PhysicalDevice {
    let raw = vec![RawPhysicalDevice { handle: 0x20, device_type: 2, device_name: vec![b'A', 0] }];
    instance().enumerate_physical_devices(0, &raw).unwrap().remove(0)
}

fn offer(names: &[&str]) -> Vec<ExtensionProperties> {
    names
        .iter()
        .map(|n| {
            let mut buf = n.as_bytes().to_vec();
            buf.resize(256, 0);
            ExtensionProperties::from_raw(&buf, 70)
        })
        .collect()
}

#[test]
fn device_asks_for_one_queue_and_the_swapchain_extension() {
    let available = offer(&["VK_KHR_maintenance1", "VK_KHR_swapchain"]);
    let info = Device::create_info(&physical_device(), 2, 0, &available).unwrap();
    assert_eq!(info.physical_device, 0x20);
    assert_eq!(info.queue_family_index, 2);
    assert_eq!(info.queue_count, 1);
    assert_eq!(info.enabled_extensions, vec!["VK_KHR_swapchain"]);
    assert_eq!(info.enabled_extension_count, 1);
}

#[test]
fn device_without_swapchain_extension_fails() {
    let available = offer(&["VK_KHR_maintenance1"]);
    let error = Device::create_info(&physical_device(), 0, 0, &available).unwrap_err();
    assert_eq!(
        error.message(),
        "Required device extension(s) are not supported: VK_KHR_swapchain"
    );
    match error {
        DeviceError::ExtensionsNotSupported(m) => assert_eq!(m.names, vec!["VK_KHR_swapchain"]),
        other => panic!("{:?}", other),
    }
}

#[test]
fn failed_extension_enumeration_carries_the_code() {
    let available = offer(&["VK_KHR_swapchain"]);
    let error = Device::create_info(&physical_device(), 0, -2, &available).unwrap_err();
    assert!(matches!(error, DeviceError::Native(e) if e == Error::new(-2)));
    assert_eq!(error.message(), "A device memory allocation has failed. (-2)");
}

#[test]
fn queue_family_index_must_fit_the_native_width() {
    let available = offer(&["VK_KHR_swapchain"]);
    let error =
        Device::create_info(&physical_device(), u32::MAX as usize + 1, 0, &available).unwrap_err();
    assert!(matches!(error, DeviceError::QueueFamilyOutOfRange));
    assert_eq!(error.message(), "Could not convert `usize` to `u32`");
    let info =
        Device::create_info(&physical_device(), u32::MAX as usize, 0, &available).unwrap();
    assert_eq!(info.queue_family_index, u32::MAX);
    let error =
        Device::create_info(&physical_device(), usize::MAX, -2, &Vec::new()).unwrap_err();
    assert!(matches!(error, DeviceError::QueueFamilyOutOfRange));
}

#[test]
fn device_stands_on_success_and_keeps_the_instance() {
    let device = Device::new(&physical_device(), 0, 0x30).unwrap();
    assert_eq!(device, Device { handle: 0x30, instance: instance() });
}

#[test]
fn device_fails_with_the_code() {
    let error = Device::new(&physical_device(), -4, 0x30).unwrap_err();
    assert!(matches!(error, DeviceError::Native(e) if e.code() == -4));
    let error = Device::new(&physical_device(), 2, 0x30).unwrap_err();
    assert!(matches!(error, DeviceError::Native(e) if e.code() == 2));
}

#[test]
fn queue_is_asked_for_by_family_and_index() {
    let device = Device::new(&physical_device(), 0, 0x30).unwrap();
    assert_eq!(
        device.queue_query(1, 0),
        Some(QueueQuery { device: 0x30, queue_family_index: 1, queue_index: 0 })
    );
    assert_eq!(device.queue_query(u32::MAX as usize + 1, 0), None);
    assert_eq!(device.queue_query(0, u32::MAX as usize + 1), None);
    assert_eq!(
        device.queue_query(u32::MAX as usize, u32::MAX as usize),
        Some(QueueQuery { device: 0x30, queue_family_index: u32::MAX, queue_index: u32::MAX })
    );
}

#[test]
fn null_queue_handle_is_refused() {
    let device = Device::new(&physical_device(), 0, 0x30).unwrap();
    assert_eq!(device.get_queue(0), None);
    assert_eq!(device.get_queue(0x40), Some(Queue { handle: 0x40, device }));
}

#[test]
fn device_is_destroyed_by_its_handle() {
    let device = Device::new(&physical_device(), 0, 0x30).unwrap();
    assert_eq!(device.destroy(), DestroyCall::DestroyDevice { device: 0x30 });
}

#[test]
fn swapchain_stands_on_success() {
    let device = Device::new(&physical_device(), 0, 0x30).unwrap();
    let surface = SurfaceKhr { handle: 0x50, instance: instance() };
    let swapchain = SwapchainKhr::new(&device, &surface, 0, 0x60).unwrap();
    assert_eq!(swapchain, SwapchainKhr { handle: 0x60, device });
    assert_eq!(
        swapchain.destroy(),
        DestroyCall::DestroySwapchain { device: 0x30, swapchain: 0x60 }
    );
}

#[test]
fn swapchain_fails_with_the_code() {
    let device = Device::new(&physical_device(), 0, 0x30).unwrap();
    let surface = SurfaceKhr { handle: 0x50, instance: instance() };
    assert_eq!(SwapchainKhr::new(&device, &surface, -3, 0x60), Err(Error::new(-3)));
    assert_eq!(SwapchainKhr::new(&device, &surface, 1, 0x60), Err(Error::new(1)));
}
