use ash::vk;
use render::error::Error;
use render::extension::ExtensionProperties;
use render::instance::{
    instance_step, ApplicationInfo, Instance, InstanceAction, InstanceCreateInfo, InstanceError,
    InstanceEvent, InstanceState,
};
use render::lifecycle::DestroyCall;
use render::loader::DynamicLibrary;

fn offer(names: &[&str]) -> Vec<ExtensionProperties> {
    names
        .iter()
        .map(|n| {
            let mut buf = n.as_bytes().to_vec();
            buf.resize(256, 0);
            ExtensionProperties::from_raw(&buf, 1)
        })
        .collect()
}

#[test]
fn application_info_is_fixed() {
    let info = ApplicationInfo::new();
    assert_eq!(info.application_name, "Vulkan Tutorial");
    assert_eq!(info.engine_name, "Tanelorn Engine");
    assert_eq!(info.application_version, 4096);
    assert_eq!(info.engine_version, 4096);
    assert_eq!(info.api_version, 4194304);
}

#[test]
fn application_info_agrees_with_the_binding_crate() {
    let info = ApplicationInfo::new();
    assert_eq!(info.application_version, vk::make_api_version(0, 0, 1, 0));
    assert_eq!(info.api_version, vk::API_VERSION_1_0);
    assert_eq!(vk::api_version_minor(info.engine_version), 1);
}

#[test]
fn create_info_enables_the_required_extensions() {
    let available = offer(&["VK_KHR_surface", "VK_KHR_win32_surface", "VK_EXT_debug_utils"]);
    let release = InstanceCreateInfo::new(false, &available).unwrap();
    assert_eq!(release.enabled_extensions, vec!["VK_KHR_surface", "VK_KHR_win32_surface"]);
    assert_eq!(release.enabled_extension_count, 2);
    let debug = InstanceCreateInfo::new(true, &available).unwrap();
    assert_eq!(
        debug.enabled_extensions,
        vec!["VK_KHR_surface", "VK_KHR_win32_surface", "VK_EXT_debug_utils"]
    );
    assert_eq!(debug.enabled_extension_count, 3);
    assert_eq!(debug.application_info.application_name, "Vulkan Tutorial");
}

#[test]
fn create_info_fails_on_a_missing_extension() {
    let available = offer(&["VK_KHR_surface", "VK_KHR_win32_surface"]);
    let missing = InstanceCreateInfo::new(true, &available).unwrap_err();
    assert_eq!(missing.names, vec!["VK_EXT_debug_utils"]);
    assert!(InstanceCreateInfo::new(false, &available).is_ok());
}

#[test]
fn instance_stands_on_success() {
    let library = DynamicLibrary::new(9).unwrap();
    let instance = Instance::new(library, 0, 0x55).unwrap();
    assert_eq!(instance.handle, 0x55);
    assert_eq!(instance.library, library);
}

#[test]
fn instance_fails_with_the_code() {
    let library = DynamicLibrary::new(9).unwrap();
    let code = vk::Result::ERROR_INCOMPATIBLE_DRIVER.as_raw();
    assert_eq!(Instance::new(library, code, 0x55), Err(Error::new(code)));
    assert_eq!(Instance::new(library, 1, 0x55), Err(Error::new(1)));
}

#[test]
fn instance_goes_before_its_library() {
    let library = DynamicLibrary::new(9).unwrap();
    let instance = Instance::new(library, 0, 0x55).unwrap();
    assert_eq!(
        instance.destroy(),
        vec![
            DestroyCall::DestroyInstance { instance: 0x55 },
            DestroyCall::FreeLibrary { module: 9 }
        ]
    );
}

#[test]
fn creation_runs_from_start_to_instance() {
    let (state, action) = instance_step(false, InstanceState::Start, InstanceEvent::Started);
    assert!(matches!(state, InstanceState::LoadingLibrary));
    match action {
        InstanceAction::LoadLibrary { path } => assert_eq!(path, "vulkan-1.dll"),
        other => panic!("{:?}", other),
    }

    let (state, action) = instance_step(false, state, InstanceEvent::LibraryLoaded { module: 77 });
    match (&state, action) {
        (
            InstanceState::ResolvingEntryPoint { library },
            InstanceAction::ResolveEntryPoint { library: from, name },
        ) => {
            assert_eq!(library.module(), 77);
            assert_eq!(from.module(), 77);
            assert_eq!(name, "vkGetInstanceProcAddr");
        }
        other => panic!("{:?}", other),
    }

    let (state, action) =
        instance_step(false, state, InstanceEvent::EntryPointResolved { address: 0x1000 });
    match (&state, action) {
        (
            InstanceState::EnumeratingExtensions { library, entry_point },
            InstanceAction::EnumerateExtensions { entry_point: through },
        ) => {
            assert_eq!(library.module(), 77);
            assert_eq!(entry_point.address(), 0x1000);
            assert_eq!(through.address(), 0x1000);
        }
        other => panic!("{:?}", other),
    }

    let available = offer(&["VK_KHR_win32_surface", "VK_KHR_surface"]);
    let (state, action) =
        instance_step(false, state, InstanceEvent::ExtensionsEnumerated { code: 0, available });
    match (&state, action) {
        (
            InstanceState::CreatingInstance { library },
            InstanceAction::CreateInstance { entry_point, info },
        ) => {
            assert_eq!(library.module(), 77);
            assert_eq!(entry_point.address(), 0x1000);
            assert_eq!(info.enabled_extensions, vec!["VK_KHR_surface", "VK_KHR_win32_surface"]);
            assert_eq!(info.enabled_extension_count, 2);
            assert_eq!(info.application_info.api_version, vk::API_VERSION_1_0);
        }
        other => panic!("{:?}", other),
    }

    let (state, action) =
        instance_step(false, state, InstanceEvent::InstanceCreated { code: 0, handle: 0xabc });
    assert!(matches!(state, InstanceState::Finished));
    match action {
        InstanceAction::Done(instance) => {
            assert_eq!(instance.handle, 0xabc);
            assert_eq!(instance.library.module(), 77);
        }
        other => panic!("{:?}", other),
    }
}

#[test]
fn missing_library_is_reported() {
    assert!(DynamicLibrary::new(0).is_none());
    let (state, action) =
        instance_step(true, InstanceState::LoadingLibrary, InstanceEvent::LibraryLoaded { module: 0 });
    assert!(matches!(state, InstanceState::Finished));
    match action {
        InstanceAction::Fail(error) => {
            assert!(matches!(error, InstanceError::LibraryNotLoaded));
            assert_eq!(error.message(), "Could not load dynamic library.");
        }
        other => panic!("{:?}", other),
    }
}

#[test]
fn missing_entry_point_is_reported() {
    let library = DynamicLibrary::new(3).unwrap();
    let (state, action) = instance_step(
        true,
        InstanceState::ResolvingEntryPoint { library },
        InstanceEvent::EntryPointResolved { address: 0 },
    );
    assert!(matches!(state, InstanceState::Finished));
    match action {
        InstanceAction::Fail(error) => {
            assert!(matches!(error, InstanceError::EntryPointNotFound));
            assert_eq!(error.message(), "Could not retrieve symbol `vkGetInstanceProcAddr`.");
        }
        other => panic!("{:?}", other),
    }
}

#[test]
fn failed_enumeration_carries_the_code() {
    let library = DynamicLibrary::new(3).unwrap();
    let entry_point = library.get(8).unwrap();
    let available = offer(&["VK_KHR_surface", "VK_KHR_win32_surface"]);
    let (state, action) = instance_step(
        false,
        InstanceState::EnumeratingExtensions { library, entry_point },
        InstanceEvent::ExtensionsEnumerated { code: -1, available },
    );
    assert!(matches!(state, InstanceState::Finished));
    match action {
        InstanceAction::Fail(InstanceError::Native(e)) => assert_eq!(e.code(), -1),
        other => panic!("{:?}", other),
    }
}

#[test]
fn missing_debug_extension_ends_the_creation() {
    let library = DynamicLibrary::new(3).unwrap();
    let entry_point = library.get(8).unwrap();
    let available = offer(&["VK_KHR_surface", "VK_KHR_win32_surface"]);
    let (state, action) = instance_step(
        true,
        InstanceState::EnumeratingExtensions { library, entry_point },
        InstanceEvent::ExtensionsEnumerated { code: 0, available },
    );
    assert!(matches!(state, InstanceState::Finished));
    match action {
        InstanceAction::Fail(error) => {
            assert_eq!(
                error.message(),
                "Required extensions are not supported: VK_EXT_debug_utils"
            );
            match error {
                InstanceError::ExtensionsNotSupported(m) => {
                    assert_eq!(m.names, vec!["VK_EXT_debug_utils"])
                }
                other => panic!("{:?}", other),
            }
        }
        other => panic!("{:?}", other),
    }
}

#[test]
fn message_lists_all_missing_extensions() {
    let library = DynamicLibrary::new(3).unwrap();
    let entry_point = library.get(8).unwrap();
    let (_, action) = instance_step(
        true,
        InstanceState::EnumeratingExtensions { library, entry_point },
        InstanceEvent::ExtensionsEnumerated { code: 0, available: Vec::new() },
    );
    match action {
        InstanceAction::Fail(error) => assert_eq!(
            error.message(),
            "Required extensions are not supported: VK_KHR_surface, VK_KHR_win32_surface, VK_EXT_debug_utils"
        ),
        other => panic!("{:?}", other),
    }
}

#[test]
fn failed_creation_carries_the_code() {
    let library = DynamicLibrary::new(3).unwrap();
    let code = vk::Result::ERROR_EXTENSION_NOT_PRESENT.as_raw();
    let (state, action) = instance_step(
        false,
        InstanceState::CreatingInstance { library },
        InstanceEvent::InstanceCreated { code, handle: 0 },
    );
    assert!(matches!(state, InstanceState::Finished));
    match action {
        InstanceAction::Fail(error) => {
            assert_eq!(error.message(), "Extension specified does not exist. (-7)");
            assert!(matches!(error, InstanceError::Native(e) if e.code() == -7));
        }
        other => panic!("{:?}", other),
    }
}

#[test]
fn event_out_of_order_ends_the_creation() {
    let (state, action) =
        instance_step(false, InstanceState::Start, InstanceEvent::LibraryLoaded { module: 5 });
    assert!(matches!(state, InstanceState::Finished));
    match action {
        InstanceAction::Fail(error) => {
            assert!(matches!(error, InstanceError::UnexpectedEvent));
            assert_eq!(error.message(), "Unexpected event.");
        }
        other => panic!("{:?}", other),
    }
    let (state, action) = instance_step(false, InstanceState::Finished, InstanceEvent::Started);
    assert!(matches!(state, InstanceState::Finished));
    assert!(matches!(action, InstanceAction::Fail(InstanceError::UnexpectedEvent)));
}
