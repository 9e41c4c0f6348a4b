use render::extension::{
    is_offered, negotiate, required_device_extensions, required_instance_extensions,
    ExtensionProperties,
};

fn buffer(name: &str) -> Vec<u8> {
    let mut buf = name.as_bytes().to_vec();
    buf.resize(256, 0);
    buf
}

fn offer(names: &[&str]) -> Vec<ExtensionProperties> {
    names.iter().map(|n| ExtensionProperties::from_raw(&buffer(n), 1)).collect()
}

#[test]
fn required_instance_extensions_in_release() {
    assert_eq!(
        required_instance_extensions(false),
        vec!["VK_KHR_surface".to_string(), "VK_KHR_win32_surface".to_string()]
    );
}

#[test]
fn required_instance_extensions_in_debug() {
    assert_eq!(
        required_instance_extensions(true),
        vec![
            "VK_KHR_surface".to_string(),
            "VK_KHR_win32_surface".to_string(),
            "VK_EXT_debug_utils".to_string()
        ]
    );
}

#[test]
fn required_device_extensions_hold_the_swapchain() {
    assert_eq!(required_device_extensions(), vec!["VK_KHR_swapchain".to_string()]);
}

#[test]
fn extension_is_read_up_to_the_terminator() {
    let mut buf = buffer("VK_KHR_surface");
    buf[20] = b'x';
    let props = ExtensionProperties::from_raw(&buf, 25);
    assert_eq!(props.extension_name(), "VK_KHR_surface");
    assert_eq!(props.spec_version(), 25);
}

#[test]
fn negotiation_succeeds_when_all_are_offered() {
    let available = offer(&["VK_KHR_win32_surface", "VK_EXT_other", "VK_KHR_surface"]);
    assert!(negotiate(&required_instance_extensions(false), &available).is_ok());
}

#[test]
fn negotiation_of_nothing_succeeds() {
    assert!(negotiate(&Vec::new(), &Vec::new()).is_ok());
}

#[test]
fn debug_extension_missing_from_available() {
    let available = offer(&["VK_KHR_surface", "VK_KHR_win32_surface"]);
    let missing = negotiate(&required_instance_extensions(true), &available).unwrap_err();
    assert_eq!(missing.names, vec!["VK_EXT_debug_utils".to_string()]);
}

#[test]
fn negotiation_names_every_missing_extension_in_order() {
    let available = offer(&["VK_KHR_win32_surface"]);
    let missing = negotiate(&required_instance_extensions(true), &available).unwrap_err();
    assert_eq!(
        missing.names,
        vec!["VK_KHR_surface".to_string(), "VK_EXT_debug_utils".to_string()]
    );
}

#[test]
fn names_match_case_sensitively() {
    let available = offer(&["vk_khr_surface", "VK_KHR_win32_surface"]);
    let missing = negotiate(&required_instance_extensions(false), &available).unwrap_err();
    assert_eq!(missing.names, vec!["VK_KHR_surface".to_string()]);
    assert!(!is_offered(&"VK_KHR_SURFACE".to_string(), &available));
    assert!(is_offered(&"vk_khr_surface".to_string(), &available));
}

#[test]
fn a_prefix_is_no_match() {
    let available = offer(&["VK_KHR_surface2", "VK_KHR_surf"]);
    assert!(!is_offered(&"VK_KHR_surface".to_string(), &available));
}
