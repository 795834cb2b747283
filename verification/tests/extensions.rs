use gfx_core::error::{ExtensionProperty, GfxError};
use gfx_core::extensions::{check_device_extensions, compute_instance_extensions};

fn missing(result: Result<impl Sized, GfxError>) -> Vec<ExtensionProperty> {
    match result {
        Err(GfxError::ExtensionMissing(mut list)) => {
            list.sort_by(|a, b| a.name.cmp(&b.name));
            list
        }
        Err(other) => panic!("unexpected error {:?}", other),
        Ok(_) => panic!("nothing is missing"),
    }
}

fn property(name: &str, spec_version: u32) -> ExtensionProperty {
    ExtensionProperty { name: name.to_owned(), spec_version }
}

#[test]
fn device_with_swapchain_extension_passes() {
    let mut available = dacite::core::DeviceExtensionsProperties::new();
    available.add_khr_swapchain(68);
    let enabled = check_device_extensions(&available).unwrap();
    assert!(enabled.has_khr_swapchain());
    assert_eq!(enabled.len(), 1);
}

#[test]
fn device_with_exact_revision_passes() {
    let mut available = dacite::core::DeviceExtensionsProperties::new();
    available.add_khr_swapchain(67);
    available.add("VK_EXT_something_else", 3);
    let enabled = check_device_extensions(&available).unwrap();
    assert!(enabled.has_khr_swapchain());
    assert!(!enabled.has("VK_EXT_something_else"));
    assert_eq!(enabled.len(), 1);
}

#[test]
fn device_without_swapchain_extension_is_named() {
    let available = dacite::core::DeviceExtensionsProperties::new();
    let list = missing(check_device_extensions(&available));
    assert_eq!(list, vec![property("VK_KHR_swapchain", 67)]);
}

#[test]
fn device_with_old_swapchain_revision_is_named() {
    let mut available = dacite::core::DeviceExtensionsProperties::new();
    available.add_khr_swapchain(66);
    let list = missing(check_device_extensions(&available));
    assert_eq!(list, vec![property("VK_KHR_swapchain", 67)]);
}

#[test]
fn instance_extensions_all_on_offer() {
    let mut required = dacite::core::InstanceExtensionsProperties::new();
    required.add_khr_surface(25);
    required.add("VK_KHR_xcb_surface", 6);
    let mut available = dacite::core::InstanceExtensionsProperties::new();
    available.add_khr_surface(25);
    available.add("VK_KHR_xcb_surface", 6);
    available.add_ext_debug_report(8);
    let enabled = compute_instance_extensions(&required, &available).unwrap();
    assert_eq!(enabled, required.to_extensions());
    assert!(enabled.has_khr_surface());
    assert!(!enabled.has_ext_debug_report());
    assert_eq!(enabled.len(), 2);
}

#[test]
fn instance_extensions_missing_are_each_named() {
    let mut required = dacite::core::InstanceExtensionsProperties::new();
    required.add_khr_surface(25);
    required.add("VK_KHR_xcb_surface", 6);
    required.add_ext_debug_report(2);
    let mut available = dacite::core::InstanceExtensionsProperties::new();
    available.add_khr_surface(25);
    available.add_ext_debug_report(1);
    let list = missing(compute_instance_extensions(&required, &available));
    assert_eq!(list, vec![property("VK_EXT_debug_report", 2), property("VK_KHR_xcb_surface", 6)]);
}

#[test]
fn nothing_required_of_the_instance() {
    let required = dacite::core::InstanceExtensionsProperties::new();
    let available = dacite::core::InstanceExtensionsProperties::new();
    let enabled = compute_instance_extensions(&required, &available).unwrap();
    assert!(enabled.is_empty());
}
