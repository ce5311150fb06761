use vulky::constant::{QUEUE_GRAPHICS_BIT, QUEUE_TRANSFER_BIT};
use vulky::device::{contains_name, device_extension_support, get_version_api, names_equal, pick_physical_device, unique_queue_families};
use vulky::queue::{QueueFamily, QueueFamilyError};
use vulky::structs::{self, SuitabilityError};
use vulky::utility::name_bytes;
use vulky::QueueFamilyIndices;

fn family(flags: u32, count: u32) -> QueueFamily {
    QueueFamily { queue_flags: flags, queue_count: count }
}

#[test]
fn version_fields_split() {
    // variant 0, major 1, minor 3, patch 216
    let api = (1u32 << 22) | (3 << 12) | 216;
    assert_eq!(get_version_api(api), (0, 1, 3, 216));
    let with_variant = (1u32 << 29) | (1 << 22) | (2 << 12) | 5;
    assert_eq!(get_version_api(with_variant), (1, (1 << 7) | 1, 2, 5));
}

#[test]
fn is_completed_needs_both() {
    assert!(QueueFamilyIndices { graphics_family: Some(0), present_family: Some(1) }.is_completed());
    assert!(!QueueFamilyIndices { graphics_family: Some(0), present_family: None }.is_completed());
    assert!(!QueueFamilyIndices { graphics_family: None, present_family: Some(0) }.is_completed());
}

#[test]
fn find_queue_family_same_family() {
    let families = vec![family(QUEUE_GRAPHICS_BIT | QUEUE_TRANSFER_BIT, 16), family(QUEUE_TRANSFER_BIT, 2)];
    let r = QueueFamilyIndices::find_queue_family(&families, &vec![true, true]).unwrap();
    assert_eq!(r, QueueFamilyIndices { graphics_family: Some(0), present_family: Some(0) });
}

#[test]
fn find_queue_family_stops_at_completion_with_last_indices() {
    let families = vec![family(QUEUE_GRAPHICS_BIT, 1), family(QUEUE_GRAPHICS_BIT, 1), family(QUEUE_TRANSFER_BIT, 1), family(QUEUE_GRAPHICS_BIT, 1)];
    let r = QueueFamilyIndices::find_queue_family(&families, &vec![false, false, true, true]).unwrap();
    assert_eq!(r, QueueFamilyIndices { graphics_family: Some(1), present_family: Some(2) });
}

#[test]
fn find_queue_family_ignores_empty_family_for_present() {
    let families = vec![family(QUEUE_GRAPHICS_BIT, 0), family(QUEUE_TRANSFER_BIT, 1)];
    let r = QueueFamilyIndices::find_queue_family(&families, &vec![true, true]).unwrap();
    assert_eq!(r, QueueFamilyIndices { graphics_family: Some(0), present_family: Some(1) });
}

#[test]
fn find_queue_family_fails_without_graphics() {
    let families = vec![family(QUEUE_TRANSFER_BIT, 1)];
    let r = QueueFamilyIndices::find_queue_family(&families, &vec![true]);
    assert_eq!(r, Err(QueueFamilyError::NotSupported));
    assert_eq!(QueueFamilyIndices::find_queue_family(&vec![], &vec![]), Err(QueueFamilyError::NotSupported));
}

#[test]
fn resolved_families_take_first_each() {
    let families = vec![family(QUEUE_TRANSFER_BIT, 1), family(QUEUE_GRAPHICS_BIT, 1), family(QUEUE_GRAPHICS_BIT, 1)];
    let r = structs::QueueFamilyIndices::get(&families, &vec![false, false, true]).unwrap();
    assert_eq!((r.graphics, r.present), (1, 2));
    let missing = structs::QueueFamilyIndices::get(&families, &vec![false, false, false]);
    assert_eq!(missing.unwrap_err(), SuitabilityError::MissingQueueFamilies);
}

#[test]
fn unique_families_listed_once() {
    let same = QueueFamilyIndices { graphics_family: Some(3), present_family: Some(3) };
    assert_eq!(unique_queue_families(&same), vec![3]);
    let different = QueueFamilyIndices { graphics_family: Some(0), present_family: Some(2) };
    assert_eq!(unique_queue_families(&different), vec![0, 2]);
}

#[test]
fn extension_names_matched() {
    let available = vec![b"VK_KHR_swapchain".to_vec(), b"VK_KHR_maintenance1".to_vec()];
    assert!(device_extension_support(&available, &vec![b"VK_KHR_swapchain".to_vec()]));
    assert!(!device_extension_support(&available, &vec![b"VK_KHR_swapchain".to_vec(), b"VK_EXT_debug_utils".to_vec()]));
    assert!(device_extension_support(&vec![], &vec![]));
    assert!(!device_extension_support(&vec![b"VK_KHR_swap".to_vec()], &vec![b"VK_KHR_swapchain".to_vec()]));
}

#[test]
fn names_compared_bytewise() {
    assert!(names_equal(&b"abc".to_vec(), &b"abc".to_vec()));
    assert!(!names_equal(&b"abc".to_vec(), &b"abd".to_vec()));
    assert!(!names_equal(&b"ab".to_vec(), &b"abc".to_vec()));
    assert!(contains_name(&vec![b"x".to_vec(), b"VK_LAYER_KHRONOS_validation".to_vec()], &b"VK_LAYER_KHRONOS_validation".to_vec()));
    assert!(!contains_name(&vec![], &b"x".to_vec()));
}

#[test]
fn name_bytes_stop_at_nul() {
    assert_eq!(name_bytes(&b"VK_KHR_surface\0\0junk".to_vec()), b"VK_KHR_surface".to_vec());
    assert_eq!(name_bytes(&b"abc".to_vec()), b"abc".to_vec());
    assert_eq!(name_bytes(&b"\0abc".to_vec()), Vec::<u8>::new());
}

#[test]
fn first_suitable_device_picked() {
    assert_eq!(pick_physical_device(&vec![false, true, true]), Some(1));
    assert_eq!(pick_physical_device(&vec![false, false]), None);
    assert_eq!(pick_physical_device(&vec![]), None);
}
