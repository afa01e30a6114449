use portability_gfx::device::{check_device_extensions, check_instance_creation, find_queue_group, max_queue_count};
use portability_gfx::extensions::{
    check_extensions, device_extension_names, device_extensions, instance_extension_names,
    instance_extensions, Platform, VK_KHR_GET_PHYSICAL_DEVICE_PROPERTIES_2_EXTENSION_NAME,
    VK_KHR_GET_SURFACE_CAPABILITIES_2_EXTENSION_NAME, VK_KHR_SURFACE_EXTENSION_NAME,
    VK_KHR_SWAPCHAIN_EXTENSION_NAME,
    VK_KHR_WIN32_SURFACE_EXTENSION_NAME,
};
use portability_gfx::handle::{DispatchHandle, Handle, ICD_LOADER_MAGIC};
use portability_gfx::hal::adapter::{DeviceType, MemoryType};
use portability_gfx::hal::device::{AllocationError, OutOfMemory};
use portability_gfx::hal::memory::Properties;
use portability_gfx::hal::queue::QueueType;
use portability_gfx::instance::{
    device_name, driver_api_version, enumerate_into, enumeration_count, image_format_answer,
    image_format_query, image_type_dimensions,
    is_api_version_supported, make_api_version, map_alloc_error, map_device_type, map_oom,
    memory_properties, queue_family_properties, queue_flags,
};
use portability_gfx::procs::{
    device_entry_points, device_proc_addr, instance_proc_addr, negotiate_icd_version,
    physical_device_entry_points, physical_device_proc_addr, ProcAddr, ICD_VERSION,
};
use portability_gfx::hal::image::{Extent, FormatProperties, Tiling};
use portability_gfx::vk_enums::{VkFormat, VkImageTiling, VkImageType, VkPhysicalDeviceType, VkResult};

fn bytes(s: &str) -> Vec<u8> {
    s.as_bytes().to_vec()
}

#[test]
fn driver_version_is_packed() {
    assert_eq!(make_api_version(1, 0, 66), (1 << 22) | 66);
    assert_eq!(driver_api_version(), (1 << 22) | 66);
}

#[test]
fn only_major_and_minor_of_a_version_count() {
    assert!(is_api_version_supported(make_api_version(1, 0, 0)));
    assert!(is_api_version_supported(make_api_version(1, 0, 4095)));
    assert!(is_api_version_supported(0));
    assert!(!is_api_version_supported(make_api_version(1, 1, 0)));
    assert!(!is_api_version_supported(make_api_version(2, 0, 0)));
}

#[test]
fn enumeration_reports_count_or_incomplete() {
    assert_eq!(enumeration_count(3, None), (3, VkResult::VK_SUCCESS));
    assert_eq!(enumeration_count(3, Some(2)), (2, VkResult::VK_INCOMPLETE));
    assert_eq!(enumeration_count(3, Some(5)), (3, VkResult::VK_SUCCESS));
    let (items, code) = enumerate_into(&[10u32, 20, 30], 2);
    assert_eq!(items, vec![10, 20]);
    assert_eq!(code, VkResult::VK_INCOMPLETE);
    let (items, code) = enumerate_into(&[10u32, 20, 30], 3);
    assert_eq!(items, vec![10, 20, 30]);
    assert_eq!(code, VkResult::VK_SUCCESS);
}

#[test]
fn errors_of_the_abstraction_layer_map_to_vulkan() {
    assert_eq!(map_oom(OutOfMemory::Host), VkResult::VK_ERROR_OUT_OF_HOST_MEMORY);
    assert_eq!(map_oom(OutOfMemory::Device), VkResult::VK_ERROR_OUT_OF_DEVICE_MEMORY);
    assert_eq!(map_alloc_error(AllocationError::TooManyObjects), VkResult::VK_ERROR_TOO_MANY_OBJECTS);
    assert_eq!(map_alloc_error(AllocationError::OutOfMemory(OutOfMemory::Host)), VkResult::VK_ERROR_OUT_OF_HOST_MEMORY);
}

#[test]
fn queue_families_report_their_abilities() {
    assert_eq!(queue_flags(QueueType::General), 0x1 | 0x2 | 0x4);
    assert_eq!(queue_flags(QueueType::Graphics), 0x1 | 0x4);
    assert_eq!(queue_flags(QueueType::Compute), 0x2 | 0x4);
    assert_eq!(queue_flags(QueueType::Transfer), 0x4);
    let p = queue_family_properties(QueueType::Compute, 4);
    assert_eq!(p.queueCount, 4);
    assert_eq!(p.timestampValidBits, 0);
    assert_eq!((p.minImageTransferGranularity.width, p.minImageTransferGranularity.height, p.minImageTransferGranularity.depth), (1, 1, 1));
}

#[test]
fn device_facts() {
    assert_eq!(map_device_type(DeviceType::DiscreteGpu), VkPhysicalDeviceType::VK_PHYSICAL_DEVICE_TYPE_DISCRETE_GPU);
    assert_eq!(image_type_dimensions(VkImageType::VK_IMAGE_TYPE_2D), 2);
    let name = device_name(b"Empty GPU");
    assert_eq!(name.len(), 256);
    assert_eq!(&name[..9], b"Empty GPU");
    assert!(name[9..].iter().all(|&b| b == 0));
    let long = vec![b'x'; 300];
    let name = device_name(&long);
    assert_eq!(name[254], b'x');
    assert_eq!(name[255], 0);
}

#[test]
fn memory_properties_list_types_and_heaps() {
    let types = [MemoryType { properties: Properties { bits: Properties::DEVICE_LOCAL }, heap_index: 0 },
                 MemoryType { properties: Properties { bits: Properties::CPU_VISIBLE | Properties::COHERENT }, heap_index: 1 }];
    let p = memory_properties(&types, &[1 << 30, 1 << 20]);
    assert_eq!(p.memoryTypeCount, 2);
    assert_eq!(p.memoryHeapCount, 2);
    assert_eq!(p.memoryTypes[1].heapIndex, 1);
    assert_eq!(p.memoryTypes[1].propertyFlags, 0x2 | 0x4);
    assert_eq!(p.memoryHeaps[0].size, 1 << 30);
}

#[test]
fn instance_extensions_depend_on_the_platform() {
    let linux = Platform { windows: false, metal: false, macos: false };
    assert_eq!(
        instance_extension_names(linux),
        vec![VK_KHR_SURFACE_EXTENSION_NAME, VK_KHR_GET_PHYSICAL_DEVICE_PROPERTIES_2_EXTENSION_NAME, VK_KHR_GET_SURFACE_CAPABILITIES_2_EXTENSION_NAME]
    );
    let windows = Platform { windows: true, metal: false, macos: false };
    assert!(instance_extension_names(windows).contains(&VK_KHR_WIN32_SURFACE_EXTENSION_NAME));
    assert_eq!(instance_extensions(linux).len(), 2);
    assert_eq!(device_extension_names().len(), 3);
    assert_eq!(device_extensions()[0], (VK_KHR_SWAPCHAIN_EXTENSION_NAME, 68));
}

#[test]
fn unknown_extensions_are_refused() {
    let supported = device_extension_names();
    assert_eq!(check_extensions(&supported, &vec![bytes("VK_KHR_swapchain")]), Ok(vec![bytes("VK_KHR_swapchain")]));
    assert_eq!(check_extensions(&supported, &vec![bytes("VK_KHR_swapchain"), bytes("VK_bogus")]), Err(()));
    assert_eq!(check_extensions(&supported, &vec![]), Ok(vec![]));
}

#[test]
fn instance_creation_checks_version_then_extensions() {
    let linux = Platform { windows: false, metal: false, macos: false };
    assert_eq!(
        check_instance_creation(Some(make_api_version(1, 1, 0)), linux, &vec![bytes("VK_bogus")]),
        Err(VkResult::VK_ERROR_INCOMPATIBLE_DRIVER)
    );
    assert_eq!(
        check_instance_creation(Some(make_api_version(1, 0, 3)), linux, &vec![bytes("VK_bogus")]),
        Err(VkResult::VK_ERROR_EXTENSION_NOT_PRESENT)
    );
    assert_eq!(
        check_instance_creation(None, linux, &vec![bytes("VK_KHR_surface")]),
        Ok(vec![bytes("VK_KHR_surface")])
    );
    assert_eq!(check_device_extensions(&vec![bytes("VK_KHR_surface")]), Err(VkResult::VK_ERROR_EXTENSION_NOT_PRESENT));
    assert_eq!(check_device_extensions(&vec![bytes("VK_KHR_maintenance1")]), Ok(vec![bytes("VK_KHR_maintenance1")]));
}

#[test]
fn queues_are_found_by_family() {
    assert_eq!(max_queue_count(&[2, 5, 1]), 5);
    assert_eq!(max_queue_count(&[]), 0);
    assert_eq!(find_queue_group(&[3, 1, 1], 1), Some(1));
    assert_eq!(find_queue_group(&[3, 1], 2), None);
}

#[test]
fn swapchain_entry_points_need_the_extension() {
    let table = device_entry_points();
    let idx = device_proc_addr(b"vkCreateSwapchainKHR", None).unwrap();
    assert_eq!(table[idx], "vkCreateSwapchainKHR");
    assert_eq!(device_proc_addr(b"vkCreateSwapchainKHR", Some(&vec![])), None);
    assert_eq!(device_proc_addr(b"vkCreateSwapchainKHR", Some(&vec![bytes("VK_KHR_swapchain")])), Some(idx));
    assert!(device_proc_addr(b"vkQueueSubmit", Some(&vec![])).is_some());
    assert_eq!(device_proc_addr(b"vkNoSuchThing", None), None);
}

#[test]
fn instance_entry_points_prefer_device_ones() {
    assert!(matches!(instance_proc_addr(b"vkQueueSubmit"), Some(ProcAddr::Device(_))));
    assert!(matches!(instance_proc_addr(b"vkCreateInstance"), Some(ProcAddr::Instance(_))));
    assert_eq!(instance_proc_addr(b"vkNoSuchThing"), None);
}

#[test]
fn handles_own_their_objects() {
    let h = Handle::new(42u32);
    assert!(!h.is_null());
    assert_eq!(*h.borrow(), 42);
    assert_eq!(h.unbox(), 42);
    let n: Handle<u32> = Handle::null();
    assert!(n.is_null());
}

#[test]
fn dispatchable_objects_start_with_the_loader_word() {
    let h = DispatchHandle::new(7u8);
    assert_eq!(h.loader_word(), Some(ICD_LOADER_MAGIC));
    assert_eq!(h.loader_word(), Some(0x01CDC0DE));
    assert_eq!(*h.borrow(), 7);
    let n: DispatchHandle<u8> = DispatchHandle::null();
    assert_eq!(n.loader_word(), None);
}

#[test]
fn loader_and_driver_agree_on_the_older_interface() {
    assert_eq!(negotiate_icd_version(7), 5);
    assert_eq!(negotiate_icd_version(3), 3);
    assert_eq!(negotiate_icd_version(ICD_VERSION), ICD_VERSION);
}

#[test]
fn physical_device_entry_points_by_name() {
    let table = physical_device_entry_points();
    let i = physical_device_proc_addr(b"vkGetPhysicalDeviceSurfaceFormatsKHR").unwrap();
    assert_eq!(table[i], "vkGetPhysicalDeviceSurfaceFormatsKHR");
    assert_eq!(physical_device_proc_addr(b"vkQueueSubmit"), None);
}

#[test]
fn image_format_queries_and_answers() {
    let q = image_format_query(
        VkFormat::VK_FORMAT_R8G8B8A8_UNORM,
        VkImageType::VK_IMAGE_TYPE_3D,
        VkImageTiling::VK_IMAGE_TILING_LINEAR,
        0x4 | 0x8000_0000,
        0x10,
    );
    assert_eq!(q.format.id, VkFormat::VK_FORMAT_R8G8B8A8_UNORM.as_raw());
    assert_eq!((q.dimensions, q.tiling), (3, Tiling::Linear));
    assert_eq!((q.usage.bits, q.view_caps.bits), (0x4, 0x10));
    assert_eq!(image_format_answer(None), (VkResult::VK_ERROR_FORMAT_NOT_SUPPORTED, None));
    let (code, props) = image_format_answer(Some(FormatProperties {
        max_extent: Extent { width: 4096, height: 4096, depth: 1 },
        max_levels: 13,
        max_layers: 256,
        sample_count_mask: 0x5,
        max_resource_size: 1 << 30,
    }));
    assert_eq!(code, VkResult::VK_SUCCESS);
    let p = props.unwrap();
    assert_eq!((p.maxExtent.width, p.maxExtent.depth, p.maxMipLevels, p.maxArrayLayers), (4096, 1, 13, 256));
    assert_eq!((p.sampleCounts, p.maxResourceSize), (0x5, 1 << 30));
}

#[test]
fn names_that_are_not_text_find_no_entry_point() {
    assert_eq!(instance_proc_addr(&[0x76, 0x6B, 0xFF, 0xFE]), None);
    assert_eq!(device_proc_addr(&[0xC0, 0x80], None), None);
}
