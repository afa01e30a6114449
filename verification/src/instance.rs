//! What the instance and its physical devices report: the API version, the
//! enumeration protocol, queue families, device names and types, memory
//! properties, and the errors that the abstraction layer reports.

use vstd::prelude::*;

use crate::conv::memory_properties_from_hal;
use crate::conv::memory_properties_match;
use crate::conv::{
    extent3d_spec,
    image_format_properties_from_hal,
    map_format,
    map_image_create_flags,
    map_image_usage,
    map_tiling,
};
use crate::hal::adapter::{DeviceType, MemoryType};
use crate::hal::format::{Format, NUM_FORMATS};
use crate::hal::image;
use crate::hal::device::{AllocationError, OutOfMemory};
use crate::hal::queue::QueueType;
use crate::vk_enums::{VkFormat, VkImageTiling, VkImageType, VkPhysicalDeviceType, VkQueueFlagBits, VkResult};
use crate::vk_structs::{
    VkExtent3D,
    VkImageCreateFlags,
    VkImageFormatProperties,
    VkImageUsageFlags,
    VkMemoryHeap,
    VkMemoryType,
    VkPhysicalDeviceMemoryProperties,
    VkQueueFamilyProperties,
    VkQueueFlags,
};

verus! {

/// The Vulkan version that the portability layer implements: major, minor,
/// patch.
pub const VERSION_MAJOR: u32 = 1;
pub const VERSION_MINOR: u32 = 0;
pub const VERSION_PATCH: u32 = 66;
/// The version of the driver.
pub const DRIVER_VERSION: u32 = 1;
/// The size of the device name field of the device properties.
pub const VK_MAX_PHYSICAL_DEVICE_NAME_SIZE: usize = 256;
/// The maximum number of memory types and heaps of a physical device.
pub const VK_MAX_MEMORY_TYPES: usize = 32;
pub const VK_MAX_MEMORY_HEAPS: usize = 16;

/// The packed Vulkan version number: major in bits 22 and up, minor in bits
/// 12 to 21, patch in bits 0 to 11.
pub open spec fn api_version_spec(major: u32, minor: u32, patch: u32) -> int {
    major * 0x40_0000 + minor * 0x1000 + patch
}

pub fn make_api_version(major: u32, minor: u32, patch: u32) -> (r: u32)
    requires
        major < 0x400,
        minor < 0x400,
        patch < 0x1000,
    ensures
        r == api_version_spec(major, minor, patch),
{
    assert((major << 22u32) | (minor << 12u32) | patch == major * 0x40_0000u32 + minor * 0x1000u32
        + patch) by (bit_vector)
        requires
            major < 0x400,
            minor < 0x400,
            patch < 0x1000,
    ;
    (major << 22) | (minor << 12) | patch
}

/// The version that the portability layer reports for its devices.
pub fn driver_api_version() -> (r: u32)
    ensures
        r == api_version_spec(VERSION_MAJOR, VERSION_MINOR, VERSION_PATCH),
{
    make_api_version(VERSION_MAJOR, VERSION_MINOR, VERSION_PATCH)
}

/// Whether an application may ask for the API version `api_version`: only
/// its major and minor parts count (the patch is ignored), and they must be
/// 1.0, or 0.0 for an application that names no version.
pub fn is_api_version_supported(api_version: u32) -> (r: bool)
    ensures
        r == (api_version >> 12u32 == 0 || api_version >> 12u32 == 0x400),
{
    let requested_major_minor = api_version >> 12;
    let supported = VERSION_MAJOR << 10 | VERSION_MINOR;
    assert(1u32 << 10u32 | 0u32 == 0x400u32) by (bit_vector);
    assert((api_version >> 12u32) & 0x400u32 == api_version >> 12u32 <==> (api_version >> 12u32
        == 0 || api_version >> 12u32 == 0x400)) by (bit_vector);
    requested_major_minor & supported == requested_major_minor
}

/// What an enumerating entry point answers: how many items it writes, and
/// whether that is all of them.
pub open spec fn enumeration_spec(available: u32, capacity: Option<u32>) -> (u32, VkResult) {
    match capacity {
        None => (available, VkResult::VK_SUCCESS),
        Some(c) => if c < available {
            (c, VkResult::VK_INCOMPLETE)
        } else {
            (available, VkResult::VK_SUCCESS)
        },
    }
}

/// The answer of an entry point that enumerates `available` items into room
/// for `capacity` of them: with no room given, the number of items; with
/// room, the number written, and `VK_INCOMPLETE` when the room was too small.
pub fn enumeration_count(available: u32, capacity: Option<u32>) -> (r: (u32, VkResult))
    ensures
        r == enumeration_spec(available, capacity),
{
    match capacity {
        None => (available, VkResult::VK_SUCCESS),
        Some(c) => if c < available {
            (c, VkResult::VK_INCOMPLETE)
        } else {
            (available, VkResult::VK_SUCCESS)
        },
    }
}

/// The items that an enumerating entry point writes into room for `capacity`
/// items: the first ones, as many as fit.
pub fn enumerate_into<T: Copy>(items: &[T], capacity: usize) -> (r: (Vec<T>, VkResult))
    ensures
        capacity < items@.len() ==> r.0@ == items@.take(capacity as int) && r.1
            == VkResult::VK_INCOMPLETE,
        capacity >= items@.len() ==> r.0@ == items@ && r.1 == VkResult::VK_SUCCESS,
{
    let count = if capacity < items.len() {
        capacity
    } else {
        items.len()
    };
    let mut out: Vec<T> = Vec::new();
    let mut i: usize = 0;
    while i < count
        invariant
            count <= items@.len(),
            i <= count,
            out@ == items@.take(i as int),
        decreases count - i,
    {
        out.push(items[i]);
        i = i + 1;
        assert(out@ =~= items@.take(i as int));
    }
    assert(items@.take(items@.len() as int) =~= items@);
    if count < items.len() {
        (out, VkResult::VK_INCOMPLETE)
    } else {
        (out, VkResult::VK_SUCCESS)
    }
}

/// The Vulkan result for an out-of-memory error of the abstraction layer.
pub open spec fn oom_spec(oom: OutOfMemory) -> VkResult {
    match oom {
        OutOfMemory::Host => VkResult::VK_ERROR_OUT_OF_HOST_MEMORY,
        OutOfMemory::Device => VkResult::VK_ERROR_OUT_OF_DEVICE_MEMORY,
    }
}

pub fn map_oom(oom: OutOfMemory) -> (r: VkResult)
    ensures
        r == oom_spec(oom),
{
    match oom {
        OutOfMemory::Host => VkResult::VK_ERROR_OUT_OF_HOST_MEMORY,
        OutOfMemory::Device => VkResult::VK_ERROR_OUT_OF_DEVICE_MEMORY,
    }
}

pub fn map_alloc_error(alloc_error: AllocationError) -> (r: VkResult)
    ensures
        alloc_error matches AllocationError::OutOfMemory(oom) ==> r == oom_spec(oom),
        alloc_error == AllocationError::TooManyObjects ==> r == VkResult::VK_ERROR_TOO_MANY_OBJECTS,
{
    match alloc_error {
        AllocationError::OutOfMemory(oom) => map_oom(oom),
        AllocationError::TooManyObjects => VkResult::VK_ERROR_TOO_MANY_OBJECTS,
    }
}

/// The Vulkan queue flags for a family of queues: a general family does
/// graphics, compute and transfers; a graphics or compute family does its
/// work and transfers; every family can transfer.
pub open spec fn queue_flags_spec(queue_type: QueueType) -> VkQueueFlags {
    let graphics = VkQueueFlagBits::VK_QUEUE_GRAPHICS_BIT.value();
    let compute = VkQueueFlagBits::VK_QUEUE_COMPUTE_BIT.value();
    let transfer = VkQueueFlagBits::VK_QUEUE_TRANSFER_BIT.value();
    match queue_type {
        QueueType::General => graphics | compute | transfer,
        QueueType::Graphics => graphics | transfer,
        QueueType::Compute => compute | transfer,
        QueueType::Transfer => transfer,
    }
}

pub fn queue_flags(queue_type: QueueType) -> (r: VkQueueFlags)
    ensures
        r == queue_flags_spec(queue_type),
{
    let graphics = VkQueueFlagBits::VK_QUEUE_GRAPHICS_BIT.as_raw();
    let compute = VkQueueFlagBits::VK_QUEUE_COMPUTE_BIT.as_raw();
    let transfer = VkQueueFlagBits::VK_QUEUE_TRANSFER_BIT.as_raw();
    match queue_type {
        QueueType::General => graphics | compute | transfer,
        QueueType::Graphics => graphics | transfer,
        QueueType::Compute => compute | transfer,
        QueueType::Transfer => transfer,
    }
}

/// The properties of a queue family: its flags and queue count, no timestamp
/// bits, and a transfer granularity of a single texel.
pub fn queue_family_properties(queue_type: QueueType, max_queues: usize) -> (r:
    VkQueueFamilyProperties)
    ensures
        r.queueFlags == queue_flags_spec(queue_type),
        r.queueCount == max_queues as u32,
        r.timestampValidBits == 0,
        r.minImageTransferGranularity == (VkExtent3D { width: 1, height: 1, depth: 1 }),
{
    VkQueueFamilyProperties {
        queueFlags: queue_flags(queue_type),
        queueCount: max_queues as u32,
        timestampValidBits: 0,
        minImageTransferGranularity: VkExtent3D { width: 1, height: 1, depth: 1 },
    }
}

pub open spec fn device_type_spec(device_type: DeviceType) -> VkPhysicalDeviceType {
    match device_type {
        DeviceType::IntegratedGpu => VkPhysicalDeviceType::VK_PHYSICAL_DEVICE_TYPE_INTEGRATED_GPU,
        DeviceType::DiscreteGpu => VkPhysicalDeviceType::VK_PHYSICAL_DEVICE_TYPE_DISCRETE_GPU,
        DeviceType::VirtualGpu => VkPhysicalDeviceType::VK_PHYSICAL_DEVICE_TYPE_VIRTUAL_GPU,
        DeviceType::Other => VkPhysicalDeviceType::VK_PHYSICAL_DEVICE_TYPE_OTHER,
        DeviceType::Cpu => VkPhysicalDeviceType::VK_PHYSICAL_DEVICE_TYPE_CPU,
    }
}

pub fn map_device_type(device_type: DeviceType) -> (r: VkPhysicalDeviceType)
    ensures
        r == device_type_spec(device_type),
{
    match device_type {
        DeviceType::IntegratedGpu => VkPhysicalDeviceType::VK_PHYSICAL_DEVICE_TYPE_INTEGRATED_GPU,
        DeviceType::DiscreteGpu => VkPhysicalDeviceType::VK_PHYSICAL_DEVICE_TYPE_DISCRETE_GPU,
        DeviceType::VirtualGpu => VkPhysicalDeviceType::VK_PHYSICAL_DEVICE_TYPE_VIRTUAL_GPU,
        DeviceType::Other => VkPhysicalDeviceType::VK_PHYSICAL_DEVICE_TYPE_OTHER,
        DeviceType::Cpu => VkPhysicalDeviceType::VK_PHYSICAL_DEVICE_TYPE_CPU,
    }
}

/// The length of the part of a device name that fits the name field, which
/// keeps room for the terminating zero.
pub open spec fn device_name_len(name_len: nat) -> int {
    if name_len < VK_MAX_PHYSICAL_DEVICE_NAME_SIZE - 1 {
        name_len as int
    } else {
        VK_MAX_PHYSICAL_DEVICE_NAME_SIZE - 1
    }
}

/// The device name field for an adapter name: the name, cut to leave room for
/// the terminating zero, then zeros. A name with a zero byte inside it is not
/// a C string.
pub fn device_name(name: &[u8]) -> (r: Vec<u8>)
    requires
        forall|i: int| 0 <= i < name@.len() ==> name@[i] != 0,
    ensures
        r@.len() == VK_MAX_PHYSICAL_DEVICE_NAME_SIZE,
        forall|i: int| 0 <= i < device_name_len(name@.len()) ==> r@[i] == name@[i],
        forall|i: int|
            device_name_len(name@.len()) <= i < VK_MAX_PHYSICAL_DEVICE_NAME_SIZE ==> r@[i] == 0,
{
    let len = if name.len() < VK_MAX_PHYSICAL_DEVICE_NAME_SIZE - 1 {
        name.len()
    } else {
        VK_MAX_PHYSICAL_DEVICE_NAME_SIZE - 1
    };
    let mut out: Vec<u8> = Vec::new();
    let mut i: usize = 0;
    while i < VK_MAX_PHYSICAL_DEVICE_NAME_SIZE
        invariant
            len == device_name_len(name@.len()),
            len <= name@.len(),
            i <= VK_MAX_PHYSICAL_DEVICE_NAME_SIZE,
            out@.len() == i,
            forall|j: int| 0 <= j < i && j < len ==> out@[j] == name@[j],
            forall|j: int| len <= j < i ==> out@[j] == 0,
        decreases VK_MAX_PHYSICAL_DEVICE_NAME_SIZE - i,
    {
        if i < len {
            out.push(name[i]);
        } else {
            out.push(0);
        }
        i = i + 1;
    }
    out
}

/// The number of dimensions of a Vulkan image type.
pub fn image_type_dimensions(ty: VkImageType) -> (r: u8)
    requires
        ty.value() <= VkImageType::VK_IMAGE_TYPE_3D.value(),
    ensures
        r == ty.value() + 1,
{
    match ty {
        VkImageType::VK_IMAGE_TYPE_1D => 1,
        VkImageType::VK_IMAGE_TYPE_2D => 2,
        _ => 3,
    }
}

/// What the abstraction layer is asked about an image format: the format,
/// the number of dimensions, the tiling, the usage and the view
/// capabilities.
#[derive(Clone, Copy, Debug, PartialEq, Eq, Structural)]
pub struct ImageFormatQuery {
    pub format: Format,
    pub dimensions: u8,
    pub tiling: image::Tiling,
    pub usage: image::Usage,
    pub view_caps: image::ViewCapabilities,
}

/// The question to the abstraction layer for a Vulkan query of the
/// properties of an image format (a defined format, an image type and a
/// tiling of the core API).
pub fn image_format_query(
    format: VkFormat,
    ty: VkImageType,
    tiling: VkImageTiling,
    usage: VkImageUsageFlags,
    flags: VkImageCreateFlags,
) -> (r: ImageFormatQuery)
    requires
        0 < format.value() < NUM_FORMATS,
        ty.value() <= VkImageType::VK_IMAGE_TYPE_3D.value(),
        tiling.value() <= VkImageTiling::VK_IMAGE_TILING_LINEAR.value(),
    ensures
        r.format == (Format { id: format.value() }),
        r.dimensions == ty.value() + 1,
        tiling == VkImageTiling::VK_IMAGE_TILING_OPTIMAL ==> r.tiling == image::Tiling::Optimal,
        tiling == VkImageTiling::VK_IMAGE_TILING_LINEAR ==> r.tiling == image::Tiling::Linear,
        r.usage.bits == usage & image::Usage::ALL,
        r.view_caps.bits == flags & image::ViewCapabilities::ALL,
{
    let f = match map_format(format) {
        Some(f) => f,
        None => vstd::pervasive::unreached(),
    };
    ImageFormatQuery {
        format: f,
        dimensions: image_type_dimensions(ty),
        tiling: map_tiling(tiling),
        usage: map_image_usage(usage),
        view_caps: map_image_create_flags(flags),
    }
}

/// The answer to a Vulkan query of the properties of an image format, where
/// the abstraction layer gave `properties`: the Vulkan properties and success
/// where it has them; that the format is not supported (and no properties)
/// where it has none.
pub fn image_format_answer(properties: Option<image::FormatProperties>) -> (r: (
    VkResult,
    Option<VkImageFormatProperties>,
))
    ensures
        properties is None ==> r.0 == VkResult::VK_ERROR_FORMAT_NOT_SUPPORTED && r.1 is None,
        properties matches Some(p) ==> ({
            &&& r.0 == VkResult::VK_SUCCESS
            &&& r.1 matches Some(q)
            &&& q.maxExtent == extent3d_spec(p.max_extent)
            &&& q.maxMipLevels == p.max_levels
            &&& q.maxArrayLayers == p.max_layers
            &&& q.sampleCounts == p.sample_count_mask
            &&& q.maxResourceSize == p.max_resource_size
        }),
{
    match properties {
        Some(p) => (VkResult::VK_SUCCESS, Some(image_format_properties_from_hal(p))),
        None => (VkResult::VK_ERROR_FORMAT_NOT_SUPPORTED, None),
    }
}

/// The memory properties of a physical device: its memory types, with their
/// property flags and heaps, and its heaps, with their sizes. The slots past
/// the counts are left zero, and no heap has flags.
pub fn memory_properties(types: &[MemoryType], heaps: &[u64]) -> (r:
    VkPhysicalDeviceMemoryProperties)
    requires
        types@.len() <= VK_MAX_MEMORY_TYPES,
        heaps@.len() <= VK_MAX_MEMORY_HEAPS,
    ensures
        r.memoryTypeCount == types@.len(),
        r.memoryHeapCount == heaps@.len(),
        forall|i: int|
            0 <= i < types@.len() ==> memory_properties_match(
                types@[i].properties,
                #[trigger] r.memoryTypes@[i].propertyFlags,
            ) && r.memoryTypes@[i].heapIndex == types@[i].heap_index as u32,
        forall|i: int|
            0 <= i < heaps@.len() ==> #[trigger] r.memoryHeaps@[i] == (VkMemoryHeap {
                size: heaps@[i],
                flags: 0,
            }),
{
    let mut memory_types = [VkMemoryType { propertyFlags: 0, heapIndex: 0 }; 32];
    let mut memory_heaps = [VkMemoryHeap { size: 0, flags: 0 }; 16];
    let mut i: usize = 0;
    while i < types.len()
        invariant
            types@.len() <= VK_MAX_MEMORY_TYPES,
            i <= types@.len(),
            memory_types@.len() == 32,
            forall|j: int|
                0 <= j < i ==> memory_properties_match(
                    types@[j].properties,
                    #[trigger] memory_types@[j].propertyFlags,
                ) && memory_types@[j].heapIndex == types@[j].heap_index as u32,
        decreases types@.len() - i,
    {
        memory_types[i] = VkMemoryType {
            propertyFlags: memory_properties_from_hal(types[i].properties),
            heapIndex: types[i].heap_index as u32,
        };
        i = i + 1;
    }
    let mut k: usize = 0;
    while k < heaps.len()
        invariant
            heaps@.len() <= VK_MAX_MEMORY_HEAPS,
            k <= heaps@.len(),
            memory_heaps@.len() == 16,
            forall|j: int|
                0 <= j < k ==> #[trigger] memory_heaps@[j] == (VkMemoryHeap {
                    size: heaps@[j],
                    flags: 0,
                }),
        decreases heaps@.len() - k,
    {
        memory_heaps[k] = VkMemoryHeap { size: heaps[k], flags: 0 };
        k = k + 1;
    }
    VkPhysicalDeviceMemoryProperties {
        memoryTypeCount: types.len() as u32,
        memoryTypes: memory_types,
        memoryHeapCount: heaps.len() as u32,
        memoryHeaps: memory_heaps,
    }
}

} // verus!
