//! The enumerations of the Vulkan API, each with the numeric value that the
//! API assigns to every enumerant and the way back from a value.

use vstd::prelude::*;

verus! {

#[derive(Clone, Copy, Debug, PartialEq, Eq, Hash, Structural)]
pub enum VkPipelineCacheHeaderVersion {
    VK_PIPELINE_CACHE_HEADER_VERSION_ONE,
    VK_PIPELINE_CACHE_HEADER_VERSION_MAX_ENUM,
}

impl VkPipelineCacheHeaderVersion {
    /// The numeric value that the Vulkan API gives this enumerant.
    pub open spec fn value(self) -> u32 {
        match self {
            VkPipelineCacheHeaderVersion::VK_PIPELINE_CACHE_HEADER_VERSION_ONE => 1,
            VkPipelineCacheHeaderVersion::VK_PIPELINE_CACHE_HEADER_VERSION_MAX_ENUM => 2147483647,
        }
    }

    /// The enumerant whose Vulkan value is `raw`, if there is one.
    pub open spec fn from_value(raw: u32) -> Option<Self> {
        match raw {
            1 => Some(VkPipelineCacheHeaderVersion::VK_PIPELINE_CACHE_HEADER_VERSION_ONE),
            2147483647 => Some(VkPipelineCacheHeaderVersion::VK_PIPELINE_CACHE_HEADER_VERSION_MAX_ENUM),
            _ => None,
        }
    }

    pub fn as_raw(self) -> (r: u32)
        ensures
            r == self.value(),
    {
        match self {
            VkPipelineCacheHeaderVersion::VK_PIPELINE_CACHE_HEADER_VERSION_ONE => 1,
            VkPipelineCacheHeaderVersion::VK_PIPELINE_CACHE_HEADER_VERSION_MAX_ENUM => 2147483647,
        }
    }

    pub fn from_raw(raw: u32) -> (r: Option<Self>)
        ensures
            r == Self::from_value(raw),
    {
        match raw {
            1 => Some(VkPipelineCacheHeaderVersion::VK_PIPELINE_CACHE_HEADER_VERSION_ONE),
            2147483647 => Some(VkPipelineCacheHeaderVersion::VK_PIPELINE_CACHE_HEADER_VERSION_MAX_ENUM),
            _ => None,
        }
    }

    /// Reading back the value of an enumerant gives the enumerant.
    pub proof fn lemma_value_roundtrip(self)
        ensures
            Self::from_value(self.value()) == Some(self),
    {
    }
}

#[derive(Clone, Copy, Debug, PartialEq, Eq, Hash, Structural)]
pub enum VkResult {
    VK_SUCCESS,
    VK_NOT_READY,
    VK_TIMEOUT,
    VK_EVENT_SET,
    VK_EVENT_RESET,
    VK_INCOMPLETE,
    VK_ERROR_OUT_OF_HOST_MEMORY,
    VK_ERROR_OUT_OF_DEVICE_MEMORY,
    VK_ERROR_INITIALIZATION_FAILED,
    VK_ERROR_DEVICE_LOST,
    VK_ERROR_MEMORY_MAP_FAILED,
    VK_ERROR_LAYER_NOT_PRESENT,
    VK_ERROR_EXTENSION_NOT_PRESENT,
    VK_ERROR_FEATURE_NOT_PRESENT,
    VK_ERROR_INCOMPATIBLE_DRIVER,
    VK_ERROR_TOO_MANY_OBJECTS,
    VK_ERROR_FORMAT_NOT_SUPPORTED,
    VK_ERROR_FRAGMENTED_POOL,
    VK_ERROR_SURFACE_LOST_KHR,
    VK_ERROR_NATIVE_WINDOW_IN_USE_KHR,
    VK_SUBOPTIMAL_KHR,
    VK_ERROR_OUT_OF_DATE_KHR,
    VK_ERROR_INCOMPATIBLE_DISPLAY_KHR,
    VK_ERROR_VALIDATION_FAILED_EXT,
    VK_ERROR_INVALID_SHADER_NV,
    VK_ERROR_OUT_OF_POOL_MEMORY_KHR,
    VK_ERROR_INVALID_EXTERNAL_HANDLE_KHX,
    VK_RESULT_RANGE_SIZE,
    VK_RESULT_MAX_ENUM,
}

impl VkResult {
    /// The numeric value that the Vulkan API gives this enumerant.
    pub open spec fn value(self) -> i32 {
        match self {
            VkResult::VK_SUCCESS => 0,
            VkResult::VK_NOT_READY => 1,
            VkResult::VK_TIMEOUT => 2,
            VkResult::VK_EVENT_SET => 3,
            VkResult::VK_EVENT_RESET => 4,
            VkResult::VK_INCOMPLETE => 5,
            VkResult::VK_ERROR_OUT_OF_HOST_MEMORY => -1i32,
            VkResult::VK_ERROR_OUT_OF_DEVICE_MEMORY => -2i32,
            VkResult::VK_ERROR_INITIALIZATION_FAILED => -3i32,
            VkResult::VK_ERROR_DEVICE_LOST => -4i32,
            VkResult::VK_ERROR_MEMORY_MAP_FAILED => -5i32,
            VkResult::VK_ERROR_LAYER_NOT_PRESENT => -6i32,
            VkResult::VK_ERROR_EXTENSION_NOT_PRESENT => -7i32,
            VkResult::VK_ERROR_FEATURE_NOT_PRESENT => -8i32,
            VkResult::VK_ERROR_INCOMPATIBLE_DRIVER => -9i32,
            VkResult::VK_ERROR_TOO_MANY_OBJECTS => -10i32,
            VkResult::VK_ERROR_FORMAT_NOT_SUPPORTED => -11i32,
            VkResult::VK_ERROR_FRAGMENTED_POOL => -12i32,
            VkResult::VK_ERROR_SURFACE_LOST_KHR => -1000000000i32,
            VkResult::VK_ERROR_NATIVE_WINDOW_IN_USE_KHR => -1000000001i32,
            VkResult::VK_SUBOPTIMAL_KHR => 1000001003,
            VkResult::VK_ERROR_OUT_OF_DATE_KHR => -1000001004i32,
            VkResult::VK_ERROR_INCOMPATIBLE_DISPLAY_KHR => -1000003001i32,
            VkResult::VK_ERROR_VALIDATION_FAILED_EXT => -1000011001i32,
            VkResult::VK_ERROR_INVALID_SHADER_NV => -1000012000i32,
            VkResult::VK_ERROR_OUT_OF_POOL_MEMORY_KHR => -1000069000i32,
            VkResult::VK_ERROR_INVALID_EXTERNAL_HANDLE_KHX => -1000072003i32,
            VkResult::VK_RESULT_RANGE_SIZE => 18,
            VkResult::VK_RESULT_MAX_ENUM => 2147483647,
        }
    }

    /// The enumerant whose Vulkan value is `raw`, if there is one.
    pub open spec fn from_value(raw: i32) -> Option<Self> {
        match raw {
            0 => Some(VkResult::VK_SUCCESS),
            1 => Some(VkResult::VK_NOT_READY),
            2 => Some(VkResult::VK_TIMEOUT),
            3 => Some(VkResult::VK_EVENT_SET),
            4 => Some(VkResult::VK_EVENT_RESET),
            5 => Some(VkResult::VK_INCOMPLETE),
            -1i32 => Some(VkResult::VK_ERROR_OUT_OF_HOST_MEMORY),
            -2i32 => Some(VkResult::VK_ERROR_OUT_OF_DEVICE_MEMORY),
            -3i32 => Some(VkResult::VK_ERROR_INITIALIZATION_FAILED),
            -4i32 => Some(VkResult::VK_ERROR_DEVICE_LOST),
            -5i32 => Some(VkResult::VK_ERROR_MEMORY_MAP_FAILED),
            -6i32 => Some(VkResult::VK_ERROR_LAYER_NOT_PRESENT),
            -7i32 => Some(VkResult::VK_ERROR_EXTENSION_NOT_PRESENT),
            -8i32 => Some(VkResult::VK_ERROR_FEATURE_NOT_PRESENT),
            -9i32 => Some(VkResult::VK_ERROR_INCOMPATIBLE_DRIVER),
            -10i32 => Some(VkResult::VK_ERROR_TOO_MANY_OBJECTS),
            -11i32 => Some(VkResult::VK_ERROR_FORMAT_NOT_SUPPORTED),
            -12i32 => Some(VkResult::VK_ERROR_FRAGMENTED_POOL),
            -1000000000i32 => Some(VkResult::VK_ERROR_SURFACE_LOST_KHR),
            -1000000001i32 => Some(VkResult::VK_ERROR_NATIVE_WINDOW_IN_USE_KHR),
            1000001003 => Some(VkResult::VK_SUBOPTIMAL_KHR),
            -1000001004i32 => Some(VkResult::VK_ERROR_OUT_OF_DATE_KHR),
            -1000003001i32 => Some(VkResult::VK_ERROR_INCOMPATIBLE_DISPLAY_KHR),
            -1000011001i32 => Some(VkResult::VK_ERROR_VALIDATION_FAILED_EXT),
            -1000012000i32 => Some(VkResult::VK_ERROR_INVALID_SHADER_NV),
            -1000069000i32 => Some(VkResult::VK_ERROR_OUT_OF_POOL_MEMORY_KHR),
            -1000072003i32 => Some(VkResult::VK_ERROR_INVALID_EXTERNAL_HANDLE_KHX),
            18 => Some(VkResult::VK_RESULT_RANGE_SIZE),
            2147483647 => Some(VkResult::VK_RESULT_MAX_ENUM),
            _ => None,
        }
    }

    pub fn as_raw(self) -> (r: i32)
        ensures
            r == self.value(),
    {
        match self {
            VkResult::VK_SUCCESS => 0,
            VkResult::VK_NOT_READY => 1,
            VkResult::VK_TIMEOUT => 2,
            VkResult::VK_EVENT_SET => 3,
            VkResult::VK_EVENT_RESET => 4,
            VkResult::VK_INCOMPLETE => 5,
            VkResult::VK_ERROR_OUT_OF_HOST_MEMORY => -1i32,
            VkResult::VK_ERROR_OUT_OF_DEVICE_MEMORY => -2i32,
            VkResult::VK_ERROR_INITIALIZATION_FAILED => -3i32,
            VkResult::VK_ERROR_DEVICE_LOST => -4i32,
            VkResult::VK_ERROR_MEMORY_MAP_FAILED => -5i32,
            VkResult::VK_ERROR_LAYER_NOT_PRESENT => -6i32,
            VkResult::VK_ERROR_EXTENSION_NOT_PRESENT => -7i32,
            VkResult::VK_ERROR_FEATURE_NOT_PRESENT => -8i32,
            VkResult::VK_ERROR_INCOMPATIBLE_DRIVER => -9i32,
            VkResult::VK_ERROR_TOO_MANY_OBJECTS => -10i32,
            VkResult::VK_ERROR_FORMAT_NOT_SUPPORTED => -11i32,
            VkResult::VK_ERROR_FRAGMENTED_POOL => -12i32,
            VkResult::VK_ERROR_SURFACE_LOST_KHR => -1000000000i32,
            VkResult::VK_ERROR_NATIVE_WINDOW_IN_USE_KHR => -1000000001i32,
            VkResult::VK_SUBOPTIMAL_KHR => 1000001003,
            VkResult::VK_ERROR_OUT_OF_DATE_KHR => -1000001004i32,
            VkResult::VK_ERROR_INCOMPATIBLE_DISPLAY_KHR => -1000003001i32,
            VkResult::VK_ERROR_VALIDATION_FAILED_EXT => -1000011001i32,
            VkResult::VK_ERROR_INVALID_SHADER_NV => -1000012000i32,
            VkResult::VK_ERROR_OUT_OF_POOL_MEMORY_KHR => -1000069000i32,
            VkResult::VK_ERROR_INVALID_EXTERNAL_HANDLE_KHX => -1000072003i32,
            VkResult::VK_RESULT_RANGE_SIZE => 18,
            VkResult::VK_RESULT_MAX_ENUM => 2147483647,
        }
    }

    pub fn from_raw(raw: i32) -> (r: Option<Self>)
        ensures
            r == Self::from_value(raw),
    {
        match raw {
            0 => Some(VkResult::VK_SUCCESS),
            1 => Some(VkResult::VK_NOT_READY),
            2 => Some(VkResult::VK_TIMEOUT),
            3 => Some(VkResult::VK_EVENT_SET),
            4 => Some(VkResult::VK_EVENT_RESET),
            5 => Some(VkResult::VK_INCOMPLETE),
            -1i32 => Some(VkResult::VK_ERROR_OUT_OF_HOST_MEMORY),
            -2i32 => Some(VkResult::VK_ERROR_OUT_OF_DEVICE_MEMORY),
            -3i32 => Some(VkResult::VK_ERROR_INITIALIZATION_FAILED),
            -4i32 => Some(VkResult::VK_ERROR_DEVICE_LOST),
            -5i32 => Some(VkResult::VK_ERROR_MEMORY_MAP_FAILED),
            -6i32 => Some(VkResult::VK_ERROR_LAYER_NOT_PRESENT),
            -7i32 => Some(VkResult::VK_ERROR_EXTENSION_NOT_PRESENT),
            -8i32 => Some(VkResult::VK_ERROR_FEATURE_NOT_PRESENT),
            -9i32 => Some(VkResult::VK_ERROR_INCOMPATIBLE_DRIVER),
            -10i32 => Some(VkResult::VK_ERROR_TOO_MANY_OBJECTS),
            -11i32 => Some(VkResult::VK_ERROR_FORMAT_NOT_SUPPORTED),
            -12i32 => Some(VkResult::VK_ERROR_FRAGMENTED_POOL),
            -1000000000i32 => Some(VkResult::VK_ERROR_SURFACE_LOST_KHR),
            -1000000001i32 => Some(VkResult::VK_ERROR_NATIVE_WINDOW_IN_USE_KHR),
            1000001003 => Some(VkResult::VK_SUBOPTIMAL_KHR),
            -1000001004i32 => Some(VkResult::VK_ERROR_OUT_OF_DATE_KHR),
            -1000003001i32 => Some(VkResult::VK_ERROR_INCOMPATIBLE_DISPLAY_KHR),
            -1000011001i32 => Some(VkResult::VK_ERROR_VALIDATION_FAILED_EXT),
            -1000012000i32 => Some(VkResult::VK_ERROR_INVALID_SHADER_NV),
            -1000069000i32 => Some(VkResult::VK_ERROR_OUT_OF_POOL_MEMORY_KHR),
            -1000072003i32 => Some(VkResult::VK_ERROR_INVALID_EXTERNAL_HANDLE_KHX),
            18 => Some(VkResult::VK_RESULT_RANGE_SIZE),
            2147483647 => Some(VkResult::VK_RESULT_MAX_ENUM),
            _ => None,
        }
    }

    /// Reading back the value of an enumerant gives the enumerant.
    pub proof fn lemma_value_roundtrip(self)
        ensures
            Self::from_value(self.value()) == Some(self),
    {
    }
}

#[derive(Clone, Copy, Debug, PartialEq, Eq, Hash, Structural)]
pub enum VkStructureType {
    VK_STRUCTURE_TYPE_APPLICATION_INFO,
    VK_STRUCTURE_TYPE_INSTANCE_CREATE_INFO,
    VK_STRUCTURE_TYPE_DEVICE_QUEUE_CREATE_INFO,
    VK_STRUCTURE_TYPE_DEVICE_CREATE_INFO,
    VK_STRUCTURE_TYPE_SUBMIT_INFO,
    VK_STRUCTURE_TYPE_MEMORY_ALLOCATE_INFO,
    VK_STRUCTURE_TYPE_MAPPED_MEMORY_RANGE,
    VK_STRUCTURE_TYPE_BIND_SPARSE_INFO,
    VK_STRUCTURE_TYPE_FENCE_CREATE_INFO,
    VK_STRUCTURE_TYPE_SEMAPHORE_CREATE_INFO,
    VK_STRUCTURE_TYPE_EVENT_CREATE_INFO,
    VK_STRUCTURE_TYPE_QUERY_POOL_CREATE_INFO,
    VK_STRUCTURE_TYPE_BUFFER_CREATE_INFO,
    VK_STRUCTURE_TYPE_BUFFER_VIEW_CREATE_INFO,
    VK_STRUCTURE_TYPE_IMAGE_CREATE_INFO,
    VK_STRUCTURE_TYPE_IMAGE_VIEW_CREATE_INFO,
    VK_STRUCTURE_TYPE_SHADER_MODULE_CREATE_INFO,
    VK_STRUCTURE_TYPE_PIPELINE_CACHE_CREATE_INFO,
    VK_STRUCTURE_TYPE_PIPELINE_SHADER_STAGE_CREATE_INFO,
    VK_STRUCTURE_TYPE_PIPELINE_VERTEX_INPUT_STATE_CREATE_INFO,
    VK_STRUCTURE_TYPE_PIPELINE_INPUT_ASSEMBLY_STATE_CREATE_INFO,
    VK_STRUCTURE_TYPE_PIPELINE_TESSELLATION_STATE_CREATE_INFO,
    VK_STRUCTURE_TYPE_PIPELINE_VIEWPORT_STATE_CREATE_INFO,
    VK_STRUCTURE_TYPE_PIPELINE_RASTERIZATION_STATE_CREATE_INFO,
    VK_STRUCTURE_TYPE_PIPELINE_MULTISAMPLE_STATE_CREATE_INFO,
    VK_STRUCTURE_TYPE_PIPELINE_DEPTH_STENCIL_STATE_CREATE_INFO,
    VK_STRUCTURE_TYPE_PIPELINE_COLOR_BLEND_STATE_CREATE_INFO,
    VK_STRUCTURE_TYPE_PIPELINE_DYNAMIC_STATE_CREATE_INFO,
    VK_STRUCTURE_TYPE_GRAPHICS_PIPELINE_CREATE_INFO,
    VK_STRUCTURE_TYPE_COMPUTE_PIPELINE_CREATE_INFO,
    VK_STRUCTURE_TYPE_PIPELINE_LAYOUT_CREATE_INFO,
    VK_STRUCTURE_TYPE_SAMPLER_CREATE_INFO,
    VK_STRUCTURE_TYPE_DESCRIPTOR_SET_LAYOUT_CREATE_INFO,
    VK_STRUCTURE_TYPE_DESCRIPTOR_POOL_CREATE_INFO,
    VK_STRUCTURE_TYPE_DESCRIPTOR_SET_ALLOCATE_INFO,
    VK_STRUCTURE_TYPE_WRITE_DESCRIPTOR_SET,
    VK_STRUCTURE_TYPE_COPY_DESCRIPTOR_SET,
    VK_STRUCTURE_TYPE_FRAMEBUFFER_CREATE_INFO,
    VK_STRUCTURE_TYPE_RENDER_PASS_CREATE_INFO,
    VK_STRUCTURE_TYPE_COMMAND_POOL_CREATE_INFO,
    VK_STRUCTURE_TYPE_COMMAND_BUFFER_ALLOCATE_INFO,
    VK_STRUCTURE_TYPE_COMMAND_BUFFER_INHERITANCE_INFO,
    VK_STRUCTURE_TYPE_COMMAND_BUFFER_BEGIN_INFO,
    VK_STRUCTURE_TYPE_RENDER_PASS_BEGIN_INFO,
    VK_STRUCTURE_TYPE_BUFFER_MEMORY_BARRIER,
    VK_STRUCTURE_TYPE_IMAGE_MEMORY_BARRIER,
    VK_STRUCTURE_TYPE_MEMORY_BARRIER,
    VK_STRUCTURE_TYPE_LOADER_INSTANCE_CREATE_INFO,
    VK_STRUCTURE_TYPE_LOADER_DEVICE_CREATE_INFO,
    VK_STRUCTURE_TYPE_RANGE_SIZE,
    VK_STRUCTURE_TYPE_SWAPCHAIN_CREATE_INFO_KHR,
    VK_STRUCTURE_TYPE_PRESENT_INFO_KHR,
    VK_STRUCTURE_TYPE_DISPLAY_MODE_CREATE_INFO_KHR,
    VK_STRUCTURE_TYPE_DISPLAY_SURFACE_CREATE_INFO_KHR,
    VK_STRUCTURE_TYPE_DISPLAY_PRESENT_INFO_KHR,
    VK_STRUCTURE_TYPE_XLIB_SURFACE_CREATE_INFO_KHR,
    VK_STRUCTURE_TYPE_XCB_SURFACE_CREATE_INFO_KHR,
    VK_STRUCTURE_TYPE_WAYLAND_SURFACE_CREATE_INFO_KHR,
    VK_STRUCTURE_TYPE_MIR_SURFACE_CREATE_INFO_KHR,
    VK_STRUCTURE_TYPE_ANDROID_SURFACE_CREATE_INFO_KHR,
    VK_STRUCTURE_TYPE_WIN32_SURFACE_CREATE_INFO_KHR,
    VK_STRUCTURE_TYPE_DEBUG_REPORT_CALLBACK_CREATE_INFO_EXT,
    VK_STRUCTURE_TYPE_PIPELINE_RASTERIZATION_STATE_RASTERIZATION_ORDER_AMD,
    VK_STRUCTURE_TYPE_DEBUG_MARKER_OBJECT_NAME_INFO_EXT,
    VK_STRUCTURE_TYPE_DEBUG_MARKER_OBJECT_TAG_INFO_EXT,
    VK_STRUCTURE_TYPE_DEBUG_MARKER_MARKER_INFO_EXT,
    VK_STRUCTURE_TYPE_DEDICATED_ALLOCATION_IMAGE_CREATE_INFO_NV,
    VK_STRUCTURE_TYPE_DEDICATED_ALLOCATION_BUFFER_CREATE_INFO_NV,
    VK_STRUCTURE_TYPE_DEDICATED_ALLOCATION_MEMORY_ALLOCATE_INFO_NV,
    VK_STRUCTURE_TYPE_RENDER_PASS_MULTIVIEW_CREATE_INFO_KHX,
    VK_STRUCTURE_TYPE_PHYSICAL_DEVICE_MULTIVIEW_FEATURES_KHX,
    VK_STRUCTURE_TYPE_PHYSICAL_DEVICE_MULTIVIEW_PROPERTIES_KHX,
    VK_STRUCTURE_TYPE_EXTERNAL_MEMORY_IMAGE_CREATE_INFO_NV,
    VK_STRUCTURE_TYPE_EXPORT_MEMORY_ALLOCATE_INFO_NV,
    VK_STRUCTURE_TYPE_IMPORT_MEMORY_WIN32_HANDLE_INFO_NV,
    VK_STRUCTURE_TYPE_EXPORT_MEMORY_WIN32_HANDLE_INFO_NV,
    VK_STRUCTURE_TYPE_WIN32_KEYED_MUTEX_ACQUIRE_RELEASE_INFO_NV,
    VK_STRUCTURE_TYPE_PHYSICAL_DEVICE_FEATURES_2_KHR,
    VK_STRUCTURE_TYPE_PHYSICAL_DEVICE_PROPERTIES_2_KHR,
    VK_STRUCTURE_TYPE_FORMAT_PROPERTIES_2_KHR,
    VK_STRUCTURE_TYPE_IMAGE_FORMAT_PROPERTIES_2_KHR,
    VK_STRUCTURE_TYPE_PHYSICAL_DEVICE_IMAGE_FORMAT_INFO_2_KHR,
    VK_STRUCTURE_TYPE_QUEUE_FAMILY_PROPERTIES_2_KHR,
    VK_STRUCTURE_TYPE_PHYSICAL_DEVICE_MEMORY_PROPERTIES_2_KHR,
    VK_STRUCTURE_TYPE_SPARSE_IMAGE_FORMAT_PROPERTIES_2_KHR,
    VK_STRUCTURE_TYPE_PHYSICAL_DEVICE_SPARSE_IMAGE_FORMAT_INFO_2_KHR,
    VK_STRUCTURE_TYPE_MEMORY_ALLOCATE_FLAGS_INFO_KHX,
    VK_STRUCTURE_TYPE_BIND_BUFFER_MEMORY_INFO_KHX,
    VK_STRUCTURE_TYPE_BIND_IMAGE_MEMORY_INFO_KHX,
    VK_STRUCTURE_TYPE_DEVICE_GROUP_RENDER_PASS_BEGIN_INFO_KHX,
    VK_STRUCTURE_TYPE_DEVICE_GROUP_COMMAND_BUFFER_BEGIN_INFO_KHX,
    VK_STRUCTURE_TYPE_DEVICE_GROUP_SUBMIT_INFO_KHX,
    VK_STRUCTURE_TYPE_DEVICE_GROUP_BIND_SPARSE_INFO_KHX,
    VK_STRUCTURE_TYPE_DEVICE_GROUP_PRESENT_CAPABILITIES_KHX,
    VK_STRUCTURE_TYPE_IMAGE_SWAPCHAIN_CREATE_INFO_KHX,
    VK_STRUCTURE_TYPE_BIND_IMAGE_MEMORY_SWAPCHAIN_INFO_KHX,
    VK_STRUCTURE_TYPE_ACQUIRE_NEXT_IMAGE_INFO_KHX,
    VK_STRUCTURE_TYPE_DEVICE_GROUP_PRESENT_INFO_KHX,
    VK_STRUCTURE_TYPE_DEVICE_GROUP_SWAPCHAIN_CREATE_INFO_KHX,
    VK_STRUCTURE_TYPE_VALIDATION_FLAGS_EXT,
    VK_STRUCTURE_TYPE_VI_SURFACE_CREATE_INFO_NN,
    VK_STRUCTURE_TYPE_PHYSICAL_DEVICE_GROUP_PROPERTIES_KHX,
    VK_STRUCTURE_TYPE_DEVICE_GROUP_DEVICE_CREATE_INFO_KHX,
    VK_STRUCTURE_TYPE_PHYSICAL_DEVICE_EXTERNAL_IMAGE_FORMAT_INFO_KHX,
    VK_STRUCTURE_TYPE_EXTERNAL_IMAGE_FORMAT_PROPERTIES_KHX,
    VK_STRUCTURE_TYPE_PHYSICAL_DEVICE_EXTERNAL_BUFFER_INFO_KHX,
    VK_STRUCTURE_TYPE_EXTERNAL_BUFFER_PROPERTIES_KHX,
    VK_STRUCTURE_TYPE_PHYSICAL_DEVICE_ID_PROPERTIES_KHX,
    VK_STRUCTURE_TYPE_PHYSICAL_DEVICE_PROPERTIES_2_KHX,
    VK_STRUCTURE_TYPE_IMAGE_FORMAT_PROPERTIES_2_KHX,
    VK_STRUCTURE_TYPE_PHYSICAL_DEVICE_IMAGE_FORMAT_INFO_2_KHX,
    VK_STRUCTURE_TYPE_EXTERNAL_MEMORY_BUFFER_CREATE_INFO_KHX,
    VK_STRUCTURE_TYPE_EXTERNAL_MEMORY_IMAGE_CREATE_INFO_KHX,
    VK_STRUCTURE_TYPE_EXPORT_MEMORY_ALLOCATE_INFO_KHX,
    VK_STRUCTURE_TYPE_IMPORT_MEMORY_WIN32_HANDLE_INFO_KHX,
    VK_STRUCTURE_TYPE_EXPORT_MEMORY_WIN32_HANDLE_INFO_KHX,
    VK_STRUCTURE_TYPE_MEMORY_WIN32_HANDLE_PROPERTIES_KHX,
    VK_STRUCTURE_TYPE_IMPORT_MEMORY_FD_INFO_KHX,
    VK_STRUCTURE_TYPE_MEMORY_FD_PROPERTIES_KHX,
    VK_STRUCTURE_TYPE_WIN32_KEYED_MUTEX_ACQUIRE_RELEASE_INFO_KHX,
    VK_STRUCTURE_TYPE_PHYSICAL_DEVICE_EXTERNAL_SEMAPHORE_INFO_KHX,
    VK_STRUCTURE_TYPE_EXTERNAL_SEMAPHORE_PROPERTIES_KHX,
    VK_STRUCTURE_TYPE_EXPORT_SEMAPHORE_CREATE_INFO_KHX,
    VK_STRUCTURE_TYPE_IMPORT_SEMAPHORE_WIN32_HANDLE_INFO_KHX,
    VK_STRUCTURE_TYPE_EXPORT_SEMAPHORE_WIN32_HANDLE_INFO_KHX,
    VK_STRUCTURE_TYPE_D3D12_FENCE_SUBMIT_INFO_KHX,
    VK_STRUCTURE_TYPE_IMPORT_SEMAPHORE_FD_INFO_KHX,
    VK_STRUCTURE_TYPE_PHYSICAL_DEVICE_PUSH_DESCRIPTOR_PROPERTIES_KHR,
    VK_STRUCTURE_TYPE_DESCRIPTOR_UPDATE_TEMPLATE_CREATE_INFO_KHR,
    VK_STRUCTURE_TYPE_OBJECT_TABLE_CREATE_INFO_NVX,
    VK_STRUCTURE_TYPE_INDIRECT_COMMANDS_LAYOUT_CREATE_INFO_NVX,
    VK_STRUCTURE_TYPE_CMD_PROCESS_COMMANDS_INFO_NVX,
    VK_STRUCTURE_TYPE_CMD_RESERVE_SPACE_FOR_COMMANDS_INFO_NVX,
    VK_STRUCTURE_TYPE_DEVICE_GENERATED_COMMANDS_LIMITS_NVX,
    VK_STRUCTURE_TYPE_DEVICE_GENERATED_COMMANDS_FEATURES_NVX,
    VK_STRUCTURE_TYPE_PIPELINE_VIEWPORT_W_SCALING_STATE_CREATE_INFO_NV,
    VK_STRUCTURE_TYPE_SURFACE_CAPABILITIES2_EXT,
    VK_STRUCTURE_TYPE_DISPLAY_POWER_INFO_EXT,
    VK_STRUCTURE_TYPE_DEVICE_EVENT_INFO_EXT,
    VK_STRUCTURE_TYPE_DISPLAY_EVENT_INFO_EXT,
    VK_STRUCTURE_TYPE_SWAPCHAIN_COUNTER_CREATE_INFO_EXT,
    VK_STRUCTURE_TYPE_PHYSICAL_DEVICE_MULTIVIEW_PER_VIEW_ATTRIBUTES_PROPERTIES_NVX,
    VK_STRUCTURE_TYPE_PIPELINE_VIEWPORT_SWIZZLE_STATE_CREATE_INFO_NV,
    VK_STRUCTURE_TYPE_PHYSICAL_DEVICE_DISCARD_RECTANGLE_PROPERTIES_EXT,
    VK_STRUCTURE_TYPE_PIPELINE_DISCARD_RECTANGLE_STATE_CREATE_INFO_EXT,
    VK_STRUCTURE_TYPE_IOS_SURFACE_CREATE_INFO_MVK,
    VK_STRUCTURE_TYPE_MACOS_SURFACE_CREATE_INFO_MVK,
    VK_STRUCTURE_TYPE_METAL_SURFACE_CREATE_INFO_EXT,
    VK_STRUCTURE_TYPE_PHYSICAL_DEVICE_PORTABILITY_SUBSET_FEATURES_EXTX,
    VK_STRUCTURE_TYPE_PHYSICAL_DEVICE_PORTABILITY_SUBSET_PROPERTIES_EXTX,
    VK_STRUCTURE_TYPE_PHYSICAL_DEVICE_IMAGE_VIEW_SUPPORT_EXTX,
    VK_STRUCTURE_TYPE_MAX_ENUM,
}

impl VkStructureType {
    /// The numeric value that the Vulkan API gives this enumerant.
    pub open spec fn value(self) -> u32 {
        match self {
            VkStructureType::VK_STRUCTURE_TYPE_APPLICATION_INFO => 0,
            VkStructureType::VK_STRUCTURE_TYPE_INSTANCE_CREATE_INFO => 1,
            VkStructureType::VK_STRUCTURE_TYPE_DEVICE_QUEUE_CREATE_INFO => 2,
            VkStructureType::VK_STRUCTURE_TYPE_DEVICE_CREATE_INFO => 3,
            VkStructureType::VK_STRUCTURE_TYPE_SUBMIT_INFO => 4,
            VkStructureType::VK_STRUCTURE_TYPE_MEMORY_ALLOCATE_INFO => 5,
            VkStructureType::VK_STRUCTURE_TYPE_MAPPED_MEMORY_RANGE => 6,
            VkStructureType::VK_STRUCTURE_TYPE_BIND_SPARSE_INFO => 7,
            VkStructureType::VK_STRUCTURE_TYPE_FENCE_CREATE_INFO => 8,
            VkStructureType::VK_STRUCTURE_TYPE_SEMAPHORE_CREATE_INFO => 9,
            VkStructureType::VK_STRUCTURE_TYPE_EVENT_CREATE_INFO => 10,
            VkStructureType::VK_STRUCTURE_TYPE_QUERY_POOL_CREATE_INFO => 11,
            VkStructureType::VK_STRUCTURE_TYPE_BUFFER_CREATE_INFO => 12,
            VkStructureType::VK_STRUCTURE_TYPE_BUFFER_VIEW_CREATE_INFO => 13,
            VkStructureType::VK_STRUCTURE_TYPE_IMAGE_CREATE_INFO => 14,
            VkStructureType::VK_STRUCTURE_TYPE_IMAGE_VIEW_CREATE_INFO => 15,
            VkStructureType::VK_STRUCTURE_TYPE_SHADER_MODULE_CREATE_INFO => 16,
            VkStructureType::VK_STRUCTURE_TYPE_PIPELINE_CACHE_CREATE_INFO => 17,
            VkStructureType::VK_STRUCTURE_TYPE_PIPELINE_SHADER_STAGE_CREATE_INFO => 18,
            VkStructureType::VK_STRUCTURE_TYPE_PIPELINE_VERTEX_INPUT_STATE_CREATE_INFO => 19,
            VkStructureType::VK_STRUCTURE_TYPE_PIPELINE_INPUT_ASSEMBLY_STATE_CREATE_INFO => 20,
            VkStructureType::VK_STRUCTURE_TYPE_PIPELINE_TESSELLATION_STATE_CREATE_INFO => 21,
            VkStructureType::VK_STRUCTURE_TYPE_PIPELINE_VIEWPORT_STATE_CREATE_INFO => 22,
            VkStructureType::VK_STRUCTURE_TYPE_PIPELINE_RASTERIZATION_STATE_CREATE_INFO => 23,
            VkStructureType::VK_STRUCTURE_TYPE_PIPELINE_MULTISAMPLE_STATE_CREATE_INFO => 24,
            VkStructureType::VK_STRUCTURE_TYPE_PIPELINE_DEPTH_STENCIL_STATE_CREATE_INFO => 25,
            VkStructureType::VK_STRUCTURE_TYPE_PIPELINE_COLOR_BLEND_STATE_CREATE_INFO => 26,
            VkStructureType::VK_STRUCTURE_TYPE_PIPELINE_DYNAMIC_STATE_CREATE_INFO => 27,
            VkStructureType::VK_STRUCTURE_TYPE_GRAPHICS_PIPELINE_CREATE_INFO => 28,
            VkStructureType::VK_STRUCTURE_TYPE_COMPUTE_PIPELINE_CREATE_INFO => 29,
            VkStructureType::VK_STRUCTURE_TYPE_PIPELINE_LAYOUT_CREATE_INFO => 30,
            VkStructureType::VK_STRUCTURE_TYPE_SAMPLER_CREATE_INFO => 31,
            VkStructureType::VK_STRUCTURE_TYPE_DESCRIPTOR_SET_LAYOUT_CREATE_INFO => 32,
            VkStructureType::VK_STRUCTURE_TYPE_DESCRIPTOR_POOL_CREATE_INFO => 33,
            VkStructureType::VK_STRUCTURE_TYPE_DESCRIPTOR_SET_ALLOCATE_INFO => 34,
            VkStructureType::VK_STRUCTURE_TYPE_WRITE_DESCRIPTOR_SET => 35,
            VkStructureType::VK_STRUCTURE_TYPE_COPY_DESCRIPTOR_SET => 36,
            VkStructureType::VK_STRUCTURE_TYPE_FRAMEBUFFER_CREATE_INFO => 37,
            VkStructureType::VK_STRUCTURE_TYPE_RENDER_PASS_CREATE_INFO => 38,
            VkStructureType::VK_STRUCTURE_TYPE_COMMAND_POOL_CREATE_INFO => 39,
            VkStructureType::VK_STRUCTURE_TYPE_COMMAND_BUFFER_ALLOCATE_INFO => 40,
            VkStructureType::VK_STRUCTURE_TYPE_COMMAND_BUFFER_INHERITANCE_INFO => 41,
            VkStructureType::VK_STRUCTURE_TYPE_COMMAND_BUFFER_BEGIN_INFO => 42,
            VkStructureType::VK_STRUCTURE_TYPE_RENDER_PASS_BEGIN_INFO => 43,
            VkStructureType::VK_STRUCTURE_TYPE_BUFFER_MEMORY_BARRIER => 44,
            VkStructureType::VK_STRUCTURE_TYPE_IMAGE_MEMORY_BARRIER => 45,
            VkStructureType::VK_STRUCTURE_TYPE_MEMORY_BARRIER => 46,
            VkStructureType::VK_STRUCTURE_TYPE_LOADER_INSTANCE_CREATE_INFO => 47,
            VkStructureType::VK_STRUCTURE_TYPE_LOADER_DEVICE_CREATE_INFO => 48,
            VkStructureType::VK_STRUCTURE_TYPE_RANGE_SIZE => 49,
            VkStructureType::VK_STRUCTURE_TYPE_SWAPCHAIN_CREATE_INFO_KHR => 1000001000,
            VkStructureType::VK_STRUCTURE_TYPE_PRESENT_INFO_KHR => 1000001001,
            VkStructureType::VK_STRUCTURE_TYPE_DISPLAY_MODE_CREATE_INFO_KHR => 1000002000,
            VkStructureType::VK_STRUCTURE_TYPE_DISPLAY_SURFACE_CREATE_INFO_KHR => 1000002001,
            VkStructureType::VK_STRUCTURE_TYPE_DISPLAY_PRESENT_INFO_KHR => 1000003000,
            VkStructureType::VK_STRUCTURE_TYPE_XLIB_SURFACE_CREATE_INFO_KHR => 1000004000,
            VkStructureType::VK_STRUCTURE_TYPE_XCB_SURFACE_CREATE_INFO_KHR => 1000005000,
            VkStructureType::VK_STRUCTURE_TYPE_WAYLAND_SURFACE_CREATE_INFO_KHR => 1000006000,
            VkStructureType::VK_STRUCTURE_TYPE_MIR_SURFACE_CREATE_INFO_KHR => 1000007000,
            VkStructureType::VK_STRUCTURE_TYPE_ANDROID_SURFACE_CREATE_INFO_KHR => 1000008000,
            VkStructureType::VK_STRUCTURE_TYPE_WIN32_SURFACE_CREATE_INFO_KHR => 1000009000,
            VkStructureType::VK_STRUCTURE_TYPE_DEBUG_REPORT_CALLBACK_CREATE_INFO_EXT => 1000011000,
            VkStructureType::VK_STRUCTURE_TYPE_PIPELINE_RASTERIZATION_STATE_RASTERIZATION_ORDER_AMD => 1000018000,
            VkStructureType::VK_STRUCTURE_TYPE_DEBUG_MARKER_OBJECT_NAME_INFO_EXT => 1000022000,
            VkStructureType::VK_STRUCTURE_TYPE_DEBUG_MARKER_OBJECT_TAG_INFO_EXT => 1000022001,
            VkStructureType::VK_STRUCTURE_TYPE_DEBUG_MARKER_MARKER_INFO_EXT => 1000022002,
            VkStructureType::VK_STRUCTURE_TYPE_DEDICATED_ALLOCATION_IMAGE_CREATE_INFO_NV => 1000026000,
            VkStructureType::VK_STRUCTURE_TYPE_DEDICATED_ALLOCATION_BUFFER_CREATE_INFO_NV => 1000026001,
            VkStructureType::VK_STRUCTURE_TYPE_DEDICATED_ALLOCATION_MEMORY_ALLOCATE_INFO_NV => 1000026002,
            VkStructureType::VK_STRUCTURE_TYPE_RENDER_PASS_MULTIVIEW_CREATE_INFO_KHX => 1000053000,
            VkStructureType::VK_STRUCTURE_TYPE_PHYSICAL_DEVICE_MULTIVIEW_FEATURES_KHX => 1000053001,
            VkStructureType::VK_STRUCTURE_TYPE_PHYSICAL_DEVICE_MULTIVIEW_PROPERTIES_KHX => 1000053002,
            VkStructureType::VK_STRUCTURE_TYPE_EXTERNAL_MEMORY_IMAGE_CREATE_INFO_NV => 1000056000,
            VkStructureType::VK_STRUCTURE_TYPE_EXPORT_MEMORY_ALLOCATE_INFO_NV => 1000056001,
            VkStructureType::VK_STRUCTURE_TYPE_IMPORT_MEMORY_WIN32_HANDLE_INFO_NV => 1000057000,
            VkStructureType::VK_STRUCTURE_TYPE_EXPORT_MEMORY_WIN32_HANDLE_INFO_NV => 1000057001,
            VkStructureType::VK_STRUCTURE_TYPE_WIN32_KEYED_MUTEX_ACQUIRE_RELEASE_INFO_NV => 1000058000,
            VkStructureType::VK_STRUCTURE_TYPE_PHYSICAL_DEVICE_FEATURES_2_KHR => 1000059000,
            VkStructureType::VK_STRUCTURE_TYPE_PHYSICAL_DEVICE_PROPERTIES_2_KHR => 1000059001,
            VkStructureType::VK_STRUCTURE_TYPE_FORMAT_PROPERTIES_2_KHR => 1000059002,
            VkStructureType::VK_STRUCTURE_TYPE_IMAGE_FORMAT_PROPERTIES_2_KHR => 1000059003,
            VkStructureType::VK_STRUCTURE_TYPE_PHYSICAL_DEVICE_IMAGE_FORMAT_INFO_2_KHR => 1000059004,
            VkStructureType::VK_STRUCTURE_TYPE_QUEUE_FAMILY_PROPERTIES_2_KHR => 1000059005,
            VkStructureType::VK_STRUCTURE_TYPE_PHYSICAL_DEVICE_MEMORY_PROPERTIES_2_KHR => 1000059006,
            VkStructureType::VK_STRUCTURE_TYPE_SPARSE_IMAGE_FORMAT_PROPERTIES_2_KHR => 1000059007,
            VkStructureType::VK_STRUCTURE_TYPE_PHYSICAL_DEVICE_SPARSE_IMAGE_FORMAT_INFO_2_KHR => 1000059008,
            VkStructureType::VK_STRUCTURE_TYPE_MEMORY_ALLOCATE_FLAGS_INFO_KHX => 1000060000,
            VkStructureType::VK_STRUCTURE_TYPE_BIND_BUFFER_MEMORY_INFO_KHX => 1000060001,
            VkStructureType::VK_STRUCTURE_TYPE_BIND_IMAGE_MEMORY_INFO_KHX => 1000060002,
            VkStructureType::VK_STRUCTURE_TYPE_DEVICE_GROUP_RENDER_PASS_BEGIN_INFO_KHX => 1000060003,
            VkStructureType::VK_STRUCTURE_TYPE_DEVICE_GROUP_COMMAND_BUFFER_BEGIN_INFO_KHX => 1000060004,
            VkStructureType::VK_STRUCTURE_TYPE_DEVICE_GROUP_SUBMIT_INFO_KHX => 1000060005,
            VkStructureType::VK_STRUCTURE_TYPE_DEVICE_GROUP_BIND_SPARSE_INFO_KHX => 1000060006,
            VkStructureType::VK_STRUCTURE_TYPE_DEVICE_GROUP_PRESENT_CAPABILITIES_KHX => 1000060007,
            VkStructureType::VK_STRUCTURE_TYPE_IMAGE_SWAPCHAIN_CREATE_INFO_KHX => 1000060008,
            VkStructureType::VK_STRUCTURE_TYPE_BIND_IMAGE_MEMORY_SWAPCHAIN_INFO_KHX => 1000060009,
            VkStructureType::VK_STRUCTURE_TYPE_ACQUIRE_NEXT_IMAGE_INFO_KHX => 1000060010,
            VkStructureType::VK_STRUCTURE_TYPE_DEVICE_GROUP_PRESENT_INFO_KHX => 1000060011,
            VkStructureType::VK_STRUCTURE_TYPE_DEVICE_GROUP_SWAPCHAIN_CREATE_INFO_KHX => 1000060012,
            VkStructureType::VK_STRUCTURE_TYPE_VALIDATION_FLAGS_EXT => 1000061000,
            VkStructureType::VK_STRUCTURE_TYPE_VI_SURFACE_CREATE_INFO_NN => 1000062000,
            VkStructureType::VK_STRUCTURE_TYPE_PHYSICAL_DEVICE_GROUP_PROPERTIES_KHX => 1000070000,
            VkStructureType::VK_STRUCTURE_TYPE_DEVICE_GROUP_DEVICE_CREATE_INFO_KHX => 1000070001,
            VkStructureType::VK_STRUCTURE_TYPE_PHYSICAL_DEVICE_EXTERNAL_IMAGE_FORMAT_INFO_KHX => 1000071000,
            VkStructureType::VK_STRUCTURE_TYPE_EXTERNAL_IMAGE_FORMAT_PROPERTIES_KHX => 1000071001,
            VkStructureType::VK_STRUCTURE_TYPE_PHYSICAL_DEVICE_EXTERNAL_BUFFER_INFO_KHX => 1000071002,
            VkStructureType::VK_STRUCTURE_TYPE_EXTERNAL_BUFFER_PROPERTIES_KHX => 1000071003,
            VkStructureType::VK_STRUCTURE_TYPE_PHYSICAL_DEVICE_ID_PROPERTIES_KHX => 1000071004,
            VkStructureType::VK_STRUCTURE_TYPE_PHYSICAL_DEVICE_PROPERTIES_2_KHX => 1000071005,
            VkStructureType::VK_STRUCTURE_TYPE_IMAGE_FORMAT_PROPERTIES_2_KHX => 1000071006,
            VkStructureType::VK_STRUCTURE_TYPE_PHYSICAL_DEVICE_IMAGE_FORMAT_INFO_2_KHX => 1000071007,
            VkStructureType::VK_STRUCTURE_TYPE_EXTERNAL_MEMORY_BUFFER_CREATE_INFO_KHX => 1000072000,
            VkStructureType::VK_STRUCTURE_TYPE_EXTERNAL_MEMORY_IMAGE_CREATE_INFO_KHX => 1000072001,
            VkStructureType::VK_STRUCTURE_TYPE_EXPORT_MEMORY_ALLOCATE_INFO_KHX => 1000072002,
            VkStructureType::VK_STRUCTURE_TYPE_IMPORT_MEMORY_WIN32_HANDLE_INFO_KHX => 1000073000,
            VkStructureType::VK_STRUCTURE_TYPE_EXPORT_MEMORY_WIN32_HANDLE_INFO_KHX => 1000073001,
            VkStructureType::VK_STRUCTURE_TYPE_MEMORY_WIN32_HANDLE_PROPERTIES_KHX => 1000073002,
            VkStructureType::VK_STRUCTURE_TYPE_IMPORT_MEMORY_FD_INFO_KHX => 1000074000,
            VkStructureType::VK_STRUCTURE_TYPE_MEMORY_FD_PROPERTIES_KHX => 1000074001,
            VkStructureType::VK_STRUCTURE_TYPE_WIN32_KEYED_MUTEX_ACQUIRE_RELEASE_INFO_KHX => 1000075000,
            VkStructureType::VK_STRUCTURE_TYPE_PHYSICAL_DEVICE_EXTERNAL_SEMAPHORE_INFO_KHX => 1000076000,
            VkStructureType::VK_STRUCTURE_TYPE_EXTERNAL_SEMAPHORE_PROPERTIES_KHX => 1000076001,
            VkStructureType::VK_STRUCTURE_TYPE_EXPORT_SEMAPHORE_CREATE_INFO_KHX => 1000077000,
            VkStructureType::VK_STRUCTURE_TYPE_IMPORT_SEMAPHORE_WIN32_HANDLE_INFO_KHX => 1000078000,
            VkStructureType::VK_STRUCTURE_TYPE_EXPORT_SEMAPHORE_WIN32_HANDLE_INFO_KHX => 1000078001,
            VkStructureType::VK_STRUCTURE_TYPE_D3D12_FENCE_SUBMIT_INFO_KHX => 1000078002,
            VkStructureType::VK_STRUCTURE_TYPE_IMPORT_SEMAPHORE_FD_INFO_KHX => 1000079000,
            VkStructureType::VK_STRUCTURE_TYPE_PHYSICAL_DEVICE_PUSH_DESCRIPTOR_PROPERTIES_KHR => 1000080000,
            VkStructureType::VK_STRUCTURE_TYPE_DESCRIPTOR_UPDATE_TEMPLATE_CREATE_INFO_KHR => 1000085000,
            VkStructureType::VK_STRUCTURE_TYPE_OBJECT_TABLE_CREATE_INFO_NVX => 1000086000,
            VkStructureType::VK_STRUCTURE_TYPE_INDIRECT_COMMANDS_LAYOUT_CREATE_INFO_NVX => 1000086001,
            VkStructureType::VK_STRUCTURE_TYPE_CMD_PROCESS_COMMANDS_INFO_NVX => 1000086002,
            VkStructureType::VK_STRUCTURE_TYPE_CMD_RESERVE_SPACE_FOR_COMMANDS_INFO_NVX => 1000086003,
            VkStructureType::VK_STRUCTURE_TYPE_DEVICE_GENERATED_COMMANDS_LIMITS_NVX => 1000086004,
            VkStructureType::VK_STRUCTURE_TYPE_DEVICE_GENERATED_COMMANDS_FEATURES_NVX => 1000086005,
            VkStructureType::VK_STRUCTURE_TYPE_PIPELINE_VIEWPORT_W_SCALING_STATE_CREATE_INFO_NV => 1000087000,
            VkStructureType::VK_STRUCTURE_TYPE_SURFACE_CAPABILITIES2_EXT => 1000090000,
            VkStructureType::VK_STRUCTURE_TYPE_DISPLAY_POWER_INFO_EXT => 1000091000,
            VkStructureType::VK_STRUCTURE_TYPE_DEVICE_EVENT_INFO_EXT => 1000091001,
            VkStructureType::VK_STRUCTURE_TYPE_DISPLAY_EVENT_INFO_EXT => 1000091002,
            VkStructureType::VK_STRUCTURE_TYPE_SWAPCHAIN_COUNTER_CREATE_INFO_EXT => 1000091003,
            VkStructureType::VK_STRUCTURE_TYPE_PHYSICAL_DEVICE_MULTIVIEW_PER_VIEW_ATTRIBUTES_PROPERTIES_NVX => 1000097000,
            VkStructureType::VK_STRUCTURE_TYPE_PIPELINE_VIEWPORT_SWIZZLE_STATE_CREATE_INFO_NV => 1000098000,
            VkStructureType::VK_STRUCTURE_TYPE_PHYSICAL_DEVICE_DISCARD_RECTANGLE_PROPERTIES_EXT => 1000099000,
            VkStructureType::VK_STRUCTURE_TYPE_PIPELINE_DISCARD_RECTANGLE_STATE_CREATE_INFO_EXT => 1000099001,
            VkStructureType::VK_STRUCTURE_TYPE_IOS_SURFACE_CREATE_INFO_MVK => 1000122000,
            VkStructureType::VK_STRUCTURE_TYPE_MACOS_SURFACE_CREATE_INFO_MVK => 1000123000,
            VkStructureType::VK_STRUCTURE_TYPE_METAL_SURFACE_CREATE_INFO_EXT => 1000248000,
            VkStructureType::VK_STRUCTURE_TYPE_PHYSICAL_DEVICE_PORTABILITY_SUBSET_FEATURES_EXTX => 1000163000,
            VkStructureType::VK_STRUCTURE_TYPE_PHYSICAL_DEVICE_PORTABILITY_SUBSET_PROPERTIES_EXTX => 1000163001,
            VkStructureType::VK_STRUCTURE_TYPE_PHYSICAL_DEVICE_IMAGE_VIEW_SUPPORT_EXTX => 100163002,
            VkStructureType::VK_STRUCTURE_TYPE_MAX_ENUM => 2147483647,
        }
    }

    /// The enumerant whose Vulkan value is `raw`, if there is one.
    pub open spec fn from_value(raw: u32) -> Option<Self> {
        match raw {
            0 => Some(VkStructureType::VK_STRUCTURE_TYPE_APPLICATION_INFO),
            1 => Some(VkStructureType::VK_STRUCTURE_TYPE_INSTANCE_CREATE_INFO),
            2 => Some(VkStructureType::VK_STRUCTURE_TYPE_DEVICE_QUEUE_CREATE_INFO),
            3 => Some(VkStructureType::VK_STRUCTURE_TYPE_DEVICE_CREATE_INFO),
            4 => Some(VkStructureType::VK_STRUCTURE_TYPE_SUBMIT_INFO),
            5 => Some(VkStructureType::VK_STRUCTURE_TYPE_MEMORY_ALLOCATE_INFO),
            6 => Some(VkStructureType::VK_STRUCTURE_TYPE_MAPPED_MEMORY_RANGE),
            7 => Some(VkStructureType::VK_STRUCTURE_TYPE_BIND_SPARSE_INFO),
            8 => Some(VkStructureType::VK_STRUCTURE_TYPE_FENCE_CREATE_INFO),
            9 => Some(VkStructureType::VK_STRUCTURE_TYPE_SEMAPHORE_CREATE_INFO),
            10 => Some(VkStructureType::VK_STRUCTURE_TYPE_EVENT_CREATE_INFO),
            11 => Some(VkStructureType::VK_STRUCTURE_TYPE_QUERY_POOL_CREATE_INFO),
            12 => Some(VkStructureType::VK_STRUCTURE_TYPE_BUFFER_CREATE_INFO),
            13 => Some(VkStructureType::VK_STRUCTURE_TYPE_BUFFER_VIEW_CREATE_INFO),
            14 => Some(VkStructureType::VK_STRUCTURE_TYPE_IMAGE_CREATE_INFO),
            15 => Some(VkStructureType::VK_STRUCTURE_TYPE_IMAGE_VIEW_CREATE_INFO),
            16 => Some(VkStructureType::VK_STRUCTURE_TYPE_SHADER_MODULE_CREATE_INFO),
            17 => Some(VkStructureType::VK_STRUCTURE_TYPE_PIPELINE_CACHE_CREATE_INFO),
            18 => Some(VkStructureType::VK_STRUCTURE_TYPE_PIPELINE_SHADER_STAGE_CREATE_INFO),
            19 => Some(VkStructureType::VK_STRUCTURE_TYPE_PIPELINE_VERTEX_INPUT_STATE_CREATE_INFO),
            20 => Some(VkStructureType::VK_STRUCTURE_TYPE_PIPELINE_INPUT_ASSEMBLY_STATE_CREATE_INFO),
            21 => Some(VkStructureType::VK_STRUCTURE_TYPE_PIPELINE_TESSELLATION_STATE_CREATE_INFO),
            22 => Some(VkStructureType::VK_STRUCTURE_TYPE_PIPELINE_VIEWPORT_STATE_CREATE_INFO),
            23 => Some(VkStructureType::VK_STRUCTURE_TYPE_PIPELINE_RASTERIZATION_STATE_CREATE_INFO),
            24 => Some(VkStructureType::VK_STRUCTURE_TYPE_PIPELINE_MULTISAMPLE_STATE_CREATE_INFO),
            25 => Some(VkStructureType::VK_STRUCTURE_TYPE_PIPELINE_DEPTH_STENCIL_STATE_CREATE_INFO),
            26 => Some(VkStructureType::VK_STRUCTURE_TYPE_PIPELINE_COLOR_BLEND_STATE_CREATE_INFO),
            27 => Some(VkStructureType::VK_STRUCTURE_TYPE_PIPELINE_DYNAMIC_STATE_CREATE_INFO),
            28 => Some(VkStructureType::VK_STRUCTURE_TYPE_GRAPHICS_PIPELINE_CREATE_INFO),
            29 => Some(VkStructureType::VK_STRUCTURE_TYPE_COMPUTE_PIPELINE_CREATE_INFO),
            30 => Some(VkStructureType::VK_STRUCTURE_TYPE_PIPELINE_LAYOUT_CREATE_INFO),
            31 => Some(VkStructureType::VK_STRUCTURE_TYPE_SAMPLER_CREATE_INFO),
            32 => Some(VkStructureType::VK_STRUCTURE_TYPE_DESCRIPTOR_SET_LAYOUT_CREATE_INFO),
            33 => Some(VkStructureType::VK_STRUCTURE_TYPE_DESCRIPTOR_POOL_CREATE_INFO),
            34 => Some(VkStructureType::VK_STRUCTURE_TYPE_DESCRIPTOR_SET_ALLOCATE_INFO),
            35 => Some(VkStructureType::VK_STRUCTURE_TYPE_WRITE_DESCRIPTOR_SET),
            36 => Some(VkStructureType::VK_STRUCTURE_TYPE_COPY_DESCRIPTOR_SET),
            37 => Some(VkStructureType::VK_STRUCTURE_TYPE_FRAMEBUFFER_CREATE_INFO),
            38 => Some(VkStructureType::VK_STRUCTURE_TYPE_RENDER_PASS_CREATE_INFO),
            39 => Some(VkStructureType::VK_STRUCTURE_TYPE_COMMAND_POOL_CREATE_INFO),
            40 => Some(VkStructureType::VK_STRUCTURE_TYPE_COMMAND_BUFFER_ALLOCATE_INFO),
            41 => Some(VkStructureType::VK_STRUCTURE_TYPE_COMMAND_BUFFER_INHERITANCE_INFO),
            42 => Some(VkStructureType::VK_STRUCTURE_TYPE_COMMAND_BUFFER_BEGIN_INFO),
            43 => Some(VkStructureType::VK_STRUCTURE_TYPE_RENDER_PASS_BEGIN_INFO),
            44 => Some(VkStructureType::VK_STRUCTURE_TYPE_BUFFER_MEMORY_BARRIER),
            45 => Some(VkStructureType::VK_STRUCTURE_TYPE_IMAGE_MEMORY_BARRIER),
            46 => Some(VkStructureType::VK_STRUCTURE_TYPE_MEMORY_BARRIER),
            47 => Some(VkStructureType::VK_STRUCTURE_TYPE_LOADER_INSTANCE_CREATE_INFO),
            48 => Some(VkStructureType::VK_STRUCTURE_TYPE_LOADER_DEVICE_CREATE_INFO),
            49 => Some(VkStructureType::VK_STRUCTURE_TYPE_RANGE_SIZE),
            1000001000 => Some(VkStructureType::VK_STRUCTURE_TYPE_SWAPCHAIN_CREATE_INFO_KHR),
            1000001001 => Some(VkStructureType::VK_STRUCTURE_TYPE_PRESENT_INFO_KHR),
            1000002000 => Some(VkStructureType::VK_STRUCTURE_TYPE_DISPLAY_MODE_CREATE_INFO_KHR),
            1000002001 => Some(VkStructureType::VK_STRUCTURE_TYPE_DISPLAY_SURFACE_CREATE_INFO_KHR),
            1000003000 => Some(VkStructureType::VK_STRUCTURE_TYPE_DISPLAY_PRESENT_INFO_KHR),
            1000004000 => Some(VkStructureType::VK_STRUCTURE_TYPE_XLIB_SURFACE_CREATE_INFO_KHR),
            1000005000 => Some(VkStructureType::VK_STRUCTURE_TYPE_XCB_SURFACE_CREATE_INFO_KHR),
            1000006000 => Some(VkStructureType::VK_STRUCTURE_TYPE_WAYLAND_SURFACE_CREATE_INFO_KHR),
            1000007000 => Some(VkStructureType::VK_STRUCTURE_TYPE_MIR_SURFACE_CREATE_INFO_KHR),
            1000008000 => Some(VkStructureType::VK_STRUCTURE_TYPE_ANDROID_SURFACE_CREATE_INFO_KHR),
            1000009000 => Some(VkStructureType::VK_STRUCTURE_TYPE_WIN32_SURFACE_CREATE_INFO_KHR),
            1000011000 => Some(VkStructureType::VK_STRUCTURE_TYPE_DEBUG_REPORT_CALLBACK_CREATE_INFO_EXT),
            1000018000 => Some(VkStructureType::VK_STRUCTURE_TYPE_PIPELINE_RASTERIZATION_STATE_RASTERIZATION_ORDER_AMD),
            1000022000 => Some(VkStructureType::VK_STRUCTURE_TYPE_DEBUG_MARKER_OBJECT_NAME_INFO_EXT),
            1000022001 => Some(VkStructureType::VK_STRUCTURE_TYPE_DEBUG_MARKER_OBJECT_TAG_INFO_EXT),
            1000022002 => Some(VkStructureType::VK_STRUCTURE_TYPE_DEBUG_MARKER_MARKER_INFO_EXT),
            1000026000 => Some(VkStructureType::VK_STRUCTURE_TYPE_DEDICATED_ALLOCATION_IMAGE_CREATE_INFO_NV),
            1000026001 => Some(VkStructureType::VK_STRUCTURE_TYPE_DEDICATED_ALLOCATION_BUFFER_CREATE_INFO_NV),
            1000026002 => Some(VkStructureType::VK_STRUCTURE_TYPE_DEDICATED_ALLOCATION_MEMORY_ALLOCATE_INFO_NV),
            1000053000 => Some(VkStructureType::VK_STRUCTURE_TYPE_RENDER_PASS_MULTIVIEW_CREATE_INFO_KHX),
            1000053001 => Some(VkStructureType::VK_STRUCTURE_TYPE_PHYSICAL_DEVICE_MULTIVIEW_FEATURES_KHX),
            1000053002 => Some(VkStructureType::VK_STRUCTURE_TYPE_PHYSICAL_DEVICE_MULTIVIEW_PROPERTIES_KHX),
            1000056000 => Some(VkStructureType::VK_STRUCTURE_TYPE_EXTERNAL_MEMORY_IMAGE_CREATE_INFO_NV),
            1000056001 => Some(VkStructureType::VK_STRUCTURE_TYPE_EXPORT_MEMORY_ALLOCATE_INFO_NV),
            1000057000 => Some(VkStructureType::VK_STRUCTURE_TYPE_IMPORT_MEMORY_WIN32_HANDLE_INFO_NV),
            1000057001 => Some(VkStructureType::VK_STRUCTURE_TYPE_EXPORT_MEMORY_WIN32_HANDLE_INFO_NV),
            1000058000 => Some(VkStructureType::VK_STRUCTURE_TYPE_WIN32_KEYED_MUTEX_ACQUIRE_RELEASE_INFO_NV),
            1000059000 => Some(VkStructureType::VK_STRUCTURE_TYPE_PHYSICAL_DEVICE_FEATURES_2_KHR),
            1000059001 => Some(VkStructureType::VK_STRUCTURE_TYPE_PHYSICAL_DEVICE_PROPERTIES_2_KHR),
            1000059002 => Some(VkStructureType::VK_STRUCTURE_TYPE_FORMAT_PROPERTIES_2_KHR),
            1000059003 => Some(VkStructureType::VK_STRUCTURE_TYPE_IMAGE_FORMAT_PROPERTIES_2_KHR),
            1000059004 => Some(VkStructureType::VK_STRUCTURE_TYPE_PHYSICAL_DEVICE_IMAGE_FORMAT_INFO_2_KHR),
            1000059005 => Some(VkStructureType::VK_STRUCTURE_TYPE_QUEUE_FAMILY_PROPERTIES_2_KHR),
            1000059006 => Some(VkStructureType::VK_STRUCTURE_TYPE_PHYSICAL_DEVICE_MEMORY_PROPERTIES_2_KHR),
            1000059007 => Some(VkStructureType::VK_STRUCTURE_TYPE_SPARSE_IMAGE_FORMAT_PROPERTIES_2_KHR),
            1000059008 => Some(VkStructureType::VK_STRUCTURE_TYPE_PHYSICAL_DEVICE_SPARSE_IMAGE_FORMAT_INFO_2_KHR),
            1000060000 => Some(VkStructureType::VK_STRUCTURE_TYPE_MEMORY_ALLOCATE_FLAGS_INFO_KHX),
            1000060001 => Some(VkStructureType::VK_STRUCTURE_TYPE_BIND_BUFFER_MEMORY_INFO_KHX),
            1000060002 => Some(VkStructureType::VK_STRUCTURE_TYPE_BIND_IMAGE_MEMORY_INFO_KHX),
            1000060003 => Some(VkStructureType::VK_STRUCTURE_TYPE_DEVICE_GROUP_RENDER_PASS_BEGIN_INFO_KHX),
            1000060004 => Some(VkStructureType::VK_STRUCTURE_TYPE_DEVICE_GROUP_COMMAND_BUFFER_BEGIN_INFO_KHX),
            1000060005 => Some(VkStructureType::VK_STRUCTURE_TYPE_DEVICE_GROUP_SUBMIT_INFO_KHX),
            1000060006 => Some(VkStructureType::VK_STRUCTURE_TYPE_DEVICE_GROUP_BIND_SPARSE_INFO_KHX),
            1000060007 => Some(VkStructureType::VK_STRUCTURE_TYPE_DEVICE_GROUP_PRESENT_CAPABILITIES_KHX),
            1000060008 => Some(VkStructureType::VK_STRUCTURE_TYPE_IMAGE_SWAPCHAIN_CREATE_INFO_KHX),
            1000060009 => Some(VkStructureType::VK_STRUCTURE_TYPE_BIND_IMAGE_MEMORY_SWAPCHAIN_INFO_KHX),
            1000060010 => Some(VkStructureType::VK_STRUCTURE_TYPE_ACQUIRE_NEXT_IMAGE_INFO_KHX),
            1000060011 => Some(VkStructureType::VK_STRUCTURE_TYPE_DEVICE_GROUP_PRESENT_INFO_KHX),
            1000060012 => Some(VkStructureType::VK_STRUCTURE_TYPE_DEVICE_GROUP_SWAPCHAIN_CREATE_INFO_KHX),
            1000061000 => Some(VkStructureType::VK_STRUCTURE_TYPE_VALIDATION_FLAGS_EXT),
            1000062000 => Some(VkStructureType::VK_STRUCTURE_TYPE_VI_SURFACE_CREATE_INFO_NN),
            1000070000 => Some(VkStructureType::VK_STRUCTURE_TYPE_PHYSICAL_DEVICE_GROUP_PROPERTIES_KHX),
            1000070001 => Some(VkStructureType::VK_STRUCTURE_TYPE_DEVICE_GROUP_DEVICE_CREATE_INFO_KHX),
            1000071000 => Some(VkStructureType::VK_STRUCTURE_TYPE_PHYSICAL_DEVICE_EXTERNAL_IMAGE_FORMAT_INFO_KHX),
            1000071001 => Some(VkStructureType::VK_STRUCTURE_TYPE_EXTERNAL_IMAGE_FORMAT_PROPERTIES_KHX),
            1000071002 => Some(VkStructureType::VK_STRUCTURE_TYPE_PHYSICAL_DEVICE_EXTERNAL_BUFFER_INFO_KHX),
            1000071003 => Some(VkStructureType::VK_STRUCTURE_TYPE_EXTERNAL_BUFFER_PROPERTIES_KHX),
            1000071004 => Some(VkStructureType::VK_STRUCTURE_TYPE_PHYSICAL_DEVICE_ID_PROPERTIES_KHX),
            1000071005 => Some(VkStructureType::VK_STRUCTURE_TYPE_PHYSICAL_DEVICE_PROPERTIES_2_KHX),
            1000071006 => Some(VkStructureType::VK_STRUCTURE_TYPE_IMAGE_FORMAT_PROPERTIES_2_KHX),
            1000071007 => Some(VkStructureType::VK_STRUCTURE_TYPE_PHYSICAL_DEVICE_IMAGE_FORMAT_INFO_2_KHX),
            1000072000 => Some(VkStructureType::VK_STRUCTURE_TYPE_EXTERNAL_MEMORY_BUFFER_CREATE_INFO_KHX),
            1000072001 => Some(VkStructureType::VK_STRUCTURE_TYPE_EXTERNAL_MEMORY_IMAGE_CREATE_INFO_KHX),
            1000072002 => Some(VkStructureType::VK_STRUCTURE_TYPE_EXPORT_MEMORY_ALLOCATE_INFO_KHX),
            1000073000 => Some(VkStructureType::VK_STRUCTURE_TYPE_IMPORT_MEMORY_WIN32_HANDLE_INFO_KHX),
            1000073001 => Some(VkStructureType::VK_STRUCTURE_TYPE_EXPORT_MEMORY_WIN32_HANDLE_INFO_KHX),
            1000073002 => Some(VkStructureType::VK_STRUCTURE_TYPE_MEMORY_WIN32_HANDLE_PROPERTIES_KHX),
            1000074000 => Some(VkStructureType::VK_STRUCTURE_TYPE_IMPORT_MEMORY_FD_INFO_KHX),
            1000074001 => Some(VkStructureType::VK_STRUCTURE_TYPE_MEMORY_FD_PROPERTIES_KHX),
            1000075000 => Some(VkStructureType::VK_STRUCTURE_TYPE_WIN32_KEYED_MUTEX_ACQUIRE_RELEASE_INFO_KHX),
            1000076000 => Some(VkStructureType::VK_STRUCTURE_TYPE_PHYSICAL_DEVICE_EXTERNAL_SEMAPHORE_INFO_KHX),
            1000076001 => Some(VkStructureType::VK_STRUCTURE_TYPE_EXTERNAL_SEMAPHORE_PROPERTIES_KHX),
            1000077000 => Some(VkStructureType::VK_STRUCTURE_TYPE_EXPORT_SEMAPHORE_CREATE_INFO_KHX),
            1000078000 => Some(VkStructureType::VK_STRUCTURE_TYPE_IMPORT_SEMAPHORE_WIN32_HANDLE_INFO_KHX),
            1000078001 => Some(VkStructureType::VK_STRUCTURE_TYPE_EXPORT_SEMAPHORE_WIN32_HANDLE_INFO_KHX),
            1000078002 => Some(VkStructureType::VK_STRUCTURE_TYPE_D3D12_FENCE_SUBMIT_INFO_KHX),
            1000079000 => Some(VkStructureType::VK_STRUCTURE_TYPE_IMPORT_SEMAPHORE_FD_INFO_KHX),
            1000080000 => Some(VkStructureType::VK_STRUCTURE_TYPE_PHYSICAL_DEVICE_PUSH_DESCRIPTOR_PROPERTIES_KHR),
            1000085000 => Some(VkStructureType::VK_STRUCTURE_TYPE_DESCRIPTOR_UPDATE_TEMPLATE_CREATE_INFO_KHR),
            1000086000 => Some(VkStructureType::VK_STRUCTURE_TYPE_OBJECT_TABLE_CREATE_INFO_NVX),
            1000086001 => Some(VkStructureType::VK_STRUCTURE_TYPE_INDIRECT_COMMANDS_LAYOUT_CREATE_INFO_NVX),
            1000086002 => Some(VkStructureType::VK_STRUCTURE_TYPE_CMD_PROCESS_COMMANDS_INFO_NVX),
            1000086003 => Some(VkStructureType::VK_STRUCTURE_TYPE_CMD_RESERVE_SPACE_FOR_COMMANDS_INFO_NVX),
            1000086004 => Some(VkStructureType::VK_STRUCTURE_TYPE_DEVICE_GENERATED_COMMANDS_LIMITS_NVX),
            1000086005 => Some(VkStructureType::VK_STRUCTURE_TYPE_DEVICE_GENERATED_COMMANDS_FEATURES_NVX),
            1000087000 => Some(VkStructureType::VK_STRUCTURE_TYPE_PIPELINE_VIEWPORT_W_SCALING_STATE_CREATE_INFO_NV),
            1000090000 => Some(VkStructureType::VK_STRUCTURE_TYPE_SURFACE_CAPABILITIES2_EXT),
            1000091000 => Some(VkStructureType::VK_STRUCTURE_TYPE_DISPLAY_POWER_INFO_EXT),
            1000091001 => Some(VkStructureType::VK_STRUCTURE_TYPE_DEVICE_EVENT_INFO_EXT),
            1000091002 => Some(VkStructureType::VK_STRUCTURE_TYPE_DISPLAY_EVENT_INFO_EXT),
            1000091003 => Some(VkStructureType::VK_STRUCTURE_TYPE_SWAPCHAIN_COUNTER_CREATE_INFO_EXT),
            1000097000 => Some(VkStructureType::VK_STRUCTURE_TYPE_PHYSICAL_DEVICE_MULTIVIEW_PER_VIEW_ATTRIBUTES_PROPERTIES_NVX),
            1000098000 => Some(VkStructureType::VK_STRUCTURE_TYPE_PIPELINE_VIEWPORT_SWIZZLE_STATE_CREATE_INFO_NV),
            1000099000 => Some(VkStructureType::VK_STRUCTURE_TYPE_PHYSICAL_DEVICE_DISCARD_RECTANGLE_PROPERTIES_EXT),
            1000099001 => Some(VkStructureType::VK_STRUCTURE_TYPE_PIPELINE_DISCARD_RECTANGLE_STATE_CREATE_INFO_EXT),
            1000122000 => Some(VkStructureType::VK_STRUCTURE_TYPE_IOS_SURFACE_CREATE_INFO_MVK),
            1000123000 => Some(VkStructureType::VK_STRUCTURE_TYPE_MACOS_SURFACE_CREATE_INFO_MVK),
            1000248000 => Some(VkStructureType::VK_STRUCTURE_TYPE_METAL_SURFACE_CREATE_INFO_EXT),
            1000163000 => Some(VkStructureType::VK_STRUCTURE_TYPE_PHYSICAL_DEVICE_PORTABILITY_SUBSET_FEATURES_EXTX),
            1000163001 => Some(VkStructureType::VK_STRUCTURE_TYPE_PHYSICAL_DEVICE_PORTABILITY_SUBSET_PROPERTIES_EXTX),
            100163002 => Some(VkStructureType::VK_STRUCTURE_TYPE_PHYSICAL_DEVICE_IMAGE_VIEW_SUPPORT_EXTX),
            2147483647 => Some(VkStructureType::VK_STRUCTURE_TYPE_MAX_ENUM),
            _ => None,
        }
    }

    pub fn as_raw(self) -> (r: u32)
        ensures
            r == self.value(),
    {
        match self {
            VkStructureType::VK_STRUCTURE_TYPE_APPLICATION_INFO => 0,
            VkStructureType::VK_STRUCTURE_TYPE_INSTANCE_CREATE_INFO => 1,
            VkStructureType::VK_STRUCTURE_TYPE_DEVICE_QUEUE_CREATE_INFO => 2,
            VkStructureType::VK_STRUCTURE_TYPE_DEVICE_CREATE_INFO => 3,
            VkStructureType::VK_STRUCTURE_TYPE_SUBMIT_INFO => 4,
            VkStructureType::VK_STRUCTURE_TYPE_MEMORY_ALLOCATE_INFO => 5,
            VkStructureType::VK_STRUCTURE_TYPE_MAPPED_MEMORY_RANGE => 6,
            VkStructureType::VK_STRUCTURE_TYPE_BIND_SPARSE_INFO => 7,
            VkStructureType::VK_STRUCTURE_TYPE_FENCE_CREATE_INFO => 8,
            VkStructureType::VK_STRUCTURE_TYPE_SEMAPHORE_CREATE_INFO => 9,
            VkStructureType::VK_STRUCTURE_TYPE_EVENT_CREATE_INFO => 10,
            VkStructureType::VK_STRUCTURE_TYPE_QUERY_POOL_CREATE_INFO => 11,
            VkStructureType::VK_STRUCTURE_TYPE_BUFFER_CREATE_INFO => 12,
            VkStructureType::VK_STRUCTURE_TYPE_BUFFER_VIEW_CREATE_INFO => 13,
            VkStructureType::VK_STRUCTURE_TYPE_IMAGE_CREATE_INFO => 14,
            VkStructureType::VK_STRUCTURE_TYPE_IMAGE_VIEW_CREATE_INFO => 15,
            VkStructureType::VK_STRUCTURE_TYPE_SHADER_MODULE_CREATE_INFO => 16,
            VkStructureType::VK_STRUCTURE_TYPE_PIPELINE_CACHE_CREATE_INFO => 17,
            VkStructureType::VK_STRUCTURE_TYPE_PIPELINE_SHADER_STAGE_CREATE_INFO => 18,
            VkStructureType::VK_STRUCTURE_TYPE_PIPELINE_VERTEX_INPUT_STATE_CREATE_INFO => 19,
            VkStructureType::VK_STRUCTURE_TYPE_PIPELINE_INPUT_ASSEMBLY_STATE_CREATE_INFO => 20,
            VkStructureType::VK_STRUCTURE_TYPE_PIPELINE_TESSELLATION_STATE_CREATE_INFO => 21,
            VkStructureType::VK_STRUCTURE_TYPE_PIPELINE_VIEWPORT_STATE_CREATE_INFO => 22,
            VkStructureType::VK_STRUCTURE_TYPE_PIPELINE_RASTERIZATION_STATE_CREATE_INFO => 23,
            VkStructureType::VK_STRUCTURE_TYPE_PIPELINE_MULTISAMPLE_STATE_CREATE_INFO => 24,
            VkStructureType::VK_STRUCTURE_TYPE_PIPELINE_DEPTH_STENCIL_STATE_CREATE_INFO => 25,
            VkStructureType::VK_STRUCTURE_TYPE_PIPELINE_COLOR_BLEND_STATE_CREATE_INFO => 26,
            VkStructureType::VK_STRUCTURE_TYPE_PIPELINE_DYNAMIC_STATE_CREATE_INFO => 27,
            VkStructureType::VK_STRUCTURE_TYPE_GRAPHICS_PIPELINE_CREATE_INFO => 28,
            VkStructureType::VK_STRUCTURE_TYPE_COMPUTE_PIPELINE_CREATE_INFO => 29,
            VkStructureType::VK_STRUCTURE_TYPE_PIPELINE_LAYOUT_CREATE_INFO => 30,
            VkStructureType::VK_STRUCTURE_TYPE_SAMPLER_CREATE_INFO => 31,
            VkStructureType::VK_STRUCTURE_TYPE_DESCRIPTOR_SET_LAYOUT_CREATE_INFO => 32,
            VkStructureType::VK_STRUCTURE_TYPE_DESCRIPTOR_POOL_CREATE_INFO => 33,
            VkStructureType::VK_STRUCTURE_TYPE_DESCRIPTOR_SET_ALLOCATE_INFO => 34,
            VkStructureType::VK_STRUCTURE_TYPE_WRITE_DESCRIPTOR_SET => 35,
            VkStructureType::VK_STRUCTURE_TYPE_COPY_DESCRIPTOR_SET => 36,
            VkStructureType::VK_STRUCTURE_TYPE_FRAMEBUFFER_CREATE_INFO => 37,
            VkStructureType::VK_STRUCTURE_TYPE_RENDER_PASS_CREATE_INFO => 38,
            VkStructureType::VK_STRUCTURE_TYPE_COMMAND_POOL_CREATE_INFO => 39,
            VkStructureType::VK_STRUCTURE_TYPE_COMMAND_BUFFER_ALLOCATE_INFO => 40,
            VkStructureType::VK_STRUCTURE_TYPE_COMMAND_BUFFER_INHERITANCE_INFO => 41,
            VkStructureType::VK_STRUCTURE_TYPE_COMMAND_BUFFER_BEGIN_INFO => 42,
            VkStructureType::VK_STRUCTURE_TYPE_RENDER_PASS_BEGIN_INFO => 43,
            VkStructureType::VK_STRUCTURE_TYPE_BUFFER_MEMORY_BARRIER => 44,
            VkStructureType::VK_STRUCTURE_TYPE_IMAGE_MEMORY_BARRIER => 45,
            VkStructureType::VK_STRUCTURE_TYPE_MEMORY_BARRIER => 46,
            VkStructureType::VK_STRUCTURE_TYPE_LOADER_INSTANCE_CREATE_INFO => 47,
            VkStructureType::VK_STRUCTURE_TYPE_LOADER_DEVICE_CREATE_INFO => 48,
            VkStructureType::VK_STRUCTURE_TYPE_RANGE_SIZE => 49,
            VkStructureType::VK_STRUCTURE_TYPE_SWAPCHAIN_CREATE_INFO_KHR => 1000001000,
            VkStructureType::VK_STRUCTURE_TYPE_PRESENT_INFO_KHR => 1000001001,
            VkStructureType::VK_STRUCTURE_TYPE_DISPLAY_MODE_CREATE_INFO_KHR => 1000002000,
            VkStructureType::VK_STRUCTURE_TYPE_DISPLAY_SURFACE_CREATE_INFO_KHR => 1000002001,
            VkStructureType::VK_STRUCTURE_TYPE_DISPLAY_PRESENT_INFO_KHR => 1000003000,
            VkStructureType::VK_STRUCTURE_TYPE_XLIB_SURFACE_CREATE_INFO_KHR => 1000004000,
            VkStructureType::VK_STRUCTURE_TYPE_XCB_SURFACE_CREATE_INFO_KHR => 1000005000,
            VkStructureType::VK_STRUCTURE_TYPE_WAYLAND_SURFACE_CREATE_INFO_KHR => 1000006000,
            VkStructureType::VK_STRUCTURE_TYPE_MIR_SURFACE_CREATE_INFO_KHR => 1000007000,
            VkStructureType::VK_STRUCTURE_TYPE_ANDROID_SURFACE_CREATE_INFO_KHR => 1000008000,
            VkStructureType::VK_STRUCTURE_TYPE_WIN32_SURFACE_CREATE_INFO_KHR => 1000009000,
            VkStructureType::VK_STRUCTURE_TYPE_DEBUG_REPORT_CALLBACK_CREATE_INFO_EXT => 1000011000,
            VkStructureType::VK_STRUCTURE_TYPE_PIPELINE_RASTERIZATION_STATE_RASTERIZATION_ORDER_AMD => 1000018000,
            VkStructureType::VK_STRUCTURE_TYPE_DEBUG_MARKER_OBJECT_NAME_INFO_EXT => 1000022000,
            VkStructureType::VK_STRUCTURE_TYPE_DEBUG_MARKER_OBJECT_TAG_INFO_EXT => 1000022001,
            VkStructureType::VK_STRUCTURE_TYPE_DEBUG_MARKER_MARKER_INFO_EXT => 1000022002,
            VkStructureType::VK_STRUCTURE_TYPE_DEDICATED_ALLOCATION_IMAGE_CREATE_INFO_NV => 1000026000,
            VkStructureType::VK_STRUCTURE_TYPE_DEDICATED_ALLOCATION_BUFFER_CREATE_INFO_NV => 1000026001,
            VkStructureType::VK_STRUCTURE_TYPE_DEDICATED_ALLOCATION_MEMORY_ALLOCATE_INFO_NV => 1000026002,
            VkStructureType::VK_STRUCTURE_TYPE_RENDER_PASS_MULTIVIEW_CREATE_INFO_KHX => 1000053000,
            VkStructureType::VK_STRUCTURE_TYPE_PHYSICAL_DEVICE_MULTIVIEW_FEATURES_KHX => 1000053001,
            VkStructureType::VK_STRUCTURE_TYPE_PHYSICAL_DEVICE_MULTIVIEW_PROPERTIES_KHX => 1000053002,
            VkStructureType::VK_STRUCTURE_TYPE_EXTERNAL_MEMORY_IMAGE_CREATE_INFO_NV => 1000056000,
            VkStructureType::VK_STRUCTURE_TYPE_EXPORT_MEMORY_ALLOCATE_INFO_NV => 1000056001,
            VkStructureType::VK_STRUCTURE_TYPE_IMPORT_MEMORY_WIN32_HANDLE_INFO_NV => 1000057000,
            VkStructureType::VK_STRUCTURE_TYPE_EXPORT_MEMORY_WIN32_HANDLE_INFO_NV => 1000057001,
            VkStructureType::VK_STRUCTURE_TYPE_WIN32_KEYED_MUTEX_ACQUIRE_RELEASE_INFO_NV => 1000058000,
            VkStructureType::VK_STRUCTURE_TYPE_PHYSICAL_DEVICE_FEATURES_2_KHR => 1000059000,
            VkStructureType::VK_STRUCTURE_TYPE_PHYSICAL_DEVICE_PROPERTIES_2_KHR => 1000059001,
            VkStructureType::VK_STRUCTURE_TYPE_FORMAT_PROPERTIES_2_KHR => 1000059002,
            VkStructureType::VK_STRUCTURE_TYPE_IMAGE_FORMAT_PROPERTIES_2_KHR => 1000059003,
            VkStructureType::VK_STRUCTURE_TYPE_PHYSICAL_DEVICE_IMAGE_FORMAT_INFO_2_KHR => 1000059004,
            VkStructureType::VK_STRUCTURE_TYPE_QUEUE_FAMILY_PROPERTIES_2_KHR => 1000059005,
            VkStructureType::VK_STRUCTURE_TYPE_PHYSICAL_DEVICE_MEMORY_PROPERTIES_2_KHR => 1000059006,
            VkStructureType::VK_STRUCTURE_TYPE_SPARSE_IMAGE_FORMAT_PROPERTIES_2_KHR => 1000059007,
            VkStructureType::VK_STRUCTURE_TYPE_PHYSICAL_DEVICE_SPARSE_IMAGE_FORMAT_INFO_2_KHR => 1000059008,
            VkStructureType::VK_STRUCTURE_TYPE_MEMORY_ALLOCATE_FLAGS_INFO_KHX => 1000060000,
            VkStructureType::VK_STRUCTURE_TYPE_BIND_BUFFER_MEMORY_INFO_KHX => 1000060001,
            VkStructureType::VK_STRUCTURE_TYPE_BIND_IMAGE_MEMORY_INFO_KHX => 1000060002,
            VkStructureType::VK_STRUCTURE_TYPE_DEVICE_GROUP_RENDER_PASS_BEGIN_INFO_KHX => 1000060003,
            VkStructureType::VK_STRUCTURE_TYPE_DEVICE_GROUP_COMMAND_BUFFER_BEGIN_INFO_KHX => 1000060004,
            VkStructureType::VK_STRUCTURE_TYPE_DEVICE_GROUP_SUBMIT_INFO_KHX => 1000060005,
            VkStructureType::VK_STRUCTURE_TYPE_DEVICE_GROUP_BIND_SPARSE_INFO_KHX => 1000060006,
            VkStructureType::VK_STRUCTURE_TYPE_DEVICE_GROUP_PRESENT_CAPABILITIES_KHX => 1000060007,
            VkStructureType::VK_STRUCTURE_TYPE_IMAGE_SWAPCHAIN_CREATE_INFO_KHX => 1000060008,
            VkStructureType::VK_STRUCTURE_TYPE_BIND_IMAGE_MEMORY_SWAPCHAIN_INFO_KHX => 1000060009,
            VkStructureType::VK_STRUCTURE_TYPE_ACQUIRE_NEXT_IMAGE_INFO_KHX => 1000060010,
            VkStructureType::VK_STRUCTURE_TYPE_DEVICE_GROUP_PRESENT_INFO_KHX => 1000060011,
            VkStructureType::VK_STRUCTURE_TYPE_DEVICE_GROUP_SWAPCHAIN_CREATE_INFO_KHX => 1000060012,
            VkStructureType::VK_STRUCTURE_TYPE_VALIDATION_FLAGS_EXT => 1000061000,
            VkStructureType::VK_STRUCTURE_TYPE_VI_SURFACE_CREATE_INFO_NN => 1000062000,
            VkStructureType::VK_STRUCTURE_TYPE_PHYSICAL_DEVICE_GROUP_PROPERTIES_KHX => 1000070000,
            VkStructureType::VK_STRUCTURE_TYPE_DEVICE_GROUP_DEVICE_CREATE_INFO_KHX => 1000070001,
            VkStructureType::VK_STRUCTURE_TYPE_PHYSICAL_DEVICE_EXTERNAL_IMAGE_FORMAT_INFO_KHX => 1000071000,
            VkStructureType::VK_STRUCTURE_TYPE_EXTERNAL_IMAGE_FORMAT_PROPERTIES_KHX => 1000071001,
            VkStructureType::VK_STRUCTURE_TYPE_PHYSICAL_DEVICE_EXTERNAL_BUFFER_INFO_KHX => 1000071002,
            VkStructureType::VK_STRUCTURE_TYPE_EXTERNAL_BUFFER_PROPERTIES_KHX => 1000071003,
            VkStructureType::VK_STRUCTURE_TYPE_PHYSICAL_DEVICE_ID_PROPERTIES_KHX => 1000071004,
            VkStructureType::VK_STRUCTURE_TYPE_PHYSICAL_DEVICE_PROPERTIES_2_KHX => 1000071005,
            VkStructureType::VK_STRUCTURE_TYPE_IMAGE_FORMAT_PROPERTIES_2_KHX => 1000071006,
            VkStructureType::VK_STRUCTURE_TYPE_PHYSICAL_DEVICE_IMAGE_FORMAT_INFO_2_KHX => 1000071007,
            VkStructureType::VK_STRUCTURE_TYPE_EXTERNAL_MEMORY_BUFFER_CREATE_INFO_KHX => 1000072000,
            VkStructureType::VK_STRUCTURE_TYPE_EXTERNAL_MEMORY_IMAGE_CREATE_INFO_KHX => 1000072001,
            VkStructureType::VK_STRUCTURE_TYPE_EXPORT_MEMORY_ALLOCATE_INFO_KHX => 1000072002,
            VkStructureType::VK_STRUCTURE_TYPE_IMPORT_MEMORY_WIN32_HANDLE_INFO_KHX => 1000073000,
            VkStructureType::VK_STRUCTURE_TYPE_EXPORT_MEMORY_WIN32_HANDLE_INFO_KHX => 1000073001,
            VkStructureType::VK_STRUCTURE_TYPE_MEMORY_WIN32_HANDLE_PROPERTIES_KHX => 1000073002,
            VkStructureType::VK_STRUCTURE_TYPE_IMPORT_MEMORY_FD_INFO_KHX => 1000074000,
            VkStructureType::VK_STRUCTURE_TYPE_MEMORY_FD_PROPERTIES_KHX => 1000074001,
            VkStructureType::VK_STRUCTURE_TYPE_WIN32_KEYED_MUTEX_ACQUIRE_RELEASE_INFO_KHX => 1000075000,
            VkStructureType::VK_STRUCTURE_TYPE_PHYSICAL_DEVICE_EXTERNAL_SEMAPHORE_INFO_KHX => 1000076000,
            VkStructureType::VK_STRUCTURE_TYPE_EXTERNAL_SEMAPHORE_PROPERTIES_KHX => 1000076001,
            VkStructureType::VK_STRUCTURE_TYPE_EXPORT_SEMAPHORE_CREATE_INFO_KHX => 1000077000,
            VkStructureType::VK_STRUCTURE_TYPE_IMPORT_SEMAPHORE_WIN32_HANDLE_INFO_KHX => 1000078000,
            VkStructureType::VK_STRUCTURE_TYPE_EXPORT_SEMAPHORE_WIN32_HANDLE_INFO_KHX => 1000078001,
            VkStructureType::VK_STRUCTURE_TYPE_D3D12_FENCE_SUBMIT_INFO_KHX => 1000078002,
            VkStructureType::VK_STRUCTURE_TYPE_IMPORT_SEMAPHORE_FD_INFO_KHX => 1000079000,
            VkStructureType::VK_STRUCTURE_TYPE_PHYSICAL_DEVICE_PUSH_DESCRIPTOR_PROPERTIES_KHR => 1000080000,
            VkStructureType::VK_STRUCTURE_TYPE_DESCRIPTOR_UPDATE_TEMPLATE_CREATE_INFO_KHR => 1000085000,
            VkStructureType::VK_STRUCTURE_TYPE_OBJECT_TABLE_CREATE_INFO_NVX => 1000086000,
            VkStructureType::VK_STRUCTURE_TYPE_INDIRECT_COMMANDS_LAYOUT_CREATE_INFO_NVX => 1000086001,
            VkStructureType::VK_STRUCTURE_TYPE_CMD_PROCESS_COMMANDS_INFO_NVX => 1000086002,
            VkStructureType::VK_STRUCTURE_TYPE_CMD_RESERVE_SPACE_FOR_COMMANDS_INFO_NVX => 1000086003,
            VkStructureType::VK_STRUCTURE_TYPE_DEVICE_GENERATED_COMMANDS_LIMITS_NVX => 1000086004,
            VkStructureType::VK_STRUCTURE_TYPE_DEVICE_GENERATED_COMMANDS_FEATURES_NVX => 1000086005,
            VkStructureType::VK_STRUCTURE_TYPE_PIPELINE_VIEWPORT_W_SCALING_STATE_CREATE_INFO_NV => 1000087000,
            VkStructureType::VK_STRUCTURE_TYPE_SURFACE_CAPABILITIES2_EXT => 1000090000,
            VkStructureType::VK_STRUCTURE_TYPE_DISPLAY_POWER_INFO_EXT => 1000091000,
            VkStructureType::VK_STRUCTURE_TYPE_DEVICE_EVENT_INFO_EXT => 1000091001,
            VkStructureType::VK_STRUCTURE_TYPE_DISPLAY_EVENT_INFO_EXT => 1000091002,
            VkStructureType::VK_STRUCTURE_TYPE_SWAPCHAIN_COUNTER_CREATE_INFO_EXT => 1000091003,
            VkStructureType::VK_STRUCTURE_TYPE_PHYSICAL_DEVICE_MULTIVIEW_PER_VIEW_ATTRIBUTES_PROPERTIES_NVX => 1000097000,
            VkStructureType::VK_STRUCTURE_TYPE_PIPELINE_VIEWPORT_SWIZZLE_STATE_CREATE_INFO_NV => 1000098000,
            VkStructureType::VK_STRUCTURE_TYPE_PHYSICAL_DEVICE_DISCARD_RECTANGLE_PROPERTIES_EXT => 1000099000,
            VkStructureType::VK_STRUCTURE_TYPE_PIPELINE_DISCARD_RECTANGLE_STATE_CREATE_INFO_EXT => 1000099001,
            VkStructureType::VK_STRUCTURE_TYPE_IOS_SURFACE_CREATE_INFO_MVK => 1000122000,
            VkStructureType::VK_STRUCTURE_TYPE_MACOS_SURFACE_CREATE_INFO_MVK => 1000123000,
            VkStructureType::VK_STRUCTURE_TYPE_METAL_SURFACE_CREATE_INFO_EXT => 1000248000,
            VkStructureType::VK_STRUCTURE_TYPE_PHYSICAL_DEVICE_PORTABILITY_SUBSET_FEATURES_EXTX => 1000163000,
            VkStructureType::VK_STRUCTURE_TYPE_PHYSICAL_DEVICE_PORTABILITY_SUBSET_PROPERTIES_EXTX => 1000163001,
            VkStructureType::VK_STRUCTURE_TYPE_PHYSICAL_DEVICE_IMAGE_VIEW_SUPPORT_EXTX => 100163002,
            VkStructureType::VK_STRUCTURE_TYPE_MAX_ENUM => 2147483647,
        }
    }

    pub fn from_raw(raw: u32) -> (r: Option<Self>)
        ensures
            r == Self::from_value(raw),
    {
        match raw {
            0 => Some(VkStructureType::VK_STRUCTURE_TYPE_APPLICATION_INFO),
            1 => Some(VkStructureType::VK_STRUCTURE_TYPE_INSTANCE_CREATE_INFO),
            2 => Some(VkStructureType::VK_STRUCTURE_TYPE_DEVICE_QUEUE_CREATE_INFO),
            3 => Some(VkStructureType::VK_STRUCTURE_TYPE_DEVICE_CREATE_INFO),
            4 => Some(VkStructureType::VK_STRUCTURE_TYPE_SUBMIT_INFO),
            5 => Some(VkStructureType::VK_STRUCTURE_TYPE_MEMORY_ALLOCATE_INFO),
            6 => Some(VkStructureType::VK_STRUCTURE_TYPE_MAPPED_MEMORY_RANGE),
            7 => Some(VkStructureType::VK_STRUCTURE_TYPE_BIND_SPARSE_INFO),
            8 => Some(VkStructureType::VK_STRUCTURE_TYPE_FENCE_CREATE_INFO),
            9 => Some(VkStructureType::VK_STRUCTURE_TYPE_SEMAPHORE_CREATE_INFO),
            10 => Some(VkStructureType::VK_STRUCTURE_TYPE_EVENT_CREATE_INFO),
            11 => Some(VkStructureType::VK_STRUCTURE_TYPE_QUERY_POOL_CREATE_INFO),
            12 => Some(VkStructureType::VK_STRUCTURE_TYPE_BUFFER_CREATE_INFO),
            13 => Some(VkStructureType::VK_STRUCTURE_TYPE_BUFFER_VIEW_CREATE_INFO),
            14 => Some(VkStructureType::VK_STRUCTURE_TYPE_IMAGE_CREATE_INFO),
            15 => Some(VkStructureType::VK_STRUCTURE_TYPE_IMAGE_VIEW_CREATE_INFO),
            16 => Some(VkStructureType::VK_STRUCTURE_TYPE_SHADER_MODULE_CREATE_INFO),
            17 => Some(VkStructureType::VK_STRUCTURE_TYPE_PIPELINE_CACHE_CREATE_INFO),
            18 => Some(VkStructureType::VK_STRUCTURE_TYPE_PIPELINE_SHADER_STAGE_CREATE_INFO),
            19 => Some(VkStructureType::VK_STRUCTURE_TYPE_PIPELINE_VERTEX_INPUT_STATE_CREATE_INFO),
            20 => Some(VkStructureType::VK_STRUCTURE_TYPE_PIPELINE_INPUT_ASSEMBLY_STATE_CREATE_INFO),
            21 => Some(VkStructureType::VK_STRUCTURE_TYPE_PIPELINE_TESSELLATION_STATE_CREATE_INFO),
            22 => Some(VkStructureType::VK_STRUCTURE_TYPE_PIPELINE_VIEWPORT_STATE_CREATE_INFO),
            23 => Some(VkStructureType::VK_STRUCTURE_TYPE_PIPELINE_RASTERIZATION_STATE_CREATE_INFO),
            24 => Some(VkStructureType::VK_STRUCTURE_TYPE_PIPELINE_MULTISAMPLE_STATE_CREATE_INFO),
            25 => Some(VkStructureType::VK_STRUCTURE_TYPE_PIPELINE_DEPTH_STENCIL_STATE_CREATE_INFO),
            26 => Some(VkStructureType::VK_STRUCTURE_TYPE_PIPELINE_COLOR_BLEND_STATE_CREATE_INFO),
            27 => Some(VkStructureType::VK_STRUCTURE_TYPE_PIPELINE_DYNAMIC_STATE_CREATE_INFO),
            28 => Some(VkStructureType::VK_STRUCTURE_TYPE_GRAPHICS_PIPELINE_CREATE_INFO),
            29 => Some(VkStructureType::VK_STRUCTURE_TYPE_COMPUTE_PIPELINE_CREATE_INFO),
            30 => Some(VkStructureType::VK_STRUCTURE_TYPE_PIPELINE_LAYOUT_CREATE_INFO),
            31 => Some(VkStructureType::VK_STRUCTURE_TYPE_SAMPLER_CREATE_INFO),
            32 => Some(VkStructureType::VK_STRUCTURE_TYPE_DESCRIPTOR_SET_LAYOUT_CREATE_INFO),
            33 => Some(VkStructureType::VK_STRUCTURE_TYPE_DESCRIPTOR_POOL_CREATE_INFO),
            34 => Some(VkStructureType::VK_STRUCTURE_TYPE_DESCRIPTOR_SET_ALLOCATE_INFO),
            35 => Some(VkStructureType::VK_STRUCTURE_TYPE_WRITE_DESCRIPTOR_SET),
            36 => Some(VkStructureType::VK_STRUCTURE_TYPE_COPY_DESCRIPTOR_SET),
            37 => Some(VkStructureType::VK_STRUCTURE_TYPE_FRAMEBUFFER_CREATE_INFO),
            38 => Some(VkStructureType::VK_STRUCTURE_TYPE_RENDER_PASS_CREATE_INFO),
            39 => Some(VkStructureType::VK_STRUCTURE_TYPE_COMMAND_POOL_CREATE_INFO),
            40 => Some(VkStructureType::VK_STRUCTURE_TYPE_COMMAND_BUFFER_ALLOCATE_INFO),
            41 => Some(VkStructureType::VK_STRUCTURE_TYPE_COMMAND_BUFFER_INHERITANCE_INFO),
            42 => Some(VkStructureType::VK_STRUCTURE_TYPE_COMMAND_BUFFER_BEGIN_INFO),
            43 => Some(VkStructureType::VK_STRUCTURE_TYPE_RENDER_PASS_BEGIN_INFO),
            44 => Some(VkStructureType::VK_STRUCTURE_TYPE_BUFFER_MEMORY_BARRIER),
            45 => Some(VkStructureType::VK_STRUCTURE_TYPE_IMAGE_MEMORY_BARRIER),
            46 => Some(VkStructureType::VK_STRUCTURE_TYPE_MEMORY_BARRIER),
            47 => Some(VkStructureType::VK_STRUCTURE_TYPE_LOADER_INSTANCE_CREATE_INFO),
            48 => Some(VkStructureType::VK_STRUCTURE_TYPE_LOADER_DEVICE_CREATE_INFO),
            49 => Some(VkStructureType::VK_STRUCTURE_TYPE_RANGE_SIZE),
            1000001000 => Some(VkStructureType::VK_STRUCTURE_TYPE_SWAPCHAIN_CREATE_INFO_KHR),
            1000001001 => Some(VkStructureType::VK_STRUCTURE_TYPE_PRESENT_INFO_KHR),
            1000002000 => Some(VkStructureType::VK_STRUCTURE_TYPE_DISPLAY_MODE_CREATE_INFO_KHR),
            1000002001 => Some(VkStructureType::VK_STRUCTURE_TYPE_DISPLAY_SURFACE_CREATE_INFO_KHR),
            1000003000 => Some(VkStructureType::VK_STRUCTURE_TYPE_DISPLAY_PRESENT_INFO_KHR),
            1000004000 => Some(VkStructureType::VK_STRUCTURE_TYPE_XLIB_SURFACE_CREATE_INFO_KHR),
            1000005000 => Some(VkStructureType::VK_STRUCTURE_TYPE_XCB_SURFACE_CREATE_INFO_KHR),
            1000006000 => Some(VkStructureType::VK_STRUCTURE_TYPE_WAYLAND_SURFACE_CREATE_INFO_KHR),
            1000007000 => Some(VkStructureType::VK_STRUCTURE_TYPE_MIR_SURFACE_CREATE_INFO_KHR),
            1000008000 => Some(VkStructureType::VK_STRUCTURE_TYPE_ANDROID_SURFACE_CREATE_INFO_KHR),
            1000009000 => Some(VkStructureType::VK_STRUCTURE_TYPE_WIN32_SURFACE_CREATE_INFO_KHR),
            1000011000 => Some(VkStructureType::VK_STRUCTURE_TYPE_DEBUG_REPORT_CALLBACK_CREATE_INFO_EXT),
            1000018000 => Some(VkStructureType::VK_STRUCTURE_TYPE_PIPELINE_RASTERIZATION_STATE_RASTERIZATION_ORDER_AMD),
            1000022000 => Some(VkStructureType::VK_STRUCTURE_TYPE_DEBUG_MARKER_OBJECT_NAME_INFO_EXT),
            1000022001 => Some(VkStructureType::VK_STRUCTURE_TYPE_DEBUG_MARKER_OBJECT_TAG_INFO_EXT),
            1000022002 => Some(VkStructureType::VK_STRUCTURE_TYPE_DEBUG_MARKER_MARKER_INFO_EXT),
            1000026000 => Some(VkStructureType::VK_STRUCTURE_TYPE_DEDICATED_ALLOCATION_IMAGE_CREATE_INFO_NV),
            1000026001 => Some(VkStructureType::VK_STRUCTURE_TYPE_DEDICATED_ALLOCATION_BUFFER_CREATE_INFO_NV),
            1000026002 => Some(VkStructureType::VK_STRUCTURE_TYPE_DEDICATED_ALLOCATION_MEMORY_ALLOCATE_INFO_NV),
            1000053000 => Some(VkStructureType::VK_STRUCTURE_TYPE_RENDER_PASS_MULTIVIEW_CREATE_INFO_KHX),
            1000053001 => Some(VkStructureType::VK_STRUCTURE_TYPE_PHYSICAL_DEVICE_MULTIVIEW_FEATURES_KHX),
            1000053002 => Some(VkStructureType::VK_STRUCTURE_TYPE_PHYSICAL_DEVICE_MULTIVIEW_PROPERTIES_KHX),
            1000056000 => Some(VkStructureType::VK_STRUCTURE_TYPE_EXTERNAL_MEMORY_IMAGE_CREATE_INFO_NV),
            1000056001 => Some(VkStructureType::VK_STRUCTURE_TYPE_EXPORT_MEMORY_ALLOCATE_INFO_NV),
            1000057000 => Some(VkStructureType::VK_STRUCTURE_TYPE_IMPORT_MEMORY_WIN32_HANDLE_INFO_NV),
            1000057001 => Some(VkStructureType::VK_STRUCTURE_TYPE_EXPORT_MEMORY_WIN32_HANDLE_INFO_NV),
            1000058000 => Some(VkStructureType::VK_STRUCTURE_TYPE_WIN32_KEYED_MUTEX_ACQUIRE_RELEASE_INFO_NV),
            1000059000 => Some(VkStructureType::VK_STRUCTURE_TYPE_PHYSICAL_DEVICE_FEATURES_2_KHR),
            1000059001 => Some(VkStructureType::VK_STRUCTURE_TYPE_PHYSICAL_DEVICE_PROPERTIES_2_KHR),
            1000059002 => Some(VkStructureType::VK_STRUCTURE_TYPE_FORMAT_PROPERTIES_2_KHR),
            1000059003 => Some(VkStructureType::VK_STRUCTURE_TYPE_IMAGE_FORMAT_PROPERTIES_2_KHR),
            1000059004 => Some(VkStructureType::VK_STRUCTURE_TYPE_PHYSICAL_DEVICE_IMAGE_FORMAT_INFO_2_KHR),
            1000059005 => Some(VkStructureType::VK_STRUCTURE_TYPE_QUEUE_FAMILY_PROPERTIES_2_KHR),
            1000059006 => Some(VkStructureType::VK_STRUCTURE_TYPE_PHYSICAL_DEVICE_MEMORY_PROPERTIES_2_KHR),
            1000059007 => Some(VkStructureType::VK_STRUCTURE_TYPE_SPARSE_IMAGE_FORMAT_PROPERTIES_2_KHR),
            1000059008 => Some(VkStructureType::VK_STRUCTURE_TYPE_PHYSICAL_DEVICE_SPARSE_IMAGE_FORMAT_INFO_2_KHR),
            1000060000 => Some(VkStructureType::VK_STRUCTURE_TYPE_MEMORY_ALLOCATE_FLAGS_INFO_KHX),
            1000060001 => Some(VkStructureType::VK_STRUCTURE_TYPE_BIND_BUFFER_MEMORY_INFO_KHX),
            1000060002 => Some(VkStructureType::VK_STRUCTURE_TYPE_BIND_IMAGE_MEMORY_INFO_KHX),
            1000060003 => Some(VkStructureType::VK_STRUCTURE_TYPE_DEVICE_GROUP_RENDER_PASS_BEGIN_INFO_KHX),
            1000060004 => Some(VkStructureType::VK_STRUCTURE_TYPE_DEVICE_GROUP_COMMAND_BUFFER_BEGIN_INFO_KHX),
            1000060005 => Some(VkStructureType::VK_STRUCTURE_TYPE_DEVICE_GROUP_SUBMIT_INFO_KHX),
            1000060006 => Some(VkStructureType::VK_STRUCTURE_TYPE_DEVICE_GROUP_BIND_SPARSE_INFO_KHX),
            1000060007 => Some(VkStructureType::VK_STRUCTURE_TYPE_DEVICE_GROUP_PRESENT_CAPABILITIES_KHX),
            1000060008 => Some(VkStructureType::VK_STRUCTURE_TYPE_IMAGE_SWAPCHAIN_CREATE_INFO_KHX),
            1000060009 => Some(VkStructureType::VK_STRUCTURE_TYPE_BIND_IMAGE_MEMORY_SWAPCHAIN_INFO_KHX),
            1000060010 => Some(VkStructureType::VK_STRUCTURE_TYPE_ACQUIRE_NEXT_IMAGE_INFO_KHX),
            1000060011 => Some(VkStructureType::VK_STRUCTURE_TYPE_DEVICE_GROUP_PRESENT_INFO_KHX),
            1000060012 => Some(VkStructureType::VK_STRUCTURE_TYPE_DEVICE_GROUP_SWAPCHAIN_CREATE_INFO_KHX),
            1000061000 => Some(VkStructureType::VK_STRUCTURE_TYPE_VALIDATION_FLAGS_EXT),
            1000062000 => Some(VkStructureType::VK_STRUCTURE_TYPE_VI_SURFACE_CREATE_INFO_NN),
            1000070000 => Some(VkStructureType::VK_STRUCTURE_TYPE_PHYSICAL_DEVICE_GROUP_PROPERTIES_KHX),
            1000070001 => Some(VkStructureType::VK_STRUCTURE_TYPE_DEVICE_GROUP_DEVICE_CREATE_INFO_KHX),
            1000071000 => Some(VkStructureType::VK_STRUCTURE_TYPE_PHYSICAL_DEVICE_EXTERNAL_IMAGE_FORMAT_INFO_KHX),
            1000071001 => Some(VkStructureType::VK_STRUCTURE_TYPE_EXTERNAL_IMAGE_FORMAT_PROPERTIES_KHX),
            1000071002 => Some(VkStructureType::VK_STRUCTURE_TYPE_PHYSICAL_DEVICE_EXTERNAL_BUFFER_INFO_KHX),
            1000071003 => Some(VkStructureType::VK_STRUCTURE_TYPE_EXTERNAL_BUFFER_PROPERTIES_KHX),
            1000071004 => Some(VkStructureType::VK_STRUCTURE_TYPE_PHYSICAL_DEVICE_ID_PROPERTIES_KHX),
            1000071005 => Some(VkStructureType::VK_STRUCTURE_TYPE_PHYSICAL_DEVICE_PROPERTIES_2_KHX),
            1000071006 => Some(VkStructureType::VK_STRUCTURE_TYPE_IMAGE_FORMAT_PROPERTIES_2_KHX),
            1000071007 => Some(VkStructureType::VK_STRUCTURE_TYPE_PHYSICAL_DEVICE_IMAGE_FORMAT_INFO_2_KHX),
            1000072000 => Some(VkStructureType::VK_STRUCTURE_TYPE_EXTERNAL_MEMORY_BUFFER_CREATE_INFO_KHX),
            1000072001 => Some(VkStructureType::VK_STRUCTURE_TYPE_EXTERNAL_MEMORY_IMAGE_CREATE_INFO_KHX),
            1000072002 => Some(VkStructureType::VK_STRUCTURE_TYPE_EXPORT_MEMORY_ALLOCATE_INFO_KHX),
            1000073000 => Some(VkStructureType::VK_STRUCTURE_TYPE_IMPORT_MEMORY_WIN32_HANDLE_INFO_KHX),
            1000073001 => Some(VkStructureType::VK_STRUCTURE_TYPE_EXPORT_MEMORY_WIN32_HANDLE_INFO_KHX),
            1000073002 => Some(VkStructureType::VK_STRUCTURE_TYPE_MEMORY_WIN32_HANDLE_PROPERTIES_KHX),
            1000074000 => Some(VkStructureType::VK_STRUCTURE_TYPE_IMPORT_MEMORY_FD_INFO_KHX),
            1000074001 => Some(VkStructureType::VK_STRUCTURE_TYPE_MEMORY_FD_PROPERTIES_KHX),
            1000075000 => Some(VkStructureType::VK_STRUCTURE_TYPE_WIN32_KEYED_MUTEX_ACQUIRE_RELEASE_INFO_KHX),
            1000076000 => Some(VkStructureType::VK_STRUCTURE_TYPE_PHYSICAL_DEVICE_EXTERNAL_SEMAPHORE_INFO_KHX),
            1000076001 => Some(VkStructureType::VK_STRUCTURE_TYPE_EXTERNAL_SEMAPHORE_PROPERTIES_KHX),
            1000077000 => Some(VkStructureType::VK_STRUCTURE_TYPE_EXPORT_SEMAPHORE_CREATE_INFO_KHX),
            1000078000 => Some(VkStructureType::VK_STRUCTURE_TYPE_IMPORT_SEMAPHORE_WIN32_HANDLE_INFO_KHX),
            1000078001 => Some(VkStructureType::VK_STRUCTURE_TYPE_EXPORT_SEMAPHORE_WIN32_HANDLE_INFO_KHX),
            1000078002 => Some(VkStructureType::VK_STRUCTURE_TYPE_D3D12_FENCE_SUBMIT_INFO_KHX),
            1000079000 => Some(VkStructureType::VK_STRUCTURE_TYPE_IMPORT_SEMAPHORE_FD_INFO_KHX),
            1000080000 => Some(VkStructureType::VK_STRUCTURE_TYPE_PHYSICAL_DEVICE_PUSH_DESCRIPTOR_PROPERTIES_KHR),
            1000085000 => Some(VkStructureType::VK_STRUCTURE_TYPE_DESCRIPTOR_UPDATE_TEMPLATE_CREATE_INFO_KHR),
            1000086000 => Some(VkStructureType::VK_STRUCTURE_TYPE_OBJECT_TABLE_CREATE_INFO_NVX),
            1000086001 => Some(VkStructureType::VK_STRUCTURE_TYPE_INDIRECT_COMMANDS_LAYOUT_CREATE_INFO_NVX),
            1000086002 => Some(VkStructureType::VK_STRUCTURE_TYPE_CMD_PROCESS_COMMANDS_INFO_NVX),
            1000086003 => Some(VkStructureType::VK_STRUCTURE_TYPE_CMD_RESERVE_SPACE_FOR_COMMANDS_INFO_NVX),
            1000086004 => Some(VkStructureType::VK_STRUCTURE_TYPE_DEVICE_GENERATED_COMMANDS_LIMITS_NVX),
            1000086005 => Some(VkStructureType::VK_STRUCTURE_TYPE_DEVICE_GENERATED_COMMANDS_FEATURES_NVX),
            1000087000 => Some(VkStructureType::VK_STRUCTURE_TYPE_PIPELINE_VIEWPORT_W_SCALING_STATE_CREATE_INFO_NV),
            1000090000 => Some(VkStructureType::VK_STRUCTURE_TYPE_SURFACE_CAPABILITIES2_EXT),
            1000091000 => Some(VkStructureType::VK_STRUCTURE_TYPE_DISPLAY_POWER_INFO_EXT),
            1000091001 => Some(VkStructureType::VK_STRUCTURE_TYPE_DEVICE_EVENT_INFO_EXT),
            1000091002 => Some(VkStructureType::VK_STRUCTURE_TYPE_DISPLAY_EVENT_INFO_EXT),
            1000091003 => Some(VkStructureType::VK_STRUCTURE_TYPE_SWAPCHAIN_COUNTER_CREATE_INFO_EXT),
            1000097000 => Some(VkStructureType::VK_STRUCTURE_TYPE_PHYSICAL_DEVICE_MULTIVIEW_PER_VIEW_ATTRIBUTES_PROPERTIES_NVX),
            1000098000 => Some(VkStructureType::VK_STRUCTURE_TYPE_PIPELINE_VIEWPORT_SWIZZLE_STATE_CREATE_INFO_NV),
            1000099000 => Some(VkStructureType::VK_STRUCTURE_TYPE_PHYSICAL_DEVICE_DISCARD_RECTANGLE_PROPERTIES_EXT),
            1000099001 => Some(VkStructureType::VK_STRUCTURE_TYPE_PIPELINE_DISCARD_RECTANGLE_STATE_CREATE_INFO_EXT),
            1000122000 => Some(VkStructureType::VK_STRUCTURE_TYPE_IOS_SURFACE_CREATE_INFO_MVK),
            1000123000 => Some(VkStructureType::VK_STRUCTURE_TYPE_MACOS_SURFACE_CREATE_INFO_MVK),
            1000248000 => Some(VkStructureType::VK_STRUCTURE_TYPE_METAL_SURFACE_CREATE_INFO_EXT),
            1000163000 => Some(VkStructureType::VK_STRUCTURE_TYPE_PHYSICAL_DEVICE_PORTABILITY_SUBSET_FEATURES_EXTX),
            1000163001 => Some(VkStructureType::VK_STRUCTURE_TYPE_PHYSICAL_DEVICE_PORTABILITY_SUBSET_PROPERTIES_EXTX),
            100163002 => Some(VkStructureType::VK_STRUCTURE_TYPE_PHYSICAL_DEVICE_IMAGE_VIEW_SUPPORT_EXTX),
            2147483647 => Some(VkStructureType::VK_STRUCTURE_TYPE_MAX_ENUM),
            _ => None,
        }
    }

    /// Reading back the value of an enumerant gives the enumerant.
    pub proof fn lemma_value_roundtrip(self)
        ensures
            Self::from_value(self.value()) == Some(self),
    {
    }
}

#[derive(Clone, Copy, Debug, PartialEq, Eq, Hash, Structural)]
pub enum VkSystemAllocationScope {
    VK_SYSTEM_ALLOCATION_SCOPE_COMMAND,
    VK_SYSTEM_ALLOCATION_SCOPE_OBJECT,
    VK_SYSTEM_ALLOCATION_SCOPE_CACHE,
    VK_SYSTEM_ALLOCATION_SCOPE_DEVICE,
    VK_SYSTEM_ALLOCATION_SCOPE_INSTANCE,
    VK_SYSTEM_ALLOCATION_SCOPE_RANGE_SIZE,
    VK_SYSTEM_ALLOCATION_SCOPE_MAX_ENUM,
}

impl VkSystemAllocationScope {
    /// The numeric value that the Vulkan API gives this enumerant.
    pub open spec fn value(self) -> u32 {
        match self {
            VkSystemAllocationScope::VK_SYSTEM_ALLOCATION_SCOPE_COMMAND => 0,
            VkSystemAllocationScope::VK_SYSTEM_ALLOCATION_SCOPE_OBJECT => 1,
            VkSystemAllocationScope::VK_SYSTEM_ALLOCATION_SCOPE_CACHE => 2,
            VkSystemAllocationScope::VK_SYSTEM_ALLOCATION_SCOPE_DEVICE => 3,
            VkSystemAllocationScope::VK_SYSTEM_ALLOCATION_SCOPE_INSTANCE => 4,
            VkSystemAllocationScope::VK_SYSTEM_ALLOCATION_SCOPE_RANGE_SIZE => 5,
            VkSystemAllocationScope::VK_SYSTEM_ALLOCATION_SCOPE_MAX_ENUM => 2147483647,
        }
    }

    /// The enumerant whose Vulkan value is `raw`, if there is one.
    pub open spec fn from_value(raw: u32) -> Option<Self> {
        match raw {
            0 => Some(VkSystemAllocationScope::VK_SYSTEM_ALLOCATION_SCOPE_COMMAND),
            1 => Some(VkSystemAllocationScope::VK_SYSTEM_ALLOCATION_SCOPE_OBJECT),
            2 => Some(VkSystemAllocationScope::VK_SYSTEM_ALLOCATION_SCOPE_CACHE),
            3 => Some(VkSystemAllocationScope::VK_SYSTEM_ALLOCATION_SCOPE_DEVICE),
            4 => Some(VkSystemAllocationScope::VK_SYSTEM_ALLOCATION_SCOPE_INSTANCE),
            5 => Some(VkSystemAllocationScope::VK_SYSTEM_ALLOCATION_SCOPE_RANGE_SIZE),
            2147483647 => Some(VkSystemAllocationScope::VK_SYSTEM_ALLOCATION_SCOPE_MAX_ENUM),
            _ => None,
        }
    }

    pub fn as_raw(self) -> (r: u32)
        ensures
            r == self.value(),
    {
        match self {
            VkSystemAllocationScope::VK_SYSTEM_ALLOCATION_SCOPE_COMMAND => 0,
            VkSystemAllocationScope::VK_SYSTEM_ALLOCATION_SCOPE_OBJECT => 1,
            VkSystemAllocationScope::VK_SYSTEM_ALLOCATION_SCOPE_CACHE => 2,
            VkSystemAllocationScope::VK_SYSTEM_ALLOCATION_SCOPE_DEVICE => 3,
            VkSystemAllocationScope::VK_SYSTEM_ALLOCATION_SCOPE_INSTANCE => 4,
            VkSystemAllocationScope::VK_SYSTEM_ALLOCATION_SCOPE_RANGE_SIZE => 5,
            VkSystemAllocationScope::VK_SYSTEM_ALLOCATION_SCOPE_MAX_ENUM => 2147483647,
        }
    }

    pub fn from_raw(raw: u32) -> (r: Option<Self>)
        ensures
            r == Self::from_value(raw),
    {
        match raw {
            0 => Some(VkSystemAllocationScope::VK_SYSTEM_ALLOCATION_SCOPE_COMMAND),
            1 => Some(VkSystemAllocationScope::VK_SYSTEM_ALLOCATION_SCOPE_OBJECT),
            2 => Some(VkSystemAllocationScope::VK_SYSTEM_ALLOCATION_SCOPE_CACHE),
            3 => Some(VkSystemAllocationScope::VK_SYSTEM_ALLOCATION_SCOPE_DEVICE),
            4 => Some(VkSystemAllocationScope::VK_SYSTEM_ALLOCATION_SCOPE_INSTANCE),
            5 => Some(VkSystemAllocationScope::VK_SYSTEM_ALLOCATION_SCOPE_RANGE_SIZE),
            2147483647 => Some(VkSystemAllocationScope::VK_SYSTEM_ALLOCATION_SCOPE_MAX_ENUM),
            _ => None,
        }
    }

    /// Reading back the value of an enumerant gives the enumerant.
    pub proof fn lemma_value_roundtrip(self)
        ensures
            Self::from_value(self.value()) == Some(self),
    {
    }
}

#[derive(Clone, Copy, Debug, PartialEq, Eq, Hash, Structural)]
pub enum VkInternalAllocationType {
    VK_INTERNAL_ALLOCATION_TYPE_EXECUTABLE,
    VK_INTERNAL_ALLOCATION_TYPE_RANGE_SIZE,
    VK_INTERNAL_ALLOCATION_TYPE_MAX_ENUM,
}

impl VkInternalAllocationType {
    /// The numeric value that the Vulkan API gives this enumerant.
    pub open spec fn value(self) -> u32 {
        match self {
            VkInternalAllocationType::VK_INTERNAL_ALLOCATION_TYPE_EXECUTABLE => 0,
            VkInternalAllocationType::VK_INTERNAL_ALLOCATION_TYPE_RANGE_SIZE => 1,
            VkInternalAllocationType::VK_INTERNAL_ALLOCATION_TYPE_MAX_ENUM => 2147483647,
        }
    }

    /// The enumerant whose Vulkan value is `raw`, if there is one.
    pub open spec fn from_value(raw: u32) -> Option<Self> {
        match raw {
            0 => Some(VkInternalAllocationType::VK_INTERNAL_ALLOCATION_TYPE_EXECUTABLE),
            1 => Some(VkInternalAllocationType::VK_INTERNAL_ALLOCATION_TYPE_RANGE_SIZE),
            2147483647 => Some(VkInternalAllocationType::VK_INTERNAL_ALLOCATION_TYPE_MAX_ENUM),
            _ => None,
        }
    }

    pub fn as_raw(self) -> (r: u32)
        ensures
            r == self.value(),
    {
        match self {
            VkInternalAllocationType::VK_INTERNAL_ALLOCATION_TYPE_EXECUTABLE => 0,
            VkInternalAllocationType::VK_INTERNAL_ALLOCATION_TYPE_RANGE_SIZE => 1,
            VkInternalAllocationType::VK_INTERNAL_ALLOCATION_TYPE_MAX_ENUM => 2147483647,
        }
    }

    pub fn from_raw(raw: u32) -> (r: Option<Self>)
        ensures
            r == Self::from_value(raw),
    {
        match raw {
            0 => Some(VkInternalAllocationType::VK_INTERNAL_ALLOCATION_TYPE_EXECUTABLE),
            1 => Some(VkInternalAllocationType::VK_INTERNAL_ALLOCATION_TYPE_RANGE_SIZE),
            2147483647 => Some(VkInternalAllocationType::VK_INTERNAL_ALLOCATION_TYPE_MAX_ENUM),
            _ => None,
        }
    }

    /// Reading back the value of an enumerant gives the enumerant.
    pub proof fn lemma_value_roundtrip(self)
        ensures
            Self::from_value(self.value()) == Some(self),
    {
    }
}

#[derive(Clone, Copy, Debug, PartialEq, Eq, Hash, Structural)]
pub enum VkFormat {
    VK_FORMAT_UNDEFINED,
    VK_FORMAT_R4G4_UNORM_PACK8,
    VK_FORMAT_R4G4B4A4_UNORM_PACK16,
    VK_FORMAT_B4G4R4A4_UNORM_PACK16,
    VK_FORMAT_R5G6B5_UNORM_PACK16,
    VK_FORMAT_B5G6R5_UNORM_PACK16,
    VK_FORMAT_R5G5B5A1_UNORM_PACK16,
    VK_FORMAT_B5G5R5A1_UNORM_PACK16,
    VK_FORMAT_A1R5G5B5_UNORM_PACK16,
    VK_FORMAT_R8_UNORM,
    VK_FORMAT_R8_SNORM,
    VK_FORMAT_R8_USCALED,
    VK_FORMAT_R8_SSCALED,
    VK_FORMAT_R8_UINT,
    VK_FORMAT_R8_SINT,
    VK_FORMAT_R8_SRGB,
    VK_FORMAT_R8G8_UNORM,
    VK_FORMAT_R8G8_SNORM,
    VK_FORMAT_R8G8_USCALED,
    VK_FORMAT_R8G8_SSCALED,
    VK_FORMAT_R8G8_UINT,
    VK_FORMAT_R8G8_SINT,
    VK_FORMAT_R8G8_SRGB,
    VK_FORMAT_R8G8B8_UNORM,
    VK_FORMAT_R8G8B8_SNORM,
    VK_FORMAT_R8G8B8_USCALED,
    VK_FORMAT_R8G8B8_SSCALED,
    VK_FORMAT_R8G8B8_UINT,
    VK_FORMAT_R8G8B8_SINT,
    VK_FORMAT_R8G8B8_SRGB,
    VK_FORMAT_B8G8R8_UNORM,
    VK_FORMAT_B8G8R8_SNORM,
    VK_FORMAT_B8G8R8_USCALED,
    VK_FORMAT_B8G8R8_SSCALED,
    VK_FORMAT_B8G8R8_UINT,
    VK_FORMAT_B8G8R8_SINT,
    VK_FORMAT_B8G8R8_SRGB,
    VK_FORMAT_R8G8B8A8_UNORM,
    VK_FORMAT_R8G8B8A8_SNORM,
    VK_FORMAT_R8G8B8A8_USCALED,
    VK_FORMAT_R8G8B8A8_SSCALED,
    VK_FORMAT_R8G8B8A8_UINT,
    VK_FORMAT_R8G8B8A8_SINT,
    VK_FORMAT_R8G8B8A8_SRGB,
    VK_FORMAT_B8G8R8A8_UNORM,
    VK_FORMAT_B8G8R8A8_SNORM,
    VK_FORMAT_B8G8R8A8_USCALED,
    VK_FORMAT_B8G8R8A8_SSCALED,
    VK_FORMAT_B8G8R8A8_UINT,
    VK_FORMAT_B8G8R8A8_SINT,
    VK_FORMAT_B8G8R8A8_SRGB,
    VK_FORMAT_A8B8G8R8_UNORM_PACK32,
    VK_FORMAT_A8B8G8R8_SNORM_PACK32,
    VK_FORMAT_A8B8G8R8_USCALED_PACK32,
    VK_FORMAT_A8B8G8R8_SSCALED_PACK32,
    VK_FORMAT_A8B8G8R8_UINT_PACK32,
    VK_FORMAT_A8B8G8R8_SINT_PACK32,
    VK_FORMAT_A8B8G8R8_SRGB_PACK32,
    VK_FORMAT_A2R10G10B10_UNORM_PACK32,
    VK_FORMAT_A2R10G10B10_SNORM_PACK32,
    VK_FORMAT_A2R10G10B10_USCALED_PACK32,
    VK_FORMAT_A2R10G10B10_SSCALED_PACK32,
    VK_FORMAT_A2R10G10B10_UINT_PACK32,
    VK_FORMAT_A2R10G10B10_SINT_PACK32,
    VK_FORMAT_A2B10G10R10_UNORM_PACK32,
    VK_FORMAT_A2B10G10R10_SNORM_PACK32,
    VK_FORMAT_A2B10G10R10_USCALED_PACK32,
    VK_FORMAT_A2B10G10R10_SSCALED_PACK32,
    VK_FORMAT_A2B10G10R10_UINT_PACK32,
    VK_FORMAT_A2B10G10R10_SINT_PACK32,
    VK_FORMAT_R16_UNORM,
    VK_FORMAT_R16_SNORM,
    VK_FORMAT_R16_USCALED,
    VK_FORMAT_R16_SSCALED,
    VK_FORMAT_R16_UINT,
    VK_FORMAT_R16_SINT,
    VK_FORMAT_R16_SFLOAT,
    VK_FORMAT_R16G16_UNORM,
    VK_FORMAT_R16G16_SNORM,
    VK_FORMAT_R16G16_USCALED,
    VK_FORMAT_R16G16_SSCALED,
    VK_FORMAT_R16G16_UINT,
    VK_FORMAT_R16G16_SINT,
    VK_FORMAT_R16G16_SFLOAT,
    VK_FORMAT_R16G16B16_UNORM,
    VK_FORMAT_R16G16B16_SNORM,
    VK_FORMAT_R16G16B16_USCALED,
    VK_FORMAT_R16G16B16_SSCALED,
    VK_FORMAT_R16G16B16_UINT,
    VK_FORMAT_R16G16B16_SINT,
    VK_FORMAT_R16G16B16_SFLOAT,
    VK_FORMAT_R16G16B16A16_UNORM,
    VK_FORMAT_R16G16B16A16_SNORM,
    VK_FORMAT_R16G16B16A16_USCALED,
    VK_FORMAT_R16G16B16A16_SSCALED,
    VK_FORMAT_R16G16B16A16_UINT,
    VK_FORMAT_R16G16B16A16_SINT,
    VK_FORMAT_R16G16B16A16_SFLOAT,
    VK_FORMAT_R32_UINT,
    VK_FORMAT_R32_SINT,
    VK_FORMAT_R32_SFLOAT,
    VK_FORMAT_R32G32_UINT,
    VK_FORMAT_R32G32_SINT,
    VK_FORMAT_R32G32_SFLOAT,
    VK_FORMAT_R32G32B32_UINT,
    VK_FORMAT_R32G32B32_SINT,
    VK_FORMAT_R32G32B32_SFLOAT,
    VK_FORMAT_R32G32B32A32_UINT,
    VK_FORMAT_R32G32B32A32_SINT,
    VK_FORMAT_R32G32B32A32_SFLOAT,
    VK_FORMAT_R64_UINT,
    VK_FORMAT_R64_SINT,
    VK_FORMAT_R64_SFLOAT,
    VK_FORMAT_R64G64_UINT,
    VK_FORMAT_R64G64_SINT,
    VK_FORMAT_R64G64_SFLOAT,
    VK_FORMAT_R64G64B64_UINT,
    VK_FORMAT_R64G64B64_SINT,
    VK_FORMAT_R64G64B64_SFLOAT,
    VK_FORMAT_R64G64B64A64_UINT,
    VK_FORMAT_R64G64B64A64_SINT,
    VK_FORMAT_R64G64B64A64_SFLOAT,
    VK_FORMAT_B10G11R11_UFLOAT_PACK32,
    VK_FORMAT_E5B9G9R9_UFLOAT_PACK32,
    VK_FORMAT_D16_UNORM,
    VK_FORMAT_X8_D24_UNORM_PACK32,
    VK_FORMAT_D32_SFLOAT,
    VK_FORMAT_S8_UINT,
    VK_FORMAT_D16_UNORM_S8_UINT,
    VK_FORMAT_D24_UNORM_S8_UINT,
    VK_FORMAT_D32_SFLOAT_S8_UINT,
    VK_FORMAT_BC1_RGB_UNORM_BLOCK,
    VK_FORMAT_BC1_RGB_SRGB_BLOCK,
    VK_FORMAT_BC1_RGBA_UNORM_BLOCK,
    VK_FORMAT_BC1_RGBA_SRGB_BLOCK,
    VK_FORMAT_BC2_UNORM_BLOCK,
    VK_FORMAT_BC2_SRGB_BLOCK,
    VK_FORMAT_BC3_UNORM_BLOCK,
    VK_FORMAT_BC3_SRGB_BLOCK,
    VK_FORMAT_BC4_UNORM_BLOCK,
    VK_FORMAT_BC4_SNORM_BLOCK,
    VK_FORMAT_BC5_UNORM_BLOCK,
    VK_FORMAT_BC5_SNORM_BLOCK,
    VK_FORMAT_BC6H_UFLOAT_BLOCK,
    VK_FORMAT_BC6H_SFLOAT_BLOCK,
    VK_FORMAT_BC7_UNORM_BLOCK,
    VK_FORMAT_BC7_SRGB_BLOCK,
    VK_FORMAT_ETC2_R8G8B8_UNORM_BLOCK,
    VK_FORMAT_ETC2_R8G8B8_SRGB_BLOCK,
    VK_FORMAT_ETC2_R8G8B8A1_UNORM_BLOCK,
    VK_FORMAT_ETC2_R8G8B8A1_SRGB_BLOCK,
    VK_FORMAT_ETC2_R8G8B8A8_UNORM_BLOCK,
    VK_FORMAT_ETC2_R8G8B8A8_SRGB_BLOCK,
    VK_FORMAT_EAC_R11_UNORM_BLOCK,
    VK_FORMAT_EAC_R11_SNORM_BLOCK,
    VK_FORMAT_EAC_R11G11_UNORM_BLOCK,
    VK_FORMAT_EAC_R11G11_SNORM_BLOCK,
    VK_FORMAT_ASTC_4x4_UNORM_BLOCK,
    VK_FORMAT_ASTC_4x4_SRGB_BLOCK,
    VK_FORMAT_ASTC_5x4_UNORM_BLOCK,
    VK_FORMAT_ASTC_5x4_SRGB_BLOCK,
    VK_FORMAT_ASTC_5x5_UNORM_BLOCK,
    VK_FORMAT_ASTC_5x5_SRGB_BLOCK,
    VK_FORMAT_ASTC_6x5_UNORM_BLOCK,
    VK_FORMAT_ASTC_6x5_SRGB_BLOCK,
    VK_FORMAT_ASTC_6x6_UNORM_BLOCK,
    VK_FORMAT_ASTC_6x6_SRGB_BLOCK,
    VK_FORMAT_ASTC_8x5_UNORM_BLOCK,
    VK_FORMAT_ASTC_8x5_SRGB_BLOCK,
    VK_FORMAT_ASTC_8x6_UNORM_BLOCK,
    VK_FORMAT_ASTC_8x6_SRGB_BLOCK,
    VK_FORMAT_ASTC_8x8_UNORM_BLOCK,
    VK_FORMAT_ASTC_8x8_SRGB_BLOCK,
    VK_FORMAT_ASTC_10x5_UNORM_BLOCK,
    VK_FORMAT_ASTC_10x5_SRGB_BLOCK,
    VK_FORMAT_ASTC_10x6_UNORM_BLOCK,
    VK_FORMAT_ASTC_10x6_SRGB_BLOCK,
    VK_FORMAT_ASTC_10x8_UNORM_BLOCK,
    VK_FORMAT_ASTC_10x8_SRGB_BLOCK,
    VK_FORMAT_ASTC_10x10_UNORM_BLOCK,
    VK_FORMAT_ASTC_10x10_SRGB_BLOCK,
    VK_FORMAT_ASTC_12x10_UNORM_BLOCK,
    VK_FORMAT_ASTC_12x10_SRGB_BLOCK,
    VK_FORMAT_ASTC_12x12_UNORM_BLOCK,
    VK_FORMAT_ASTC_12x12_SRGB_BLOCK,
    VK_FORMAT_PVRTC1_2BPP_UNORM_BLOCK_IMG,
    VK_FORMAT_PVRTC1_4BPP_UNORM_BLOCK_IMG,
    VK_FORMAT_PVRTC2_2BPP_UNORM_BLOCK_IMG,
    VK_FORMAT_PVRTC2_4BPP_UNORM_BLOCK_IMG,
    VK_FORMAT_PVRTC1_2BPP_SRGB_BLOCK_IMG,
    VK_FORMAT_PVRTC1_4BPP_SRGB_BLOCK_IMG,
    VK_FORMAT_PVRTC2_2BPP_SRGB_BLOCK_IMG,
    VK_FORMAT_PVRTC2_4BPP_SRGB_BLOCK_IMG,
    VK_FORMAT_RANGE_SIZE,
    VK_FORMAT_MAX_ENUM,
}

impl VkFormat {
    /// The numeric value that the Vulkan API gives this enumerant.
    pub open spec fn value(self) -> u32 {
        match self {
            VkFormat::VK_FORMAT_UNDEFINED => 0,
            VkFormat::VK_FORMAT_R4G4_UNORM_PACK8 => 1,
            VkFormat::VK_FORMAT_R4G4B4A4_UNORM_PACK16 => 2,
            VkFormat::VK_FORMAT_B4G4R4A4_UNORM_PACK16 => 3,
            VkFormat::VK_FORMAT_R5G6B5_UNORM_PACK16 => 4,
            VkFormat::VK_FORMAT_B5G6R5_UNORM_PACK16 => 5,
            VkFormat::VK_FORMAT_R5G5B5A1_UNORM_PACK16 => 6,
            VkFormat::VK_FORMAT_B5G5R5A1_UNORM_PACK16 => 7,
            VkFormat::VK_FORMAT_A1R5G5B5_UNORM_PACK16 => 8,
            VkFormat::VK_FORMAT_R8_UNORM => 9,
            VkFormat::VK_FORMAT_R8_SNORM => 10,
            VkFormat::VK_FORMAT_R8_USCALED => 11,
            VkFormat::VK_FORMAT_R8_SSCALED => 12,
            VkFormat::VK_FORMAT_R8_UINT => 13,
            VkFormat::VK_FORMAT_R8_SINT => 14,
            VkFormat::VK_FORMAT_R8_SRGB => 15,
            VkFormat::VK_FORMAT_R8G8_UNORM => 16,
            VkFormat::VK_FORMAT_R8G8_SNORM => 17,
            VkFormat::VK_FORMAT_R8G8_USCALED => 18,
            VkFormat::VK_FORMAT_R8G8_SSCALED => 19,
            VkFormat::VK_FORMAT_R8G8_UINT => 20,
            VkFormat::VK_FORMAT_R8G8_SINT => 21,
            VkFormat::VK_FORMAT_R8G8_SRGB => 22,
            VkFormat::VK_FORMAT_R8G8B8_UNORM => 23,
            VkFormat::VK_FORMAT_R8G8B8_SNORM => 24,
            VkFormat::VK_FORMAT_R8G8B8_USCALED => 25,
            VkFormat::VK_FORMAT_R8G8B8_SSCALED => 26,
            VkFormat::VK_FORMAT_R8G8B8_UINT => 27,
            VkFormat::VK_FORMAT_R8G8B8_SINT => 28,
            VkFormat::VK_FORMAT_R8G8B8_SRGB => 29,
            VkFormat::VK_FORMAT_B8G8R8_UNORM => 30,
            VkFormat::VK_FORMAT_B8G8R8_SNORM => 31,
            VkFormat::VK_FORMAT_B8G8R8_USCALED => 32,
            VkFormat::VK_FORMAT_B8G8R8_SSCALED => 33,
            VkFormat::VK_FORMAT_B8G8R8_UINT => 34,
            VkFormat::VK_FORMAT_B8G8R8_SINT => 35,
            VkFormat::VK_FORMAT_B8G8R8_SRGB => 36,
            VkFormat::VK_FORMAT_R8G8B8A8_UNORM => 37,
            VkFormat::VK_FORMAT_R8G8B8A8_SNORM => 38,
            VkFormat::VK_FORMAT_R8G8B8A8_USCALED => 39,
            VkFormat::VK_FORMAT_R8G8B8A8_SSCALED => 40,
            VkFormat::VK_FORMAT_R8G8B8A8_UINT => 41,
            VkFormat::VK_FORMAT_R8G8B8A8_SINT => 42,
            VkFormat::VK_FORMAT_R8G8B8A8_SRGB => 43,
            VkFormat::VK_FORMAT_B8G8R8A8_UNORM => 44,
            VkFormat::VK_FORMAT_B8G8R8A8_SNORM => 45,
            VkFormat::VK_FORMAT_B8G8R8A8_USCALED => 46,
            VkFormat::VK_FORMAT_B8G8R8A8_SSCALED => 47,
            VkFormat::VK_FORMAT_B8G8R8A8_UINT => 48,
            VkFormat::VK_FORMAT_B8G8R8A8_SINT => 49,
            VkFormat::VK_FORMAT_B8G8R8A8_SRGB => 50,
            VkFormat::VK_FORMAT_A8B8G8R8_UNORM_PACK32 => 51,
            VkFormat::VK_FORMAT_A8B8G8R8_SNORM_PACK32 => 52,
            VkFormat::VK_FORMAT_A8B8G8R8_USCALED_PACK32 => 53,
            VkFormat::VK_FORMAT_A8B8G8R8_SSCALED_PACK32 => 54,
            VkFormat::VK_FORMAT_A8B8G8R8_UINT_PACK32 => 55,
            VkFormat::VK_FORMAT_A8B8G8R8_SINT_PACK32 => 56,
            VkFormat::VK_FORMAT_A8B8G8R8_SRGB_PACK32 => 57,
            VkFormat::VK_FORMAT_A2R10G10B10_UNORM_PACK32 => 58,
            VkFormat::VK_FORMAT_A2R10G10B10_SNORM_PACK32 => 59,
            VkFormat::VK_FORMAT_A2R10G10B10_USCALED_PACK32 => 60,
            VkFormat::VK_FORMAT_A2R10G10B10_SSCALED_PACK32 => 61,
            VkFormat::VK_FORMAT_A2R10G10B10_UINT_PACK32 => 62,
            VkFormat::VK_FORMAT_A2R10G10B10_SINT_PACK32 => 63,
            VkFormat::VK_FORMAT_A2B10G10R10_UNORM_PACK32 => 64,
            VkFormat::VK_FORMAT_A2B10G10R10_SNORM_PACK32 => 65,
            VkFormat::VK_FORMAT_A2B10G10R10_USCALED_PACK32 => 66,
            VkFormat::VK_FORMAT_A2B10G10R10_SSCALED_PACK32 => 67,
            VkFormat::VK_FORMAT_A2B10G10R10_UINT_PACK32 => 68,
            VkFormat::VK_FORMAT_A2B10G10R10_SINT_PACK32 => 69,
            VkFormat::VK_FORMAT_R16_UNORM => 70,
            VkFormat::VK_FORMAT_R16_SNORM => 71,
            VkFormat::VK_FORMAT_R16_USCALED => 72,
            VkFormat::VK_FORMAT_R16_SSCALED => 73,
            VkFormat::VK_FORMAT_R16_UINT => 74,
            VkFormat::VK_FORMAT_R16_SINT => 75,
            VkFormat::VK_FORMAT_R16_SFLOAT => 76,
            VkFormat::VK_FORMAT_R16G16_UNORM => 77,
            VkFormat::VK_FORMAT_R16G16_SNORM => 78,
            VkFormat::VK_FORMAT_R16G16_USCALED => 79,
            VkFormat::VK_FORMAT_R16G16_SSCALED => 80,
            VkFormat::VK_FORMAT_R16G16_UINT => 81,
            VkFormat::VK_FORMAT_R16G16_SINT => 82,
            VkFormat::VK_FORMAT_R16G16_SFLOAT => 83,
            VkFormat::VK_FORMAT_R16G16B16_UNORM => 84,
            VkFormat::VK_FORMAT_R16G16B16_SNORM => 85,
            VkFormat::VK_FORMAT_R16G16B16_USCALED => 86,
            VkFormat::VK_FORMAT_R16G16B16_SSCALED => 87,
            VkFormat::VK_FORMAT_R16G16B16_UINT => 88,
            VkFormat::VK_FORMAT_R16G16B16_SINT => 89,
            VkFormat::VK_FORMAT_R16G16B16_SFLOAT => 90,
            VkFormat::VK_FORMAT_R16G16B16A16_UNORM => 91,
            VkFormat::VK_FORMAT_R16G16B16A16_SNORM => 92,
            VkFormat::VK_FORMAT_R16G16B16A16_USCALED => 93,
            VkFormat::VK_FORMAT_R16G16B16A16_SSCALED => 94,
            VkFormat::VK_FORMAT_R16G16B16A16_UINT => 95,
            VkFormat::VK_FORMAT_R16G16B16A16_SINT => 96,
            VkFormat::VK_FORMAT_R16G16B16A16_SFLOAT => 97,
            VkFormat::VK_FORMAT_R32_UINT => 98,
            VkFormat::VK_FORMAT_R32_SINT => 99,
            VkFormat::VK_FORMAT_R32_SFLOAT => 100,
            VkFormat::VK_FORMAT_R32G32_UINT => 101,
            VkFormat::VK_FORMAT_R32G32_SINT => 102,
            VkFormat::VK_FORMAT_R32G32_SFLOAT => 103,
            VkFormat::VK_FORMAT_R32G32B32_UINT => 104,
            VkFormat::VK_FORMAT_R32G32B32_SINT => 105,
            VkFormat::VK_FORMAT_R32G32B32_SFLOAT => 106,
            VkFormat::VK_FORMAT_R32G32B32A32_UINT => 107,
            VkFormat::VK_FORMAT_R32G32B32A32_SINT => 108,
            VkFormat::VK_FORMAT_R32G32B32A32_SFLOAT => 109,
            VkFormat::VK_FORMAT_R64_UINT => 110,
            VkFormat::VK_FORMAT_R64_SINT => 111,
            VkFormat::VK_FORMAT_R64_SFLOAT => 112,
            VkFormat::VK_FORMAT_R64G64_UINT => 113,
            VkFormat::VK_FORMAT_R64G64_SINT => 114,
            VkFormat::VK_FORMAT_R64G64_SFLOAT => 115,
            VkFormat::VK_FORMAT_R64G64B64_UINT => 116,
            VkFormat::VK_FORMAT_R64G64B64_SINT => 117,
            VkFormat::VK_FORMAT_R64G64B64_SFLOAT => 118,
            VkFormat::VK_FORMAT_R64G64B64A64_UINT => 119,
            VkFormat::VK_FORMAT_R64G64B64A64_SINT => 120,
            VkFormat::VK_FORMAT_R64G64B64A64_SFLOAT => 121,
            VkFormat::VK_FORMAT_B10G11R11_UFLOAT_PACK32 => 122,
            VkFormat::VK_FORMAT_E5B9G9R9_UFLOAT_PACK32 => 123,
            VkFormat::VK_FORMAT_D16_UNORM => 124,
            VkFormat::VK_FORMAT_X8_D24_UNORM_PACK32 => 125,
            VkFormat::VK_FORMAT_D32_SFLOAT => 126,
            VkFormat::VK_FORMAT_S8_UINT => 127,
            VkFormat::VK_FORMAT_D16_UNORM_S8_UINT => 128,
            VkFormat::VK_FORMAT_D24_UNORM_S8_UINT => 129,
            VkFormat::VK_FORMAT_D32_SFLOAT_S8_UINT => 130,
            VkFormat::VK_FORMAT_BC1_RGB_UNORM_BLOCK => 131,
            VkFormat::VK_FORMAT_BC1_RGB_SRGB_BLOCK => 132,
            VkFormat::VK_FORMAT_BC1_RGBA_UNORM_BLOCK => 133,
            VkFormat::VK_FORMAT_BC1_RGBA_SRGB_BLOCK => 134,
            VkFormat::VK_FORMAT_BC2_UNORM_BLOCK => 135,
            VkFormat::VK_FORMAT_BC2_SRGB_BLOCK => 136,
            VkFormat::VK_FORMAT_BC3_UNORM_BLOCK => 137,
            VkFormat::VK_FORMAT_BC3_SRGB_BLOCK => 138,
            VkFormat::VK_FORMAT_BC4_UNORM_BLOCK => 139,
            VkFormat::VK_FORMAT_BC4_SNORM_BLOCK => 140,
            VkFormat::VK_FORMAT_BC5_UNORM_BLOCK => 141,
            VkFormat::VK_FORMAT_BC5_SNORM_BLOCK => 142,
            VkFormat::VK_FORMAT_BC6H_UFLOAT_BLOCK => 143,
            VkFormat::VK_FORMAT_BC6H_SFLOAT_BLOCK => 144,
            VkFormat::VK_FORMAT_BC7_UNORM_BLOCK => 145,
            VkFormat::VK_FORMAT_BC7_SRGB_BLOCK => 146,
            VkFormat::VK_FORMAT_ETC2_R8G8B8_UNORM_BLOCK => 147,
            VkFormat::VK_FORMAT_ETC2_R8G8B8_SRGB_BLOCK => 148,
            VkFormat::VK_FORMAT_ETC2_R8G8B8A1_UNORM_BLOCK => 149,
            VkFormat::VK_FORMAT_ETC2_R8G8B8A1_SRGB_BLOCK => 150,
            VkFormat::VK_FORMAT_ETC2_R8G8B8A8_UNORM_BLOCK => 151,
            VkFormat::VK_FORMAT_ETC2_R8G8B8A8_SRGB_BLOCK => 152,
            VkFormat::VK_FORMAT_EAC_R11_UNORM_BLOCK => 153,
            VkFormat::VK_FORMAT_EAC_R11_SNORM_BLOCK => 154,
            VkFormat::VK_FORMAT_EAC_R11G11_UNORM_BLOCK => 155,
            VkFormat::VK_FORMAT_EAC_R11G11_SNORM_BLOCK => 156,
            VkFormat::VK_FORMAT_ASTC_4x4_UNORM_BLOCK => 157,
            VkFormat::VK_FORMAT_ASTC_4x4_SRGB_BLOCK => 158,
            VkFormat::VK_FORMAT_ASTC_5x4_UNORM_BLOCK => 159,
            VkFormat::VK_FORMAT_ASTC_5x4_SRGB_BLOCK => 160,
            VkFormat::VK_FORMAT_ASTC_5x5_UNORM_BLOCK => 161,
            VkFormat::VK_FORMAT_ASTC_5x5_SRGB_BLOCK => 162,
            VkFormat::VK_FORMAT_ASTC_6x5_UNORM_BLOCK => 163,
            VkFormat::VK_FORMAT_ASTC_6x5_SRGB_BLOCK => 164,
            VkFormat::VK_FORMAT_ASTC_6x6_UNORM_BLOCK => 165,
            VkFormat::VK_FORMAT_ASTC_6x6_SRGB_BLOCK => 166,
            VkFormat::VK_FORMAT_ASTC_8x5_UNORM_BLOCK => 167,
            VkFormat::VK_FORMAT_ASTC_8x5_SRGB_BLOCK => 168,
            VkFormat::VK_FORMAT_ASTC_8x6_UNORM_BLOCK => 169,
            VkFormat::VK_FORMAT_ASTC_8x6_SRGB_BLOCK => 170,
            VkFormat::VK_FORMAT_ASTC_8x8_UNORM_BLOCK => 171,
            VkFormat::VK_FORMAT_ASTC_8x8_SRGB_BLOCK => 172,
            VkFormat::VK_FORMAT_ASTC_10x5_UNORM_BLOCK => 173,
            VkFormat::VK_FORMAT_ASTC_10x5_SRGB_BLOCK => 174,
            VkFormat::VK_FORMAT_ASTC_10x6_UNORM_BLOCK => 175,
            VkFormat::VK_FORMAT_ASTC_10x6_SRGB_BLOCK => 176,
            VkFormat::VK_FORMAT_ASTC_10x8_UNORM_BLOCK => 177,
            VkFormat::VK_FORMAT_ASTC_10x8_SRGB_BLOCK => 178,
            VkFormat::VK_FORMAT_ASTC_10x10_UNORM_BLOCK => 179,
            VkFormat::VK_FORMAT_ASTC_10x10_SRGB_BLOCK => 180,
            VkFormat::VK_FORMAT_ASTC_12x10_UNORM_BLOCK => 181,
            VkFormat::VK_FORMAT_ASTC_12x10_SRGB_BLOCK => 182,
            VkFormat::VK_FORMAT_ASTC_12x12_UNORM_BLOCK => 183,
            VkFormat::VK_FORMAT_ASTC_12x12_SRGB_BLOCK => 184,
            VkFormat::VK_FORMAT_PVRTC1_2BPP_UNORM_BLOCK_IMG => 1000054000,
            VkFormat::VK_FORMAT_PVRTC1_4BPP_UNORM_BLOCK_IMG => 1000054001,
            VkFormat::VK_FORMAT_PVRTC2_2BPP_UNORM_BLOCK_IMG => 1000054002,
            VkFormat::VK_FORMAT_PVRTC2_4BPP_UNORM_BLOCK_IMG => 1000054003,
            VkFormat::VK_FORMAT_PVRTC1_2BPP_SRGB_BLOCK_IMG => 1000054004,
            VkFormat::VK_FORMAT_PVRTC1_4BPP_SRGB_BLOCK_IMG => 1000054005,
            VkFormat::VK_FORMAT_PVRTC2_2BPP_SRGB_BLOCK_IMG => 1000054006,
            VkFormat::VK_FORMAT_PVRTC2_4BPP_SRGB_BLOCK_IMG => 1000054007,
            VkFormat::VK_FORMAT_RANGE_SIZE => 185,
            VkFormat::VK_FORMAT_MAX_ENUM => 2147483647,
        }
    }

    /// The enumerant whose Vulkan value is `raw`, if there is one.
    pub open spec fn from_value(raw: u32) -> Option<Self> {
        match raw {
            0 => Some(VkFormat::VK_FORMAT_UNDEFINED),
            1 => Some(VkFormat::VK_FORMAT_R4G4_UNORM_PACK8),
            2 => Some(VkFormat::VK_FORMAT_R4G4B4A4_UNORM_PACK16),
            3 => Some(VkFormat::VK_FORMAT_B4G4R4A4_UNORM_PACK16),
            4 => Some(VkFormat::VK_FORMAT_R5G6B5_UNORM_PACK16),
            5 => Some(VkFormat::VK_FORMAT_B5G6R5_UNORM_PACK16),
            6 => Some(VkFormat::VK_FORMAT_R5G5B5A1_UNORM_PACK16),
            7 => Some(VkFormat::VK_FORMAT_B5G5R5A1_UNORM_PACK16),
            8 => Some(VkFormat::VK_FORMAT_A1R5G5B5_UNORM_PACK16),
            9 => Some(VkFormat::VK_FORMAT_R8_UNORM),
            10 => Some(VkFormat::VK_FORMAT_R8_SNORM),
            11 => Some(VkFormat::VK_FORMAT_R8_USCALED),
            12 => Some(VkFormat::VK_FORMAT_R8_SSCALED),
            13 => Some(VkFormat::VK_FORMAT_R8_UINT),
            14 => Some(VkFormat::VK_FORMAT_R8_SINT),
            15 => Some(VkFormat::VK_FORMAT_R8_SRGB),
            16 => Some(VkFormat::VK_FORMAT_R8G8_UNORM),
            17 => Some(VkFormat::VK_FORMAT_R8G8_SNORM),
            18 => Some(VkFormat::VK_FORMAT_R8G8_USCALED),
            19 => Some(VkFormat::VK_FORMAT_R8G8_SSCALED),
            20 => Some(VkFormat::VK_FORMAT_R8G8_UINT),
            21 => Some(VkFormat::VK_FORMAT_R8G8_SINT),
            22 => Some(VkFormat::VK_FORMAT_R8G8_SRGB),
            23 => Some(VkFormat::VK_FORMAT_R8G8B8_UNORM),
            24 => Some(VkFormat::VK_FORMAT_R8G8B8_SNORM),
            25 => Some(VkFormat::VK_FORMAT_R8G8B8_USCALED),
            26 => Some(VkFormat::VK_FORMAT_R8G8B8_SSCALED),
            27 => Some(VkFormat::VK_FORMAT_R8G8B8_UINT),
            28 => Some(VkFormat::VK_FORMAT_R8G8B8_SINT),
            29 => Some(VkFormat::VK_FORMAT_R8G8B8_SRGB),
            30 => Some(VkFormat::VK_FORMAT_B8G8R8_UNORM),
            31 => Some(VkFormat::VK_FORMAT_B8G8R8_SNORM),
            32 => Some(VkFormat::VK_FORMAT_B8G8R8_USCALED),
            33 => Some(VkFormat::VK_FORMAT_B8G8R8_SSCALED),
            34 => Some(VkFormat::VK_FORMAT_B8G8R8_UINT),
            35 => Some(VkFormat::VK_FORMAT_B8G8R8_SINT),
            36 => Some(VkFormat::VK_FORMAT_B8G8R8_SRGB),
            37 => Some(VkFormat::VK_FORMAT_R8G8B8A8_UNORM),
            38 => Some(VkFormat::VK_FORMAT_R8G8B8A8_SNORM),
            39 => Some(VkFormat::VK_FORMAT_R8G8B8A8_USCALED),
            40 => Some(VkFormat::VK_FORMAT_R8G8B8A8_SSCALED),
            41 => Some(VkFormat::VK_FORMAT_R8G8B8A8_UINT),
            42 => Some(VkFormat::VK_FORMAT_R8G8B8A8_SINT),
            43 => Some(VkFormat::VK_FORMAT_R8G8B8A8_SRGB),
            44 => Some(VkFormat::VK_FORMAT_B8G8R8A8_UNORM),
            45 => Some(VkFormat::VK_FORMAT_B8G8R8A8_SNORM),
            46 => Some(VkFormat::VK_FORMAT_B8G8R8A8_USCALED),
            47 => Some(VkFormat::VK_FORMAT_B8G8R8A8_SSCALED),
            48 => Some(VkFormat::VK_FORMAT_B8G8R8A8_UINT),
            49 => Some(VkFormat::VK_FORMAT_B8G8R8A8_SINT),
            50 => Some(VkFormat::VK_FORMAT_B8G8R8A8_SRGB),
            51 => Some(VkFormat::VK_FORMAT_A8B8G8R8_UNORM_PACK32),
            52 => Some(VkFormat::VK_FORMAT_A8B8G8R8_SNORM_PACK32),
            53 => Some(VkFormat::VK_FORMAT_A8B8G8R8_USCALED_PACK32),
            54 => Some(VkFormat::VK_FORMAT_A8B8G8R8_SSCALED_PACK32),
            55 => Some(VkFormat::VK_FORMAT_A8B8G8R8_UINT_PACK32),
            56 => Some(VkFormat::VK_FORMAT_A8B8G8R8_SINT_PACK32),
            57 => Some(VkFormat::VK_FORMAT_A8B8G8R8_SRGB_PACK32),
            58 => Some(VkFormat::VK_FORMAT_A2R10G10B10_UNORM_PACK32),
            59 => Some(VkFormat::VK_FORMAT_A2R10G10B10_SNORM_PACK32),
            60 => Some(VkFormat::VK_FORMAT_A2R10G10B10_USCALED_PACK32),
            61 => Some(VkFormat::VK_FORMAT_A2R10G10B10_SSCALED_PACK32),
            62 => Some(VkFormat::VK_FORMAT_A2R10G10B10_UINT_PACK32),
            63 => Some(VkFormat::VK_FORMAT_A2R10G10B10_SINT_PACK32),
            64 => Some(VkFormat::VK_FORMAT_A2B10G10R10_UNORM_PACK32),
            65 => Some(VkFormat::VK_FORMAT_A2B10G10R10_SNORM_PACK32),
            66 => Some(VkFormat::VK_FORMAT_A2B10G10R10_USCALED_PACK32),
            67 => Some(VkFormat::VK_FORMAT_A2B10G10R10_SSCALED_PACK32),
            68 => Some(VkFormat::VK_FORMAT_A2B10G10R10_UINT_PACK32),
            69 => Some(VkFormat::VK_FORMAT_A2B10G10R10_SINT_PACK32),
            70 => Some(VkFormat::VK_FORMAT_R16_UNORM),
            71 => Some(VkFormat::VK_FORMAT_R16_SNORM),
            72 => Some(VkFormat::VK_FORMAT_R16_USCALED),
            73 => Some(VkFormat::VK_FORMAT_R16_SSCALED),
            74 => Some(VkFormat::VK_FORMAT_R16_UINT),
            75 => Some(VkFormat::VK_FORMAT_R16_SINT),
            76 => Some(VkFormat::VK_FORMAT_R16_SFLOAT),
            77 => Some(VkFormat::VK_FORMAT_R16G16_UNORM),
            78 => Some(VkFormat::VK_FORMAT_R16G16_SNORM),
            79 => Some(VkFormat::VK_FORMAT_R16G16_USCALED),
            80 => Some(VkFormat::VK_FORMAT_R16G16_SSCALED),
            81 => Some(VkFormat::VK_FORMAT_R16G16_UINT),
            82 => Some(VkFormat::VK_FORMAT_R16G16_SINT),
            83 => Some(VkFormat::VK_FORMAT_R16G16_SFLOAT),
            84 => Some(VkFormat::VK_FORMAT_R16G16B16_UNORM),
            85 => Some(VkFormat::VK_FORMAT_R16G16B16_SNORM),
            86 => Some(VkFormat::VK_FORMAT_R16G16B16_USCALED),
            87 => Some(VkFormat::VK_FORMAT_R16G16B16_SSCALED),
            88 => Some(VkFormat::VK_FORMAT_R16G16B16_UINT),
            89 => Some(VkFormat::VK_FORMAT_R16G16B16_SINT),
            90 => Some(VkFormat::VK_FORMAT_R16G16B16_SFLOAT),
            91 => Some(VkFormat::VK_FORMAT_R16G16B16A16_UNORM),
            92 => Some(VkFormat::VK_FORMAT_R16G16B16A16_SNORM),
            93 => Some(VkFormat::VK_FORMAT_R16G16B16A16_USCALED),
            94 => Some(VkFormat::VK_FORMAT_R16G16B16A16_SSCALED),
            95 => Some(VkFormat::VK_FORMAT_R16G16B16A16_UINT),
            96 => Some(VkFormat::VK_FORMAT_R16G16B16A16_SINT),
            97 => Some(VkFormat::VK_FORMAT_R16G16B16A16_SFLOAT),
            98 => Some(VkFormat::VK_FORMAT_R32_UINT),
            99 => Some(VkFormat::VK_FORMAT_R32_SINT),
            100 => Some(VkFormat::VK_FORMAT_R32_SFLOAT),
            101 => Some(VkFormat::VK_FORMAT_R32G32_UINT),
            102 => Some(VkFormat::VK_FORMAT_R32G32_SINT),
            103 => Some(VkFormat::VK_FORMAT_R32G32_SFLOAT),
            104 => Some(VkFormat::VK_FORMAT_R32G32B32_UINT),
            105 => Some(VkFormat::VK_FORMAT_R32G32B32_SINT),
            106 => Some(VkFormat::VK_FORMAT_R32G32B32_SFLOAT),
            107 => Some(VkFormat::VK_FORMAT_R32G32B32A32_UINT),
            108 => Some(VkFormat::VK_FORMAT_R32G32B32A32_SINT),
            109 => Some(VkFormat::VK_FORMAT_R32G32B32A32_SFLOAT),
            110 => Some(VkFormat::VK_FORMAT_R64_UINT),
            111 => Some(VkFormat::VK_FORMAT_R64_SINT),
            112 => Some(VkFormat::VK_FORMAT_R64_SFLOAT),
            113 => Some(VkFormat::VK_FORMAT_R64G64_UINT),
            114 => Some(VkFormat::VK_FORMAT_R64G64_SINT),
            115 => Some(VkFormat::VK_FORMAT_R64G64_SFLOAT),
            116 => Some(VkFormat::VK_FORMAT_R64G64B64_UINT),
            117 => Some(VkFormat::VK_FORMAT_R64G64B64_SINT),
            118 => Some(VkFormat::VK_FORMAT_R64G64B64_SFLOAT),
            119 => Some(VkFormat::VK_FORMAT_R64G64B64A64_UINT),
            120 => Some(VkFormat::VK_FORMAT_R64G64B64A64_SINT),
            121 => Some(VkFormat::VK_FORMAT_R64G64B64A64_SFLOAT),
            122 => Some(VkFormat::VK_FORMAT_B10G11R11_UFLOAT_PACK32),
            123 => Some(VkFormat::VK_FORMAT_E5B9G9R9_UFLOAT_PACK32),
            124 => Some(VkFormat::VK_FORMAT_D16_UNORM),
            125 => Some(VkFormat::VK_FORMAT_X8_D24_UNORM_PACK32),
            126 => Some(VkFormat::VK_FORMAT_D32_SFLOAT),
            127 => Some(VkFormat::VK_FORMAT_S8_UINT),
            128 => Some(VkFormat::VK_FORMAT_D16_UNORM_S8_UINT),
            129 => Some(VkFormat::VK_FORMAT_D24_UNORM_S8_UINT),
            130 => Some(VkFormat::VK_FORMAT_D32_SFLOAT_S8_UINT),
            131 => Some(VkFormat::VK_FORMAT_BC1_RGB_UNORM_BLOCK),
            132 => Some(VkFormat::VK_FORMAT_BC1_RGB_SRGB_BLOCK),
            133 => Some(VkFormat::VK_FORMAT_BC1_RGBA_UNORM_BLOCK),
            134 => Some(VkFormat::VK_FORMAT_BC1_RGBA_SRGB_BLOCK),
            135 => Some(VkFormat::VK_FORMAT_BC2_UNORM_BLOCK),
            136 => Some(VkFormat::VK_FORMAT_BC2_SRGB_BLOCK),
            137 => Some(VkFormat::VK_FORMAT_BC3_UNORM_BLOCK),
            138 => Some(VkFormat::VK_FORMAT_BC3_SRGB_BLOCK),
            139 => Some(VkFormat::VK_FORMAT_BC4_UNORM_BLOCK),
            140 => Some(VkFormat::VK_FORMAT_BC4_SNORM_BLOCK),
            141 => Some(VkFormat::VK_FORMAT_BC5_UNORM_BLOCK),
            142 => Some(VkFormat::VK_FORMAT_BC5_SNORM_BLOCK),
            143 => Some(VkFormat::VK_FORMAT_BC6H_UFLOAT_BLOCK),
            144 => Some(VkFormat::VK_FORMAT_BC6H_SFLOAT_BLOCK),
            145 => Some(VkFormat::VK_FORMAT_BC7_UNORM_BLOCK),
            146 => Some(VkFormat::VK_FORMAT_BC7_SRGB_BLOCK),
            147 => Some(VkFormat::VK_FORMAT_ETC2_R8G8B8_UNORM_BLOCK),
            148 => Some(VkFormat::VK_FORMAT_ETC2_R8G8B8_SRGB_BLOCK),
            149 => Some(VkFormat::VK_FORMAT_ETC2_R8G8B8A1_UNORM_BLOCK),
            150 => Some(VkFormat::VK_FORMAT_ETC2_R8G8B8A1_SRGB_BLOCK),
            151 => Some(VkFormat::VK_FORMAT_ETC2_R8G8B8A8_UNORM_BLOCK),
            152 => Some(VkFormat::VK_FORMAT_ETC2_R8G8B8A8_SRGB_BLOCK),
            153 => Some(VkFormat::VK_FORMAT_EAC_R11_UNORM_BLOCK),
            154 => Some(VkFormat::VK_FORMAT_EAC_R11_SNORM_BLOCK),
            155 => Some(VkFormat::VK_FORMAT_EAC_R11G11_UNORM_BLOCK),
            156 => Some(VkFormat::VK_FORMAT_EAC_R11G11_SNORM_BLOCK),
            157 => Some(VkFormat::VK_FORMAT_ASTC_4x4_UNORM_BLOCK),
            158 => Some(VkFormat::VK_FORMAT_ASTC_4x4_SRGB_BLOCK),
            159 => Some(VkFormat::VK_FORMAT_ASTC_5x4_UNORM_BLOCK),
            160 => Some(VkFormat::VK_FORMAT_ASTC_5x4_SRGB_BLOCK),
            161 => Some(VkFormat::VK_FORMAT_ASTC_5x5_UNORM_BLOCK),
            162 => Some(VkFormat::VK_FORMAT_ASTC_5x5_SRGB_BLOCK),
            163 => Some(VkFormat::VK_FORMAT_ASTC_6x5_UNORM_BLOCK),
            164 => Some(VkFormat::VK_FORMAT_ASTC_6x5_SRGB_BLOCK),
            165 => Some(VkFormat::VK_FORMAT_ASTC_6x6_UNORM_BLOCK),
            166 => Some(VkFormat::VK_FORMAT_ASTC_6x6_SRGB_BLOCK),
            167 => Some(VkFormat::VK_FORMAT_ASTC_8x5_UNORM_BLOCK),
            168 => Some(VkFormat::VK_FORMAT_ASTC_8x5_SRGB_BLOCK),
            169 => Some(VkFormat::VK_FORMAT_ASTC_8x6_UNORM_BLOCK),
            170 => Some(VkFormat::VK_FORMAT_ASTC_8x6_SRGB_BLOCK),
            171 => Some(VkFormat::VK_FORMAT_ASTC_8x8_UNORM_BLOCK),
            172 => Some(VkFormat::VK_FORMAT_ASTC_8x8_SRGB_BLOCK),
            173 => Some(VkFormat::VK_FORMAT_ASTC_10x5_UNORM_BLOCK),
            174 => Some(VkFormat::VK_FORMAT_ASTC_10x5_SRGB_BLOCK),
            175 => Some(VkFormat::VK_FORMAT_ASTC_10x6_UNORM_BLOCK),
            176 => Some(VkFormat::VK_FORMAT_ASTC_10x6_SRGB_BLOCK),
            177 => Some(VkFormat::VK_FORMAT_ASTC_10x8_UNORM_BLOCK),
            178 => Some(VkFormat::VK_FORMAT_ASTC_10x8_SRGB_BLOCK),
            179 => Some(VkFormat::VK_FORMAT_ASTC_10x10_UNORM_BLOCK),
            180 => Some(VkFormat::VK_FORMAT_ASTC_10x10_SRGB_BLOCK),
            181 => Some(VkFormat::VK_FORMAT_ASTC_12x10_UNORM_BLOCK),
            182 => Some(VkFormat::VK_FORMAT_ASTC_12x10_SRGB_BLOCK),
            183 => Some(VkFormat::VK_FORMAT_ASTC_12x12_UNORM_BLOCK),
            184 => Some(VkFormat::VK_FORMAT_ASTC_12x12_SRGB_BLOCK),
            1000054000 => Some(VkFormat::VK_FORMAT_PVRTC1_2BPP_UNORM_BLOCK_IMG),
            1000054001 => Some(VkFormat::VK_FORMAT_PVRTC1_4BPP_UNORM_BLOCK_IMG),
            1000054002 => Some(VkFormat::VK_FORMAT_PVRTC2_2BPP_UNORM_BLOCK_IMG),
            1000054003 => Some(VkFormat::VK_FORMAT_PVRTC2_4BPP_UNORM_BLOCK_IMG),
            1000054004 => Some(VkFormat::VK_FORMAT_PVRTC1_2BPP_SRGB_BLOCK_IMG),
            1000054005 => Some(VkFormat::VK_FORMAT_PVRTC1_4BPP_SRGB_BLOCK_IMG),
            1000054006 => Some(VkFormat::VK_FORMAT_PVRTC2_2BPP_SRGB_BLOCK_IMG),
            1000054007 => Some(VkFormat::VK_FORMAT_PVRTC2_4BPP_SRGB_BLOCK_IMG),
            185 => Some(VkFormat::VK_FORMAT_RANGE_SIZE),
            2147483647 => Some(VkFormat::VK_FORMAT_MAX_ENUM),
            _ => None,
        }
    }

    pub fn as_raw(self) -> (r: u32)
        ensures
            r == self.value(),
    {
        match self {
            VkFormat::VK_FORMAT_UNDEFINED => 0,
            VkFormat::VK_FORMAT_R4G4_UNORM_PACK8 => 1,
            VkFormat::VK_FORMAT_R4G4B4A4_UNORM_PACK16 => 2,
            VkFormat::VK_FORMAT_B4G4R4A4_UNORM_PACK16 => 3,
            VkFormat::VK_FORMAT_R5G6B5_UNORM_PACK16 => 4,
            VkFormat::VK_FORMAT_B5G6R5_UNORM_PACK16 => 5,
            VkFormat::VK_FORMAT_R5G5B5A1_UNORM_PACK16 => 6,
            VkFormat::VK_FORMAT_B5G5R5A1_UNORM_PACK16 => 7,
            VkFormat::VK_FORMAT_A1R5G5B5_UNORM_PACK16 => 8,
            VkFormat::VK_FORMAT_R8_UNORM => 9,
            VkFormat::VK_FORMAT_R8_SNORM => 10,
            VkFormat::VK_FORMAT_R8_USCALED => 11,
            VkFormat::VK_FORMAT_R8_SSCALED => 12,
            VkFormat::VK_FORMAT_R8_UINT => 13,
            VkFormat::VK_FORMAT_R8_SINT => 14,
            VkFormat::VK_FORMAT_R8_SRGB => 15,
            VkFormat::VK_FORMAT_R8G8_UNORM => 16,
            VkFormat::VK_FORMAT_R8G8_SNORM => 17,
            VkFormat::VK_FORMAT_R8G8_USCALED => 18,
            VkFormat::VK_FORMAT_R8G8_SSCALED => 19,
            VkFormat::VK_FORMAT_R8G8_UINT => 20,
            VkFormat::VK_FORMAT_R8G8_SINT => 21,
            VkFormat::VK_FORMAT_R8G8_SRGB => 22,
            VkFormat::VK_FORMAT_R8G8B8_UNORM => 23,
            VkFormat::VK_FORMAT_R8G8B8_SNORM => 24,
            VkFormat::VK_FORMAT_R8G8B8_USCALED => 25,
            VkFormat::VK_FORMAT_R8G8B8_SSCALED => 26,
            VkFormat::VK_FORMAT_R8G8B8_UINT => 27,
            VkFormat::VK_FORMAT_R8G8B8_SINT => 28,
            VkFormat::VK_FORMAT_R8G8B8_SRGB => 29,
            VkFormat::VK_FORMAT_B8G8R8_UNORM => 30,
            VkFormat::VK_FORMAT_B8G8R8_SNORM => 31,
            VkFormat::VK_FORMAT_B8G8R8_USCALED => 32,
            VkFormat::VK_FORMAT_B8G8R8_SSCALED => 33,
            VkFormat::VK_FORMAT_B8G8R8_UINT => 34,
            VkFormat::VK_FORMAT_B8G8R8_SINT => 35,
            VkFormat::VK_FORMAT_B8G8R8_SRGB => 36,
            VkFormat::VK_FORMAT_R8G8B8A8_UNORM => 37,
            VkFormat::VK_FORMAT_R8G8B8A8_SNORM => 38,
            VkFormat::VK_FORMAT_R8G8B8A8_USCALED => 39,
            VkFormat::VK_FORMAT_R8G8B8A8_SSCALED => 40,
            VkFormat::VK_FORMAT_R8G8B8A8_UINT => 41,
            VkFormat::VK_FORMAT_R8G8B8A8_SINT => 42,
            VkFormat::VK_FORMAT_R8G8B8A8_SRGB => 43,
            VkFormat::VK_FORMAT_B8G8R8A8_UNORM => 44,
            VkFormat::VK_FORMAT_B8G8R8A8_SNORM => 45,
            VkFormat::VK_FORMAT_B8G8R8A8_USCALED => 46,
            VkFormat::VK_FORMAT_B8G8R8A8_SSCALED => 47,
            VkFormat::VK_FORMAT_B8G8R8A8_UINT => 48,
            VkFormat::VK_FORMAT_B8G8R8A8_SINT => 49,
            VkFormat::VK_FORMAT_B8G8R8A8_SRGB => 50,
            VkFormat::VK_FORMAT_A8B8G8R8_UNORM_PACK32 => 51,
            VkFormat::VK_FORMAT_A8B8G8R8_SNORM_PACK32 => 52,
            VkFormat::VK_FORMAT_A8B8G8R8_USCALED_PACK32 => 53,
            VkFormat::VK_FORMAT_A8B8G8R8_SSCALED_PACK32 => 54,
            VkFormat::VK_FORMAT_A8B8G8R8_UINT_PACK32 => 55,
            VkFormat::VK_FORMAT_A8B8G8R8_SINT_PACK32 => 56,
            VkFormat::VK_FORMAT_A8B8G8R8_SRGB_PACK32 => 57,
            VkFormat::VK_FORMAT_A2R10G10B10_UNORM_PACK32 => 58,
            VkFormat::VK_FORMAT_A2R10G10B10_SNORM_PACK32 => 59,
            VkFormat::VK_FORMAT_A2R10G10B10_USCALED_PACK32 => 60,
            VkFormat::VK_FORMAT_A2R10G10B10_SSCALED_PACK32 => 61,
            VkFormat::VK_FORMAT_A2R10G10B10_UINT_PACK32 => 62,
            VkFormat::VK_FORMAT_A2R10G10B10_SINT_PACK32 => 63,
            VkFormat::VK_FORMAT_A2B10G10R10_UNORM_PACK32 => 64,
            VkFormat::VK_FORMAT_A2B10G10R10_SNORM_PACK32 => 65,
            VkFormat::VK_FORMAT_A2B10G10R10_USCALED_PACK32 => 66,
            VkFormat::VK_FORMAT_A2B10G10R10_SSCALED_PACK32 => 67,
            VkFormat::VK_FORMAT_A2B10G10R10_UINT_PACK32 => 68,
            VkFormat::VK_FORMAT_A2B10G10R10_SINT_PACK32 => 69,
            VkFormat::VK_FORMAT_R16_UNORM => 70,
            VkFormat::VK_FORMAT_R16_SNORM => 71,
            VkFormat::VK_FORMAT_R16_USCALED => 72,
            VkFormat::VK_FORMAT_R16_SSCALED => 73,
            VkFormat::VK_FORMAT_R16_UINT => 74,
            VkFormat::VK_FORMAT_R16_SINT => 75,
            VkFormat::VK_FORMAT_R16_SFLOAT => 76,
            VkFormat::VK_FORMAT_R16G16_UNORM => 77,
            VkFormat::VK_FORMAT_R16G16_SNORM => 78,
            VkFormat::VK_FORMAT_R16G16_USCALED => 79,
            VkFormat::VK_FORMAT_R16G16_SSCALED => 80,
            VkFormat::VK_FORMAT_R16G16_UINT => 81,
            VkFormat::VK_FORMAT_R16G16_SINT => 82,
            VkFormat::VK_FORMAT_R16G16_SFLOAT => 83,
            VkFormat::VK_FORMAT_R16G16B16_UNORM => 84,
            VkFormat::VK_FORMAT_R16G16B16_SNORM => 85,
            VkFormat::VK_FORMAT_R16G16B16_USCALED => 86,
            VkFormat::VK_FORMAT_R16G16B16_SSCALED => 87,
            VkFormat::VK_FORMAT_R16G16B16_UINT => 88,
            VkFormat::VK_FORMAT_R16G16B16_SINT => 89,
            VkFormat::VK_FORMAT_R16G16B16_SFLOAT => 90,
            VkFormat::VK_FORMAT_R16G16B16A16_UNORM => 91,
            VkFormat::VK_FORMAT_R16G16B16A16_SNORM => 92,
            VkFormat::VK_FORMAT_R16G16B16A16_USCALED => 93,
            VkFormat::VK_FORMAT_R16G16B16A16_SSCALED => 94,
            VkFormat::VK_FORMAT_R16G16B16A16_UINT => 95,
            VkFormat::VK_FORMAT_R16G16B16A16_SINT => 96,
            VkFormat::VK_FORMAT_R16G16B16A16_SFLOAT => 97,
            VkFormat::VK_FORMAT_R32_UINT => 98,
            VkFormat::VK_FORMAT_R32_SINT => 99,
            VkFormat::VK_FORMAT_R32_SFLOAT => 100,
            VkFormat::VK_FORMAT_R32G32_UINT => 101,
            VkFormat::VK_FORMAT_R32G32_SINT => 102,
            VkFormat::VK_FORMAT_R32G32_SFLOAT => 103,
            VkFormat::VK_FORMAT_R32G32B32_UINT => 104,
            VkFormat::VK_FORMAT_R32G32B32_SINT => 105,
            VkFormat::VK_FORMAT_R32G32B32_SFLOAT => 106,
            VkFormat::VK_FORMAT_R32G32B32A32_UINT => 107,
            VkFormat::VK_FORMAT_R32G32B32A32_SINT => 108,
            VkFormat::VK_FORMAT_R32G32B32A32_SFLOAT => 109,
            VkFormat::VK_FORMAT_R64_UINT => 110,
            VkFormat::VK_FORMAT_R64_SINT => 111,
            VkFormat::VK_FORMAT_R64_SFLOAT => 112,
            VkFormat::VK_FORMAT_R64G64_UINT => 113,
            VkFormat::VK_FORMAT_R64G64_SINT => 114,
            VkFormat::VK_FORMAT_R64G64_SFLOAT => 115,
            VkFormat::VK_FORMAT_R64G64B64_UINT => 116,
            VkFormat::VK_FORMAT_R64G64B64_SINT => 117,
            VkFormat::VK_FORMAT_R64G64B64_SFLOAT => 118,
            VkFormat::VK_FORMAT_R64G64B64A64_UINT => 119,
            VkFormat::VK_FORMAT_R64G64B64A64_SINT => 120,
            VkFormat::VK_FORMAT_R64G64B64A64_SFLOAT => 121,
            VkFormat::VK_FORMAT_B10G11R11_UFLOAT_PACK32 => 122,
            VkFormat::VK_FORMAT_E5B9G9R9_UFLOAT_PACK32 => 123,
            VkFormat::VK_FORMAT_D16_UNORM => 124,
            VkFormat::VK_FORMAT_X8_D24_UNORM_PACK32 => 125,
            VkFormat::VK_FORMAT_D32_SFLOAT => 126,
            VkFormat::VK_FORMAT_S8_UINT => 127,
            VkFormat::VK_FORMAT_D16_UNORM_S8_UINT => 128,
            VkFormat::VK_FORMAT_D24_UNORM_S8_UINT => 129,
            VkFormat::VK_FORMAT_D32_SFLOAT_S8_UINT => 130,
            VkFormat::VK_FORMAT_BC1_RGB_UNORM_BLOCK => 131,
            VkFormat::VK_FORMAT_BC1_RGB_SRGB_BLOCK => 132,
            VkFormat::VK_FORMAT_BC1_RGBA_UNORM_BLOCK => 133,
            VkFormat::VK_FORMAT_BC1_RGBA_SRGB_BLOCK => 134,
            VkFormat::VK_FORMAT_BC2_UNORM_BLOCK => 135,
            VkFormat::VK_FORMAT_BC2_SRGB_BLOCK => 136,
            VkFormat::VK_FORMAT_BC3_UNORM_BLOCK => 137,
            VkFormat::VK_FORMAT_BC3_SRGB_BLOCK => 138,
            VkFormat::VK_FORMAT_BC4_UNORM_BLOCK => 139,
            VkFormat::VK_FORMAT_BC4_SNORM_BLOCK => 140,
            VkFormat::VK_FORMAT_BC5_UNORM_BLOCK => 141,
            VkFormat::VK_FORMAT_BC5_SNORM_BLOCK => 142,
            VkFormat::VK_FORMAT_BC6H_UFLOAT_BLOCK => 143,
            VkFormat::VK_FORMAT_BC6H_SFLOAT_BLOCK => 144,
            VkFormat::VK_FORMAT_BC7_UNORM_BLOCK => 145,
            VkFormat::VK_FORMAT_BC7_SRGB_BLOCK => 146,
            VkFormat::VK_FORMAT_ETC2_R8G8B8_UNORM_BLOCK => 147,
            VkFormat::VK_FORMAT_ETC2_R8G8B8_SRGB_BLOCK => 148,
            VkFormat::VK_FORMAT_ETC2_R8G8B8A1_UNORM_BLOCK => 149,
            VkFormat::VK_FORMAT_ETC2_R8G8B8A1_SRGB_BLOCK => 150,
            VkFormat::VK_FORMAT_ETC2_R8G8B8A8_UNORM_BLOCK => 151,
            VkFormat::VK_FORMAT_ETC2_R8G8B8A8_SRGB_BLOCK => 152,
            VkFormat::VK_FORMAT_EAC_R11_UNORM_BLOCK => 153,
            VkFormat::VK_FORMAT_EAC_R11_SNORM_BLOCK => 154,
            VkFormat::VK_FORMAT_EAC_R11G11_UNORM_BLOCK => 155,
            VkFormat::VK_FORMAT_EAC_R11G11_SNORM_BLOCK => 156,
            VkFormat::VK_FORMAT_ASTC_4x4_UNORM_BLOCK => 157,
            VkFormat::VK_FORMAT_ASTC_4x4_SRGB_BLOCK => 158,
            VkFormat::VK_FORMAT_ASTC_5x4_UNORM_BLOCK => 159,
            VkFormat::VK_FORMAT_ASTC_5x4_SRGB_BLOCK => 160,
            VkFormat::VK_FORMAT_ASTC_5x5_UNORM_BLOCK => 161,
            VkFormat::VK_FORMAT_ASTC_5x5_SRGB_BLOCK => 162,
            VkFormat::VK_FORMAT_ASTC_6x5_UNORM_BLOCK => 163,
            VkFormat::VK_FORMAT_ASTC_6x5_SRGB_BLOCK => 164,
            VkFormat::VK_FORMAT_ASTC_6x6_UNORM_BLOCK => 165,
            VkFormat::VK_FORMAT_ASTC_6x6_SRGB_BLOCK => 166,
            VkFormat::VK_FORMAT_ASTC_8x5_UNORM_BLOCK => 167,
            VkFormat::VK_FORMAT_ASTC_8x5_SRGB_BLOCK => 168,
            VkFormat::VK_FORMAT_ASTC_8x6_UNORM_BLOCK => 169,
            VkFormat::VK_FORMAT_ASTC_8x6_SRGB_BLOCK => 170,
            VkFormat::VK_FORMAT_ASTC_8x8_UNORM_BLOCK => 171,
            VkFormat::VK_FORMAT_ASTC_8x8_SRGB_BLOCK => 172,
            VkFormat::VK_FORMAT_ASTC_10x5_UNORM_BLOCK => 173,
            VkFormat::VK_FORMAT_ASTC_10x5_SRGB_BLOCK => 174,
            VkFormat::VK_FORMAT_ASTC_10x6_UNORM_BLOCK => 175,
            VkFormat::VK_FORMAT_ASTC_10x6_SRGB_BLOCK => 176,
            VkFormat::VK_FORMAT_ASTC_10x8_UNORM_BLOCK => 177,
            VkFormat::VK_FORMAT_ASTC_10x8_SRGB_BLOCK => 178,
            VkFormat::VK_FORMAT_ASTC_10x10_UNORM_BLOCK => 179,
            VkFormat::VK_FORMAT_ASTC_10x10_SRGB_BLOCK => 180,
            VkFormat::VK_FORMAT_ASTC_12x10_UNORM_BLOCK => 181,
            VkFormat::VK_FORMAT_ASTC_12x10_SRGB_BLOCK => 182,
            VkFormat::VK_FORMAT_ASTC_12x12_UNORM_BLOCK => 183,
            VkFormat::VK_FORMAT_ASTC_12x12_SRGB_BLOCK => 184,
            VkFormat::VK_FORMAT_PVRTC1_2BPP_UNORM_BLOCK_IMG => 1000054000,
            VkFormat::VK_FORMAT_PVRTC1_4BPP_UNORM_BLOCK_IMG => 1000054001,
            VkFormat::VK_FORMAT_PVRTC2_2BPP_UNORM_BLOCK_IMG => 1000054002,
            VkFormat::VK_FORMAT_PVRTC2_4BPP_UNORM_BLOCK_IMG => 1000054003,
            VkFormat::VK_FORMAT_PVRTC1_2BPP_SRGB_BLOCK_IMG => 1000054004,
            VkFormat::VK_FORMAT_PVRTC1_4BPP_SRGB_BLOCK_IMG => 1000054005,
            VkFormat::VK_FORMAT_PVRTC2_2BPP_SRGB_BLOCK_IMG => 1000054006,
            VkFormat::VK_FORMAT_PVRTC2_4BPP_SRGB_BLOCK_IMG => 1000054007,
            VkFormat::VK_FORMAT_RANGE_SIZE => 185,
            VkFormat::VK_FORMAT_MAX_ENUM => 2147483647,
        }
    }

    pub fn from_raw(raw: u32) -> (r: Option<Self>)
        ensures
            r == Self::from_value(raw),
    {
        match raw {
            0 => Some(VkFormat::VK_FORMAT_UNDEFINED),
            1 => Some(VkFormat::VK_FORMAT_R4G4_UNORM_PACK8),
            2 => Some(VkFormat::VK_FORMAT_R4G4B4A4_UNORM_PACK16),
            3 => Some(VkFormat::VK_FORMAT_B4G4R4A4_UNORM_PACK16),
            4 => Some(VkFormat::VK_FORMAT_R5G6B5_UNORM_PACK16),
            5 => Some(VkFormat::VK_FORMAT_B5G6R5_UNORM_PACK16),
            6 => Some(VkFormat::VK_FORMAT_R5G5B5A1_UNORM_PACK16),
            7 => Some(VkFormat::VK_FORMAT_B5G5R5A1_UNORM_PACK16),
            8 => Some(VkFormat::VK_FORMAT_A1R5G5B5_UNORM_PACK16),
            9 => Some(VkFormat::VK_FORMAT_R8_UNORM),
            10 => Some(VkFormat::VK_FORMAT_R8_SNORM),
            11 => Some(VkFormat::VK_FORMAT_R8_USCALED),
            12 => Some(VkFormat::VK_FORMAT_R8_SSCALED),
            13 => Some(VkFormat::VK_FORMAT_R8_UINT),
            14 => Some(VkFormat::VK_FORMAT_R8_SINT),
            15 => Some(VkFormat::VK_FORMAT_R8_SRGB),
            16 => Some(VkFormat::VK_FORMAT_R8G8_UNORM),
            17 => Some(VkFormat::VK_FORMAT_R8G8_SNORM),
            18 => Some(VkFormat::VK_FORMAT_R8G8_USCALED),
            19 => Some(VkFormat::VK_FORMAT_R8G8_SSCALED),
            20 => Some(VkFormat::VK_FORMAT_R8G8_UINT),
            21 => Some(VkFormat::VK_FORMAT_R8G8_SINT),
            22 => Some(VkFormat::VK_FORMAT_R8G8_SRGB),
            23 => Some(VkFormat::VK_FORMAT_R8G8B8_UNORM),
            24 => Some(VkFormat::VK_FORMAT_R8G8B8_SNORM),
            25 => Some(VkFormat::VK_FORMAT_R8G8B8_USCALED),
            26 => Some(VkFormat::VK_FORMAT_R8G8B8_SSCALED),
            27 => Some(VkFormat::VK_FORMAT_R8G8B8_UINT),
            28 => Some(VkFormat::VK_FORMAT_R8G8B8_SINT),
            29 => Some(VkFormat::VK_FORMAT_R8G8B8_SRGB),
            30 => Some(VkFormat::VK_FORMAT_B8G8R8_UNORM),
            31 => Some(VkFormat::VK_FORMAT_B8G8R8_SNORM),
            32 => Some(VkFormat::VK_FORMAT_B8G8R8_USCALED),
            33 => Some(VkFormat::VK_FORMAT_B8G8R8_SSCALED),
            34 => Some(VkFormat::VK_FORMAT_B8G8R8_UINT),
            35 => Some(VkFormat::VK_FORMAT_B8G8R8_SINT),
            36 => Some(VkFormat::VK_FORMAT_B8G8R8_SRGB),
            37 => Some(VkFormat::VK_FORMAT_R8G8B8A8_UNORM),
            38 => Some(VkFormat::VK_FORMAT_R8G8B8A8_SNORM),
            39 => Some(VkFormat::VK_FORMAT_R8G8B8A8_USCALED),
            40 => Some(VkFormat::VK_FORMAT_R8G8B8A8_SSCALED),
            41 => Some(VkFormat::VK_FORMAT_R8G8B8A8_UINT),
            42 => Some(VkFormat::VK_FORMAT_R8G8B8A8_SINT),
            43 => Some(VkFormat::VK_FORMAT_R8G8B8A8_SRGB),
            44 => Some(VkFormat::VK_FORMAT_B8G8R8A8_UNORM),
            45 => Some(VkFormat::VK_FORMAT_B8G8R8A8_SNORM),
            46 => Some(VkFormat::VK_FORMAT_B8G8R8A8_USCALED),
            47 => Some(VkFormat::VK_FORMAT_B8G8R8A8_SSCALED),
            48 => Some(VkFormat::VK_FORMAT_B8G8R8A8_UINT),
            49 => Some(VkFormat::VK_FORMAT_B8G8R8A8_SINT),
            50 => Some(VkFormat::VK_FORMAT_B8G8R8A8_SRGB),
            51 => Some(VkFormat::VK_FORMAT_A8B8G8R8_UNORM_PACK32),
            52 => Some(VkFormat::VK_FORMAT_A8B8G8R8_SNORM_PACK32),
            53 => Some(VkFormat::VK_FORMAT_A8B8G8R8_USCALED_PACK32),
            54 => Some(VkFormat::VK_FORMAT_A8B8G8R8_SSCALED_PACK32),
            55 => Some(VkFormat::VK_FORMAT_A8B8G8R8_UINT_PACK32),
            56 => Some(VkFormat::VK_FORMAT_A8B8G8R8_SINT_PACK32),
            57 => Some(VkFormat::VK_FORMAT_A8B8G8R8_SRGB_PACK32),
            58 => Some(VkFormat::VK_FORMAT_A2R10G10B10_UNORM_PACK32),
            59 => Some(VkFormat::VK_FORMAT_A2R10G10B10_SNORM_PACK32),
            60 => Some(VkFormat::VK_FORMAT_A2R10G10B10_USCALED_PACK32),
            61 => Some(VkFormat::VK_FORMAT_A2R10G10B10_SSCALED_PACK32),
            62 => Some(VkFormat::VK_FORMAT_A2R10G10B10_UINT_PACK32),
            63 => Some(VkFormat::VK_FORMAT_A2R10G10B10_SINT_PACK32),
            64 => Some(VkFormat::VK_FORMAT_A2B10G10R10_UNORM_PACK32),
            65 => Some(VkFormat::VK_FORMAT_A2B10G10R10_SNORM_PACK32),
            66 => Some(VkFormat::VK_FORMAT_A2B10G10R10_USCALED_PACK32),
            67 => Some(VkFormat::VK_FORMAT_A2B10G10R10_SSCALED_PACK32),
            68 => Some(VkFormat::VK_FORMAT_A2B10G10R10_UINT_PACK32),
            69 => Some(VkFormat::VK_FORMAT_A2B10G10R10_SINT_PACK32),
            70 => Some(VkFormat::VK_FORMAT_R16_UNORM),
            71 => Some(VkFormat::VK_FORMAT_R16_SNORM),
            72 => Some(VkFormat::VK_FORMAT_R16_USCALED),
            73 => Some(VkFormat::VK_FORMAT_R16_SSCALED),
            74 => Some(VkFormat::VK_FORMAT_R16_UINT),
            75 => Some(VkFormat::VK_FORMAT_R16_SINT),
            76 => Some(VkFormat::VK_FORMAT_R16_SFLOAT),
            77 => Some(VkFormat::VK_FORMAT_R16G16_UNORM),
            78 => Some(VkFormat::VK_FORMAT_R16G16_SNORM),
            79 => Some(VkFormat::VK_FORMAT_R16G16_USCALED),
            80 => Some(VkFormat::VK_FORMAT_R16G16_SSCALED),
            81 => Some(VkFormat::VK_FORMAT_R16G16_UINT),
            82 => Some(VkFormat::VK_FORMAT_R16G16_SINT),
            83 => Some(VkFormat::VK_FORMAT_R16G16_SFLOAT),
            84 => Some(VkFormat::VK_FORMAT_R16G16B16_UNORM),
            85 => Some(VkFormat::VK_FORMAT_R16G16B16_SNORM),
            86 => Some(VkFormat::VK_FORMAT_R16G16B16_USCALED),
            87 => Some(VkFormat::VK_FORMAT_R16G16B16_SSCALED),
            88 => Some(VkFormat::VK_FORMAT_R16G16B16_UINT),
            89 => Some(VkFormat::VK_FORMAT_R16G16B16_SINT),
            90 => Some(VkFormat::VK_FORMAT_R16G16B16_SFLOAT),
            91 => Some(VkFormat::VK_FORMAT_R16G16B16A16_UNORM),
            92 => Some(VkFormat::VK_FORMAT_R16G16B16A16_SNORM),
            93 => Some(VkFormat::VK_FORMAT_R16G16B16A16_USCALED),
            94 => Some(VkFormat::VK_FORMAT_R16G16B16A16_SSCALED),
            95 => Some(VkFormat::VK_FORMAT_R16G16B16A16_UINT),
            96 => Some(VkFormat::VK_FORMAT_R16G16B16A16_SINT),
            97 => Some(VkFormat::VK_FORMAT_R16G16B16A16_SFLOAT),
            98 => Some(VkFormat::VK_FORMAT_R32_UINT),
            99 => Some(VkFormat::VK_FORMAT_R32_SINT),
            100 => Some(VkFormat::VK_FORMAT_R32_SFLOAT),
            101 => Some(VkFormat::VK_FORMAT_R32G32_UINT),
            102 => Some(VkFormat::VK_FORMAT_R32G32_SINT),
            103 => Some(VkFormat::VK_FORMAT_R32G32_SFLOAT),
            104 => Some(VkFormat::VK_FORMAT_R32G32B32_UINT),
            105 => Some(VkFormat::VK_FORMAT_R32G32B32_SINT),
            106 => Some(VkFormat::VK_FORMAT_R32G32B32_SFLOAT),
            107 => Some(VkFormat::VK_FORMAT_R32G32B32A32_UINT),
            108 => Some(VkFormat::VK_FORMAT_R32G32B32A32_SINT),
            109 => Some(VkFormat::VK_FORMAT_R32G32B32A32_SFLOAT),
            110 => Some(VkFormat::VK_FORMAT_R64_UINT),
            111 => Some(VkFormat::VK_FORMAT_R64_SINT),
            112 => Some(VkFormat::VK_FORMAT_R64_SFLOAT),
            113 => Some(VkFormat::VK_FORMAT_R64G64_UINT),
            114 => Some(VkFormat::VK_FORMAT_R64G64_SINT),
            115 => Some(VkFormat::VK_FORMAT_R64G64_SFLOAT),
            116 => Some(VkFormat::VK_FORMAT_R64G64B64_UINT),
            117 => Some(VkFormat::VK_FORMAT_R64G64B64_SINT),
            118 => Some(VkFormat::VK_FORMAT_R64G64B64_SFLOAT),
            119 => Some(VkFormat::VK_FORMAT_R64G64B64A64_UINT),
            120 => Some(VkFormat::VK_FORMAT_R64G64B64A64_SINT),
            121 => Some(VkFormat::VK_FORMAT_R64G64B64A64_SFLOAT),
            122 => Some(VkFormat::VK_FORMAT_B10G11R11_UFLOAT_PACK32),
            123 => Some(VkFormat::VK_FORMAT_E5B9G9R9_UFLOAT_PACK32),
            124 => Some(VkFormat::VK_FORMAT_D16_UNORM),
            125 => Some(VkFormat::VK_FORMAT_X8_D24_UNORM_PACK32),
            126 => Some(VkFormat::VK_FORMAT_D32_SFLOAT),
            127 => Some(VkFormat::VK_FORMAT_S8_UINT),
            128 => Some(VkFormat::VK_FORMAT_D16_UNORM_S8_UINT),
            129 => Some(VkFormat::VK_FORMAT_D24_UNORM_S8_UINT),
            130 => Some(VkFormat::VK_FORMAT_D32_SFLOAT_S8_UINT),
            131 => Some(VkFormat::VK_FORMAT_BC1_RGB_UNORM_BLOCK),
            132 => Some(VkFormat::VK_FORMAT_BC1_RGB_SRGB_BLOCK),
            133 => Some(VkFormat::VK_FORMAT_BC1_RGBA_UNORM_BLOCK),
            134 => Some(VkFormat::VK_FORMAT_BC1_RGBA_SRGB_BLOCK),
            135 => Some(VkFormat::VK_FORMAT_BC2_UNORM_BLOCK),
            136 => Some(VkFormat::VK_FORMAT_BC2_SRGB_BLOCK),
            137 => Some(VkFormat::VK_FORMAT_BC3_UNORM_BLOCK),
            138 => Some(VkFormat::VK_FORMAT_BC3_SRGB_BLOCK),
            139 => Some(VkFormat::VK_FORMAT_BC4_UNORM_BLOCK),
            140 => Some(VkFormat::VK_FORMAT_BC4_SNORM_BLOCK),
            141 => Some(VkFormat::VK_FORMAT_BC5_UNORM_BLOCK),
            142 => Some(VkFormat::VK_FORMAT_BC5_SNORM_BLOCK),
            143 => Some(VkFormat::VK_FORMAT_BC6H_UFLOAT_BLOCK),
            144 => Some(VkFormat::VK_FORMAT_BC6H_SFLOAT_BLOCK),
            145 => Some(VkFormat::VK_FORMAT_BC7_UNORM_BLOCK),
            146 => Some(VkFormat::VK_FORMAT_BC7_SRGB_BLOCK),
            147 => Some(VkFormat::VK_FORMAT_ETC2_R8G8B8_UNORM_BLOCK),
            148 => Some(VkFormat::VK_FORMAT_ETC2_R8G8B8_SRGB_BLOCK),
            149 => Some(VkFormat::VK_FORMAT_ETC2_R8G8B8A1_UNORM_BLOCK),
            150 => Some(VkFormat::VK_FORMAT_ETC2_R8G8B8A1_SRGB_BLOCK),
            151 => Some(VkFormat::VK_FORMAT_ETC2_R8G8B8A8_UNORM_BLOCK),
            152 => Some(VkFormat::VK_FORMAT_ETC2_R8G8B8A8_SRGB_BLOCK),
            153 => Some(VkFormat::VK_FORMAT_EAC_R11_UNORM_BLOCK),
            154 => Some(VkFormat::VK_FORMAT_EAC_R11_SNORM_BLOCK),
            155 => Some(VkFormat::VK_FORMAT_EAC_R11G11_UNORM_BLOCK),
            156 => Some(VkFormat::VK_FORMAT_EAC_R11G11_SNORM_BLOCK),
            157 => Some(VkFormat::VK_FORMAT_ASTC_4x4_UNORM_BLOCK),
            158 => Some(VkFormat::VK_FORMAT_ASTC_4x4_SRGB_BLOCK),
            159 => Some(VkFormat::VK_FORMAT_ASTC_5x4_UNORM_BLOCK),
            160 => Some(VkFormat::VK_FORMAT_ASTC_5x4_SRGB_BLOCK),
            161 => Some(VkFormat::VK_FORMAT_ASTC_5x5_UNORM_BLOCK),
            162 => Some(VkFormat::VK_FORMAT_ASTC_5x5_SRGB_BLOCK),
            163 => Some(VkFormat::VK_FORMAT_ASTC_6x5_UNORM_BLOCK),
            164 => Some(VkFormat::VK_FORMAT_ASTC_6x5_SRGB_BLOCK),
            165 => Some(VkFormat::VK_FORMAT_ASTC_6x6_UNORM_BLOCK),
            166 => Some(VkFormat::VK_FORMAT_ASTC_6x6_SRGB_BLOCK),
            167 => Some(VkFormat::VK_FORMAT_ASTC_8x5_UNORM_BLOCK),
            168 => Some(VkFormat::VK_FORMAT_ASTC_8x5_SRGB_BLOCK),
            169 => Some(VkFormat::VK_FORMAT_ASTC_8x6_UNORM_BLOCK),
            170 => Some(VkFormat::VK_FORMAT_ASTC_8x6_SRGB_BLOCK),
            171 => Some(VkFormat::VK_FORMAT_ASTC_8x8_UNORM_BLOCK),
            172 => Some(VkFormat::VK_FORMAT_ASTC_8x8_SRGB_BLOCK),
            173 => Some(VkFormat::VK_FORMAT_ASTC_10x5_UNORM_BLOCK),
            174 => Some(VkFormat::VK_FORMAT_ASTC_10x5_SRGB_BLOCK),
            175 => Some(VkFormat::VK_FORMAT_ASTC_10x6_UNORM_BLOCK),
            176 => Some(VkFormat::VK_FORMAT_ASTC_10x6_SRGB_BLOCK),
            177 => Some(VkFormat::VK_FORMAT_ASTC_10x8_UNORM_BLOCK),
            178 => Some(VkFormat::VK_FORMAT_ASTC_10x8_SRGB_BLOCK),
            179 => Some(VkFormat::VK_FORMAT_ASTC_10x10_UNORM_BLOCK),
            180 => Some(VkFormat::VK_FORMAT_ASTC_10x10_SRGB_BLOCK),
            181 => Some(VkFormat::VK_FORMAT_ASTC_12x10_UNORM_BLOCK),
            182 => Some(VkFormat::VK_FORMAT_ASTC_12x10_SRGB_BLOCK),
            183 => Some(VkFormat::VK_FORMAT_ASTC_12x12_UNORM_BLOCK),
            184 => Some(VkFormat::VK_FORMAT_ASTC_12x12_SRGB_BLOCK),
            1000054000 => Some(VkFormat::VK_FORMAT_PVRTC1_2BPP_UNORM_BLOCK_IMG),
            1000054001 => Some(VkFormat::VK_FORMAT_PVRTC1_4BPP_UNORM_BLOCK_IMG),
            1000054002 => Some(VkFormat::VK_FORMAT_PVRTC2_2BPP_UNORM_BLOCK_IMG),
            1000054003 => Some(VkFormat::VK_FORMAT_PVRTC2_4BPP_UNORM_BLOCK_IMG),
            1000054004 => Some(VkFormat::VK_FORMAT_PVRTC1_2BPP_SRGB_BLOCK_IMG),
            1000054005 => Some(VkFormat::VK_FORMAT_PVRTC1_4BPP_SRGB_BLOCK_IMG),
            1000054006 => Some(VkFormat::VK_FORMAT_PVRTC2_2BPP_SRGB_BLOCK_IMG),
            1000054007 => Some(VkFormat::VK_FORMAT_PVRTC2_4BPP_SRGB_BLOCK_IMG),
            185 => Some(VkFormat::VK_FORMAT_RANGE_SIZE),
            2147483647 => Some(VkFormat::VK_FORMAT_MAX_ENUM),
            _ => None,
        }
    }

    /// Reading back the value of an enumerant gives the enumerant.
    pub proof fn lemma_value_roundtrip(self)
        ensures
            Self::from_value(self.value()) == Some(self),
    {
    }
}

#[derive(Clone, Copy, Debug, PartialEq, Eq, Hash, Structural)]
pub enum VkImageType {
    VK_IMAGE_TYPE_1D,
    VK_IMAGE_TYPE_2D,
    VK_IMAGE_TYPE_3D,
    VK_IMAGE_TYPE_RANGE_SIZE,
    VK_IMAGE_TYPE_MAX_ENUM,
}

impl VkImageType {
    /// The numeric value that the Vulkan API gives this enumerant.
    pub open spec fn value(self) -> u32 {
        match self {
            VkImageType::VK_IMAGE_TYPE_1D => 0,
            VkImageType::VK_IMAGE_TYPE_2D => 1,
            VkImageType::VK_IMAGE_TYPE_3D => 2,
            VkImageType::VK_IMAGE_TYPE_RANGE_SIZE => 3,
            VkImageType::VK_IMAGE_TYPE_MAX_ENUM => 2147483647,
        }
    }

    /// The enumerant whose Vulkan value is `raw`, if there is one.
    pub open spec fn from_value(raw: u32) -> Option<Self> {
        match raw {
            0 => Some(VkImageType::VK_IMAGE_TYPE_1D),
            1 => Some(VkImageType::VK_IMAGE_TYPE_2D),
            2 => Some(VkImageType::VK_IMAGE_TYPE_3D),
            3 => Some(VkImageType::VK_IMAGE_TYPE_RANGE_SIZE),
            2147483647 => Some(VkImageType::VK_IMAGE_TYPE_MAX_ENUM),
            _ => None,
        }
    }

    pub fn as_raw(self) -> (r: u32)
        ensures
            r == self.value(),
    {
        match self {
            VkImageType::VK_IMAGE_TYPE_1D => 0,
            VkImageType::VK_IMAGE_TYPE_2D => 1,
            VkImageType::VK_IMAGE_TYPE_3D => 2,
            VkImageType::VK_IMAGE_TYPE_RANGE_SIZE => 3,
            VkImageType::VK_IMAGE_TYPE_MAX_ENUM => 2147483647,
        }
    }

    pub fn from_raw(raw: u32) -> (r: Option<Self>)
        ensures
            r == Self::from_value(raw),
    {
        match raw {
            0 => Some(VkImageType::VK_IMAGE_TYPE_1D),
            1 => Some(VkImageType::VK_IMAGE_TYPE_2D),
            2 => Some(VkImageType::VK_IMAGE_TYPE_3D),
            3 => Some(VkImageType::VK_IMAGE_TYPE_RANGE_SIZE),
            2147483647 => Some(VkImageType::VK_IMAGE_TYPE_MAX_ENUM),
            _ => None,
        }
    }

    /// Reading back the value of an enumerant gives the enumerant.
    pub proof fn lemma_value_roundtrip(self)
        ensures
            Self::from_value(self.value()) == Some(self),
    {
    }
}

#[derive(Clone, Copy, Debug, PartialEq, Eq, Hash, Structural)]
pub enum VkImageTiling {
    VK_IMAGE_TILING_OPTIMAL,
    VK_IMAGE_TILING_LINEAR,
    VK_IMAGE_TILING_RANGE_SIZE,
    VK_IMAGE_TILING_MAX_ENUM,
}

impl VkImageTiling {
    /// The numeric value that the Vulkan API gives this enumerant.
    pub open spec fn value(self) -> u32 {
        match self {
            VkImageTiling::VK_IMAGE_TILING_OPTIMAL => 0,
            VkImageTiling::VK_IMAGE_TILING_LINEAR => 1,
            VkImageTiling::VK_IMAGE_TILING_RANGE_SIZE => 2,
            VkImageTiling::VK_IMAGE_TILING_MAX_ENUM => 2147483647,
        }
    }

    /// The enumerant whose Vulkan value is `raw`, if there is one.
    pub open spec fn from_value(raw: u32) -> Option<Self> {
        match raw {
            0 => Some(VkImageTiling::VK_IMAGE_TILING_OPTIMAL),
            1 => Some(VkImageTiling::VK_IMAGE_TILING_LINEAR),
            2 => Some(VkImageTiling::VK_IMAGE_TILING_RANGE_SIZE),
            2147483647 => Some(VkImageTiling::VK_IMAGE_TILING_MAX_ENUM),
            _ => None,
        }
    }

    pub fn as_raw(self) -> (r: u32)
        ensures
            r == self.value(),
    {
        match self {
            VkImageTiling::VK_IMAGE_TILING_OPTIMAL => 0,
            VkImageTiling::VK_IMAGE_TILING_LINEAR => 1,
            VkImageTiling::VK_IMAGE_TILING_RANGE_SIZE => 2,
            VkImageTiling::VK_IMAGE_TILING_MAX_ENUM => 2147483647,
        }
    }

    pub fn from_raw(raw: u32) -> (r: Option<Self>)
        ensures
            r == Self::from_value(raw),
    {
        match raw {
            0 => Some(VkImageTiling::VK_IMAGE_TILING_OPTIMAL),
            1 => Some(VkImageTiling::VK_IMAGE_TILING_LINEAR),
            2 => Some(VkImageTiling::VK_IMAGE_TILING_RANGE_SIZE),
            2147483647 => Some(VkImageTiling::VK_IMAGE_TILING_MAX_ENUM),
            _ => None,
        }
    }

    /// Reading back the value of an enumerant gives the enumerant.
    pub proof fn lemma_value_roundtrip(self)
        ensures
            Self::from_value(self.value()) == Some(self),
    {
    }
}

#[derive(Clone, Copy, Debug, PartialEq, Eq, Hash, Structural)]
pub enum VkPhysicalDeviceType {
    VK_PHYSICAL_DEVICE_TYPE_OTHER,
    VK_PHYSICAL_DEVICE_TYPE_INTEGRATED_GPU,
    VK_PHYSICAL_DEVICE_TYPE_DISCRETE_GPU,
    VK_PHYSICAL_DEVICE_TYPE_VIRTUAL_GPU,
    VK_PHYSICAL_DEVICE_TYPE_CPU,
    VK_PHYSICAL_DEVICE_TYPE_RANGE_SIZE,
    VK_PHYSICAL_DEVICE_TYPE_MAX_ENUM,
}

impl VkPhysicalDeviceType {
    /// The numeric value that the Vulkan API gives this enumerant.
    pub open spec fn value(self) -> u32 {
        match self {
            VkPhysicalDeviceType::VK_PHYSICAL_DEVICE_TYPE_OTHER => 0,
            VkPhysicalDeviceType::VK_PHYSICAL_DEVICE_TYPE_INTEGRATED_GPU => 1,
            VkPhysicalDeviceType::VK_PHYSICAL_DEVICE_TYPE_DISCRETE_GPU => 2,
            VkPhysicalDeviceType::VK_PHYSICAL_DEVICE_TYPE_VIRTUAL_GPU => 3,
            VkPhysicalDeviceType::VK_PHYSICAL_DEVICE_TYPE_CPU => 4,
            VkPhysicalDeviceType::VK_PHYSICAL_DEVICE_TYPE_RANGE_SIZE => 5,
            VkPhysicalDeviceType::VK_PHYSICAL_DEVICE_TYPE_MAX_ENUM => 2147483647,
        }
    }

    /// The enumerant whose Vulkan value is `raw`, if there is one.
    pub open spec fn from_value(raw: u32) -> Option<Self> {
        match raw {
            0 => Some(VkPhysicalDeviceType::VK_PHYSICAL_DEVICE_TYPE_OTHER),
            1 => Some(VkPhysicalDeviceType::VK_PHYSICAL_DEVICE_TYPE_INTEGRATED_GPU),
            2 => Some(VkPhysicalDeviceType::VK_PHYSICAL_DEVICE_TYPE_DISCRETE_GPU),
            3 => Some(VkPhysicalDeviceType::VK_PHYSICAL_DEVICE_TYPE_VIRTUAL_GPU),
            4 => Some(VkPhysicalDeviceType::VK_PHYSICAL_DEVICE_TYPE_CPU),
            5 => Some(VkPhysicalDeviceType::VK_PHYSICAL_DEVICE_TYPE_RANGE_SIZE),
            2147483647 => Some(VkPhysicalDeviceType::VK_PHYSICAL_DEVICE_TYPE_MAX_ENUM),
            _ => None,
        }
    }

    pub fn as_raw(self) -> (r: u32)
        ensures
            r == self.value(),
    {
        match self {
            VkPhysicalDeviceType::VK_PHYSICAL_DEVICE_TYPE_OTHER => 0,
            VkPhysicalDeviceType::VK_PHYSICAL_DEVICE_TYPE_INTEGRATED_GPU => 1,
            VkPhysicalDeviceType::VK_PHYSICAL_DEVICE_TYPE_DISCRETE_GPU => 2,
            VkPhysicalDeviceType::VK_PHYSICAL_DEVICE_TYPE_VIRTUAL_GPU => 3,
            VkPhysicalDeviceType::VK_PHYSICAL_DEVICE_TYPE_CPU => 4,
            VkPhysicalDeviceType::VK_PHYSICAL_DEVICE_TYPE_RANGE_SIZE => 5,
            VkPhysicalDeviceType::VK_PHYSICAL_DEVICE_TYPE_MAX_ENUM => 2147483647,
        }
    }

    pub fn from_raw(raw: u32) -> (r: Option<Self>)
        ensures
            r == Self::from_value(raw),
    {
        match raw {
            0 => Some(VkPhysicalDeviceType::VK_PHYSICAL_DEVICE_TYPE_OTHER),
            1 => Some(VkPhysicalDeviceType::VK_PHYSICAL_DEVICE_TYPE_INTEGRATED_GPU),
            2 => Some(VkPhysicalDeviceType::VK_PHYSICAL_DEVICE_TYPE_DISCRETE_GPU),
            3 => Some(VkPhysicalDeviceType::VK_PHYSICAL_DEVICE_TYPE_VIRTUAL_GPU),
            4 => Some(VkPhysicalDeviceType::VK_PHYSICAL_DEVICE_TYPE_CPU),
            5 => Some(VkPhysicalDeviceType::VK_PHYSICAL_DEVICE_TYPE_RANGE_SIZE),
            2147483647 => Some(VkPhysicalDeviceType::VK_PHYSICAL_DEVICE_TYPE_MAX_ENUM),
            _ => None,
        }
    }

    /// Reading back the value of an enumerant gives the enumerant.
    pub proof fn lemma_value_roundtrip(self)
        ensures
            Self::from_value(self.value()) == Some(self),
    {
    }
}

#[derive(Clone, Copy, Debug, PartialEq, Eq, Hash, Structural)]
pub enum VkQueryType {
    VK_QUERY_TYPE_OCCLUSION,
    VK_QUERY_TYPE_PIPELINE_STATISTICS,
    VK_QUERY_TYPE_TIMESTAMP,
    VK_QUERY_TYPE_RANGE_SIZE,
    VK_QUERY_TYPE_MAX_ENUM,
}

impl VkQueryType {
    /// The numeric value that the Vulkan API gives this enumerant.
    pub open spec fn value(self) -> u32 {
        match self {
            VkQueryType::VK_QUERY_TYPE_OCCLUSION => 0,
            VkQueryType::VK_QUERY_TYPE_PIPELINE_STATISTICS => 1,
            VkQueryType::VK_QUERY_TYPE_TIMESTAMP => 2,
            VkQueryType::VK_QUERY_TYPE_RANGE_SIZE => 3,
            VkQueryType::VK_QUERY_TYPE_MAX_ENUM => 2147483647,
        }
    }

    /// The enumerant whose Vulkan value is `raw`, if there is one.
    pub open spec fn from_value(raw: u32) -> Option<Self> {
        match raw {
            0 => Some(VkQueryType::VK_QUERY_TYPE_OCCLUSION),
            1 => Some(VkQueryType::VK_QUERY_TYPE_PIPELINE_STATISTICS),
            2 => Some(VkQueryType::VK_QUERY_TYPE_TIMESTAMP),
            3 => Some(VkQueryType::VK_QUERY_TYPE_RANGE_SIZE),
            2147483647 => Some(VkQueryType::VK_QUERY_TYPE_MAX_ENUM),
            _ => None,
        }
    }

    pub fn as_raw(self) -> (r: u32)
        ensures
            r == self.value(),
    {
        match self {
            VkQueryType::VK_QUERY_TYPE_OCCLUSION => 0,
            VkQueryType::VK_QUERY_TYPE_PIPELINE_STATISTICS => 1,
            VkQueryType::VK_QUERY_TYPE_TIMESTAMP => 2,
            VkQueryType::VK_QUERY_TYPE_RANGE_SIZE => 3,
            VkQueryType::VK_QUERY_TYPE_MAX_ENUM => 2147483647,
        }
    }

    pub fn from_raw(raw: u32) -> (r: Option<Self>)
        ensures
            r == Self::from_value(raw),
    {
        match raw {
            0 => Some(VkQueryType::VK_QUERY_TYPE_OCCLUSION),
            1 => Some(VkQueryType::VK_QUERY_TYPE_PIPELINE_STATISTICS),
            2 => Some(VkQueryType::VK_QUERY_TYPE_TIMESTAMP),
            3 => Some(VkQueryType::VK_QUERY_TYPE_RANGE_SIZE),
            2147483647 => Some(VkQueryType::VK_QUERY_TYPE_MAX_ENUM),
            _ => None,
        }
    }

    /// Reading back the value of an enumerant gives the enumerant.
    pub proof fn lemma_value_roundtrip(self)
        ensures
            Self::from_value(self.value()) == Some(self),
    {
    }
}

#[derive(Clone, Copy, Debug, PartialEq, Eq, Hash, Structural)]
pub enum VkSharingMode {
    VK_SHARING_MODE_EXCLUSIVE,
    VK_SHARING_MODE_CONCURRENT,
    VK_SHARING_MODE_RANGE_SIZE,
    VK_SHARING_MODE_MAX_ENUM,
}

impl VkSharingMode {
    /// The numeric value that the Vulkan API gives this enumerant.
    pub open spec fn value(self) -> u32 {
        match self {
            VkSharingMode::VK_SHARING_MODE_EXCLUSIVE => 0,
            VkSharingMode::VK_SHARING_MODE_CONCURRENT => 1,
            VkSharingMode::VK_SHARING_MODE_RANGE_SIZE => 2,
            VkSharingMode::VK_SHARING_MODE_MAX_ENUM => 2147483647,
        }
    }

    /// The enumerant whose Vulkan value is `raw`, if there is one.
    pub open spec fn from_value(raw: u32) -> Option<Self> {
        match raw {
            0 => Some(VkSharingMode::VK_SHARING_MODE_EXCLUSIVE),
            1 => Some(VkSharingMode::VK_SHARING_MODE_CONCURRENT),
            2 => Some(VkSharingMode::VK_SHARING_MODE_RANGE_SIZE),
            2147483647 => Some(VkSharingMode::VK_SHARING_MODE_MAX_ENUM),
            _ => None,
        }
    }

    pub fn as_raw(self) -> (r: u32)
        ensures
            r == self.value(),
    {
        match self {
            VkSharingMode::VK_SHARING_MODE_EXCLUSIVE => 0,
            VkSharingMode::VK_SHARING_MODE_CONCURRENT => 1,
            VkSharingMode::VK_SHARING_MODE_RANGE_SIZE => 2,
            VkSharingMode::VK_SHARING_MODE_MAX_ENUM => 2147483647,
        }
    }

    pub fn from_raw(raw: u32) -> (r: Option<Self>)
        ensures
            r == Self::from_value(raw),
    {
        match raw {
            0 => Some(VkSharingMode::VK_SHARING_MODE_EXCLUSIVE),
            1 => Some(VkSharingMode::VK_SHARING_MODE_CONCURRENT),
            2 => Some(VkSharingMode::VK_SHARING_MODE_RANGE_SIZE),
            2147483647 => Some(VkSharingMode::VK_SHARING_MODE_MAX_ENUM),
            _ => None,
        }
    }

    /// Reading back the value of an enumerant gives the enumerant.
    pub proof fn lemma_value_roundtrip(self)
        ensures
            Self::from_value(self.value()) == Some(self),
    {
    }
}

#[derive(Clone, Copy, Debug, PartialEq, Eq, Hash, Structural)]
pub enum VkImageLayout {
    VK_IMAGE_LAYOUT_UNDEFINED,
    VK_IMAGE_LAYOUT_GENERAL,
    VK_IMAGE_LAYOUT_COLOR_ATTACHMENT_OPTIMAL,
    VK_IMAGE_LAYOUT_DEPTH_STENCIL_ATTACHMENT_OPTIMAL,
    VK_IMAGE_LAYOUT_DEPTH_STENCIL_READ_ONLY_OPTIMAL,
    VK_IMAGE_LAYOUT_SHADER_READ_ONLY_OPTIMAL,
    VK_IMAGE_LAYOUT_TRANSFER_SRC_OPTIMAL,
    VK_IMAGE_LAYOUT_TRANSFER_DST_OPTIMAL,
    VK_IMAGE_LAYOUT_PREINITIALIZED,
    VK_IMAGE_LAYOUT_PRESENT_SRC_KHR,
    VK_IMAGE_LAYOUT_RANGE_SIZE,
    VK_IMAGE_LAYOUT_MAX_ENUM,
}

impl VkImageLayout {
    /// The numeric value that the Vulkan API gives this enumerant.
    pub open spec fn value(self) -> u32 {
        match self {
            VkImageLayout::VK_IMAGE_LAYOUT_UNDEFINED => 0,
            VkImageLayout::VK_IMAGE_LAYOUT_GENERAL => 1,
            VkImageLayout::VK_IMAGE_LAYOUT_COLOR_ATTACHMENT_OPTIMAL => 2,
            VkImageLayout::VK_IMAGE_LAYOUT_DEPTH_STENCIL_ATTACHMENT_OPTIMAL => 3,
            VkImageLayout::VK_IMAGE_LAYOUT_DEPTH_STENCIL_READ_ONLY_OPTIMAL => 4,
            VkImageLayout::VK_IMAGE_LAYOUT_SHADER_READ_ONLY_OPTIMAL => 5,
            VkImageLayout::VK_IMAGE_LAYOUT_TRANSFER_SRC_OPTIMAL => 6,
            VkImageLayout::VK_IMAGE_LAYOUT_TRANSFER_DST_OPTIMAL => 7,
            VkImageLayout::VK_IMAGE_LAYOUT_PREINITIALIZED => 8,
            VkImageLayout::VK_IMAGE_LAYOUT_PRESENT_SRC_KHR => 1000001002,
            VkImageLayout::VK_IMAGE_LAYOUT_RANGE_SIZE => 9,
            VkImageLayout::VK_IMAGE_LAYOUT_MAX_ENUM => 2147483647,
        }
    }

    /// The enumerant whose Vulkan value is `raw`, if there is one.
    pub open spec fn from_value(raw: u32) -> Option<Self> {
        match raw {
            0 => Some(VkImageLayout::VK_IMAGE_LAYOUT_UNDEFINED),
            1 => Some(VkImageLayout::VK_IMAGE_LAYOUT_GENERAL),
            2 => Some(VkImageLayout::VK_IMAGE_LAYOUT_COLOR_ATTACHMENT_OPTIMAL),
            3 => Some(VkImageLayout::VK_IMAGE_LAYOUT_DEPTH_STENCIL_ATTACHMENT_OPTIMAL),
            4 => Some(VkImageLayout::VK_IMAGE_LAYOUT_DEPTH_STENCIL_READ_ONLY_OPTIMAL),
            5 => Some(VkImageLayout::VK_IMAGE_LAYOUT_SHADER_READ_ONLY_OPTIMAL),
            6 => Some(VkImageLayout::VK_IMAGE_LAYOUT_TRANSFER_SRC_OPTIMAL),
            7 => Some(VkImageLayout::VK_IMAGE_LAYOUT_TRANSFER_DST_OPTIMAL),
            8 => Some(VkImageLayout::VK_IMAGE_LAYOUT_PREINITIALIZED),
            1000001002 => Some(VkImageLayout::VK_IMAGE_LAYOUT_PRESENT_SRC_KHR),
            9 => Some(VkImageLayout::VK_IMAGE_LAYOUT_RANGE_SIZE),
            2147483647 => Some(VkImageLayout::VK_IMAGE_LAYOUT_MAX_ENUM),
            _ => None,
        }
    }

    pub fn as_raw(self) -> (r: u32)
        ensures
            r == self.value(),
    {
        match self {
            VkImageLayout::VK_IMAGE_LAYOUT_UNDEFINED => 0,
            VkImageLayout::VK_IMAGE_LAYOUT_GENERAL => 1,
            VkImageLayout::VK_IMAGE_LAYOUT_COLOR_ATTACHMENT_OPTIMAL => 2,
            VkImageLayout::VK_IMAGE_LAYOUT_DEPTH_STENCIL_ATTACHMENT_OPTIMAL => 3,
            VkImageLayout::VK_IMAGE_LAYOUT_DEPTH_STENCIL_READ_ONLY_OPTIMAL => 4,
            VkImageLayout::VK_IMAGE_LAYOUT_SHADER_READ_ONLY_OPTIMAL => 5,
            VkImageLayout::VK_IMAGE_LAYOUT_TRANSFER_SRC_OPTIMAL => 6,
            VkImageLayout::VK_IMAGE_LAYOUT_TRANSFER_DST_OPTIMAL => 7,
            VkImageLayout::VK_IMAGE_LAYOUT_PREINITIALIZED => 8,
            VkImageLayout::VK_IMAGE_LAYOUT_PRESENT_SRC_KHR => 1000001002,
            VkImageLayout::VK_IMAGE_LAYOUT_RANGE_SIZE => 9,
            VkImageLayout::VK_IMAGE_LAYOUT_MAX_ENUM => 2147483647,
        }
    }

    pub fn from_raw(raw: u32) -> (r: Option<Self>)
        ensures
            r == Self::from_value(raw),
    {
        match raw {
            0 => Some(VkImageLayout::VK_IMAGE_LAYOUT_UNDEFINED),
            1 => Some(VkImageLayout::VK_IMAGE_LAYOUT_GENERAL),
            2 => Some(VkImageLayout::VK_IMAGE_LAYOUT_COLOR_ATTACHMENT_OPTIMAL),
            3 => Some(VkImageLayout::VK_IMAGE_LAYOUT_DEPTH_STENCIL_ATTACHMENT_OPTIMAL),
            4 => Some(VkImageLayout::VK_IMAGE_LAYOUT_DEPTH_STENCIL_READ_ONLY_OPTIMAL),
            5 => Some(VkImageLayout::VK_IMAGE_LAYOUT_SHADER_READ_ONLY_OPTIMAL),
            6 => Some(VkImageLayout::VK_IMAGE_LAYOUT_TRANSFER_SRC_OPTIMAL),
            7 => Some(VkImageLayout::VK_IMAGE_LAYOUT_TRANSFER_DST_OPTIMAL),
            8 => Some(VkImageLayout::VK_IMAGE_LAYOUT_PREINITIALIZED),
            1000001002 => Some(VkImageLayout::VK_IMAGE_LAYOUT_PRESENT_SRC_KHR),
            9 => Some(VkImageLayout::VK_IMAGE_LAYOUT_RANGE_SIZE),
            2147483647 => Some(VkImageLayout::VK_IMAGE_LAYOUT_MAX_ENUM),
            _ => None,
        }
    }

    /// Reading back the value of an enumerant gives the enumerant.
    pub proof fn lemma_value_roundtrip(self)
        ensures
            Self::from_value(self.value()) == Some(self),
    {
    }
}

#[derive(Clone, Copy, Debug, PartialEq, Eq, Hash, Structural)]
pub enum VkImageViewType {
    VK_IMAGE_VIEW_TYPE_1D,
    VK_IMAGE_VIEW_TYPE_2D,
    VK_IMAGE_VIEW_TYPE_3D,
    VK_IMAGE_VIEW_TYPE_CUBE,
    VK_IMAGE_VIEW_TYPE_1D_ARRAY,
    VK_IMAGE_VIEW_TYPE_2D_ARRAY,
    VK_IMAGE_VIEW_TYPE_CUBE_ARRAY,
    VK_IMAGE_VIEW_TYPE_RANGE_SIZE,
    VK_IMAGE_VIEW_TYPE_MAX_ENUM,
}

impl VkImageViewType {
    /// The numeric value that the Vulkan API gives this enumerant.
    pub open spec fn value(self) -> u32 {
        match self {
            VkImageViewType::VK_IMAGE_VIEW_TYPE_1D => 0,
            VkImageViewType::VK_IMAGE_VIEW_TYPE_2D => 1,
            VkImageViewType::VK_IMAGE_VIEW_TYPE_3D => 2,
            VkImageViewType::VK_IMAGE_VIEW_TYPE_CUBE => 3,
            VkImageViewType::VK_IMAGE_VIEW_TYPE_1D_ARRAY => 4,
            VkImageViewType::VK_IMAGE_VIEW_TYPE_2D_ARRAY => 5,
            VkImageViewType::VK_IMAGE_VIEW_TYPE_CUBE_ARRAY => 6,
            VkImageViewType::VK_IMAGE_VIEW_TYPE_RANGE_SIZE => 7,
            VkImageViewType::VK_IMAGE_VIEW_TYPE_MAX_ENUM => 2147483647,
        }
    }

    /// The enumerant whose Vulkan value is `raw`, if there is one.
    pub open spec fn from_value(raw: u32) -> Option<Self> {
        match raw {
            0 => Some(VkImageViewType::VK_IMAGE_VIEW_TYPE_1D),
            1 => Some(VkImageViewType::VK_IMAGE_VIEW_TYPE_2D),
            2 => Some(VkImageViewType::VK_IMAGE_VIEW_TYPE_3D),
            3 => Some(VkImageViewType::VK_IMAGE_VIEW_TYPE_CUBE),
            4 => Some(VkImageViewType::VK_IMAGE_VIEW_TYPE_1D_ARRAY),
            5 => Some(VkImageViewType::VK_IMAGE_VIEW_TYPE_2D_ARRAY),
            6 => Some(VkImageViewType::VK_IMAGE_VIEW_TYPE_CUBE_ARRAY),
            7 => Some(VkImageViewType::VK_IMAGE_VIEW_TYPE_RANGE_SIZE),
            2147483647 => Some(VkImageViewType::VK_IMAGE_VIEW_TYPE_MAX_ENUM),
            _ => None,
        }
    }

    pub fn as_raw(self) -> (r: u32)
        ensures
            r == self.value(),
    {
        match self {
            VkImageViewType::VK_IMAGE_VIEW_TYPE_1D => 0,
            VkImageViewType::VK_IMAGE_VIEW_TYPE_2D => 1,
            VkImageViewType::VK_IMAGE_VIEW_TYPE_3D => 2,
            VkImageViewType::VK_IMAGE_VIEW_TYPE_CUBE => 3,
            VkImageViewType::VK_IMAGE_VIEW_TYPE_1D_ARRAY => 4,
            VkImageViewType::VK_IMAGE_VIEW_TYPE_2D_ARRAY => 5,
            VkImageViewType::VK_IMAGE_VIEW_TYPE_CUBE_ARRAY => 6,
            VkImageViewType::VK_IMAGE_VIEW_TYPE_RANGE_SIZE => 7,
            VkImageViewType::VK_IMAGE_VIEW_TYPE_MAX_ENUM => 2147483647,
        }
    }

    pub fn from_raw(raw: u32) -> (r: Option<Self>)
        ensures
            r == Self::from_value(raw),
    {
        match raw {
            0 => Some(VkImageViewType::VK_IMAGE_VIEW_TYPE_1D),
            1 => Some(VkImageViewType::VK_IMAGE_VIEW_TYPE_2D),
            2 => Some(VkImageViewType::VK_IMAGE_VIEW_TYPE_3D),
            3 => Some(VkImageViewType::VK_IMAGE_VIEW_TYPE_CUBE),
            4 => Some(VkImageViewType::VK_IMAGE_VIEW_TYPE_1D_ARRAY),
            5 => Some(VkImageViewType::VK_IMAGE_VIEW_TYPE_2D_ARRAY),
            6 => Some(VkImageViewType::VK_IMAGE_VIEW_TYPE_CUBE_ARRAY),
            7 => Some(VkImageViewType::VK_IMAGE_VIEW_TYPE_RANGE_SIZE),
            2147483647 => Some(VkImageViewType::VK_IMAGE_VIEW_TYPE_MAX_ENUM),
            _ => None,
        }
    }

    /// Reading back the value of an enumerant gives the enumerant.
    pub proof fn lemma_value_roundtrip(self)
        ensures
            Self::from_value(self.value()) == Some(self),
    {
    }
}

#[derive(Clone, Copy, Debug, PartialEq, Eq, Hash, Structural)]
pub enum VkComponentSwizzle {
    VK_COMPONENT_SWIZZLE_IDENTITY,
    VK_COMPONENT_SWIZZLE_ZERO,
    VK_COMPONENT_SWIZZLE_ONE,
    VK_COMPONENT_SWIZZLE_R,
    VK_COMPONENT_SWIZZLE_G,
    VK_COMPONENT_SWIZZLE_B,
    VK_COMPONENT_SWIZZLE_A,
    VK_COMPONENT_SWIZZLE_RANGE_SIZE,
    VK_COMPONENT_SWIZZLE_MAX_ENUM,
}

impl VkComponentSwizzle {
    /// The numeric value that the Vulkan API gives this enumerant.
    pub open spec fn value(self) -> u32 {
        match self {
            VkComponentSwizzle::VK_COMPONENT_SWIZZLE_IDENTITY => 0,
            VkComponentSwizzle::VK_COMPONENT_SWIZZLE_ZERO => 1,
            VkComponentSwizzle::VK_COMPONENT_SWIZZLE_ONE => 2,
            VkComponentSwizzle::VK_COMPONENT_SWIZZLE_R => 3,
            VkComponentSwizzle::VK_COMPONENT_SWIZZLE_G => 4,
            VkComponentSwizzle::VK_COMPONENT_SWIZZLE_B => 5,
            VkComponentSwizzle::VK_COMPONENT_SWIZZLE_A => 6,
            VkComponentSwizzle::VK_COMPONENT_SWIZZLE_RANGE_SIZE => 7,
            VkComponentSwizzle::VK_COMPONENT_SWIZZLE_MAX_ENUM => 2147483647,
        }
    }

    /// The enumerant whose Vulkan value is `raw`, if there is one.
    pub open spec fn from_value(raw: u32) -> Option<Self> {
        match raw {
            0 => Some(VkComponentSwizzle::VK_COMPONENT_SWIZZLE_IDENTITY),
            1 => Some(VkComponentSwizzle::VK_COMPONENT_SWIZZLE_ZERO),
            2 => Some(VkComponentSwizzle::VK_COMPONENT_SWIZZLE_ONE),
            3 => Some(VkComponentSwizzle::VK_COMPONENT_SWIZZLE_R),
            4 => Some(VkComponentSwizzle::VK_COMPONENT_SWIZZLE_G),
            5 => Some(VkComponentSwizzle::VK_COMPONENT_SWIZZLE_B),
            6 => Some(VkComponentSwizzle::VK_COMPONENT_SWIZZLE_A),
            7 => Some(VkComponentSwizzle::VK_COMPONENT_SWIZZLE_RANGE_SIZE),
            2147483647 => Some(VkComponentSwizzle::VK_COMPONENT_SWIZZLE_MAX_ENUM),
            _ => None,
        }
    }

    pub fn as_raw(self) -> (r: u32)
        ensures
            r == self.value(),
    {
        match self {
            VkComponentSwizzle::VK_COMPONENT_SWIZZLE_IDENTITY => 0,
            VkComponentSwizzle::VK_COMPONENT_SWIZZLE_ZERO => 1,
            VkComponentSwizzle::VK_COMPONENT_SWIZZLE_ONE => 2,
            VkComponentSwizzle::VK_COMPONENT_SWIZZLE_R => 3,
            VkComponentSwizzle::VK_COMPONENT_SWIZZLE_G => 4,
            VkComponentSwizzle::VK_COMPONENT_SWIZZLE_B => 5,
            VkComponentSwizzle::VK_COMPONENT_SWIZZLE_A => 6,
            VkComponentSwizzle::VK_COMPONENT_SWIZZLE_RANGE_SIZE => 7,
            VkComponentSwizzle::VK_COMPONENT_SWIZZLE_MAX_ENUM => 2147483647,
        }
    }

    pub fn from_raw(raw: u32) -> (r: Option<Self>)
        ensures
            r == Self::from_value(raw),
    {
        match raw {
            0 => Some(VkComponentSwizzle::VK_COMPONENT_SWIZZLE_IDENTITY),
            1 => Some(VkComponentSwizzle::VK_COMPONENT_SWIZZLE_ZERO),
            2 => Some(VkComponentSwizzle::VK_COMPONENT_SWIZZLE_ONE),
            3 => Some(VkComponentSwizzle::VK_COMPONENT_SWIZZLE_R),
            4 => Some(VkComponentSwizzle::VK_COMPONENT_SWIZZLE_G),
            5 => Some(VkComponentSwizzle::VK_COMPONENT_SWIZZLE_B),
            6 => Some(VkComponentSwizzle::VK_COMPONENT_SWIZZLE_A),
            7 => Some(VkComponentSwizzle::VK_COMPONENT_SWIZZLE_RANGE_SIZE),
            2147483647 => Some(VkComponentSwizzle::VK_COMPONENT_SWIZZLE_MAX_ENUM),
            _ => None,
        }
    }

    /// Reading back the value of an enumerant gives the enumerant.
    pub proof fn lemma_value_roundtrip(self)
        ensures
            Self::from_value(self.value()) == Some(self),
    {
    }
}

#[derive(Clone, Copy, Debug, PartialEq, Eq, Hash, Structural)]
pub enum VkVertexInputRate {
    VK_VERTEX_INPUT_RATE_VERTEX,
    VK_VERTEX_INPUT_RATE_INSTANCE,
    VK_VERTEX_INPUT_RATE_RANGE_SIZE,
    VK_VERTEX_INPUT_RATE_MAX_ENUM,
}

impl VkVertexInputRate {
    /// The numeric value that the Vulkan API gives this enumerant.
    pub open spec fn value(self) -> u32 {
        match self {
            VkVertexInputRate::VK_VERTEX_INPUT_RATE_VERTEX => 0,
            VkVertexInputRate::VK_VERTEX_INPUT_RATE_INSTANCE => 1,
            VkVertexInputRate::VK_VERTEX_INPUT_RATE_RANGE_SIZE => 2,
            VkVertexInputRate::VK_VERTEX_INPUT_RATE_MAX_ENUM => 2147483647,
        }
    }

    /// The enumerant whose Vulkan value is `raw`, if there is one.
    pub open spec fn from_value(raw: u32) -> Option<Self> {
        match raw {
            0 => Some(VkVertexInputRate::VK_VERTEX_INPUT_RATE_VERTEX),
            1 => Some(VkVertexInputRate::VK_VERTEX_INPUT_RATE_INSTANCE),
            2 => Some(VkVertexInputRate::VK_VERTEX_INPUT_RATE_RANGE_SIZE),
            2147483647 => Some(VkVertexInputRate::VK_VERTEX_INPUT_RATE_MAX_ENUM),
            _ => None,
        }
    }

    pub fn as_raw(self) -> (r: u32)
        ensures
            r == self.value(),
    {
        match self {
            VkVertexInputRate::VK_VERTEX_INPUT_RATE_VERTEX => 0,
            VkVertexInputRate::VK_VERTEX_INPUT_RATE_INSTANCE => 1,
            VkVertexInputRate::VK_VERTEX_INPUT_RATE_RANGE_SIZE => 2,
            VkVertexInputRate::VK_VERTEX_INPUT_RATE_MAX_ENUM => 2147483647,
        }
    }

    pub fn from_raw(raw: u32) -> (r: Option<Self>)
        ensures
            r == Self::from_value(raw),
    {
        match raw {
            0 => Some(VkVertexInputRate::VK_VERTEX_INPUT_RATE_VERTEX),
            1 => Some(VkVertexInputRate::VK_VERTEX_INPUT_RATE_INSTANCE),
            2 => Some(VkVertexInputRate::VK_VERTEX_INPUT_RATE_RANGE_SIZE),
            2147483647 => Some(VkVertexInputRate::VK_VERTEX_INPUT_RATE_MAX_ENUM),
            _ => None,
        }
    }

    /// Reading back the value of an enumerant gives the enumerant.
    pub proof fn lemma_value_roundtrip(self)
        ensures
            Self::from_value(self.value()) == Some(self),
    {
    }
}

#[derive(Clone, Copy, Debug, PartialEq, Eq, Hash, Structural)]
pub enum VkPrimitiveTopology {
    VK_PRIMITIVE_TOPOLOGY_POINT_LIST,
    VK_PRIMITIVE_TOPOLOGY_LINE_LIST,
    VK_PRIMITIVE_TOPOLOGY_LINE_STRIP,
    VK_PRIMITIVE_TOPOLOGY_TRIANGLE_LIST,
    VK_PRIMITIVE_TOPOLOGY_TRIANGLE_STRIP,
    VK_PRIMITIVE_TOPOLOGY_TRIANGLE_FAN,
    VK_PRIMITIVE_TOPOLOGY_LINE_LIST_WITH_ADJACENCY,
    VK_PRIMITIVE_TOPOLOGY_LINE_STRIP_WITH_ADJACENCY,
    VK_PRIMITIVE_TOPOLOGY_TRIANGLE_LIST_WITH_ADJACENCY,
    VK_PRIMITIVE_TOPOLOGY_TRIANGLE_STRIP_WITH_ADJACENCY,
    VK_PRIMITIVE_TOPOLOGY_PATCH_LIST,
    VK_PRIMITIVE_TOPOLOGY_RANGE_SIZE,
    VK_PRIMITIVE_TOPOLOGY_MAX_ENUM,
}

impl VkPrimitiveTopology {
    /// The numeric value that the Vulkan API gives this enumerant.
    pub open spec fn value(self) -> u32 {
        match self {
            VkPrimitiveTopology::VK_PRIMITIVE_TOPOLOGY_POINT_LIST => 0,
            VkPrimitiveTopology::VK_PRIMITIVE_TOPOLOGY_LINE_LIST => 1,
            VkPrimitiveTopology::VK_PRIMITIVE_TOPOLOGY_LINE_STRIP => 2,
            VkPrimitiveTopology::VK_PRIMITIVE_TOPOLOGY_TRIANGLE_LIST => 3,
            VkPrimitiveTopology::VK_PRIMITIVE_TOPOLOGY_TRIANGLE_STRIP => 4,
            VkPrimitiveTopology::VK_PRIMITIVE_TOPOLOGY_TRIANGLE_FAN => 5,
            VkPrimitiveTopology::VK_PRIMITIVE_TOPOLOGY_LINE_LIST_WITH_ADJACENCY => 6,
            VkPrimitiveTopology::VK_PRIMITIVE_TOPOLOGY_LINE_STRIP_WITH_ADJACENCY => 7,
            VkPrimitiveTopology::VK_PRIMITIVE_TOPOLOGY_TRIANGLE_LIST_WITH_ADJACENCY => 8,
            VkPrimitiveTopology::VK_PRIMITIVE_TOPOLOGY_TRIANGLE_STRIP_WITH_ADJACENCY => 9,
            VkPrimitiveTopology::VK_PRIMITIVE_TOPOLOGY_PATCH_LIST => 10,
            VkPrimitiveTopology::VK_PRIMITIVE_TOPOLOGY_RANGE_SIZE => 11,
            VkPrimitiveTopology::VK_PRIMITIVE_TOPOLOGY_MAX_ENUM => 2147483647,
        }
    }

    /// The enumerant whose Vulkan value is `raw`, if there is one.
    pub open spec fn from_value(raw: u32) -> Option<Self> {
        match raw {
            0 => Some(VkPrimitiveTopology::VK_PRIMITIVE_TOPOLOGY_POINT_LIST),
            1 => Some(VkPrimitiveTopology::VK_PRIMITIVE_TOPOLOGY_LINE_LIST),
            2 => Some(VkPrimitiveTopology::VK_PRIMITIVE_TOPOLOGY_LINE_STRIP),
            3 => Some(VkPrimitiveTopology::VK_PRIMITIVE_TOPOLOGY_TRIANGLE_LIST),
            4 => Some(VkPrimitiveTopology::VK_PRIMITIVE_TOPOLOGY_TRIANGLE_STRIP),
            5 => Some(VkPrimitiveTopology::VK_PRIMITIVE_TOPOLOGY_TRIANGLE_FAN),
            6 => Some(VkPrimitiveTopology::VK_PRIMITIVE_TOPOLOGY_LINE_LIST_WITH_ADJACENCY),
            7 => Some(VkPrimitiveTopology::VK_PRIMITIVE_TOPOLOGY_LINE_STRIP_WITH_ADJACENCY),
            8 => Some(VkPrimitiveTopology::VK_PRIMITIVE_TOPOLOGY_TRIANGLE_LIST_WITH_ADJACENCY),
            9 => Some(VkPrimitiveTopology::VK_PRIMITIVE_TOPOLOGY_TRIANGLE_STRIP_WITH_ADJACENCY),
            10 => Some(VkPrimitiveTopology::VK_PRIMITIVE_TOPOLOGY_PATCH_LIST),
            11 => Some(VkPrimitiveTopology::VK_PRIMITIVE_TOPOLOGY_RANGE_SIZE),
            2147483647 => Some(VkPrimitiveTopology::VK_PRIMITIVE_TOPOLOGY_MAX_ENUM),
            _ => None,
        }
    }

    pub fn as_raw(self) -> (r: u32)
        ensures
            r == self.value(),
    {
        match self {
            VkPrimitiveTopology::VK_PRIMITIVE_TOPOLOGY_POINT_LIST => 0,
            VkPrimitiveTopology::VK_PRIMITIVE_TOPOLOGY_LINE_LIST => 1,
            VkPrimitiveTopology::VK_PRIMITIVE_TOPOLOGY_LINE_STRIP => 2,
            VkPrimitiveTopology::VK_PRIMITIVE_TOPOLOGY_TRIANGLE_LIST => 3,
            VkPrimitiveTopology::VK_PRIMITIVE_TOPOLOGY_TRIANGLE_STRIP => 4,
            VkPrimitiveTopology::VK_PRIMITIVE_TOPOLOGY_TRIANGLE_FAN => 5,
            VkPrimitiveTopology::VK_PRIMITIVE_TOPOLOGY_LINE_LIST_WITH_ADJACENCY => 6,
            VkPrimitiveTopology::VK_PRIMITIVE_TOPOLOGY_LINE_STRIP_WITH_ADJACENCY => 7,
            VkPrimitiveTopology::VK_PRIMITIVE_TOPOLOGY_TRIANGLE_LIST_WITH_ADJACENCY => 8,
            VkPrimitiveTopology::VK_PRIMITIVE_TOPOLOGY_TRIANGLE_STRIP_WITH_ADJACENCY => 9,
            VkPrimitiveTopology::VK_PRIMITIVE_TOPOLOGY_PATCH_LIST => 10,
            VkPrimitiveTopology::VK_PRIMITIVE_TOPOLOGY_RANGE_SIZE => 11,
            VkPrimitiveTopology::VK_PRIMITIVE_TOPOLOGY_MAX_ENUM => 2147483647,
        }
    }

    pub fn from_raw(raw: u32) -> (r: Option<Self>)
        ensures
            r == Self::from_value(raw),
    {
        match raw {
            0 => Some(VkPrimitiveTopology::VK_PRIMITIVE_TOPOLOGY_POINT_LIST),
            1 => Some(VkPrimitiveTopology::VK_PRIMITIVE_TOPOLOGY_LINE_LIST),
            2 => Some(VkPrimitiveTopology::VK_PRIMITIVE_TOPOLOGY_LINE_STRIP),
            3 => Some(VkPrimitiveTopology::VK_PRIMITIVE_TOPOLOGY_TRIANGLE_LIST),
            4 => Some(VkPrimitiveTopology::VK_PRIMITIVE_TOPOLOGY_TRIANGLE_STRIP),
            5 => Some(VkPrimitiveTopology::VK_PRIMITIVE_TOPOLOGY_TRIANGLE_FAN),
            6 => Some(VkPrimitiveTopology::VK_PRIMITIVE_TOPOLOGY_LINE_LIST_WITH_ADJACENCY),
            7 => Some(VkPrimitiveTopology::VK_PRIMITIVE_TOPOLOGY_LINE_STRIP_WITH_ADJACENCY),
            8 => Some(VkPrimitiveTopology::VK_PRIMITIVE_TOPOLOGY_TRIANGLE_LIST_WITH_ADJACENCY),
            9 => Some(VkPrimitiveTopology::VK_PRIMITIVE_TOPOLOGY_TRIANGLE_STRIP_WITH_ADJACENCY),
            10 => Some(VkPrimitiveTopology::VK_PRIMITIVE_TOPOLOGY_PATCH_LIST),
            11 => Some(VkPrimitiveTopology::VK_PRIMITIVE_TOPOLOGY_RANGE_SIZE),
            2147483647 => Some(VkPrimitiveTopology::VK_PRIMITIVE_TOPOLOGY_MAX_ENUM),
            _ => None,
        }
    }

    /// Reading back the value of an enumerant gives the enumerant.
    pub proof fn lemma_value_roundtrip(self)
        ensures
            Self::from_value(self.value()) == Some(self),
    {
    }
}

#[derive(Clone, Copy, Debug, PartialEq, Eq, Hash, Structural)]
pub enum VkPolygonMode {
    VK_POLYGON_MODE_FILL,
    VK_POLYGON_MODE_LINE,
    VK_POLYGON_MODE_POINT,
    VK_POLYGON_MODE_RANGE_SIZE,
    VK_POLYGON_MODE_MAX_ENUM,
}

impl VkPolygonMode {
    /// The numeric value that the Vulkan API gives this enumerant.
    pub open spec fn value(self) -> u32 {
        match self {
            VkPolygonMode::VK_POLYGON_MODE_FILL => 0,
            VkPolygonMode::VK_POLYGON_MODE_LINE => 1,
            VkPolygonMode::VK_POLYGON_MODE_POINT => 2,
            VkPolygonMode::VK_POLYGON_MODE_RANGE_SIZE => 3,
            VkPolygonMode::VK_POLYGON_MODE_MAX_ENUM => 2147483647,
        }
    }

    /// The enumerant whose Vulkan value is `raw`, if there is one.
    pub open spec fn from_value(raw: u32) -> Option<Self> {
        match raw {
            0 => Some(VkPolygonMode::VK_POLYGON_MODE_FILL),
            1 => Some(VkPolygonMode::VK_POLYGON_MODE_LINE),
            2 => Some(VkPolygonMode::VK_POLYGON_MODE_POINT),
            3 => Some(VkPolygonMode::VK_POLYGON_MODE_RANGE_SIZE),
            2147483647 => Some(VkPolygonMode::VK_POLYGON_MODE_MAX_ENUM),
            _ => None,
        }
    }

    pub fn as_raw(self) -> (r: u32)
        ensures
            r == self.value(),
    {
        match self {
            VkPolygonMode::VK_POLYGON_MODE_FILL => 0,
            VkPolygonMode::VK_POLYGON_MODE_LINE => 1,
            VkPolygonMode::VK_POLYGON_MODE_POINT => 2,
            VkPolygonMode::VK_POLYGON_MODE_RANGE_SIZE => 3,
            VkPolygonMode::VK_POLYGON_MODE_MAX_ENUM => 2147483647,
        }
    }

    pub fn from_raw(raw: u32) -> (r: Option<Self>)
        ensures
            r == Self::from_value(raw),
    {
        match raw {
            0 => Some(VkPolygonMode::VK_POLYGON_MODE_FILL),
            1 => Some(VkPolygonMode::VK_POLYGON_MODE_LINE),
            2 => Some(VkPolygonMode::VK_POLYGON_MODE_POINT),
            3 => Some(VkPolygonMode::VK_POLYGON_MODE_RANGE_SIZE),
            2147483647 => Some(VkPolygonMode::VK_POLYGON_MODE_MAX_ENUM),
            _ => None,
        }
    }

    /// Reading back the value of an enumerant gives the enumerant.
    pub proof fn lemma_value_roundtrip(self)
        ensures
            Self::from_value(self.value()) == Some(self),
    {
    }
}

#[derive(Clone, Copy, Debug, PartialEq, Eq, Hash, Structural)]
pub enum VkFrontFace {
    VK_FRONT_FACE_COUNTER_CLOCKWISE,
    VK_FRONT_FACE_CLOCKWISE,
    VK_FRONT_FACE_RANGE_SIZE,
    VK_FRONT_FACE_MAX_ENUM,
}

impl VkFrontFace {
    /// The numeric value that the Vulkan API gives this enumerant.
    pub open spec fn value(self) -> u32 {
        match self {
            VkFrontFace::VK_FRONT_FACE_COUNTER_CLOCKWISE => 0,
            VkFrontFace::VK_FRONT_FACE_CLOCKWISE => 1,
            VkFrontFace::VK_FRONT_FACE_RANGE_SIZE => 2,
            VkFrontFace::VK_FRONT_FACE_MAX_ENUM => 2147483647,
        }
    }

    /// The enumerant whose Vulkan value is `raw`, if there is one.
    pub open spec fn from_value(raw: u32) -> Option<Self> {
        match raw {
            0 => Some(VkFrontFace::VK_FRONT_FACE_COUNTER_CLOCKWISE),
            1 => Some(VkFrontFace::VK_FRONT_FACE_CLOCKWISE),
            2 => Some(VkFrontFace::VK_FRONT_FACE_RANGE_SIZE),
            2147483647 => Some(VkFrontFace::VK_FRONT_FACE_MAX_ENUM),
            _ => None,
        }
    }

    pub fn as_raw(self) -> (r: u32)
        ensures
            r == self.value(),
    {
        match self {
            VkFrontFace::VK_FRONT_FACE_COUNTER_CLOCKWISE => 0,
            VkFrontFace::VK_FRONT_FACE_CLOCKWISE => 1,
            VkFrontFace::VK_FRONT_FACE_RANGE_SIZE => 2,
            VkFrontFace::VK_FRONT_FACE_MAX_ENUM => 2147483647,
        }
    }

    pub fn from_raw(raw: u32) -> (r: Option<Self>)
        ensures
            r == Self::from_value(raw),
    {
        match raw {
            0 => Some(VkFrontFace::VK_FRONT_FACE_COUNTER_CLOCKWISE),
            1 => Some(VkFrontFace::VK_FRONT_FACE_CLOCKWISE),
            2 => Some(VkFrontFace::VK_FRONT_FACE_RANGE_SIZE),
            2147483647 => Some(VkFrontFace::VK_FRONT_FACE_MAX_ENUM),
            _ => None,
        }
    }

    /// Reading back the value of an enumerant gives the enumerant.
    pub proof fn lemma_value_roundtrip(self)
        ensures
            Self::from_value(self.value()) == Some(self),
    {
    }
}

#[derive(Clone, Copy, Debug, PartialEq, Eq, Hash, Structural)]
pub enum VkCompareOp {
    VK_COMPARE_OP_NEVER,
    VK_COMPARE_OP_LESS,
    VK_COMPARE_OP_EQUAL,
    VK_COMPARE_OP_LESS_OR_EQUAL,
    VK_COMPARE_OP_GREATER,
    VK_COMPARE_OP_NOT_EQUAL,
    VK_COMPARE_OP_GREATER_OR_EQUAL,
    VK_COMPARE_OP_ALWAYS,
    VK_COMPARE_OP_RANGE_SIZE,
    VK_COMPARE_OP_MAX_ENUM,
}

impl VkCompareOp {
    /// The numeric value that the Vulkan API gives this enumerant.
    pub open spec fn value(self) -> u32 {
        match self {
            VkCompareOp::VK_COMPARE_OP_NEVER => 0,
            VkCompareOp::VK_COMPARE_OP_LESS => 1,
            VkCompareOp::VK_COMPARE_OP_EQUAL => 2,
            VkCompareOp::VK_COMPARE_OP_LESS_OR_EQUAL => 3,
            VkCompareOp::VK_COMPARE_OP_GREATER => 4,
            VkCompareOp::VK_COMPARE_OP_NOT_EQUAL => 5,
            VkCompareOp::VK_COMPARE_OP_GREATER_OR_EQUAL => 6,
            VkCompareOp::VK_COMPARE_OP_ALWAYS => 7,
            VkCompareOp::VK_COMPARE_OP_RANGE_SIZE => 8,
            VkCompareOp::VK_COMPARE_OP_MAX_ENUM => 2147483647,
        }
    }

    /// The enumerant whose Vulkan value is `raw`, if there is one.
    pub open spec fn from_value(raw: u32) -> Option<Self> {
        match raw {
            0 => Some(VkCompareOp::VK_COMPARE_OP_NEVER),
            1 => Some(VkCompareOp::VK_COMPARE_OP_LESS),
            2 => Some(VkCompareOp::VK_COMPARE_OP_EQUAL),
            3 => Some(VkCompareOp::VK_COMPARE_OP_LESS_OR_EQUAL),
            4 => Some(VkCompareOp::VK_COMPARE_OP_GREATER),
            5 => Some(VkCompareOp::VK_COMPARE_OP_NOT_EQUAL),
            6 => Some(VkCompareOp::VK_COMPARE_OP_GREATER_OR_EQUAL),
            7 => Some(VkCompareOp::VK_COMPARE_OP_ALWAYS),
            8 => Some(VkCompareOp::VK_COMPARE_OP_RANGE_SIZE),
            2147483647 => Some(VkCompareOp::VK_COMPARE_OP_MAX_ENUM),
            _ => None,
        }
    }

    pub fn as_raw(self) -> (r: u32)
        ensures
            r == self.value(),
    {
        match self {
            VkCompareOp::VK_COMPARE_OP_NEVER => 0,
            VkCompareOp::VK_COMPARE_OP_LESS => 1,
            VkCompareOp::VK_COMPARE_OP_EQUAL => 2,
            VkCompareOp::VK_COMPARE_OP_LESS_OR_EQUAL => 3,
            VkCompareOp::VK_COMPARE_OP_GREATER => 4,
            VkCompareOp::VK_COMPARE_OP_NOT_EQUAL => 5,
            VkCompareOp::VK_COMPARE_OP_GREATER_OR_EQUAL => 6,
            VkCompareOp::VK_COMPARE_OP_ALWAYS => 7,
            VkCompareOp::VK_COMPARE_OP_RANGE_SIZE => 8,
            VkCompareOp::VK_COMPARE_OP_MAX_ENUM => 2147483647,
        }
    }

    pub fn from_raw(raw: u32) -> (r: Option<Self>)
        ensures
            r == Self::from_value(raw),
    {
        match raw {
            0 => Some(VkCompareOp::VK_COMPARE_OP_NEVER),
            1 => Some(VkCompareOp::VK_COMPARE_OP_LESS),
            2 => Some(VkCompareOp::VK_COMPARE_OP_EQUAL),
            3 => Some(VkCompareOp::VK_COMPARE_OP_LESS_OR_EQUAL),
            4 => Some(VkCompareOp::VK_COMPARE_OP_GREATER),
            5 => Some(VkCompareOp::VK_COMPARE_OP_NOT_EQUAL),
            6 => Some(VkCompareOp::VK_COMPARE_OP_GREATER_OR_EQUAL),
            7 => Some(VkCompareOp::VK_COMPARE_OP_ALWAYS),
            8 => Some(VkCompareOp::VK_COMPARE_OP_RANGE_SIZE),
            2147483647 => Some(VkCompareOp::VK_COMPARE_OP_MAX_ENUM),
            _ => None,
        }
    }

    /// Reading back the value of an enumerant gives the enumerant.
    pub proof fn lemma_value_roundtrip(self)
        ensures
            Self::from_value(self.value()) == Some(self),
    {
    }
}

#[derive(Clone, Copy, Debug, PartialEq, Eq, Hash, Structural)]
pub enum VkStencilOp {
    VK_STENCIL_OP_KEEP,
    VK_STENCIL_OP_ZERO,
    VK_STENCIL_OP_REPLACE,
    VK_STENCIL_OP_INCREMENT_AND_CLAMP,
    VK_STENCIL_OP_DECREMENT_AND_CLAMP,
    VK_STENCIL_OP_INVERT,
    VK_STENCIL_OP_INCREMENT_AND_WRAP,
    VK_STENCIL_OP_DECREMENT_AND_WRAP,
    VK_STENCIL_OP_RANGE_SIZE,
    VK_STENCIL_OP_MAX_ENUM,
}

impl VkStencilOp {
    /// The numeric value that the Vulkan API gives this enumerant.
    pub open spec fn value(self) -> u32 {
        match self {
            VkStencilOp::VK_STENCIL_OP_KEEP => 0,
            VkStencilOp::VK_STENCIL_OP_ZERO => 1,
            VkStencilOp::VK_STENCIL_OP_REPLACE => 2,
            VkStencilOp::VK_STENCIL_OP_INCREMENT_AND_CLAMP => 3,
            VkStencilOp::VK_STENCIL_OP_DECREMENT_AND_CLAMP => 4,
            VkStencilOp::VK_STENCIL_OP_INVERT => 5,
            VkStencilOp::VK_STENCIL_OP_INCREMENT_AND_WRAP => 6,
            VkStencilOp::VK_STENCIL_OP_DECREMENT_AND_WRAP => 7,
            VkStencilOp::VK_STENCIL_OP_RANGE_SIZE => 8,
            VkStencilOp::VK_STENCIL_OP_MAX_ENUM => 2147483647,
        }
    }

    /// The enumerant whose Vulkan value is `raw`, if there is one.
    pub open spec fn from_value(raw: u32) -> Option<Self> {
        match raw {
            0 => Some(VkStencilOp::VK_STENCIL_OP_KEEP),
            1 => Some(VkStencilOp::VK_STENCIL_OP_ZERO),
            2 => Some(VkStencilOp::VK_STENCIL_OP_REPLACE),
            3 => Some(VkStencilOp::VK_STENCIL_OP_INCREMENT_AND_CLAMP),
            4 => Some(VkStencilOp::VK_STENCIL_OP_DECREMENT_AND_CLAMP),
            5 => Some(VkStencilOp::VK_STENCIL_OP_INVERT),
            6 => Some(VkStencilOp::VK_STENCIL_OP_INCREMENT_AND_WRAP),
            7 => Some(VkStencilOp::VK_STENCIL_OP_DECREMENT_AND_WRAP),
            8 => Some(VkStencilOp::VK_STENCIL_OP_RANGE_SIZE),
            2147483647 => Some(VkStencilOp::VK_STENCIL_OP_MAX_ENUM),
            _ => None,
        }
    }

    pub fn as_raw(self) -> (r: u32)
        ensures
            r == self.value(),
    {
        match self {
            VkStencilOp::VK_STENCIL_OP_KEEP => 0,
            VkStencilOp::VK_STENCIL_OP_ZERO => 1,
            VkStencilOp::VK_STENCIL_OP_REPLACE => 2,
            VkStencilOp::VK_STENCIL_OP_INCREMENT_AND_CLAMP => 3,
            VkStencilOp::VK_STENCIL_OP_DECREMENT_AND_CLAMP => 4,
            VkStencilOp::VK_STENCIL_OP_INVERT => 5,
            VkStencilOp::VK_STENCIL_OP_INCREMENT_AND_WRAP => 6,
            VkStencilOp::VK_STENCIL_OP_DECREMENT_AND_WRAP => 7,
            VkStencilOp::VK_STENCIL_OP_RANGE_SIZE => 8,
            VkStencilOp::VK_STENCIL_OP_MAX_ENUM => 2147483647,
        }
    }

    pub fn from_raw(raw: u32) -> (r: Option<Self>)
        ensures
            r == Self::from_value(raw),
    {
        match raw {
            0 => Some(VkStencilOp::VK_STENCIL_OP_KEEP),
            1 => Some(VkStencilOp::VK_STENCIL_OP_ZERO),
            2 => Some(VkStencilOp::VK_STENCIL_OP_REPLACE),
            3 => Some(VkStencilOp::VK_STENCIL_OP_INCREMENT_AND_CLAMP),
            4 => Some(VkStencilOp::VK_STENCIL_OP_DECREMENT_AND_CLAMP),
            5 => Some(VkStencilOp::VK_STENCIL_OP_INVERT),
            6 => Some(VkStencilOp::VK_STENCIL_OP_INCREMENT_AND_WRAP),
            7 => Some(VkStencilOp::VK_STENCIL_OP_DECREMENT_AND_WRAP),
            8 => Some(VkStencilOp::VK_STENCIL_OP_RANGE_SIZE),
            2147483647 => Some(VkStencilOp::VK_STENCIL_OP_MAX_ENUM),
            _ => None,
        }
    }

    /// Reading back the value of an enumerant gives the enumerant.
    pub proof fn lemma_value_roundtrip(self)
        ensures
            Self::from_value(self.value()) == Some(self),
    {
    }
}

#[derive(Clone, Copy, Debug, PartialEq, Eq, Hash, Structural)]
pub enum VkLogicOp {
    VK_LOGIC_OP_CLEAR,
    VK_LOGIC_OP_AND,
    VK_LOGIC_OP_AND_REVERSE,
    VK_LOGIC_OP_COPY,
    VK_LOGIC_OP_AND_INVERTED,
    VK_LOGIC_OP_NO_OP,
    VK_LOGIC_OP_XOR,
    VK_LOGIC_OP_OR,
    VK_LOGIC_OP_NOR,
    VK_LOGIC_OP_EQUIVALENT,
    VK_LOGIC_OP_INVERT,
    VK_LOGIC_OP_OR_REVERSE,
    VK_LOGIC_OP_COPY_INVERTED,
    VK_LOGIC_OP_OR_INVERTED,
    VK_LOGIC_OP_NAND,
    VK_LOGIC_OP_SET,
    VK_LOGIC_OP_RANGE_SIZE,
    VK_LOGIC_OP_MAX_ENUM,
}

impl VkLogicOp {
    /// The numeric value that the Vulkan API gives this enumerant.
    pub open spec fn value(self) -> u32 {
        match self {
            VkLogicOp::VK_LOGIC_OP_CLEAR => 0,
            VkLogicOp::VK_LOGIC_OP_AND => 1,
            VkLogicOp::VK_LOGIC_OP_AND_REVERSE => 2,
            VkLogicOp::VK_LOGIC_OP_COPY => 3,
            VkLogicOp::VK_LOGIC_OP_AND_INVERTED => 4,
            VkLogicOp::VK_LOGIC_OP_NO_OP => 5,
            VkLogicOp::VK_LOGIC_OP_XOR => 6,
            VkLogicOp::VK_LOGIC_OP_OR => 7,
            VkLogicOp::VK_LOGIC_OP_NOR => 8,
            VkLogicOp::VK_LOGIC_OP_EQUIVALENT => 9,
            VkLogicOp::VK_LOGIC_OP_INVERT => 10,
            VkLogicOp::VK_LOGIC_OP_OR_REVERSE => 11,
            VkLogicOp::VK_LOGIC_OP_COPY_INVERTED => 12,
            VkLogicOp::VK_LOGIC_OP_OR_INVERTED => 13,
            VkLogicOp::VK_LOGIC_OP_NAND => 14,
            VkLogicOp::VK_LOGIC_OP_SET => 15,
            VkLogicOp::VK_LOGIC_OP_RANGE_SIZE => 16,
            VkLogicOp::VK_LOGIC_OP_MAX_ENUM => 2147483647,
        }
    }

    /// The enumerant whose Vulkan value is `raw`, if there is one.
    pub open spec fn from_value(raw: u32) -> Option<Self> {
        match raw {
            0 => Some(VkLogicOp::VK_LOGIC_OP_CLEAR),
            1 => Some(VkLogicOp::VK_LOGIC_OP_AND),
            2 => Some(VkLogicOp::VK_LOGIC_OP_AND_REVERSE),
            3 => Some(VkLogicOp::VK_LOGIC_OP_COPY),
            4 => Some(VkLogicOp::VK_LOGIC_OP_AND_INVERTED),
            5 => Some(VkLogicOp::VK_LOGIC_OP_NO_OP),
            6 => Some(VkLogicOp::VK_LOGIC_OP_XOR),
            7 => Some(VkLogicOp::VK_LOGIC_OP_OR),
            8 => Some(VkLogicOp::VK_LOGIC_OP_NOR),
            9 => Some(VkLogicOp::VK_LOGIC_OP_EQUIVALENT),
            10 => Some(VkLogicOp::VK_LOGIC_OP_INVERT),
            11 => Some(VkLogicOp::VK_LOGIC_OP_OR_REVERSE),
            12 => Some(VkLogicOp::VK_LOGIC_OP_COPY_INVERTED),
            13 => Some(VkLogicOp::VK_LOGIC_OP_OR_INVERTED),
            14 => Some(VkLogicOp::VK_LOGIC_OP_NAND),
            15 => Some(VkLogicOp::VK_LOGIC_OP_SET),
            16 => Some(VkLogicOp::VK_LOGIC_OP_RANGE_SIZE),
            2147483647 => Some(VkLogicOp::VK_LOGIC_OP_MAX_ENUM),
            _ => None,
        }
    }

    pub fn as_raw(self) -> (r: u32)
        ensures
            r == self.value(),
    {
        match self {
            VkLogicOp::VK_LOGIC_OP_CLEAR => 0,
            VkLogicOp::VK_LOGIC_OP_AND => 1,
            VkLogicOp::VK_LOGIC_OP_AND_REVERSE => 2,
            VkLogicOp::VK_LOGIC_OP_COPY => 3,
            VkLogicOp::VK_LOGIC_OP_AND_INVERTED => 4,
            VkLogicOp::VK_LOGIC_OP_NO_OP => 5,
            VkLogicOp::VK_LOGIC_OP_XOR => 6,
            VkLogicOp::VK_LOGIC_OP_OR => 7,
            VkLogicOp::VK_LOGIC_OP_NOR => 8,
            VkLogicOp::VK_LOGIC_OP_EQUIVALENT => 9,
            VkLogicOp::VK_LOGIC_OP_INVERT => 10,
            VkLogicOp::VK_LOGIC_OP_OR_REVERSE => 11,
            VkLogicOp::VK_LOGIC_OP_COPY_INVERTED => 12,
            VkLogicOp::VK_LOGIC_OP_OR_INVERTED => 13,
            VkLogicOp::VK_LOGIC_OP_NAND => 14,
            VkLogicOp::VK_LOGIC_OP_SET => 15,
            VkLogicOp::VK_LOGIC_OP_RANGE_SIZE => 16,
            VkLogicOp::VK_LOGIC_OP_MAX_ENUM => 2147483647,
        }
    }

    pub fn from_raw(raw: u32) -> (r: Option<Self>)
        ensures
            r == Self::from_value(raw),
    {
        match raw {
            0 => Some(VkLogicOp::VK_LOGIC_OP_CLEAR),
            1 => Some(VkLogicOp::VK_LOGIC_OP_AND),
            2 => Some(VkLogicOp::VK_LOGIC_OP_AND_REVERSE),
            3 => Some(VkLogicOp::VK_LOGIC_OP_COPY),
            4 => Some(VkLogicOp::VK_LOGIC_OP_AND_INVERTED),
            5 => Some(VkLogicOp::VK_LOGIC_OP_NO_OP),
            6 => Some(VkLogicOp::VK_LOGIC_OP_XOR),
            7 => Some(VkLogicOp::VK_LOGIC_OP_OR),
            8 => Some(VkLogicOp::VK_LOGIC_OP_NOR),
            9 => Some(VkLogicOp::VK_LOGIC_OP_EQUIVALENT),
            10 => Some(VkLogicOp::VK_LOGIC_OP_INVERT),
            11 => Some(VkLogicOp::VK_LOGIC_OP_OR_REVERSE),
            12 => Some(VkLogicOp::VK_LOGIC_OP_COPY_INVERTED),
            13 => Some(VkLogicOp::VK_LOGIC_OP_OR_INVERTED),
            14 => Some(VkLogicOp::VK_LOGIC_OP_NAND),
            15 => Some(VkLogicOp::VK_LOGIC_OP_SET),
            16 => Some(VkLogicOp::VK_LOGIC_OP_RANGE_SIZE),
            2147483647 => Some(VkLogicOp::VK_LOGIC_OP_MAX_ENUM),
            _ => None,
        }
    }

    /// Reading back the value of an enumerant gives the enumerant.
    pub proof fn lemma_value_roundtrip(self)
        ensures
            Self::from_value(self.value()) == Some(self),
    {
    }
}

#[derive(Clone, Copy, Debug, PartialEq, Eq, Hash, Structural)]
pub enum VkBlendFactor {
    VK_BLEND_FACTOR_ZERO,
    VK_BLEND_FACTOR_ONE,
    VK_BLEND_FACTOR_SRC_COLOR,
    VK_BLEND_FACTOR_ONE_MINUS_SRC_COLOR,
    VK_BLEND_FACTOR_DST_COLOR,
    VK_BLEND_FACTOR_ONE_MINUS_DST_COLOR,
    VK_BLEND_FACTOR_SRC_ALPHA,
    VK_BLEND_FACTOR_ONE_MINUS_SRC_ALPHA,
    VK_BLEND_FACTOR_DST_ALPHA,
    VK_BLEND_FACTOR_ONE_MINUS_DST_ALPHA,
    VK_BLEND_FACTOR_CONSTANT_COLOR,
    VK_BLEND_FACTOR_ONE_MINUS_CONSTANT_COLOR,
    VK_BLEND_FACTOR_CONSTANT_ALPHA,
    VK_BLEND_FACTOR_ONE_MINUS_CONSTANT_ALPHA,
    VK_BLEND_FACTOR_SRC_ALPHA_SATURATE,
    VK_BLEND_FACTOR_SRC1_COLOR,
    VK_BLEND_FACTOR_ONE_MINUS_SRC1_COLOR,
    VK_BLEND_FACTOR_SRC1_ALPHA,
    VK_BLEND_FACTOR_ONE_MINUS_SRC1_ALPHA,
    VK_BLEND_FACTOR_RANGE_SIZE,
    VK_BLEND_FACTOR_MAX_ENUM,
}

impl VkBlendFactor {
    /// The numeric value that the Vulkan API gives this enumerant.
    pub open spec fn value(self) -> u32 {
        match self {
            VkBlendFactor::VK_BLEND_FACTOR_ZERO => 0,
            VkBlendFactor::VK_BLEND_FACTOR_ONE => 1,
            VkBlendFactor::VK_BLEND_FACTOR_SRC_COLOR => 2,
            VkBlendFactor::VK_BLEND_FACTOR_ONE_MINUS_SRC_COLOR => 3,
            VkBlendFactor::VK_BLEND_FACTOR_DST_COLOR => 4,
            VkBlendFactor::VK_BLEND_FACTOR_ONE_MINUS_DST_COLOR => 5,
            VkBlendFactor::VK_BLEND_FACTOR_SRC_ALPHA => 6,
            VkBlendFactor::VK_BLEND_FACTOR_ONE_MINUS_SRC_ALPHA => 7,
            VkBlendFactor::VK_BLEND_FACTOR_DST_ALPHA => 8,
            VkBlendFactor::VK_BLEND_FACTOR_ONE_MINUS_DST_ALPHA => 9,
            VkBlendFactor::VK_BLEND_FACTOR_CONSTANT_COLOR => 10,
            VkBlendFactor::VK_BLEND_FACTOR_ONE_MINUS_CONSTANT_COLOR => 11,
            VkBlendFactor::VK_BLEND_FACTOR_CONSTANT_ALPHA => 12,
            VkBlendFactor::VK_BLEND_FACTOR_ONE_MINUS_CONSTANT_ALPHA => 13,
            VkBlendFactor::VK_BLEND_FACTOR_SRC_ALPHA_SATURATE => 14,
            VkBlendFactor::VK_BLEND_FACTOR_SRC1_COLOR => 15,
            VkBlendFactor::VK_BLEND_FACTOR_ONE_MINUS_SRC1_COLOR => 16,
            VkBlendFactor::VK_BLEND_FACTOR_SRC1_ALPHA => 17,
            VkBlendFactor::VK_BLEND_FACTOR_ONE_MINUS_SRC1_ALPHA => 18,
            VkBlendFactor::VK_BLEND_FACTOR_RANGE_SIZE => 19,
            VkBlendFactor::VK_BLEND_FACTOR_MAX_ENUM => 2147483647,
        }
    }

    /// The enumerant whose Vulkan value is `raw`, if there is one.
    pub open spec fn from_value(raw: u32) -> Option<Self> {
        match raw {
            0 => Some(VkBlendFactor::VK_BLEND_FACTOR_ZERO),
            1 => Some(VkBlendFactor::VK_BLEND_FACTOR_ONE),
            2 => Some(VkBlendFactor::VK_BLEND_FACTOR_SRC_COLOR),
            3 => Some(VkBlendFactor::VK_BLEND_FACTOR_ONE_MINUS_SRC_COLOR),
            4 => Some(VkBlendFactor::VK_BLEND_FACTOR_DST_COLOR),
            5 => Some(VkBlendFactor::VK_BLEND_FACTOR_ONE_MINUS_DST_COLOR),
            6 => Some(VkBlendFactor::VK_BLEND_FACTOR_SRC_ALPHA),
            7 => Some(VkBlendFactor::VK_BLEND_FACTOR_ONE_MINUS_SRC_ALPHA),
            8 => Some(VkBlendFactor::VK_BLEND_FACTOR_DST_ALPHA),
            9 => Some(VkBlendFactor::VK_BLEND_FACTOR_ONE_MINUS_DST_ALPHA),
            10 => Some(VkBlendFactor::VK_BLEND_FACTOR_CONSTANT_COLOR),
            11 => Some(VkBlendFactor::VK_BLEND_FACTOR_ONE_MINUS_CONSTANT_COLOR),
            12 => Some(VkBlendFactor::VK_BLEND_FACTOR_CONSTANT_ALPHA),
            13 => Some(VkBlendFactor::VK_BLEND_FACTOR_ONE_MINUS_CONSTANT_ALPHA),
            14 => Some(VkBlendFactor::VK_BLEND_FACTOR_SRC_ALPHA_SATURATE),
            15 => Some(VkBlendFactor::VK_BLEND_FACTOR_SRC1_COLOR),
            16 => Some(VkBlendFactor::VK_BLEND_FACTOR_ONE_MINUS_SRC1_COLOR),
            17 => Some(VkBlendFactor::VK_BLEND_FACTOR_SRC1_ALPHA),
            18 => Some(VkBlendFactor::VK_BLEND_FACTOR_ONE_MINUS_SRC1_ALPHA),
            19 => Some(VkBlendFactor::VK_BLEND_FACTOR_RANGE_SIZE),
            2147483647 => Some(VkBlendFactor::VK_BLEND_FACTOR_MAX_ENUM),
            _ => None,
        }
    }

    pub fn as_raw(self) -> (r: u32)
        ensures
            r == self.value(),
    {
        match self {
            VkBlendFactor::VK_BLEND_FACTOR_ZERO => 0,
            VkBlendFactor::VK_BLEND_FACTOR_ONE => 1,
            VkBlendFactor::VK_BLEND_FACTOR_SRC_COLOR => 2,
            VkBlendFactor::VK_BLEND_FACTOR_ONE_MINUS_SRC_COLOR => 3,
            VkBlendFactor::VK_BLEND_FACTOR_DST_COLOR => 4,
            VkBlendFactor::VK_BLEND_FACTOR_ONE_MINUS_DST_COLOR => 5,
            VkBlendFactor::VK_BLEND_FACTOR_SRC_ALPHA => 6,
            VkBlendFactor::VK_BLEND_FACTOR_ONE_MINUS_SRC_ALPHA => 7,
            VkBlendFactor::VK_BLEND_FACTOR_DST_ALPHA => 8,
            VkBlendFactor::VK_BLEND_FACTOR_ONE_MINUS_DST_ALPHA => 9,
            VkBlendFactor::VK_BLEND_FACTOR_CONSTANT_COLOR => 10,
            VkBlendFactor::VK_BLEND_FACTOR_ONE_MINUS_CONSTANT_COLOR => 11,
            VkBlendFactor::VK_BLEND_FACTOR_CONSTANT_ALPHA => 12,
            VkBlendFactor::VK_BLEND_FACTOR_ONE_MINUS_CONSTANT_ALPHA => 13,
            VkBlendFactor::VK_BLEND_FACTOR_SRC_ALPHA_SATURATE => 14,
            VkBlendFactor::VK_BLEND_FACTOR_SRC1_COLOR => 15,
            VkBlendFactor::VK_BLEND_FACTOR_ONE_MINUS_SRC1_COLOR => 16,
            VkBlendFactor::VK_BLEND_FACTOR_SRC1_ALPHA => 17,
            VkBlendFactor::VK_BLEND_FACTOR_ONE_MINUS_SRC1_ALPHA => 18,
            VkBlendFactor::VK_BLEND_FACTOR_RANGE_SIZE => 19,
            VkBlendFactor::VK_BLEND_FACTOR_MAX_ENUM => 2147483647,
        }
    }

    pub fn from_raw(raw: u32) -> (r: Option<Self>)
        ensures
            r == Self::from_value(raw),
    {
        match raw {
            0 => Some(VkBlendFactor::VK_BLEND_FACTOR_ZERO),
            1 => Some(VkBlendFactor::VK_BLEND_FACTOR_ONE),
            2 => Some(VkBlendFactor::VK_BLEND_FACTOR_SRC_COLOR),
            3 => Some(VkBlendFactor::VK_BLEND_FACTOR_ONE_MINUS_SRC_COLOR),
            4 => Some(VkBlendFactor::VK_BLEND_FACTOR_DST_COLOR),
            5 => Some(VkBlendFactor::VK_BLEND_FACTOR_ONE_MINUS_DST_COLOR),
            6 => Some(VkBlendFactor::VK_BLEND_FACTOR_SRC_ALPHA),
            7 => Some(VkBlendFactor::VK_BLEND_FACTOR_ONE_MINUS_SRC_ALPHA),
            8 => Some(VkBlendFactor::VK_BLEND_FACTOR_DST_ALPHA),
            9 => Some(VkBlendFactor::VK_BLEND_FACTOR_ONE_MINUS_DST_ALPHA),
            10 => Some(VkBlendFactor::VK_BLEND_FACTOR_CONSTANT_COLOR),
            11 => Some(VkBlendFactor::VK_BLEND_FACTOR_ONE_MINUS_CONSTANT_COLOR),
            12 => Some(VkBlendFactor::VK_BLEND_FACTOR_CONSTANT_ALPHA),
            13 => Some(VkBlendFactor::VK_BLEND_FACTOR_ONE_MINUS_CONSTANT_ALPHA),
            14 => Some(VkBlendFactor::VK_BLEND_FACTOR_SRC_ALPHA_SATURATE),
            15 => Some(VkBlendFactor::VK_BLEND_FACTOR_SRC1_COLOR),
            16 => Some(VkBlendFactor::VK_BLEND_FACTOR_ONE_MINUS_SRC1_COLOR),
            17 => Some(VkBlendFactor::VK_BLEND_FACTOR_SRC1_ALPHA),
            18 => Some(VkBlendFactor::VK_BLEND_FACTOR_ONE_MINUS_SRC1_ALPHA),
            19 => Some(VkBlendFactor::VK_BLEND_FACTOR_RANGE_SIZE),
            2147483647 => Some(VkBlendFactor::VK_BLEND_FACTOR_MAX_ENUM),
            _ => None,
        }
    }

    /// Reading back the value of an enumerant gives the enumerant.
    pub proof fn lemma_value_roundtrip(self)
        ensures
            Self::from_value(self.value()) == Some(self),
    {
    }
}

#[derive(Clone, Copy, Debug, PartialEq, Eq, Hash, Structural)]
pub enum VkBlendOp {
    VK_BLEND_OP_ADD,
    VK_BLEND_OP_SUBTRACT,
    VK_BLEND_OP_REVERSE_SUBTRACT,
    VK_BLEND_OP_MIN,
    VK_BLEND_OP_MAX,
    VK_BLEND_OP_RANGE_SIZE,
    VK_BLEND_OP_MAX_ENUM,
}

impl VkBlendOp {
    /// The numeric value that the Vulkan API gives this enumerant.
    pub open spec fn value(self) -> u32 {
        match self {
            VkBlendOp::VK_BLEND_OP_ADD => 0,
            VkBlendOp::VK_BLEND_OP_SUBTRACT => 1,
            VkBlendOp::VK_BLEND_OP_REVERSE_SUBTRACT => 2,
            VkBlendOp::VK_BLEND_OP_MIN => 3,
            VkBlendOp::VK_BLEND_OP_MAX => 4,
            VkBlendOp::VK_BLEND_OP_RANGE_SIZE => 5,
            VkBlendOp::VK_BLEND_OP_MAX_ENUM => 2147483647,
        }
    }

    /// The enumerant whose Vulkan value is `raw`, if there is one.
    pub open spec fn from_value(raw: u32) -> Option<Self> {
        match raw {
            0 => Some(VkBlendOp::VK_BLEND_OP_ADD),
            1 => Some(VkBlendOp::VK_BLEND_OP_SUBTRACT),
            2 => Some(VkBlendOp::VK_BLEND_OP_REVERSE_SUBTRACT),
            3 => Some(VkBlendOp::VK_BLEND_OP_MIN),
            4 => Some(VkBlendOp::VK_BLEND_OP_MAX),
            5 => Some(VkBlendOp::VK_BLEND_OP_RANGE_SIZE),
            2147483647 => Some(VkBlendOp::VK_BLEND_OP_MAX_ENUM),
            _ => None,
        }
    }

    pub fn as_raw(self) -> (r: u32)
        ensures
            r == self.value(),
    {
        match self {
            VkBlendOp::VK_BLEND_OP_ADD => 0,
            VkBlendOp::VK_BLEND_OP_SUBTRACT => 1,
            VkBlendOp::VK_BLEND_OP_REVERSE_SUBTRACT => 2,
            VkBlendOp::VK_BLEND_OP_MIN => 3,
            VkBlendOp::VK_BLEND_OP_MAX => 4,
            VkBlendOp::VK_BLEND_OP_RANGE_SIZE => 5,
            VkBlendOp::VK_BLEND_OP_MAX_ENUM => 2147483647,
        }
    }

    pub fn from_raw(raw: u32) -> (r: Option<Self>)
        ensures
            r == Self::from_value(raw),
    {
        match raw {
            0 => Some(VkBlendOp::VK_BLEND_OP_ADD),
            1 => Some(VkBlendOp::VK_BLEND_OP_SUBTRACT),
            2 => Some(VkBlendOp::VK_BLEND_OP_REVERSE_SUBTRACT),
            3 => Some(VkBlendOp::VK_BLEND_OP_MIN),
            4 => Some(VkBlendOp::VK_BLEND_OP_MAX),
            5 => Some(VkBlendOp::VK_BLEND_OP_RANGE_SIZE),
            2147483647 => Some(VkBlendOp::VK_BLEND_OP_MAX_ENUM),
            _ => None,
        }
    }

    /// Reading back the value of an enumerant gives the enumerant.
    pub proof fn lemma_value_roundtrip(self)
        ensures
            Self::from_value(self.value()) == Some(self),
    {
    }
}

#[derive(Clone, Copy, Debug, PartialEq, Eq, Hash, Structural)]
pub enum VkDynamicState {
    VK_DYNAMIC_STATE_VIEWPORT,
    VK_DYNAMIC_STATE_SCISSOR,
    VK_DYNAMIC_STATE_LINE_WIDTH,
    VK_DYNAMIC_STATE_DEPTH_BIAS,
    VK_DYNAMIC_STATE_BLEND_CONSTANTS,
    VK_DYNAMIC_STATE_DEPTH_BOUNDS,
    VK_DYNAMIC_STATE_STENCIL_COMPARE_MASK,
    VK_DYNAMIC_STATE_STENCIL_WRITE_MASK,
    VK_DYNAMIC_STATE_STENCIL_REFERENCE,
    VK_DYNAMIC_STATE_VIEWPORT_W_SCALING_NV,
    VK_DYNAMIC_STATE_DISCARD_RECTANGLE_EXT,
    VK_DYNAMIC_STATE_RANGE_SIZE,
    VK_DYNAMIC_STATE_MAX_ENUM,
}

impl VkDynamicState {
    /// The numeric value that the Vulkan API gives this enumerant.
    pub open spec fn value(self) -> u32 {
        match self {
            VkDynamicState::VK_DYNAMIC_STATE_VIEWPORT => 0,
            VkDynamicState::VK_DYNAMIC_STATE_SCISSOR => 1,
            VkDynamicState::VK_DYNAMIC_STATE_LINE_WIDTH => 2,
            VkDynamicState::VK_DYNAMIC_STATE_DEPTH_BIAS => 3,
            VkDynamicState::VK_DYNAMIC_STATE_BLEND_CONSTANTS => 4,
            VkDynamicState::VK_DYNAMIC_STATE_DEPTH_BOUNDS => 5,
            VkDynamicState::VK_DYNAMIC_STATE_STENCIL_COMPARE_MASK => 6,
            VkDynamicState::VK_DYNAMIC_STATE_STENCIL_WRITE_MASK => 7,
            VkDynamicState::VK_DYNAMIC_STATE_STENCIL_REFERENCE => 8,
            VkDynamicState::VK_DYNAMIC_STATE_VIEWPORT_W_SCALING_NV => 1000087000,
            VkDynamicState::VK_DYNAMIC_STATE_DISCARD_RECTANGLE_EXT => 1000099000,
            VkDynamicState::VK_DYNAMIC_STATE_RANGE_SIZE => 9,
            VkDynamicState::VK_DYNAMIC_STATE_MAX_ENUM => 2147483647,
        }
    }

    /// The enumerant whose Vulkan value is `raw`, if there is one.
    pub open spec fn from_value(raw: u32) -> Option<Self> {
        match raw {
            0 => Some(VkDynamicState::VK_DYNAMIC_STATE_VIEWPORT),
            1 => Some(VkDynamicState::VK_DYNAMIC_STATE_SCISSOR),
            2 => Some(VkDynamicState::VK_DYNAMIC_STATE_LINE_WIDTH),
            3 => Some(VkDynamicState::VK_DYNAMIC_STATE_DEPTH_BIAS),
            4 => Some(VkDynamicState::VK_DYNAMIC_STATE_BLEND_CONSTANTS),
            5 => Some(VkDynamicState::VK_DYNAMIC_STATE_DEPTH_BOUNDS),
            6 => Some(VkDynamicState::VK_DYNAMIC_STATE_STENCIL_COMPARE_MASK),
            7 => Some(VkDynamicState::VK_DYNAMIC_STATE_STENCIL_WRITE_MASK),
            8 => Some(VkDynamicState::VK_DYNAMIC_STATE_STENCIL_REFERENCE),
            1000087000 => Some(VkDynamicState::VK_DYNAMIC_STATE_VIEWPORT_W_SCALING_NV),
            1000099000 => Some(VkDynamicState::VK_DYNAMIC_STATE_DISCARD_RECTANGLE_EXT),
            9 => Some(VkDynamicState::VK_DYNAMIC_STATE_RANGE_SIZE),
            2147483647 => Some(VkDynamicState::VK_DYNAMIC_STATE_MAX_ENUM),
            _ => None,
        }
    }

    pub fn as_raw(self) -> (r: u32)
        ensures
            r == self.value(),
    {
        match self {
            VkDynamicState::VK_DYNAMIC_STATE_VIEWPORT => 0,
            VkDynamicState::VK_DYNAMIC_STATE_SCISSOR => 1,
            VkDynamicState::VK_DYNAMIC_STATE_LINE_WIDTH => 2,
            VkDynamicState::VK_DYNAMIC_STATE_DEPTH_BIAS => 3,
            VkDynamicState::VK_DYNAMIC_STATE_BLEND_CONSTANTS => 4,
            VkDynamicState::VK_DYNAMIC_STATE_DEPTH_BOUNDS => 5,
            VkDynamicState::VK_DYNAMIC_STATE_STENCIL_COMPARE_MASK => 6,
            VkDynamicState::VK_DYNAMIC_STATE_STENCIL_WRITE_MASK => 7,
            VkDynamicState::VK_DYNAMIC_STATE_STENCIL_REFERENCE => 8,
            VkDynamicState::VK_DYNAMIC_STATE_VIEWPORT_W_SCALING_NV => 1000087000,
            VkDynamicState::VK_DYNAMIC_STATE_DISCARD_RECTANGLE_EXT => 1000099000,
            VkDynamicState::VK_DYNAMIC_STATE_RANGE_SIZE => 9,
            VkDynamicState::VK_DYNAMIC_STATE_MAX_ENUM => 2147483647,
        }
    }

    pub fn from_raw(raw: u32) -> (r: Option<Self>)
        ensures
            r == Self::from_value(raw),
    {
        match raw {
            0 => Some(VkDynamicState::VK_DYNAMIC_STATE_VIEWPORT),
            1 => Some(VkDynamicState::VK_DYNAMIC_STATE_SCISSOR),
            2 => Some(VkDynamicState::VK_DYNAMIC_STATE_LINE_WIDTH),
            3 => Some(VkDynamicState::VK_DYNAMIC_STATE_DEPTH_BIAS),
            4 => Some(VkDynamicState::VK_DYNAMIC_STATE_BLEND_CONSTANTS),
            5 => Some(VkDynamicState::VK_DYNAMIC_STATE_DEPTH_BOUNDS),
            6 => Some(VkDynamicState::VK_DYNAMIC_STATE_STENCIL_COMPARE_MASK),
            7 => Some(VkDynamicState::VK_DYNAMIC_STATE_STENCIL_WRITE_MASK),
            8 => Some(VkDynamicState::VK_DYNAMIC_STATE_STENCIL_REFERENCE),
            1000087000 => Some(VkDynamicState::VK_DYNAMIC_STATE_VIEWPORT_W_SCALING_NV),
            1000099000 => Some(VkDynamicState::VK_DYNAMIC_STATE_DISCARD_RECTANGLE_EXT),
            9 => Some(VkDynamicState::VK_DYNAMIC_STATE_RANGE_SIZE),
            2147483647 => Some(VkDynamicState::VK_DYNAMIC_STATE_MAX_ENUM),
            _ => None,
        }
    }

    /// Reading back the value of an enumerant gives the enumerant.
    pub proof fn lemma_value_roundtrip(self)
        ensures
            Self::from_value(self.value()) == Some(self),
    {
    }
}

#[derive(Clone, Copy, Debug, PartialEq, Eq, Hash, Structural)]
pub enum VkFilter {
    VK_FILTER_NEAREST,
    VK_FILTER_LINEAR,
    VK_FILTER_CUBIC_IMG,
    VK_FILTER_RANGE_SIZE,
    VK_FILTER_MAX_ENUM,
}

impl VkFilter {
    /// The numeric value that the Vulkan API gives this enumerant.
    pub open spec fn value(self) -> u32 {
        match self {
            VkFilter::VK_FILTER_NEAREST => 0,
            VkFilter::VK_FILTER_LINEAR => 1,
            VkFilter::VK_FILTER_CUBIC_IMG => 1000015000,
            VkFilter::VK_FILTER_RANGE_SIZE => 2,
            VkFilter::VK_FILTER_MAX_ENUM => 2147483647,
        }
    }

    /// The enumerant whose Vulkan value is `raw`, if there is one.
    pub open spec fn from_value(raw: u32) -> Option<Self> {
        match raw {
            0 => Some(VkFilter::VK_FILTER_NEAREST),
            1 => Some(VkFilter::VK_FILTER_LINEAR),
            1000015000 => Some(VkFilter::VK_FILTER_CUBIC_IMG),
            2 => Some(VkFilter::VK_FILTER_RANGE_SIZE),
            2147483647 => Some(VkFilter::VK_FILTER_MAX_ENUM),
            _ => None,
        }
    }

    pub fn as_raw(self) -> (r: u32)
        ensures
            r == self.value(),
    {
        match self {
            VkFilter::VK_FILTER_NEAREST => 0,
            VkFilter::VK_FILTER_LINEAR => 1,
            VkFilter::VK_FILTER_CUBIC_IMG => 1000015000,
            VkFilter::VK_FILTER_RANGE_SIZE => 2,
            VkFilter::VK_FILTER_MAX_ENUM => 2147483647,
        }
    }

    pub fn from_raw(raw: u32) -> (r: Option<Self>)
        ensures
            r == Self::from_value(raw),
    {
        match raw {
            0 => Some(VkFilter::VK_FILTER_NEAREST),
            1 => Some(VkFilter::VK_FILTER_LINEAR),
            1000015000 => Some(VkFilter::VK_FILTER_CUBIC_IMG),
            2 => Some(VkFilter::VK_FILTER_RANGE_SIZE),
            2147483647 => Some(VkFilter::VK_FILTER_MAX_ENUM),
            _ => None,
        }
    }

    /// Reading back the value of an enumerant gives the enumerant.
    pub proof fn lemma_value_roundtrip(self)
        ensures
            Self::from_value(self.value()) == Some(self),
    {
    }
}

#[derive(Clone, Copy, Debug, PartialEq, Eq, Hash, Structural)]
pub enum VkSamplerMipmapMode {
    VK_SAMPLER_MIPMAP_MODE_NEAREST,
    VK_SAMPLER_MIPMAP_MODE_LINEAR,
    VK_SAMPLER_MIPMAP_MODE_RANGE_SIZE,
    VK_SAMPLER_MIPMAP_MODE_MAX_ENUM,
}

impl VkSamplerMipmapMode {
    /// The numeric value that the Vulkan API gives this enumerant.
    pub open spec fn value(self) -> u32 {
        match self {
            VkSamplerMipmapMode::VK_SAMPLER_MIPMAP_MODE_NEAREST => 0,
            VkSamplerMipmapMode::VK_SAMPLER_MIPMAP_MODE_LINEAR => 1,
            VkSamplerMipmapMode::VK_SAMPLER_MIPMAP_MODE_RANGE_SIZE => 2,
            VkSamplerMipmapMode::VK_SAMPLER_MIPMAP_MODE_MAX_ENUM => 2147483647,
        }
    }

    /// The enumerant whose Vulkan value is `raw`, if there is one.
    pub open spec fn from_value(raw: u32) -> Option<Self> {
        match raw {
            0 => Some(VkSamplerMipmapMode::VK_SAMPLER_MIPMAP_MODE_NEAREST),
            1 => Some(VkSamplerMipmapMode::VK_SAMPLER_MIPMAP_MODE_LINEAR),
            2 => Some(VkSamplerMipmapMode::VK_SAMPLER_MIPMAP_MODE_RANGE_SIZE),
            2147483647 => Some(VkSamplerMipmapMode::VK_SAMPLER_MIPMAP_MODE_MAX_ENUM),
            _ => None,
        }
    }

    pub fn as_raw(self) -> (r: u32)
        ensures
            r == self.value(),
    {
        match self {
            VkSamplerMipmapMode::VK_SAMPLER_MIPMAP_MODE_NEAREST => 0,
            VkSamplerMipmapMode::VK_SAMPLER_MIPMAP_MODE_LINEAR => 1,
            VkSamplerMipmapMode::VK_SAMPLER_MIPMAP_MODE_RANGE_SIZE => 2,
            VkSamplerMipmapMode::VK_SAMPLER_MIPMAP_MODE_MAX_ENUM => 2147483647,
        }
    }

    pub fn from_raw(raw: u32) -> (r: Option<Self>)
        ensures
            r == Self::from_value(raw),
    {
        match raw {
            0 => Some(VkSamplerMipmapMode::VK_SAMPLER_MIPMAP_MODE_NEAREST),
            1 => Some(VkSamplerMipmapMode::VK_SAMPLER_MIPMAP_MODE_LINEAR),
            2 => Some(VkSamplerMipmapMode::VK_SAMPLER_MIPMAP_MODE_RANGE_SIZE),
            2147483647 => Some(VkSamplerMipmapMode::VK_SAMPLER_MIPMAP_MODE_MAX_ENUM),
            _ => None,
        }
    }

    /// Reading back the value of an enumerant gives the enumerant.
    pub proof fn lemma_value_roundtrip(self)
        ensures
            Self::from_value(self.value()) == Some(self),
    {
    }
}

#[derive(Clone, Copy, Debug, PartialEq, Eq, Hash, Structural)]
pub enum VkSamplerAddressMode {
    VK_SAMPLER_ADDRESS_MODE_REPEAT,
    VK_SAMPLER_ADDRESS_MODE_MIRRORED_REPEAT,
    VK_SAMPLER_ADDRESS_MODE_CLAMP_TO_EDGE,
    VK_SAMPLER_ADDRESS_MODE_CLAMP_TO_BORDER,
    VK_SAMPLER_ADDRESS_MODE_MIRROR_CLAMP_TO_EDGE,
    VK_SAMPLER_ADDRESS_MODE_MAX_ENUM,
}

impl VkSamplerAddressMode {
    /// The numeric value that the Vulkan API gives this enumerant.
    pub open spec fn value(self) -> u32 {
        match self {
            VkSamplerAddressMode::VK_SAMPLER_ADDRESS_MODE_REPEAT => 0,
            VkSamplerAddressMode::VK_SAMPLER_ADDRESS_MODE_MIRRORED_REPEAT => 1,
            VkSamplerAddressMode::VK_SAMPLER_ADDRESS_MODE_CLAMP_TO_EDGE => 2,
            VkSamplerAddressMode::VK_SAMPLER_ADDRESS_MODE_CLAMP_TO_BORDER => 3,
            VkSamplerAddressMode::VK_SAMPLER_ADDRESS_MODE_MIRROR_CLAMP_TO_EDGE => 4,
            VkSamplerAddressMode::VK_SAMPLER_ADDRESS_MODE_MAX_ENUM => 2147483647,
        }
    }

    /// The enumerant whose Vulkan value is `raw`, if there is one.
    pub open spec fn from_value(raw: u32) -> Option<Self> {
        match raw {
            0 => Some(VkSamplerAddressMode::VK_SAMPLER_ADDRESS_MODE_REPEAT),
            1 => Some(VkSamplerAddressMode::VK_SAMPLER_ADDRESS_MODE_MIRRORED_REPEAT),
            2 => Some(VkSamplerAddressMode::VK_SAMPLER_ADDRESS_MODE_CLAMP_TO_EDGE),
            3 => Some(VkSamplerAddressMode::VK_SAMPLER_ADDRESS_MODE_CLAMP_TO_BORDER),
            4 => Some(VkSamplerAddressMode::VK_SAMPLER_ADDRESS_MODE_MIRROR_CLAMP_TO_EDGE),
            2147483647 => Some(VkSamplerAddressMode::VK_SAMPLER_ADDRESS_MODE_MAX_ENUM),
            _ => None,
        }
    }

    pub fn as_raw(self) -> (r: u32)
        ensures
            r == self.value(),
    {
        match self {
            VkSamplerAddressMode::VK_SAMPLER_ADDRESS_MODE_REPEAT => 0,
            VkSamplerAddressMode::VK_SAMPLER_ADDRESS_MODE_MIRRORED_REPEAT => 1,
            VkSamplerAddressMode::VK_SAMPLER_ADDRESS_MODE_CLAMP_TO_EDGE => 2,
            VkSamplerAddressMode::VK_SAMPLER_ADDRESS_MODE_CLAMP_TO_BORDER => 3,
            VkSamplerAddressMode::VK_SAMPLER_ADDRESS_MODE_MIRROR_CLAMP_TO_EDGE => 4,
            VkSamplerAddressMode::VK_SAMPLER_ADDRESS_MODE_MAX_ENUM => 2147483647,
        }
    }

    pub fn from_raw(raw: u32) -> (r: Option<Self>)
        ensures
            r == Self::from_value(raw),
    {
        match raw {
            0 => Some(VkSamplerAddressMode::VK_SAMPLER_ADDRESS_MODE_REPEAT),
            1 => Some(VkSamplerAddressMode::VK_SAMPLER_ADDRESS_MODE_MIRRORED_REPEAT),
            2 => Some(VkSamplerAddressMode::VK_SAMPLER_ADDRESS_MODE_CLAMP_TO_EDGE),
            3 => Some(VkSamplerAddressMode::VK_SAMPLER_ADDRESS_MODE_CLAMP_TO_BORDER),
            4 => Some(VkSamplerAddressMode::VK_SAMPLER_ADDRESS_MODE_MIRROR_CLAMP_TO_EDGE),
            2147483647 => Some(VkSamplerAddressMode::VK_SAMPLER_ADDRESS_MODE_MAX_ENUM),
            _ => None,
        }
    }

    /// Reading back the value of an enumerant gives the enumerant.
    pub proof fn lemma_value_roundtrip(self)
        ensures
            Self::from_value(self.value()) == Some(self),
    {
    }
}

#[derive(Clone, Copy, Debug, PartialEq, Eq, Hash, Structural)]
pub enum VkBorderColor {
    VK_BORDER_COLOR_FLOAT_TRANSPARENT_BLACK,
    VK_BORDER_COLOR_INT_TRANSPARENT_BLACK,
    VK_BORDER_COLOR_FLOAT_OPAQUE_BLACK,
    VK_BORDER_COLOR_INT_OPAQUE_BLACK,
    VK_BORDER_COLOR_FLOAT_OPAQUE_WHITE,
    VK_BORDER_COLOR_INT_OPAQUE_WHITE,
    VK_BORDER_COLOR_RANGE_SIZE,
    VK_BORDER_COLOR_MAX_ENUM,
}

impl VkBorderColor {
    /// The numeric value that the Vulkan API gives this enumerant.
    pub open spec fn value(self) -> u32 {
        match self {
            VkBorderColor::VK_BORDER_COLOR_FLOAT_TRANSPARENT_BLACK => 0,
            VkBorderColor::VK_BORDER_COLOR_INT_TRANSPARENT_BLACK => 1,
            VkBorderColor::VK_BORDER_COLOR_FLOAT_OPAQUE_BLACK => 2,
            VkBorderColor::VK_BORDER_COLOR_INT_OPAQUE_BLACK => 3,
            VkBorderColor::VK_BORDER_COLOR_FLOAT_OPAQUE_WHITE => 4,
            VkBorderColor::VK_BORDER_COLOR_INT_OPAQUE_WHITE => 5,
            VkBorderColor::VK_BORDER_COLOR_RANGE_SIZE => 6,
            VkBorderColor::VK_BORDER_COLOR_MAX_ENUM => 2147483647,
        }
    }

    /// The enumerant whose Vulkan value is `raw`, if there is one.
    pub open spec fn from_value(raw: u32) -> Option<Self> {
        match raw {
            0 => Some(VkBorderColor::VK_BORDER_COLOR_FLOAT_TRANSPARENT_BLACK),
            1 => Some(VkBorderColor::VK_BORDER_COLOR_INT_TRANSPARENT_BLACK),
            2 => Some(VkBorderColor::VK_BORDER_COLOR_FLOAT_OPAQUE_BLACK),
            3 => Some(VkBorderColor::VK_BORDER_COLOR_INT_OPAQUE_BLACK),
            4 => Some(VkBorderColor::VK_BORDER_COLOR_FLOAT_OPAQUE_WHITE),
            5 => Some(VkBorderColor::VK_BORDER_COLOR_INT_OPAQUE_WHITE),
            6 => Some(VkBorderColor::VK_BORDER_COLOR_RANGE_SIZE),
            2147483647 => Some(VkBorderColor::VK_BORDER_COLOR_MAX_ENUM),
            _ => None,
        }
    }

    pub fn as_raw(self) -> (r: u32)
        ensures
            r == self.value(),
    {
        match self {
            VkBorderColor::VK_BORDER_COLOR_FLOAT_TRANSPARENT_BLACK => 0,
            VkBorderColor::VK_BORDER_COLOR_INT_TRANSPARENT_BLACK => 1,
            VkBorderColor::VK_BORDER_COLOR_FLOAT_OPAQUE_BLACK => 2,
            VkBorderColor::VK_BORDER_COLOR_INT_OPAQUE_BLACK => 3,
            VkBorderColor::VK_BORDER_COLOR_FLOAT_OPAQUE_WHITE => 4,
            VkBorderColor::VK_BORDER_COLOR_INT_OPAQUE_WHITE => 5,
            VkBorderColor::VK_BORDER_COLOR_RANGE_SIZE => 6,
            VkBorderColor::VK_BORDER_COLOR_MAX_ENUM => 2147483647,
        }
    }

    pub fn from_raw(raw: u32) -> (r: Option<Self>)
        ensures
            r == Self::from_value(raw),
    {
        match raw {
            0 => Some(VkBorderColor::VK_BORDER_COLOR_FLOAT_TRANSPARENT_BLACK),
            1 => Some(VkBorderColor::VK_BORDER_COLOR_INT_TRANSPARENT_BLACK),
            2 => Some(VkBorderColor::VK_BORDER_COLOR_FLOAT_OPAQUE_BLACK),
            3 => Some(VkBorderColor::VK_BORDER_COLOR_INT_OPAQUE_BLACK),
            4 => Some(VkBorderColor::VK_BORDER_COLOR_FLOAT_OPAQUE_WHITE),
            5 => Some(VkBorderColor::VK_BORDER_COLOR_INT_OPAQUE_WHITE),
            6 => Some(VkBorderColor::VK_BORDER_COLOR_RANGE_SIZE),
            2147483647 => Some(VkBorderColor::VK_BORDER_COLOR_MAX_ENUM),
            _ => None,
        }
    }

    /// Reading back the value of an enumerant gives the enumerant.
    pub proof fn lemma_value_roundtrip(self)
        ensures
            Self::from_value(self.value()) == Some(self),
    {
    }
}

#[derive(Clone, Copy, Debug, PartialEq, Eq, Hash, Structural)]
pub enum VkDescriptorType {
    VK_DESCRIPTOR_TYPE_SAMPLER,
    VK_DESCRIPTOR_TYPE_COMBINED_IMAGE_SAMPLER,
    VK_DESCRIPTOR_TYPE_SAMPLED_IMAGE,
    VK_DESCRIPTOR_TYPE_STORAGE_IMAGE,
    VK_DESCRIPTOR_TYPE_UNIFORM_TEXEL_BUFFER,
    VK_DESCRIPTOR_TYPE_STORAGE_TEXEL_BUFFER,
    VK_DESCRIPTOR_TYPE_UNIFORM_BUFFER,
    VK_DESCRIPTOR_TYPE_STORAGE_BUFFER,
    VK_DESCRIPTOR_TYPE_UNIFORM_BUFFER_DYNAMIC,
    VK_DESCRIPTOR_TYPE_STORAGE_BUFFER_DYNAMIC,
    VK_DESCRIPTOR_TYPE_INPUT_ATTACHMENT,
    VK_DESCRIPTOR_TYPE_RANGE_SIZE,
    VK_DESCRIPTOR_TYPE_MAX_ENUM,
}

impl VkDescriptorType {
    /// The numeric value that the Vulkan API gives this enumerant.
    pub open spec fn value(self) -> u32 {
        match self {
            VkDescriptorType::VK_DESCRIPTOR_TYPE_SAMPLER => 0,
            VkDescriptorType::VK_DESCRIPTOR_TYPE_COMBINED_IMAGE_SAMPLER => 1,
            VkDescriptorType::VK_DESCRIPTOR_TYPE_SAMPLED_IMAGE => 2,
            VkDescriptorType::VK_DESCRIPTOR_TYPE_STORAGE_IMAGE => 3,
            VkDescriptorType::VK_DESCRIPTOR_TYPE_UNIFORM_TEXEL_BUFFER => 4,
            VkDescriptorType::VK_DESCRIPTOR_TYPE_STORAGE_TEXEL_BUFFER => 5,
            VkDescriptorType::VK_DESCRIPTOR_TYPE_UNIFORM_BUFFER => 6,
            VkDescriptorType::VK_DESCRIPTOR_TYPE_STORAGE_BUFFER => 7,
            VkDescriptorType::VK_DESCRIPTOR_TYPE_UNIFORM_BUFFER_DYNAMIC => 8,
            VkDescriptorType::VK_DESCRIPTOR_TYPE_STORAGE_BUFFER_DYNAMIC => 9,
            VkDescriptorType::VK_DESCRIPTOR_TYPE_INPUT_ATTACHMENT => 10,
            VkDescriptorType::VK_DESCRIPTOR_TYPE_RANGE_SIZE => 11,
            VkDescriptorType::VK_DESCRIPTOR_TYPE_MAX_ENUM => 2147483647,
        }
    }

    /// The enumerant whose Vulkan value is `raw`, if there is one.
    pub open spec fn from_value(raw: u32) -> Option<Self> {
        match raw {
            0 => Some(VkDescriptorType::VK_DESCRIPTOR_TYPE_SAMPLER),
            1 => Some(VkDescriptorType::VK_DESCRIPTOR_TYPE_COMBINED_IMAGE_SAMPLER),
            2 => Some(VkDescriptorType::VK_DESCRIPTOR_TYPE_SAMPLED_IMAGE),
            3 => Some(VkDescriptorType::VK_DESCRIPTOR_TYPE_STORAGE_IMAGE),
            4 => Some(VkDescriptorType::VK_DESCRIPTOR_TYPE_UNIFORM_TEXEL_BUFFER),
            5 => Some(VkDescriptorType::VK_DESCRIPTOR_TYPE_STORAGE_TEXEL_BUFFER),
            6 => Some(VkDescriptorType::VK_DESCRIPTOR_TYPE_UNIFORM_BUFFER),
            7 => Some(VkDescriptorType::VK_DESCRIPTOR_TYPE_STORAGE_BUFFER),
            8 => Some(VkDescriptorType::VK_DESCRIPTOR_TYPE_UNIFORM_BUFFER_DYNAMIC),
            9 => Some(VkDescriptorType::VK_DESCRIPTOR_TYPE_STORAGE_BUFFER_DYNAMIC),
            10 => Some(VkDescriptorType::VK_DESCRIPTOR_TYPE_INPUT_ATTACHMENT),
            11 => Some(VkDescriptorType::VK_DESCRIPTOR_TYPE_RANGE_SIZE),
            2147483647 => Some(VkDescriptorType::VK_DESCRIPTOR_TYPE_MAX_ENUM),
            _ => None,
        }
    }

    pub fn as_raw(self) -> (r: u32)
        ensures
            r == self.value(),
    {
        match self {
            VkDescriptorType::VK_DESCRIPTOR_TYPE_SAMPLER => 0,
            VkDescriptorType::VK_DESCRIPTOR_TYPE_COMBINED_IMAGE_SAMPLER => 1,
            VkDescriptorType::VK_DESCRIPTOR_TYPE_SAMPLED_IMAGE => 2,
            VkDescriptorType::VK_DESCRIPTOR_TYPE_STORAGE_IMAGE => 3,
            VkDescriptorType::VK_DESCRIPTOR_TYPE_UNIFORM_TEXEL_BUFFER => 4,
            VkDescriptorType::VK_DESCRIPTOR_TYPE_STORAGE_TEXEL_BUFFER => 5,
            VkDescriptorType::VK_DESCRIPTOR_TYPE_UNIFORM_BUFFER => 6,
            VkDescriptorType::VK_DESCRIPTOR_TYPE_STORAGE_BUFFER => 7,
            VkDescriptorType::VK_DESCRIPTOR_TYPE_UNIFORM_BUFFER_DYNAMIC => 8,
            VkDescriptorType::VK_DESCRIPTOR_TYPE_STORAGE_BUFFER_DYNAMIC => 9,
            VkDescriptorType::VK_DESCRIPTOR_TYPE_INPUT_ATTACHMENT => 10,
            VkDescriptorType::VK_DESCRIPTOR_TYPE_RANGE_SIZE => 11,
            VkDescriptorType::VK_DESCRIPTOR_TYPE_MAX_ENUM => 2147483647,
        }
    }

    pub fn from_raw(raw: u32) -> (r: Option<Self>)
        ensures
            r == Self::from_value(raw),
    {
        match raw {
            0 => Some(VkDescriptorType::VK_DESCRIPTOR_TYPE_SAMPLER),
            1 => Some(VkDescriptorType::VK_DESCRIPTOR_TYPE_COMBINED_IMAGE_SAMPLER),
            2 => Some(VkDescriptorType::VK_DESCRIPTOR_TYPE_SAMPLED_IMAGE),
            3 => Some(VkDescriptorType::VK_DESCRIPTOR_TYPE_STORAGE_IMAGE),
            4 => Some(VkDescriptorType::VK_DESCRIPTOR_TYPE_UNIFORM_TEXEL_BUFFER),
            5 => Some(VkDescriptorType::VK_DESCRIPTOR_TYPE_STORAGE_TEXEL_BUFFER),
            6 => Some(VkDescriptorType::VK_DESCRIPTOR_TYPE_UNIFORM_BUFFER),
            7 => Some(VkDescriptorType::VK_DESCRIPTOR_TYPE_STORAGE_BUFFER),
            8 => Some(VkDescriptorType::VK_DESCRIPTOR_TYPE_UNIFORM_BUFFER_DYNAMIC),
            9 => Some(VkDescriptorType::VK_DESCRIPTOR_TYPE_STORAGE_BUFFER_DYNAMIC),
            10 => Some(VkDescriptorType::VK_DESCRIPTOR_TYPE_INPUT_ATTACHMENT),
            11 => Some(VkDescriptorType::VK_DESCRIPTOR_TYPE_RANGE_SIZE),
            2147483647 => Some(VkDescriptorType::VK_DESCRIPTOR_TYPE_MAX_ENUM),
            _ => None,
        }
    }

    /// Reading back the value of an enumerant gives the enumerant.
    pub proof fn lemma_value_roundtrip(self)
        ensures
            Self::from_value(self.value()) == Some(self),
    {
    }
}

#[derive(Clone, Copy, Debug, PartialEq, Eq, Hash, Structural)]
pub enum VkAttachmentLoadOp {
    VK_ATTACHMENT_LOAD_OP_LOAD,
    VK_ATTACHMENT_LOAD_OP_CLEAR,
    VK_ATTACHMENT_LOAD_OP_DONT_CARE,
    VK_ATTACHMENT_LOAD_OP_RANGE_SIZE,
    VK_ATTACHMENT_LOAD_OP_MAX_ENUM,
}

impl VkAttachmentLoadOp {
    /// The numeric value that the Vulkan API gives this enumerant.
    pub open spec fn value(self) -> u32 {
        match self {
            VkAttachmentLoadOp::VK_ATTACHMENT_LOAD_OP_LOAD => 0,
            VkAttachmentLoadOp::VK_ATTACHMENT_LOAD_OP_CLEAR => 1,
            VkAttachmentLoadOp::VK_ATTACHMENT_LOAD_OP_DONT_CARE => 2,
            VkAttachmentLoadOp::VK_ATTACHMENT_LOAD_OP_RANGE_SIZE => 3,
            VkAttachmentLoadOp::VK_ATTACHMENT_LOAD_OP_MAX_ENUM => 2147483647,
        }
    }

    /// The enumerant whose Vulkan value is `raw`, if there is one.
    pub open spec fn from_value(raw: u32) -> Option<Self> {
        match raw {
            0 => Some(VkAttachmentLoadOp::VK_ATTACHMENT_LOAD_OP_LOAD),
            1 => Some(VkAttachmentLoadOp::VK_ATTACHMENT_LOAD_OP_CLEAR),
            2 => Some(VkAttachmentLoadOp::VK_ATTACHMENT_LOAD_OP_DONT_CARE),
            3 => Some(VkAttachmentLoadOp::VK_ATTACHMENT_LOAD_OP_RANGE_SIZE),
            2147483647 => Some(VkAttachmentLoadOp::VK_ATTACHMENT_LOAD_OP_MAX_ENUM),
            _ => None,
        }
    }

    pub fn as_raw(self) -> (r: u32)
        ensures
            r == self.value(),
    {
        match self {
            VkAttachmentLoadOp::VK_ATTACHMENT_LOAD_OP_LOAD => 0,
            VkAttachmentLoadOp::VK_ATTACHMENT_LOAD_OP_CLEAR => 1,
            VkAttachmentLoadOp::VK_ATTACHMENT_LOAD_OP_DONT_CARE => 2,
            VkAttachmentLoadOp::VK_ATTACHMENT_LOAD_OP_RANGE_SIZE => 3,
            VkAttachmentLoadOp::VK_ATTACHMENT_LOAD_OP_MAX_ENUM => 2147483647,
        }
    }

    pub fn from_raw(raw: u32) -> (r: Option<Self>)
        ensures
            r == Self::from_value(raw),
    {
        match raw {
            0 => Some(VkAttachmentLoadOp::VK_ATTACHMENT_LOAD_OP_LOAD),
            1 => Some(VkAttachmentLoadOp::VK_ATTACHMENT_LOAD_OP_CLEAR),
            2 => Some(VkAttachmentLoadOp::VK_ATTACHMENT_LOAD_OP_DONT_CARE),
            3 => Some(VkAttachmentLoadOp::VK_ATTACHMENT_LOAD_OP_RANGE_SIZE),
            2147483647 => Some(VkAttachmentLoadOp::VK_ATTACHMENT_LOAD_OP_MAX_ENUM),
            _ => None,
        }
    }

    /// Reading back the value of an enumerant gives the enumerant.
    pub proof fn lemma_value_roundtrip(self)
        ensures
            Self::from_value(self.value()) == Some(self),
    {
    }
}

#[derive(Clone, Copy, Debug, PartialEq, Eq, Hash, Structural)]
pub enum VkAttachmentStoreOp {
    VK_ATTACHMENT_STORE_OP_STORE,
    VK_ATTACHMENT_STORE_OP_DONT_CARE,
    VK_ATTACHMENT_STORE_OP_RANGE_SIZE,
    VK_ATTACHMENT_STORE_OP_MAX_ENUM,
}

impl VkAttachmentStoreOp {
    /// The numeric value that the Vulkan API gives this enumerant.
    pub open spec fn value(self) -> u32 {
        match self {
            VkAttachmentStoreOp::VK_ATTACHMENT_STORE_OP_STORE => 0,
            VkAttachmentStoreOp::VK_ATTACHMENT_STORE_OP_DONT_CARE => 1,
            VkAttachmentStoreOp::VK_ATTACHMENT_STORE_OP_RANGE_SIZE => 2,
            VkAttachmentStoreOp::VK_ATTACHMENT_STORE_OP_MAX_ENUM => 2147483647,
        }
    }

    /// The enumerant whose Vulkan value is `raw`, if there is one.
    pub open spec fn from_value(raw: u32) -> Option<Self> {
        match raw {
            0 => Some(VkAttachmentStoreOp::VK_ATTACHMENT_STORE_OP_STORE),
            1 => Some(VkAttachmentStoreOp::VK_ATTACHMENT_STORE_OP_DONT_CARE),
            2 => Some(VkAttachmentStoreOp::VK_ATTACHMENT_STORE_OP_RANGE_SIZE),
            2147483647 => Some(VkAttachmentStoreOp::VK_ATTACHMENT_STORE_OP_MAX_ENUM),
            _ => None,
        }
    }

    pub fn as_raw(self) -> (r: u32)
        ensures
            r == self.value(),
    {
        match self {
            VkAttachmentStoreOp::VK_ATTACHMENT_STORE_OP_STORE => 0,
            VkAttachmentStoreOp::VK_ATTACHMENT_STORE_OP_DONT_CARE => 1,
            VkAttachmentStoreOp::VK_ATTACHMENT_STORE_OP_RANGE_SIZE => 2,
            VkAttachmentStoreOp::VK_ATTACHMENT_STORE_OP_MAX_ENUM => 2147483647,
        }
    }

    pub fn from_raw(raw: u32) -> (r: Option<Self>)
        ensures
            r == Self::from_value(raw),
    {
        match raw {
            0 => Some(VkAttachmentStoreOp::VK_ATTACHMENT_STORE_OP_STORE),
            1 => Some(VkAttachmentStoreOp::VK_ATTACHMENT_STORE_OP_DONT_CARE),
            2 => Some(VkAttachmentStoreOp::VK_ATTACHMENT_STORE_OP_RANGE_SIZE),
            2147483647 => Some(VkAttachmentStoreOp::VK_ATTACHMENT_STORE_OP_MAX_ENUM),
            _ => None,
        }
    }

    /// Reading back the value of an enumerant gives the enumerant.
    pub proof fn lemma_value_roundtrip(self)
        ensures
            Self::from_value(self.value()) == Some(self),
    {
    }
}

#[derive(Clone, Copy, Debug, PartialEq, Eq, Hash, Structural)]
pub enum VkPipelineBindPoint {
    VK_PIPELINE_BIND_POINT_GRAPHICS,
    VK_PIPELINE_BIND_POINT_COMPUTE,
    VK_PIPELINE_BIND_POINT_RANGE_SIZE,
    VK_PIPELINE_BIND_POINT_MAX_ENUM,
}

impl VkPipelineBindPoint {
    /// The numeric value that the Vulkan API gives this enumerant.
    pub open spec fn value(self) -> u32 {
        match self {
            VkPipelineBindPoint::VK_PIPELINE_BIND_POINT_GRAPHICS => 0,
            VkPipelineBindPoint::VK_PIPELINE_BIND_POINT_COMPUTE => 1,
            VkPipelineBindPoint::VK_PIPELINE_BIND_POINT_RANGE_SIZE => 2,
            VkPipelineBindPoint::VK_PIPELINE_BIND_POINT_MAX_ENUM => 2147483647,
        }
    }

    /// The enumerant whose Vulkan value is `raw`, if there is one.
    pub open spec fn from_value(raw: u32) -> Option<Self> {
        match raw {
            0 => Some(VkPipelineBindPoint::VK_PIPELINE_BIND_POINT_GRAPHICS),
            1 => Some(VkPipelineBindPoint::VK_PIPELINE_BIND_POINT_COMPUTE),
            2 => Some(VkPipelineBindPoint::VK_PIPELINE_BIND_POINT_RANGE_SIZE),
            2147483647 => Some(VkPipelineBindPoint::VK_PIPELINE_BIND_POINT_MAX_ENUM),
            _ => None,
        }
    }

    pub fn as_raw(self) -> (r: u32)
        ensures
            r == self.value(),
    {
        match self {
            VkPipelineBindPoint::VK_PIPELINE_BIND_POINT_GRAPHICS => 0,
            VkPipelineBindPoint::VK_PIPELINE_BIND_POINT_COMPUTE => 1,
            VkPipelineBindPoint::VK_PIPELINE_BIND_POINT_RANGE_SIZE => 2,
            VkPipelineBindPoint::VK_PIPELINE_BIND_POINT_MAX_ENUM => 2147483647,
        }
    }

    pub fn from_raw(raw: u32) -> (r: Option<Self>)
        ensures
            r == Self::from_value(raw),
    {
        match raw {
            0 => Some(VkPipelineBindPoint::VK_PIPELINE_BIND_POINT_GRAPHICS),
            1 => Some(VkPipelineBindPoint::VK_PIPELINE_BIND_POINT_COMPUTE),
            2 => Some(VkPipelineBindPoint::VK_PIPELINE_BIND_POINT_RANGE_SIZE),
            2147483647 => Some(VkPipelineBindPoint::VK_PIPELINE_BIND_POINT_MAX_ENUM),
            _ => None,
        }
    }

    /// Reading back the value of an enumerant gives the enumerant.
    pub proof fn lemma_value_roundtrip(self)
        ensures
            Self::from_value(self.value()) == Some(self),
    {
    }
}

#[derive(Clone, Copy, Debug, PartialEq, Eq, Hash, Structural)]
pub enum VkCommandBufferLevel {
    VK_COMMAND_BUFFER_LEVEL_PRIMARY,
    VK_COMMAND_BUFFER_LEVEL_SECONDARY,
    VK_COMMAND_BUFFER_LEVEL_RANGE_SIZE,
    VK_COMMAND_BUFFER_LEVEL_MAX_ENUM,
}

impl VkCommandBufferLevel {
    /// The numeric value that the Vulkan API gives this enumerant.
    pub open spec fn value(self) -> u32 {
        match self {
            VkCommandBufferLevel::VK_COMMAND_BUFFER_LEVEL_PRIMARY => 0,
            VkCommandBufferLevel::VK_COMMAND_BUFFER_LEVEL_SECONDARY => 1,
            VkCommandBufferLevel::VK_COMMAND_BUFFER_LEVEL_RANGE_SIZE => 2,
            VkCommandBufferLevel::VK_COMMAND_BUFFER_LEVEL_MAX_ENUM => 2147483647,
        }
    }

    /// The enumerant whose Vulkan value is `raw`, if there is one.
    pub open spec fn from_value(raw: u32) -> Option<Self> {
        match raw {
            0 => Some(VkCommandBufferLevel::VK_COMMAND_BUFFER_LEVEL_PRIMARY),
            1 => Some(VkCommandBufferLevel::VK_COMMAND_BUFFER_LEVEL_SECONDARY),
            2 => Some(VkCommandBufferLevel::VK_COMMAND_BUFFER_LEVEL_RANGE_SIZE),
            2147483647 => Some(VkCommandBufferLevel::VK_COMMAND_BUFFER_LEVEL_MAX_ENUM),
            _ => None,
        }
    }

    pub fn as_raw(self) -> (r: u32)
        ensures
            r == self.value(),
    {
        match self {
            VkCommandBufferLevel::VK_COMMAND_BUFFER_LEVEL_PRIMARY => 0,
            VkCommandBufferLevel::VK_COMMAND_BUFFER_LEVEL_SECONDARY => 1,
            VkCommandBufferLevel::VK_COMMAND_BUFFER_LEVEL_RANGE_SIZE => 2,
            VkCommandBufferLevel::VK_COMMAND_BUFFER_LEVEL_MAX_ENUM => 2147483647,
        }
    }

    pub fn from_raw(raw: u32) -> (r: Option<Self>)
        ensures
            r == Self::from_value(raw),
    {
        match raw {
            0 => Some(VkCommandBufferLevel::VK_COMMAND_BUFFER_LEVEL_PRIMARY),
            1 => Some(VkCommandBufferLevel::VK_COMMAND_BUFFER_LEVEL_SECONDARY),
            2 => Some(VkCommandBufferLevel::VK_COMMAND_BUFFER_LEVEL_RANGE_SIZE),
            2147483647 => Some(VkCommandBufferLevel::VK_COMMAND_BUFFER_LEVEL_MAX_ENUM),
            _ => None,
        }
    }

    /// Reading back the value of an enumerant gives the enumerant.
    pub proof fn lemma_value_roundtrip(self)
        ensures
            Self::from_value(self.value()) == Some(self),
    {
    }
}

#[derive(Clone, Copy, Debug, PartialEq, Eq, Hash, Structural)]
pub enum VkIndexType {
    VK_INDEX_TYPE_UINT16,
    VK_INDEX_TYPE_UINT32,
    VK_INDEX_TYPE_RANGE_SIZE,
    VK_INDEX_TYPE_MAX_ENUM,
}

impl VkIndexType {
    /// The numeric value that the Vulkan API gives this enumerant.
    pub open spec fn value(self) -> u32 {
        match self {
            VkIndexType::VK_INDEX_TYPE_UINT16 => 0,
            VkIndexType::VK_INDEX_TYPE_UINT32 => 1,
            VkIndexType::VK_INDEX_TYPE_RANGE_SIZE => 2,
            VkIndexType::VK_INDEX_TYPE_MAX_ENUM => 2147483647,
        }
    }

    /// The enumerant whose Vulkan value is `raw`, if there is one.
    pub open spec fn from_value(raw: u32) -> Option<Self> {
        match raw {
            0 => Some(VkIndexType::VK_INDEX_TYPE_UINT16),
            1 => Some(VkIndexType::VK_INDEX_TYPE_UINT32),
            2 => Some(VkIndexType::VK_INDEX_TYPE_RANGE_SIZE),
            2147483647 => Some(VkIndexType::VK_INDEX_TYPE_MAX_ENUM),
            _ => None,
        }
    }

    pub fn as_raw(self) -> (r: u32)
        ensures
            r == self.value(),
    {
        match self {
            VkIndexType::VK_INDEX_TYPE_UINT16 => 0,
            VkIndexType::VK_INDEX_TYPE_UINT32 => 1,
            VkIndexType::VK_INDEX_TYPE_RANGE_SIZE => 2,
            VkIndexType::VK_INDEX_TYPE_MAX_ENUM => 2147483647,
        }
    }

    pub fn from_raw(raw: u32) -> (r: Option<Self>)
        ensures
            r == Self::from_value(raw),
    {
        match raw {
            0 => Some(VkIndexType::VK_INDEX_TYPE_UINT16),
            1 => Some(VkIndexType::VK_INDEX_TYPE_UINT32),
            2 => Some(VkIndexType::VK_INDEX_TYPE_RANGE_SIZE),
            2147483647 => Some(VkIndexType::VK_INDEX_TYPE_MAX_ENUM),
            _ => None,
        }
    }

    /// Reading back the value of an enumerant gives the enumerant.
    pub proof fn lemma_value_roundtrip(self)
        ensures
            Self::from_value(self.value()) == Some(self),
    {
    }
}

#[derive(Clone, Copy, Debug, PartialEq, Eq, Hash, Structural)]
pub enum VkSubpassContents {
    VK_SUBPASS_CONTENTS_INLINE,
    VK_SUBPASS_CONTENTS_SECONDARY_COMMAND_BUFFERS,
    VK_SUBPASS_CONTENTS_RANGE_SIZE,
    VK_SUBPASS_CONTENTS_MAX_ENUM,
}

impl VkSubpassContents {
    /// The numeric value that the Vulkan API gives this enumerant.
    pub open spec fn value(self) -> u32 {
        match self {
            VkSubpassContents::VK_SUBPASS_CONTENTS_INLINE => 0,
            VkSubpassContents::VK_SUBPASS_CONTENTS_SECONDARY_COMMAND_BUFFERS => 1,
            VkSubpassContents::VK_SUBPASS_CONTENTS_RANGE_SIZE => 2,
            VkSubpassContents::VK_SUBPASS_CONTENTS_MAX_ENUM => 2147483647,
        }
    }

    /// The enumerant whose Vulkan value is `raw`, if there is one.
    pub open spec fn from_value(raw: u32) -> Option<Self> {
        match raw {
            0 => Some(VkSubpassContents::VK_SUBPASS_CONTENTS_INLINE),
            1 => Some(VkSubpassContents::VK_SUBPASS_CONTENTS_SECONDARY_COMMAND_BUFFERS),
            2 => Some(VkSubpassContents::VK_SUBPASS_CONTENTS_RANGE_SIZE),
            2147483647 => Some(VkSubpassContents::VK_SUBPASS_CONTENTS_MAX_ENUM),
            _ => None,
        }
    }

    pub fn as_raw(self) -> (r: u32)
        ensures
            r == self.value(),
    {
        match self {
            VkSubpassContents::VK_SUBPASS_CONTENTS_INLINE => 0,
            VkSubpassContents::VK_SUBPASS_CONTENTS_SECONDARY_COMMAND_BUFFERS => 1,
            VkSubpassContents::VK_SUBPASS_CONTENTS_RANGE_SIZE => 2,
            VkSubpassContents::VK_SUBPASS_CONTENTS_MAX_ENUM => 2147483647,
        }
    }

    pub fn from_raw(raw: u32) -> (r: Option<Self>)
        ensures
            r == Self::from_value(raw),
    {
        match raw {
            0 => Some(VkSubpassContents::VK_SUBPASS_CONTENTS_INLINE),
            1 => Some(VkSubpassContents::VK_SUBPASS_CONTENTS_SECONDARY_COMMAND_BUFFERS),
            2 => Some(VkSubpassContents::VK_SUBPASS_CONTENTS_RANGE_SIZE),
            2147483647 => Some(VkSubpassContents::VK_SUBPASS_CONTENTS_MAX_ENUM),
            _ => None,
        }
    }

    /// Reading back the value of an enumerant gives the enumerant.
    pub proof fn lemma_value_roundtrip(self)
        ensures
            Self::from_value(self.value()) == Some(self),
    {
    }
}

#[derive(Clone, Copy, Debug, PartialEq, Eq, Hash, Structural)]
pub enum VkFormatFeatureFlagBits {
    VK_FORMAT_FEATURE_SAMPLED_IMAGE_BIT,
    VK_FORMAT_FEATURE_STORAGE_IMAGE_BIT,
    VK_FORMAT_FEATURE_STORAGE_IMAGE_ATOMIC_BIT,
    VK_FORMAT_FEATURE_UNIFORM_TEXEL_BUFFER_BIT,
    VK_FORMAT_FEATURE_STORAGE_TEXEL_BUFFER_BIT,
    VK_FORMAT_FEATURE_STORAGE_TEXEL_BUFFER_ATOMIC_BIT,
    VK_FORMAT_FEATURE_VERTEX_BUFFER_BIT,
    VK_FORMAT_FEATURE_COLOR_ATTACHMENT_BIT,
    VK_FORMAT_FEATURE_COLOR_ATTACHMENT_BLEND_BIT,
    VK_FORMAT_FEATURE_DEPTH_STENCIL_ATTACHMENT_BIT,
    VK_FORMAT_FEATURE_BLIT_SRC_BIT,
    VK_FORMAT_FEATURE_BLIT_DST_BIT,
    VK_FORMAT_FEATURE_SAMPLED_IMAGE_FILTER_LINEAR_BIT,
    VK_FORMAT_FEATURE_SAMPLED_IMAGE_FILTER_CUBIC_BIT_IMG,
    VK_FORMAT_FEATURE_TRANSFER_SRC_BIT_KHR,
    VK_FORMAT_FEATURE_TRANSFER_DST_BIT_KHR,
    VK_FORMAT_FEATURE_FLAG_BITS_MAX_ENUM,
}

impl VkFormatFeatureFlagBits {
    /// The numeric value that the Vulkan API gives this enumerant.
    pub open spec fn value(self) -> u32 {
        match self {
            VkFormatFeatureFlagBits::VK_FORMAT_FEATURE_SAMPLED_IMAGE_BIT => 1,
            VkFormatFeatureFlagBits::VK_FORMAT_FEATURE_STORAGE_IMAGE_BIT => 2,
            VkFormatFeatureFlagBits::VK_FORMAT_FEATURE_STORAGE_IMAGE_ATOMIC_BIT => 4,
            VkFormatFeatureFlagBits::VK_FORMAT_FEATURE_UNIFORM_TEXEL_BUFFER_BIT => 8,
            VkFormatFeatureFlagBits::VK_FORMAT_FEATURE_STORAGE_TEXEL_BUFFER_BIT => 16,
            VkFormatFeatureFlagBits::VK_FORMAT_FEATURE_STORAGE_TEXEL_BUFFER_ATOMIC_BIT => 32,
            VkFormatFeatureFlagBits::VK_FORMAT_FEATURE_VERTEX_BUFFER_BIT => 64,
            VkFormatFeatureFlagBits::VK_FORMAT_FEATURE_COLOR_ATTACHMENT_BIT => 128,
            VkFormatFeatureFlagBits::VK_FORMAT_FEATURE_COLOR_ATTACHMENT_BLEND_BIT => 256,
            VkFormatFeatureFlagBits::VK_FORMAT_FEATURE_DEPTH_STENCIL_ATTACHMENT_BIT => 512,
            VkFormatFeatureFlagBits::VK_FORMAT_FEATURE_BLIT_SRC_BIT => 1024,
            VkFormatFeatureFlagBits::VK_FORMAT_FEATURE_BLIT_DST_BIT => 2048,
            VkFormatFeatureFlagBits::VK_FORMAT_FEATURE_SAMPLED_IMAGE_FILTER_LINEAR_BIT => 4096,
            VkFormatFeatureFlagBits::VK_FORMAT_FEATURE_SAMPLED_IMAGE_FILTER_CUBIC_BIT_IMG => 8192,
            VkFormatFeatureFlagBits::VK_FORMAT_FEATURE_TRANSFER_SRC_BIT_KHR => 16384,
            VkFormatFeatureFlagBits::VK_FORMAT_FEATURE_TRANSFER_DST_BIT_KHR => 32768,
            VkFormatFeatureFlagBits::VK_FORMAT_FEATURE_FLAG_BITS_MAX_ENUM => 2147483647,
        }
    }

    /// The enumerant whose Vulkan value is `raw`, if there is one.
    pub open spec fn from_value(raw: u32) -> Option<Self> {
        match raw {
            1 => Some(VkFormatFeatureFlagBits::VK_FORMAT_FEATURE_SAMPLED_IMAGE_BIT),
            2 => Some(VkFormatFeatureFlagBits::VK_FORMAT_FEATURE_STORAGE_IMAGE_BIT),
            4 => Some(VkFormatFeatureFlagBits::VK_FORMAT_FEATURE_STORAGE_IMAGE_ATOMIC_BIT),
            8 => Some(VkFormatFeatureFlagBits::VK_FORMAT_FEATURE_UNIFORM_TEXEL_BUFFER_BIT),
            16 => Some(VkFormatFeatureFlagBits::VK_FORMAT_FEATURE_STORAGE_TEXEL_BUFFER_BIT),
            32 => Some(VkFormatFeatureFlagBits::VK_FORMAT_FEATURE_STORAGE_TEXEL_BUFFER_ATOMIC_BIT),
            64 => Some(VkFormatFeatureFlagBits::VK_FORMAT_FEATURE_VERTEX_BUFFER_BIT),
            128 => Some(VkFormatFeatureFlagBits::VK_FORMAT_FEATURE_COLOR_ATTACHMENT_BIT),
            256 => Some(VkFormatFeatureFlagBits::VK_FORMAT_FEATURE_COLOR_ATTACHMENT_BLEND_BIT),
            512 => Some(VkFormatFeatureFlagBits::VK_FORMAT_FEATURE_DEPTH_STENCIL_ATTACHMENT_BIT),
            1024 => Some(VkFormatFeatureFlagBits::VK_FORMAT_FEATURE_BLIT_SRC_BIT),
            2048 => Some(VkFormatFeatureFlagBits::VK_FORMAT_FEATURE_BLIT_DST_BIT),
            4096 => Some(VkFormatFeatureFlagBits::VK_FORMAT_FEATURE_SAMPLED_IMAGE_FILTER_LINEAR_BIT),
            8192 => Some(VkFormatFeatureFlagBits::VK_FORMAT_FEATURE_SAMPLED_IMAGE_FILTER_CUBIC_BIT_IMG),
            16384 => Some(VkFormatFeatureFlagBits::VK_FORMAT_FEATURE_TRANSFER_SRC_BIT_KHR),
            32768 => Some(VkFormatFeatureFlagBits::VK_FORMAT_FEATURE_TRANSFER_DST_BIT_KHR),
            2147483647 => Some(VkFormatFeatureFlagBits::VK_FORMAT_FEATURE_FLAG_BITS_MAX_ENUM),
            _ => None,
        }
    }

    pub fn as_raw(self) -> (r: u32)
        ensures
            r == self.value(),
    {
        match self {
            VkFormatFeatureFlagBits::VK_FORMAT_FEATURE_SAMPLED_IMAGE_BIT => 1,
            VkFormatFeatureFlagBits::VK_FORMAT_FEATURE_STORAGE_IMAGE_BIT => 2,
            VkFormatFeatureFlagBits::VK_FORMAT_FEATURE_STORAGE_IMAGE_ATOMIC_BIT => 4,
            VkFormatFeatureFlagBits::VK_FORMAT_FEATURE_UNIFORM_TEXEL_BUFFER_BIT => 8,
            VkFormatFeatureFlagBits::VK_FORMAT_FEATURE_STORAGE_TEXEL_BUFFER_BIT => 16,
            VkFormatFeatureFlagBits::VK_FORMAT_FEATURE_STORAGE_TEXEL_BUFFER_ATOMIC_BIT => 32,
            VkFormatFeatureFlagBits::VK_FORMAT_FEATURE_VERTEX_BUFFER_BIT => 64,
            VkFormatFeatureFlagBits::VK_FORMAT_FEATURE_COLOR_ATTACHMENT_BIT => 128,
            VkFormatFeatureFlagBits::VK_FORMAT_FEATURE_COLOR_ATTACHMENT_BLEND_BIT => 256,
            VkFormatFeatureFlagBits::VK_FORMAT_FEATURE_DEPTH_STENCIL_ATTACHMENT_BIT => 512,
            VkFormatFeatureFlagBits::VK_FORMAT_FEATURE_BLIT_SRC_BIT => 1024,
            VkFormatFeatureFlagBits::VK_FORMAT_FEATURE_BLIT_DST_BIT => 2048,
            VkFormatFeatureFlagBits::VK_FORMAT_FEATURE_SAMPLED_IMAGE_FILTER_LINEAR_BIT => 4096,
            VkFormatFeatureFlagBits::VK_FORMAT_FEATURE_SAMPLED_IMAGE_FILTER_CUBIC_BIT_IMG => 8192,
            VkFormatFeatureFlagBits::VK_FORMAT_FEATURE_TRANSFER_SRC_BIT_KHR => 16384,
            VkFormatFeatureFlagBits::VK_FORMAT_FEATURE_TRANSFER_DST_BIT_KHR => 32768,
            VkFormatFeatureFlagBits::VK_FORMAT_FEATURE_FLAG_BITS_MAX_ENUM => 2147483647,
        }
    }

    pub fn from_raw(raw: u32) -> (r: Option<Self>)
        ensures
            r == Self::from_value(raw),
    {
        match raw {
            1 => Some(VkFormatFeatureFlagBits::VK_FORMAT_FEATURE_SAMPLED_IMAGE_BIT),
            2 => Some(VkFormatFeatureFlagBits::VK_FORMAT_FEATURE_STORAGE_IMAGE_BIT),
            4 => Some(VkFormatFeatureFlagBits::VK_FORMAT_FEATURE_STORAGE_IMAGE_ATOMIC_BIT),
            8 => Some(VkFormatFeatureFlagBits::VK_FORMAT_FEATURE_UNIFORM_TEXEL_BUFFER_BIT),
            16 => Some(VkFormatFeatureFlagBits::VK_FORMAT_FEATURE_STORAGE_TEXEL_BUFFER_BIT),
            32 => Some(VkFormatFeatureFlagBits::VK_FORMAT_FEATURE_STORAGE_TEXEL_BUFFER_ATOMIC_BIT),
            64 => Some(VkFormatFeatureFlagBits::VK_FORMAT_FEATURE_VERTEX_BUFFER_BIT),
            128 => Some(VkFormatFeatureFlagBits::VK_FORMAT_FEATURE_COLOR_ATTACHMENT_BIT),
            256 => Some(VkFormatFeatureFlagBits::VK_FORMAT_FEATURE_COLOR_ATTACHMENT_BLEND_BIT),
            512 => Some(VkFormatFeatureFlagBits::VK_FORMAT_FEATURE_DEPTH_STENCIL_ATTACHMENT_BIT),
            1024 => Some(VkFormatFeatureFlagBits::VK_FORMAT_FEATURE_BLIT_SRC_BIT),
            2048 => Some(VkFormatFeatureFlagBits::VK_FORMAT_FEATURE_BLIT_DST_BIT),
            4096 => Some(VkFormatFeatureFlagBits::VK_FORMAT_FEATURE_SAMPLED_IMAGE_FILTER_LINEAR_BIT),
            8192 => Some(VkFormatFeatureFlagBits::VK_FORMAT_FEATURE_SAMPLED_IMAGE_FILTER_CUBIC_BIT_IMG),
            16384 => Some(VkFormatFeatureFlagBits::VK_FORMAT_FEATURE_TRANSFER_SRC_BIT_KHR),
            32768 => Some(VkFormatFeatureFlagBits::VK_FORMAT_FEATURE_TRANSFER_DST_BIT_KHR),
            2147483647 => Some(VkFormatFeatureFlagBits::VK_FORMAT_FEATURE_FLAG_BITS_MAX_ENUM),
            _ => None,
        }
    }

    /// Reading back the value of an enumerant gives the enumerant.
    pub proof fn lemma_value_roundtrip(self)
        ensures
            Self::from_value(self.value()) == Some(self),
    {
    }
}

#[derive(Clone, Copy, Debug, PartialEq, Eq, Hash, Structural)]
pub enum VkImageUsageFlagBits {
    VK_IMAGE_USAGE_TRANSFER_SRC_BIT,
    VK_IMAGE_USAGE_TRANSFER_DST_BIT,
    VK_IMAGE_USAGE_SAMPLED_BIT,
    VK_IMAGE_USAGE_STORAGE_BIT,
    VK_IMAGE_USAGE_COLOR_ATTACHMENT_BIT,
    VK_IMAGE_USAGE_DEPTH_STENCIL_ATTACHMENT_BIT,
    VK_IMAGE_USAGE_TRANSIENT_ATTACHMENT_BIT,
    VK_IMAGE_USAGE_INPUT_ATTACHMENT_BIT,
    VK_IMAGE_USAGE_FLAG_BITS_MAX_ENUM,
}

impl VkImageUsageFlagBits {
    /// The numeric value that the Vulkan API gives this enumerant.
    pub open spec fn value(self) -> u32 {
        match self {
            VkImageUsageFlagBits::VK_IMAGE_USAGE_TRANSFER_SRC_BIT => 1,
            VkImageUsageFlagBits::VK_IMAGE_USAGE_TRANSFER_DST_BIT => 2,
            VkImageUsageFlagBits::VK_IMAGE_USAGE_SAMPLED_BIT => 4,
            VkImageUsageFlagBits::VK_IMAGE_USAGE_STORAGE_BIT => 8,
            VkImageUsageFlagBits::VK_IMAGE_USAGE_COLOR_ATTACHMENT_BIT => 16,
            VkImageUsageFlagBits::VK_IMAGE_USAGE_DEPTH_STENCIL_ATTACHMENT_BIT => 32,
            VkImageUsageFlagBits::VK_IMAGE_USAGE_TRANSIENT_ATTACHMENT_BIT => 64,
            VkImageUsageFlagBits::VK_IMAGE_USAGE_INPUT_ATTACHMENT_BIT => 128,
            VkImageUsageFlagBits::VK_IMAGE_USAGE_FLAG_BITS_MAX_ENUM => 2147483647,
        }
    }

    /// The enumerant whose Vulkan value is `raw`, if there is one.
    pub open spec fn from_value(raw: u32) -> Option<Self> {
        match raw {
            1 => Some(VkImageUsageFlagBits::VK_IMAGE_USAGE_TRANSFER_SRC_BIT),
            2 => Some(VkImageUsageFlagBits::VK_IMAGE_USAGE_TRANSFER_DST_BIT),
            4 => Some(VkImageUsageFlagBits::VK_IMAGE_USAGE_SAMPLED_BIT),
            8 => Some(VkImageUsageFlagBits::VK_IMAGE_USAGE_STORAGE_BIT),
            16 => Some(VkImageUsageFlagBits::VK_IMAGE_USAGE_COLOR_ATTACHMENT_BIT),
            32 => Some(VkImageUsageFlagBits::VK_IMAGE_USAGE_DEPTH_STENCIL_ATTACHMENT_BIT),
            64 => Some(VkImageUsageFlagBits::VK_IMAGE_USAGE_TRANSIENT_ATTACHMENT_BIT),
            128 => Some(VkImageUsageFlagBits::VK_IMAGE_USAGE_INPUT_ATTACHMENT_BIT),
            2147483647 => Some(VkImageUsageFlagBits::VK_IMAGE_USAGE_FLAG_BITS_MAX_ENUM),
            _ => None,
        }
    }

    pub fn as_raw(self) -> (r: u32)
        ensures
            r == self.value(),
    {
        match self {
            VkImageUsageFlagBits::VK_IMAGE_USAGE_TRANSFER_SRC_BIT => 1,
            VkImageUsageFlagBits::VK_IMAGE_USAGE_TRANSFER_DST_BIT => 2,
            VkImageUsageFlagBits::VK_IMAGE_USAGE_SAMPLED_BIT => 4,
            VkImageUsageFlagBits::VK_IMAGE_USAGE_STORAGE_BIT => 8,
            VkImageUsageFlagBits::VK_IMAGE_USAGE_COLOR_ATTACHMENT_BIT => 16,
            VkImageUsageFlagBits::VK_IMAGE_USAGE_DEPTH_STENCIL_ATTACHMENT_BIT => 32,
            VkImageUsageFlagBits::VK_IMAGE_USAGE_TRANSIENT_ATTACHMENT_BIT => 64,
            VkImageUsageFlagBits::VK_IMAGE_USAGE_INPUT_ATTACHMENT_BIT => 128,
            VkImageUsageFlagBits::VK_IMAGE_USAGE_FLAG_BITS_MAX_ENUM => 2147483647,
        }
    }

    pub fn from_raw(raw: u32) -> (r: Option<Self>)
        ensures
            r == Self::from_value(raw),
    {
        match raw {
            1 => Some(VkImageUsageFlagBits::VK_IMAGE_USAGE_TRANSFER_SRC_BIT),
            2 => Some(VkImageUsageFlagBits::VK_IMAGE_USAGE_TRANSFER_DST_BIT),
            4 => Some(VkImageUsageFlagBits::VK_IMAGE_USAGE_SAMPLED_BIT),
            8 => Some(VkImageUsageFlagBits::VK_IMAGE_USAGE_STORAGE_BIT),
            16 => Some(VkImageUsageFlagBits::VK_IMAGE_USAGE_COLOR_ATTACHMENT_BIT),
            32 => Some(VkImageUsageFlagBits::VK_IMAGE_USAGE_DEPTH_STENCIL_ATTACHMENT_BIT),
            64 => Some(VkImageUsageFlagBits::VK_IMAGE_USAGE_TRANSIENT_ATTACHMENT_BIT),
            128 => Some(VkImageUsageFlagBits::VK_IMAGE_USAGE_INPUT_ATTACHMENT_BIT),
            2147483647 => Some(VkImageUsageFlagBits::VK_IMAGE_USAGE_FLAG_BITS_MAX_ENUM),
            _ => None,
        }
    }

    /// Reading back the value of an enumerant gives the enumerant.
    pub proof fn lemma_value_roundtrip(self)
        ensures
            Self::from_value(self.value()) == Some(self),
    {
    }
}

#[derive(Clone, Copy, Debug, PartialEq, Eq, Hash, Structural)]
pub enum VkImageCreateFlagBits {
    VK_IMAGE_CREATE_SPARSE_BINDING_BIT,
    VK_IMAGE_CREATE_SPARSE_RESIDENCY_BIT,
    VK_IMAGE_CREATE_SPARSE_ALIASED_BIT,
    VK_IMAGE_CREATE_MUTABLE_FORMAT_BIT,
    VK_IMAGE_CREATE_CUBE_COMPATIBLE_BIT,
    VK_IMAGE_CREATE_BIND_SFR_BIT_KHX,
    VK_IMAGE_CREATE_2D_ARRAY_COMPATIBLE_BIT_KHR,
    VK_IMAGE_CREATE_FLAG_BITS_MAX_ENUM,
}

impl VkImageCreateFlagBits {
    /// The numeric value that the Vulkan API gives this enumerant.
    pub open spec fn value(self) -> u32 {
        match self {
            VkImageCreateFlagBits::VK_IMAGE_CREATE_SPARSE_BINDING_BIT => 1,
            VkImageCreateFlagBits::VK_IMAGE_CREATE_SPARSE_RESIDENCY_BIT => 2,
            VkImageCreateFlagBits::VK_IMAGE_CREATE_SPARSE_ALIASED_BIT => 4,
            VkImageCreateFlagBits::VK_IMAGE_CREATE_MUTABLE_FORMAT_BIT => 8,
            VkImageCreateFlagBits::VK_IMAGE_CREATE_CUBE_COMPATIBLE_BIT => 16,
            VkImageCreateFlagBits::VK_IMAGE_CREATE_BIND_SFR_BIT_KHX => 64,
            VkImageCreateFlagBits::VK_IMAGE_CREATE_2D_ARRAY_COMPATIBLE_BIT_KHR => 32,
            VkImageCreateFlagBits::VK_IMAGE_CREATE_FLAG_BITS_MAX_ENUM => 2147483647,
        }
    }

    /// The enumerant whose Vulkan value is `raw`, if there is one.
    pub open spec fn from_value(raw: u32) -> Option<Self> {
        match raw {
            1 => Some(VkImageCreateFlagBits::VK_IMAGE_CREATE_SPARSE_BINDING_BIT),
            2 => Some(VkImageCreateFlagBits::VK_IMAGE_CREATE_SPARSE_RESIDENCY_BIT),
            4 => Some(VkImageCreateFlagBits::VK_IMAGE_CREATE_SPARSE_ALIASED_BIT),
            8 => Some(VkImageCreateFlagBits::VK_IMAGE_CREATE_MUTABLE_FORMAT_BIT),
            16 => Some(VkImageCreateFlagBits::VK_IMAGE_CREATE_CUBE_COMPATIBLE_BIT),
            64 => Some(VkImageCreateFlagBits::VK_IMAGE_CREATE_BIND_SFR_BIT_KHX),
            32 => Some(VkImageCreateFlagBits::VK_IMAGE_CREATE_2D_ARRAY_COMPATIBLE_BIT_KHR),
            2147483647 => Some(VkImageCreateFlagBits::VK_IMAGE_CREATE_FLAG_BITS_MAX_ENUM),
            _ => None,
        }
    }

    pub fn as_raw(self) -> (r: u32)
        ensures
            r == self.value(),
    {
        match self {
            VkImageCreateFlagBits::VK_IMAGE_CREATE_SPARSE_BINDING_BIT => 1,
            VkImageCreateFlagBits::VK_IMAGE_CREATE_SPARSE_RESIDENCY_BIT => 2,
            VkImageCreateFlagBits::VK_IMAGE_CREATE_SPARSE_ALIASED_BIT => 4,
            VkImageCreateFlagBits::VK_IMAGE_CREATE_MUTABLE_FORMAT_BIT => 8,
            VkImageCreateFlagBits::VK_IMAGE_CREATE_CUBE_COMPATIBLE_BIT => 16,
            VkImageCreateFlagBits::VK_IMAGE_CREATE_BIND_SFR_BIT_KHX => 64,
            VkImageCreateFlagBits::VK_IMAGE_CREATE_2D_ARRAY_COMPATIBLE_BIT_KHR => 32,
            VkImageCreateFlagBits::VK_IMAGE_CREATE_FLAG_BITS_MAX_ENUM => 2147483647,
        }
    }

    pub fn from_raw(raw: u32) -> (r: Option<Self>)
        ensures
            r == Self::from_value(raw),
    {
        match raw {
            1 => Some(VkImageCreateFlagBits::VK_IMAGE_CREATE_SPARSE_BINDING_BIT),
            2 => Some(VkImageCreateFlagBits::VK_IMAGE_CREATE_SPARSE_RESIDENCY_BIT),
            4 => Some(VkImageCreateFlagBits::VK_IMAGE_CREATE_SPARSE_ALIASED_BIT),
            8 => Some(VkImageCreateFlagBits::VK_IMAGE_CREATE_MUTABLE_FORMAT_BIT),
            16 => Some(VkImageCreateFlagBits::VK_IMAGE_CREATE_CUBE_COMPATIBLE_BIT),
            64 => Some(VkImageCreateFlagBits::VK_IMAGE_CREATE_BIND_SFR_BIT_KHX),
            32 => Some(VkImageCreateFlagBits::VK_IMAGE_CREATE_2D_ARRAY_COMPATIBLE_BIT_KHR),
            2147483647 => Some(VkImageCreateFlagBits::VK_IMAGE_CREATE_FLAG_BITS_MAX_ENUM),
            _ => None,
        }
    }

    /// Reading back the value of an enumerant gives the enumerant.
    pub proof fn lemma_value_roundtrip(self)
        ensures
            Self::from_value(self.value()) == Some(self),
    {
    }
}

#[derive(Clone, Copy, Debug, PartialEq, Eq, Hash, Structural)]
pub enum VkSampleCountFlagBits {
    VK_SAMPLE_COUNT_1_BIT,
    VK_SAMPLE_COUNT_2_BIT,
    VK_SAMPLE_COUNT_4_BIT,
    VK_SAMPLE_COUNT_8_BIT,
    VK_SAMPLE_COUNT_16_BIT,
    VK_SAMPLE_COUNT_32_BIT,
    VK_SAMPLE_COUNT_64_BIT,
    VK_SAMPLE_COUNT_FLAG_BITS_MAX_ENUM,
}

impl VkSampleCountFlagBits {
    /// The numeric value that the Vulkan API gives this enumerant.
    pub open spec fn value(self) -> u32 {
        match self {
            VkSampleCountFlagBits::VK_SAMPLE_COUNT_1_BIT => 1,
            VkSampleCountFlagBits::VK_SAMPLE_COUNT_2_BIT => 2,
            VkSampleCountFlagBits::VK_SAMPLE_COUNT_4_BIT => 4,
            VkSampleCountFlagBits::VK_SAMPLE_COUNT_8_BIT => 8,
            VkSampleCountFlagBits::VK_SAMPLE_COUNT_16_BIT => 16,
            VkSampleCountFlagBits::VK_SAMPLE_COUNT_32_BIT => 32,
            VkSampleCountFlagBits::VK_SAMPLE_COUNT_64_BIT => 64,
            VkSampleCountFlagBits::VK_SAMPLE_COUNT_FLAG_BITS_MAX_ENUM => 2147483647,
        }
    }

    /// The enumerant whose Vulkan value is `raw`, if there is one.
    pub open spec fn from_value(raw: u32) -> Option<Self> {
        match raw {
            1 => Some(VkSampleCountFlagBits::VK_SAMPLE_COUNT_1_BIT),
            2 => Some(VkSampleCountFlagBits::VK_SAMPLE_COUNT_2_BIT),
            4 => Some(VkSampleCountFlagBits::VK_SAMPLE_COUNT_4_BIT),
            8 => Some(VkSampleCountFlagBits::VK_SAMPLE_COUNT_8_BIT),
            16 => Some(VkSampleCountFlagBits::VK_SAMPLE_COUNT_16_BIT),
            32 => Some(VkSampleCountFlagBits::VK_SAMPLE_COUNT_32_BIT),
            64 => Some(VkSampleCountFlagBits::VK_SAMPLE_COUNT_64_BIT),
            2147483647 => Some(VkSampleCountFlagBits::VK_SAMPLE_COUNT_FLAG_BITS_MAX_ENUM),
            _ => None,
        }
    }

    pub fn as_raw(self) -> (r: u32)
        ensures
            r == self.value(),
    {
        match self {
            VkSampleCountFlagBits::VK_SAMPLE_COUNT_1_BIT => 1,
            VkSampleCountFlagBits::VK_SAMPLE_COUNT_2_BIT => 2,
            VkSampleCountFlagBits::VK_SAMPLE_COUNT_4_BIT => 4,
            VkSampleCountFlagBits::VK_SAMPLE_COUNT_8_BIT => 8,
            VkSampleCountFlagBits::VK_SAMPLE_COUNT_16_BIT => 16,
            VkSampleCountFlagBits::VK_SAMPLE_COUNT_32_BIT => 32,
            VkSampleCountFlagBits::VK_SAMPLE_COUNT_64_BIT => 64,
            VkSampleCountFlagBits::VK_SAMPLE_COUNT_FLAG_BITS_MAX_ENUM => 2147483647,
        }
    }

    pub fn from_raw(raw: u32) -> (r: Option<Self>)
        ensures
            r == Self::from_value(raw),
    {
        match raw {
            1 => Some(VkSampleCountFlagBits::VK_SAMPLE_COUNT_1_BIT),
            2 => Some(VkSampleCountFlagBits::VK_SAMPLE_COUNT_2_BIT),
            4 => Some(VkSampleCountFlagBits::VK_SAMPLE_COUNT_4_BIT),
            8 => Some(VkSampleCountFlagBits::VK_SAMPLE_COUNT_8_BIT),
            16 => Some(VkSampleCountFlagBits::VK_SAMPLE_COUNT_16_BIT),
            32 => Some(VkSampleCountFlagBits::VK_SAMPLE_COUNT_32_BIT),
            64 => Some(VkSampleCountFlagBits::VK_SAMPLE_COUNT_64_BIT),
            2147483647 => Some(VkSampleCountFlagBits::VK_SAMPLE_COUNT_FLAG_BITS_MAX_ENUM),
            _ => None,
        }
    }

    /// Reading back the value of an enumerant gives the enumerant.
    pub proof fn lemma_value_roundtrip(self)
        ensures
            Self::from_value(self.value()) == Some(self),
    {
    }
}

#[derive(Clone, Copy, Debug, PartialEq, Eq, Hash, Structural)]
pub enum VkQueueFlagBits {
    VK_QUEUE_GRAPHICS_BIT,
    VK_QUEUE_COMPUTE_BIT,
    VK_QUEUE_TRANSFER_BIT,
    VK_QUEUE_SPARSE_BINDING_BIT,
    VK_QUEUE_FLAG_BITS_MAX_ENUM,
}

impl VkQueueFlagBits {
    /// The numeric value that the Vulkan API gives this enumerant.
    pub open spec fn value(self) -> u32 {
        match self {
            VkQueueFlagBits::VK_QUEUE_GRAPHICS_BIT => 1,
            VkQueueFlagBits::VK_QUEUE_COMPUTE_BIT => 2,
            VkQueueFlagBits::VK_QUEUE_TRANSFER_BIT => 4,
            VkQueueFlagBits::VK_QUEUE_SPARSE_BINDING_BIT => 8,
            VkQueueFlagBits::VK_QUEUE_FLAG_BITS_MAX_ENUM => 2147483647,
        }
    }

    /// The enumerant whose Vulkan value is `raw`, if there is one.
    pub open spec fn from_value(raw: u32) -> Option<Self> {
        match raw {
            1 => Some(VkQueueFlagBits::VK_QUEUE_GRAPHICS_BIT),
            2 => Some(VkQueueFlagBits::VK_QUEUE_COMPUTE_BIT),
            4 => Some(VkQueueFlagBits::VK_QUEUE_TRANSFER_BIT),
            8 => Some(VkQueueFlagBits::VK_QUEUE_SPARSE_BINDING_BIT),
            2147483647 => Some(VkQueueFlagBits::VK_QUEUE_FLAG_BITS_MAX_ENUM),
            _ => None,
        }
    }

    pub fn as_raw(self) -> (r: u32)
        ensures
            r == self.value(),
    {
        match self {
            VkQueueFlagBits::VK_QUEUE_GRAPHICS_BIT => 1,
            VkQueueFlagBits::VK_QUEUE_COMPUTE_BIT => 2,
            VkQueueFlagBits::VK_QUEUE_TRANSFER_BIT => 4,
            VkQueueFlagBits::VK_QUEUE_SPARSE_BINDING_BIT => 8,
            VkQueueFlagBits::VK_QUEUE_FLAG_BITS_MAX_ENUM => 2147483647,
        }
    }

    pub fn from_raw(raw: u32) -> (r: Option<Self>)
        ensures
            r == Self::from_value(raw),
    {
        match raw {
            1 => Some(VkQueueFlagBits::VK_QUEUE_GRAPHICS_BIT),
            2 => Some(VkQueueFlagBits::VK_QUEUE_COMPUTE_BIT),
            4 => Some(VkQueueFlagBits::VK_QUEUE_TRANSFER_BIT),
            8 => Some(VkQueueFlagBits::VK_QUEUE_SPARSE_BINDING_BIT),
            2147483647 => Some(VkQueueFlagBits::VK_QUEUE_FLAG_BITS_MAX_ENUM),
            _ => None,
        }
    }

    /// Reading back the value of an enumerant gives the enumerant.
    pub proof fn lemma_value_roundtrip(self)
        ensures
            Self::from_value(self.value()) == Some(self),
    {
    }
}

#[derive(Clone, Copy, Debug, PartialEq, Eq, Hash, Structural)]
pub enum VkMemoryPropertyFlagBits {
    VK_MEMORY_PROPERTY_DEVICE_LOCAL_BIT,
    VK_MEMORY_PROPERTY_HOST_VISIBLE_BIT,
    VK_MEMORY_PROPERTY_HOST_COHERENT_BIT,
    VK_MEMORY_PROPERTY_HOST_CACHED_BIT,
    VK_MEMORY_PROPERTY_LAZILY_ALLOCATED_BIT,
    VK_MEMORY_PROPERTY_FLAG_BITS_MAX_ENUM,
}

impl VkMemoryPropertyFlagBits {
    /// The numeric value that the Vulkan API gives this enumerant.
    pub open spec fn value(self) -> u32 {
        match self {
            VkMemoryPropertyFlagBits::VK_MEMORY_PROPERTY_DEVICE_LOCAL_BIT => 1,
            VkMemoryPropertyFlagBits::VK_MEMORY_PROPERTY_HOST_VISIBLE_BIT => 2,
            VkMemoryPropertyFlagBits::VK_MEMORY_PROPERTY_HOST_COHERENT_BIT => 4,
            VkMemoryPropertyFlagBits::VK_MEMORY_PROPERTY_HOST_CACHED_BIT => 8,
            VkMemoryPropertyFlagBits::VK_MEMORY_PROPERTY_LAZILY_ALLOCATED_BIT => 16,
            VkMemoryPropertyFlagBits::VK_MEMORY_PROPERTY_FLAG_BITS_MAX_ENUM => 2147483647,
        }
    }

    /// The enumerant whose Vulkan value is `raw`, if there is one.
    pub open spec fn from_value(raw: u32) -> Option<Self> {
        match raw {
            1 => Some(VkMemoryPropertyFlagBits::VK_MEMORY_PROPERTY_DEVICE_LOCAL_BIT),
            2 => Some(VkMemoryPropertyFlagBits::VK_MEMORY_PROPERTY_HOST_VISIBLE_BIT),
            4 => Some(VkMemoryPropertyFlagBits::VK_MEMORY_PROPERTY_HOST_COHERENT_BIT),
            8 => Some(VkMemoryPropertyFlagBits::VK_MEMORY_PROPERTY_HOST_CACHED_BIT),
            16 => Some(VkMemoryPropertyFlagBits::VK_MEMORY_PROPERTY_LAZILY_ALLOCATED_BIT),
            2147483647 => Some(VkMemoryPropertyFlagBits::VK_MEMORY_PROPERTY_FLAG_BITS_MAX_ENUM),
            _ => None,
        }
    }

    pub fn as_raw(self) -> (r: u32)
        ensures
            r == self.value(),
    {
        match self {
            VkMemoryPropertyFlagBits::VK_MEMORY_PROPERTY_DEVICE_LOCAL_BIT => 1,
            VkMemoryPropertyFlagBits::VK_MEMORY_PROPERTY_HOST_VISIBLE_BIT => 2,
            VkMemoryPropertyFlagBits::VK_MEMORY_PROPERTY_HOST_COHERENT_BIT => 4,
            VkMemoryPropertyFlagBits::VK_MEMORY_PROPERTY_HOST_CACHED_BIT => 8,
            VkMemoryPropertyFlagBits::VK_MEMORY_PROPERTY_LAZILY_ALLOCATED_BIT => 16,
            VkMemoryPropertyFlagBits::VK_MEMORY_PROPERTY_FLAG_BITS_MAX_ENUM => 2147483647,
        }
    }

    pub fn from_raw(raw: u32) -> (r: Option<Self>)
        ensures
            r == Self::from_value(raw),
    {
        match raw {
            1 => Some(VkMemoryPropertyFlagBits::VK_MEMORY_PROPERTY_DEVICE_LOCAL_BIT),
            2 => Some(VkMemoryPropertyFlagBits::VK_MEMORY_PROPERTY_HOST_VISIBLE_BIT),
            4 => Some(VkMemoryPropertyFlagBits::VK_MEMORY_PROPERTY_HOST_COHERENT_BIT),
            8 => Some(VkMemoryPropertyFlagBits::VK_MEMORY_PROPERTY_HOST_CACHED_BIT),
            16 => Some(VkMemoryPropertyFlagBits::VK_MEMORY_PROPERTY_LAZILY_ALLOCATED_BIT),
            2147483647 => Some(VkMemoryPropertyFlagBits::VK_MEMORY_PROPERTY_FLAG_BITS_MAX_ENUM),
            _ => None,
        }
    }

    /// Reading back the value of an enumerant gives the enumerant.
    pub proof fn lemma_value_roundtrip(self)
        ensures
            Self::from_value(self.value()) == Some(self),
    {
    }
}

#[derive(Clone, Copy, Debug, PartialEq, Eq, Hash, Structural)]
pub enum VkMemoryHeapFlagBits {
    VK_MEMORY_HEAP_DEVICE_LOCAL_BIT,
    VK_MEMORY_HEAP_MULTI_INSTANCE_BIT_KHX,
    VK_MEMORY_HEAP_FLAG_BITS_MAX_ENUM,
}

impl VkMemoryHeapFlagBits {
    /// The numeric value that the Vulkan API gives this enumerant.
    pub open spec fn value(self) -> u32 {
        match self {
            VkMemoryHeapFlagBits::VK_MEMORY_HEAP_DEVICE_LOCAL_BIT => 1,
            VkMemoryHeapFlagBits::VK_MEMORY_HEAP_MULTI_INSTANCE_BIT_KHX => 2,
            VkMemoryHeapFlagBits::VK_MEMORY_HEAP_FLAG_BITS_MAX_ENUM => 2147483647,
        }
    }

    /// The enumerant whose Vulkan value is `raw`, if there is one.
    pub open spec fn from_value(raw: u32) -> Option<Self> {
        match raw {
            1 => Some(VkMemoryHeapFlagBits::VK_MEMORY_HEAP_DEVICE_LOCAL_BIT),
            2 => Some(VkMemoryHeapFlagBits::VK_MEMORY_HEAP_MULTI_INSTANCE_BIT_KHX),
            2147483647 => Some(VkMemoryHeapFlagBits::VK_MEMORY_HEAP_FLAG_BITS_MAX_ENUM),
            _ => None,
        }
    }

    pub fn as_raw(self) -> (r: u32)
        ensures
            r == self.value(),
    {
        match self {
            VkMemoryHeapFlagBits::VK_MEMORY_HEAP_DEVICE_LOCAL_BIT => 1,
            VkMemoryHeapFlagBits::VK_MEMORY_HEAP_MULTI_INSTANCE_BIT_KHX => 2,
            VkMemoryHeapFlagBits::VK_MEMORY_HEAP_FLAG_BITS_MAX_ENUM => 2147483647,
        }
    }

    pub fn from_raw(raw: u32) -> (r: Option<Self>)
        ensures
            r == Self::from_value(raw),
    {
        match raw {
            1 => Some(VkMemoryHeapFlagBits::VK_MEMORY_HEAP_DEVICE_LOCAL_BIT),
            2 => Some(VkMemoryHeapFlagBits::VK_MEMORY_HEAP_MULTI_INSTANCE_BIT_KHX),
            2147483647 => Some(VkMemoryHeapFlagBits::VK_MEMORY_HEAP_FLAG_BITS_MAX_ENUM),
            _ => None,
        }
    }

    /// Reading back the value of an enumerant gives the enumerant.
    pub proof fn lemma_value_roundtrip(self)
        ensures
            Self::from_value(self.value()) == Some(self),
    {
    }
}

#[derive(Clone, Copy, Debug, PartialEq, Eq, Hash, Structural)]
pub enum VkPipelineStageFlagBits {
    VK_PIPELINE_STAGE_TOP_OF_PIPE_BIT,
    VK_PIPELINE_STAGE_DRAW_INDIRECT_BIT,
    VK_PIPELINE_STAGE_VERTEX_INPUT_BIT,
    VK_PIPELINE_STAGE_VERTEX_SHADER_BIT,
    VK_PIPELINE_STAGE_TESSELLATION_CONTROL_SHADER_BIT,
    VK_PIPELINE_STAGE_TESSELLATION_EVALUATION_SHADER_BIT,
    VK_PIPELINE_STAGE_GEOMETRY_SHADER_BIT,
    VK_PIPELINE_STAGE_FRAGMENT_SHADER_BIT,
    VK_PIPELINE_STAGE_EARLY_FRAGMENT_TESTS_BIT,
    VK_PIPELINE_STAGE_LATE_FRAGMENT_TESTS_BIT,
    VK_PIPELINE_STAGE_COLOR_ATTACHMENT_OUTPUT_BIT,
    VK_PIPELINE_STAGE_COMPUTE_SHADER_BIT,
    VK_PIPELINE_STAGE_TRANSFER_BIT,
    VK_PIPELINE_STAGE_BOTTOM_OF_PIPE_BIT,
    VK_PIPELINE_STAGE_HOST_BIT,
    VK_PIPELINE_STAGE_ALL_GRAPHICS_BIT,
    VK_PIPELINE_STAGE_ALL_COMMANDS_BIT,
    VK_PIPELINE_STAGE_COMMAND_PROCESS_BIT_NVX,
    VK_PIPELINE_STAGE_FLAG_BITS_MAX_ENUM,
}

impl VkPipelineStageFlagBits {
    /// The numeric value that the Vulkan API gives this enumerant.
    pub open spec fn value(self) -> u32 {
        match self {
            VkPipelineStageFlagBits::VK_PIPELINE_STAGE_TOP_OF_PIPE_BIT => 1,
            VkPipelineStageFlagBits::VK_PIPELINE_STAGE_DRAW_INDIRECT_BIT => 2,
            VkPipelineStageFlagBits::VK_PIPELINE_STAGE_VERTEX_INPUT_BIT => 4,
            VkPipelineStageFlagBits::VK_PIPELINE_STAGE_VERTEX_SHADER_BIT => 8,
            VkPipelineStageFlagBits::VK_PIPELINE_STAGE_TESSELLATION_CONTROL_SHADER_BIT => 16,
            VkPipelineStageFlagBits::VK_PIPELINE_STAGE_TESSELLATION_EVALUATION_SHADER_BIT => 32,
            VkPipelineStageFlagBits::VK_PIPELINE_STAGE_GEOMETRY_SHADER_BIT => 64,
            VkPipelineStageFlagBits::VK_PIPELINE_STAGE_FRAGMENT_SHADER_BIT => 128,
            VkPipelineStageFlagBits::VK_PIPELINE_STAGE_EARLY_FRAGMENT_TESTS_BIT => 256,
            VkPipelineStageFlagBits::VK_PIPELINE_STAGE_LATE_FRAGMENT_TESTS_BIT => 512,
            VkPipelineStageFlagBits::VK_PIPELINE_STAGE_COLOR_ATTACHMENT_OUTPUT_BIT => 1024,
            VkPipelineStageFlagBits::VK_PIPELINE_STAGE_COMPUTE_SHADER_BIT => 2048,
            VkPipelineStageFlagBits::VK_PIPELINE_STAGE_TRANSFER_BIT => 4096,
            VkPipelineStageFlagBits::VK_PIPELINE_STAGE_BOTTOM_OF_PIPE_BIT => 8192,
            VkPipelineStageFlagBits::VK_PIPELINE_STAGE_HOST_BIT => 16384,
            VkPipelineStageFlagBits::VK_PIPELINE_STAGE_ALL_GRAPHICS_BIT => 32768,
            VkPipelineStageFlagBits::VK_PIPELINE_STAGE_ALL_COMMANDS_BIT => 65536,
            VkPipelineStageFlagBits::VK_PIPELINE_STAGE_COMMAND_PROCESS_BIT_NVX => 131072,
            VkPipelineStageFlagBits::VK_PIPELINE_STAGE_FLAG_BITS_MAX_ENUM => 2147483647,
        }
    }

    /// The enumerant whose Vulkan value is `raw`, if there is one.
    pub open spec fn from_value(raw: u32) -> Option<Self> {
        match raw {
            1 => Some(VkPipelineStageFlagBits::VK_PIPELINE_STAGE_TOP_OF_PIPE_BIT),
            2 => Some(VkPipelineStageFlagBits::VK_PIPELINE_STAGE_DRAW_INDIRECT_BIT),
            4 => Some(VkPipelineStageFlagBits::VK_PIPELINE_STAGE_VERTEX_INPUT_BIT),
            8 => Some(VkPipelineStageFlagBits::VK_PIPELINE_STAGE_VERTEX_SHADER_BIT),
            16 => Some(VkPipelineStageFlagBits::VK_PIPELINE_STAGE_TESSELLATION_CONTROL_SHADER_BIT),
            32 => Some(VkPipelineStageFlagBits::VK_PIPELINE_STAGE_TESSELLATION_EVALUATION_SHADER_BIT),
            64 => Some(VkPipelineStageFlagBits::VK_PIPELINE_STAGE_GEOMETRY_SHADER_BIT),
            128 => Some(VkPipelineStageFlagBits::VK_PIPELINE_STAGE_FRAGMENT_SHADER_BIT),
            256 => Some(VkPipelineStageFlagBits::VK_PIPELINE_STAGE_EARLY_FRAGMENT_TESTS_BIT),
            512 => Some(VkPipelineStageFlagBits::VK_PIPELINE_STAGE_LATE_FRAGMENT_TESTS_BIT),
            1024 => Some(VkPipelineStageFlagBits::VK_PIPELINE_STAGE_COLOR_ATTACHMENT_OUTPUT_BIT),
            2048 => Some(VkPipelineStageFlagBits::VK_PIPELINE_STAGE_COMPUTE_SHADER_BIT),
            4096 => Some(VkPipelineStageFlagBits::VK_PIPELINE_STAGE_TRANSFER_BIT),
            8192 => Some(VkPipelineStageFlagBits::VK_PIPELINE_STAGE_BOTTOM_OF_PIPE_BIT),
            16384 => Some(VkPipelineStageFlagBits::VK_PIPELINE_STAGE_HOST_BIT),
            32768 => Some(VkPipelineStageFlagBits::VK_PIPELINE_STAGE_ALL_GRAPHICS_BIT),
            65536 => Some(VkPipelineStageFlagBits::VK_PIPELINE_STAGE_ALL_COMMANDS_BIT),
            131072 => Some(VkPipelineStageFlagBits::VK_PIPELINE_STAGE_COMMAND_PROCESS_BIT_NVX),
            2147483647 => Some(VkPipelineStageFlagBits::VK_PIPELINE_STAGE_FLAG_BITS_MAX_ENUM),
            _ => None,
        }
    }

    pub fn as_raw(self) -> (r: u32)
        ensures
            r == self.value(),
    {
        match self {
            VkPipelineStageFlagBits::VK_PIPELINE_STAGE_TOP_OF_PIPE_BIT => 1,
            VkPipelineStageFlagBits::VK_PIPELINE_STAGE_DRAW_INDIRECT_BIT => 2,
            VkPipelineStageFlagBits::VK_PIPELINE_STAGE_VERTEX_INPUT_BIT => 4,
            VkPipelineStageFlagBits::VK_PIPELINE_STAGE_VERTEX_SHADER_BIT => 8,
            VkPipelineStageFlagBits::VK_PIPELINE_STAGE_TESSELLATION_CONTROL_SHADER_BIT => 16,
            VkPipelineStageFlagBits::VK_PIPELINE_STAGE_TESSELLATION_EVALUATION_SHADER_BIT => 32,
            VkPipelineStageFlagBits::VK_PIPELINE_STAGE_GEOMETRY_SHADER_BIT => 64,
            VkPipelineStageFlagBits::VK_PIPELINE_STAGE_FRAGMENT_SHADER_BIT => 128,
            VkPipelineStageFlagBits::VK_PIPELINE_STAGE_EARLY_FRAGMENT_TESTS_BIT => 256,
            VkPipelineStageFlagBits::VK_PIPELINE_STAGE_LATE_FRAGMENT_TESTS_BIT => 512,
            VkPipelineStageFlagBits::VK_PIPELINE_STAGE_COLOR_ATTACHMENT_OUTPUT_BIT => 1024,
            VkPipelineStageFlagBits::VK_PIPELINE_STAGE_COMPUTE_SHADER_BIT => 2048,
            VkPipelineStageFlagBits::VK_PIPELINE_STAGE_TRANSFER_BIT => 4096,
            VkPipelineStageFlagBits::VK_PIPELINE_STAGE_BOTTOM_OF_PIPE_BIT => 8192,
            VkPipelineStageFlagBits::VK_PIPELINE_STAGE_HOST_BIT => 16384,
            VkPipelineStageFlagBits::VK_PIPELINE_STAGE_ALL_GRAPHICS_BIT => 32768,
            VkPipelineStageFlagBits::VK_PIPELINE_STAGE_ALL_COMMANDS_BIT => 65536,
            VkPipelineStageFlagBits::VK_PIPELINE_STAGE_COMMAND_PROCESS_BIT_NVX => 131072,
            VkPipelineStageFlagBits::VK_PIPELINE_STAGE_FLAG_BITS_MAX_ENUM => 2147483647,
        }
    }

    pub fn from_raw(raw: u32) -> (r: Option<Self>)
        ensures
            r == Self::from_value(raw),
    {
        match raw {
            1 => Some(VkPipelineStageFlagBits::VK_PIPELINE_STAGE_TOP_OF_PIPE_BIT),
            2 => Some(VkPipelineStageFlagBits::VK_PIPELINE_STAGE_DRAW_INDIRECT_BIT),
            4 => Some(VkPipelineStageFlagBits::VK_PIPELINE_STAGE_VERTEX_INPUT_BIT),
            8 => Some(VkPipelineStageFlagBits::VK_PIPELINE_STAGE_VERTEX_SHADER_BIT),
            16 => Some(VkPipelineStageFlagBits::VK_PIPELINE_STAGE_TESSELLATION_CONTROL_SHADER_BIT),
            32 => Some(VkPipelineStageFlagBits::VK_PIPELINE_STAGE_TESSELLATION_EVALUATION_SHADER_BIT),
            64 => Some(VkPipelineStageFlagBits::VK_PIPELINE_STAGE_GEOMETRY_SHADER_BIT),
            128 => Some(VkPipelineStageFlagBits::VK_PIPELINE_STAGE_FRAGMENT_SHADER_BIT),
            256 => Some(VkPipelineStageFlagBits::VK_PIPELINE_STAGE_EARLY_FRAGMENT_TESTS_BIT),
            512 => Some(VkPipelineStageFlagBits::VK_PIPELINE_STAGE_LATE_FRAGMENT_TESTS_BIT),
            1024 => Some(VkPipelineStageFlagBits::VK_PIPELINE_STAGE_COLOR_ATTACHMENT_OUTPUT_BIT),
            2048 => Some(VkPipelineStageFlagBits::VK_PIPELINE_STAGE_COMPUTE_SHADER_BIT),
            4096 => Some(VkPipelineStageFlagBits::VK_PIPELINE_STAGE_TRANSFER_BIT),
            8192 => Some(VkPipelineStageFlagBits::VK_PIPELINE_STAGE_BOTTOM_OF_PIPE_BIT),
            16384 => Some(VkPipelineStageFlagBits::VK_PIPELINE_STAGE_HOST_BIT),
            32768 => Some(VkPipelineStageFlagBits::VK_PIPELINE_STAGE_ALL_GRAPHICS_BIT),
            65536 => Some(VkPipelineStageFlagBits::VK_PIPELINE_STAGE_ALL_COMMANDS_BIT),
            131072 => Some(VkPipelineStageFlagBits::VK_PIPELINE_STAGE_COMMAND_PROCESS_BIT_NVX),
            2147483647 => Some(VkPipelineStageFlagBits::VK_PIPELINE_STAGE_FLAG_BITS_MAX_ENUM),
            _ => None,
        }
    }

    /// Reading back the value of an enumerant gives the enumerant.
    pub proof fn lemma_value_roundtrip(self)
        ensures
            Self::from_value(self.value()) == Some(self),
    {
    }
}

#[derive(Clone, Copy, Debug, PartialEq, Eq, Hash, Structural)]
pub enum VkImageAspectFlagBits {
    VK_IMAGE_ASPECT_COLOR_BIT,
    VK_IMAGE_ASPECT_DEPTH_BIT,
    VK_IMAGE_ASPECT_STENCIL_BIT,
    VK_IMAGE_ASPECT_METADATA_BIT,
    VK_IMAGE_ASPECT_FLAG_BITS_MAX_ENUM,
}

impl VkImageAspectFlagBits {
    /// The numeric value that the Vulkan API gives this enumerant.
    pub open spec fn value(self) -> u32 {
        match self {
            VkImageAspectFlagBits::VK_IMAGE_ASPECT_COLOR_BIT => 1,
            VkImageAspectFlagBits::VK_IMAGE_ASPECT_DEPTH_BIT => 2,
            VkImageAspectFlagBits::VK_IMAGE_ASPECT_STENCIL_BIT => 4,
            VkImageAspectFlagBits::VK_IMAGE_ASPECT_METADATA_BIT => 8,
            VkImageAspectFlagBits::VK_IMAGE_ASPECT_FLAG_BITS_MAX_ENUM => 2147483647,
        }
    }

    /// The enumerant whose Vulkan value is `raw`, if there is one.
    pub open spec fn from_value(raw: u32) -> Option<Self> {
        match raw {
            1 => Some(VkImageAspectFlagBits::VK_IMAGE_ASPECT_COLOR_BIT),
            2 => Some(VkImageAspectFlagBits::VK_IMAGE_ASPECT_DEPTH_BIT),
            4 => Some(VkImageAspectFlagBits::VK_IMAGE_ASPECT_STENCIL_BIT),
            8 => Some(VkImageAspectFlagBits::VK_IMAGE_ASPECT_METADATA_BIT),
            2147483647 => Some(VkImageAspectFlagBits::VK_IMAGE_ASPECT_FLAG_BITS_MAX_ENUM),
            _ => None,
        }
    }

    pub fn as_raw(self) -> (r: u32)
        ensures
            r == self.value(),
    {
        match self {
            VkImageAspectFlagBits::VK_IMAGE_ASPECT_COLOR_BIT => 1,
            VkImageAspectFlagBits::VK_IMAGE_ASPECT_DEPTH_BIT => 2,
            VkImageAspectFlagBits::VK_IMAGE_ASPECT_STENCIL_BIT => 4,
            VkImageAspectFlagBits::VK_IMAGE_ASPECT_METADATA_BIT => 8,
            VkImageAspectFlagBits::VK_IMAGE_ASPECT_FLAG_BITS_MAX_ENUM => 2147483647,
        }
    }

    pub fn from_raw(raw: u32) -> (r: Option<Self>)
        ensures
            r == Self::from_value(raw),
    {
        match raw {
            1 => Some(VkImageAspectFlagBits::VK_IMAGE_ASPECT_COLOR_BIT),
            2 => Some(VkImageAspectFlagBits::VK_IMAGE_ASPECT_DEPTH_BIT),
            4 => Some(VkImageAspectFlagBits::VK_IMAGE_ASPECT_STENCIL_BIT),
            8 => Some(VkImageAspectFlagBits::VK_IMAGE_ASPECT_METADATA_BIT),
            2147483647 => Some(VkImageAspectFlagBits::VK_IMAGE_ASPECT_FLAG_BITS_MAX_ENUM),
            _ => None,
        }
    }

    /// Reading back the value of an enumerant gives the enumerant.
    pub proof fn lemma_value_roundtrip(self)
        ensures
            Self::from_value(self.value()) == Some(self),
    {
    }
}

#[derive(Clone, Copy, Debug, PartialEq, Eq, Hash, Structural)]
pub enum VkSparseImageFormatFlagBits {
    VK_SPARSE_IMAGE_FORMAT_SINGLE_MIPTAIL_BIT,
    VK_SPARSE_IMAGE_FORMAT_ALIGNED_MIP_SIZE_BIT,
    VK_SPARSE_IMAGE_FORMAT_NONSTANDARD_BLOCK_SIZE_BIT,
    VK_SPARSE_IMAGE_FORMAT_FLAG_BITS_MAX_ENUM,
}

impl VkSparseImageFormatFlagBits {
    /// The numeric value that the Vulkan API gives this enumerant.
    pub open spec fn value(self) -> u32 {
        match self {
            VkSparseImageFormatFlagBits::VK_SPARSE_IMAGE_FORMAT_SINGLE_MIPTAIL_BIT => 1,
            VkSparseImageFormatFlagBits::VK_SPARSE_IMAGE_FORMAT_ALIGNED_MIP_SIZE_BIT => 2,
            VkSparseImageFormatFlagBits::VK_SPARSE_IMAGE_FORMAT_NONSTANDARD_BLOCK_SIZE_BIT => 4,
            VkSparseImageFormatFlagBits::VK_SPARSE_IMAGE_FORMAT_FLAG_BITS_MAX_ENUM => 2147483647,
        }
    }

    /// The enumerant whose Vulkan value is `raw`, if there is one.
    pub open spec fn from_value(raw: u32) -> Option<Self> {
        match raw {
            1 => Some(VkSparseImageFormatFlagBits::VK_SPARSE_IMAGE_FORMAT_SINGLE_MIPTAIL_BIT),
            2 => Some(VkSparseImageFormatFlagBits::VK_SPARSE_IMAGE_FORMAT_ALIGNED_MIP_SIZE_BIT),
            4 => Some(VkSparseImageFormatFlagBits::VK_SPARSE_IMAGE_FORMAT_NONSTANDARD_BLOCK_SIZE_BIT),
            2147483647 => Some(VkSparseImageFormatFlagBits::VK_SPARSE_IMAGE_FORMAT_FLAG_BITS_MAX_ENUM),
            _ => None,
        }
    }

    pub fn as_raw(self) -> (r: u32)
        ensures
            r == self.value(),
    {
        match self {
            VkSparseImageFormatFlagBits::VK_SPARSE_IMAGE_FORMAT_SINGLE_MIPTAIL_BIT => 1,
            VkSparseImageFormatFlagBits::VK_SPARSE_IMAGE_FORMAT_ALIGNED_MIP_SIZE_BIT => 2,
            VkSparseImageFormatFlagBits::VK_SPARSE_IMAGE_FORMAT_NONSTANDARD_BLOCK_SIZE_BIT => 4,
            VkSparseImageFormatFlagBits::VK_SPARSE_IMAGE_FORMAT_FLAG_BITS_MAX_ENUM => 2147483647,
        }
    }

    pub fn from_raw(raw: u32) -> (r: Option<Self>)
        ensures
            r == Self::from_value(raw),
    {
        match raw {
            1 => Some(VkSparseImageFormatFlagBits::VK_SPARSE_IMAGE_FORMAT_SINGLE_MIPTAIL_BIT),
            2 => Some(VkSparseImageFormatFlagBits::VK_SPARSE_IMAGE_FORMAT_ALIGNED_MIP_SIZE_BIT),
            4 => Some(VkSparseImageFormatFlagBits::VK_SPARSE_IMAGE_FORMAT_NONSTANDARD_BLOCK_SIZE_BIT),
            2147483647 => Some(VkSparseImageFormatFlagBits::VK_SPARSE_IMAGE_FORMAT_FLAG_BITS_MAX_ENUM),
            _ => None,
        }
    }

    /// Reading back the value of an enumerant gives the enumerant.
    pub proof fn lemma_value_roundtrip(self)
        ensures
            Self::from_value(self.value()) == Some(self),
    {
    }
}

#[derive(Clone, Copy, Debug, PartialEq, Eq, Hash, Structural)]
pub enum VkSparseMemoryBindFlagBits {
    VK_SPARSE_MEMORY_BIND_METADATA_BIT,
    VK_SPARSE_MEMORY_BIND_FLAG_BITS_MAX_ENUM,
}

impl VkSparseMemoryBindFlagBits {
    /// The numeric value that the Vulkan API gives this enumerant.
    pub open spec fn value(self) -> u32 {
        match self {
            VkSparseMemoryBindFlagBits::VK_SPARSE_MEMORY_BIND_METADATA_BIT => 1,
            VkSparseMemoryBindFlagBits::VK_SPARSE_MEMORY_BIND_FLAG_BITS_MAX_ENUM => 2147483647,
        }
    }

    /// The enumerant whose Vulkan value is `raw`, if there is one.
    pub open spec fn from_value(raw: u32) -> Option<Self> {
        match raw {
            1 => Some(VkSparseMemoryBindFlagBits::VK_SPARSE_MEMORY_BIND_METADATA_BIT),
            2147483647 => Some(VkSparseMemoryBindFlagBits::VK_SPARSE_MEMORY_BIND_FLAG_BITS_MAX_ENUM),
            _ => None,
        }
    }

    pub fn as_raw(self) -> (r: u32)
        ensures
            r == self.value(),
    {
        match self {
            VkSparseMemoryBindFlagBits::VK_SPARSE_MEMORY_BIND_METADATA_BIT => 1,
            VkSparseMemoryBindFlagBits::VK_SPARSE_MEMORY_BIND_FLAG_BITS_MAX_ENUM => 2147483647,
        }
    }

    pub fn from_raw(raw: u32) -> (r: Option<Self>)
        ensures
            r == Self::from_value(raw),
    {
        match raw {
            1 => Some(VkSparseMemoryBindFlagBits::VK_SPARSE_MEMORY_BIND_METADATA_BIT),
            2147483647 => Some(VkSparseMemoryBindFlagBits::VK_SPARSE_MEMORY_BIND_FLAG_BITS_MAX_ENUM),
            _ => None,
        }
    }

    /// Reading back the value of an enumerant gives the enumerant.
    pub proof fn lemma_value_roundtrip(self)
        ensures
            Self::from_value(self.value()) == Some(self),
    {
    }
}

#[derive(Clone, Copy, Debug, PartialEq, Eq, Hash, Structural)]
pub enum VkFenceCreateFlagBits {
    VK_FENCE_CREATE_SIGNALED_BIT,
    VK_FENCE_CREATE_FLAG_BITS_MAX_ENUM,
}

impl VkFenceCreateFlagBits {
    /// The numeric value that the Vulkan API gives this enumerant.
    pub open spec fn value(self) -> u32 {
        match self {
            VkFenceCreateFlagBits::VK_FENCE_CREATE_SIGNALED_BIT => 1,
            VkFenceCreateFlagBits::VK_FENCE_CREATE_FLAG_BITS_MAX_ENUM => 2147483647,
        }
    }

    /// The enumerant whose Vulkan value is `raw`, if there is one.
    pub open spec fn from_value(raw: u32) -> Option<Self> {
        match raw {
            1 => Some(VkFenceCreateFlagBits::VK_FENCE_CREATE_SIGNALED_BIT),
            2147483647 => Some(VkFenceCreateFlagBits::VK_FENCE_CREATE_FLAG_BITS_MAX_ENUM),
            _ => None,
        }
    }

    pub fn as_raw(self) -> (r: u32)
        ensures
            r == self.value(),
    {
        match self {
            VkFenceCreateFlagBits::VK_FENCE_CREATE_SIGNALED_BIT => 1,
            VkFenceCreateFlagBits::VK_FENCE_CREATE_FLAG_BITS_MAX_ENUM => 2147483647,
        }
    }

    pub fn from_raw(raw: u32) -> (r: Option<Self>)
        ensures
            r == Self::from_value(raw),
    {
        match raw {
            1 => Some(VkFenceCreateFlagBits::VK_FENCE_CREATE_SIGNALED_BIT),
            2147483647 => Some(VkFenceCreateFlagBits::VK_FENCE_CREATE_FLAG_BITS_MAX_ENUM),
            _ => None,
        }
    }

    /// Reading back the value of an enumerant gives the enumerant.
    pub proof fn lemma_value_roundtrip(self)
        ensures
            Self::from_value(self.value()) == Some(self),
    {
    }
}

#[derive(Clone, Copy, Debug, PartialEq, Eq, Hash, Structural)]
pub enum VkQueryPipelineStatisticFlagBits {
    VK_QUERY_PIPELINE_STATISTIC_INPUT_ASSEMBLY_VERTICES_BIT,
    VK_QUERY_PIPELINE_STATISTIC_INPUT_ASSEMBLY_PRIMITIVES_BIT,
    VK_QUERY_PIPELINE_STATISTIC_VERTEX_SHADER_INVOCATIONS_BIT,
    VK_QUERY_PIPELINE_STATISTIC_GEOMETRY_SHADER_INVOCATIONS_BIT,
    VK_QUERY_PIPELINE_STATISTIC_GEOMETRY_SHADER_PRIMITIVES_BIT,
    VK_QUERY_PIPELINE_STATISTIC_CLIPPING_INVOCATIONS_BIT,
    VK_QUERY_PIPELINE_STATISTIC_CLIPPING_PRIMITIVES_BIT,
    VK_QUERY_PIPELINE_STATISTIC_FRAGMENT_SHADER_INVOCATIONS_BIT,
    VK_QUERY_PIPELINE_STATISTIC_TESSELLATION_CONTROL_SHADER_PATCHES_BIT,
    VK_QUERY_PIPELINE_STATISTIC_TESSELLATION_EVALUATION_SHADER_INVOCATIONS_BIT,
    VK_QUERY_PIPELINE_STATISTIC_COMPUTE_SHADER_INVOCATIONS_BIT,
    VK_QUERY_PIPELINE_STATISTIC_FLAG_BITS_MAX_ENUM,
}

impl VkQueryPipelineStatisticFlagBits {
    /// The numeric value that the Vulkan API gives this enumerant.
    pub open spec fn value(self) -> u32 {
        match self {
            VkQueryPipelineStatisticFlagBits::VK_QUERY_PIPELINE_STATISTIC_INPUT_ASSEMBLY_VERTICES_BIT => 1,
            VkQueryPipelineStatisticFlagBits::VK_QUERY_PIPELINE_STATISTIC_INPUT_ASSEMBLY_PRIMITIVES_BIT => 2,
            VkQueryPipelineStatisticFlagBits::VK_QUERY_PIPELINE_STATISTIC_VERTEX_SHADER_INVOCATIONS_BIT => 4,
            VkQueryPipelineStatisticFlagBits::VK_QUERY_PIPELINE_STATISTIC_GEOMETRY_SHADER_INVOCATIONS_BIT => 8,
            VkQueryPipelineStatisticFlagBits::VK_QUERY_PIPELINE_STATISTIC_GEOMETRY_SHADER_PRIMITIVES_BIT => 16,
            VkQueryPipelineStatisticFlagBits::VK_QUERY_PIPELINE_STATISTIC_CLIPPING_INVOCATIONS_BIT => 32,
            VkQueryPipelineStatisticFlagBits::VK_QUERY_PIPELINE_STATISTIC_CLIPPING_PRIMITIVES_BIT => 64,
            VkQueryPipelineStatisticFlagBits::VK_QUERY_PIPELINE_STATISTIC_FRAGMENT_SHADER_INVOCATIONS_BIT => 128,
            VkQueryPipelineStatisticFlagBits::VK_QUERY_PIPELINE_STATISTIC_TESSELLATION_CONTROL_SHADER_PATCHES_BIT => 256,
            VkQueryPipelineStatisticFlagBits::VK_QUERY_PIPELINE_STATISTIC_TESSELLATION_EVALUATION_SHADER_INVOCATIONS_BIT => 512,
            VkQueryPipelineStatisticFlagBits::VK_QUERY_PIPELINE_STATISTIC_COMPUTE_SHADER_INVOCATIONS_BIT => 1024,
            VkQueryPipelineStatisticFlagBits::VK_QUERY_PIPELINE_STATISTIC_FLAG_BITS_MAX_ENUM => 2147483647,
        }
    }

    /// The enumerant whose Vulkan value is `raw`, if there is one.
    pub open spec fn from_value(raw: u32) -> Option<Self> {
        match raw {
            1 => Some(VkQueryPipelineStatisticFlagBits::VK_QUERY_PIPELINE_STATISTIC_INPUT_ASSEMBLY_VERTICES_BIT),
            2 => Some(VkQueryPipelineStatisticFlagBits::VK_QUERY_PIPELINE_STATISTIC_INPUT_ASSEMBLY_PRIMITIVES_BIT),
            4 => Some(VkQueryPipelineStatisticFlagBits::VK_QUERY_PIPELINE_STATISTIC_VERTEX_SHADER_INVOCATIONS_BIT),
            8 => Some(VkQueryPipelineStatisticFlagBits::VK_QUERY_PIPELINE_STATISTIC_GEOMETRY_SHADER_INVOCATIONS_BIT),
            16 => Some(VkQueryPipelineStatisticFlagBits::VK_QUERY_PIPELINE_STATISTIC_GEOMETRY_SHADER_PRIMITIVES_BIT),
            32 => Some(VkQueryPipelineStatisticFlagBits::VK_QUERY_PIPELINE_STATISTIC_CLIPPING_INVOCATIONS_BIT),
            64 => Some(VkQueryPipelineStatisticFlagBits::VK_QUERY_PIPELINE_STATISTIC_CLIPPING_PRIMITIVES_BIT),
            128 => Some(VkQueryPipelineStatisticFlagBits::VK_QUERY_PIPELINE_STATISTIC_FRAGMENT_SHADER_INVOCATIONS_BIT),
            256 => Some(VkQueryPipelineStatisticFlagBits::VK_QUERY_PIPELINE_STATISTIC_TESSELLATION_CONTROL_SHADER_PATCHES_BIT),
            512 => Some(VkQueryPipelineStatisticFlagBits::VK_QUERY_PIPELINE_STATISTIC_TESSELLATION_EVALUATION_SHADER_INVOCATIONS_BIT),
            1024 => Some(VkQueryPipelineStatisticFlagBits::VK_QUERY_PIPELINE_STATISTIC_COMPUTE_SHADER_INVOCATIONS_BIT),
            2147483647 => Some(VkQueryPipelineStatisticFlagBits::VK_QUERY_PIPELINE_STATISTIC_FLAG_BITS_MAX_ENUM),
            _ => None,
        }
    }

    pub fn as_raw(self) -> (r: u32)
        ensures
            r == self.value(),
    {
        match self {
            VkQueryPipelineStatisticFlagBits::VK_QUERY_PIPELINE_STATISTIC_INPUT_ASSEMBLY_VERTICES_BIT => 1,
            VkQueryPipelineStatisticFlagBits::VK_QUERY_PIPELINE_STATISTIC_INPUT_ASSEMBLY_PRIMITIVES_BIT => 2,
            VkQueryPipelineStatisticFlagBits::VK_QUERY_PIPELINE_STATISTIC_VERTEX_SHADER_INVOCATIONS_BIT => 4,
            VkQueryPipelineStatisticFlagBits::VK_QUERY_PIPELINE_STATISTIC_GEOMETRY_SHADER_INVOCATIONS_BIT => 8,
            VkQueryPipelineStatisticFlagBits::VK_QUERY_PIPELINE_STATISTIC_GEOMETRY_SHADER_PRIMITIVES_BIT => 16,
            VkQueryPipelineStatisticFlagBits::VK_QUERY_PIPELINE_STATISTIC_CLIPPING_INVOCATIONS_BIT => 32,
            VkQueryPipelineStatisticFlagBits::VK_QUERY_PIPELINE_STATISTIC_CLIPPING_PRIMITIVES_BIT => 64,
            VkQueryPipelineStatisticFlagBits::VK_QUERY_PIPELINE_STATISTIC_FRAGMENT_SHADER_INVOCATIONS_BIT => 128,
            VkQueryPipelineStatisticFlagBits::VK_QUERY_PIPELINE_STATISTIC_TESSELLATION_CONTROL_SHADER_PATCHES_BIT => 256,
            VkQueryPipelineStatisticFlagBits::VK_QUERY_PIPELINE_STATISTIC_TESSELLATION_EVALUATION_SHADER_INVOCATIONS_BIT => 512,
            VkQueryPipelineStatisticFlagBits::VK_QUERY_PIPELINE_STATISTIC_COMPUTE_SHADER_INVOCATIONS_BIT => 1024,
            VkQueryPipelineStatisticFlagBits::VK_QUERY_PIPELINE_STATISTIC_FLAG_BITS_MAX_ENUM => 2147483647,
        }
    }

    pub fn from_raw(raw: u32) -> (r: Option<Self>)
        ensures
            r == Self::from_value(raw),
    {
        match raw {
            1 => Some(VkQueryPipelineStatisticFlagBits::VK_QUERY_PIPELINE_STATISTIC_INPUT_ASSEMBLY_VERTICES_BIT),
            2 => Some(VkQueryPipelineStatisticFlagBits::VK_QUERY_PIPELINE_STATISTIC_INPUT_ASSEMBLY_PRIMITIVES_BIT),
            4 => Some(VkQueryPipelineStatisticFlagBits::VK_QUERY_PIPELINE_STATISTIC_VERTEX_SHADER_INVOCATIONS_BIT),
            8 => Some(VkQueryPipelineStatisticFlagBits::VK_QUERY_PIPELINE_STATISTIC_GEOMETRY_SHADER_INVOCATIONS_BIT),
            16 => Some(VkQueryPipelineStatisticFlagBits::VK_QUERY_PIPELINE_STATISTIC_GEOMETRY_SHADER_PRIMITIVES_BIT),
            32 => Some(VkQueryPipelineStatisticFlagBits::VK_QUERY_PIPELINE_STATISTIC_CLIPPING_INVOCATIONS_BIT),
            64 => Some(VkQueryPipelineStatisticFlagBits::VK_QUERY_PIPELINE_STATISTIC_CLIPPING_PRIMITIVES_BIT),
            128 => Some(VkQueryPipelineStatisticFlagBits::VK_QUERY_PIPELINE_STATISTIC_FRAGMENT_SHADER_INVOCATIONS_BIT),
            256 => Some(VkQueryPipelineStatisticFlagBits::VK_QUERY_PIPELINE_STATISTIC_TESSELLATION_CONTROL_SHADER_PATCHES_BIT),
            512 => Some(VkQueryPipelineStatisticFlagBits::VK_QUERY_PIPELINE_STATISTIC_TESSELLATION_EVALUATION_SHADER_INVOCATIONS_BIT),
            1024 => Some(VkQueryPipelineStatisticFlagBits::VK_QUERY_PIPELINE_STATISTIC_COMPUTE_SHADER_INVOCATIONS_BIT),
            2147483647 => Some(VkQueryPipelineStatisticFlagBits::VK_QUERY_PIPELINE_STATISTIC_FLAG_BITS_MAX_ENUM),
            _ => None,
        }
    }

    /// Reading back the value of an enumerant gives the enumerant.
    pub proof fn lemma_value_roundtrip(self)
        ensures
            Self::from_value(self.value()) == Some(self),
    {
    }
}

#[derive(Clone, Copy, Debug, PartialEq, Eq, Hash, Structural)]
pub enum VkQueryResultFlagBits {
    VK_QUERY_RESULT_64_BIT,
    VK_QUERY_RESULT_WAIT_BIT,
    VK_QUERY_RESULT_WITH_AVAILABILITY_BIT,
    VK_QUERY_RESULT_PARTIAL_BIT,
    VK_QUERY_RESULT_FLAG_BITS_MAX_ENUM,
}

impl VkQueryResultFlagBits {
    /// The numeric value that the Vulkan API gives this enumerant.
    pub open spec fn value(self) -> u32 {
        match self {
            VkQueryResultFlagBits::VK_QUERY_RESULT_64_BIT => 1,
            VkQueryResultFlagBits::VK_QUERY_RESULT_WAIT_BIT => 2,
            VkQueryResultFlagBits::VK_QUERY_RESULT_WITH_AVAILABILITY_BIT => 4,
            VkQueryResultFlagBits::VK_QUERY_RESULT_PARTIAL_BIT => 8,
            VkQueryResultFlagBits::VK_QUERY_RESULT_FLAG_BITS_MAX_ENUM => 2147483647,
        }
    }

    /// The enumerant whose Vulkan value is `raw`, if there is one.
    pub open spec fn from_value(raw: u32) -> Option<Self> {
        match raw {
            1 => Some(VkQueryResultFlagBits::VK_QUERY_RESULT_64_BIT),
            2 => Some(VkQueryResultFlagBits::VK_QUERY_RESULT_WAIT_BIT),
            4 => Some(VkQueryResultFlagBits::VK_QUERY_RESULT_WITH_AVAILABILITY_BIT),
            8 => Some(VkQueryResultFlagBits::VK_QUERY_RESULT_PARTIAL_BIT),
            2147483647 => Some(VkQueryResultFlagBits::VK_QUERY_RESULT_FLAG_BITS_MAX_ENUM),
            _ => None,
        }
    }

    pub fn as_raw(self) -> (r: u32)
        ensures
            r == self.value(),
    {
        match self {
            VkQueryResultFlagBits::VK_QUERY_RESULT_64_BIT => 1,
            VkQueryResultFlagBits::VK_QUERY_RESULT_WAIT_BIT => 2,
            VkQueryResultFlagBits::VK_QUERY_RESULT_WITH_AVAILABILITY_BIT => 4,
            VkQueryResultFlagBits::VK_QUERY_RESULT_PARTIAL_BIT => 8,
            VkQueryResultFlagBits::VK_QUERY_RESULT_FLAG_BITS_MAX_ENUM => 2147483647,
        }
    }

    pub fn from_raw(raw: u32) -> (r: Option<Self>)
        ensures
            r == Self::from_value(raw),
    {
        match raw {
            1 => Some(VkQueryResultFlagBits::VK_QUERY_RESULT_64_BIT),
            2 => Some(VkQueryResultFlagBits::VK_QUERY_RESULT_WAIT_BIT),
            4 => Some(VkQueryResultFlagBits::VK_QUERY_RESULT_WITH_AVAILABILITY_BIT),
            8 => Some(VkQueryResultFlagBits::VK_QUERY_RESULT_PARTIAL_BIT),
            2147483647 => Some(VkQueryResultFlagBits::VK_QUERY_RESULT_FLAG_BITS_MAX_ENUM),
            _ => None,
        }
    }

    /// Reading back the value of an enumerant gives the enumerant.
    pub proof fn lemma_value_roundtrip(self)
        ensures
            Self::from_value(self.value()) == Some(self),
    {
    }
}

#[derive(Clone, Copy, Debug, PartialEq, Eq, Hash, Structural)]
pub enum VkBufferCreateFlagBits {
    VK_BUFFER_CREATE_SPARSE_BINDING_BIT,
    VK_BUFFER_CREATE_SPARSE_RESIDENCY_BIT,
    VK_BUFFER_CREATE_SPARSE_ALIASED_BIT,
    VK_BUFFER_CREATE_FLAG_BITS_MAX_ENUM,
}

impl VkBufferCreateFlagBits {
    /// The numeric value that the Vulkan API gives this enumerant.
    pub open spec fn value(self) -> u32 {
        match self {
            VkBufferCreateFlagBits::VK_BUFFER_CREATE_SPARSE_BINDING_BIT => 1,
            VkBufferCreateFlagBits::VK_BUFFER_CREATE_SPARSE_RESIDENCY_BIT => 2,
            VkBufferCreateFlagBits::VK_BUFFER_CREATE_SPARSE_ALIASED_BIT => 4,
            VkBufferCreateFlagBits::VK_BUFFER_CREATE_FLAG_BITS_MAX_ENUM => 2147483647,
        }
    }

    /// The enumerant whose Vulkan value is `raw`, if there is one.
    pub open spec fn from_value(raw: u32) -> Option<Self> {
        match raw {
            1 => Some(VkBufferCreateFlagBits::VK_BUFFER_CREATE_SPARSE_BINDING_BIT),
            2 => Some(VkBufferCreateFlagBits::VK_BUFFER_CREATE_SPARSE_RESIDENCY_BIT),
            4 => Some(VkBufferCreateFlagBits::VK_BUFFER_CREATE_SPARSE_ALIASED_BIT),
            2147483647 => Some(VkBufferCreateFlagBits::VK_BUFFER_CREATE_FLAG_BITS_MAX_ENUM),
            _ => None,
        }
    }

    pub fn as_raw(self) -> (r: u32)
        ensures
            r == self.value(),
    {
        match self {
            VkBufferCreateFlagBits::VK_BUFFER_CREATE_SPARSE_BINDING_BIT => 1,
            VkBufferCreateFlagBits::VK_BUFFER_CREATE_SPARSE_RESIDENCY_BIT => 2,
            VkBufferCreateFlagBits::VK_BUFFER_CREATE_SPARSE_ALIASED_BIT => 4,
            VkBufferCreateFlagBits::VK_BUFFER_CREATE_FLAG_BITS_MAX_ENUM => 2147483647,
        }
    }

    pub fn from_raw(raw: u32) -> (r: Option<Self>)
        ensures
            r == Self::from_value(raw),
    {
        match raw {
            1 => Some(VkBufferCreateFlagBits::VK_BUFFER_CREATE_SPARSE_BINDING_BIT),
            2 => Some(VkBufferCreateFlagBits::VK_BUFFER_CREATE_SPARSE_RESIDENCY_BIT),
            4 => Some(VkBufferCreateFlagBits::VK_BUFFER_CREATE_SPARSE_ALIASED_BIT),
            2147483647 => Some(VkBufferCreateFlagBits::VK_BUFFER_CREATE_FLAG_BITS_MAX_ENUM),
            _ => None,
        }
    }

    /// Reading back the value of an enumerant gives the enumerant.
    pub proof fn lemma_value_roundtrip(self)
        ensures
            Self::from_value(self.value()) == Some(self),
    {
    }
}

#[derive(Clone, Copy, Debug, PartialEq, Eq, Hash, Structural)]
pub enum VkBufferUsageFlagBits {
    VK_BUFFER_USAGE_TRANSFER_SRC_BIT,
    VK_BUFFER_USAGE_TRANSFER_DST_BIT,
    VK_BUFFER_USAGE_UNIFORM_TEXEL_BUFFER_BIT,
    VK_BUFFER_USAGE_STORAGE_TEXEL_BUFFER_BIT,
    VK_BUFFER_USAGE_UNIFORM_BUFFER_BIT,
    VK_BUFFER_USAGE_STORAGE_BUFFER_BIT,
    VK_BUFFER_USAGE_INDEX_BUFFER_BIT,
    VK_BUFFER_USAGE_VERTEX_BUFFER_BIT,
    VK_BUFFER_USAGE_INDIRECT_BUFFER_BIT,
    VK_BUFFER_USAGE_FLAG_BITS_MAX_ENUM,
}

impl VkBufferUsageFlagBits {
    /// The numeric value that the Vulkan API gives this enumerant.
    pub open spec fn value(self) -> u32 {
        match self {
            VkBufferUsageFlagBits::VK_BUFFER_USAGE_TRANSFER_SRC_BIT => 1,
            VkBufferUsageFlagBits::VK_BUFFER_USAGE_TRANSFER_DST_BIT => 2,
            VkBufferUsageFlagBits::VK_BUFFER_USAGE_UNIFORM_TEXEL_BUFFER_BIT => 4,
            VkBufferUsageFlagBits::VK_BUFFER_USAGE_STORAGE_TEXEL_BUFFER_BIT => 8,
            VkBufferUsageFlagBits::VK_BUFFER_USAGE_UNIFORM_BUFFER_BIT => 16,
            VkBufferUsageFlagBits::VK_BUFFER_USAGE_STORAGE_BUFFER_BIT => 32,
            VkBufferUsageFlagBits::VK_BUFFER_USAGE_INDEX_BUFFER_BIT => 64,
            VkBufferUsageFlagBits::VK_BUFFER_USAGE_VERTEX_BUFFER_BIT => 128,
            VkBufferUsageFlagBits::VK_BUFFER_USAGE_INDIRECT_BUFFER_BIT => 256,
            VkBufferUsageFlagBits::VK_BUFFER_USAGE_FLAG_BITS_MAX_ENUM => 2147483647,
        }
    }

    /// The enumerant whose Vulkan value is `raw`, if there is one.
    pub open spec fn from_value(raw: u32) -> Option<Self> {
        match raw {
            1 => Some(VkBufferUsageFlagBits::VK_BUFFER_USAGE_TRANSFER_SRC_BIT),
            2 => Some(VkBufferUsageFlagBits::VK_BUFFER_USAGE_TRANSFER_DST_BIT),
            4 => Some(VkBufferUsageFlagBits::VK_BUFFER_USAGE_UNIFORM_TEXEL_BUFFER_BIT),
            8 => Some(VkBufferUsageFlagBits::VK_BUFFER_USAGE_STORAGE_TEXEL_BUFFER_BIT),
            16 => Some(VkBufferUsageFlagBits::VK_BUFFER_USAGE_UNIFORM_BUFFER_BIT),
            32 => Some(VkBufferUsageFlagBits::VK_BUFFER_USAGE_STORAGE_BUFFER_BIT),
            64 => Some(VkBufferUsageFlagBits::VK_BUFFER_USAGE_INDEX_BUFFER_BIT),
            128 => Some(VkBufferUsageFlagBits::VK_BUFFER_USAGE_VERTEX_BUFFER_BIT),
            256 => Some(VkBufferUsageFlagBits::VK_BUFFER_USAGE_INDIRECT_BUFFER_BIT),
            2147483647 => Some(VkBufferUsageFlagBits::VK_BUFFER_USAGE_FLAG_BITS_MAX_ENUM),
            _ => None,
        }
    }

    pub fn as_raw(self) -> (r: u32)
        ensures
            r == self.value(),
    {
        match self {
            VkBufferUsageFlagBits::VK_BUFFER_USAGE_TRANSFER_SRC_BIT => 1,
            VkBufferUsageFlagBits::VK_BUFFER_USAGE_TRANSFER_DST_BIT => 2,
            VkBufferUsageFlagBits::VK_BUFFER_USAGE_UNIFORM_TEXEL_BUFFER_BIT => 4,
            VkBufferUsageFlagBits::VK_BUFFER_USAGE_STORAGE_TEXEL_BUFFER_BIT => 8,
            VkBufferUsageFlagBits::VK_BUFFER_USAGE_UNIFORM_BUFFER_BIT => 16,
            VkBufferUsageFlagBits::VK_BUFFER_USAGE_STORAGE_BUFFER_BIT => 32,
            VkBufferUsageFlagBits::VK_BUFFER_USAGE_INDEX_BUFFER_BIT => 64,
            VkBufferUsageFlagBits::VK_BUFFER_USAGE_VERTEX_BUFFER_BIT => 128,
            VkBufferUsageFlagBits::VK_BUFFER_USAGE_INDIRECT_BUFFER_BIT => 256,
            VkBufferUsageFlagBits::VK_BUFFER_USAGE_FLAG_BITS_MAX_ENUM => 2147483647,
        }
    }

    pub fn from_raw(raw: u32) -> (r: Option<Self>)
        ensures
            r == Self::from_value(raw),
    {
        match raw {
            1 => Some(VkBufferUsageFlagBits::VK_BUFFER_USAGE_TRANSFER_SRC_BIT),
            2 => Some(VkBufferUsageFlagBits::VK_BUFFER_USAGE_TRANSFER_DST_BIT),
            4 => Some(VkBufferUsageFlagBits::VK_BUFFER_USAGE_UNIFORM_TEXEL_BUFFER_BIT),
            8 => Some(VkBufferUsageFlagBits::VK_BUFFER_USAGE_STORAGE_TEXEL_BUFFER_BIT),
            16 => Some(VkBufferUsageFlagBits::VK_BUFFER_USAGE_UNIFORM_BUFFER_BIT),
            32 => Some(VkBufferUsageFlagBits::VK_BUFFER_USAGE_STORAGE_BUFFER_BIT),
            64 => Some(VkBufferUsageFlagBits::VK_BUFFER_USAGE_INDEX_BUFFER_BIT),
            128 => Some(VkBufferUsageFlagBits::VK_BUFFER_USAGE_VERTEX_BUFFER_BIT),
            256 => Some(VkBufferUsageFlagBits::VK_BUFFER_USAGE_INDIRECT_BUFFER_BIT),
            2147483647 => Some(VkBufferUsageFlagBits::VK_BUFFER_USAGE_FLAG_BITS_MAX_ENUM),
            _ => None,
        }
    }

    /// Reading back the value of an enumerant gives the enumerant.
    pub proof fn lemma_value_roundtrip(self)
        ensures
            Self::from_value(self.value()) == Some(self),
    {
    }
}

#[derive(Clone, Copy, Debug, PartialEq, Eq, Hash, Structural)]
pub enum VkPipelineCreateFlagBits {
    VK_PIPELINE_CREATE_DISABLE_OPTIMIZATION_BIT,
    VK_PIPELINE_CREATE_ALLOW_DERIVATIVES_BIT,
    VK_PIPELINE_CREATE_DERIVATIVE_BIT,
    VK_PIPELINE_CREATE_VIEW_INDEX_FROM_DEVICE_INDEX_BIT_KHX,
    VK_PIPELINE_CREATE_DISPATCH_BASE_KHX,
    VK_PIPELINE_CREATE_FLAG_BITS_MAX_ENUM,
}

impl VkPipelineCreateFlagBits {
    /// The numeric value that the Vulkan API gives this enumerant.
    pub open spec fn value(self) -> u32 {
        match self {
            VkPipelineCreateFlagBits::VK_PIPELINE_CREATE_DISABLE_OPTIMIZATION_BIT => 1,
            VkPipelineCreateFlagBits::VK_PIPELINE_CREATE_ALLOW_DERIVATIVES_BIT => 2,
            VkPipelineCreateFlagBits::VK_PIPELINE_CREATE_DERIVATIVE_BIT => 4,
            VkPipelineCreateFlagBits::VK_PIPELINE_CREATE_VIEW_INDEX_FROM_DEVICE_INDEX_BIT_KHX => 8,
            VkPipelineCreateFlagBits::VK_PIPELINE_CREATE_DISPATCH_BASE_KHX => 16,
            VkPipelineCreateFlagBits::VK_PIPELINE_CREATE_FLAG_BITS_MAX_ENUM => 2147483647,
        }
    }

    /// The enumerant whose Vulkan value is `raw`, if there is one.
    pub open spec fn from_value(raw: u32) -> Option<Self> {
        match raw {
            1 => Some(VkPipelineCreateFlagBits::VK_PIPELINE_CREATE_DISABLE_OPTIMIZATION_BIT),
            2 => Some(VkPipelineCreateFlagBits::VK_PIPELINE_CREATE_ALLOW_DERIVATIVES_BIT),
            4 => Some(VkPipelineCreateFlagBits::VK_PIPELINE_CREATE_DERIVATIVE_BIT),
            8 => Some(VkPipelineCreateFlagBits::VK_PIPELINE_CREATE_VIEW_INDEX_FROM_DEVICE_INDEX_BIT_KHX),
            16 => Some(VkPipelineCreateFlagBits::VK_PIPELINE_CREATE_DISPATCH_BASE_KHX),
            2147483647 => Some(VkPipelineCreateFlagBits::VK_PIPELINE_CREATE_FLAG_BITS_MAX_ENUM),
            _ => None,
        }
    }

    pub fn as_raw(self) -> (r: u32)
        ensures
            r == self.value(),
    {
        match self {
            VkPipelineCreateFlagBits::VK_PIPELINE_CREATE_DISABLE_OPTIMIZATION_BIT => 1,
            VkPipelineCreateFlagBits::VK_PIPELINE_CREATE_ALLOW_DERIVATIVES_BIT => 2,
            VkPipelineCreateFlagBits::VK_PIPELINE_CREATE_DERIVATIVE_BIT => 4,
            VkPipelineCreateFlagBits::VK_PIPELINE_CREATE_VIEW_INDEX_FROM_DEVICE_INDEX_BIT_KHX => 8,
            VkPipelineCreateFlagBits::VK_PIPELINE_CREATE_DISPATCH_BASE_KHX => 16,
            VkPipelineCreateFlagBits::VK_PIPELINE_CREATE_FLAG_BITS_MAX_ENUM => 2147483647,
        }
    }

    pub fn from_raw(raw: u32) -> (r: Option<Self>)
        ensures
            r == Self::from_value(raw),
    {
        match raw {
            1 => Some(VkPipelineCreateFlagBits::VK_PIPELINE_CREATE_DISABLE_OPTIMIZATION_BIT),
            2 => Some(VkPipelineCreateFlagBits::VK_PIPELINE_CREATE_ALLOW_DERIVATIVES_BIT),
            4 => Some(VkPipelineCreateFlagBits::VK_PIPELINE_CREATE_DERIVATIVE_BIT),
            8 => Some(VkPipelineCreateFlagBits::VK_PIPELINE_CREATE_VIEW_INDEX_FROM_DEVICE_INDEX_BIT_KHX),
            16 => Some(VkPipelineCreateFlagBits::VK_PIPELINE_CREATE_DISPATCH_BASE_KHX),
            2147483647 => Some(VkPipelineCreateFlagBits::VK_PIPELINE_CREATE_FLAG_BITS_MAX_ENUM),
            _ => None,
        }
    }

    /// Reading back the value of an enumerant gives the enumerant.
    pub proof fn lemma_value_roundtrip(self)
        ensures
            Self::from_value(self.value()) == Some(self),
    {
    }
}

#[derive(Clone, Copy, Debug, PartialEq, Eq, Hash, Structural)]
pub enum VkShaderStageFlagBits {
    VK_SHADER_STAGE_VERTEX_BIT,
    VK_SHADER_STAGE_TESSELLATION_CONTROL_BIT,
    VK_SHADER_STAGE_TESSELLATION_EVALUATION_BIT,
    VK_SHADER_STAGE_GEOMETRY_BIT,
    VK_SHADER_STAGE_FRAGMENT_BIT,
    VK_SHADER_STAGE_COMPUTE_BIT,
    VK_SHADER_STAGE_ALL_GRAPHICS,
    VK_SHADER_STAGE_ALL,
}

impl VkShaderStageFlagBits {
    /// The numeric value that the Vulkan API gives this enumerant.
    pub open spec fn value(self) -> u32 {
        match self {
            VkShaderStageFlagBits::VK_SHADER_STAGE_VERTEX_BIT => 1,
            VkShaderStageFlagBits::VK_SHADER_STAGE_TESSELLATION_CONTROL_BIT => 2,
            VkShaderStageFlagBits::VK_SHADER_STAGE_TESSELLATION_EVALUATION_BIT => 4,
            VkShaderStageFlagBits::VK_SHADER_STAGE_GEOMETRY_BIT => 8,
            VkShaderStageFlagBits::VK_SHADER_STAGE_FRAGMENT_BIT => 16,
            VkShaderStageFlagBits::VK_SHADER_STAGE_COMPUTE_BIT => 32,
            VkShaderStageFlagBits::VK_SHADER_STAGE_ALL_GRAPHICS => 31,
            VkShaderStageFlagBits::VK_SHADER_STAGE_ALL => 2147483647,
        }
    }

    /// The enumerant whose Vulkan value is `raw`, if there is one.
    pub open spec fn from_value(raw: u32) -> Option<Self> {
        match raw {
            1 => Some(VkShaderStageFlagBits::VK_SHADER_STAGE_VERTEX_BIT),
            2 => Some(VkShaderStageFlagBits::VK_SHADER_STAGE_TESSELLATION_CONTROL_BIT),
            4 => Some(VkShaderStageFlagBits::VK_SHADER_STAGE_TESSELLATION_EVALUATION_BIT),
            8 => Some(VkShaderStageFlagBits::VK_SHADER_STAGE_GEOMETRY_BIT),
            16 => Some(VkShaderStageFlagBits::VK_SHADER_STAGE_FRAGMENT_BIT),
            32 => Some(VkShaderStageFlagBits::VK_SHADER_STAGE_COMPUTE_BIT),
            31 => Some(VkShaderStageFlagBits::VK_SHADER_STAGE_ALL_GRAPHICS),
            2147483647 => Some(VkShaderStageFlagBits::VK_SHADER_STAGE_ALL),
            _ => None,
        }
    }

    pub fn as_raw(self) -> (r: u32)
        ensures
            r == self.value(),
    {
        match self {
            VkShaderStageFlagBits::VK_SHADER_STAGE_VERTEX_BIT => 1,
            VkShaderStageFlagBits::VK_SHADER_STAGE_TESSELLATION_CONTROL_BIT => 2,
            VkShaderStageFlagBits::VK_SHADER_STAGE_TESSELLATION_EVALUATION_BIT => 4,
            VkShaderStageFlagBits::VK_SHADER_STAGE_GEOMETRY_BIT => 8,
            VkShaderStageFlagBits::VK_SHADER_STAGE_FRAGMENT_BIT => 16,
            VkShaderStageFlagBits::VK_SHADER_STAGE_COMPUTE_BIT => 32,
            VkShaderStageFlagBits::VK_SHADER_STAGE_ALL_GRAPHICS => 31,
            VkShaderStageFlagBits::VK_SHADER_STAGE_ALL => 2147483647,
        }
    }

    pub fn from_raw(raw: u32) -> (r: Option<Self>)
        ensures
            r == Self::from_value(raw),
    {
        match raw {
            1 => Some(VkShaderStageFlagBits::VK_SHADER_STAGE_VERTEX_BIT),
            2 => Some(VkShaderStageFlagBits::VK_SHADER_STAGE_TESSELLATION_CONTROL_BIT),
            4 => Some(VkShaderStageFlagBits::VK_SHADER_STAGE_TESSELLATION_EVALUATION_BIT),
            8 => Some(VkShaderStageFlagBits::VK_SHADER_STAGE_GEOMETRY_BIT),
            16 => Some(VkShaderStageFlagBits::VK_SHADER_STAGE_FRAGMENT_BIT),
            32 => Some(VkShaderStageFlagBits::VK_SHADER_STAGE_COMPUTE_BIT),
            31 => Some(VkShaderStageFlagBits::VK_SHADER_STAGE_ALL_GRAPHICS),
            2147483647 => Some(VkShaderStageFlagBits::VK_SHADER_STAGE_ALL),
            _ => None,
        }
    }

    /// Reading back the value of an enumerant gives the enumerant.
    pub proof fn lemma_value_roundtrip(self)
        ensures
            Self::from_value(self.value()) == Some(self),
    {
    }
}

#[derive(Clone, Copy, Debug, PartialEq, Eq, Hash, Structural)]
pub enum VkCullModeFlagBits {
    VK_CULL_MODE_NONE,
    VK_CULL_MODE_FRONT_BIT,
    VK_CULL_MODE_BACK_BIT,
    VK_CULL_MODE_FRONT_AND_BACK,
    VK_CULL_MODE_FLAG_BITS_MAX_ENUM,
}

impl VkCullModeFlagBits {
    /// The numeric value that the Vulkan API gives this enumerant.
    pub open spec fn value(self) -> u32 {
        match self {
            VkCullModeFlagBits::VK_CULL_MODE_NONE => 0,
            VkCullModeFlagBits::VK_CULL_MODE_FRONT_BIT => 1,
            VkCullModeFlagBits::VK_CULL_MODE_BACK_BIT => 2,
            VkCullModeFlagBits::VK_CULL_MODE_FRONT_AND_BACK => 3,
            VkCullModeFlagBits::VK_CULL_MODE_FLAG_BITS_MAX_ENUM => 2147483647,
        }
    }

    /// The enumerant whose Vulkan value is `raw`, if there is one.
    pub open spec fn from_value(raw: u32) -> Option<Self> {
        match raw {
            0 => Some(VkCullModeFlagBits::VK_CULL_MODE_NONE),
            1 => Some(VkCullModeFlagBits::VK_CULL_MODE_FRONT_BIT),
            2 => Some(VkCullModeFlagBits::VK_CULL_MODE_BACK_BIT),
            3 => Some(VkCullModeFlagBits::VK_CULL_MODE_FRONT_AND_BACK),
            2147483647 => Some(VkCullModeFlagBits::VK_CULL_MODE_FLAG_BITS_MAX_ENUM),
            _ => None,
        }
    }

    pub fn as_raw(self) -> (r: u32)
        ensures
            r == self.value(),
    {
        match self {
            VkCullModeFlagBits::VK_CULL_MODE_NONE => 0,
            VkCullModeFlagBits::VK_CULL_MODE_FRONT_BIT => 1,
            VkCullModeFlagBits::VK_CULL_MODE_BACK_BIT => 2,
            VkCullModeFlagBits::VK_CULL_MODE_FRONT_AND_BACK => 3,
            VkCullModeFlagBits::VK_CULL_MODE_FLAG_BITS_MAX_ENUM => 2147483647,
        }
    }

    pub fn from_raw(raw: u32) -> (r: Option<Self>)
        ensures
            r == Self::from_value(raw),
    {
        match raw {
            0 => Some(VkCullModeFlagBits::VK_CULL_MODE_NONE),
            1 => Some(VkCullModeFlagBits::VK_CULL_MODE_FRONT_BIT),
            2 => Some(VkCullModeFlagBits::VK_CULL_MODE_BACK_BIT),
            3 => Some(VkCullModeFlagBits::VK_CULL_MODE_FRONT_AND_BACK),
            2147483647 => Some(VkCullModeFlagBits::VK_CULL_MODE_FLAG_BITS_MAX_ENUM),
            _ => None,
        }
    }

    /// Reading back the value of an enumerant gives the enumerant.
    pub proof fn lemma_value_roundtrip(self)
        ensures
            Self::from_value(self.value()) == Some(self),
    {
    }
}

#[derive(Clone, Copy, Debug, PartialEq, Eq, Hash, Structural)]
pub enum VkColorComponentFlagBits {
    VK_COLOR_COMPONENT_R_BIT,
    VK_COLOR_COMPONENT_G_BIT,
    VK_COLOR_COMPONENT_B_BIT,
    VK_COLOR_COMPONENT_A_BIT,
    VK_COLOR_COMPONENT_FLAG_BITS_MAX_ENUM,
}

impl VkColorComponentFlagBits {
    /// The numeric value that the Vulkan API gives this enumerant.
    pub open spec fn value(self) -> u32 {
        match self {
            VkColorComponentFlagBits::VK_COLOR_COMPONENT_R_BIT => 1,
            VkColorComponentFlagBits::VK_COLOR_COMPONENT_G_BIT => 2,
            VkColorComponentFlagBits::VK_COLOR_COMPONENT_B_BIT => 4,
            VkColorComponentFlagBits::VK_COLOR_COMPONENT_A_BIT => 8,
            VkColorComponentFlagBits::VK_COLOR_COMPONENT_FLAG_BITS_MAX_ENUM => 2147483647,
        }
    }

    /// The enumerant whose Vulkan value is `raw`, if there is one.
    pub open spec fn from_value(raw: u32) -> Option<Self> {
        match raw {
            1 => Some(VkColorComponentFlagBits::VK_COLOR_COMPONENT_R_BIT),
            2 => Some(VkColorComponentFlagBits::VK_COLOR_COMPONENT_G_BIT),
            4 => Some(VkColorComponentFlagBits::VK_COLOR_COMPONENT_B_BIT),
            8 => Some(VkColorComponentFlagBits::VK_COLOR_COMPONENT_A_BIT),
            2147483647 => Some(VkColorComponentFlagBits::VK_COLOR_COMPONENT_FLAG_BITS_MAX_ENUM),
            _ => None,
        }
    }

    pub fn as_raw(self) -> (r: u32)
        ensures
            r == self.value(),
    {
        match self {
            VkColorComponentFlagBits::VK_COLOR_COMPONENT_R_BIT => 1,
            VkColorComponentFlagBits::VK_COLOR_COMPONENT_G_BIT => 2,
            VkColorComponentFlagBits::VK_COLOR_COMPONENT_B_BIT => 4,
            VkColorComponentFlagBits::VK_COLOR_COMPONENT_A_BIT => 8,
            VkColorComponentFlagBits::VK_COLOR_COMPONENT_FLAG_BITS_MAX_ENUM => 2147483647,
        }
    }

    pub fn from_raw(raw: u32) -> (r: Option<Self>)
        ensures
            r == Self::from_value(raw),
    {
        match raw {
            1 => Some(VkColorComponentFlagBits::VK_COLOR_COMPONENT_R_BIT),
            2 => Some(VkColorComponentFlagBits::VK_COLOR_COMPONENT_G_BIT),
            4 => Some(VkColorComponentFlagBits::VK_COLOR_COMPONENT_B_BIT),
            8 => Some(VkColorComponentFlagBits::VK_COLOR_COMPONENT_A_BIT),
            2147483647 => Some(VkColorComponentFlagBits::VK_COLOR_COMPONENT_FLAG_BITS_MAX_ENUM),
            _ => None,
        }
    }

    /// Reading back the value of an enumerant gives the enumerant.
    pub proof fn lemma_value_roundtrip(self)
        ensures
            Self::from_value(self.value()) == Some(self),
    {
    }
}

#[derive(Clone, Copy, Debug, PartialEq, Eq, Hash, Structural)]
pub enum VkDescriptorSetLayoutCreateFlagBits {
    VK_DESCRIPTOR_SET_LAYOUT_CREATE_PUSH_DESCRIPTOR_BIT_KHR,
    VK_DESCRIPTOR_SET_LAYOUT_CREATE_FLAG_BITS_MAX_ENUM,
}

impl VkDescriptorSetLayoutCreateFlagBits {
    /// The numeric value that the Vulkan API gives this enumerant.
    pub open spec fn value(self) -> u32 {
        match self {
            VkDescriptorSetLayoutCreateFlagBits::VK_DESCRIPTOR_SET_LAYOUT_CREATE_PUSH_DESCRIPTOR_BIT_KHR => 1,
            VkDescriptorSetLayoutCreateFlagBits::VK_DESCRIPTOR_SET_LAYOUT_CREATE_FLAG_BITS_MAX_ENUM => 2147483647,
        }
    }

    /// The enumerant whose Vulkan value is `raw`, if there is one.
    pub open spec fn from_value(raw: u32) -> Option<Self> {
        match raw {
            1 => Some(VkDescriptorSetLayoutCreateFlagBits::VK_DESCRIPTOR_SET_LAYOUT_CREATE_PUSH_DESCRIPTOR_BIT_KHR),
            2147483647 => Some(VkDescriptorSetLayoutCreateFlagBits::VK_DESCRIPTOR_SET_LAYOUT_CREATE_FLAG_BITS_MAX_ENUM),
            _ => None,
        }
    }

    pub fn as_raw(self) -> (r: u32)
        ensures
            r == self.value(),
    {
        match self {
            VkDescriptorSetLayoutCreateFlagBits::VK_DESCRIPTOR_SET_LAYOUT_CREATE_PUSH_DESCRIPTOR_BIT_KHR => 1,
            VkDescriptorSetLayoutCreateFlagBits::VK_DESCRIPTOR_SET_LAYOUT_CREATE_FLAG_BITS_MAX_ENUM => 2147483647,
        }
    }

    pub fn from_raw(raw: u32) -> (r: Option<Self>)
        ensures
            r == Self::from_value(raw),
    {
        match raw {
            1 => Some(VkDescriptorSetLayoutCreateFlagBits::VK_DESCRIPTOR_SET_LAYOUT_CREATE_PUSH_DESCRIPTOR_BIT_KHR),
            2147483647 => Some(VkDescriptorSetLayoutCreateFlagBits::VK_DESCRIPTOR_SET_LAYOUT_CREATE_FLAG_BITS_MAX_ENUM),
            _ => None,
        }
    }

    /// Reading back the value of an enumerant gives the enumerant.
    pub proof fn lemma_value_roundtrip(self)
        ensures
            Self::from_value(self.value()) == Some(self),
    {
    }
}

#[derive(Clone, Copy, Debug, PartialEq, Eq, Hash, Structural)]
pub enum VkDescriptorPoolCreateFlagBits {
    VK_DESCRIPTOR_POOL_CREATE_FREE_DESCRIPTOR_SET_BIT,
    VK_DESCRIPTOR_POOL_CREATE_FLAG_BITS_MAX_ENUM,
}

impl VkDescriptorPoolCreateFlagBits {
    /// The numeric value that the Vulkan API gives this enumerant.
    pub open spec fn value(self) -> u32 {
        match self {
            VkDescriptorPoolCreateFlagBits::VK_DESCRIPTOR_POOL_CREATE_FREE_DESCRIPTOR_SET_BIT => 1,
            VkDescriptorPoolCreateFlagBits::VK_DESCRIPTOR_POOL_CREATE_FLAG_BITS_MAX_ENUM => 2147483647,
        }
    }

    /// The enumerant whose Vulkan value is `raw`, if there is one.
    pub open spec fn from_value(raw: u32) -> Option<Self> {
        match raw {
            1 => Some(VkDescriptorPoolCreateFlagBits::VK_DESCRIPTOR_POOL_CREATE_FREE_DESCRIPTOR_SET_BIT),
            2147483647 => Some(VkDescriptorPoolCreateFlagBits::VK_DESCRIPTOR_POOL_CREATE_FLAG_BITS_MAX_ENUM),
            _ => None,
        }
    }

    pub fn as_raw(self) -> (r: u32)
        ensures
            r == self.value(),
    {
        match self {
            VkDescriptorPoolCreateFlagBits::VK_DESCRIPTOR_POOL_CREATE_FREE_DESCRIPTOR_SET_BIT => 1,
            VkDescriptorPoolCreateFlagBits::VK_DESCRIPTOR_POOL_CREATE_FLAG_BITS_MAX_ENUM => 2147483647,
        }
    }

    pub fn from_raw(raw: u32) -> (r: Option<Self>)
        ensures
            r == Self::from_value(raw),
    {
        match raw {
            1 => Some(VkDescriptorPoolCreateFlagBits::VK_DESCRIPTOR_POOL_CREATE_FREE_DESCRIPTOR_SET_BIT),
            2147483647 => Some(VkDescriptorPoolCreateFlagBits::VK_DESCRIPTOR_POOL_CREATE_FLAG_BITS_MAX_ENUM),
            _ => None,
        }
    }

    /// Reading back the value of an enumerant gives the enumerant.
    pub proof fn lemma_value_roundtrip(self)
        ensures
            Self::from_value(self.value()) == Some(self),
    {
    }
}

#[derive(Clone, Copy, Debug, PartialEq, Eq, Hash, Structural)]
pub enum VkAttachmentDescriptionFlagBits {
    VK_ATTACHMENT_DESCRIPTION_MAY_ALIAS_BIT,
    VK_ATTACHMENT_DESCRIPTION_FLAG_BITS_MAX_ENUM,
}

impl VkAttachmentDescriptionFlagBits {
    /// The numeric value that the Vulkan API gives this enumerant.
    pub open spec fn value(self) -> u32 {
        match self {
            VkAttachmentDescriptionFlagBits::VK_ATTACHMENT_DESCRIPTION_MAY_ALIAS_BIT => 1,
            VkAttachmentDescriptionFlagBits::VK_ATTACHMENT_DESCRIPTION_FLAG_BITS_MAX_ENUM => 2147483647,
        }
    }

    /// The enumerant whose Vulkan value is `raw`, if there is one.
    pub open spec fn from_value(raw: u32) -> Option<Self> {
        match raw {
            1 => Some(VkAttachmentDescriptionFlagBits::VK_ATTACHMENT_DESCRIPTION_MAY_ALIAS_BIT),
            2147483647 => Some(VkAttachmentDescriptionFlagBits::VK_ATTACHMENT_DESCRIPTION_FLAG_BITS_MAX_ENUM),
            _ => None,
        }
    }

    pub fn as_raw(self) -> (r: u32)
        ensures
            r == self.value(),
    {
        match self {
            VkAttachmentDescriptionFlagBits::VK_ATTACHMENT_DESCRIPTION_MAY_ALIAS_BIT => 1,
            VkAttachmentDescriptionFlagBits::VK_ATTACHMENT_DESCRIPTION_FLAG_BITS_MAX_ENUM => 2147483647,
        }
    }

    pub fn from_raw(raw: u32) -> (r: Option<Self>)
        ensures
            r == Self::from_value(raw),
    {
        match raw {
            1 => Some(VkAttachmentDescriptionFlagBits::VK_ATTACHMENT_DESCRIPTION_MAY_ALIAS_BIT),
            2147483647 => Some(VkAttachmentDescriptionFlagBits::VK_ATTACHMENT_DESCRIPTION_FLAG_BITS_MAX_ENUM),
            _ => None,
        }
    }

    /// Reading back the value of an enumerant gives the enumerant.
    pub proof fn lemma_value_roundtrip(self)
        ensures
            Self::from_value(self.value()) == Some(self),
    {
    }
}

#[derive(Clone, Copy, Debug, PartialEq, Eq, Hash, Structural)]
pub enum VkSubpassDescriptionFlagBits {
    VK_SUBPASS_DESCRIPTION_PER_VIEW_ATTRIBUTES_BIT_NVX,
    VK_SUBPASS_DESCRIPTION_PER_VIEW_POSITION_X_ONLY_BIT_NVX,
    VK_SUBPASS_DESCRIPTION_FLAG_BITS_MAX_ENUM,
}

impl VkSubpassDescriptionFlagBits {
    /// The numeric value that the Vulkan API gives this enumerant.
    pub open spec fn value(self) -> u32 {
        match self {
            VkSubpassDescriptionFlagBits::VK_SUBPASS_DESCRIPTION_PER_VIEW_ATTRIBUTES_BIT_NVX => 1,
            VkSubpassDescriptionFlagBits::VK_SUBPASS_DESCRIPTION_PER_VIEW_POSITION_X_ONLY_BIT_NVX => 2,
            VkSubpassDescriptionFlagBits::VK_SUBPASS_DESCRIPTION_FLAG_BITS_MAX_ENUM => 2147483647,
        }
    }

    /// The enumerant whose Vulkan value is `raw`, if there is one.
    pub open spec fn from_value(raw: u32) -> Option<Self> {
        match raw {
            1 => Some(VkSubpassDescriptionFlagBits::VK_SUBPASS_DESCRIPTION_PER_VIEW_ATTRIBUTES_BIT_NVX),
            2 => Some(VkSubpassDescriptionFlagBits::VK_SUBPASS_DESCRIPTION_PER_VIEW_POSITION_X_ONLY_BIT_NVX),
            2147483647 => Some(VkSubpassDescriptionFlagBits::VK_SUBPASS_DESCRIPTION_FLAG_BITS_MAX_ENUM),
            _ => None,
        }
    }

    pub fn as_raw(self) -> (r: u32)
        ensures
            r == self.value(),
    {
        match self {
            VkSubpassDescriptionFlagBits::VK_SUBPASS_DESCRIPTION_PER_VIEW_ATTRIBUTES_BIT_NVX => 1,
            VkSubpassDescriptionFlagBits::VK_SUBPASS_DESCRIPTION_PER_VIEW_POSITION_X_ONLY_BIT_NVX => 2,
            VkSubpassDescriptionFlagBits::VK_SUBPASS_DESCRIPTION_FLAG_BITS_MAX_ENUM => 2147483647,
        }
    }

    pub fn from_raw(raw: u32) -> (r: Option<Self>)
        ensures
            r == Self::from_value(raw),
    {
        match raw {
            1 => Some(VkSubpassDescriptionFlagBits::VK_SUBPASS_DESCRIPTION_PER_VIEW_ATTRIBUTES_BIT_NVX),
            2 => Some(VkSubpassDescriptionFlagBits::VK_SUBPASS_DESCRIPTION_PER_VIEW_POSITION_X_ONLY_BIT_NVX),
            2147483647 => Some(VkSubpassDescriptionFlagBits::VK_SUBPASS_DESCRIPTION_FLAG_BITS_MAX_ENUM),
            _ => None,
        }
    }

    /// Reading back the value of an enumerant gives the enumerant.
    pub proof fn lemma_value_roundtrip(self)
        ensures
            Self::from_value(self.value()) == Some(self),
    {
    }
}

#[derive(Clone, Copy, Debug, PartialEq, Eq, Hash, Structural)]
pub enum VkAccessFlagBits {
    VK_ACCESS_INDIRECT_COMMAND_READ_BIT,
    VK_ACCESS_INDEX_READ_BIT,
    VK_ACCESS_VERTEX_ATTRIBUTE_READ_BIT,
    VK_ACCESS_UNIFORM_READ_BIT,
    VK_ACCESS_INPUT_ATTACHMENT_READ_BIT,
    VK_ACCESS_SHADER_READ_BIT,
    VK_ACCESS_SHADER_WRITE_BIT,
    VK_ACCESS_COLOR_ATTACHMENT_READ_BIT,
    VK_ACCESS_COLOR_ATTACHMENT_WRITE_BIT,
    VK_ACCESS_DEPTH_STENCIL_ATTACHMENT_READ_BIT,
    VK_ACCESS_DEPTH_STENCIL_ATTACHMENT_WRITE_BIT,
    VK_ACCESS_TRANSFER_READ_BIT,
    VK_ACCESS_TRANSFER_WRITE_BIT,
    VK_ACCESS_HOST_READ_BIT,
    VK_ACCESS_HOST_WRITE_BIT,
    VK_ACCESS_MEMORY_READ_BIT,
    VK_ACCESS_MEMORY_WRITE_BIT,
    VK_ACCESS_COMMAND_PROCESS_READ_BIT_NVX,
    VK_ACCESS_COMMAND_PROCESS_WRITE_BIT_NVX,
    VK_ACCESS_FLAG_BITS_MAX_ENUM,
}

impl VkAccessFlagBits {
    /// The numeric value that the Vulkan API gives this enumerant.
    pub open spec fn value(self) -> u32 {
        match self {
            VkAccessFlagBits::VK_ACCESS_INDIRECT_COMMAND_READ_BIT => 1,
            VkAccessFlagBits::VK_ACCESS_INDEX_READ_BIT => 2,
            VkAccessFlagBits::VK_ACCESS_VERTEX_ATTRIBUTE_READ_BIT => 4,
            VkAccessFlagBits::VK_ACCESS_UNIFORM_READ_BIT => 8,
            VkAccessFlagBits::VK_ACCESS_INPUT_ATTACHMENT_READ_BIT => 16,
            VkAccessFlagBits::VK_ACCESS_SHADER_READ_BIT => 32,
            VkAccessFlagBits::VK_ACCESS_SHADER_WRITE_BIT => 64,
            VkAccessFlagBits::VK_ACCESS_COLOR_ATTACHMENT_READ_BIT => 128,
            VkAccessFlagBits::VK_ACCESS_COLOR_ATTACHMENT_WRITE_BIT => 256,
            VkAccessFlagBits::VK_ACCESS_DEPTH_STENCIL_ATTACHMENT_READ_BIT => 512,
            VkAccessFlagBits::VK_ACCESS_DEPTH_STENCIL_ATTACHMENT_WRITE_BIT => 1024,
            VkAccessFlagBits::VK_ACCESS_TRANSFER_READ_BIT => 2048,
            VkAccessFlagBits::VK_ACCESS_TRANSFER_WRITE_BIT => 4096,
            VkAccessFlagBits::VK_ACCESS_HOST_READ_BIT => 8192,
            VkAccessFlagBits::VK_ACCESS_HOST_WRITE_BIT => 16384,
            VkAccessFlagBits::VK_ACCESS_MEMORY_READ_BIT => 32768,
            VkAccessFlagBits::VK_ACCESS_MEMORY_WRITE_BIT => 65536,
            VkAccessFlagBits::VK_ACCESS_COMMAND_PROCESS_READ_BIT_NVX => 131072,
            VkAccessFlagBits::VK_ACCESS_COMMAND_PROCESS_WRITE_BIT_NVX => 262144,
            VkAccessFlagBits::VK_ACCESS_FLAG_BITS_MAX_ENUM => 2147483647,
        }
    }

    /// The enumerant whose Vulkan value is `raw`, if there is one.
    pub open spec fn from_value(raw: u32) -> Option<Self> {
        match raw {
            1 => Some(VkAccessFlagBits::VK_ACCESS_INDIRECT_COMMAND_READ_BIT),
            2 => Some(VkAccessFlagBits::VK_ACCESS_INDEX_READ_BIT),
            4 => Some(VkAccessFlagBits::VK_ACCESS_VERTEX_ATTRIBUTE_READ_BIT),
            8 => Some(VkAccessFlagBits::VK_ACCESS_UNIFORM_READ_BIT),
            16 => Some(VkAccessFlagBits::VK_ACCESS_INPUT_ATTACHMENT_READ_BIT),
            32 => Some(VkAccessFlagBits::VK_ACCESS_SHADER_READ_BIT),
            64 => Some(VkAccessFlagBits::VK_ACCESS_SHADER_WRITE_BIT),
            128 => Some(VkAccessFlagBits::VK_ACCESS_COLOR_ATTACHMENT_READ_BIT),
            256 => Some(VkAccessFlagBits::VK_ACCESS_COLOR_ATTACHMENT_WRITE_BIT),
            512 => Some(VkAccessFlagBits::VK_ACCESS_DEPTH_STENCIL_ATTACHMENT_READ_BIT),
            1024 => Some(VkAccessFlagBits::VK_ACCESS_DEPTH_STENCIL_ATTACHMENT_WRITE_BIT),
            2048 => Some(VkAccessFlagBits::VK_ACCESS_TRANSFER_READ_BIT),
            4096 => Some(VkAccessFlagBits::VK_ACCESS_TRANSFER_WRITE_BIT),
            8192 => Some(VkAccessFlagBits::VK_ACCESS_HOST_READ_BIT),
            16384 => Some(VkAccessFlagBits::VK_ACCESS_HOST_WRITE_BIT),
            32768 => Some(VkAccessFlagBits::VK_ACCESS_MEMORY_READ_BIT),
            65536 => Some(VkAccessFlagBits::VK_ACCESS_MEMORY_WRITE_BIT),
            131072 => Some(VkAccessFlagBits::VK_ACCESS_COMMAND_PROCESS_READ_BIT_NVX),
            262144 => Some(VkAccessFlagBits::VK_ACCESS_COMMAND_PROCESS_WRITE_BIT_NVX),
            2147483647 => Some(VkAccessFlagBits::VK_ACCESS_FLAG_BITS_MAX_ENUM),
            _ => None,
        }
    }

    pub fn as_raw(self) -> (r: u32)
        ensures
            r == self.value(),
    {
        match self {
            VkAccessFlagBits::VK_ACCESS_INDIRECT_COMMAND_READ_BIT => 1,
            VkAccessFlagBits::VK_ACCESS_INDEX_READ_BIT => 2,
            VkAccessFlagBits::VK_ACCESS_VERTEX_ATTRIBUTE_READ_BIT => 4,
            VkAccessFlagBits::VK_ACCESS_UNIFORM_READ_BIT => 8,
            VkAccessFlagBits::VK_ACCESS_INPUT_ATTACHMENT_READ_BIT => 16,
            VkAccessFlagBits::VK_ACCESS_SHADER_READ_BIT => 32,
            VkAccessFlagBits::VK_ACCESS_SHADER_WRITE_BIT => 64,
            VkAccessFlagBits::VK_ACCESS_COLOR_ATTACHMENT_READ_BIT => 128,
            VkAccessFlagBits::VK_ACCESS_COLOR_ATTACHMENT_WRITE_BIT => 256,
            VkAccessFlagBits::VK_ACCESS_DEPTH_STENCIL_ATTACHMENT_READ_BIT => 512,
            VkAccessFlagBits::VK_ACCESS_DEPTH_STENCIL_ATTACHMENT_WRITE_BIT => 1024,
            VkAccessFlagBits::VK_ACCESS_TRANSFER_READ_BIT => 2048,
            VkAccessFlagBits::VK_ACCESS_TRANSFER_WRITE_BIT => 4096,
            VkAccessFlagBits::VK_ACCESS_HOST_READ_BIT => 8192,
            VkAccessFlagBits::VK_ACCESS_HOST_WRITE_BIT => 16384,
            VkAccessFlagBits::VK_ACCESS_MEMORY_READ_BIT => 32768,
            VkAccessFlagBits::VK_ACCESS_MEMORY_WRITE_BIT => 65536,
            VkAccessFlagBits::VK_ACCESS_COMMAND_PROCESS_READ_BIT_NVX => 131072,
            VkAccessFlagBits::VK_ACCESS_COMMAND_PROCESS_WRITE_BIT_NVX => 262144,
            VkAccessFlagBits::VK_ACCESS_FLAG_BITS_MAX_ENUM => 2147483647,
        }
    }

    pub fn from_raw(raw: u32) -> (r: Option<Self>)
        ensures
            r == Self::from_value(raw),
    {
        match raw {
            1 => Some(VkAccessFlagBits::VK_ACCESS_INDIRECT_COMMAND_READ_BIT),
            2 => Some(VkAccessFlagBits::VK_ACCESS_INDEX_READ_BIT),
            4 => Some(VkAccessFlagBits::VK_ACCESS_VERTEX_ATTRIBUTE_READ_BIT),
            8 => Some(VkAccessFlagBits::VK_ACCESS_UNIFORM_READ_BIT),
            16 => Some(VkAccessFlagBits::VK_ACCESS_INPUT_ATTACHMENT_READ_BIT),
            32 => Some(VkAccessFlagBits::VK_ACCESS_SHADER_READ_BIT),
            64 => Some(VkAccessFlagBits::VK_ACCESS_SHADER_WRITE_BIT),
            128 => Some(VkAccessFlagBits::VK_ACCESS_COLOR_ATTACHMENT_READ_BIT),
            256 => Some(VkAccessFlagBits::VK_ACCESS_COLOR_ATTACHMENT_WRITE_BIT),
            512 => Some(VkAccessFlagBits::VK_ACCESS_DEPTH_STENCIL_ATTACHMENT_READ_BIT),
            1024 => Some(VkAccessFlagBits::VK_ACCESS_DEPTH_STENCIL_ATTACHMENT_WRITE_BIT),
            2048 => Some(VkAccessFlagBits::VK_ACCESS_TRANSFER_READ_BIT),
            4096 => Some(VkAccessFlagBits::VK_ACCESS_TRANSFER_WRITE_BIT),
            8192 => Some(VkAccessFlagBits::VK_ACCESS_HOST_READ_BIT),
            16384 => Some(VkAccessFlagBits::VK_ACCESS_HOST_WRITE_BIT),
            32768 => Some(VkAccessFlagBits::VK_ACCESS_MEMORY_READ_BIT),
            65536 => Some(VkAccessFlagBits::VK_ACCESS_MEMORY_WRITE_BIT),
            131072 => Some(VkAccessFlagBits::VK_ACCESS_COMMAND_PROCESS_READ_BIT_NVX),
            262144 => Some(VkAccessFlagBits::VK_ACCESS_COMMAND_PROCESS_WRITE_BIT_NVX),
            2147483647 => Some(VkAccessFlagBits::VK_ACCESS_FLAG_BITS_MAX_ENUM),
            _ => None,
        }
    }

    /// Reading back the value of an enumerant gives the enumerant.
    pub proof fn lemma_value_roundtrip(self)
        ensures
            Self::from_value(self.value()) == Some(self),
    {
    }
}

#[derive(Clone, Copy, Debug, PartialEq, Eq, Hash, Structural)]
pub enum VkDependencyFlagBits {
    VK_DEPENDENCY_BY_REGION_BIT,
    VK_DEPENDENCY_VIEW_LOCAL_BIT_KHX,
    VK_DEPENDENCY_DEVICE_GROUP_BIT_KHX,
    VK_DEPENDENCY_FLAG_BITS_MAX_ENUM,
}

impl VkDependencyFlagBits {
    /// The numeric value that the Vulkan API gives this enumerant.
    pub open spec fn value(self) -> u32 {
        match self {
            VkDependencyFlagBits::VK_DEPENDENCY_BY_REGION_BIT => 1,
            VkDependencyFlagBits::VK_DEPENDENCY_VIEW_LOCAL_BIT_KHX => 2,
            VkDependencyFlagBits::VK_DEPENDENCY_DEVICE_GROUP_BIT_KHX => 4,
            VkDependencyFlagBits::VK_DEPENDENCY_FLAG_BITS_MAX_ENUM => 2147483647,
        }
    }

    /// The enumerant whose Vulkan value is `raw`, if there is one.
    pub open spec fn from_value(raw: u32) -> Option<Self> {
        match raw {
            1 => Some(VkDependencyFlagBits::VK_DEPENDENCY_BY_REGION_BIT),
            2 => Some(VkDependencyFlagBits::VK_DEPENDENCY_VIEW_LOCAL_BIT_KHX),
            4 => Some(VkDependencyFlagBits::VK_DEPENDENCY_DEVICE_GROUP_BIT_KHX),
            2147483647 => Some(VkDependencyFlagBits::VK_DEPENDENCY_FLAG_BITS_MAX_ENUM),
            _ => None,
        }
    }

    pub fn as_raw(self) -> (r: u32)
        ensures
            r == self.value(),
    {
        match self {
            VkDependencyFlagBits::VK_DEPENDENCY_BY_REGION_BIT => 1,
            VkDependencyFlagBits::VK_DEPENDENCY_VIEW_LOCAL_BIT_KHX => 2,
            VkDependencyFlagBits::VK_DEPENDENCY_DEVICE_GROUP_BIT_KHX => 4,
            VkDependencyFlagBits::VK_DEPENDENCY_FLAG_BITS_MAX_ENUM => 2147483647,
        }
    }

    pub fn from_raw(raw: u32) -> (r: Option<Self>)
        ensures
            r == Self::from_value(raw),
    {
        match raw {
            1 => Some(VkDependencyFlagBits::VK_DEPENDENCY_BY_REGION_BIT),
            2 => Some(VkDependencyFlagBits::VK_DEPENDENCY_VIEW_LOCAL_BIT_KHX),
            4 => Some(VkDependencyFlagBits::VK_DEPENDENCY_DEVICE_GROUP_BIT_KHX),
            2147483647 => Some(VkDependencyFlagBits::VK_DEPENDENCY_FLAG_BITS_MAX_ENUM),
            _ => None,
        }
    }

    /// Reading back the value of an enumerant gives the enumerant.
    pub proof fn lemma_value_roundtrip(self)
        ensures
            Self::from_value(self.value()) == Some(self),
    {
    }
}

#[derive(Clone, Copy, Debug, PartialEq, Eq, Hash, Structural)]
pub enum VkCommandPoolCreateFlagBits {
    VK_COMMAND_POOL_CREATE_TRANSIENT_BIT,
    VK_COMMAND_POOL_CREATE_RESET_COMMAND_BUFFER_BIT,
    VK_COMMAND_POOL_CREATE_FLAG_BITS_MAX_ENUM,
}

impl VkCommandPoolCreateFlagBits {
    /// The numeric value that the Vulkan API gives this enumerant.
    pub open spec fn value(self) -> u32 {
        match self {
            VkCommandPoolCreateFlagBits::VK_COMMAND_POOL_CREATE_TRANSIENT_BIT => 1,
            VkCommandPoolCreateFlagBits::VK_COMMAND_POOL_CREATE_RESET_COMMAND_BUFFER_BIT => 2,
            VkCommandPoolCreateFlagBits::VK_COMMAND_POOL_CREATE_FLAG_BITS_MAX_ENUM => 2147483647,
        }
    }

    /// The enumerant whose Vulkan value is `raw`, if there is one.
    pub open spec fn from_value(raw: u32) -> Option<Self> {
        match raw {
            1 => Some(VkCommandPoolCreateFlagBits::VK_COMMAND_POOL_CREATE_TRANSIENT_BIT),
            2 => Some(VkCommandPoolCreateFlagBits::VK_COMMAND_POOL_CREATE_RESET_COMMAND_BUFFER_BIT),
            2147483647 => Some(VkCommandPoolCreateFlagBits::VK_COMMAND_POOL_CREATE_FLAG_BITS_MAX_ENUM),
            _ => None,
        }
    }

    pub fn as_raw(self) -> (r: u32)
        ensures
            r == self.value(),
    {
        match self {
            VkCommandPoolCreateFlagBits::VK_COMMAND_POOL_CREATE_TRANSIENT_BIT => 1,
            VkCommandPoolCreateFlagBits::VK_COMMAND_POOL_CREATE_RESET_COMMAND_BUFFER_BIT => 2,
            VkCommandPoolCreateFlagBits::VK_COMMAND_POOL_CREATE_FLAG_BITS_MAX_ENUM => 2147483647,
        }
    }

    pub fn from_raw(raw: u32) -> (r: Option<Self>)
        ensures
            r == Self::from_value(raw),
    {
        match raw {
            1 => Some(VkCommandPoolCreateFlagBits::VK_COMMAND_POOL_CREATE_TRANSIENT_BIT),
            2 => Some(VkCommandPoolCreateFlagBits::VK_COMMAND_POOL_CREATE_RESET_COMMAND_BUFFER_BIT),
            2147483647 => Some(VkCommandPoolCreateFlagBits::VK_COMMAND_POOL_CREATE_FLAG_BITS_MAX_ENUM),
            _ => None,
        }
    }

    /// Reading back the value of an enumerant gives the enumerant.
    pub proof fn lemma_value_roundtrip(self)
        ensures
            Self::from_value(self.value()) == Some(self),
    {
    }
}

#[derive(Clone, Copy, Debug, PartialEq, Eq, Hash, Structural)]
pub enum VkCommandPoolResetFlagBits {
    VK_COMMAND_POOL_RESET_RELEASE_RESOURCES_BIT,
    VK_COMMAND_POOL_RESET_FLAG_BITS_MAX_ENUM,
}

impl VkCommandPoolResetFlagBits {
    /// The numeric value that the Vulkan API gives this enumerant.
    pub open spec fn value(self) -> u32 {
        match self {
            VkCommandPoolResetFlagBits::VK_COMMAND_POOL_RESET_RELEASE_RESOURCES_BIT => 1,
            VkCommandPoolResetFlagBits::VK_COMMAND_POOL_RESET_FLAG_BITS_MAX_ENUM => 2147483647,
        }
    }

    /// The enumerant whose Vulkan value is `raw`, if there is one.
    pub open spec fn from_value(raw: u32) -> Option<Self> {
        match raw {
            1 => Some(VkCommandPoolResetFlagBits::VK_COMMAND_POOL_RESET_RELEASE_RESOURCES_BIT),
            2147483647 => Some(VkCommandPoolResetFlagBits::VK_COMMAND_POOL_RESET_FLAG_BITS_MAX_ENUM),
            _ => None,
        }
    }

    pub fn as_raw(self) -> (r: u32)
        ensures
            r == self.value(),
    {
        match self {
            VkCommandPoolResetFlagBits::VK_COMMAND_POOL_RESET_RELEASE_RESOURCES_BIT => 1,
            VkCommandPoolResetFlagBits::VK_COMMAND_POOL_RESET_FLAG_BITS_MAX_ENUM => 2147483647,
        }
    }

    pub fn from_raw(raw: u32) -> (r: Option<Self>)
        ensures
            r == Self::from_value(raw),
    {
        match raw {
            1 => Some(VkCommandPoolResetFlagBits::VK_COMMAND_POOL_RESET_RELEASE_RESOURCES_BIT),
            2147483647 => Some(VkCommandPoolResetFlagBits::VK_COMMAND_POOL_RESET_FLAG_BITS_MAX_ENUM),
            _ => None,
        }
    }

    /// Reading back the value of an enumerant gives the enumerant.
    pub proof fn lemma_value_roundtrip(self)
        ensures
            Self::from_value(self.value()) == Some(self),
    {
    }
}

#[derive(Clone, Copy, Debug, PartialEq, Eq, Hash, Structural)]
pub enum VkCommandBufferUsageFlagBits {
    VK_COMMAND_BUFFER_USAGE_ONE_TIME_SUBMIT_BIT,
    VK_COMMAND_BUFFER_USAGE_RENDER_PASS_CONTINUE_BIT,
    VK_COMMAND_BUFFER_USAGE_SIMULTANEOUS_USE_BIT,
    VK_COMMAND_BUFFER_USAGE_FLAG_BITS_MAX_ENUM,
}

impl VkCommandBufferUsageFlagBits {
    /// The numeric value that the Vulkan API gives this enumerant.
    pub open spec fn value(self) -> u32 {
        match self {
            VkCommandBufferUsageFlagBits::VK_COMMAND_BUFFER_USAGE_ONE_TIME_SUBMIT_BIT => 1,
            VkCommandBufferUsageFlagBits::VK_COMMAND_BUFFER_USAGE_RENDER_PASS_CONTINUE_BIT => 2,
            VkCommandBufferUsageFlagBits::VK_COMMAND_BUFFER_USAGE_SIMULTANEOUS_USE_BIT => 4,
            VkCommandBufferUsageFlagBits::VK_COMMAND_BUFFER_USAGE_FLAG_BITS_MAX_ENUM => 2147483647,
        }
    }

    /// The enumerant whose Vulkan value is `raw`, if there is one.
    pub open spec fn from_value(raw: u32) -> Option<Self> {
        match raw {
            1 => Some(VkCommandBufferUsageFlagBits::VK_COMMAND_BUFFER_USAGE_ONE_TIME_SUBMIT_BIT),
            2 => Some(VkCommandBufferUsageFlagBits::VK_COMMAND_BUFFER_USAGE_RENDER_PASS_CONTINUE_BIT),
            4 => Some(VkCommandBufferUsageFlagBits::VK_COMMAND_BUFFER_USAGE_SIMULTANEOUS_USE_BIT),
            2147483647 => Some(VkCommandBufferUsageFlagBits::VK_COMMAND_BUFFER_USAGE_FLAG_BITS_MAX_ENUM),
            _ => None,
        }
    }

    pub fn as_raw(self) -> (r: u32)
        ensures
            r == self.value(),
    {
        match self {
            VkCommandBufferUsageFlagBits::VK_COMMAND_BUFFER_USAGE_ONE_TIME_SUBMIT_BIT => 1,
            VkCommandBufferUsageFlagBits::VK_COMMAND_BUFFER_USAGE_RENDER_PASS_CONTINUE_BIT => 2,
            VkCommandBufferUsageFlagBits::VK_COMMAND_BUFFER_USAGE_SIMULTANEOUS_USE_BIT => 4,
            VkCommandBufferUsageFlagBits::VK_COMMAND_BUFFER_USAGE_FLAG_BITS_MAX_ENUM => 2147483647,
        }
    }

    pub fn from_raw(raw: u32) -> (r: Option<Self>)
        ensures
            r == Self::from_value(raw),
    {
        match raw {
            1 => Some(VkCommandBufferUsageFlagBits::VK_COMMAND_BUFFER_USAGE_ONE_TIME_SUBMIT_BIT),
            2 => Some(VkCommandBufferUsageFlagBits::VK_COMMAND_BUFFER_USAGE_RENDER_PASS_CONTINUE_BIT),
            4 => Some(VkCommandBufferUsageFlagBits::VK_COMMAND_BUFFER_USAGE_SIMULTANEOUS_USE_BIT),
            2147483647 => Some(VkCommandBufferUsageFlagBits::VK_COMMAND_BUFFER_USAGE_FLAG_BITS_MAX_ENUM),
            _ => None,
        }
    }

    /// Reading back the value of an enumerant gives the enumerant.
    pub proof fn lemma_value_roundtrip(self)
        ensures
            Self::from_value(self.value()) == Some(self),
    {
    }
}

#[derive(Clone, Copy, Debug, PartialEq, Eq, Hash, Structural)]
pub enum VkQueryControlFlagBits {
    VK_QUERY_CONTROL_PRECISE_BIT,
    VK_QUERY_CONTROL_FLAG_BITS_MAX_ENUM,
}

impl VkQueryControlFlagBits {
    /// The numeric value that the Vulkan API gives this enumerant.
    pub open spec fn value(self) -> u32 {
        match self {
            VkQueryControlFlagBits::VK_QUERY_CONTROL_PRECISE_BIT => 1,
            VkQueryControlFlagBits::VK_QUERY_CONTROL_FLAG_BITS_MAX_ENUM => 2147483647,
        }
    }

    /// The enumerant whose Vulkan value is `raw`, if there is one.
    pub open spec fn from_value(raw: u32) -> Option<Self> {
        match raw {
            1 => Some(VkQueryControlFlagBits::VK_QUERY_CONTROL_PRECISE_BIT),
            2147483647 => Some(VkQueryControlFlagBits::VK_QUERY_CONTROL_FLAG_BITS_MAX_ENUM),
            _ => None,
        }
    }

    pub fn as_raw(self) -> (r: u32)
        ensures
            r == self.value(),
    {
        match self {
            VkQueryControlFlagBits::VK_QUERY_CONTROL_PRECISE_BIT => 1,
            VkQueryControlFlagBits::VK_QUERY_CONTROL_FLAG_BITS_MAX_ENUM => 2147483647,
        }
    }

    pub fn from_raw(raw: u32) -> (r: Option<Self>)
        ensures
            r == Self::from_value(raw),
    {
        match raw {
            1 => Some(VkQueryControlFlagBits::VK_QUERY_CONTROL_PRECISE_BIT),
            2147483647 => Some(VkQueryControlFlagBits::VK_QUERY_CONTROL_FLAG_BITS_MAX_ENUM),
            _ => None,
        }
    }

    /// Reading back the value of an enumerant gives the enumerant.
    pub proof fn lemma_value_roundtrip(self)
        ensures
            Self::from_value(self.value()) == Some(self),
    {
    }
}

#[derive(Clone, Copy, Debug, PartialEq, Eq, Hash, Structural)]
pub enum VkCommandBufferResetFlagBits {
    VK_COMMAND_BUFFER_RESET_RELEASE_RESOURCES_BIT,
    VK_COMMAND_BUFFER_RESET_FLAG_BITS_MAX_ENUM,
}

impl VkCommandBufferResetFlagBits {
    /// The numeric value that the Vulkan API gives this enumerant.
    pub open spec fn value(self) -> u32 {
        match self {
            VkCommandBufferResetFlagBits::VK_COMMAND_BUFFER_RESET_RELEASE_RESOURCES_BIT => 1,
            VkCommandBufferResetFlagBits::VK_COMMAND_BUFFER_RESET_FLAG_BITS_MAX_ENUM => 2147483647,
        }
    }

    /// The enumerant whose Vulkan value is `raw`, if there is one.
    pub open spec fn from_value(raw: u32) -> Option<Self> {
        match raw {
            1 => Some(VkCommandBufferResetFlagBits::VK_COMMAND_BUFFER_RESET_RELEASE_RESOURCES_BIT),
            2147483647 => Some(VkCommandBufferResetFlagBits::VK_COMMAND_BUFFER_RESET_FLAG_BITS_MAX_ENUM),
            _ => None,
        }
    }

    pub fn as_raw(self) -> (r: u32)
        ensures
            r == self.value(),
    {
        match self {
            VkCommandBufferResetFlagBits::VK_COMMAND_BUFFER_RESET_RELEASE_RESOURCES_BIT => 1,
            VkCommandBufferResetFlagBits::VK_COMMAND_BUFFER_RESET_FLAG_BITS_MAX_ENUM => 2147483647,
        }
    }

    pub fn from_raw(raw: u32) -> (r: Option<Self>)
        ensures
            r == Self::from_value(raw),
    {
        match raw {
            1 => Some(VkCommandBufferResetFlagBits::VK_COMMAND_BUFFER_RESET_RELEASE_RESOURCES_BIT),
            2147483647 => Some(VkCommandBufferResetFlagBits::VK_COMMAND_BUFFER_RESET_FLAG_BITS_MAX_ENUM),
            _ => None,
        }
    }

    /// Reading back the value of an enumerant gives the enumerant.
    pub proof fn lemma_value_roundtrip(self)
        ensures
            Self::from_value(self.value()) == Some(self),
    {
    }
}

#[derive(Clone, Copy, Debug, PartialEq, Eq, Hash, Structural)]
pub enum VkStencilFaceFlagBits {
    VK_STENCIL_FACE_FRONT_BIT,
    VK_STENCIL_FACE_BACK_BIT,
    VK_STENCIL_FRONT_AND_BACK,
    VK_STENCIL_FACE_FLAG_BITS_MAX_ENUM,
}

impl VkStencilFaceFlagBits {
    /// The numeric value that the Vulkan API gives this enumerant.
    pub open spec fn value(self) -> u32 {
        match self {
            VkStencilFaceFlagBits::VK_STENCIL_FACE_FRONT_BIT => 1,
            VkStencilFaceFlagBits::VK_STENCIL_FACE_BACK_BIT => 2,
            VkStencilFaceFlagBits::VK_STENCIL_FRONT_AND_BACK => 3,
            VkStencilFaceFlagBits::VK_STENCIL_FACE_FLAG_BITS_MAX_ENUM => 2147483647,
        }
    }

    /// The enumerant whose Vulkan value is `raw`, if there is one.
    pub open spec fn from_value(raw: u32) -> Option<Self> {
        match raw {
            1 => Some(VkStencilFaceFlagBits::VK_STENCIL_FACE_FRONT_BIT),
            2 => Some(VkStencilFaceFlagBits::VK_STENCIL_FACE_BACK_BIT),
            3 => Some(VkStencilFaceFlagBits::VK_STENCIL_FRONT_AND_BACK),
            2147483647 => Some(VkStencilFaceFlagBits::VK_STENCIL_FACE_FLAG_BITS_MAX_ENUM),
            _ => None,
        }
    }

    pub fn as_raw(self) -> (r: u32)
        ensures
            r == self.value(),
    {
        match self {
            VkStencilFaceFlagBits::VK_STENCIL_FACE_FRONT_BIT => 1,
            VkStencilFaceFlagBits::VK_STENCIL_FACE_BACK_BIT => 2,
            VkStencilFaceFlagBits::VK_STENCIL_FRONT_AND_BACK => 3,
            VkStencilFaceFlagBits::VK_STENCIL_FACE_FLAG_BITS_MAX_ENUM => 2147483647,
        }
    }

    pub fn from_raw(raw: u32) -> (r: Option<Self>)
        ensures
            r == Self::from_value(raw),
    {
        match raw {
            1 => Some(VkStencilFaceFlagBits::VK_STENCIL_FACE_FRONT_BIT),
            2 => Some(VkStencilFaceFlagBits::VK_STENCIL_FACE_BACK_BIT),
            3 => Some(VkStencilFaceFlagBits::VK_STENCIL_FRONT_AND_BACK),
            2147483647 => Some(VkStencilFaceFlagBits::VK_STENCIL_FACE_FLAG_BITS_MAX_ENUM),
            _ => None,
        }
    }

    /// Reading back the value of an enumerant gives the enumerant.
    pub proof fn lemma_value_roundtrip(self)
        ensures
            Self::from_value(self.value()) == Some(self),
    {
    }
}

#[derive(Clone, Copy, Debug, PartialEq, Eq, Hash, Structural)]
pub enum VkColorSpaceKHR {
    VK_COLOR_SPACE_SRGB_NONLINEAR_KHR,
    VK_COLOR_SPACE_RANGE_SIZE_KHR,
    VK_COLOR_SPACE_MAX_ENUM_KHR,
}

impl VkColorSpaceKHR {
    /// The numeric value that the Vulkan API gives this enumerant.
    pub open spec fn value(self) -> u32 {
        match self {
            VkColorSpaceKHR::VK_COLOR_SPACE_SRGB_NONLINEAR_KHR => 0,
            VkColorSpaceKHR::VK_COLOR_SPACE_RANGE_SIZE_KHR => 1,
            VkColorSpaceKHR::VK_COLOR_SPACE_MAX_ENUM_KHR => 2147483647,
        }
    }

    /// The enumerant whose Vulkan value is `raw`, if there is one.
    pub open spec fn from_value(raw: u32) -> Option<Self> {
        match raw {
            0 => Some(VkColorSpaceKHR::VK_COLOR_SPACE_SRGB_NONLINEAR_KHR),
            1 => Some(VkColorSpaceKHR::VK_COLOR_SPACE_RANGE_SIZE_KHR),
            2147483647 => Some(VkColorSpaceKHR::VK_COLOR_SPACE_MAX_ENUM_KHR),
            _ => None,
        }
    }

    pub fn as_raw(self) -> (r: u32)
        ensures
            r == self.value(),
    {
        match self {
            VkColorSpaceKHR::VK_COLOR_SPACE_SRGB_NONLINEAR_KHR => 0,
            VkColorSpaceKHR::VK_COLOR_SPACE_RANGE_SIZE_KHR => 1,
            VkColorSpaceKHR::VK_COLOR_SPACE_MAX_ENUM_KHR => 2147483647,
        }
    }

    pub fn from_raw(raw: u32) -> (r: Option<Self>)
        ensures
            r == Self::from_value(raw),
    {
        match raw {
            0 => Some(VkColorSpaceKHR::VK_COLOR_SPACE_SRGB_NONLINEAR_KHR),
            1 => Some(VkColorSpaceKHR::VK_COLOR_SPACE_RANGE_SIZE_KHR),
            2147483647 => Some(VkColorSpaceKHR::VK_COLOR_SPACE_MAX_ENUM_KHR),
            _ => None,
        }
    }

    /// Reading back the value of an enumerant gives the enumerant.
    pub proof fn lemma_value_roundtrip(self)
        ensures
            Self::from_value(self.value()) == Some(self),
    {
    }
}

#[derive(Clone, Copy, Debug, PartialEq, Eq, Hash, Structural)]
pub enum VkPresentModeKHR {
    VK_PRESENT_MODE_IMMEDIATE_KHR,
    VK_PRESENT_MODE_MAILBOX_KHR,
    VK_PRESENT_MODE_FIFO_KHR,
    VK_PRESENT_MODE_FIFO_RELAXED_KHR,
    VK_PRESENT_MODE_RANGE_SIZE_KHR,
    VK_PRESENT_MODE_MAX_ENUM_KHR,
}

impl VkPresentModeKHR {
    /// The numeric value that the Vulkan API gives this enumerant.
    pub open spec fn value(self) -> u32 {
        match self {
            VkPresentModeKHR::VK_PRESENT_MODE_IMMEDIATE_KHR => 0,
            VkPresentModeKHR::VK_PRESENT_MODE_MAILBOX_KHR => 1,
            VkPresentModeKHR::VK_PRESENT_MODE_FIFO_KHR => 2,
            VkPresentModeKHR::VK_PRESENT_MODE_FIFO_RELAXED_KHR => 3,
            VkPresentModeKHR::VK_PRESENT_MODE_RANGE_SIZE_KHR => 4,
            VkPresentModeKHR::VK_PRESENT_MODE_MAX_ENUM_KHR => 2147483647,
        }
    }

    /// The enumerant whose Vulkan value is `raw`, if there is one.
    pub open spec fn from_value(raw: u32) -> Option<Self> {
        match raw {
            0 => Some(VkPresentModeKHR::VK_PRESENT_MODE_IMMEDIATE_KHR),
            1 => Some(VkPresentModeKHR::VK_PRESENT_MODE_MAILBOX_KHR),
            2 => Some(VkPresentModeKHR::VK_PRESENT_MODE_FIFO_KHR),
            3 => Some(VkPresentModeKHR::VK_PRESENT_MODE_FIFO_RELAXED_KHR),
            4 => Some(VkPresentModeKHR::VK_PRESENT_MODE_RANGE_SIZE_KHR),
            2147483647 => Some(VkPresentModeKHR::VK_PRESENT_MODE_MAX_ENUM_KHR),
            _ => None,
        }
    }

    pub fn as_raw(self) -> (r: u32)
        ensures
            r == self.value(),
    {
        match self {
            VkPresentModeKHR::VK_PRESENT_MODE_IMMEDIATE_KHR => 0,
            VkPresentModeKHR::VK_PRESENT_MODE_MAILBOX_KHR => 1,
            VkPresentModeKHR::VK_PRESENT_MODE_FIFO_KHR => 2,
            VkPresentModeKHR::VK_PRESENT_MODE_FIFO_RELAXED_KHR => 3,
            VkPresentModeKHR::VK_PRESENT_MODE_RANGE_SIZE_KHR => 4,
            VkPresentModeKHR::VK_PRESENT_MODE_MAX_ENUM_KHR => 2147483647,
        }
    }

    pub fn from_raw(raw: u32) -> (r: Option<Self>)
        ensures
            r == Self::from_value(raw),
    {
        match raw {
            0 => Some(VkPresentModeKHR::VK_PRESENT_MODE_IMMEDIATE_KHR),
            1 => Some(VkPresentModeKHR::VK_PRESENT_MODE_MAILBOX_KHR),
            2 => Some(VkPresentModeKHR::VK_PRESENT_MODE_FIFO_KHR),
            3 => Some(VkPresentModeKHR::VK_PRESENT_MODE_FIFO_RELAXED_KHR),
            4 => Some(VkPresentModeKHR::VK_PRESENT_MODE_RANGE_SIZE_KHR),
            2147483647 => Some(VkPresentModeKHR::VK_PRESENT_MODE_MAX_ENUM_KHR),
            _ => None,
        }
    }

    /// Reading back the value of an enumerant gives the enumerant.
    pub proof fn lemma_value_roundtrip(self)
        ensures
            Self::from_value(self.value()) == Some(self),
    {
    }
}

#[derive(Clone, Copy, Debug, PartialEq, Eq, Hash, Structural)]
pub enum VkSurfaceTransformFlagBitsKHR {
    VK_SURFACE_TRANSFORM_IDENTITY_BIT_KHR,
    VK_SURFACE_TRANSFORM_ROTATE_90_BIT_KHR,
    VK_SURFACE_TRANSFORM_ROTATE_180_BIT_KHR,
    VK_SURFACE_TRANSFORM_ROTATE_270_BIT_KHR,
    VK_SURFACE_TRANSFORM_HORIZONTAL_MIRROR_BIT_KHR,
    VK_SURFACE_TRANSFORM_HORIZONTAL_MIRROR_ROTATE_90_BIT_KHR,
    VK_SURFACE_TRANSFORM_HORIZONTAL_MIRROR_ROTATE_180_BIT_KHR,
    VK_SURFACE_TRANSFORM_HORIZONTAL_MIRROR_ROTATE_270_BIT_KHR,
    VK_SURFACE_TRANSFORM_INHERIT_BIT_KHR,
    VK_SURFACE_TRANSFORM_FLAG_BITS_MAX_ENUM_KHR,
}

impl VkSurfaceTransformFlagBitsKHR {
    /// The numeric value that the Vulkan API gives this enumerant.
    pub open spec fn value(self) -> u32 {
        match self {
            VkSurfaceTransformFlagBitsKHR::VK_SURFACE_TRANSFORM_IDENTITY_BIT_KHR => 1,
            VkSurfaceTransformFlagBitsKHR::VK_SURFACE_TRANSFORM_ROTATE_90_BIT_KHR => 2,
            VkSurfaceTransformFlagBitsKHR::VK_SURFACE_TRANSFORM_ROTATE_180_BIT_KHR => 4,
            VkSurfaceTransformFlagBitsKHR::VK_SURFACE_TRANSFORM_ROTATE_270_BIT_KHR => 8,
            VkSurfaceTransformFlagBitsKHR::VK_SURFACE_TRANSFORM_HORIZONTAL_MIRROR_BIT_KHR => 16,
            VkSurfaceTransformFlagBitsKHR::VK_SURFACE_TRANSFORM_HORIZONTAL_MIRROR_ROTATE_90_BIT_KHR => 32,
            VkSurfaceTransformFlagBitsKHR::VK_SURFACE_TRANSFORM_HORIZONTAL_MIRROR_ROTATE_180_BIT_KHR => 64,
            VkSurfaceTransformFlagBitsKHR::VK_SURFACE_TRANSFORM_HORIZONTAL_MIRROR_ROTATE_270_BIT_KHR => 128,
            VkSurfaceTransformFlagBitsKHR::VK_SURFACE_TRANSFORM_INHERIT_BIT_KHR => 256,
            VkSurfaceTransformFlagBitsKHR::VK_SURFACE_TRANSFORM_FLAG_BITS_MAX_ENUM_KHR => 2147483647,
        }
    }

    /// The enumerant whose Vulkan value is `raw`, if there is one.
    pub open spec fn from_value(raw: u32) -> Option<Self> {
        match raw {
            1 => Some(VkSurfaceTransformFlagBitsKHR::VK_SURFACE_TRANSFORM_IDENTITY_BIT_KHR),
            2 => Some(VkSurfaceTransformFlagBitsKHR::VK_SURFACE_TRANSFORM_ROTATE_90_BIT_KHR),
            4 => Some(VkSurfaceTransformFlagBitsKHR::VK_SURFACE_TRANSFORM_ROTATE_180_BIT_KHR),
            8 => Some(VkSurfaceTransformFlagBitsKHR::VK_SURFACE_TRANSFORM_ROTATE_270_BIT_KHR),
            16 => Some(VkSurfaceTransformFlagBitsKHR::VK_SURFACE_TRANSFORM_HORIZONTAL_MIRROR_BIT_KHR),
            32 => Some(VkSurfaceTransformFlagBitsKHR::VK_SURFACE_TRANSFORM_HORIZONTAL_MIRROR_ROTATE_90_BIT_KHR),
            64 => Some(VkSurfaceTransformFlagBitsKHR::VK_SURFACE_TRANSFORM_HORIZONTAL_MIRROR_ROTATE_180_BIT_KHR),
            128 => Some(VkSurfaceTransformFlagBitsKHR::VK_SURFACE_TRANSFORM_HORIZONTAL_MIRROR_ROTATE_270_BIT_KHR),
            256 => Some(VkSurfaceTransformFlagBitsKHR::VK_SURFACE_TRANSFORM_INHERIT_BIT_KHR),
            2147483647 => Some(VkSurfaceTransformFlagBitsKHR::VK_SURFACE_TRANSFORM_FLAG_BITS_MAX_ENUM_KHR),
            _ => None,
        }
    }

    pub fn as_raw(self) -> (r: u32)
        ensures
            r == self.value(),
    {
        match self {
            VkSurfaceTransformFlagBitsKHR::VK_SURFACE_TRANSFORM_IDENTITY_BIT_KHR => 1,
            VkSurfaceTransformFlagBitsKHR::VK_SURFACE_TRANSFORM_ROTATE_90_BIT_KHR => 2,
            VkSurfaceTransformFlagBitsKHR::VK_SURFACE_TRANSFORM_ROTATE_180_BIT_KHR => 4,
            VkSurfaceTransformFlagBitsKHR::VK_SURFACE_TRANSFORM_ROTATE_270_BIT_KHR => 8,
            VkSurfaceTransformFlagBitsKHR::VK_SURFACE_TRANSFORM_HORIZONTAL_MIRROR_BIT_KHR => 16,
            VkSurfaceTransformFlagBitsKHR::VK_SURFACE_TRANSFORM_HORIZONTAL_MIRROR_ROTATE_90_BIT_KHR => 32,
            VkSurfaceTransformFlagBitsKHR::VK_SURFACE_TRANSFORM_HORIZONTAL_MIRROR_ROTATE_180_BIT_KHR => 64,
            VkSurfaceTransformFlagBitsKHR::VK_SURFACE_TRANSFORM_HORIZONTAL_MIRROR_ROTATE_270_BIT_KHR => 128,
            VkSurfaceTransformFlagBitsKHR::VK_SURFACE_TRANSFORM_INHERIT_BIT_KHR => 256,
            VkSurfaceTransformFlagBitsKHR::VK_SURFACE_TRANSFORM_FLAG_BITS_MAX_ENUM_KHR => 2147483647,
        }
    }

    pub fn from_raw(raw: u32) -> (r: Option<Self>)
        ensures
            r == Self::from_value(raw),
    {
        match raw {
            1 => Some(VkSurfaceTransformFlagBitsKHR::VK_SURFACE_TRANSFORM_IDENTITY_BIT_KHR),
            2 => Some(VkSurfaceTransformFlagBitsKHR::VK_SURFACE_TRANSFORM_ROTATE_90_BIT_KHR),
            4 => Some(VkSurfaceTransformFlagBitsKHR::VK_SURFACE_TRANSFORM_ROTATE_180_BIT_KHR),
            8 => Some(VkSurfaceTransformFlagBitsKHR::VK_SURFACE_TRANSFORM_ROTATE_270_BIT_KHR),
            16 => Some(VkSurfaceTransformFlagBitsKHR::VK_SURFACE_TRANSFORM_HORIZONTAL_MIRROR_BIT_KHR),
            32 => Some(VkSurfaceTransformFlagBitsKHR::VK_SURFACE_TRANSFORM_HORIZONTAL_MIRROR_ROTATE_90_BIT_KHR),
            64 => Some(VkSurfaceTransformFlagBitsKHR::VK_SURFACE_TRANSFORM_HORIZONTAL_MIRROR_ROTATE_180_BIT_KHR),
            128 => Some(VkSurfaceTransformFlagBitsKHR::VK_SURFACE_TRANSFORM_HORIZONTAL_MIRROR_ROTATE_270_BIT_KHR),
            256 => Some(VkSurfaceTransformFlagBitsKHR::VK_SURFACE_TRANSFORM_INHERIT_BIT_KHR),
            2147483647 => Some(VkSurfaceTransformFlagBitsKHR::VK_SURFACE_TRANSFORM_FLAG_BITS_MAX_ENUM_KHR),
            _ => None,
        }
    }

    /// Reading back the value of an enumerant gives the enumerant.
    pub proof fn lemma_value_roundtrip(self)
        ensures
            Self::from_value(self.value()) == Some(self),
    {
    }
}

#[derive(Clone, Copy, Debug, PartialEq, Eq, Hash, Structural)]
pub enum VkCompositeAlphaFlagBitsKHR {
    VK_COMPOSITE_ALPHA_OPAQUE_BIT_KHR,
    VK_COMPOSITE_ALPHA_PRE_MULTIPLIED_BIT_KHR,
    VK_COMPOSITE_ALPHA_POST_MULTIPLIED_BIT_KHR,
    VK_COMPOSITE_ALPHA_INHERIT_BIT_KHR,
    VK_COMPOSITE_ALPHA_FLAG_BITS_MAX_ENUM_KHR,
}

impl VkCompositeAlphaFlagBitsKHR {
    /// The numeric value that the Vulkan API gives this enumerant.
    pub open spec fn value(self) -> u32 {
        match self {
            VkCompositeAlphaFlagBitsKHR::VK_COMPOSITE_ALPHA_OPAQUE_BIT_KHR => 1,
            VkCompositeAlphaFlagBitsKHR::VK_COMPOSITE_ALPHA_PRE_MULTIPLIED_BIT_KHR => 2,
            VkCompositeAlphaFlagBitsKHR::VK_COMPOSITE_ALPHA_POST_MULTIPLIED_BIT_KHR => 4,
            VkCompositeAlphaFlagBitsKHR::VK_COMPOSITE_ALPHA_INHERIT_BIT_KHR => 8,
            VkCompositeAlphaFlagBitsKHR::VK_COMPOSITE_ALPHA_FLAG_BITS_MAX_ENUM_KHR => 2147483647,
        }
    }

    /// The enumerant whose Vulkan value is `raw`, if there is one.
    pub open spec fn from_value(raw: u32) -> Option<Self> {
        match raw {
            1 => Some(VkCompositeAlphaFlagBitsKHR::VK_COMPOSITE_ALPHA_OPAQUE_BIT_KHR),
            2 => Some(VkCompositeAlphaFlagBitsKHR::VK_COMPOSITE_ALPHA_PRE_MULTIPLIED_BIT_KHR),
            4 => Some(VkCompositeAlphaFlagBitsKHR::VK_COMPOSITE_ALPHA_POST_MULTIPLIED_BIT_KHR),
            8 => Some(VkCompositeAlphaFlagBitsKHR::VK_COMPOSITE_ALPHA_INHERIT_BIT_KHR),
            2147483647 => Some(VkCompositeAlphaFlagBitsKHR::VK_COMPOSITE_ALPHA_FLAG_BITS_MAX_ENUM_KHR),
            _ => None,
        }
    }

    pub fn as_raw(self) -> (r: u32)
        ensures
            r == self.value(),
    {
        match self {
            VkCompositeAlphaFlagBitsKHR::VK_COMPOSITE_ALPHA_OPAQUE_BIT_KHR => 1,
            VkCompositeAlphaFlagBitsKHR::VK_COMPOSITE_ALPHA_PRE_MULTIPLIED_BIT_KHR => 2,
            VkCompositeAlphaFlagBitsKHR::VK_COMPOSITE_ALPHA_POST_MULTIPLIED_BIT_KHR => 4,
            VkCompositeAlphaFlagBitsKHR::VK_COMPOSITE_ALPHA_INHERIT_BIT_KHR => 8,
            VkCompositeAlphaFlagBitsKHR::VK_COMPOSITE_ALPHA_FLAG_BITS_MAX_ENUM_KHR => 2147483647,
        }
    }

    pub fn from_raw(raw: u32) -> (r: Option<Self>)
        ensures
            r == Self::from_value(raw),
    {
        match raw {
            1 => Some(VkCompositeAlphaFlagBitsKHR::VK_COMPOSITE_ALPHA_OPAQUE_BIT_KHR),
            2 => Some(VkCompositeAlphaFlagBitsKHR::VK_COMPOSITE_ALPHA_PRE_MULTIPLIED_BIT_KHR),
            4 => Some(VkCompositeAlphaFlagBitsKHR::VK_COMPOSITE_ALPHA_POST_MULTIPLIED_BIT_KHR),
            8 => Some(VkCompositeAlphaFlagBitsKHR::VK_COMPOSITE_ALPHA_INHERIT_BIT_KHR),
            2147483647 => Some(VkCompositeAlphaFlagBitsKHR::VK_COMPOSITE_ALPHA_FLAG_BITS_MAX_ENUM_KHR),
            _ => None,
        }
    }

    /// Reading back the value of an enumerant gives the enumerant.
    pub proof fn lemma_value_roundtrip(self)
        ensures
            Self::from_value(self.value()) == Some(self),
    {
    }
}

#[derive(Clone, Copy, Debug, PartialEq, Eq, Hash, Structural)]
pub enum VkSwapchainCreateFlagBitsKHR {
    VK_SWAPCHAIN_CREATE_BIND_SFR_BIT_KHX,
    VK_SWAPCHAIN_CREATE_FLAG_BITS_MAX_ENUM_KHR,
}

impl VkSwapchainCreateFlagBitsKHR {
    /// The numeric value that the Vulkan API gives this enumerant.
    pub open spec fn value(self) -> u32 {
        match self {
            VkSwapchainCreateFlagBitsKHR::VK_SWAPCHAIN_CREATE_BIND_SFR_BIT_KHX => 1,
            VkSwapchainCreateFlagBitsKHR::VK_SWAPCHAIN_CREATE_FLAG_BITS_MAX_ENUM_KHR => 2147483647,
        }
    }

    /// The enumerant whose Vulkan value is `raw`, if there is one.
    pub open spec fn from_value(raw: u32) -> Option<Self> {
        match raw {
            1 => Some(VkSwapchainCreateFlagBitsKHR::VK_SWAPCHAIN_CREATE_BIND_SFR_BIT_KHX),
            2147483647 => Some(VkSwapchainCreateFlagBitsKHR::VK_SWAPCHAIN_CREATE_FLAG_BITS_MAX_ENUM_KHR),
            _ => None,
        }
    }

    pub fn as_raw(self) -> (r: u32)
        ensures
            r == self.value(),
    {
        match self {
            VkSwapchainCreateFlagBitsKHR::VK_SWAPCHAIN_CREATE_BIND_SFR_BIT_KHX => 1,
            VkSwapchainCreateFlagBitsKHR::VK_SWAPCHAIN_CREATE_FLAG_BITS_MAX_ENUM_KHR => 2147483647,
        }
    }

    pub fn from_raw(raw: u32) -> (r: Option<Self>)
        ensures
            r == Self::from_value(raw),
    {
        match raw {
            1 => Some(VkSwapchainCreateFlagBitsKHR::VK_SWAPCHAIN_CREATE_BIND_SFR_BIT_KHX),
            2147483647 => Some(VkSwapchainCreateFlagBitsKHR::VK_SWAPCHAIN_CREATE_FLAG_BITS_MAX_ENUM_KHR),
            _ => None,
        }
    }

    /// Reading back the value of an enumerant gives the enumerant.
    pub proof fn lemma_value_roundtrip(self)
        ensures
            Self::from_value(self.value()) == Some(self),
    {
    }
}

#[derive(Clone, Copy, Debug, PartialEq, Eq, Hash, Structural)]
pub enum VkDisplayPlaneAlphaFlagBitsKHR {
    VK_DISPLAY_PLANE_ALPHA_OPAQUE_BIT_KHR,
    VK_DISPLAY_PLANE_ALPHA_GLOBAL_BIT_KHR,
    VK_DISPLAY_PLANE_ALPHA_PER_PIXEL_BIT_KHR,
    VK_DISPLAY_PLANE_ALPHA_PER_PIXEL_PREMULTIPLIED_BIT_KHR,
    VK_DISPLAY_PLANE_ALPHA_FLAG_BITS_MAX_ENUM_KHR,
}

impl VkDisplayPlaneAlphaFlagBitsKHR {
    /// The numeric value that the Vulkan API gives this enumerant.
    pub open spec fn value(self) -> u32 {
        match self {
            VkDisplayPlaneAlphaFlagBitsKHR::VK_DISPLAY_PLANE_ALPHA_OPAQUE_BIT_KHR => 1,
            VkDisplayPlaneAlphaFlagBitsKHR::VK_DISPLAY_PLANE_ALPHA_GLOBAL_BIT_KHR => 2,
            VkDisplayPlaneAlphaFlagBitsKHR::VK_DISPLAY_PLANE_ALPHA_PER_PIXEL_BIT_KHR => 4,
            VkDisplayPlaneAlphaFlagBitsKHR::VK_DISPLAY_PLANE_ALPHA_PER_PIXEL_PREMULTIPLIED_BIT_KHR => 8,
            VkDisplayPlaneAlphaFlagBitsKHR::VK_DISPLAY_PLANE_ALPHA_FLAG_BITS_MAX_ENUM_KHR => 2147483647,
        }
    }

    /// The enumerant whose Vulkan value is `raw`, if there is one.
    pub open spec fn from_value(raw: u32) -> Option<Self> {
        match raw {
            1 => Some(VkDisplayPlaneAlphaFlagBitsKHR::VK_DISPLAY_PLANE_ALPHA_OPAQUE_BIT_KHR),
            2 => Some(VkDisplayPlaneAlphaFlagBitsKHR::VK_DISPLAY_PLANE_ALPHA_GLOBAL_BIT_KHR),
            4 => Some(VkDisplayPlaneAlphaFlagBitsKHR::VK_DISPLAY_PLANE_ALPHA_PER_PIXEL_BIT_KHR),
            8 => Some(VkDisplayPlaneAlphaFlagBitsKHR::VK_DISPLAY_PLANE_ALPHA_PER_PIXEL_PREMULTIPLIED_BIT_KHR),
            2147483647 => Some(VkDisplayPlaneAlphaFlagBitsKHR::VK_DISPLAY_PLANE_ALPHA_FLAG_BITS_MAX_ENUM_KHR),
            _ => None,
        }
    }

    pub fn as_raw(self) -> (r: u32)
        ensures
            r == self.value(),
    {
        match self {
            VkDisplayPlaneAlphaFlagBitsKHR::VK_DISPLAY_PLANE_ALPHA_OPAQUE_BIT_KHR => 1,
            VkDisplayPlaneAlphaFlagBitsKHR::VK_DISPLAY_PLANE_ALPHA_GLOBAL_BIT_KHR => 2,
            VkDisplayPlaneAlphaFlagBitsKHR::VK_DISPLAY_PLANE_ALPHA_PER_PIXEL_BIT_KHR => 4,
            VkDisplayPlaneAlphaFlagBitsKHR::VK_DISPLAY_PLANE_ALPHA_PER_PIXEL_PREMULTIPLIED_BIT_KHR => 8,
            VkDisplayPlaneAlphaFlagBitsKHR::VK_DISPLAY_PLANE_ALPHA_FLAG_BITS_MAX_ENUM_KHR => 2147483647,
        }
    }

    pub fn from_raw(raw: u32) -> (r: Option<Self>)
        ensures
            r == Self::from_value(raw),
    {
        match raw {
            1 => Some(VkDisplayPlaneAlphaFlagBitsKHR::VK_DISPLAY_PLANE_ALPHA_OPAQUE_BIT_KHR),
            2 => Some(VkDisplayPlaneAlphaFlagBitsKHR::VK_DISPLAY_PLANE_ALPHA_GLOBAL_BIT_KHR),
            4 => Some(VkDisplayPlaneAlphaFlagBitsKHR::VK_DISPLAY_PLANE_ALPHA_PER_PIXEL_BIT_KHR),
            8 => Some(VkDisplayPlaneAlphaFlagBitsKHR::VK_DISPLAY_PLANE_ALPHA_PER_PIXEL_PREMULTIPLIED_BIT_KHR),
            2147483647 => Some(VkDisplayPlaneAlphaFlagBitsKHR::VK_DISPLAY_PLANE_ALPHA_FLAG_BITS_MAX_ENUM_KHR),
            _ => None,
        }
    }

    /// Reading back the value of an enumerant gives the enumerant.
    pub proof fn lemma_value_roundtrip(self)
        ensures
            Self::from_value(self.value()) == Some(self),
    {
    }
}

#[derive(Clone, Copy, Debug, PartialEq, Eq, Hash, Structural)]
pub enum VkDescriptorUpdateTemplateTypeKHR {
    VK_DESCRIPTOR_UPDATE_TEMPLATE_TYPE_DESCRIPTOR_SET_KHR,
    VK_DESCRIPTOR_UPDATE_TEMPLATE_TYPE_PUSH_DESCRIPTORS_KHR,
    VK_DESCRIPTOR_UPDATE_TEMPLATE_TYPE_RANGE_SIZE_KHR,
    VK_DESCRIPTOR_UPDATE_TEMPLATE_TYPE_MAX_ENUM_KHR,
}

impl VkDescriptorUpdateTemplateTypeKHR {
    /// The numeric value that the Vulkan API gives this enumerant.
    pub open spec fn value(self) -> u32 {
        match self {
            VkDescriptorUpdateTemplateTypeKHR::VK_DESCRIPTOR_UPDATE_TEMPLATE_TYPE_DESCRIPTOR_SET_KHR => 0,
            VkDescriptorUpdateTemplateTypeKHR::VK_DESCRIPTOR_UPDATE_TEMPLATE_TYPE_PUSH_DESCRIPTORS_KHR => 1,
            VkDescriptorUpdateTemplateTypeKHR::VK_DESCRIPTOR_UPDATE_TEMPLATE_TYPE_RANGE_SIZE_KHR => 2,
            VkDescriptorUpdateTemplateTypeKHR::VK_DESCRIPTOR_UPDATE_TEMPLATE_TYPE_MAX_ENUM_KHR => 2147483647,
        }
    }

    /// The enumerant whose Vulkan value is `raw`, if there is one.
    pub open spec fn from_value(raw: u32) -> Option<Self> {
        match raw {
            0 => Some(VkDescriptorUpdateTemplateTypeKHR::VK_DESCRIPTOR_UPDATE_TEMPLATE_TYPE_DESCRIPTOR_SET_KHR),
            1 => Some(VkDescriptorUpdateTemplateTypeKHR::VK_DESCRIPTOR_UPDATE_TEMPLATE_TYPE_PUSH_DESCRIPTORS_KHR),
            2 => Some(VkDescriptorUpdateTemplateTypeKHR::VK_DESCRIPTOR_UPDATE_TEMPLATE_TYPE_RANGE_SIZE_KHR),
            2147483647 => Some(VkDescriptorUpdateTemplateTypeKHR::VK_DESCRIPTOR_UPDATE_TEMPLATE_TYPE_MAX_ENUM_KHR),
            _ => None,
        }
    }

    pub fn as_raw(self) -> (r: u32)
        ensures
            r == self.value(),
    {
        match self {
            VkDescriptorUpdateTemplateTypeKHR::VK_DESCRIPTOR_UPDATE_TEMPLATE_TYPE_DESCRIPTOR_SET_KHR => 0,
            VkDescriptorUpdateTemplateTypeKHR::VK_DESCRIPTOR_UPDATE_TEMPLATE_TYPE_PUSH_DESCRIPTORS_KHR => 1,
            VkDescriptorUpdateTemplateTypeKHR::VK_DESCRIPTOR_UPDATE_TEMPLATE_TYPE_RANGE_SIZE_KHR => 2,
            VkDescriptorUpdateTemplateTypeKHR::VK_DESCRIPTOR_UPDATE_TEMPLATE_TYPE_MAX_ENUM_KHR => 2147483647,
        }
    }

    pub fn from_raw(raw: u32) -> (r: Option<Self>)
        ensures
            r == Self::from_value(raw),
    {
        match raw {
            0 => Some(VkDescriptorUpdateTemplateTypeKHR::VK_DESCRIPTOR_UPDATE_TEMPLATE_TYPE_DESCRIPTOR_SET_KHR),
            1 => Some(VkDescriptorUpdateTemplateTypeKHR::VK_DESCRIPTOR_UPDATE_TEMPLATE_TYPE_PUSH_DESCRIPTORS_KHR),
            2 => Some(VkDescriptorUpdateTemplateTypeKHR::VK_DESCRIPTOR_UPDATE_TEMPLATE_TYPE_RANGE_SIZE_KHR),
            2147483647 => Some(VkDescriptorUpdateTemplateTypeKHR::VK_DESCRIPTOR_UPDATE_TEMPLATE_TYPE_MAX_ENUM_KHR),
            _ => None,
        }
    }

    /// Reading back the value of an enumerant gives the enumerant.
    pub proof fn lemma_value_roundtrip(self)
        ensures
            Self::from_value(self.value()) == Some(self),
    {
    }
}

#[derive(Clone, Copy, Debug, PartialEq, Eq, Hash, Structural)]
pub enum VkDebugReportObjectTypeEXT {
    VK_DEBUG_REPORT_OBJECT_TYPE_UNKNOWN_EXT,
    VK_DEBUG_REPORT_OBJECT_TYPE_INSTANCE_EXT,
    VK_DEBUG_REPORT_OBJECT_TYPE_PHYSICAL_DEVICE_EXT,
    VK_DEBUG_REPORT_OBJECT_TYPE_DEVICE_EXT,
    VK_DEBUG_REPORT_OBJECT_TYPE_QUEUE_EXT,
    VK_DEBUG_REPORT_OBJECT_TYPE_SEMAPHORE_EXT,
    VK_DEBUG_REPORT_OBJECT_TYPE_COMMAND_BUFFER_EXT,
    VK_DEBUG_REPORT_OBJECT_TYPE_FENCE_EXT,
    VK_DEBUG_REPORT_OBJECT_TYPE_DEVICE_MEMORY_EXT,
    VK_DEBUG_REPORT_OBJECT_TYPE_BUFFER_EXT,
    VK_DEBUG_REPORT_OBJECT_TYPE_IMAGE_EXT,
    VK_DEBUG_REPORT_OBJECT_TYPE_EVENT_EXT,
    VK_DEBUG_REPORT_OBJECT_TYPE_QUERY_POOL_EXT,
    VK_DEBUG_REPORT_OBJECT_TYPE_BUFFER_VIEW_EXT,
    VK_DEBUG_REPORT_OBJECT_TYPE_IMAGE_VIEW_EXT,
    VK_DEBUG_REPORT_OBJECT_TYPE_SHADER_MODULE_EXT,
    VK_DEBUG_REPORT_OBJECT_TYPE_PIPELINE_CACHE_EXT,
    VK_DEBUG_REPORT_OBJECT_TYPE_PIPELINE_LAYOUT_EXT,
    VK_DEBUG_REPORT_OBJECT_TYPE_RENDER_PASS_EXT,
    VK_DEBUG_REPORT_OBJECT_TYPE_PIPELINE_EXT,
    VK_DEBUG_REPORT_OBJECT_TYPE_DESCRIPTOR_SET_LAYOUT_EXT,
    VK_DEBUG_REPORT_OBJECT_TYPE_SAMPLER_EXT,
    VK_DEBUG_REPORT_OBJECT_TYPE_DESCRIPTOR_POOL_EXT,
    VK_DEBUG_REPORT_OBJECT_TYPE_DESCRIPTOR_SET_EXT,
    VK_DEBUG_REPORT_OBJECT_TYPE_FRAMEBUFFER_EXT,
    VK_DEBUG_REPORT_OBJECT_TYPE_COMMAND_POOL_EXT,
    VK_DEBUG_REPORT_OBJECT_TYPE_SURFACE_KHR_EXT,
    VK_DEBUG_REPORT_OBJECT_TYPE_SWAPCHAIN_KHR_EXT,
    VK_DEBUG_REPORT_OBJECT_TYPE_DEBUG_REPORT_EXT,
    VK_DEBUG_REPORT_OBJECT_TYPE_DISPLAY_KHR_EXT,
    VK_DEBUG_REPORT_OBJECT_TYPE_DISPLAY_MODE_KHR_EXT,
    VK_DEBUG_REPORT_OBJECT_TYPE_OBJECT_TABLE_NVX_EXT,
    VK_DEBUG_REPORT_OBJECT_TYPE_INDIRECT_COMMANDS_LAYOUT_NVX_EXT,
    VK_DEBUG_REPORT_OBJECT_TYPE_RANGE_SIZE_EXT,
    VK_DEBUG_REPORT_OBJECT_TYPE_MAX_ENUM_EXT,
}

impl VkDebugReportObjectTypeEXT {
    /// The numeric value that the Vulkan API gives this enumerant.
    pub open spec fn value(self) -> u32 {
        match self {
            VkDebugReportObjectTypeEXT::VK_DEBUG_REPORT_OBJECT_TYPE_UNKNOWN_EXT => 0,
            VkDebugReportObjectTypeEXT::VK_DEBUG_REPORT_OBJECT_TYPE_INSTANCE_EXT => 1,
            VkDebugReportObjectTypeEXT::VK_DEBUG_REPORT_OBJECT_TYPE_PHYSICAL_DEVICE_EXT => 2,
            VkDebugReportObjectTypeEXT::VK_DEBUG_REPORT_OBJECT_TYPE_DEVICE_EXT => 3,
            VkDebugReportObjectTypeEXT::VK_DEBUG_REPORT_OBJECT_TYPE_QUEUE_EXT => 4,
            VkDebugReportObjectTypeEXT::VK_DEBUG_REPORT_OBJECT_TYPE_SEMAPHORE_EXT => 5,
            VkDebugReportObjectTypeEXT::VK_DEBUG_REPORT_OBJECT_TYPE_COMMAND_BUFFER_EXT => 6,
            VkDebugReportObjectTypeEXT::VK_DEBUG_REPORT_OBJECT_TYPE_FENCE_EXT => 7,
            VkDebugReportObjectTypeEXT::VK_DEBUG_REPORT_OBJECT_TYPE_DEVICE_MEMORY_EXT => 8,
            VkDebugReportObjectTypeEXT::VK_DEBUG_REPORT_OBJECT_TYPE_BUFFER_EXT => 9,
            VkDebugReportObjectTypeEXT::VK_DEBUG_REPORT_OBJECT_TYPE_IMAGE_EXT => 10,
            VkDebugReportObjectTypeEXT::VK_DEBUG_REPORT_OBJECT_TYPE_EVENT_EXT => 11,
            VkDebugReportObjectTypeEXT::VK_DEBUG_REPORT_OBJECT_TYPE_QUERY_POOL_EXT => 12,
            VkDebugReportObjectTypeEXT::VK_DEBUG_REPORT_OBJECT_TYPE_BUFFER_VIEW_EXT => 13,
            VkDebugReportObjectTypeEXT::VK_DEBUG_REPORT_OBJECT_TYPE_IMAGE_VIEW_EXT => 14,
            VkDebugReportObjectTypeEXT::VK_DEBUG_REPORT_OBJECT_TYPE_SHADER_MODULE_EXT => 15,
            VkDebugReportObjectTypeEXT::VK_DEBUG_REPORT_OBJECT_TYPE_PIPELINE_CACHE_EXT => 16,
            VkDebugReportObjectTypeEXT::VK_DEBUG_REPORT_OBJECT_TYPE_PIPELINE_LAYOUT_EXT => 17,
            VkDebugReportObjectTypeEXT::VK_DEBUG_REPORT_OBJECT_TYPE_RENDER_PASS_EXT => 18,
            VkDebugReportObjectTypeEXT::VK_DEBUG_REPORT_OBJECT_TYPE_PIPELINE_EXT => 19,
            VkDebugReportObjectTypeEXT::VK_DEBUG_REPORT_OBJECT_TYPE_DESCRIPTOR_SET_LAYOUT_EXT => 20,
            VkDebugReportObjectTypeEXT::VK_DEBUG_REPORT_OBJECT_TYPE_SAMPLER_EXT => 21,
            VkDebugReportObjectTypeEXT::VK_DEBUG_REPORT_OBJECT_TYPE_DESCRIPTOR_POOL_EXT => 22,
            VkDebugReportObjectTypeEXT::VK_DEBUG_REPORT_OBJECT_TYPE_DESCRIPTOR_SET_EXT => 23,
            VkDebugReportObjectTypeEXT::VK_DEBUG_REPORT_OBJECT_TYPE_FRAMEBUFFER_EXT => 24,
            VkDebugReportObjectTypeEXT::VK_DEBUG_REPORT_OBJECT_TYPE_COMMAND_POOL_EXT => 25,
            VkDebugReportObjectTypeEXT::VK_DEBUG_REPORT_OBJECT_TYPE_SURFACE_KHR_EXT => 26,
            VkDebugReportObjectTypeEXT::VK_DEBUG_REPORT_OBJECT_TYPE_SWAPCHAIN_KHR_EXT => 27,
            VkDebugReportObjectTypeEXT::VK_DEBUG_REPORT_OBJECT_TYPE_DEBUG_REPORT_EXT => 28,
            VkDebugReportObjectTypeEXT::VK_DEBUG_REPORT_OBJECT_TYPE_DISPLAY_KHR_EXT => 29,
            VkDebugReportObjectTypeEXT::VK_DEBUG_REPORT_OBJECT_TYPE_DISPLAY_MODE_KHR_EXT => 30,
            VkDebugReportObjectTypeEXT::VK_DEBUG_REPORT_OBJECT_TYPE_OBJECT_TABLE_NVX_EXT => 31,
            VkDebugReportObjectTypeEXT::VK_DEBUG_REPORT_OBJECT_TYPE_INDIRECT_COMMANDS_LAYOUT_NVX_EXT => 32,
            VkDebugReportObjectTypeEXT::VK_DEBUG_REPORT_OBJECT_TYPE_RANGE_SIZE_EXT => 33,
            VkDebugReportObjectTypeEXT::VK_DEBUG_REPORT_OBJECT_TYPE_MAX_ENUM_EXT => 2147483647,
        }
    }

    /// The enumerant whose Vulkan value is `raw`, if there is one.
    pub open spec fn from_value(raw: u32) -> Option<Self> {
        match raw {
            0 => Some(VkDebugReportObjectTypeEXT::VK_DEBUG_REPORT_OBJECT_TYPE_UNKNOWN_EXT),
            1 => Some(VkDebugReportObjectTypeEXT::VK_DEBUG_REPORT_OBJECT_TYPE_INSTANCE_EXT),
            2 => Some(VkDebugReportObjectTypeEXT::VK_DEBUG_REPORT_OBJECT_TYPE_PHYSICAL_DEVICE_EXT),
            3 => Some(VkDebugReportObjectTypeEXT::VK_DEBUG_REPORT_OBJECT_TYPE_DEVICE_EXT),
            4 => Some(VkDebugReportObjectTypeEXT::VK_DEBUG_REPORT_OBJECT_TYPE_QUEUE_EXT),
            5 => Some(VkDebugReportObjectTypeEXT::VK_DEBUG_REPORT_OBJECT_TYPE_SEMAPHORE_EXT),
            6 => Some(VkDebugReportObjectTypeEXT::VK_DEBUG_REPORT_OBJECT_TYPE_COMMAND_BUFFER_EXT),
            7 => Some(VkDebugReportObjectTypeEXT::VK_DEBUG_REPORT_OBJECT_TYPE_FENCE_EXT),
            8 => Some(VkDebugReportObjectTypeEXT::VK_DEBUG_REPORT_OBJECT_TYPE_DEVICE_MEMORY_EXT),
            9 => Some(VkDebugReportObjectTypeEXT::VK_DEBUG_REPORT_OBJECT_TYPE_BUFFER_EXT),
            10 => Some(VkDebugReportObjectTypeEXT::VK_DEBUG_REPORT_OBJECT_TYPE_IMAGE_EXT),
            11 => Some(VkDebugReportObjectTypeEXT::VK_DEBUG_REPORT_OBJECT_TYPE_EVENT_EXT),
            12 => Some(VkDebugReportObjectTypeEXT::VK_DEBUG_REPORT_OBJECT_TYPE_QUERY_POOL_EXT),
            13 => Some(VkDebugReportObjectTypeEXT::VK_DEBUG_REPORT_OBJECT_TYPE_BUFFER_VIEW_EXT),
            14 => Some(VkDebugReportObjectTypeEXT::VK_DEBUG_REPORT_OBJECT_TYPE_IMAGE_VIEW_EXT),
            15 => Some(VkDebugReportObjectTypeEXT::VK_DEBUG_REPORT_OBJECT_TYPE_SHADER_MODULE_EXT),
            16 => Some(VkDebugReportObjectTypeEXT::VK_DEBUG_REPORT_OBJECT_TYPE_PIPELINE_CACHE_EXT),
            17 => Some(VkDebugReportObjectTypeEXT::VK_DEBUG_REPORT_OBJECT_TYPE_PIPELINE_LAYOUT_EXT),
            18 => Some(VkDebugReportObjectTypeEXT::VK_DEBUG_REPORT_OBJECT_TYPE_RENDER_PASS_EXT),
            19 => Some(VkDebugReportObjectTypeEXT::VK_DEBUG_REPORT_OBJECT_TYPE_PIPELINE_EXT),
            20 => Some(VkDebugReportObjectTypeEXT::VK_DEBUG_REPORT_OBJECT_TYPE_DESCRIPTOR_SET_LAYOUT_EXT),
            21 => Some(VkDebugReportObjectTypeEXT::VK_DEBUG_REPORT_OBJECT_TYPE_SAMPLER_EXT),
            22 => Some(VkDebugReportObjectTypeEXT::VK_DEBUG_REPORT_OBJECT_TYPE_DESCRIPTOR_POOL_EXT),
            23 => Some(VkDebugReportObjectTypeEXT::VK_DEBUG_REPORT_OBJECT_TYPE_DESCRIPTOR_SET_EXT),
            24 => Some(VkDebugReportObjectTypeEXT::VK_DEBUG_REPORT_OBJECT_TYPE_FRAMEBUFFER_EXT),
            25 => Some(VkDebugReportObjectTypeEXT::VK_DEBUG_REPORT_OBJECT_TYPE_COMMAND_POOL_EXT),
            26 => Some(VkDebugReportObjectTypeEXT::VK_DEBUG_REPORT_OBJECT_TYPE_SURFACE_KHR_EXT),
            27 => Some(VkDebugReportObjectTypeEXT::VK_DEBUG_REPORT_OBJECT_TYPE_SWAPCHAIN_KHR_EXT),
            28 => Some(VkDebugReportObjectTypeEXT::VK_DEBUG_REPORT_OBJECT_TYPE_DEBUG_REPORT_EXT),
            29 => Some(VkDebugReportObjectTypeEXT::VK_DEBUG_REPORT_OBJECT_TYPE_DISPLAY_KHR_EXT),
            30 => Some(VkDebugReportObjectTypeEXT::VK_DEBUG_REPORT_OBJECT_TYPE_DISPLAY_MODE_KHR_EXT),
            31 => Some(VkDebugReportObjectTypeEXT::VK_DEBUG_REPORT_OBJECT_TYPE_OBJECT_TABLE_NVX_EXT),
            32 => Some(VkDebugReportObjectTypeEXT::VK_DEBUG_REPORT_OBJECT_TYPE_INDIRECT_COMMANDS_LAYOUT_NVX_EXT),
            33 => Some(VkDebugReportObjectTypeEXT::VK_DEBUG_REPORT_OBJECT_TYPE_RANGE_SIZE_EXT),
            2147483647 => Some(VkDebugReportObjectTypeEXT::VK_DEBUG_REPORT_OBJECT_TYPE_MAX_ENUM_EXT),
            _ => None,
        }
    }

    pub fn as_raw(self) -> (r: u32)
        ensures
            r == self.value(),
    {
        match self {
            VkDebugReportObjectTypeEXT::VK_DEBUG_REPORT_OBJECT_TYPE_UNKNOWN_EXT => 0,
            VkDebugReportObjectTypeEXT::VK_DEBUG_REPORT_OBJECT_TYPE_INSTANCE_EXT => 1,
            VkDebugReportObjectTypeEXT::VK_DEBUG_REPORT_OBJECT_TYPE_PHYSICAL_DEVICE_EXT => 2,
            VkDebugReportObjectTypeEXT::VK_DEBUG_REPORT_OBJECT_TYPE_DEVICE_EXT => 3,
            VkDebugReportObjectTypeEXT::VK_DEBUG_REPORT_OBJECT_TYPE_QUEUE_EXT => 4,
            VkDebugReportObjectTypeEXT::VK_DEBUG_REPORT_OBJECT_TYPE_SEMAPHORE_EXT => 5,
            VkDebugReportObjectTypeEXT::VK_DEBUG_REPORT_OBJECT_TYPE_COMMAND_BUFFER_EXT => 6,
            VkDebugReportObjectTypeEXT::VK_DEBUG_REPORT_OBJECT_TYPE_FENCE_EXT => 7,
            VkDebugReportObjectTypeEXT::VK_DEBUG_REPORT_OBJECT_TYPE_DEVICE_MEMORY_EXT => 8,
            VkDebugReportObjectTypeEXT::VK_DEBUG_REPORT_OBJECT_TYPE_BUFFER_EXT => 9,
            VkDebugReportObjectTypeEXT::VK_DEBUG_REPORT_OBJECT_TYPE_IMAGE_EXT => 10,
            VkDebugReportObjectTypeEXT::VK_DEBUG_REPORT_OBJECT_TYPE_EVENT_EXT => 11,
            VkDebugReportObjectTypeEXT::VK_DEBUG_REPORT_OBJECT_TYPE_QUERY_POOL_EXT => 12,
            VkDebugReportObjectTypeEXT::VK_DEBUG_REPORT_OBJECT_TYPE_BUFFER_VIEW_EXT => 13,
            VkDebugReportObjectTypeEXT::VK_DEBUG_REPORT_OBJECT_TYPE_IMAGE_VIEW_EXT => 14,
            VkDebugReportObjectTypeEXT::VK_DEBUG_REPORT_OBJECT_TYPE_SHADER_MODULE_EXT => 15,
            VkDebugReportObjectTypeEXT::VK_DEBUG_REPORT_OBJECT_TYPE_PIPELINE_CACHE_EXT => 16,
            VkDebugReportObjectTypeEXT::VK_DEBUG_REPORT_OBJECT_TYPE_PIPELINE_LAYOUT_EXT => 17,
            VkDebugReportObjectTypeEXT::VK_DEBUG_REPORT_OBJECT_TYPE_RENDER_PASS_EXT => 18,
            VkDebugReportObjectTypeEXT::VK_DEBUG_REPORT_OBJECT_TYPE_PIPELINE_EXT => 19,
            VkDebugReportObjectTypeEXT::VK_DEBUG_REPORT_OBJECT_TYPE_DESCRIPTOR_SET_LAYOUT_EXT => 20,
            VkDebugReportObjectTypeEXT::VK_DEBUG_REPORT_OBJECT_TYPE_SAMPLER_EXT => 21,
            VkDebugReportObjectTypeEXT::VK_DEBUG_REPORT_OBJECT_TYPE_DESCRIPTOR_POOL_EXT => 22,
            VkDebugReportObjectTypeEXT::VK_DEBUG_REPORT_OBJECT_TYPE_DESCRIPTOR_SET_EXT => 23,
            VkDebugReportObjectTypeEXT::VK_DEBUG_REPORT_OBJECT_TYPE_FRAMEBUFFER_EXT => 24,
            VkDebugReportObjectTypeEXT::VK_DEBUG_REPORT_OBJECT_TYPE_COMMAND_POOL_EXT => 25,
            VkDebugReportObjectTypeEXT::VK_DEBUG_REPORT_OBJECT_TYPE_SURFACE_KHR_EXT => 26,
            VkDebugReportObjectTypeEXT::VK_DEBUG_REPORT_OBJECT_TYPE_SWAPCHAIN_KHR_EXT => 27,
            VkDebugReportObjectTypeEXT::VK_DEBUG_REPORT_OBJECT_TYPE_DEBUG_REPORT_EXT => 28,
            VkDebugReportObjectTypeEXT::VK_DEBUG_REPORT_OBJECT_TYPE_DISPLAY_KHR_EXT => 29,
            VkDebugReportObjectTypeEXT::VK_DEBUG_REPORT_OBJECT_TYPE_DISPLAY_MODE_KHR_EXT => 30,
            VkDebugReportObjectTypeEXT::VK_DEBUG_REPORT_OBJECT_TYPE_OBJECT_TABLE_NVX_EXT => 31,
            VkDebugReportObjectTypeEXT::VK_DEBUG_REPORT_OBJECT_TYPE_INDIRECT_COMMANDS_LAYOUT_NVX_EXT => 32,
            VkDebugReportObjectTypeEXT::VK_DEBUG_REPORT_OBJECT_TYPE_RANGE_SIZE_EXT => 33,
            VkDebugReportObjectTypeEXT::VK_DEBUG_REPORT_OBJECT_TYPE_MAX_ENUM_EXT => 2147483647,
        }
    }

    pub fn from_raw(raw: u32) -> (r: Option<Self>)
        ensures
            r == Self::from_value(raw),
    {
        match raw {
            0 => Some(VkDebugReportObjectTypeEXT::VK_DEBUG_REPORT_OBJECT_TYPE_UNKNOWN_EXT),
            1 => Some(VkDebugReportObjectTypeEXT::VK_DEBUG_REPORT_OBJECT_TYPE_INSTANCE_EXT),
            2 => Some(VkDebugReportObjectTypeEXT::VK_DEBUG_REPORT_OBJECT_TYPE_PHYSICAL_DEVICE_EXT),
            3 => Some(VkDebugReportObjectTypeEXT::VK_DEBUG_REPORT_OBJECT_TYPE_DEVICE_EXT),
            4 => Some(VkDebugReportObjectTypeEXT::VK_DEBUG_REPORT_OBJECT_TYPE_QUEUE_EXT),
            5 => Some(VkDebugReportObjectTypeEXT::VK_DEBUG_REPORT_OBJECT_TYPE_SEMAPHORE_EXT),
            6 => Some(VkDebugReportObjectTypeEXT::VK_DEBUG_REPORT_OBJECT_TYPE_COMMAND_BUFFER_EXT),
            7 => Some(VkDebugReportObjectTypeEXT::VK_DEBUG_REPORT_OBJECT_TYPE_FENCE_EXT),
            8 => Some(VkDebugReportObjectTypeEXT::VK_DEBUG_REPORT_OBJECT_TYPE_DEVICE_MEMORY_EXT),
            9 => Some(VkDebugReportObjectTypeEXT::VK_DEBUG_REPORT_OBJECT_TYPE_BUFFER_EXT),
            10 => Some(VkDebugReportObjectTypeEXT::VK_DEBUG_REPORT_OBJECT_TYPE_IMAGE_EXT),
            11 => Some(VkDebugReportObjectTypeEXT::VK_DEBUG_REPORT_OBJECT_TYPE_EVENT_EXT),
            12 => Some(VkDebugReportObjectTypeEXT::VK_DEBUG_REPORT_OBJECT_TYPE_QUERY_POOL_EXT),
            13 => Some(VkDebugReportObjectTypeEXT::VK_DEBUG_REPORT_OBJECT_TYPE_BUFFER_VIEW_EXT),
            14 => Some(VkDebugReportObjectTypeEXT::VK_DEBUG_REPORT_OBJECT_TYPE_IMAGE_VIEW_EXT),
            15 => Some(VkDebugReportObjectTypeEXT::VK_DEBUG_REPORT_OBJECT_TYPE_SHADER_MODULE_EXT),
            16 => Some(VkDebugReportObjectTypeEXT::VK_DEBUG_REPORT_OBJECT_TYPE_PIPELINE_CACHE_EXT),
            17 => Some(VkDebugReportObjectTypeEXT::VK_DEBUG_REPORT_OBJECT_TYPE_PIPELINE_LAYOUT_EXT),
            18 => Some(VkDebugReportObjectTypeEXT::VK_DEBUG_REPORT_OBJECT_TYPE_RENDER_PASS_EXT),
            19 => Some(VkDebugReportObjectTypeEXT::VK_DEBUG_REPORT_OBJECT_TYPE_PIPELINE_EXT),
            20 => Some(VkDebugReportObjectTypeEXT::VK_DEBUG_REPORT_OBJECT_TYPE_DESCRIPTOR_SET_LAYOUT_EXT),
            21 => Some(VkDebugReportObjectTypeEXT::VK_DEBUG_REPORT_OBJECT_TYPE_SAMPLER_EXT),
            22 => Some(VkDebugReportObjectTypeEXT::VK_DEBUG_REPORT_OBJECT_TYPE_DESCRIPTOR_POOL_EXT),
            23 => Some(VkDebugReportObjectTypeEXT::VK_DEBUG_REPORT_OBJECT_TYPE_DESCRIPTOR_SET_EXT),
            24 => Some(VkDebugReportObjectTypeEXT::VK_DEBUG_REPORT_OBJECT_TYPE_FRAMEBUFFER_EXT),
            25 => Some(VkDebugReportObjectTypeEXT::VK_DEBUG_REPORT_OBJECT_TYPE_COMMAND_POOL_EXT),
            26 => Some(VkDebugReportObjectTypeEXT::VK_DEBUG_REPORT_OBJECT_TYPE_SURFACE_KHR_EXT),
            27 => Some(VkDebugReportObjectTypeEXT::VK_DEBUG_REPORT_OBJECT_TYPE_SWAPCHAIN_KHR_EXT),
            28 => Some(VkDebugReportObjectTypeEXT::VK_DEBUG_REPORT_OBJECT_TYPE_DEBUG_REPORT_EXT),
            29 => Some(VkDebugReportObjectTypeEXT::VK_DEBUG_REPORT_OBJECT_TYPE_DISPLAY_KHR_EXT),
            30 => Some(VkDebugReportObjectTypeEXT::VK_DEBUG_REPORT_OBJECT_TYPE_DISPLAY_MODE_KHR_EXT),
            31 => Some(VkDebugReportObjectTypeEXT::VK_DEBUG_REPORT_OBJECT_TYPE_OBJECT_TABLE_NVX_EXT),
            32 => Some(VkDebugReportObjectTypeEXT::VK_DEBUG_REPORT_OBJECT_TYPE_INDIRECT_COMMANDS_LAYOUT_NVX_EXT),
            33 => Some(VkDebugReportObjectTypeEXT::VK_DEBUG_REPORT_OBJECT_TYPE_RANGE_SIZE_EXT),
            2147483647 => Some(VkDebugReportObjectTypeEXT::VK_DEBUG_REPORT_OBJECT_TYPE_MAX_ENUM_EXT),
            _ => None,
        }
    }

    /// Reading back the value of an enumerant gives the enumerant.
    pub proof fn lemma_value_roundtrip(self)
        ensures
            Self::from_value(self.value()) == Some(self),
    {
    }
}

#[derive(Clone, Copy, Debug, PartialEq, Eq, Hash, Structural)]
pub enum VkDebugReportErrorEXT {
    VK_DEBUG_REPORT_ERROR_NONE_EXT,
    VK_DEBUG_REPORT_ERROR_CALLBACK_REF_EXT,
    VK_DEBUG_REPORT_ERROR_RANGE_SIZE_EXT,
    VK_DEBUG_REPORT_ERROR_MAX_ENUM_EXT,
}

impl VkDebugReportErrorEXT {
    /// The numeric value that the Vulkan API gives this enumerant.
    pub open spec fn value(self) -> u32 {
        match self {
            VkDebugReportErrorEXT::VK_DEBUG_REPORT_ERROR_NONE_EXT => 0,
            VkDebugReportErrorEXT::VK_DEBUG_REPORT_ERROR_CALLBACK_REF_EXT => 1,
            VkDebugReportErrorEXT::VK_DEBUG_REPORT_ERROR_RANGE_SIZE_EXT => 2,
            VkDebugReportErrorEXT::VK_DEBUG_REPORT_ERROR_MAX_ENUM_EXT => 2147483647,
        }
    }

    /// The enumerant whose Vulkan value is `raw`, if there is one.
    pub open spec fn from_value(raw: u32) -> Option<Self> {
        match raw {
            0 => Some(VkDebugReportErrorEXT::VK_DEBUG_REPORT_ERROR_NONE_EXT),
            1 => Some(VkDebugReportErrorEXT::VK_DEBUG_REPORT_ERROR_CALLBACK_REF_EXT),
            2 => Some(VkDebugReportErrorEXT::VK_DEBUG_REPORT_ERROR_RANGE_SIZE_EXT),
            2147483647 => Some(VkDebugReportErrorEXT::VK_DEBUG_REPORT_ERROR_MAX_ENUM_EXT),
            _ => None,
        }
    }

    pub fn as_raw(self) -> (r: u32)
        ensures
            r == self.value(),
    {
        match self {
            VkDebugReportErrorEXT::VK_DEBUG_REPORT_ERROR_NONE_EXT => 0,
            VkDebugReportErrorEXT::VK_DEBUG_REPORT_ERROR_CALLBACK_REF_EXT => 1,
            VkDebugReportErrorEXT::VK_DEBUG_REPORT_ERROR_RANGE_SIZE_EXT => 2,
            VkDebugReportErrorEXT::VK_DEBUG_REPORT_ERROR_MAX_ENUM_EXT => 2147483647,
        }
    }

    pub fn from_raw(raw: u32) -> (r: Option<Self>)
        ensures
            r == Self::from_value(raw),
    {
        match raw {
            0 => Some(VkDebugReportErrorEXT::VK_DEBUG_REPORT_ERROR_NONE_EXT),
            1 => Some(VkDebugReportErrorEXT::VK_DEBUG_REPORT_ERROR_CALLBACK_REF_EXT),
            2 => Some(VkDebugReportErrorEXT::VK_DEBUG_REPORT_ERROR_RANGE_SIZE_EXT),
            2147483647 => Some(VkDebugReportErrorEXT::VK_DEBUG_REPORT_ERROR_MAX_ENUM_EXT),
            _ => None,
        }
    }

    /// Reading back the value of an enumerant gives the enumerant.
    pub proof fn lemma_value_roundtrip(self)
        ensures
            Self::from_value(self.value()) == Some(self),
    {
    }
}

#[derive(Clone, Copy, Debug, PartialEq, Eq, Hash, Structural)]
pub enum VkDebugReportFlagBitsEXT {
    VK_DEBUG_REPORT_INFORMATION_BIT_EXT,
    VK_DEBUG_REPORT_WARNING_BIT_EXT,
    VK_DEBUG_REPORT_PERFORMANCE_WARNING_BIT_EXT,
    VK_DEBUG_REPORT_ERROR_BIT_EXT,
    VK_DEBUG_REPORT_DEBUG_BIT_EXT,
    VK_DEBUG_REPORT_FLAG_BITS_MAX_ENUM_EXT,
}

impl VkDebugReportFlagBitsEXT {
    /// The numeric value that the Vulkan API gives this enumerant.
    pub open spec fn value(self) -> u32 {
        match self {
            VkDebugReportFlagBitsEXT::VK_DEBUG_REPORT_INFORMATION_BIT_EXT => 1,
            VkDebugReportFlagBitsEXT::VK_DEBUG_REPORT_WARNING_BIT_EXT => 2,
            VkDebugReportFlagBitsEXT::VK_DEBUG_REPORT_PERFORMANCE_WARNING_BIT_EXT => 4,
            VkDebugReportFlagBitsEXT::VK_DEBUG_REPORT_ERROR_BIT_EXT => 8,
            VkDebugReportFlagBitsEXT::VK_DEBUG_REPORT_DEBUG_BIT_EXT => 16,
            VkDebugReportFlagBitsEXT::VK_DEBUG_REPORT_FLAG_BITS_MAX_ENUM_EXT => 2147483647,
        }
    }

    /// The enumerant whose Vulkan value is `raw`, if there is one.
    pub open spec fn from_value(raw: u32) -> Option<Self> {
        match raw {
            1 => Some(VkDebugReportFlagBitsEXT::VK_DEBUG_REPORT_INFORMATION_BIT_EXT),
            2 => Some(VkDebugReportFlagBitsEXT::VK_DEBUG_REPORT_WARNING_BIT_EXT),
            4 => Some(VkDebugReportFlagBitsEXT::VK_DEBUG_REPORT_PERFORMANCE_WARNING_BIT_EXT),
            8 => Some(VkDebugReportFlagBitsEXT::VK_DEBUG_REPORT_ERROR_BIT_EXT),
            16 => Some(VkDebugReportFlagBitsEXT::VK_DEBUG_REPORT_DEBUG_BIT_EXT),
            2147483647 => Some(VkDebugReportFlagBitsEXT::VK_DEBUG_REPORT_FLAG_BITS_MAX_ENUM_EXT),
            _ => None,
        }
    }

    pub fn as_raw(self) -> (r: u32)
        ensures
            r == self.value(),
    {
        match self {
            VkDebugReportFlagBitsEXT::VK_DEBUG_REPORT_INFORMATION_BIT_EXT => 1,
            VkDebugReportFlagBitsEXT::VK_DEBUG_REPORT_WARNING_BIT_EXT => 2,
            VkDebugReportFlagBitsEXT::VK_DEBUG_REPORT_PERFORMANCE_WARNING_BIT_EXT => 4,
            VkDebugReportFlagBitsEXT::VK_DEBUG_REPORT_ERROR_BIT_EXT => 8,
            VkDebugReportFlagBitsEXT::VK_DEBUG_REPORT_DEBUG_BIT_EXT => 16,
            VkDebugReportFlagBitsEXT::VK_DEBUG_REPORT_FLAG_BITS_MAX_ENUM_EXT => 2147483647,
        }
    }

    pub fn from_raw(raw: u32) -> (r: Option<Self>)
        ensures
            r == Self::from_value(raw),
    {
        match raw {
            1 => Some(VkDebugReportFlagBitsEXT::VK_DEBUG_REPORT_INFORMATION_BIT_EXT),
            2 => Some(VkDebugReportFlagBitsEXT::VK_DEBUG_REPORT_WARNING_BIT_EXT),
            4 => Some(VkDebugReportFlagBitsEXT::VK_DEBUG_REPORT_PERFORMANCE_WARNING_BIT_EXT),
            8 => Some(VkDebugReportFlagBitsEXT::VK_DEBUG_REPORT_ERROR_BIT_EXT),
            16 => Some(VkDebugReportFlagBitsEXT::VK_DEBUG_REPORT_DEBUG_BIT_EXT),
            2147483647 => Some(VkDebugReportFlagBitsEXT::VK_DEBUG_REPORT_FLAG_BITS_MAX_ENUM_EXT),
            _ => None,
        }
    }

    /// Reading back the value of an enumerant gives the enumerant.
    pub proof fn lemma_value_roundtrip(self)
        ensures
            Self::from_value(self.value()) == Some(self),
    {
    }
}

#[derive(Clone, Copy, Debug, PartialEq, Eq, Hash, Structural)]
pub enum VkRasterizationOrderAMD {
    VK_RASTERIZATION_ORDER_STRICT_AMD,
    VK_RASTERIZATION_ORDER_RELAXED_AMD,
    VK_RASTERIZATION_ORDER_RANGE_SIZE_AMD,
    VK_RASTERIZATION_ORDER_MAX_ENUM_AMD,
}

impl VkRasterizationOrderAMD {
    /// The numeric value that the Vulkan API gives this enumerant.
    pub open spec fn value(self) -> u32 {
        match self {
            VkRasterizationOrderAMD::VK_RASTERIZATION_ORDER_STRICT_AMD => 0,
            VkRasterizationOrderAMD::VK_RASTERIZATION_ORDER_RELAXED_AMD => 1,
            VkRasterizationOrderAMD::VK_RASTERIZATION_ORDER_RANGE_SIZE_AMD => 2,
            VkRasterizationOrderAMD::VK_RASTERIZATION_ORDER_MAX_ENUM_AMD => 2147483647,
        }
    }

    /// The enumerant whose Vulkan value is `raw`, if there is one.
    pub open spec fn from_value(raw: u32) -> Option<Self> {
        match raw {
            0 => Some(VkRasterizationOrderAMD::VK_RASTERIZATION_ORDER_STRICT_AMD),
            1 => Some(VkRasterizationOrderAMD::VK_RASTERIZATION_ORDER_RELAXED_AMD),
            2 => Some(VkRasterizationOrderAMD::VK_RASTERIZATION_ORDER_RANGE_SIZE_AMD),
            2147483647 => Some(VkRasterizationOrderAMD::VK_RASTERIZATION_ORDER_MAX_ENUM_AMD),
            _ => None,
        }
    }

    pub fn as_raw(self) -> (r: u32)
        ensures
            r == self.value(),
    {
        match self {
            VkRasterizationOrderAMD::VK_RASTERIZATION_ORDER_STRICT_AMD => 0,
            VkRasterizationOrderAMD::VK_RASTERIZATION_ORDER_RELAXED_AMD => 1,
            VkRasterizationOrderAMD::VK_RASTERIZATION_ORDER_RANGE_SIZE_AMD => 2,
            VkRasterizationOrderAMD::VK_RASTERIZATION_ORDER_MAX_ENUM_AMD => 2147483647,
        }
    }

    pub fn from_raw(raw: u32) -> (r: Option<Self>)
        ensures
            r == Self::from_value(raw),
    {
        match raw {
            0 => Some(VkRasterizationOrderAMD::VK_RASTERIZATION_ORDER_STRICT_AMD),
            1 => Some(VkRasterizationOrderAMD::VK_RASTERIZATION_ORDER_RELAXED_AMD),
            2 => Some(VkRasterizationOrderAMD::VK_RASTERIZATION_ORDER_RANGE_SIZE_AMD),
            2147483647 => Some(VkRasterizationOrderAMD::VK_RASTERIZATION_ORDER_MAX_ENUM_AMD),
            _ => None,
        }
    }

    /// Reading back the value of an enumerant gives the enumerant.
    pub proof fn lemma_value_roundtrip(self)
        ensures
            Self::from_value(self.value()) == Some(self),
    {
    }
}

#[derive(Clone, Copy, Debug, PartialEq, Eq, Hash, Structural)]
pub enum VkExternalMemoryHandleTypeFlagBitsNV {
    VK_EXTERNAL_MEMORY_HANDLE_TYPE_OPAQUE_WIN32_BIT_NV,
    VK_EXTERNAL_MEMORY_HANDLE_TYPE_OPAQUE_WIN32_KMT_BIT_NV,
    VK_EXTERNAL_MEMORY_HANDLE_TYPE_D3D11_IMAGE_BIT_NV,
    VK_EXTERNAL_MEMORY_HANDLE_TYPE_D3D11_IMAGE_KMT_BIT_NV,
    VK_EXTERNAL_MEMORY_HANDLE_TYPE_FLAG_BITS_MAX_ENUM_NV,
}

impl VkExternalMemoryHandleTypeFlagBitsNV {
    /// The numeric value that the Vulkan API gives this enumerant.
    pub open spec fn value(self) -> u32 {
        match self {
            VkExternalMemoryHandleTypeFlagBitsNV::VK_EXTERNAL_MEMORY_HANDLE_TYPE_OPAQUE_WIN32_BIT_NV => 1,
            VkExternalMemoryHandleTypeFlagBitsNV::VK_EXTERNAL_MEMORY_HANDLE_TYPE_OPAQUE_WIN32_KMT_BIT_NV => 2,
            VkExternalMemoryHandleTypeFlagBitsNV::VK_EXTERNAL_MEMORY_HANDLE_TYPE_D3D11_IMAGE_BIT_NV => 4,
            VkExternalMemoryHandleTypeFlagBitsNV::VK_EXTERNAL_MEMORY_HANDLE_TYPE_D3D11_IMAGE_KMT_BIT_NV => 8,
            VkExternalMemoryHandleTypeFlagBitsNV::VK_EXTERNAL_MEMORY_HANDLE_TYPE_FLAG_BITS_MAX_ENUM_NV => 2147483647,
        }
    }

    /// The enumerant whose Vulkan value is `raw`, if there is one.
    pub open spec fn from_value(raw: u32) -> Option<Self> {
        match raw {
            1 => Some(VkExternalMemoryHandleTypeFlagBitsNV::VK_EXTERNAL_MEMORY_HANDLE_TYPE_OPAQUE_WIN32_BIT_NV),
            2 => Some(VkExternalMemoryHandleTypeFlagBitsNV::VK_EXTERNAL_MEMORY_HANDLE_TYPE_OPAQUE_WIN32_KMT_BIT_NV),
            4 => Some(VkExternalMemoryHandleTypeFlagBitsNV::VK_EXTERNAL_MEMORY_HANDLE_TYPE_D3D11_IMAGE_BIT_NV),
            8 => Some(VkExternalMemoryHandleTypeFlagBitsNV::VK_EXTERNAL_MEMORY_HANDLE_TYPE_D3D11_IMAGE_KMT_BIT_NV),
            2147483647 => Some(VkExternalMemoryHandleTypeFlagBitsNV::VK_EXTERNAL_MEMORY_HANDLE_TYPE_FLAG_BITS_MAX_ENUM_NV),
            _ => None,
        }
    }

    pub fn as_raw(self) -> (r: u32)
        ensures
            r == self.value(),
    {
        match self {
            VkExternalMemoryHandleTypeFlagBitsNV::VK_EXTERNAL_MEMORY_HANDLE_TYPE_OPAQUE_WIN32_BIT_NV => 1,
            VkExternalMemoryHandleTypeFlagBitsNV::VK_EXTERNAL_MEMORY_HANDLE_TYPE_OPAQUE_WIN32_KMT_BIT_NV => 2,
            VkExternalMemoryHandleTypeFlagBitsNV::VK_EXTERNAL_MEMORY_HANDLE_TYPE_D3D11_IMAGE_BIT_NV => 4,
            VkExternalMemoryHandleTypeFlagBitsNV::VK_EXTERNAL_MEMORY_HANDLE_TYPE_D3D11_IMAGE_KMT_BIT_NV => 8,
            VkExternalMemoryHandleTypeFlagBitsNV::VK_EXTERNAL_MEMORY_HANDLE_TYPE_FLAG_BITS_MAX_ENUM_NV => 2147483647,
        }
    }

    pub fn from_raw(raw: u32) -> (r: Option<Self>)
        ensures
            r == Self::from_value(raw),
    {
        match raw {
            1 => Some(VkExternalMemoryHandleTypeFlagBitsNV::VK_EXTERNAL_MEMORY_HANDLE_TYPE_OPAQUE_WIN32_BIT_NV),
            2 => Some(VkExternalMemoryHandleTypeFlagBitsNV::VK_EXTERNAL_MEMORY_HANDLE_TYPE_OPAQUE_WIN32_KMT_BIT_NV),
            4 => Some(VkExternalMemoryHandleTypeFlagBitsNV::VK_EXTERNAL_MEMORY_HANDLE_TYPE_D3D11_IMAGE_BIT_NV),
            8 => Some(VkExternalMemoryHandleTypeFlagBitsNV::VK_EXTERNAL_MEMORY_HANDLE_TYPE_D3D11_IMAGE_KMT_BIT_NV),
            2147483647 => Some(VkExternalMemoryHandleTypeFlagBitsNV::VK_EXTERNAL_MEMORY_HANDLE_TYPE_FLAG_BITS_MAX_ENUM_NV),
            _ => None,
        }
    }

    /// Reading back the value of an enumerant gives the enumerant.
    pub proof fn lemma_value_roundtrip(self)
        ensures
            Self::from_value(self.value()) == Some(self),
    {
    }
}

#[derive(Clone, Copy, Debug, PartialEq, Eq, Hash, Structural)]
pub enum VkExternalMemoryFeatureFlagBitsNV {
    VK_EXTERNAL_MEMORY_FEATURE_DEDICATED_ONLY_BIT_NV,
    VK_EXTERNAL_MEMORY_FEATURE_EXPORTABLE_BIT_NV,
    VK_EXTERNAL_MEMORY_FEATURE_IMPORTABLE_BIT_NV,
    VK_EXTERNAL_MEMORY_FEATURE_FLAG_BITS_MAX_ENUM_NV,
}

impl VkExternalMemoryFeatureFlagBitsNV {
    /// The numeric value that the Vulkan API gives this enumerant.
    pub open spec fn value(self) -> u32 {
        match self {
            VkExternalMemoryFeatureFlagBitsNV::VK_EXTERNAL_MEMORY_FEATURE_DEDICATED_ONLY_BIT_NV => 1,
            VkExternalMemoryFeatureFlagBitsNV::VK_EXTERNAL_MEMORY_FEATURE_EXPORTABLE_BIT_NV => 2,
            VkExternalMemoryFeatureFlagBitsNV::VK_EXTERNAL_MEMORY_FEATURE_IMPORTABLE_BIT_NV => 4,
            VkExternalMemoryFeatureFlagBitsNV::VK_EXTERNAL_MEMORY_FEATURE_FLAG_BITS_MAX_ENUM_NV => 2147483647,
        }
    }

    /// The enumerant whose Vulkan value is `raw`, if there is one.
    pub open spec fn from_value(raw: u32) -> Option<Self> {
        match raw {
            1 => Some(VkExternalMemoryFeatureFlagBitsNV::VK_EXTERNAL_MEMORY_FEATURE_DEDICATED_ONLY_BIT_NV),
            2 => Some(VkExternalMemoryFeatureFlagBitsNV::VK_EXTERNAL_MEMORY_FEATURE_EXPORTABLE_BIT_NV),
            4 => Some(VkExternalMemoryFeatureFlagBitsNV::VK_EXTERNAL_MEMORY_FEATURE_IMPORTABLE_BIT_NV),
            2147483647 => Some(VkExternalMemoryFeatureFlagBitsNV::VK_EXTERNAL_MEMORY_FEATURE_FLAG_BITS_MAX_ENUM_NV),
            _ => None,
        }
    }

    pub fn as_raw(self) -> (r: u32)
        ensures
            r == self.value(),
    {
        match self {
            VkExternalMemoryFeatureFlagBitsNV::VK_EXTERNAL_MEMORY_FEATURE_DEDICATED_ONLY_BIT_NV => 1,
            VkExternalMemoryFeatureFlagBitsNV::VK_EXTERNAL_MEMORY_FEATURE_EXPORTABLE_BIT_NV => 2,
            VkExternalMemoryFeatureFlagBitsNV::VK_EXTERNAL_MEMORY_FEATURE_IMPORTABLE_BIT_NV => 4,
            VkExternalMemoryFeatureFlagBitsNV::VK_EXTERNAL_MEMORY_FEATURE_FLAG_BITS_MAX_ENUM_NV => 2147483647,
        }
    }

    pub fn from_raw(raw: u32) -> (r: Option<Self>)
        ensures
            r == Self::from_value(raw),
    {
        match raw {
            1 => Some(VkExternalMemoryFeatureFlagBitsNV::VK_EXTERNAL_MEMORY_FEATURE_DEDICATED_ONLY_BIT_NV),
            2 => Some(VkExternalMemoryFeatureFlagBitsNV::VK_EXTERNAL_MEMORY_FEATURE_EXPORTABLE_BIT_NV),
            4 => Some(VkExternalMemoryFeatureFlagBitsNV::VK_EXTERNAL_MEMORY_FEATURE_IMPORTABLE_BIT_NV),
            2147483647 => Some(VkExternalMemoryFeatureFlagBitsNV::VK_EXTERNAL_MEMORY_FEATURE_FLAG_BITS_MAX_ENUM_NV),
            _ => None,
        }
    }

    /// Reading back the value of an enumerant gives the enumerant.
    pub proof fn lemma_value_roundtrip(self)
        ensures
            Self::from_value(self.value()) == Some(self),
    {
    }
}

#[derive(Clone, Copy, Debug, PartialEq, Eq, Hash, Structural)]
pub enum VkPeerMemoryFeatureFlagBitsKHX {
    VK_PEER_MEMORY_FEATURE_COPY_SRC_BIT_KHX,
    VK_PEER_MEMORY_FEATURE_COPY_DST_BIT_KHX,
    VK_PEER_MEMORY_FEATURE_GENERIC_SRC_BIT_KHX,
    VK_PEER_MEMORY_FEATURE_GENERIC_DST_BIT_KHX,
    VK_PEER_MEMORY_FEATURE_FLAG_BITS_MAX_ENUM_KHX,
}

impl VkPeerMemoryFeatureFlagBitsKHX {
    /// The numeric value that the Vulkan API gives this enumerant.
    pub open spec fn value(self) -> u32 {
        match self {
            VkPeerMemoryFeatureFlagBitsKHX::VK_PEER_MEMORY_FEATURE_COPY_SRC_BIT_KHX => 1,
            VkPeerMemoryFeatureFlagBitsKHX::VK_PEER_MEMORY_FEATURE_COPY_DST_BIT_KHX => 2,
            VkPeerMemoryFeatureFlagBitsKHX::VK_PEER_MEMORY_FEATURE_GENERIC_SRC_BIT_KHX => 4,
            VkPeerMemoryFeatureFlagBitsKHX::VK_PEER_MEMORY_FEATURE_GENERIC_DST_BIT_KHX => 8,
            VkPeerMemoryFeatureFlagBitsKHX::VK_PEER_MEMORY_FEATURE_FLAG_BITS_MAX_ENUM_KHX => 2147483647,
        }
    }

    /// The enumerant whose Vulkan value is `raw`, if there is one.
    pub open spec fn from_value(raw: u32) -> Option<Self> {
        match raw {
            1 => Some(VkPeerMemoryFeatureFlagBitsKHX::VK_PEER_MEMORY_FEATURE_COPY_SRC_BIT_KHX),
            2 => Some(VkPeerMemoryFeatureFlagBitsKHX::VK_PEER_MEMORY_FEATURE_COPY_DST_BIT_KHX),
            4 => Some(VkPeerMemoryFeatureFlagBitsKHX::VK_PEER_MEMORY_FEATURE_GENERIC_SRC_BIT_KHX),
            8 => Some(VkPeerMemoryFeatureFlagBitsKHX::VK_PEER_MEMORY_FEATURE_GENERIC_DST_BIT_KHX),
            2147483647 => Some(VkPeerMemoryFeatureFlagBitsKHX::VK_PEER_MEMORY_FEATURE_FLAG_BITS_MAX_ENUM_KHX),
            _ => None,
        }
    }

    pub fn as_raw(self) -> (r: u32)
        ensures
            r == self.value(),
    {
        match self {
            VkPeerMemoryFeatureFlagBitsKHX::VK_PEER_MEMORY_FEATURE_COPY_SRC_BIT_KHX => 1,
            VkPeerMemoryFeatureFlagBitsKHX::VK_PEER_MEMORY_FEATURE_COPY_DST_BIT_KHX => 2,
            VkPeerMemoryFeatureFlagBitsKHX::VK_PEER_MEMORY_FEATURE_GENERIC_SRC_BIT_KHX => 4,
            VkPeerMemoryFeatureFlagBitsKHX::VK_PEER_MEMORY_FEATURE_GENERIC_DST_BIT_KHX => 8,
            VkPeerMemoryFeatureFlagBitsKHX::VK_PEER_MEMORY_FEATURE_FLAG_BITS_MAX_ENUM_KHX => 2147483647,
        }
    }

    pub fn from_raw(raw: u32) -> (r: Option<Self>)
        ensures
            r == Self::from_value(raw),
    {
        match raw {
            1 => Some(VkPeerMemoryFeatureFlagBitsKHX::VK_PEER_MEMORY_FEATURE_COPY_SRC_BIT_KHX),
            2 => Some(VkPeerMemoryFeatureFlagBitsKHX::VK_PEER_MEMORY_FEATURE_COPY_DST_BIT_KHX),
            4 => Some(VkPeerMemoryFeatureFlagBitsKHX::VK_PEER_MEMORY_FEATURE_GENERIC_SRC_BIT_KHX),
            8 => Some(VkPeerMemoryFeatureFlagBitsKHX::VK_PEER_MEMORY_FEATURE_GENERIC_DST_BIT_KHX),
            2147483647 => Some(VkPeerMemoryFeatureFlagBitsKHX::VK_PEER_MEMORY_FEATURE_FLAG_BITS_MAX_ENUM_KHX),
            _ => None,
        }
    }

    /// Reading back the value of an enumerant gives the enumerant.
    pub proof fn lemma_value_roundtrip(self)
        ensures
            Self::from_value(self.value()) == Some(self),
    {
    }
}

#[derive(Clone, Copy, Debug, PartialEq, Eq, Hash, Structural)]
pub enum VkMemoryAllocateFlagBitsKHX {
    VK_MEMORY_ALLOCATE_DEVICE_MASK_BIT_KHX,
    VK_MEMORY_ALLOCATE_FLAG_BITS_MAX_ENUM_KHX,
}

impl VkMemoryAllocateFlagBitsKHX {
    /// The numeric value that the Vulkan API gives this enumerant.
    pub open spec fn value(self) -> u32 {
        match self {
            VkMemoryAllocateFlagBitsKHX::VK_MEMORY_ALLOCATE_DEVICE_MASK_BIT_KHX => 1,
            VkMemoryAllocateFlagBitsKHX::VK_MEMORY_ALLOCATE_FLAG_BITS_MAX_ENUM_KHX => 2147483647,
        }
    }

    /// The enumerant whose Vulkan value is `raw`, if there is one.
    pub open spec fn from_value(raw: u32) -> Option<Self> {
        match raw {
            1 => Some(VkMemoryAllocateFlagBitsKHX::VK_MEMORY_ALLOCATE_DEVICE_MASK_BIT_KHX),
            2147483647 => Some(VkMemoryAllocateFlagBitsKHX::VK_MEMORY_ALLOCATE_FLAG_BITS_MAX_ENUM_KHX),
            _ => None,
        }
    }

    pub fn as_raw(self) -> (r: u32)
        ensures
            r == self.value(),
    {
        match self {
            VkMemoryAllocateFlagBitsKHX::VK_MEMORY_ALLOCATE_DEVICE_MASK_BIT_KHX => 1,
            VkMemoryAllocateFlagBitsKHX::VK_MEMORY_ALLOCATE_FLAG_BITS_MAX_ENUM_KHX => 2147483647,
        }
    }

    pub fn from_raw(raw: u32) -> (r: Option<Self>)
        ensures
            r == Self::from_value(raw),
    {
        match raw {
            1 => Some(VkMemoryAllocateFlagBitsKHX::VK_MEMORY_ALLOCATE_DEVICE_MASK_BIT_KHX),
            2147483647 => Some(VkMemoryAllocateFlagBitsKHX::VK_MEMORY_ALLOCATE_FLAG_BITS_MAX_ENUM_KHX),
            _ => None,
        }
    }

    /// Reading back the value of an enumerant gives the enumerant.
    pub proof fn lemma_value_roundtrip(self)
        ensures
            Self::from_value(self.value()) == Some(self),
    {
    }
}

#[derive(Clone, Copy, Debug, PartialEq, Eq, Hash, Structural)]
pub enum VkDeviceGroupPresentModeFlagBitsKHX {
    VK_DEVICE_GROUP_PRESENT_MODE_LOCAL_BIT_KHX,
    VK_DEVICE_GROUP_PRESENT_MODE_REMOTE_BIT_KHX,
    VK_DEVICE_GROUP_PRESENT_MODE_SUM_BIT_KHX,
    VK_DEVICE_GROUP_PRESENT_MODE_LOCAL_MULTI_DEVICE_BIT_KHX,
    VK_DEVICE_GROUP_PRESENT_MODE_FLAG_BITS_MAX_ENUM_KHX,
}

impl VkDeviceGroupPresentModeFlagBitsKHX {
    /// The numeric value that the Vulkan API gives this enumerant.
    pub open spec fn value(self) -> u32 {
        match self {
            VkDeviceGroupPresentModeFlagBitsKHX::VK_DEVICE_GROUP_PRESENT_MODE_LOCAL_BIT_KHX => 1,
            VkDeviceGroupPresentModeFlagBitsKHX::VK_DEVICE_GROUP_PRESENT_MODE_REMOTE_BIT_KHX => 2,
            VkDeviceGroupPresentModeFlagBitsKHX::VK_DEVICE_GROUP_PRESENT_MODE_SUM_BIT_KHX => 4,
            VkDeviceGroupPresentModeFlagBitsKHX::VK_DEVICE_GROUP_PRESENT_MODE_LOCAL_MULTI_DEVICE_BIT_KHX => 8,
            VkDeviceGroupPresentModeFlagBitsKHX::VK_DEVICE_GROUP_PRESENT_MODE_FLAG_BITS_MAX_ENUM_KHX => 2147483647,
        }
    }

    /// The enumerant whose Vulkan value is `raw`, if there is one.
    pub open spec fn from_value(raw: u32) -> Option<Self> {
        match raw {
            1 => Some(VkDeviceGroupPresentModeFlagBitsKHX::VK_DEVICE_GROUP_PRESENT_MODE_LOCAL_BIT_KHX),
            2 => Some(VkDeviceGroupPresentModeFlagBitsKHX::VK_DEVICE_GROUP_PRESENT_MODE_REMOTE_BIT_KHX),
            4 => Some(VkDeviceGroupPresentModeFlagBitsKHX::VK_DEVICE_GROUP_PRESENT_MODE_SUM_BIT_KHX),
            8 => Some(VkDeviceGroupPresentModeFlagBitsKHX::VK_DEVICE_GROUP_PRESENT_MODE_LOCAL_MULTI_DEVICE_BIT_KHX),
            2147483647 => Some(VkDeviceGroupPresentModeFlagBitsKHX::VK_DEVICE_GROUP_PRESENT_MODE_FLAG_BITS_MAX_ENUM_KHX),
            _ => None,
        }
    }

    pub fn as_raw(self) -> (r: u32)
        ensures
            r == self.value(),
    {
        match self {
            VkDeviceGroupPresentModeFlagBitsKHX::VK_DEVICE_GROUP_PRESENT_MODE_LOCAL_BIT_KHX => 1,
            VkDeviceGroupPresentModeFlagBitsKHX::VK_DEVICE_GROUP_PRESENT_MODE_REMOTE_BIT_KHX => 2,
            VkDeviceGroupPresentModeFlagBitsKHX::VK_DEVICE_GROUP_PRESENT_MODE_SUM_BIT_KHX => 4,
            VkDeviceGroupPresentModeFlagBitsKHX::VK_DEVICE_GROUP_PRESENT_MODE_LOCAL_MULTI_DEVICE_BIT_KHX => 8,
            VkDeviceGroupPresentModeFlagBitsKHX::VK_DEVICE_GROUP_PRESENT_MODE_FLAG_BITS_MAX_ENUM_KHX => 2147483647,
        }
    }

    pub fn from_raw(raw: u32) -> (r: Option<Self>)
        ensures
            r == Self::from_value(raw),
    {
        match raw {
            1 => Some(VkDeviceGroupPresentModeFlagBitsKHX::VK_DEVICE_GROUP_PRESENT_MODE_LOCAL_BIT_KHX),
            2 => Some(VkDeviceGroupPresentModeFlagBitsKHX::VK_DEVICE_GROUP_PRESENT_MODE_REMOTE_BIT_KHX),
            4 => Some(VkDeviceGroupPresentModeFlagBitsKHX::VK_DEVICE_GROUP_PRESENT_MODE_SUM_BIT_KHX),
            8 => Some(VkDeviceGroupPresentModeFlagBitsKHX::VK_DEVICE_GROUP_PRESENT_MODE_LOCAL_MULTI_DEVICE_BIT_KHX),
            2147483647 => Some(VkDeviceGroupPresentModeFlagBitsKHX::VK_DEVICE_GROUP_PRESENT_MODE_FLAG_BITS_MAX_ENUM_KHX),
            _ => None,
        }
    }

    /// Reading back the value of an enumerant gives the enumerant.
    pub proof fn lemma_value_roundtrip(self)
        ensures
            Self::from_value(self.value()) == Some(self),
    {
    }
}

#[derive(Clone, Copy, Debug, PartialEq, Eq, Hash, Structural)]
pub enum VkValidationCheckEXT {
    VK_VALIDATION_CHECK_ALL_EXT,
    VK_VALIDATION_CHECK_RANGE_SIZE_EXT,
    VK_VALIDATION_CHECK_MAX_ENUM_EXT,
}

impl VkValidationCheckEXT {
    /// The numeric value that the Vulkan API gives this enumerant.
    pub open spec fn value(self) -> u32 {
        match self {
            VkValidationCheckEXT::VK_VALIDATION_CHECK_ALL_EXT => 0,
            VkValidationCheckEXT::VK_VALIDATION_CHECK_RANGE_SIZE_EXT => 1,
            VkValidationCheckEXT::VK_VALIDATION_CHECK_MAX_ENUM_EXT => 2147483647,
        }
    }

    /// The enumerant whose Vulkan value is `raw`, if there is one.
    pub open spec fn from_value(raw: u32) -> Option<Self> {
        match raw {
            0 => Some(VkValidationCheckEXT::VK_VALIDATION_CHECK_ALL_EXT),
            1 => Some(VkValidationCheckEXT::VK_VALIDATION_CHECK_RANGE_SIZE_EXT),
            2147483647 => Some(VkValidationCheckEXT::VK_VALIDATION_CHECK_MAX_ENUM_EXT),
            _ => None,
        }
    }

    pub fn as_raw(self) -> (r: u32)
        ensures
            r == self.value(),
    {
        match self {
            VkValidationCheckEXT::VK_VALIDATION_CHECK_ALL_EXT => 0,
            VkValidationCheckEXT::VK_VALIDATION_CHECK_RANGE_SIZE_EXT => 1,
            VkValidationCheckEXT::VK_VALIDATION_CHECK_MAX_ENUM_EXT => 2147483647,
        }
    }

    pub fn from_raw(raw: u32) -> (r: Option<Self>)
        ensures
            r == Self::from_value(raw),
    {
        match raw {
            0 => Some(VkValidationCheckEXT::VK_VALIDATION_CHECK_ALL_EXT),
            1 => Some(VkValidationCheckEXT::VK_VALIDATION_CHECK_RANGE_SIZE_EXT),
            2147483647 => Some(VkValidationCheckEXT::VK_VALIDATION_CHECK_MAX_ENUM_EXT),
            _ => None,
        }
    }

    /// Reading back the value of an enumerant gives the enumerant.
    pub proof fn lemma_value_roundtrip(self)
        ensures
            Self::from_value(self.value()) == Some(self),
    {
    }
}

#[derive(Clone, Copy, Debug, PartialEq, Eq, Hash, Structural)]
pub enum VkExternalMemoryHandleTypeFlagBitsKHX {
    VK_EXTERNAL_MEMORY_HANDLE_TYPE_OPAQUE_FD_BIT_KHX,
    VK_EXTERNAL_MEMORY_HANDLE_TYPE_OPAQUE_WIN32_BIT_KHX,
    VK_EXTERNAL_MEMORY_HANDLE_TYPE_OPAQUE_WIN32_KMT_BIT_KHX,
    VK_EXTERNAL_MEMORY_HANDLE_TYPE_D3D11_TEXTURE_BIT_KHX,
    VK_EXTERNAL_MEMORY_HANDLE_TYPE_D3D11_TEXTURE_KMT_BIT_KHX,
    VK_EXTERNAL_MEMORY_HANDLE_TYPE_D3D12_HEAP_BIT_KHX,
    VK_EXTERNAL_MEMORY_HANDLE_TYPE_D3D12_RESOURCE_BIT_KHX,
    VK_EXTERNAL_MEMORY_HANDLE_TYPE_FLAG_BITS_MAX_ENUM_KHX,
}

impl VkExternalMemoryHandleTypeFlagBitsKHX {
    /// The numeric value that the Vulkan API gives this enumerant.
    pub open spec fn value(self) -> u32 {
        match self {
            VkExternalMemoryHandleTypeFlagBitsKHX::VK_EXTERNAL_MEMORY_HANDLE_TYPE_OPAQUE_FD_BIT_KHX => 1,
            VkExternalMemoryHandleTypeFlagBitsKHX::VK_EXTERNAL_MEMORY_HANDLE_TYPE_OPAQUE_WIN32_BIT_KHX => 2,
            VkExternalMemoryHandleTypeFlagBitsKHX::VK_EXTERNAL_MEMORY_HANDLE_TYPE_OPAQUE_WIN32_KMT_BIT_KHX => 4,
            VkExternalMemoryHandleTypeFlagBitsKHX::VK_EXTERNAL_MEMORY_HANDLE_TYPE_D3D11_TEXTURE_BIT_KHX => 8,
            VkExternalMemoryHandleTypeFlagBitsKHX::VK_EXTERNAL_MEMORY_HANDLE_TYPE_D3D11_TEXTURE_KMT_BIT_KHX => 16,
            VkExternalMemoryHandleTypeFlagBitsKHX::VK_EXTERNAL_MEMORY_HANDLE_TYPE_D3D12_HEAP_BIT_KHX => 32,
            VkExternalMemoryHandleTypeFlagBitsKHX::VK_EXTERNAL_MEMORY_HANDLE_TYPE_D3D12_RESOURCE_BIT_KHX => 64,
            VkExternalMemoryHandleTypeFlagBitsKHX::VK_EXTERNAL_MEMORY_HANDLE_TYPE_FLAG_BITS_MAX_ENUM_KHX => 2147483647,
        }
    }

    /// The enumerant whose Vulkan value is `raw`, if there is one.
    pub open spec fn from_value(raw: u32) -> Option<Self> {
        match raw {
            1 => Some(VkExternalMemoryHandleTypeFlagBitsKHX::VK_EXTERNAL_MEMORY_HANDLE_TYPE_OPAQUE_FD_BIT_KHX),
            2 => Some(VkExternalMemoryHandleTypeFlagBitsKHX::VK_EXTERNAL_MEMORY_HANDLE_TYPE_OPAQUE_WIN32_BIT_KHX),
            4 => Some(VkExternalMemoryHandleTypeFlagBitsKHX::VK_EXTERNAL_MEMORY_HANDLE_TYPE_OPAQUE_WIN32_KMT_BIT_KHX),
            8 => Some(VkExternalMemoryHandleTypeFlagBitsKHX::VK_EXTERNAL_MEMORY_HANDLE_TYPE_D3D11_TEXTURE_BIT_KHX),
            16 => Some(VkExternalMemoryHandleTypeFlagBitsKHX::VK_EXTERNAL_MEMORY_HANDLE_TYPE_D3D11_TEXTURE_KMT_BIT_KHX),
            32 => Some(VkExternalMemoryHandleTypeFlagBitsKHX::VK_EXTERNAL_MEMORY_HANDLE_TYPE_D3D12_HEAP_BIT_KHX),
            64 => Some(VkExternalMemoryHandleTypeFlagBitsKHX::VK_EXTERNAL_MEMORY_HANDLE_TYPE_D3D12_RESOURCE_BIT_KHX),
            2147483647 => Some(VkExternalMemoryHandleTypeFlagBitsKHX::VK_EXTERNAL_MEMORY_HANDLE_TYPE_FLAG_BITS_MAX_ENUM_KHX),
            _ => None,
        }
    }

    pub fn as_raw(self) -> (r: u32)
        ensures
            r == self.value(),
    {
        match self {
            VkExternalMemoryHandleTypeFlagBitsKHX::VK_EXTERNAL_MEMORY_HANDLE_TYPE_OPAQUE_FD_BIT_KHX => 1,
            VkExternalMemoryHandleTypeFlagBitsKHX::VK_EXTERNAL_MEMORY_HANDLE_TYPE_OPAQUE_WIN32_BIT_KHX => 2,
            VkExternalMemoryHandleTypeFlagBitsKHX::VK_EXTERNAL_MEMORY_HANDLE_TYPE_OPAQUE_WIN32_KMT_BIT_KHX => 4,
            VkExternalMemoryHandleTypeFlagBitsKHX::VK_EXTERNAL_MEMORY_HANDLE_TYPE_D3D11_TEXTURE_BIT_KHX => 8,
            VkExternalMemoryHandleTypeFlagBitsKHX::VK_EXTERNAL_MEMORY_HANDLE_TYPE_D3D11_TEXTURE_KMT_BIT_KHX => 16,
            VkExternalMemoryHandleTypeFlagBitsKHX::VK_EXTERNAL_MEMORY_HANDLE_TYPE_D3D12_HEAP_BIT_KHX => 32,
            VkExternalMemoryHandleTypeFlagBitsKHX::VK_EXTERNAL_MEMORY_HANDLE_TYPE_D3D12_RESOURCE_BIT_KHX => 64,
            VkExternalMemoryHandleTypeFlagBitsKHX::VK_EXTERNAL_MEMORY_HANDLE_TYPE_FLAG_BITS_MAX_ENUM_KHX => 2147483647,
        }
    }

    pub fn from_raw(raw: u32) -> (r: Option<Self>)
        ensures
            r == Self::from_value(raw),
    {
        match raw {
            1 => Some(VkExternalMemoryHandleTypeFlagBitsKHX::VK_EXTERNAL_MEMORY_HANDLE_TYPE_OPAQUE_FD_BIT_KHX),
            2 => Some(VkExternalMemoryHandleTypeFlagBitsKHX::VK_EXTERNAL_MEMORY_HANDLE_TYPE_OPAQUE_WIN32_BIT_KHX),
            4 => Some(VkExternalMemoryHandleTypeFlagBitsKHX::VK_EXTERNAL_MEMORY_HANDLE_TYPE_OPAQUE_WIN32_KMT_BIT_KHX),
            8 => Some(VkExternalMemoryHandleTypeFlagBitsKHX::VK_EXTERNAL_MEMORY_HANDLE_TYPE_D3D11_TEXTURE_BIT_KHX),
            16 => Some(VkExternalMemoryHandleTypeFlagBitsKHX::VK_EXTERNAL_MEMORY_HANDLE_TYPE_D3D11_TEXTURE_KMT_BIT_KHX),
            32 => Some(VkExternalMemoryHandleTypeFlagBitsKHX::VK_EXTERNAL_MEMORY_HANDLE_TYPE_D3D12_HEAP_BIT_KHX),
            64 => Some(VkExternalMemoryHandleTypeFlagBitsKHX::VK_EXTERNAL_MEMORY_HANDLE_TYPE_D3D12_RESOURCE_BIT_KHX),
            2147483647 => Some(VkExternalMemoryHandleTypeFlagBitsKHX::VK_EXTERNAL_MEMORY_HANDLE_TYPE_FLAG_BITS_MAX_ENUM_KHX),
            _ => None,
        }
    }

    /// Reading back the value of an enumerant gives the enumerant.
    pub proof fn lemma_value_roundtrip(self)
        ensures
            Self::from_value(self.value()) == Some(self),
    {
    }
}

#[derive(Clone, Copy, Debug, PartialEq, Eq, Hash, Structural)]
pub enum VkExternalMemoryFeatureFlagBitsKHX {
    VK_EXTERNAL_MEMORY_FEATURE_DEDICATED_ONLY_BIT_KHX,
    VK_EXTERNAL_MEMORY_FEATURE_EXPORTABLE_BIT_KHX,
    VK_EXTERNAL_MEMORY_FEATURE_IMPORTABLE_BIT_KHX,
    VK_EXTERNAL_MEMORY_FEATURE_FLAG_BITS_MAX_ENUM_KHX,
}

impl VkExternalMemoryFeatureFlagBitsKHX {
    /// The numeric value that the Vulkan API gives this enumerant.
    pub open spec fn value(self) -> u32 {
        match self {
            VkExternalMemoryFeatureFlagBitsKHX::VK_EXTERNAL_MEMORY_FEATURE_DEDICATED_ONLY_BIT_KHX => 1,
            VkExternalMemoryFeatureFlagBitsKHX::VK_EXTERNAL_MEMORY_FEATURE_EXPORTABLE_BIT_KHX => 2,
            VkExternalMemoryFeatureFlagBitsKHX::VK_EXTERNAL_MEMORY_FEATURE_IMPORTABLE_BIT_KHX => 4,
            VkExternalMemoryFeatureFlagBitsKHX::VK_EXTERNAL_MEMORY_FEATURE_FLAG_BITS_MAX_ENUM_KHX => 2147483647,
        }
    }

    /// The enumerant whose Vulkan value is `raw`, if there is one.
    pub open spec fn from_value(raw: u32) -> Option<Self> {
        match raw {
            1 => Some(VkExternalMemoryFeatureFlagBitsKHX::VK_EXTERNAL_MEMORY_FEATURE_DEDICATED_ONLY_BIT_KHX),
            2 => Some(VkExternalMemoryFeatureFlagBitsKHX::VK_EXTERNAL_MEMORY_FEATURE_EXPORTABLE_BIT_KHX),
            4 => Some(VkExternalMemoryFeatureFlagBitsKHX::VK_EXTERNAL_MEMORY_FEATURE_IMPORTABLE_BIT_KHX),
            2147483647 => Some(VkExternalMemoryFeatureFlagBitsKHX::VK_EXTERNAL_MEMORY_FEATURE_FLAG_BITS_MAX_ENUM_KHX),
            _ => None,
        }
    }

    pub fn as_raw(self) -> (r: u32)
        ensures
            r == self.value(),
    {
        match self {
            VkExternalMemoryFeatureFlagBitsKHX::VK_EXTERNAL_MEMORY_FEATURE_DEDICATED_ONLY_BIT_KHX => 1,
            VkExternalMemoryFeatureFlagBitsKHX::VK_EXTERNAL_MEMORY_FEATURE_EXPORTABLE_BIT_KHX => 2,
            VkExternalMemoryFeatureFlagBitsKHX::VK_EXTERNAL_MEMORY_FEATURE_IMPORTABLE_BIT_KHX => 4,
            VkExternalMemoryFeatureFlagBitsKHX::VK_EXTERNAL_MEMORY_FEATURE_FLAG_BITS_MAX_ENUM_KHX => 2147483647,
        }
    }

    pub fn from_raw(raw: u32) -> (r: Option<Self>)
        ensures
            r == Self::from_value(raw),
    {
        match raw {
            1 => Some(VkExternalMemoryFeatureFlagBitsKHX::VK_EXTERNAL_MEMORY_FEATURE_DEDICATED_ONLY_BIT_KHX),
            2 => Some(VkExternalMemoryFeatureFlagBitsKHX::VK_EXTERNAL_MEMORY_FEATURE_EXPORTABLE_BIT_KHX),
            4 => Some(VkExternalMemoryFeatureFlagBitsKHX::VK_EXTERNAL_MEMORY_FEATURE_IMPORTABLE_BIT_KHX),
            2147483647 => Some(VkExternalMemoryFeatureFlagBitsKHX::VK_EXTERNAL_MEMORY_FEATURE_FLAG_BITS_MAX_ENUM_KHX),
            _ => None,
        }
    }

    /// Reading back the value of an enumerant gives the enumerant.
    pub proof fn lemma_value_roundtrip(self)
        ensures
            Self::from_value(self.value()) == Some(self),
    {
    }
}

#[derive(Clone, Copy, Debug, PartialEq, Eq, Hash, Structural)]
pub enum VkExternalSemaphoreHandleTypeFlagBitsKHX {
    VK_EXTERNAL_SEMAPHORE_HANDLE_TYPE_OPAQUE_FD_BIT_KHX,
    VK_EXTERNAL_SEMAPHORE_HANDLE_TYPE_OPAQUE_WIN32_BIT_KHX,
    VK_EXTERNAL_SEMAPHORE_HANDLE_TYPE_OPAQUE_WIN32_KMT_BIT_KHX,
    VK_EXTERNAL_SEMAPHORE_HANDLE_TYPE_D3D12_FENCE_BIT_KHX,
    VK_EXTERNAL_SEMAPHORE_HANDLE_TYPE_FENCE_FD_BIT_KHX,
    VK_EXTERNAL_SEMAPHORE_HANDLE_TYPE_FLAG_BITS_MAX_ENUM_KHX,
}

impl VkExternalSemaphoreHandleTypeFlagBitsKHX {
    /// The numeric value that the Vulkan API gives this enumerant.
    pub open spec fn value(self) -> u32 {
        match self {
            VkExternalSemaphoreHandleTypeFlagBitsKHX::VK_EXTERNAL_SEMAPHORE_HANDLE_TYPE_OPAQUE_FD_BIT_KHX => 1,
            VkExternalSemaphoreHandleTypeFlagBitsKHX::VK_EXTERNAL_SEMAPHORE_HANDLE_TYPE_OPAQUE_WIN32_BIT_KHX => 2,
            VkExternalSemaphoreHandleTypeFlagBitsKHX::VK_EXTERNAL_SEMAPHORE_HANDLE_TYPE_OPAQUE_WIN32_KMT_BIT_KHX => 4,
            VkExternalSemaphoreHandleTypeFlagBitsKHX::VK_EXTERNAL_SEMAPHORE_HANDLE_TYPE_D3D12_FENCE_BIT_KHX => 8,
            VkExternalSemaphoreHandleTypeFlagBitsKHX::VK_EXTERNAL_SEMAPHORE_HANDLE_TYPE_FENCE_FD_BIT_KHX => 16,
            VkExternalSemaphoreHandleTypeFlagBitsKHX::VK_EXTERNAL_SEMAPHORE_HANDLE_TYPE_FLAG_BITS_MAX_ENUM_KHX => 2147483647,
        }
    }

    /// The enumerant whose Vulkan value is `raw`, if there is one.
    pub open spec fn from_value(raw: u32) -> Option<Self> {
        match raw {
            1 => Some(VkExternalSemaphoreHandleTypeFlagBitsKHX::VK_EXTERNAL_SEMAPHORE_HANDLE_TYPE_OPAQUE_FD_BIT_KHX),
            2 => Some(VkExternalSemaphoreHandleTypeFlagBitsKHX::VK_EXTERNAL_SEMAPHORE_HANDLE_TYPE_OPAQUE_WIN32_BIT_KHX),
            4 => Some(VkExternalSemaphoreHandleTypeFlagBitsKHX::VK_EXTERNAL_SEMAPHORE_HANDLE_TYPE_OPAQUE_WIN32_KMT_BIT_KHX),
            8 => Some(VkExternalSemaphoreHandleTypeFlagBitsKHX::VK_EXTERNAL_SEMAPHORE_HANDLE_TYPE_D3D12_FENCE_BIT_KHX),
            16 => Some(VkExternalSemaphoreHandleTypeFlagBitsKHX::VK_EXTERNAL_SEMAPHORE_HANDLE_TYPE_FENCE_FD_BIT_KHX),
            2147483647 => Some(VkExternalSemaphoreHandleTypeFlagBitsKHX::VK_EXTERNAL_SEMAPHORE_HANDLE_TYPE_FLAG_BITS_MAX_ENUM_KHX),
            _ => None,
        }
    }

    pub fn as_raw(self) -> (r: u32)
        ensures
            r == self.value(),
    {
        match self {
            VkExternalSemaphoreHandleTypeFlagBitsKHX::VK_EXTERNAL_SEMAPHORE_HANDLE_TYPE_OPAQUE_FD_BIT_KHX => 1,
            VkExternalSemaphoreHandleTypeFlagBitsKHX::VK_EXTERNAL_SEMAPHORE_HANDLE_TYPE_OPAQUE_WIN32_BIT_KHX => 2,
            VkExternalSemaphoreHandleTypeFlagBitsKHX::VK_EXTERNAL_SEMAPHORE_HANDLE_TYPE_OPAQUE_WIN32_KMT_BIT_KHX => 4,
            VkExternalSemaphoreHandleTypeFlagBitsKHX::VK_EXTERNAL_SEMAPHORE_HANDLE_TYPE_D3D12_FENCE_BIT_KHX => 8,
            VkExternalSemaphoreHandleTypeFlagBitsKHX::VK_EXTERNAL_SEMAPHORE_HANDLE_TYPE_FENCE_FD_BIT_KHX => 16,
            VkExternalSemaphoreHandleTypeFlagBitsKHX::VK_EXTERNAL_SEMAPHORE_HANDLE_TYPE_FLAG_BITS_MAX_ENUM_KHX => 2147483647,
        }
    }

    pub fn from_raw(raw: u32) -> (r: Option<Self>)
        ensures
            r == Self::from_value(raw),
    {
        match raw {
            1 => Some(VkExternalSemaphoreHandleTypeFlagBitsKHX::VK_EXTERNAL_SEMAPHORE_HANDLE_TYPE_OPAQUE_FD_BIT_KHX),
            2 => Some(VkExternalSemaphoreHandleTypeFlagBitsKHX::VK_EXTERNAL_SEMAPHORE_HANDLE_TYPE_OPAQUE_WIN32_BIT_KHX),
            4 => Some(VkExternalSemaphoreHandleTypeFlagBitsKHX::VK_EXTERNAL_SEMAPHORE_HANDLE_TYPE_OPAQUE_WIN32_KMT_BIT_KHX),
            8 => Some(VkExternalSemaphoreHandleTypeFlagBitsKHX::VK_EXTERNAL_SEMAPHORE_HANDLE_TYPE_D3D12_FENCE_BIT_KHX),
            16 => Some(VkExternalSemaphoreHandleTypeFlagBitsKHX::VK_EXTERNAL_SEMAPHORE_HANDLE_TYPE_FENCE_FD_BIT_KHX),
            2147483647 => Some(VkExternalSemaphoreHandleTypeFlagBitsKHX::VK_EXTERNAL_SEMAPHORE_HANDLE_TYPE_FLAG_BITS_MAX_ENUM_KHX),
            _ => None,
        }
    }

    /// Reading back the value of an enumerant gives the enumerant.
    pub proof fn lemma_value_roundtrip(self)
        ensures
            Self::from_value(self.value()) == Some(self),
    {
    }
}

#[derive(Clone, Copy, Debug, PartialEq, Eq, Hash, Structural)]
pub enum VkExternalSemaphoreFeatureFlagBitsKHX {
    VK_EXTERNAL_SEMAPHORE_FEATURE_EXPORTABLE_BIT_KHX,
    VK_EXTERNAL_SEMAPHORE_FEATURE_IMPORTABLE_BIT_KHX,
    VK_EXTERNAL_SEMAPHORE_FEATURE_FLAG_BITS_MAX_ENUM_KHX,
}

impl VkExternalSemaphoreFeatureFlagBitsKHX {
    /// The numeric value that the Vulkan API gives this enumerant.
    pub open spec fn value(self) -> u32 {
        match self {
            VkExternalSemaphoreFeatureFlagBitsKHX::VK_EXTERNAL_SEMAPHORE_FEATURE_EXPORTABLE_BIT_KHX => 1,
            VkExternalSemaphoreFeatureFlagBitsKHX::VK_EXTERNAL_SEMAPHORE_FEATURE_IMPORTABLE_BIT_KHX => 2,
            VkExternalSemaphoreFeatureFlagBitsKHX::VK_EXTERNAL_SEMAPHORE_FEATURE_FLAG_BITS_MAX_ENUM_KHX => 2147483647,
        }
    }

    /// The enumerant whose Vulkan value is `raw`, if there is one.
    pub open spec fn from_value(raw: u32) -> Option<Self> {
        match raw {
            1 => Some(VkExternalSemaphoreFeatureFlagBitsKHX::VK_EXTERNAL_SEMAPHORE_FEATURE_EXPORTABLE_BIT_KHX),
            2 => Some(VkExternalSemaphoreFeatureFlagBitsKHX::VK_EXTERNAL_SEMAPHORE_FEATURE_IMPORTABLE_BIT_KHX),
            2147483647 => Some(VkExternalSemaphoreFeatureFlagBitsKHX::VK_EXTERNAL_SEMAPHORE_FEATURE_FLAG_BITS_MAX_ENUM_KHX),
            _ => None,
        }
    }

    pub fn as_raw(self) -> (r: u32)
        ensures
            r == self.value(),
    {
        match self {
            VkExternalSemaphoreFeatureFlagBitsKHX::VK_EXTERNAL_SEMAPHORE_FEATURE_EXPORTABLE_BIT_KHX => 1,
            VkExternalSemaphoreFeatureFlagBitsKHX::VK_EXTERNAL_SEMAPHORE_FEATURE_IMPORTABLE_BIT_KHX => 2,
            VkExternalSemaphoreFeatureFlagBitsKHX::VK_EXTERNAL_SEMAPHORE_FEATURE_FLAG_BITS_MAX_ENUM_KHX => 2147483647,
        }
    }

    pub fn from_raw(raw: u32) -> (r: Option<Self>)
        ensures
            r == Self::from_value(raw),
    {
        match raw {
            1 => Some(VkExternalSemaphoreFeatureFlagBitsKHX::VK_EXTERNAL_SEMAPHORE_FEATURE_EXPORTABLE_BIT_KHX),
            2 => Some(VkExternalSemaphoreFeatureFlagBitsKHX::VK_EXTERNAL_SEMAPHORE_FEATURE_IMPORTABLE_BIT_KHX),
            2147483647 => Some(VkExternalSemaphoreFeatureFlagBitsKHX::VK_EXTERNAL_SEMAPHORE_FEATURE_FLAG_BITS_MAX_ENUM_KHX),
            _ => None,
        }
    }

    /// Reading back the value of an enumerant gives the enumerant.
    pub proof fn lemma_value_roundtrip(self)
        ensures
            Self::from_value(self.value()) == Some(self),
    {
    }
}

#[derive(Clone, Copy, Debug, PartialEq, Eq, Hash, Structural)]
pub enum VkIndirectCommandsTokenTypeNVX {
    VK_INDIRECT_COMMANDS_TOKEN_PIPELINE_NVX,
    VK_INDIRECT_COMMANDS_TOKEN_DESCRIPTOR_SET_NVX,
    VK_INDIRECT_COMMANDS_TOKEN_INDEX_BUFFER_NVX,
    VK_INDIRECT_COMMANDS_TOKEN_VERTEX_BUFFER_NVX,
    VK_INDIRECT_COMMANDS_TOKEN_PUSH_CONSTANT_NVX,
    VK_INDIRECT_COMMANDS_TOKEN_DRAW_INDEXED_NVX,
    VK_INDIRECT_COMMANDS_TOKEN_DRAW_NVX,
    VK_INDIRECT_COMMANDS_TOKEN_DISPATCH_NVX,
    VK_INDIRECT_COMMANDS_TOKEN_TYPE_RANGE_SIZE_NVX,
    VK_INDIRECT_COMMANDS_TOKEN_TYPE_MAX_ENUM_NVX,
}

impl VkIndirectCommandsTokenTypeNVX {
    /// The numeric value that the Vulkan API gives this enumerant.
    pub open spec fn value(self) -> u32 {
        match self {
            VkIndirectCommandsTokenTypeNVX::VK_INDIRECT_COMMANDS_TOKEN_PIPELINE_NVX => 0,
            VkIndirectCommandsTokenTypeNVX::VK_INDIRECT_COMMANDS_TOKEN_DESCRIPTOR_SET_NVX => 1,
            VkIndirectCommandsTokenTypeNVX::VK_INDIRECT_COMMANDS_TOKEN_INDEX_BUFFER_NVX => 2,
            VkIndirectCommandsTokenTypeNVX::VK_INDIRECT_COMMANDS_TOKEN_VERTEX_BUFFER_NVX => 3,
            VkIndirectCommandsTokenTypeNVX::VK_INDIRECT_COMMANDS_TOKEN_PUSH_CONSTANT_NVX => 4,
            VkIndirectCommandsTokenTypeNVX::VK_INDIRECT_COMMANDS_TOKEN_DRAW_INDEXED_NVX => 5,
            VkIndirectCommandsTokenTypeNVX::VK_INDIRECT_COMMANDS_TOKEN_DRAW_NVX => 6,
            VkIndirectCommandsTokenTypeNVX::VK_INDIRECT_COMMANDS_TOKEN_DISPATCH_NVX => 7,
            VkIndirectCommandsTokenTypeNVX::VK_INDIRECT_COMMANDS_TOKEN_TYPE_RANGE_SIZE_NVX => 8,
            VkIndirectCommandsTokenTypeNVX::VK_INDIRECT_COMMANDS_TOKEN_TYPE_MAX_ENUM_NVX => 2147483647,
        }
    }

    /// The enumerant whose Vulkan value is `raw`, if there is one.
    pub open spec fn from_value(raw: u32) -> Option<Self> {
        match raw {
            0 => Some(VkIndirectCommandsTokenTypeNVX::VK_INDIRECT_COMMANDS_TOKEN_PIPELINE_NVX),
            1 => Some(VkIndirectCommandsTokenTypeNVX::VK_INDIRECT_COMMANDS_TOKEN_DESCRIPTOR_SET_NVX),
            2 => Some(VkIndirectCommandsTokenTypeNVX::VK_INDIRECT_COMMANDS_TOKEN_INDEX_BUFFER_NVX),
            3 => Some(VkIndirectCommandsTokenTypeNVX::VK_INDIRECT_COMMANDS_TOKEN_VERTEX_BUFFER_NVX),
            4 => Some(VkIndirectCommandsTokenTypeNVX::VK_INDIRECT_COMMANDS_TOKEN_PUSH_CONSTANT_NVX),
            5 => Some(VkIndirectCommandsTokenTypeNVX::VK_INDIRECT_COMMANDS_TOKEN_DRAW_INDEXED_NVX),
            6 => Some(VkIndirectCommandsTokenTypeNVX::VK_INDIRECT_COMMANDS_TOKEN_DRAW_NVX),
            7 => Some(VkIndirectCommandsTokenTypeNVX::VK_INDIRECT_COMMANDS_TOKEN_DISPATCH_NVX),
            8 => Some(VkIndirectCommandsTokenTypeNVX::VK_INDIRECT_COMMANDS_TOKEN_TYPE_RANGE_SIZE_NVX),
            2147483647 => Some(VkIndirectCommandsTokenTypeNVX::VK_INDIRECT_COMMANDS_TOKEN_TYPE_MAX_ENUM_NVX),
            _ => None,
        }
    }

    pub fn as_raw(self) -> (r: u32)
        ensures
            r == self.value(),
    {
        match self {
            VkIndirectCommandsTokenTypeNVX::VK_INDIRECT_COMMANDS_TOKEN_PIPELINE_NVX => 0,
            VkIndirectCommandsTokenTypeNVX::VK_INDIRECT_COMMANDS_TOKEN_DESCRIPTOR_SET_NVX => 1,
            VkIndirectCommandsTokenTypeNVX::VK_INDIRECT_COMMANDS_TOKEN_INDEX_BUFFER_NVX => 2,
            VkIndirectCommandsTokenTypeNVX::VK_INDIRECT_COMMANDS_TOKEN_VERTEX_BUFFER_NVX => 3,
            VkIndirectCommandsTokenTypeNVX::VK_INDIRECT_COMMANDS_TOKEN_PUSH_CONSTANT_NVX => 4,
            VkIndirectCommandsTokenTypeNVX::VK_INDIRECT_COMMANDS_TOKEN_DRAW_INDEXED_NVX => 5,
            VkIndirectCommandsTokenTypeNVX::VK_INDIRECT_COMMANDS_TOKEN_DRAW_NVX => 6,
            VkIndirectCommandsTokenTypeNVX::VK_INDIRECT_COMMANDS_TOKEN_DISPATCH_NVX => 7,
            VkIndirectCommandsTokenTypeNVX::VK_INDIRECT_COMMANDS_TOKEN_TYPE_RANGE_SIZE_NVX => 8,
            VkIndirectCommandsTokenTypeNVX::VK_INDIRECT_COMMANDS_TOKEN_TYPE_MAX_ENUM_NVX => 2147483647,
        }
    }

    pub fn from_raw(raw: u32) -> (r: Option<Self>)
        ensures
            r == Self::from_value(raw),
    {
        match raw {
            0 => Some(VkIndirectCommandsTokenTypeNVX::VK_INDIRECT_COMMANDS_TOKEN_PIPELINE_NVX),
            1 => Some(VkIndirectCommandsTokenTypeNVX::VK_INDIRECT_COMMANDS_TOKEN_DESCRIPTOR_SET_NVX),
            2 => Some(VkIndirectCommandsTokenTypeNVX::VK_INDIRECT_COMMANDS_TOKEN_INDEX_BUFFER_NVX),
            3 => Some(VkIndirectCommandsTokenTypeNVX::VK_INDIRECT_COMMANDS_TOKEN_VERTEX_BUFFER_NVX),
            4 => Some(VkIndirectCommandsTokenTypeNVX::VK_INDIRECT_COMMANDS_TOKEN_PUSH_CONSTANT_NVX),
            5 => Some(VkIndirectCommandsTokenTypeNVX::VK_INDIRECT_COMMANDS_TOKEN_DRAW_INDEXED_NVX),
            6 => Some(VkIndirectCommandsTokenTypeNVX::VK_INDIRECT_COMMANDS_TOKEN_DRAW_NVX),
            7 => Some(VkIndirectCommandsTokenTypeNVX::VK_INDIRECT_COMMANDS_TOKEN_DISPATCH_NVX),
            8 => Some(VkIndirectCommandsTokenTypeNVX::VK_INDIRECT_COMMANDS_TOKEN_TYPE_RANGE_SIZE_NVX),
            2147483647 => Some(VkIndirectCommandsTokenTypeNVX::VK_INDIRECT_COMMANDS_TOKEN_TYPE_MAX_ENUM_NVX),
            _ => None,
        }
    }

    /// Reading back the value of an enumerant gives the enumerant.
    pub proof fn lemma_value_roundtrip(self)
        ensures
            Self::from_value(self.value()) == Some(self),
    {
    }
}

#[derive(Clone, Copy, Debug, PartialEq, Eq, Hash, Structural)]
pub enum VkObjectEntryTypeNVX {
    VK_OBJECT_ENTRY_DESCRIPTOR_SET_NVX,
    VK_OBJECT_ENTRY_PIPELINE_NVX,
    VK_OBJECT_ENTRY_INDEX_BUFFER_NVX,
    VK_OBJECT_ENTRY_VERTEX_BUFFER_NVX,
    VK_OBJECT_ENTRY_PUSH_CONSTANT_NVX,
    VK_OBJECT_ENTRY_TYPE_RANGE_SIZE_NVX,
    VK_OBJECT_ENTRY_TYPE_MAX_ENUM_NVX,
}

impl VkObjectEntryTypeNVX {
    /// The numeric value that the Vulkan API gives this enumerant.
    pub open spec fn value(self) -> u32 {
        match self {
            VkObjectEntryTypeNVX::VK_OBJECT_ENTRY_DESCRIPTOR_SET_NVX => 0,
            VkObjectEntryTypeNVX::VK_OBJECT_ENTRY_PIPELINE_NVX => 1,
            VkObjectEntryTypeNVX::VK_OBJECT_ENTRY_INDEX_BUFFER_NVX => 2,
            VkObjectEntryTypeNVX::VK_OBJECT_ENTRY_VERTEX_BUFFER_NVX => 3,
            VkObjectEntryTypeNVX::VK_OBJECT_ENTRY_PUSH_CONSTANT_NVX => 4,
            VkObjectEntryTypeNVX::VK_OBJECT_ENTRY_TYPE_RANGE_SIZE_NVX => 5,
            VkObjectEntryTypeNVX::VK_OBJECT_ENTRY_TYPE_MAX_ENUM_NVX => 2147483647,
        }
    }

    /// The enumerant whose Vulkan value is `raw`, if there is one.
    pub open spec fn from_value(raw: u32) -> Option<Self> {
        match raw {
            0 => Some(VkObjectEntryTypeNVX::VK_OBJECT_ENTRY_DESCRIPTOR_SET_NVX),
            1 => Some(VkObjectEntryTypeNVX::VK_OBJECT_ENTRY_PIPELINE_NVX),
            2 => Some(VkObjectEntryTypeNVX::VK_OBJECT_ENTRY_INDEX_BUFFER_NVX),
            3 => Some(VkObjectEntryTypeNVX::VK_OBJECT_ENTRY_VERTEX_BUFFER_NVX),
            4 => Some(VkObjectEntryTypeNVX::VK_OBJECT_ENTRY_PUSH_CONSTANT_NVX),
            5 => Some(VkObjectEntryTypeNVX::VK_OBJECT_ENTRY_TYPE_RANGE_SIZE_NVX),
            2147483647 => Some(VkObjectEntryTypeNVX::VK_OBJECT_ENTRY_TYPE_MAX_ENUM_NVX),
            _ => None,
        }
    }

    pub fn as_raw(self) -> (r: u32)
        ensures
            r == self.value(),
    {
        match self {
            VkObjectEntryTypeNVX::VK_OBJECT_ENTRY_DESCRIPTOR_SET_NVX => 0,
            VkObjectEntryTypeNVX::VK_OBJECT_ENTRY_PIPELINE_NVX => 1,
            VkObjectEntryTypeNVX::VK_OBJECT_ENTRY_INDEX_BUFFER_NVX => 2,
            VkObjectEntryTypeNVX::VK_OBJECT_ENTRY_VERTEX_BUFFER_NVX => 3,
            VkObjectEntryTypeNVX::VK_OBJECT_ENTRY_PUSH_CONSTANT_NVX => 4,
            VkObjectEntryTypeNVX::VK_OBJECT_ENTRY_TYPE_RANGE_SIZE_NVX => 5,
            VkObjectEntryTypeNVX::VK_OBJECT_ENTRY_TYPE_MAX_ENUM_NVX => 2147483647,
        }
    }

    pub fn from_raw(raw: u32) -> (r: Option<Self>)
        ensures
            r == Self::from_value(raw),
    {
        match raw {
            0 => Some(VkObjectEntryTypeNVX::VK_OBJECT_ENTRY_DESCRIPTOR_SET_NVX),
            1 => Some(VkObjectEntryTypeNVX::VK_OBJECT_ENTRY_PIPELINE_NVX),
            2 => Some(VkObjectEntryTypeNVX::VK_OBJECT_ENTRY_INDEX_BUFFER_NVX),
            3 => Some(VkObjectEntryTypeNVX::VK_OBJECT_ENTRY_VERTEX_BUFFER_NVX),
            4 => Some(VkObjectEntryTypeNVX::VK_OBJECT_ENTRY_PUSH_CONSTANT_NVX),
            5 => Some(VkObjectEntryTypeNVX::VK_OBJECT_ENTRY_TYPE_RANGE_SIZE_NVX),
            2147483647 => Some(VkObjectEntryTypeNVX::VK_OBJECT_ENTRY_TYPE_MAX_ENUM_NVX),
            _ => None,
        }
    }

    /// Reading back the value of an enumerant gives the enumerant.
    pub proof fn lemma_value_roundtrip(self)
        ensures
            Self::from_value(self.value()) == Some(self),
    {
    }
}

#[derive(Clone, Copy, Debug, PartialEq, Eq, Hash, Structural)]
pub enum VkIndirectCommandsLayoutUsageFlagBitsNVX {
    VK_INDIRECT_COMMANDS_LAYOUT_USAGE_UNORDERED_SEQUENCES_BIT_NVX,
    VK_INDIRECT_COMMANDS_LAYOUT_USAGE_SPARSE_SEQUENCES_BIT_NVX,
    VK_INDIRECT_COMMANDS_LAYOUT_USAGE_EMPTY_EXECUTIONS_BIT_NVX,
    VK_INDIRECT_COMMANDS_LAYOUT_USAGE_INDEXED_SEQUENCES_BIT_NVX,
    VK_INDIRECT_COMMANDS_LAYOUT_USAGE_FLAG_BITS_MAX_ENUM_NVX,
}

impl VkIndirectCommandsLayoutUsageFlagBitsNVX {
    /// The numeric value that the Vulkan API gives this enumerant.
    pub open spec fn value(self) -> u32 {
        match self {
            VkIndirectCommandsLayoutUsageFlagBitsNVX::VK_INDIRECT_COMMANDS_LAYOUT_USAGE_UNORDERED_SEQUENCES_BIT_NVX => 1,
            VkIndirectCommandsLayoutUsageFlagBitsNVX::VK_INDIRECT_COMMANDS_LAYOUT_USAGE_SPARSE_SEQUENCES_BIT_NVX => 2,
            VkIndirectCommandsLayoutUsageFlagBitsNVX::VK_INDIRECT_COMMANDS_LAYOUT_USAGE_EMPTY_EXECUTIONS_BIT_NVX => 4,
            VkIndirectCommandsLayoutUsageFlagBitsNVX::VK_INDIRECT_COMMANDS_LAYOUT_USAGE_INDEXED_SEQUENCES_BIT_NVX => 8,
            VkIndirectCommandsLayoutUsageFlagBitsNVX::VK_INDIRECT_COMMANDS_LAYOUT_USAGE_FLAG_BITS_MAX_ENUM_NVX => 2147483647,
        }
    }

    /// The enumerant whose Vulkan value is `raw`, if there is one.
    pub open spec fn from_value(raw: u32) -> Option<Self> {
        match raw {
            1 => Some(VkIndirectCommandsLayoutUsageFlagBitsNVX::VK_INDIRECT_COMMANDS_LAYOUT_USAGE_UNORDERED_SEQUENCES_BIT_NVX),
            2 => Some(VkIndirectCommandsLayoutUsageFlagBitsNVX::VK_INDIRECT_COMMANDS_LAYOUT_USAGE_SPARSE_SEQUENCES_BIT_NVX),
            4 => Some(VkIndirectCommandsLayoutUsageFlagBitsNVX::VK_INDIRECT_COMMANDS_LAYOUT_USAGE_EMPTY_EXECUTIONS_BIT_NVX),
            8 => Some(VkIndirectCommandsLayoutUsageFlagBitsNVX::VK_INDIRECT_COMMANDS_LAYOUT_USAGE_INDEXED_SEQUENCES_BIT_NVX),
            2147483647 => Some(VkIndirectCommandsLayoutUsageFlagBitsNVX::VK_INDIRECT_COMMANDS_LAYOUT_USAGE_FLAG_BITS_MAX_ENUM_NVX),
            _ => None,
        }
    }

    pub fn as_raw(self) -> (r: u32)
        ensures
            r == self.value(),
    {
        match self {
            VkIndirectCommandsLayoutUsageFlagBitsNVX::VK_INDIRECT_COMMANDS_LAYOUT_USAGE_UNORDERED_SEQUENCES_BIT_NVX => 1,
            VkIndirectCommandsLayoutUsageFlagBitsNVX::VK_INDIRECT_COMMANDS_LAYOUT_USAGE_SPARSE_SEQUENCES_BIT_NVX => 2,
            VkIndirectCommandsLayoutUsageFlagBitsNVX::VK_INDIRECT_COMMANDS_LAYOUT_USAGE_EMPTY_EXECUTIONS_BIT_NVX => 4,
            VkIndirectCommandsLayoutUsageFlagBitsNVX::VK_INDIRECT_COMMANDS_LAYOUT_USAGE_INDEXED_SEQUENCES_BIT_NVX => 8,
            VkIndirectCommandsLayoutUsageFlagBitsNVX::VK_INDIRECT_COMMANDS_LAYOUT_USAGE_FLAG_BITS_MAX_ENUM_NVX => 2147483647,
        }
    }

    pub fn from_raw(raw: u32) -> (r: Option<Self>)
        ensures
            r == Self::from_value(raw),
    {
        match raw {
            1 => Some(VkIndirectCommandsLayoutUsageFlagBitsNVX::VK_INDIRECT_COMMANDS_LAYOUT_USAGE_UNORDERED_SEQUENCES_BIT_NVX),
            2 => Some(VkIndirectCommandsLayoutUsageFlagBitsNVX::VK_INDIRECT_COMMANDS_LAYOUT_USAGE_SPARSE_SEQUENCES_BIT_NVX),
            4 => Some(VkIndirectCommandsLayoutUsageFlagBitsNVX::VK_INDIRECT_COMMANDS_LAYOUT_USAGE_EMPTY_EXECUTIONS_BIT_NVX),
            8 => Some(VkIndirectCommandsLayoutUsageFlagBitsNVX::VK_INDIRECT_COMMANDS_LAYOUT_USAGE_INDEXED_SEQUENCES_BIT_NVX),
            2147483647 => Some(VkIndirectCommandsLayoutUsageFlagBitsNVX::VK_INDIRECT_COMMANDS_LAYOUT_USAGE_FLAG_BITS_MAX_ENUM_NVX),
            _ => None,
        }
    }

    /// Reading back the value of an enumerant gives the enumerant.
    pub proof fn lemma_value_roundtrip(self)
        ensures
            Self::from_value(self.value()) == Some(self),
    {
    }
}

#[derive(Clone, Copy, Debug, PartialEq, Eq, Hash, Structural)]
pub enum VkObjectEntryUsageFlagBitsNVX {
    VK_OBJECT_ENTRY_USAGE_GRAPHICS_BIT_NVX,
    VK_OBJECT_ENTRY_USAGE_COMPUTE_BIT_NVX,
    VK_OBJECT_ENTRY_USAGE_FLAG_BITS_MAX_ENUM_NVX,
}

impl VkObjectEntryUsageFlagBitsNVX {
    /// The numeric value that the Vulkan API gives this enumerant.
    pub open spec fn value(self) -> u32 {
        match self {
            VkObjectEntryUsageFlagBitsNVX::VK_OBJECT_ENTRY_USAGE_GRAPHICS_BIT_NVX => 1,
            VkObjectEntryUsageFlagBitsNVX::VK_OBJECT_ENTRY_USAGE_COMPUTE_BIT_NVX => 2,
            VkObjectEntryUsageFlagBitsNVX::VK_OBJECT_ENTRY_USAGE_FLAG_BITS_MAX_ENUM_NVX => 2147483647,
        }
    }

    /// The enumerant whose Vulkan value is `raw`, if there is one.
    pub open spec fn from_value(raw: u32) -> Option<Self> {
        match raw {
            1 => Some(VkObjectEntryUsageFlagBitsNVX::VK_OBJECT_ENTRY_USAGE_GRAPHICS_BIT_NVX),
            2 => Some(VkObjectEntryUsageFlagBitsNVX::VK_OBJECT_ENTRY_USAGE_COMPUTE_BIT_NVX),
            2147483647 => Some(VkObjectEntryUsageFlagBitsNVX::VK_OBJECT_ENTRY_USAGE_FLAG_BITS_MAX_ENUM_NVX),
            _ => None,
        }
    }

    pub fn as_raw(self) -> (r: u32)
        ensures
            r == self.value(),
    {
        match self {
            VkObjectEntryUsageFlagBitsNVX::VK_OBJECT_ENTRY_USAGE_GRAPHICS_BIT_NVX => 1,
            VkObjectEntryUsageFlagBitsNVX::VK_OBJECT_ENTRY_USAGE_COMPUTE_BIT_NVX => 2,
            VkObjectEntryUsageFlagBitsNVX::VK_OBJECT_ENTRY_USAGE_FLAG_BITS_MAX_ENUM_NVX => 2147483647,
        }
    }

    pub fn from_raw(raw: u32) -> (r: Option<Self>)
        ensures
            r == Self::from_value(raw),
    {
        match raw {
            1 => Some(VkObjectEntryUsageFlagBitsNVX::VK_OBJECT_ENTRY_USAGE_GRAPHICS_BIT_NVX),
            2 => Some(VkObjectEntryUsageFlagBitsNVX::VK_OBJECT_ENTRY_USAGE_COMPUTE_BIT_NVX),
            2147483647 => Some(VkObjectEntryUsageFlagBitsNVX::VK_OBJECT_ENTRY_USAGE_FLAG_BITS_MAX_ENUM_NVX),
            _ => None,
        }
    }

    /// Reading back the value of an enumerant gives the enumerant.
    pub proof fn lemma_value_roundtrip(self)
        ensures
            Self::from_value(self.value()) == Some(self),
    {
    }
}

#[derive(Clone, Copy, Debug, PartialEq, Eq, Hash, Structural)]
pub enum VkSurfaceCounterFlagBitsEXT {
    VK_SURFACE_COUNTER_VBLANK_EXT,
    VK_SURFACE_COUNTER_FLAG_BITS_MAX_ENUM_EXT,
}

impl VkSurfaceCounterFlagBitsEXT {
    /// The numeric value that the Vulkan API gives this enumerant.
    pub open spec fn value(self) -> u32 {
        match self {
            VkSurfaceCounterFlagBitsEXT::VK_SURFACE_COUNTER_VBLANK_EXT => 1,
            VkSurfaceCounterFlagBitsEXT::VK_SURFACE_COUNTER_FLAG_BITS_MAX_ENUM_EXT => 2147483647,
        }
    }

    /// The enumerant whose Vulkan value is `raw`, if there is one.
    pub open spec fn from_value(raw: u32) -> Option<Self> {
        match raw {
            1 => Some(VkSurfaceCounterFlagBitsEXT::VK_SURFACE_COUNTER_VBLANK_EXT),
            2147483647 => Some(VkSurfaceCounterFlagBitsEXT::VK_SURFACE_COUNTER_FLAG_BITS_MAX_ENUM_EXT),
            _ => None,
        }
    }

    pub fn as_raw(self) -> (r: u32)
        ensures
            r == self.value(),
    {
        match self {
            VkSurfaceCounterFlagBitsEXT::VK_SURFACE_COUNTER_VBLANK_EXT => 1,
            VkSurfaceCounterFlagBitsEXT::VK_SURFACE_COUNTER_FLAG_BITS_MAX_ENUM_EXT => 2147483647,
        }
    }

    pub fn from_raw(raw: u32) -> (r: Option<Self>)
        ensures
            r == Self::from_value(raw),
    {
        match raw {
            1 => Some(VkSurfaceCounterFlagBitsEXT::VK_SURFACE_COUNTER_VBLANK_EXT),
            2147483647 => Some(VkSurfaceCounterFlagBitsEXT::VK_SURFACE_COUNTER_FLAG_BITS_MAX_ENUM_EXT),
            _ => None,
        }
    }

    /// Reading back the value of an enumerant gives the enumerant.
    pub proof fn lemma_value_roundtrip(self)
        ensures
            Self::from_value(self.value()) == Some(self),
    {
    }
}

#[derive(Clone, Copy, Debug, PartialEq, Eq, Hash, Structural)]
pub enum VkDisplayPowerStateEXT {
    VK_DISPLAY_POWER_STATE_OFF_EXT,
    VK_DISPLAY_POWER_STATE_SUSPEND_EXT,
    VK_DISPLAY_POWER_STATE_ON_EXT,
    VK_DISPLAY_POWER_STATE_RANGE_SIZE_EXT,
    VK_DISPLAY_POWER_STATE_MAX_ENUM_EXT,
}

impl VkDisplayPowerStateEXT {
    /// The numeric value that the Vulkan API gives this enumerant.
    pub open spec fn value(self) -> u32 {
        match self {
            VkDisplayPowerStateEXT::VK_DISPLAY_POWER_STATE_OFF_EXT => 0,
            VkDisplayPowerStateEXT::VK_DISPLAY_POWER_STATE_SUSPEND_EXT => 1,
            VkDisplayPowerStateEXT::VK_DISPLAY_POWER_STATE_ON_EXT => 2,
            VkDisplayPowerStateEXT::VK_DISPLAY_POWER_STATE_RANGE_SIZE_EXT => 3,
            VkDisplayPowerStateEXT::VK_DISPLAY_POWER_STATE_MAX_ENUM_EXT => 2147483647,
        }
    }

    /// The enumerant whose Vulkan value is `raw`, if there is one.
    pub open spec fn from_value(raw: u32) -> Option<Self> {
        match raw {
            0 => Some(VkDisplayPowerStateEXT::VK_DISPLAY_POWER_STATE_OFF_EXT),
            1 => Some(VkDisplayPowerStateEXT::VK_DISPLAY_POWER_STATE_SUSPEND_EXT),
            2 => Some(VkDisplayPowerStateEXT::VK_DISPLAY_POWER_STATE_ON_EXT),
            3 => Some(VkDisplayPowerStateEXT::VK_DISPLAY_POWER_STATE_RANGE_SIZE_EXT),
            2147483647 => Some(VkDisplayPowerStateEXT::VK_DISPLAY_POWER_STATE_MAX_ENUM_EXT),
            _ => None,
        }
    }

    pub fn as_raw(self) -> (r: u32)
        ensures
            r == self.value(),
    {
        match self {
            VkDisplayPowerStateEXT::VK_DISPLAY_POWER_STATE_OFF_EXT => 0,
            VkDisplayPowerStateEXT::VK_DISPLAY_POWER_STATE_SUSPEND_EXT => 1,
            VkDisplayPowerStateEXT::VK_DISPLAY_POWER_STATE_ON_EXT => 2,
            VkDisplayPowerStateEXT::VK_DISPLAY_POWER_STATE_RANGE_SIZE_EXT => 3,
            VkDisplayPowerStateEXT::VK_DISPLAY_POWER_STATE_MAX_ENUM_EXT => 2147483647,
        }
    }

    pub fn from_raw(raw: u32) -> (r: Option<Self>)
        ensures
            r == Self::from_value(raw),
    {
        match raw {
            0 => Some(VkDisplayPowerStateEXT::VK_DISPLAY_POWER_STATE_OFF_EXT),
            1 => Some(VkDisplayPowerStateEXT::VK_DISPLAY_POWER_STATE_SUSPEND_EXT),
            2 => Some(VkDisplayPowerStateEXT::VK_DISPLAY_POWER_STATE_ON_EXT),
            3 => Some(VkDisplayPowerStateEXT::VK_DISPLAY_POWER_STATE_RANGE_SIZE_EXT),
            2147483647 => Some(VkDisplayPowerStateEXT::VK_DISPLAY_POWER_STATE_MAX_ENUM_EXT),
            _ => None,
        }
    }

    /// Reading back the value of an enumerant gives the enumerant.
    pub proof fn lemma_value_roundtrip(self)
        ensures
            Self::from_value(self.value()) == Some(self),
    {
    }
}

#[derive(Clone, Copy, Debug, PartialEq, Eq, Hash, Structural)]
pub enum VkDeviceEventTypeEXT {
    VK_DEVICE_EVENT_TYPE_DISPLAY_HOTPLUG_EXT,
    VK_DEVICE_EVENT_TYPE_RANGE_SIZE_EXT,
    VK_DEVICE_EVENT_TYPE_MAX_ENUM_EXT,
}

impl VkDeviceEventTypeEXT {
    /// The numeric value that the Vulkan API gives this enumerant.
    pub open spec fn value(self) -> u32 {
        match self {
            VkDeviceEventTypeEXT::VK_DEVICE_EVENT_TYPE_DISPLAY_HOTPLUG_EXT => 0,
            VkDeviceEventTypeEXT::VK_DEVICE_EVENT_TYPE_RANGE_SIZE_EXT => 1,
            VkDeviceEventTypeEXT::VK_DEVICE_EVENT_TYPE_MAX_ENUM_EXT => 2147483647,
        }
    }

    /// The enumerant whose Vulkan value is `raw`, if there is one.
    pub open spec fn from_value(raw: u32) -> Option<Self> {
        match raw {
            0 => Some(VkDeviceEventTypeEXT::VK_DEVICE_EVENT_TYPE_DISPLAY_HOTPLUG_EXT),
            1 => Some(VkDeviceEventTypeEXT::VK_DEVICE_EVENT_TYPE_RANGE_SIZE_EXT),
            2147483647 => Some(VkDeviceEventTypeEXT::VK_DEVICE_EVENT_TYPE_MAX_ENUM_EXT),
            _ => None,
        }
    }

    pub fn as_raw(self) -> (r: u32)
        ensures
            r == self.value(),
    {
        match self {
            VkDeviceEventTypeEXT::VK_DEVICE_EVENT_TYPE_DISPLAY_HOTPLUG_EXT => 0,
            VkDeviceEventTypeEXT::VK_DEVICE_EVENT_TYPE_RANGE_SIZE_EXT => 1,
            VkDeviceEventTypeEXT::VK_DEVICE_EVENT_TYPE_MAX_ENUM_EXT => 2147483647,
        }
    }

    pub fn from_raw(raw: u32) -> (r: Option<Self>)
        ensures
            r == Self::from_value(raw),
    {
        match raw {
            0 => Some(VkDeviceEventTypeEXT::VK_DEVICE_EVENT_TYPE_DISPLAY_HOTPLUG_EXT),
            1 => Some(VkDeviceEventTypeEXT::VK_DEVICE_EVENT_TYPE_RANGE_SIZE_EXT),
            2147483647 => Some(VkDeviceEventTypeEXT::VK_DEVICE_EVENT_TYPE_MAX_ENUM_EXT),
            _ => None,
        }
    }

    /// Reading back the value of an enumerant gives the enumerant.
    pub proof fn lemma_value_roundtrip(self)
        ensures
            Self::from_value(self.value()) == Some(self),
    {
    }
}

#[derive(Clone, Copy, Debug, PartialEq, Eq, Hash, Structural)]
pub enum VkDisplayEventTypeEXT {
    VK_DISPLAY_EVENT_TYPE_FIRST_PIXEL_OUT_EXT,
    VK_DISPLAY_EVENT_TYPE_RANGE_SIZE_EXT,
    VK_DISPLAY_EVENT_TYPE_MAX_ENUM_EXT,
}

impl VkDisplayEventTypeEXT {
    /// The numeric value that the Vulkan API gives this enumerant.
    pub open spec fn value(self) -> u32 {
        match self {
            VkDisplayEventTypeEXT::VK_DISPLAY_EVENT_TYPE_FIRST_PIXEL_OUT_EXT => 0,
            VkDisplayEventTypeEXT::VK_DISPLAY_EVENT_TYPE_RANGE_SIZE_EXT => 1,
            VkDisplayEventTypeEXT::VK_DISPLAY_EVENT_TYPE_MAX_ENUM_EXT => 2147483647,
        }
    }

    /// The enumerant whose Vulkan value is `raw`, if there is one.
    pub open spec fn from_value(raw: u32) -> Option<Self> {
        match raw {
            0 => Some(VkDisplayEventTypeEXT::VK_DISPLAY_EVENT_TYPE_FIRST_PIXEL_OUT_EXT),
            1 => Some(VkDisplayEventTypeEXT::VK_DISPLAY_EVENT_TYPE_RANGE_SIZE_EXT),
            2147483647 => Some(VkDisplayEventTypeEXT::VK_DISPLAY_EVENT_TYPE_MAX_ENUM_EXT),
            _ => None,
        }
    }

    pub fn as_raw(self) -> (r: u32)
        ensures
            r == self.value(),
    {
        match self {
            VkDisplayEventTypeEXT::VK_DISPLAY_EVENT_TYPE_FIRST_PIXEL_OUT_EXT => 0,
            VkDisplayEventTypeEXT::VK_DISPLAY_EVENT_TYPE_RANGE_SIZE_EXT => 1,
            VkDisplayEventTypeEXT::VK_DISPLAY_EVENT_TYPE_MAX_ENUM_EXT => 2147483647,
        }
    }

    pub fn from_raw(raw: u32) -> (r: Option<Self>)
        ensures
            r == Self::from_value(raw),
    {
        match raw {
            0 => Some(VkDisplayEventTypeEXT::VK_DISPLAY_EVENT_TYPE_FIRST_PIXEL_OUT_EXT),
            1 => Some(VkDisplayEventTypeEXT::VK_DISPLAY_EVENT_TYPE_RANGE_SIZE_EXT),
            2147483647 => Some(VkDisplayEventTypeEXT::VK_DISPLAY_EVENT_TYPE_MAX_ENUM_EXT),
            _ => None,
        }
    }

    /// Reading back the value of an enumerant gives the enumerant.
    pub proof fn lemma_value_roundtrip(self)
        ensures
            Self::from_value(self.value()) == Some(self),
    {
    }
}

#[derive(Clone, Copy, Debug, PartialEq, Eq, Hash, Structural)]
pub enum VkViewportCoordinateSwizzleNV {
    VK_VIEWPORT_COORDINATE_SWIZZLE_POSITIVE_X_NV,
    VK_VIEWPORT_COORDINATE_SWIZZLE_NEGATIVE_X_NV,
    VK_VIEWPORT_COORDINATE_SWIZZLE_POSITIVE_Y_NV,
    VK_VIEWPORT_COORDINATE_SWIZZLE_NEGATIVE_Y_NV,
    VK_VIEWPORT_COORDINATE_SWIZZLE_POSITIVE_Z_NV,
    VK_VIEWPORT_COORDINATE_SWIZZLE_NEGATIVE_Z_NV,
    VK_VIEWPORT_COORDINATE_SWIZZLE_POSITIVE_W_NV,
    VK_VIEWPORT_COORDINATE_SWIZZLE_NEGATIVE_W_NV,
    VK_VIEWPORT_COORDINATE_SWIZZLE_RANGE_SIZE_NV,
    VK_VIEWPORT_COORDINATE_SWIZZLE_MAX_ENUM_NV,
}

impl VkViewportCoordinateSwizzleNV {
    /// The numeric value that the Vulkan API gives this enumerant.
    pub open spec fn value(self) -> u32 {
        match self {
            VkViewportCoordinateSwizzleNV::VK_VIEWPORT_COORDINATE_SWIZZLE_POSITIVE_X_NV => 0,
            VkViewportCoordinateSwizzleNV::VK_VIEWPORT_COORDINATE_SWIZZLE_NEGATIVE_X_NV => 1,
            VkViewportCoordinateSwizzleNV::VK_VIEWPORT_COORDINATE_SWIZZLE_POSITIVE_Y_NV => 2,
            VkViewportCoordinateSwizzleNV::VK_VIEWPORT_COORDINATE_SWIZZLE_NEGATIVE_Y_NV => 3,
            VkViewportCoordinateSwizzleNV::VK_VIEWPORT_COORDINATE_SWIZZLE_POSITIVE_Z_NV => 4,
            VkViewportCoordinateSwizzleNV::VK_VIEWPORT_COORDINATE_SWIZZLE_NEGATIVE_Z_NV => 5,
            VkViewportCoordinateSwizzleNV::VK_VIEWPORT_COORDINATE_SWIZZLE_POSITIVE_W_NV => 6,
            VkViewportCoordinateSwizzleNV::VK_VIEWPORT_COORDINATE_SWIZZLE_NEGATIVE_W_NV => 7,
            VkViewportCoordinateSwizzleNV::VK_VIEWPORT_COORDINATE_SWIZZLE_RANGE_SIZE_NV => 8,
            VkViewportCoordinateSwizzleNV::VK_VIEWPORT_COORDINATE_SWIZZLE_MAX_ENUM_NV => 2147483647,
        }
    }

    /// The enumerant whose Vulkan value is `raw`, if there is one.
    pub open spec fn from_value(raw: u32) -> Option<Self> {
        match raw {
            0 => Some(VkViewportCoordinateSwizzleNV::VK_VIEWPORT_COORDINATE_SWIZZLE_POSITIVE_X_NV),
            1 => Some(VkViewportCoordinateSwizzleNV::VK_VIEWPORT_COORDINATE_SWIZZLE_NEGATIVE_X_NV),
            2 => Some(VkViewportCoordinateSwizzleNV::VK_VIEWPORT_COORDINATE_SWIZZLE_POSITIVE_Y_NV),
            3 => Some(VkViewportCoordinateSwizzleNV::VK_VIEWPORT_COORDINATE_SWIZZLE_NEGATIVE_Y_NV),
            4 => Some(VkViewportCoordinateSwizzleNV::VK_VIEWPORT_COORDINATE_SWIZZLE_POSITIVE_Z_NV),
            5 => Some(VkViewportCoordinateSwizzleNV::VK_VIEWPORT_COORDINATE_SWIZZLE_NEGATIVE_Z_NV),
            6 => Some(VkViewportCoordinateSwizzleNV::VK_VIEWPORT_COORDINATE_SWIZZLE_POSITIVE_W_NV),
            7 => Some(VkViewportCoordinateSwizzleNV::VK_VIEWPORT_COORDINATE_SWIZZLE_NEGATIVE_W_NV),
            8 => Some(VkViewportCoordinateSwizzleNV::VK_VIEWPORT_COORDINATE_SWIZZLE_RANGE_SIZE_NV),
            2147483647 => Some(VkViewportCoordinateSwizzleNV::VK_VIEWPORT_COORDINATE_SWIZZLE_MAX_ENUM_NV),
            _ => None,
        }
    }

    pub fn as_raw(self) -> (r: u32)
        ensures
            r == self.value(),
    {
        match self {
            VkViewportCoordinateSwizzleNV::VK_VIEWPORT_COORDINATE_SWIZZLE_POSITIVE_X_NV => 0,
            VkViewportCoordinateSwizzleNV::VK_VIEWPORT_COORDINATE_SWIZZLE_NEGATIVE_X_NV => 1,
            VkViewportCoordinateSwizzleNV::VK_VIEWPORT_COORDINATE_SWIZZLE_POSITIVE_Y_NV => 2,
            VkViewportCoordinateSwizzleNV::VK_VIEWPORT_COORDINATE_SWIZZLE_NEGATIVE_Y_NV => 3,
            VkViewportCoordinateSwizzleNV::VK_VIEWPORT_COORDINATE_SWIZZLE_POSITIVE_Z_NV => 4,
            VkViewportCoordinateSwizzleNV::VK_VIEWPORT_COORDINATE_SWIZZLE_NEGATIVE_Z_NV => 5,
            VkViewportCoordinateSwizzleNV::VK_VIEWPORT_COORDINATE_SWIZZLE_POSITIVE_W_NV => 6,
            VkViewportCoordinateSwizzleNV::VK_VIEWPORT_COORDINATE_SWIZZLE_NEGATIVE_W_NV => 7,
            VkViewportCoordinateSwizzleNV::VK_VIEWPORT_COORDINATE_SWIZZLE_RANGE_SIZE_NV => 8,
            VkViewportCoordinateSwizzleNV::VK_VIEWPORT_COORDINATE_SWIZZLE_MAX_ENUM_NV => 2147483647,
        }
    }

    pub fn from_raw(raw: u32) -> (r: Option<Self>)
        ensures
            r == Self::from_value(raw),
    {
        match raw {
            0 => Some(VkViewportCoordinateSwizzleNV::VK_VIEWPORT_COORDINATE_SWIZZLE_POSITIVE_X_NV),
            1 => Some(VkViewportCoordinateSwizzleNV::VK_VIEWPORT_COORDINATE_SWIZZLE_NEGATIVE_X_NV),
            2 => Some(VkViewportCoordinateSwizzleNV::VK_VIEWPORT_COORDINATE_SWIZZLE_POSITIVE_Y_NV),
            3 => Some(VkViewportCoordinateSwizzleNV::VK_VIEWPORT_COORDINATE_SWIZZLE_NEGATIVE_Y_NV),
            4 => Some(VkViewportCoordinateSwizzleNV::VK_VIEWPORT_COORDINATE_SWIZZLE_POSITIVE_Z_NV),
            5 => Some(VkViewportCoordinateSwizzleNV::VK_VIEWPORT_COORDINATE_SWIZZLE_NEGATIVE_Z_NV),
            6 => Some(VkViewportCoordinateSwizzleNV::VK_VIEWPORT_COORDINATE_SWIZZLE_POSITIVE_W_NV),
            7 => Some(VkViewportCoordinateSwizzleNV::VK_VIEWPORT_COORDINATE_SWIZZLE_NEGATIVE_W_NV),
            8 => Some(VkViewportCoordinateSwizzleNV::VK_VIEWPORT_COORDINATE_SWIZZLE_RANGE_SIZE_NV),
            2147483647 => Some(VkViewportCoordinateSwizzleNV::VK_VIEWPORT_COORDINATE_SWIZZLE_MAX_ENUM_NV),
            _ => None,
        }
    }

    /// Reading back the value of an enumerant gives the enumerant.
    pub proof fn lemma_value_roundtrip(self)
        ensures
            Self::from_value(self.value()) == Some(self),
    {
    }
}

#[derive(Clone, Copy, Debug, PartialEq, Eq, Hash, Structural)]
pub enum VkDiscardRectangleModeEXT {
    VK_DISCARD_RECTANGLE_MODE_INCLUSIVE_EXT,
    VK_DISCARD_RECTANGLE_MODE_EXCLUSIVE_EXT,
    VK_DISCARD_RECTANGLE_MODE_RANGE_SIZE_EXT,
    VK_DISCARD_RECTANGLE_MODE_MAX_ENUM_EXT,
}

impl VkDiscardRectangleModeEXT {
    /// The numeric value that the Vulkan API gives this enumerant.
    pub open spec fn value(self) -> u32 {
        match self {
            VkDiscardRectangleModeEXT::VK_DISCARD_RECTANGLE_MODE_INCLUSIVE_EXT => 0,
            VkDiscardRectangleModeEXT::VK_DISCARD_RECTANGLE_MODE_EXCLUSIVE_EXT => 1,
            VkDiscardRectangleModeEXT::VK_DISCARD_RECTANGLE_MODE_RANGE_SIZE_EXT => 2,
            VkDiscardRectangleModeEXT::VK_DISCARD_RECTANGLE_MODE_MAX_ENUM_EXT => 2147483647,
        }
    }

    /// The enumerant whose Vulkan value is `raw`, if there is one.
    pub open spec fn from_value(raw: u32) -> Option<Self> {
        match raw {
            0 => Some(VkDiscardRectangleModeEXT::VK_DISCARD_RECTANGLE_MODE_INCLUSIVE_EXT),
            1 => Some(VkDiscardRectangleModeEXT::VK_DISCARD_RECTANGLE_MODE_EXCLUSIVE_EXT),
            2 => Some(VkDiscardRectangleModeEXT::VK_DISCARD_RECTANGLE_MODE_RANGE_SIZE_EXT),
            2147483647 => Some(VkDiscardRectangleModeEXT::VK_DISCARD_RECTANGLE_MODE_MAX_ENUM_EXT),
            _ => None,
        }
    }

    pub fn as_raw(self) -> (r: u32)
        ensures
            r == self.value(),
    {
        match self {
            VkDiscardRectangleModeEXT::VK_DISCARD_RECTANGLE_MODE_INCLUSIVE_EXT => 0,
            VkDiscardRectangleModeEXT::VK_DISCARD_RECTANGLE_MODE_EXCLUSIVE_EXT => 1,
            VkDiscardRectangleModeEXT::VK_DISCARD_RECTANGLE_MODE_RANGE_SIZE_EXT => 2,
            VkDiscardRectangleModeEXT::VK_DISCARD_RECTANGLE_MODE_MAX_ENUM_EXT => 2147483647,
        }
    }

    pub fn from_raw(raw: u32) -> (r: Option<Self>)
        ensures
            r == Self::from_value(raw),
    {
        match raw {
            0 => Some(VkDiscardRectangleModeEXT::VK_DISCARD_RECTANGLE_MODE_INCLUSIVE_EXT),
            1 => Some(VkDiscardRectangleModeEXT::VK_DISCARD_RECTANGLE_MODE_EXCLUSIVE_EXT),
            2 => Some(VkDiscardRectangleModeEXT::VK_DISCARD_RECTANGLE_MODE_RANGE_SIZE_EXT),
            2147483647 => Some(VkDiscardRectangleModeEXT::VK_DISCARD_RECTANGLE_MODE_MAX_ENUM_EXT),
            _ => None,
        }
    }

    /// Reading back the value of an enumerant gives the enumerant.
    pub proof fn lemma_value_roundtrip(self)
        ensures
            Self::from_value(self.value()) == Some(self),
    {
    }
}

} // verus!
