//! The entry points that the portability layer hands out by name, and the
//! rules for which of them a caller may get.

use vstd::prelude::*;
use vstd::string::StringSliceAdditionalSpecFns;

use crate::extensions::{bytes_eq, contains_name, VK_KHR_SWAPCHAIN_EXTENSION_NAME};

verus! {

/// The names of the entry points that belong to a device, in the order of
/// the device's dispatch table.
pub open spec fn device_entry_points_spec() -> Seq<&'static str> {
    seq![
        "vkGetDeviceProcAddr",
        "vkDestroyDevice",
        "vkGetDeviceMemoryCommitment",
        "vkCreateSwapchainKHR",
        "vkDestroySwapchainKHR",
        "vkGetSwapchainImagesKHR",
        "vkAcquireNextImageKHR",
        "vkQueuePresentKHR",
        "vkCreateSampler",
        "vkDestroySampler",
        "vkCreateShaderModule",
        "vkDestroyShaderModule",
        "vkGetDeviceQueue",
        "vkAllocateMemory",
        "vkFreeMemory",
        "vkMapMemory",
        "vkUnmapMemory",
        "vkFlushMappedMemoryRanges",
        "vkInvalidateMappedMemoryRanges",
        "vkCreateBuffer",
        "vkDestroyBuffer",
        "vkGetBufferMemoryRequirements",
        "vkBindBufferMemory",
        "vkCreateBufferView",
        "vkDestroyBufferView",
        "vkCreateImage",
        "vkDestroyImage",
        "vkGetImageMemoryRequirements",
        "vkGetImageSparseMemoryRequirements",
        "vkBindImageMemory",
        "vkCreateImageView",
        "vkDestroyImageView",
        "vkGetImageSubresourceLayout",
        "vkCreateRenderPass",
        "vkDestroyRenderPass",
        "vkCreateFramebuffer",
        "vkDestroyFramebuffer",
        "vkGetRenderAreaGranularity",
        "vkCreatePipelineLayout",
        "vkDestroyPipelineLayout",
        "vkCreateGraphicsPipelines",
        "vkCreateComputePipelines",
        "vkDestroyPipeline",
        "vkCreatePipelineCache",
        "vkDestroyPipelineCache",
        "vkGetPipelineCacheData",
        "vkMergePipelineCaches",
        "vkCreateCommandPool",
        "vkDestroyCommandPool",
        "vkResetCommandPool",
        "vkAllocateCommandBuffers",
        "vkFreeCommandBuffers",
        "vkBeginCommandBuffer",
        "vkEndCommandBuffer",
        "vkResetCommandBuffer",
        "vkCreateDescriptorSetLayout",
        "vkDestroyDescriptorSetLayout",
        "vkCreateDescriptorPool",
        "vkDestroyDescriptorPool",
        "vkResetDescriptorPool",
        "vkAllocateDescriptorSets",
        "vkFreeDescriptorSets",
        "vkUpdateDescriptorSets",
        "vkCreateFence",
        "vkDestroyFence",
        "vkWaitForFences",
        "vkResetFences",
        "vkGetFenceStatus",
        "vkCreateSemaphore",
        "vkDestroySemaphore",
        "vkCreateEvent",
        "vkDestroyEvent",
        "vkGetEventStatus",
        "vkSetEvent",
        "vkResetEvent",
        "vkQueueSubmit",
        "vkQueueBindSparse",
        "vkQueueWaitIdle",
        "vkDeviceWaitIdle",
        "vkCreateQueryPool",
        "vkDestroyQueryPool",
        "vkGetQueryPoolResults",
        "vkCmdBindPipeline",
        "vkCmdSetViewport",
        "vkCmdSetScissor",
        "vkCmdSetLineWidth",
        "vkCmdSetDepthBias",
        "vkCmdSetBlendConstants",
        "vkCmdSetDepthBounds",
        "vkCmdSetStencilCompareMask",
        "vkCmdSetStencilWriteMask",
        "vkCmdSetStencilReference",
        "vkCmdBindDescriptorSets",
        "vkCmdBindIndexBuffer",
        "vkCmdBindVertexBuffers",
        "vkCmdDraw",
        "vkCmdDrawIndexed",
        "vkCmdDrawIndirect",
        "vkCmdDrawIndexedIndirect",
        "vkCmdDispatch",
        "vkCmdDispatchIndirect",
        "vkCmdCopyBuffer",
        "vkCmdCopyImage",
        "vkCmdBlitImage",
        "vkCmdCopyBufferToImage",
        "vkCmdCopyImageToBuffer",
        "vkCmdUpdateBuffer",
        "vkCmdFillBuffer",
        "vkCmdClearColorImage",
        "vkCmdClearDepthStencilImage",
        "vkCmdClearAttachments",
        "vkCmdResolveImage",
        "vkCmdSetEvent",
        "vkCmdResetEvent",
        "vkCmdWaitEvents",
        "vkCmdBeginQuery",
        "vkCmdEndQuery",
        "vkCmdResetQueryPool",
        "vkCmdWriteTimestamp",
        "vkCmdCopyQueryPoolResults",
        "vkCmdPushConstants",
        "vkCmdNextSubpass",
        "vkCmdExecuteCommands",
        "vkCmdPipelineBarrier",
        "vkCmdBeginRenderPass",
        "vkCmdEndRenderPass",
    ]
}

/// The names of the entry points that belong to the instance and to physical
/// devices, in the order of the instance's dispatch table.
pub open spec fn instance_entry_points_spec() -> Seq<&'static str> {
    seq![
        "vkCreateInstance",
        "vkDestroyInstance",
        "vkCreateDevice",
        "vkGetDeviceProcAddr",
        "vkEnumeratePhysicalDevices",
        "vkEnumerateInstanceLayerProperties",
        "vkEnumerateInstanceExtensionProperties",
        "vkEnumerateDeviceExtensionProperties",
        "vkEnumerateDeviceLayerProperties",
        "vkGetPhysicalDeviceFeatures",
        "vkGetPhysicalDeviceFeatures2KHR",
        "vkGetPhysicalDeviceProperties",
        "vkGetPhysicalDeviceProperties2KHR",
        "vkGetPhysicalDeviceFormatProperties",
        "vkGetPhysicalDeviceImageFormatProperties",
        "vkGetPhysicalDeviceImageFormatProperties2KHR",
        "vkGetPhysicalDeviceMemoryProperties",
        "vkGetPhysicalDeviceQueueFamilyProperties",
        "vkGetPhysicalDeviceSparseImageFormatProperties",
        "vkGetPhysicalDeviceSurfaceSupportKHR",
        "vkGetPhysicalDeviceSurfaceCapabilitiesKHR",
        "vkGetPhysicalDeviceSurfaceCapabilities2KHR",
        "vkGetPhysicalDeviceSurfaceFormatsKHR",
        "vkGetPhysicalDeviceSurfaceFormats2KHR",
        "vkGetPhysicalDeviceSurfacePresentModesKHR",
        "vkGetPhysicalDeviceWin32PresentationSupportKHR",
        "vkCreateWin32SurfaceKHR",
        "vkCreateMetalSurfaceEXT",
        "vkCreateMacOSSurfaceMVK",
        "vkDestroySurfaceKHR",
    ]
}

/// The entry points of the swapchain extension.
pub open spec fn swapchain_entry_points_spec() -> Seq<&'static str> {
    seq![
        "vkCreateSwapchainKHR",
        "vkDestroySwapchainKHR",
        "vkGetSwapchainImagesKHR",
        "vkAcquireNextImageKHR",
        "vkQueuePresentKHR",
    ]
}

pub fn device_entry_points() -> (r: Vec<&'static str>)
    ensures
        r@ == device_entry_points_spec(),
{
    vec![
        "vkGetDeviceProcAddr",
        "vkDestroyDevice",
        "vkGetDeviceMemoryCommitment",
        "vkCreateSwapchainKHR",
        "vkDestroySwapchainKHR",
        "vkGetSwapchainImagesKHR",
        "vkAcquireNextImageKHR",
        "vkQueuePresentKHR",
        "vkCreateSampler",
        "vkDestroySampler",
        "vkCreateShaderModule",
        "vkDestroyShaderModule",
        "vkGetDeviceQueue",
        "vkAllocateMemory",
        "vkFreeMemory",
        "vkMapMemory",
        "vkUnmapMemory",
        "vkFlushMappedMemoryRanges",
        "vkInvalidateMappedMemoryRanges",
        "vkCreateBuffer",
        "vkDestroyBuffer",
        "vkGetBufferMemoryRequirements",
        "vkBindBufferMemory",
        "vkCreateBufferView",
        "vkDestroyBufferView",
        "vkCreateImage",
        "vkDestroyImage",
        "vkGetImageMemoryRequirements",
        "vkGetImageSparseMemoryRequirements",
        "vkBindImageMemory",
        "vkCreateImageView",
        "vkDestroyImageView",
        "vkGetImageSubresourceLayout",
        "vkCreateRenderPass",
        "vkDestroyRenderPass",
        "vkCreateFramebuffer",
        "vkDestroyFramebuffer",
        "vkGetRenderAreaGranularity",
        "vkCreatePipelineLayout",
        "vkDestroyPipelineLayout",
        "vkCreateGraphicsPipelines",
        "vkCreateComputePipelines",
        "vkDestroyPipeline",
        "vkCreatePipelineCache",
        "vkDestroyPipelineCache",
        "vkGetPipelineCacheData",
        "vkMergePipelineCaches",
        "vkCreateCommandPool",
        "vkDestroyCommandPool",
        "vkResetCommandPool",
        "vkAllocateCommandBuffers",
        "vkFreeCommandBuffers",
        "vkBeginCommandBuffer",
        "vkEndCommandBuffer",
        "vkResetCommandBuffer",
        "vkCreateDescriptorSetLayout",
        "vkDestroyDescriptorSetLayout",
        "vkCreateDescriptorPool",
        "vkDestroyDescriptorPool",
        "vkResetDescriptorPool",
        "vkAllocateDescriptorSets",
        "vkFreeDescriptorSets",
        "vkUpdateDescriptorSets",
        "vkCreateFence",
        "vkDestroyFence",
        "vkWaitForFences",
        "vkResetFences",
        "vkGetFenceStatus",
        "vkCreateSemaphore",
        "vkDestroySemaphore",
        "vkCreateEvent",
        "vkDestroyEvent",
        "vkGetEventStatus",
        "vkSetEvent",
        "vkResetEvent",
        "vkQueueSubmit",
        "vkQueueBindSparse",
        "vkQueueWaitIdle",
        "vkDeviceWaitIdle",
        "vkCreateQueryPool",
        "vkDestroyQueryPool",
        "vkGetQueryPoolResults",
        "vkCmdBindPipeline",
        "vkCmdSetViewport",
        "vkCmdSetScissor",
        "vkCmdSetLineWidth",
        "vkCmdSetDepthBias",
        "vkCmdSetBlendConstants",
        "vkCmdSetDepthBounds",
        "vkCmdSetStencilCompareMask",
        "vkCmdSetStencilWriteMask",
        "vkCmdSetStencilReference",
        "vkCmdBindDescriptorSets",
        "vkCmdBindIndexBuffer",
        "vkCmdBindVertexBuffers",
        "vkCmdDraw",
        "vkCmdDrawIndexed",
        "vkCmdDrawIndirect",
        "vkCmdDrawIndexedIndirect",
        "vkCmdDispatch",
        "vkCmdDispatchIndirect",
        "vkCmdCopyBuffer",
        "vkCmdCopyImage",
        "vkCmdBlitImage",
        "vkCmdCopyBufferToImage",
        "vkCmdCopyImageToBuffer",
        "vkCmdUpdateBuffer",
        "vkCmdFillBuffer",
        "vkCmdClearColorImage",
        "vkCmdClearDepthStencilImage",
        "vkCmdClearAttachments",
        "vkCmdResolveImage",
        "vkCmdSetEvent",
        "vkCmdResetEvent",
        "vkCmdWaitEvents",
        "vkCmdBeginQuery",
        "vkCmdEndQuery",
        "vkCmdResetQueryPool",
        "vkCmdWriteTimestamp",
        "vkCmdCopyQueryPoolResults",
        "vkCmdPushConstants",
        "vkCmdNextSubpass",
        "vkCmdExecuteCommands",
        "vkCmdPipelineBarrier",
        "vkCmdBeginRenderPass",
        "vkCmdEndRenderPass",
    ]
}

pub fn instance_entry_points() -> (r: Vec<&'static str>)
    ensures
        r@ == instance_entry_points_spec(),
{
    vec![
        "vkCreateInstance",
        "vkDestroyInstance",
        "vkCreateDevice",
        "vkGetDeviceProcAddr",
        "vkEnumeratePhysicalDevices",
        "vkEnumerateInstanceLayerProperties",
        "vkEnumerateInstanceExtensionProperties",
        "vkEnumerateDeviceExtensionProperties",
        "vkEnumerateDeviceLayerProperties",
        "vkGetPhysicalDeviceFeatures",
        "vkGetPhysicalDeviceFeatures2KHR",
        "vkGetPhysicalDeviceProperties",
        "vkGetPhysicalDeviceProperties2KHR",
        "vkGetPhysicalDeviceFormatProperties",
        "vkGetPhysicalDeviceImageFormatProperties",
        "vkGetPhysicalDeviceImageFormatProperties2KHR",
        "vkGetPhysicalDeviceMemoryProperties",
        "vkGetPhysicalDeviceQueueFamilyProperties",
        "vkGetPhysicalDeviceSparseImageFormatProperties",
        "vkGetPhysicalDeviceSurfaceSupportKHR",
        "vkGetPhysicalDeviceSurfaceCapabilitiesKHR",
        "vkGetPhysicalDeviceSurfaceCapabilities2KHR",
        "vkGetPhysicalDeviceSurfaceFormatsKHR",
        "vkGetPhysicalDeviceSurfaceFormats2KHR",
        "vkGetPhysicalDeviceSurfacePresentModesKHR",
        "vkGetPhysicalDeviceWin32PresentationSupportKHR",
        "vkCreateWin32SurfaceKHR",
        "vkCreateMetalSurfaceEXT",
        "vkCreateMacOSSurfaceMVK",
        "vkDestroySurfaceKHR",
    ]
}

pub fn swapchain_entry_points() -> (r: Vec<&'static str>)
    ensures
        r@ == swapchain_entry_points_spec(),
{
    vec![
        "vkCreateSwapchainKHR",
        "vkDestroySwapchainKHR",
        "vkGetSwapchainImagesKHR",
        "vkAcquireNextImageKHR",
        "vkQueuePresentKHR",
    ]
}

/// Where a name first occurs in a table of names.
pub open spec fn first_index_of(table: Seq<&'static str>, name: Seq<u8>, i: int) -> bool {
    &&& 0 <= i < table.len()
    &&& table[i].spec_bytes() == name
    &&& forall|j: int| 0 <= j < i ==> #[trigger] table[j].spec_bytes() != name
}

/// Whether a table of names holds a name.
pub open spec fn table_has(table: Seq<&'static str>, name: Seq<u8>) -> bool {
    exists|j: int| 0 <= j < table.len() && #[trigger] table[j].spec_bytes() == name
}

/// The position of the first entry of `table` that is `name`.
pub fn find_name(table: &Vec<&'static str>, name: &[u8]) -> (r: Option<usize>)
    ensures
        r matches Some(i) ==> first_index_of(table@, name@, i as int),
        r is None ==> !table_has(table@, name@),
{
    let mut i: usize = 0;
    while i < table.len()
        invariant
            i <= table@.len(),
            forall|j: int| 0 <= j < i ==> #[trigger] table@[j].spec_bytes() != name@,
        decreases table@.len() - i,
    {
        if bytes_eq(table[i].as_bytes(), name) {
            return Some(i);
        }
        i = i + 1;
    }
    None
}

/// The entry point that a device hands out for a name: an extension's entry
/// points only when the device has enabled that extension. `enabled` holds
/// the extensions that the device enabled, `None` when no device is given.
pub open spec fn device_proc_spec(name: Seq<u8>, enabled: Option<Seq<Seq<u8>>>) -> bool {
    &&& table_has(device_entry_points_spec(), name)
    &&& enabled matches Some(exts) ==> (table_has(swapchain_entry_points_spec(), name)
        ==> exts.contains(VK_KHR_SWAPCHAIN_EXTENSION_NAME.spec_bytes()))
}

/// The device entry point, by its place in the device's dispatch table, that
/// `vkGetDeviceProcAddr` gives for `name`.
pub fn device_proc_addr(name: &[u8], enabled: Option<&Vec<Vec<u8>>>) -> (r: Option<usize>)
    ensures
        r is Some <==> device_proc_spec(
            name@,
            (match enabled {
                Some(v) => Some(v.deep_view()),
                None => None,
            }),
        ),
        r matches Some(i) ==> first_index_of(device_entry_points_spec(), name@, i as int),
{
    if let Some(exts) = enabled {
        let swapchain_names = swapchain_entry_points();
        if find_name(&swapchain_names, name).is_some() {
            if !contains_name(exts, VK_KHR_SWAPCHAIN_EXTENSION_NAME.as_bytes()) {
                return None;
            }
        }
    }
    let table = device_entry_points();
    find_name(&table, name)
}

/// An entry point that the instance hands out: one of the device's, or one of
/// its own, by its place in the dispatch table.
#[derive(Clone, Copy, Debug, PartialEq, Eq, Structural)]
pub enum ProcAddr {
    Device(usize),
    Instance(usize),
}

/// Whether `r` is the entry point that `vkGetInstanceProcAddr` gives for
/// `name`: the first device entry point of that name where there is one,
/// else the first instance entry point of that name, else none.
pub open spec fn instance_proc_spec(name: Seq<u8>, r: Option<ProcAddr>) -> bool {
    match r {
        Some(ProcAddr::Device(i)) => first_index_of(device_entry_points_spec(), name, i as int),
        Some(ProcAddr::Instance(i)) => !table_has(device_entry_points_spec(), name)
            && first_index_of(instance_entry_points_spec(), name, i as int),
        None => !table_has(device_entry_points_spec(), name) && !table_has(
            instance_entry_points_spec(),
            name,
        ),
    }
}

/// The entry point that `vkGetInstanceProcAddr` gives for `name`: a device
/// entry point where there is one of that name, else an instance entry point.
pub fn instance_proc_addr(name: &[u8]) -> (r: Option<ProcAddr>)
    ensures
        instance_proc_spec(name@, r),
{
    match device_proc_addr(name, None) {
        Some(i) => Some(ProcAddr::Device(i)),
        None => {
            let table = instance_entry_points();
            match find_name(&table, name) {
                Some(i) => Some(ProcAddr::Instance(i)),
                None => None,
            }
        },
    }
}


/// The entry points that an installable client driver hands out for
/// physical devices, in the order of its table.
pub open spec fn physical_device_entry_points_spec() -> Seq<&'static str> {
    seq![
        "vkGetPhysicalDeviceFeatures",
        "vkGetPhysicalDeviceFeatures2KHR",
        "vkGetPhysicalDeviceProperties",
        "vkGetPhysicalDeviceProperties2KHR",
        "vkGetPhysicalDeviceFormatProperties",
        "vkGetPhysicalDeviceFormatProperties2KHR",
        "vkGetPhysicalDeviceImageFormatProperties",
        "vkGetPhysicalDeviceImageFormatProperties2KHR",
        "vkGetPhysicalDeviceMemoryProperties",
        "vkGetPhysicalDeviceMemoryProperties2KHR",
        "vkGetPhysicalDeviceQueueFamilyProperties",
        "vkGetPhysicalDeviceQueueFamilyProperties2KHR",
        "vkGetPhysicalDeviceSparseImageFormatProperties",
        "vkGetPhysicalDeviceSparseImageFormatProperties2KHR",
        "vkGetPhysicalDeviceSurfaceSupportKHR",
        "vkGetPhysicalDeviceSurfaceCapabilitiesKHR",
        "vkGetPhysicalDeviceSurfaceFormatsKHR",
        "vkGetPhysicalDeviceSurfacePresentModesKHR",
        "vkGetPhysicalDeviceWin32PresentationSupportKHR",
    ]
}

pub fn physical_device_entry_points() -> (r: Vec<&'static str>)
    ensures
        r@ == physical_device_entry_points_spec(),
{
    vec![
        "vkGetPhysicalDeviceFeatures",
        "vkGetPhysicalDeviceFeatures2KHR",
        "vkGetPhysicalDeviceProperties",
        "vkGetPhysicalDeviceProperties2KHR",
        "vkGetPhysicalDeviceFormatProperties",
        "vkGetPhysicalDeviceFormatProperties2KHR",
        "vkGetPhysicalDeviceImageFormatProperties",
        "vkGetPhysicalDeviceImageFormatProperties2KHR",
        "vkGetPhysicalDeviceMemoryProperties",
        "vkGetPhysicalDeviceMemoryProperties2KHR",
        "vkGetPhysicalDeviceQueueFamilyProperties",
        "vkGetPhysicalDeviceQueueFamilyProperties2KHR",
        "vkGetPhysicalDeviceSparseImageFormatProperties",
        "vkGetPhysicalDeviceSparseImageFormatProperties2KHR",
        "vkGetPhysicalDeviceSurfaceSupportKHR",
        "vkGetPhysicalDeviceSurfaceCapabilitiesKHR",
        "vkGetPhysicalDeviceSurfaceFormatsKHR",
        "vkGetPhysicalDeviceSurfacePresentModesKHR",
        "vkGetPhysicalDeviceWin32PresentationSupportKHR",
    ]
}

/// The physical device entry point for a name, by its place in the table.
pub fn physical_device_proc_addr(name: &[u8]) -> (r: Option<usize>)
    ensures
        r matches Some(i) ==> first_index_of(physical_device_entry_points_spec(), name@, i as int),
        r is None ==> !table_has(physical_device_entry_points_spec(), name@),
{
    let table = physical_device_entry_points();
    find_name(&table, name)
}

/// The version of the interface between loader and driver that the driver
/// implements.
pub const ICD_VERSION: u32 = 5;

/// The interface version that loader and driver agree on: the loader's,
/// lowered to the driver's where it is newer.
pub fn negotiate_icd_version(supported: u32) -> (r: u32)
    ensures
        supported > ICD_VERSION ==> r == ICD_VERSION,
        supported <= ICD_VERSION ==> r == supported,
{
    if supported > ICD_VERSION {
        ICD_VERSION
    } else {
        supported
    }
}

} // verus!
