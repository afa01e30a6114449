//! Creation of resources and pools: samplers, framebuffers, command pools and
//! buffers, buffer views, pipeline layouts and the portability features.

use vstd::prelude::*;

use crate::conv::{
    map_compare_op,
    map_filter,
    map_mipmap_filter,
    map_stage_flags,
    map_wrap_mode,
    stage_flags_match,
    wrap_mode_spec,
    comparison_of,
    VK_TRUE,
};
use crate::hal::image::{Filter, WrapMode};
use crate::hal::pso::{Comparison, ShaderStageFlags};
use crate::hal::Features;
use crate::vk_enums::{
    VkCommandBufferLevel,
    VkCommandBufferResetFlagBits,
    VkCommandPoolCreateFlagBits,
    VkCommandPoolResetFlagBits,
    VkCompareOp,
    VkFilter,
    VkResult,
    VkSamplerAddressMode,
    VkSamplerMipmapMode,
};
use crate::vk_structs::{VkBool32, VkPushConstantRange, VkSubresourceLayout};

verus! {

// ---------------------------------------------------------------------------
// Portability features.

/// The portability subset features that a device reports.
#[derive(Clone, Copy, Debug, PartialEq, Eq, Structural)]
pub struct PortabilityFeatures {
    pub triangle_fans: VkBool32,
    pub separate_stencil_mask_ref: VkBool32,
    pub sampler_mip_lod_bias: VkBool32,
    pub standard_image_views: VkBool32,
}

/// Fills in the portability subset features: each is turned on where the
/// device has it (standard image views everywhere but on Metal), and left as
/// it was otherwise.
pub fn fill_portability_features(data: &mut PortabilityFeatures, features: Features, metal: bool)
    ensures
        final(data).triangle_fans == (if features.bits & Features::TRIANGLE_FAN != 0 {
            VK_TRUE
        } else {
            old(data).triangle_fans
        }),
        final(data).separate_stencil_mask_ref == (if features.bits
            & Features::SEPARATE_STENCIL_REF_VALUES != 0 {
            VK_TRUE
        } else {
            old(data).separate_stencil_mask_ref
        }),
        final(data).sampler_mip_lod_bias == (if features.bits & Features::SAMPLER_MIP_LOD_BIAS != 0 {
            VK_TRUE
        } else {
            old(data).sampler_mip_lod_bias
        }),
        final(data).standard_image_views == (if !metal {
            VK_TRUE
        } else {
            old(data).standard_image_views
        }),
{
    if features.bits & Features::TRIANGLE_FAN != 0 {
        data.triangle_fans = VK_TRUE;
    }
    if features.bits & Features::SEPARATE_STENCIL_REF_VALUES != 0 {
        data.separate_stencil_mask_ref = VK_TRUE;
    }
    if features.bits & Features::SAMPLER_MIP_LOD_BIAS != 0 {
        data.sampler_mip_lod_bias = VK_TRUE;
    }
    if !metal {
        data.standard_image_views = VK_TRUE;
    }
}

// ---------------------------------------------------------------------------
// Samplers.

/// The creation info of a sampler, without its level-of-detail and
/// anisotropy values (which travel beside it).
#[derive(Clone, Copy, Debug, PartialEq, Eq, Structural)]
pub struct SamplerInfo {
    pub mag_filter: VkFilter,
    pub min_filter: VkFilter,
    pub mipmap_mode: VkSamplerMipmapMode,
    pub address_mode_u: VkSamplerAddressMode,
    pub address_mode_v: VkSamplerAddressMode,
    pub address_mode_w: VkSamplerAddressMode,
    pub anisotropy_enable: VkBool32,
    pub compare_enable: VkBool32,
    pub compare_op: VkCompareOp,
    pub unnormalized_coordinates: VkBool32,
}

/// The sampler description of the abstraction layer: filters, wrap modes,
/// the comparison where it is on, whether coordinates are normalized, and
/// whether anisotropy is clamped.
#[derive(Clone, Copy, Debug, PartialEq, Eq, Structural)]
pub struct SamplerDesc {
    pub min_filter: Filter,
    pub mag_filter: Filter,
    pub mip_filter: Filter,
    pub wrap_u: WrapMode,
    pub wrap_v: WrapMode,
    pub wrap_w: WrapMode,
    pub comparison: Option<Comparison>,
    pub normalized: bool,
    pub anisotropy: bool,
}

pub open spec fn filter_spec(f: VkFilter) -> Filter {
    if f == VkFilter::VK_FILTER_NEAREST {
        Filter::Nearest
    } else {
        Filter::Linear
    }
}

pub open spec fn sampler_supported(info: SamplerInfo) -> bool {
    &&& info.mag_filter.value() <= VkFilter::VK_FILTER_LINEAR.value()
    &&& info.min_filter.value() <= VkFilter::VK_FILTER_LINEAR.value()
    &&& info.mipmap_mode.value() <= VkSamplerMipmapMode::VK_SAMPLER_MIPMAP_MODE_LINEAR.value()
    &&& info.compare_enable == VK_TRUE ==> info.compare_op.value()
        <= VkCompareOp::VK_COMPARE_OP_ALWAYS.value()
}

pub fn sampler_desc(info: &SamplerInfo) -> (r: SamplerDesc)
    requires
        sampler_supported(*info),
    ensures
        r.min_filter == filter_spec(info.min_filter),
        r.mag_filter == filter_spec(info.mag_filter),
        r.mip_filter == (if info.mipmap_mode == VkSamplerMipmapMode::VK_SAMPLER_MIPMAP_MODE_NEAREST {
            Filter::Nearest
        } else {
            Filter::Linear
        }),
        r.wrap_u == wrap_mode_spec(info.address_mode_u),
        r.wrap_v == wrap_mode_spec(info.address_mode_v),
        r.wrap_w == wrap_mode_spec(info.address_mode_w),
        r.comparison == (if info.compare_enable == VK_TRUE {
            Some(comparison_of(info.compare_op.value()))
        } else {
            None
        }),
        r.normalized == (info.unnormalized_coordinates == 0),
        r.anisotropy == (info.anisotropy_enable == VK_TRUE),
{
    SamplerDesc {
        min_filter: map_filter(info.min_filter),
        mag_filter: map_filter(info.mag_filter),
        mip_filter: map_mipmap_filter(info.mipmap_mode),
        wrap_u: map_wrap_mode(info.address_mode_u),
        wrap_v: map_wrap_mode(info.address_mode_v),
        wrap_w: map_wrap_mode(info.address_mode_w),
        comparison: if info.compare_enable == VK_TRUE {
            Some(map_compare_op(info.compare_op))
        } else {
            None
        },
        normalized: info.unnormalized_coordinates == 0,
        anisotropy: info.anisotropy_enable == VK_TRUE,
    }
}

// ---------------------------------------------------------------------------
// Framebuffers, command pools and command buffers.

/// Whether a framebuffer is made lazily, when a render pass begins: where
/// any of its attachments is a frame of a swapchain (given by whether each
/// attachment is one).
pub fn framebuffer_is_lazy(swapchain_frames: &[bool]) -> (r: bool)
    ensures
        r == exists|i: int| 0 <= i < swapchain_frames@.len() && swapchain_frames@[i],
{
    let mut i: usize = 0;
    while i < swapchain_frames.len()
        invariant
            i <= swapchain_frames@.len(),
            forall|j: int| 0 <= j < i ==> !swapchain_frames@[j],
        decreases swapchain_frames@.len() - i,
    {
        if swapchain_frames[i] {
            return true;
        }
        i = i + 1;
    }
    false
}

/// The flags of a command pool of the abstraction layer: transient, and
/// buffers resettable one by one.
#[derive(Clone, Copy, Debug, PartialEq, Eq, Structural)]
pub struct CommandPoolCreateFlags {
    pub bits: u8,
}

impl CommandPoolCreateFlags {
    pub const TRANSIENT: u8 = 0x1;
    pub const RESET_INDIVIDUAL: u8 = 0x2;
}

pub fn command_pool_flags(flags: u32) -> (r: CommandPoolCreateFlags)
    ensures
        (r.bits & CommandPoolCreateFlags::TRANSIENT != 0) == (flags
            & VkCommandPoolCreateFlagBits::VK_COMMAND_POOL_CREATE_TRANSIENT_BIT.value() != 0),
        (r.bits & CommandPoolCreateFlags::RESET_INDIVIDUAL != 0) == (flags
            & VkCommandPoolCreateFlagBits::VK_COMMAND_POOL_CREATE_RESET_COMMAND_BUFFER_BIT.value()
            != 0),
        r.bits & !0x3u8 == 0,
{
    let a: u8 = if flags & VkCommandPoolCreateFlagBits::VK_COMMAND_POOL_CREATE_TRANSIENT_BIT.as_raw()
        != 0 {
        CommandPoolCreateFlags::TRANSIENT
    } else {
        0
    };
    let b: u8 = if flags
        & VkCommandPoolCreateFlagBits::VK_COMMAND_POOL_CREATE_RESET_COMMAND_BUFFER_BIT.as_raw() != 0 {
        CommandPoolCreateFlags::RESET_INDIVIDUAL
    } else {
        0
    };
    let bits: u8 = a | b;
    assert({
        &&& ((bits & 1u8) != 0) == (a == 1u8)
        &&& ((bits & 2u8) != 0) == (b == 2u8)
        &&& bits & !0x3u8 == 0
    }) by (bit_vector)
        requires
            bits == a | b,
            a == 0u8 || a == 1u8,
            b == 0u8 || b == 2u8,
    ;
    CommandPoolCreateFlags { bits }
}

/// Whether a reset of a command pool or buffer releases its resources.
pub fn pool_reset_releases(flags: u32) -> (r: bool)
    ensures
        r == (flags & VkCommandPoolResetFlagBits::VK_COMMAND_POOL_RESET_RELEASE_RESOURCES_BIT.value()
            != 0),
{
    flags & VkCommandPoolResetFlagBits::VK_COMMAND_POOL_RESET_RELEASE_RESOURCES_BIT.as_raw() != 0
}

pub fn buffer_reset_releases(flags: u32) -> (r: bool)
    ensures
        r == (flags
            & VkCommandBufferResetFlagBits::VK_COMMAND_BUFFER_RESET_RELEASE_RESOURCES_BIT.value()
            != 0),
{
    flags & VkCommandBufferResetFlagBits::VK_COMMAND_BUFFER_RESET_RELEASE_RESOURCES_BIT.as_raw()
        != 0
}

/// The level of a command buffer: primary or secondary.
#[derive(Clone, Copy, Debug, PartialEq, Eq, Structural)]
pub enum Level {
    Primary,
    Secondary,
}

pub fn command_buffer_level(level: VkCommandBufferLevel) -> (r: Level)
    requires
        level.value() <= VkCommandBufferLevel::VK_COMMAND_BUFFER_LEVEL_SECONDARY.value(),
    ensures
        level == VkCommandBufferLevel::VK_COMMAND_BUFFER_LEVEL_PRIMARY ==> r == Level::Primary,
        level == VkCommandBufferLevel::VK_COMMAND_BUFFER_LEVEL_SECONDARY ==> r == Level::Secondary,
{
    match level {
        VkCommandBufferLevel::VK_COMMAND_BUFFER_LEVEL_PRIMARY => Level::Primary,
        _ => Level::Secondary,
    }
}

// ---------------------------------------------------------------------------
// Memory, buffer views, layouts and queries.

/// The layout of a subresource of an image, from where the backend places
/// it: the offset and size of its byte slice and its pitches.
pub fn subresource_layout(
    slice_start: u64,
    slice_end: u64,
    row_pitch: u64,
    array_pitch: u64,
    depth_pitch: u64,
) -> (r: VkSubresourceLayout)
    requires
        slice_start <= slice_end,
    ensures
        r.offset == slice_start,
        r.size == slice_end - slice_start,
        r.rowPitch == row_pitch,
        r.arrayPitch == array_pitch,
        r.depthPitch == depth_pitch,
{
    VkSubresourceLayout {
        offset: slice_start,
        size: slice_end - slice_start,
        rowPitch: row_pitch,
        arrayPitch: array_pitch,
        depthPitch: depth_pitch,
    }
}

/// The range of a buffer view: from the offset, to the end of the buffer
/// where the low 32 bits of the range, read as a signed number, are the
/// whole-size marker.
pub fn buffer_view_range(offset: u64, range: u64) -> (r: (u64, Option<u64>))
    ensures
        r.0 == offset,
        (range as i32) == -1i32 ==> r.1 is None,
        (range as i32) != -1i32 ==> r.1 == Some(range),
{
    (offset, if range as i32 == -1i32 { None } else { Some(range) })
}

/// The segment of a mapped memory range: from the offset, to the end of the
/// memory where the size is the whole-size marker.
pub fn mapped_segment(offset: u64, size: u64) -> (r: (u64, Option<u64>))
    ensures
        r.0 == offset,
        size == u64::MAX ==> r.1 is None,
        size != u64::MAX ==> r.1 == Some(size),
{
    (offset, if size == u64::MAX { None } else { Some(size) })
}

/// A push constant range of a pipeline layout: its stages, and its bytes
/// from the offset for the size.
pub fn push_constant_range(range: &VkPushConstantRange) -> (r: (ShaderStageFlags, u32, u32))
    requires
        range.offset + range.size <= u32::MAX,
    ensures
        stage_flags_match(range.stageFlags, r.0),
        r.1 == range.offset,
        r.2 == range.offset + range.size,
{
    (map_stage_flags(range.stageFlags), range.offset, range.offset + range.size)
}

/// The Vulkan result of creating a query pool: out of device memory on any
/// failure.
pub fn query_pool_result(created: bool) -> (r: VkResult)
    ensures
        created ==> r == VkResult::VK_SUCCESS,
        !created ==> r == VkResult::VK_ERROR_OUT_OF_DEVICE_MEMORY,
{
    if created {
        VkResult::VK_SUCCESS
    } else {
        VkResult::VK_ERROR_OUT_OF_DEVICE_MEMORY
    }
}

/// The Vulkan result of creating a buffer view: a view the backend does not
/// support is reported as incomplete.
pub fn buffer_view_result(created: bool) -> (r: VkResult)
    ensures
        created ==> r == VkResult::VK_SUCCESS,
        !created ==> r == VkResult::VK_INCOMPLETE,
{
    if created {
        VkResult::VK_SUCCESS
    } else {
        VkResult::VK_INCOMPLETE
    }
}

} // verus!
