use portability_gfx::hal::image::{Filter, WrapMode};
use portability_gfx::hal::pso::Comparison;
use portability_gfx::hal::Features;
use portability_gfx::resources::{
    buffer_reset_releases, buffer_view_range, buffer_view_result, command_buffer_level,
    command_pool_flags, fill_portability_features, framebuffer_is_lazy, mapped_segment,
    pool_reset_releases, push_constant_range, query_pool_result, sampler_desc,
    subresource_layout, Level, PortabilityFeatures, SamplerInfo,
};
use portability_gfx::vk_enums::{
    VkCommandBufferLevel, VkCompareOp, VkFilter, VkResult, VkSamplerAddressMode,
    VkSamplerMipmapMode,
};
use portability_gfx::handle::Handle;
use portability_gfx::vk_structs::{
    VkDisplayModeKHR_T, VkDisplayModeParametersKHR, VkDisplayModePropertiesKHR,
    VkDisplayPlanePropertiesKHR, VkExtent2D, VkPushConstantRange,
};

#[test]
fn portability_features_follow_the_device() {
    let mut data = PortabilityFeatures { triangle_fans: 0, separate_stencil_mask_ref: 0, sampler_mip_lod_bias: 0, standard_image_views: 0 };
    fill_portability_features(&mut data, Features { bits: Features::TRIANGLE_FAN | Features::SAMPLER_MIP_LOD_BIAS }, true);
    assert_eq!(data, PortabilityFeatures { triangle_fans: 1, separate_stencil_mask_ref: 0, sampler_mip_lod_bias: 1, standard_image_views: 0 });
    fill_portability_features(&mut data, Features { bits: Features::SEPARATE_STENCIL_REF_VALUES }, false);
    assert_eq!(data, PortabilityFeatures { triangle_fans: 1, separate_stencil_mask_ref: 1, sampler_mip_lod_bias: 1, standard_image_views: 1 });
}

#[test]
fn sampler_description() {
    let info = SamplerInfo {
        mag_filter: VkFilter::VK_FILTER_LINEAR,
        min_filter: VkFilter::VK_FILTER_NEAREST,
        mipmap_mode: VkSamplerMipmapMode::VK_SAMPLER_MIPMAP_MODE_LINEAR,
        address_mode_u: VkSamplerAddressMode::VK_SAMPLER_ADDRESS_MODE_REPEAT,
        address_mode_v: VkSamplerAddressMode::VK_SAMPLER_ADDRESS_MODE_CLAMP_TO_EDGE,
        address_mode_w: VkSamplerAddressMode::VK_SAMPLER_ADDRESS_MODE_CLAMP_TO_BORDER,
        anisotropy_enable: 1,
        compare_enable: 1,
        compare_op: VkCompareOp::VK_COMPARE_OP_NOT_EQUAL,
        unnormalized_coordinates: 0,
    };
    let d = sampler_desc(&info);
    assert_eq!((d.min_filter, d.mag_filter, d.mip_filter), (Filter::Nearest, Filter::Linear, Filter::Linear));
    assert_eq!((d.wrap_u, d.wrap_v, d.wrap_w), (WrapMode::Tile, WrapMode::Clamp, WrapMode::Border));
    assert_eq!(d.comparison, Some(Comparison::NotEqual));
    assert!(d.normalized);
    assert!(d.anisotropy);
    let d = sampler_desc(&SamplerInfo { compare_enable: 0, unnormalized_coordinates: 1, anisotropy_enable: 0, ..info });
    assert_eq!(d.comparison, None);
    assert!(!d.normalized);
    assert!(!d.anisotropy);
}

#[test]
fn framebuffers_with_swapchain_frames_are_lazy() {
    assert!(!framebuffer_is_lazy(&[]));
    assert!(!framebuffer_is_lazy(&[false, false]));
    assert!(framebuffer_is_lazy(&[false, true]));
}

#[test]
fn command_pools_and_buffers() {
    assert_eq!(command_pool_flags(0x1).bits, 0x1);
    assert_eq!(command_pool_flags(0x2).bits, 0x2);
    assert_eq!(command_pool_flags(0x7).bits, 0x3);
    assert!(pool_reset_releases(1));
    assert!(!pool_reset_releases(2));
    assert!(buffer_reset_releases(1));
    assert_eq!(command_buffer_level(VkCommandBufferLevel::VK_COMMAND_BUFFER_LEVEL_SECONDARY), Level::Secondary);
    assert_eq!(command_buffer_level(VkCommandBufferLevel::VK_COMMAND_BUFFER_LEVEL_PRIMARY), Level::Primary);
}

#[test]
fn ranges_and_layouts() {
    let l = subresource_layout(256, 1280, 64, 512, 0);
    assert_eq!((l.offset, l.size, l.rowPitch, l.arrayPitch, l.depthPitch), (256, 1024, 64, 512, 0));
    assert_eq!(buffer_view_range(8, 0xFFFF_FFFF), (8, None));
    assert_eq!(buffer_view_range(8, 100), (8, Some(100)));
    assert_eq!(mapped_segment(0, u64::MAX), (0, None));
    assert_eq!(mapped_segment(0, 0xFFFF_FFFF), (0, Some(0xFFFF_FFFF)));
    let (stages, start, end) = push_constant_range(&VkPushConstantRange { stageFlags: 0x11, offset: 16, size: 32 });
    assert_eq!((stages.bits, start, end), (0x11, 16, 48));
    assert_eq!(query_pool_result(false), VkResult::VK_ERROR_OUT_OF_DEVICE_MEMORY);
    assert_eq!(buffer_view_result(false), VkResult::VK_INCOMPLETE);
    assert_eq!(buffer_view_result(true), VkResult::VK_SUCCESS);
}

#[test]
fn display_properties_hold_their_handles() {
    let plane = VkDisplayPlanePropertiesKHR { currentDisplay: Handle::null(), currentStackIndex: 2 };
    assert!(plane.currentDisplay.is_null());
    assert_eq!(plane.currentStackIndex, 2);
    let mode = VkDisplayModePropertiesKHR {
        displayMode: Handle::new(VkDisplayModeKHR_T {}),
        parameters: VkDisplayModeParametersKHR { visibleRegion: VkExtent2D { width: 640, height: 480 }, refreshRate: 60_000 },
    };
    assert!(!mode.displayMode.is_null());
    assert_eq!(mode.parameters.refreshRate, 60_000);
}
