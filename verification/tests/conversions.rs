use portability_gfx::conv::{
    features_from_hal, format_from_hal, map_aspect, map_attachment_load_op, map_blend_op,
    map_buffer_access, map_buffer_usage, map_clear_rect, map_color_components,
    map_composite_alpha, map_compare_op, map_cull_face, map_dependency_flags,
    map_descriptor_type, map_err_device_creation, map_extent, map_extent2d, map_features,
    map_filter, map_format, map_image_access, map_image_kind, map_image_layout, map_image_usage,
    map_image_usage_from_hal, map_index_type, map_logic_op, map_pipeline_stage_flags,
    map_present_mode, map_primitive_topology, map_query_type, map_rect, map_stage_flags,
    map_stencil_face, map_stencil_op, map_swizzle, map_view_kind, map_wrap_mode,
    extent2d_from_hal, extent3d_from_hal, memory_properties_from_hal, vk_bool, VK_FALSE, VK_TRUE,
};
use portability_gfx::hal::buffer::Access as BufferAccess;
use portability_gfx::hal::device::{CreationError, OutOfMemory};
use portability_gfx::hal::format::{Aspects, Component, Format};
use portability_gfx::hal::image::{Extent, Filter, Kind, Layout, Usage, ViewKind, WrapMode};
use portability_gfx::hal::memory::{Dependencies, Properties};
use portability_gfx::hal::pass::AttachmentLoadOp;
use portability_gfx::hal::pso::{
    BlendOp, Comparison, DescriptorType, Factor, ImageDescriptorType, LogicOp, PipelineStage,
    Primitive, StencilOp,
};
use portability_gfx::hal::query::{PipelineStatistic, Type};
use portability_gfx::hal::window::{CompositeAlphaMode, Extent2D};
use portability_gfx::hal::{Features, IndexType};
use portability_gfx::vk_enums::{
    VkAttachmentLoadOp, VkBlendFactor, VkBlendOp, VkCompareOp, VkComponentSwizzle,
    VkCompositeAlphaFlagBitsKHR, VkDescriptorType, VkFilter, VkFormat, VkImageLayout,
    VkImageType, VkImageViewType, VkIndexType, VkLogicOp, VkPresentModeKHR,
    VkPrimitiveTopology, VkQueryType, VkResult, VkSampleCountFlagBits, VkSamplerAddressMode,
    VkStencilOp,
};
use portability_gfx::vk_structs::{
    VkClearRect, VkComponentMapping, VkExtent2D, VkExtent3D, VkOffset2D, VkRect2D,
};

#[test]
fn format_numbers_agree_both_ways() {
    let f = map_format(VkFormat::VK_FORMAT_R8G8B8A8_UNORM).unwrap();
    assert_eq!(f.id, VkFormat::VK_FORMAT_R8G8B8A8_UNORM.as_raw());
    assert_eq!(format_from_hal(f), VkFormat::VK_FORMAT_R8G8B8A8_UNORM);
    assert_eq!(map_format(VkFormat::VK_FORMAT_UNDEFINED), None);
    let last = Format { id: 184 };
    assert_eq!(format_from_hal(last).as_raw(), 184);
    assert_eq!(map_format(format_from_hal(last)), Some(last));
}

#[test]
fn features_survive_a_round_trip() {
    let flags = Features { bits: Features::GEOMETRY_SHADER | Features::SAMPLER_ANISOTROPY | Features::INHERITED_QUERIES };
    let list = features_from_hal(flags);
    assert_eq!(list.geometryShader, VK_TRUE);
    assert_eq!(list.samplerAnisotropy, VK_TRUE);
    assert_eq!(list.inheritedQueries, VK_TRUE);
    assert_eq!(list.robustBufferAccess, VK_FALSE);
    assert_eq!(map_features(&list), flags);
}

#[test]
fn any_nonzero_feature_value_enables_it() {
    let mut list = features_from_hal(Features { bits: 0 });
    list.depthClamp = 7;
    list.logicOp = 1;
    let back = map_features(&list);
    assert_eq!(back.bits, Features::DEPTH_CLAMP | Features::LOGIC_OP);
    let relisted = features_from_hal(back);
    assert_eq!(relisted.depthClamp, VK_TRUE);
    assert_eq!(relisted.logicOp, VK_TRUE);
}

#[test]
fn feature_flags_beyond_the_list_are_not_listed() {
    let flags = Features { bits: (1u128 << 60) | Features::DEPTH_BOUNDS };
    let back = map_features(&features_from_hal(flags));
    assert_eq!(back.bits, Features::DEPTH_BOUNDS);
}

#[test]
fn image_usage_keeps_known_flags() {
    assert_eq!(map_image_usage(0x1FF).bits, 0xFF);
    assert_eq!(map_image_usage_from_hal(map_image_usage(0x12)), 0x12);
    assert_eq!(map_image_usage(map_image_usage_from_hal(Usage { bits: 0x81 })), Usage { bits: 0x81 });
}

#[test]
fn aspects_map_one_for_one() {
    assert_eq!(map_aspect(0x4), Aspects { bits: Aspects::STENCIL });
    assert_eq!(map_aspect(0x2), Aspects { bits: Aspects::DEPTH });
    assert_eq!(map_aspect(0x1), Aspects { bits: Aspects::COLOR });
    assert_eq!(map_aspect(0x7), Aspects { bits: Aspects::COLOR | Aspects::DEPTH | Aspects::STENCIL });
}

#[test]
fn access_flags_carry_over() {
    // shader read (0x20) and host write (0x4000)
    assert_eq!(map_image_access(0x20 | 0x4000).bits, 0x20 | 0x4000);
    // index read becomes index buffer read; vertex attribute read becomes vertex buffer read
    assert_eq!(map_buffer_access(0x2).bits, BufferAccess::INDEX_BUFFER_READ);
    assert_eq!(map_buffer_access(0x4).bits, 0x4);
    assert_eq!(map_image_access(0x1).bits, 0);
}

#[test]
fn buffer_usage_carries_over() {
    // transfer source, uniform buffer, vertex buffer
    assert_eq!(map_buffer_usage(0x1 | 0x10 | 0x80).bits, 0x1 | 0x10 | 0x80);
}

#[test]
fn late_pipeline_stages_mean_all_stages() {
    assert_eq!(map_pipeline_stage_flags(0x4000), PipelineStage { bits: 0x4000 });
    assert_eq!(map_pipeline_stage_flags(0x10000), PipelineStage { bits: PipelineStage::ALL });
    assert_eq!(map_pipeline_stage_flags(0x1 | 0x20000), PipelineStage { bits: PipelineStage::ALL });
}

#[test]
fn dependency_flags_beyond_by_region_mean_all() {
    assert_eq!(map_dependency_flags(0), Dependencies { bits: 0 });
    assert_eq!(map_dependency_flags(1), Dependencies { bits: 1 });
    assert_eq!(map_dependency_flags(2), Dependencies { bits: Dependencies::ALL });
}

#[test]
fn device_creation_errors_map_to_vulkan_errors() {
    assert_eq!(map_err_device_creation(CreationError::OutOfMemory(OutOfMemory::Host)), VkResult::VK_ERROR_OUT_OF_HOST_MEMORY);
    assert_eq!(map_err_device_creation(CreationError::OutOfMemory(OutOfMemory::Device)), VkResult::VK_ERROR_OUT_OF_DEVICE_MEMORY);
    assert_eq!(map_err_device_creation(CreationError::InitializationFailed), VkResult::VK_ERROR_INITIALIZATION_FAILED);
    assert_eq!(map_err_device_creation(CreationError::MissingExtension), VkResult::VK_ERROR_EXTENSION_NOT_PRESENT);
    assert_eq!(map_err_device_creation(CreationError::MissingFeature), VkResult::VK_ERROR_FEATURE_NOT_PRESENT);
    assert_eq!(map_err_device_creation(CreationError::TooManyObjects), VkResult::VK_ERROR_TOO_MANY_OBJECTS);
    assert_eq!(map_err_device_creation(CreationError::DeviceLost), VkResult::VK_ERROR_DEVICE_LOST);
}

#[test]
fn triangle_fans_have_no_primitive() {
    assert_eq!(map_primitive_topology(VkPrimitiveTopology::VK_PRIMITIVE_TOPOLOGY_TRIANGLE_FAN, 0), None);
    assert_eq!(
        map_primitive_topology(VkPrimitiveTopology::VK_PRIMITIVE_TOPOLOGY_TRIANGLE_LIST, 0),
        Some((Primitive::TriangleList, false))
    );
    assert_eq!(
        map_primitive_topology(VkPrimitiveTopology::VK_PRIMITIVE_TOPOLOGY_LINE_STRIP_WITH_ADJACENCY, 0),
        Some((Primitive::LineStrip, true))
    );
    assert_eq!(
        map_primitive_topology(VkPrimitiveTopology::VK_PRIMITIVE_TOPOLOGY_PATCH_LIST, 3),
        Some((Primitive::PatchList(3), false))
    );
}

#[test]
fn present_modes_become_their_bit() {
    assert_eq!(map_present_mode(VkPresentModeKHR::VK_PRESENT_MODE_IMMEDIATE_KHR).bits, 0x1);
    assert_eq!(map_present_mode(VkPresentModeKHR::VK_PRESENT_MODE_FIFO_KHR).bits, 0x4);
    assert_eq!(map_present_mode(VkPresentModeKHR::VK_PRESENT_MODE_FIFO_RELAXED_KHR).bits, 0x8);
    assert_eq!(map_present_mode(VkPresentModeKHR::VK_PRESENT_MODE_MAX_ENUM_KHR).bits, 0);
}

#[test]
fn composite_alpha_defaults_to_opaque() {
    assert_eq!(map_composite_alpha(VkCompositeAlphaFlagBitsKHR::VK_COMPOSITE_ALPHA_INHERIT_BIT_KHR), CompositeAlphaMode { bits: CompositeAlphaMode::INHERIT });
    assert_eq!(map_composite_alpha(VkCompositeAlphaFlagBitsKHR::VK_COMPOSITE_ALPHA_FLAG_BITS_MAX_ENUM_KHR), CompositeAlphaMode { bits: CompositeAlphaMode::OPAQUE });
}

#[test]
fn operations_map_by_number() {
    assert_eq!(map_compare_op(VkCompareOp::VK_COMPARE_OP_LESS_OR_EQUAL), Comparison::LessEqual);
    assert_eq!(map_logic_op(VkLogicOp::VK_LOGIC_OP_SET), LogicOp::Set_);
    assert_eq!(map_logic_op(VkLogicOp::VK_LOGIC_OP_XOR), LogicOp::Xor);
    assert_eq!(map_stencil_op(VkStencilOp::VK_STENCIL_OP_INCREMENT_AND_WRAP), StencilOp::IncrementWrap);
    assert_eq!(map_attachment_load_op(VkAttachmentLoadOp::VK_ATTACHMENT_LOAD_OP_CLEAR), AttachmentLoadOp::Clear);
}

#[test]
fn blend_ops_carry_factors() {
    assert_eq!(
        map_blend_op(VkBlendOp::VK_BLEND_OP_ADD, VkBlendFactor::VK_BLEND_FACTOR_SRC_ALPHA, VkBlendFactor::VK_BLEND_FACTOR_ONE_MINUS_SRC_ALPHA),
        BlendOp::Add { src: Factor::SrcAlpha, dst: Factor::OneMinusSrcAlpha }
    );
    assert_eq!(
        map_blend_op(VkBlendOp::VK_BLEND_OP_MAX, VkBlendFactor::VK_BLEND_FACTOR_ZERO, VkBlendFactor::VK_BLEND_FACTOR_ONE),
        BlendOp::Max
    );
}

#[test]
fn faces_and_masks_keep_their_bits() {
    assert_eq!(map_stencil_face(3).bits, 3);
    assert_eq!(map_cull_face(2).bits, 2);
    assert_eq!(map_color_components(0xF).bits, 0xF);
    assert_eq!(map_stage_flags(0x1 | 0x10 | 0x20).bits, 0x1 | 0x10 | 0x20);
}

#[test]
fn rectangles_are_cast_to_sixteen_bits() {
    let rect = VkRect2D { offset: VkOffset2D { x: -3, y: 70000 }, extent: VkExtent2D { width: 640, height: 480 } };
    let r = map_rect(&rect);
    assert_eq!((r.x, r.y, r.w, r.h), (-3, 70000i32 as i16, 640, 480));
    let c = map_clear_rect(&VkClearRect { rect, baseArrayLayer: 2, layerCount: 3 });
    assert_eq!((c.layers.start, c.layers.end), (2, 5));
}

#[test]
fn extents_survive_a_round_trip() {
    let e = Extent { width: 4, height: 5, depth: 6 };
    assert_eq!(map_extent(extent3d_from_hal(e)), e);
    let v = VkExtent3D { width: 7, height: 8, depth: 9 };
    assert_eq!(extent3d_from_hal(map_extent(v)), v);
    let e2 = Extent2D { width: 800, height: 600 };
    assert_eq!(map_extent2d(extent2d_from_hal(e2)), e2);
}

#[test]
fn image_kinds_and_views() {
    let extent = VkExtent3D { width: 16, height: 8, depth: 4 };
    assert_eq!(map_image_kind(VkImageType::VK_IMAGE_TYPE_2D, extent, 3, VkSampleCountFlagBits::VK_SAMPLE_COUNT_4_BIT), Kind::D2(16, 8, 3, 4));
    assert_eq!(map_image_kind(VkImageType::VK_IMAGE_TYPE_3D, extent, 1, VkSampleCountFlagBits::VK_SAMPLE_COUNT_1_BIT), Kind::D3(16, 8, 4));
    assert_eq!(map_view_kind(VkImageViewType::VK_IMAGE_VIEW_TYPE_CUBE_ARRAY), ViewKind::CubeArray);
    assert_eq!(map_image_layout(VkImageLayout::VK_IMAGE_LAYOUT_PRESENT_SRC_KHR), Layout::Present);
    assert_eq!(map_image_layout(VkImageLayout::VK_IMAGE_LAYOUT_TRANSFER_DST_OPTIMAL), Layout::TransferDstOptimal);
}

#[test]
fn identity_swizzle_names_the_channels() {
    let s = map_swizzle(VkComponentMapping {
        r: VkComponentSwizzle::VK_COMPONENT_SWIZZLE_IDENTITY,
        g: VkComponentSwizzle::VK_COMPONENT_SWIZZLE_ONE,
        b: VkComponentSwizzle::VK_COMPONENT_SWIZZLE_R,
        a: VkComponentSwizzle::VK_COMPONENT_SWIZZLE_IDENTITY,
    });
    assert_eq!((s.0, s.1, s.2, s.3), (Component::R, Component::One, Component::R, Component::A));
}

#[test]
fn samplers_and_indices() {
    assert_eq!(map_filter(VkFilter::VK_FILTER_LINEAR), Filter::Linear);
    assert_eq!(map_wrap_mode(VkSamplerAddressMode::VK_SAMPLER_ADDRESS_MODE_MIRRORED_REPEAT), WrapMode::Mirror);
    assert_eq!(map_index_type(VkIndexType::VK_INDEX_TYPE_UINT32), IndexType::U32);
}

#[test]
fn query_types_keep_known_statistics() {
    assert_eq!(map_query_type(VkQueryType::VK_QUERY_TYPE_OCCLUSION, 0xFFFF), Type::Occlusion);
    assert_eq!(
        map_query_type(VkQueryType::VK_QUERY_TYPE_PIPELINE_STATISTICS, 0xFFFF),
        Type::PipelineStatistics(PipelineStatistic { bits: 0x7FF })
    );
}

#[test]
fn combined_image_samplers_are_sampled_images_with_samplers() {
    assert_eq!(
        map_descriptor_type(VkDescriptorType::VK_DESCRIPTOR_TYPE_COMBINED_IMAGE_SAMPLER),
        DescriptorType::Image { ty: ImageDescriptorType::Sampled { with_sampler: true } }
    );
}

#[test]
fn memory_properties_carry_over() {
    let p = memory_properties_from_hal(Properties { bits: Properties::DEVICE_LOCAL | Properties::CPU_VISIBLE });
    assert_eq!(p, 0x1 | 0x2);
}

#[test]
fn booleans_become_vulkan_booleans() {
    assert_eq!(vk_bool(true), 1);
    assert_eq!(vk_bool(false), 0);
}

#[test]
fn enumerants_read_back_from_their_values() {
    assert_eq!(VkResult::from_raw(VkResult::VK_ERROR_OUT_OF_DATE_KHR.as_raw()), Some(VkResult::VK_ERROR_OUT_OF_DATE_KHR));
    assert_eq!(VkFormat::from_raw(1000), None);
}
