use portability_gfx::graphics_pipeline::{
    graphics_info_is_supported, graphics_pipeline_desc, ColorBlendInfo, GraphicsPipelineInfo, MultisampleInfo, ViewportInfo,
};
use portability_gfx::hal::format::Format;
use portability_gfx::hal::image::Layout;
use portability_gfx::hal::pass::{AttachmentLoadOp, AttachmentStoreOp};
use portability_gfx::hal::pso::{
    Comparison, DepthTest, PolygonMode, Primitive, Sided, State, StencilOp, VertexInputRate,
};
use portability_gfx::pipeline::{
    base_pipeline, choose_state, dynamic_states_in_use, gather_specialization,
    has_dynamic_state, map_input_assembler, map_pipeline_creation_flags, map_stencil_state,
    map_vertex_attribute, map_vertex_binding, pipelines_result, shader_slot,
    specialization_constants, BasePipelineChoice, DepthStencilState, ShaderSlot,
    StageSpecialization,
};
use portability_gfx::render_pass::{
    map_depth_stencil_ref, map_subpass_ref, render_pass_desc, render_pass_is_supported, SubpassInfo, VK_ATTACHMENT_UNUSED,
    VK_SUBPASS_EXTERNAL,
};
use portability_gfx::vk_enums::{
    VkAttachmentLoadOp, VkAttachmentStoreOp, VkCompareOp, VkDynamicState, VkFormat, VkFrontFace,
    VkImageLayout, VkLogicOp, VkPolygonMode, VkPrimitiveTopology, VkResult,
    VkSampleCountFlagBits, VkShaderStageFlagBits, VkStencilOp, VkVertexInputRate,
};
use portability_gfx::vk_structs::{
    VkAttachmentDescription, VkAttachmentReference, VkExtent2D, VkOffset2D, VkRect2D,
    VkSpecializationMapEntry, VkStencilOpState, VkSubpassDependency,
    VkVertexInputAttributeDescription, VkVertexInputBindingDescription,
};

fn entry(id: u32, offset: u32, size: usize) -> VkSpecializationMapEntry {
    VkSpecializationMapEntry { constantID: id, offset, size }
}

#[test]
fn specialization_ranges_follow_earlier_data() {
    let c = specialization_constants(&[entry(7, 0, 4), entry(9, 4, 2)], 10);
    assert_eq!(c.len(), 2);
    assert_eq!((c[0].id, c[0].range.start, c[0].range.end), (7, 10, 14));
    assert_eq!((c[1].id, c[1].range.start, c[1].range.end), (9, 14, 16));
}

#[test]
fn specialization_positions_are_sixteen_bit() {
    let c = specialization_constants(&[entry(3, 2, 4)], 65536 + 10);
    assert_eq!((c[0].range.start, c[0].range.end), (12, 16));
    let c = specialization_constants(&[entry(3, 65536 + 2, 4)], 10);
    assert_eq!((c[0].range.start, c[0].range.end), (12, 16));
}

#[test]
fn gathered_specialization_keeps_each_stage_apart() {
    let stages = vec![
        StageSpecialization { entries: vec![entry(0, 0, 4)], data: vec![1, 2, 3, 4] },
        StageSpecialization { entries: vec![], data: vec![] },
        StageSpecialization { entries: vec![entry(1, 2, 2), entry(2, 0, 2)], data: vec![5, 6, 7, 8] },
    ];
    let g = gather_specialization(&stages).unwrap();
    assert_eq!(g.data, vec![1, 2, 3, 4, 5, 6, 7, 8]);
    assert_eq!(g.slices, vec![(0, 1), (1, 1), (1, 3)]);
    assert_eq!((g.constants[1].range.start, g.constants[1].range.end), (6, 8));
    assert_eq!(&g.data[6..8], &[7, 8]);
    assert_eq!((g.constants[2].range.start, g.constants[2].range.end), (4, 6));
}

#[test]
fn gathered_specialization_refuses_ranges_past_sixteen_bits() {
    let stages = vec![
        StageSpecialization { entries: vec![entry(0, 0, 4)], data: vec![0; 65530] },
        StageSpecialization { entries: vec![entry(1, 2, 4)], data: vec![0; 6] },
    ];
    assert!(gather_specialization(&stages).is_none());
    let fits = vec![
        StageSpecialization { entries: vec![entry(0, 0, 4)], data: vec![0; 65530] },
        StageSpecialization { entries: vec![entry(1, 1, 4)], data: vec![0; 5] },
    ];
    let g = gather_specialization(&fits).unwrap();
    assert_eq!((g.constants[1].range.start, g.constants[1].range.end), (65531, 65535));
}

#[test]
fn dynamic_states_are_dropped_when_discarding() {
    let states = [VkDynamicState::VK_DYNAMIC_STATE_VIEWPORT, VkDynamicState::VK_DYNAMIC_STATE_SCISSOR];
    assert_eq!(dynamic_states_in_use(Some(&states), false), states.to_vec());
    assert!(dynamic_states_in_use(Some(&states), true).is_empty());
    assert!(dynamic_states_in_use(None, false).is_empty());
    assert!(has_dynamic_state(&states, VkDynamicState::VK_DYNAMIC_STATE_SCISSOR));
    assert_eq!(choose_state(&states, VkDynamicState::VK_DYNAMIC_STATE_LINE_WIDTH, 3u32), State::Static(3));
    assert_eq!(choose_state(&states, VkDynamicState::VK_DYNAMIC_STATE_VIEWPORT, 3u32), State::Dynamic);
}

#[test]
fn vertex_input_maps_per_binding() {
    let b = map_vertex_binding(&VkVertexInputBindingDescription { binding: 1, stride: 16, inputRate: VkVertexInputRate::VK_VERTEX_INPUT_RATE_INSTANCE });
    assert_eq!((b.binding, b.stride, b.rate), (1, 16, VertexInputRate::Instance(1)));
    let a = map_vertex_attribute(&VkVertexInputAttributeDescription { location: 2, binding: 1, format: VkFormat::VK_FORMAT_R32G32_SFLOAT, offset: 8 });
    assert_eq!((a.location, a.binding, a.format, a.offset), (2, 1, Format { id: VkFormat::VK_FORMAT_R32G32_SFLOAT.as_raw() }, 8));
}

#[test]
fn unsupported_topology_falls_back_to_points() {
    let ia = map_input_assembler(VkPrimitiveTopology::VK_PRIMITIVE_TOPOLOGY_TRIANGLE_FAN, None);
    assert_eq!((ia.primitive, ia.with_adjacency), (Primitive::PointList, false));
    let ia = map_input_assembler(VkPrimitiveTopology::VK_PRIMITIVE_TOPOLOGY_PATCH_LIST, Some(4));
    assert_eq!(ia.primitive, Primitive::PatchList(4));
}

#[test]
fn stencil_faces_map_their_operations() {
    let s = map_stencil_state(&VkStencilOpState {
        failOp: VkStencilOp::VK_STENCIL_OP_KEEP,
        passOp: VkStencilOp::VK_STENCIL_OP_REPLACE,
        depthFailOp: VkStencilOp::VK_STENCIL_OP_INVERT,
        compareOp: VkCompareOp::VK_COMPARE_OP_GREATER,
        compareMask: 0xFF,
        writeMask: 0xF,
        reference: 1,
    });
    assert_eq!((s.fun, s.op_fail, s.op_depth_fail, s.op_pass), (Comparison::Greater, StencilOp::Keep, StencilOp::Invert, StencilOp::Replace));
}

#[test]
fn pipeline_parents_and_flags() {
    assert_eq!(base_pipeline(true, 0, 5), BasePipelineChoice::Handle);
    assert_eq!(base_pipeline(false, 0x4, 2), BasePipelineChoice::Index(2));
    assert_eq!(base_pipeline(false, 0x4, 0), BasePipelineChoice::Index(0));
    assert_eq!(base_pipeline(false, 0x4, -1), BasePipelineChoice::Independent);
    assert_eq!(base_pipeline(false, 0, 3), BasePipelineChoice::Independent);
    assert_eq!(map_pipeline_creation_flags(0x1 | 0x2 | 0x4).bits, 0x3);
    assert_eq!(map_pipeline_creation_flags(0x4).bits, 0);
}

#[test]
fn shader_stages_fill_slots() {
    assert_eq!(shader_slot(VkShaderStageFlagBits::VK_SHADER_STAGE_TESSELLATION_EVALUATION_BIT, false), ShaderSlot::Domain);
    assert_eq!(shader_slot(VkShaderStageFlagBits::VK_SHADER_STAGE_FRAGMENT_BIT, false), ShaderSlot::Fragment);
}

#[test]
fn one_failed_pipeline_fails_the_call() {
    assert_eq!(pipelines_result(&[true, true]), VkResult::VK_SUCCESS);
    assert_eq!(pipelines_result(&[true, false, true]), VkResult::VK_ERROR_INCOMPATIBLE_DRIVER);
    assert_eq!(pipelines_result(&[]), VkResult::VK_SUCCESS);
}

fn stencil_face() -> VkStencilOpState {
    VkStencilOpState {
        failOp: VkStencilOp::VK_STENCIL_OP_KEEP,
        passOp: VkStencilOp::VK_STENCIL_OP_KEEP,
        depthFailOp: VkStencilOp::VK_STENCIL_OP_KEEP,
        compareOp: VkCompareOp::VK_COMPARE_OP_ALWAYS,
        compareMask: 1,
        writeMask: 2,
        reference: 3,
    }
}

fn basic_info() -> GraphicsPipelineInfo {
    GraphicsPipelineInfo {
        flags: 0,
        stages: vec![VkShaderStageFlagBits::VK_SHADER_STAGE_VERTEX_BIT, VkShaderStageFlagBits::VK_SHADER_STAGE_FRAGMENT_BIT],
        rasterizer_discard: false,
        polygon_mode: VkPolygonMode::VK_POLYGON_MODE_LINE,
        cull_mode: 2,
        front_face: VkFrontFace::VK_FRONT_FACE_CLOCKWISE,
        depth_clamp_enable: 0,
        depth_bias_enable: 1,
        dynamic_states: Some(vec![VkDynamicState::VK_DYNAMIC_STATE_VIEWPORT, VkDynamicState::VK_DYNAMIC_STATE_STENCIL_REFERENCE]),
        vertex_bindings: vec![VkVertexInputBindingDescription { binding: 0, stride: 12, inputRate: VkVertexInputRate::VK_VERTEX_INPUT_RATE_VERTEX }],
        vertex_attributes: vec![VkVertexInputAttributeDescription { location: 0, binding: 0, format: VkFormat::VK_FORMAT_R32G32B32_SFLOAT, offset: 0 }],
        topology: VkPrimitiveTopology::VK_PRIMITIVE_TOPOLOGY_TRIANGLE_LIST,
        patch_control_points: 0,
        color_blend: Some(ColorBlendInfo { logic_op_enable: 1, logic_op: VkLogicOp::VK_LOGIC_OP_COPY, attachments: vec![] }),
        multisample: Some(MultisampleInfo { rasterization_samples: VkSampleCountFlagBits::VK_SAMPLE_COUNT_4_BIT, sample_shading_enable: 0, alpha_to_coverage_enable: 1, alpha_to_one_enable: 0 }),
        depth_stencil: Some(DepthStencilState {
            depth_test_enable: 1,
            depth_write_enable: 1,
            depth_compare_op: VkCompareOp::VK_COMPARE_OP_LESS,
            depth_bounds_test_enable: 0,
            stencil_test_enable: 1,
            front: stencil_face(),
            back: stencil_face(),
        }),
        viewport: Some(ViewportInfo {
            has_viewports: true,
            scissor: Some(VkRect2D { offset: VkOffset2D { x: 0, y: 0 }, extent: VkExtent2D { width: 64, height: 32 } }),
        }),
        has_base_handle: false,
        base_index: -1,
        subpass: 1,
    }
}

#[test]
fn graphics_pipeline_description() {
    let d = graphics_pipeline_desc(&basic_info());
    assert_eq!(d.shaders.vertex, 0);
    assert_eq!(d.shaders.fragment, Some(1));
    assert_eq!(d.shaders.hull, None);
    assert_eq!(d.rasterizer.polygon_mode, PolygonMode::Line);
    assert_eq!(d.rasterizer.cull_face.bits, 2);
    assert_eq!(d.rasterizer.depth_bias_dynamic, Some(false));
    assert!(!d.rasterizer.line_width_dynamic);
    assert_eq!(d.vertex_buffers.len(), 1);
    assert_eq!(d.attributes[0].format.id, VkFormat::VK_FORMAT_R32G32B32_SFLOAT.as_raw());
    assert_eq!(d.input_assembler.primitive, Primitive::TriangleList);
    assert_eq!(d.logic_op, Some(portability_gfx::hal::pso::LogicOp::Copy));
    let ms = d.multisampling.unwrap();
    assert_eq!((ms.rasterization_samples, ms.sample_shading, ms.alpha_coverage), (4, false, true));
    assert_eq!(d.depth_stencil.depth, Some(DepthTest { fun: Comparison::Less, write: true }));
    let stencil = d.depth_stencil.stencil.unwrap();
    assert_eq!(stencil.read_masks, State::Static(Sided { front: 1, back: 1 }));
    assert_eq!(stencil.reference_values, State::Dynamic);
    assert!(!d.baked.viewport);
    assert_eq!(d.baked.scissor.map(|r| (r.w, r.h)), Some((64, 32)));
    assert!(d.baked.blend_color);
    assert!(d.baked.depth_bounds);
    assert_eq!(d.subpass, 1);
    assert_eq!(d.parent, BasePipelineChoice::Independent);
}

#[test]
fn graphics_pipeline_support_is_checked() {
    assert!(graphics_info_is_supported(&basic_info()));
    let mut info = basic_info();
    info.stages = vec![VkShaderStageFlagBits::VK_SHADER_STAGE_FRAGMENT_BIT];
    assert!(!graphics_info_is_supported(&info));
    let mut info = basic_info();
    info.rasterizer_discard = true;
    assert!(graphics_info_is_supported(&info));
    let mut info = basic_info();
    info.polygon_mode = VkPolygonMode::VK_POLYGON_MODE_RANGE_SIZE;
    assert!(!graphics_info_is_supported(&info));
    let mut info = basic_info();
    info.cull_mode = 4;
    assert!(!graphics_info_is_supported(&info));
    let mut info = basic_info();
    info.depth_stencil.as_mut().unwrap().depth_compare_op = VkCompareOp::VK_COMPARE_OP_MAX_ENUM;
    assert!(!graphics_info_is_supported(&info));
    info.rasterizer_discard = true;
    info.stages = vec![VkShaderStageFlagBits::VK_SHADER_STAGE_VERTEX_BIT];
    assert!(graphics_info_is_supported(&info));
}

#[test]
fn discarding_pipelines_drop_fragment_state() {
    let mut info = basic_info();
    info.rasterizer_discard = true;
    info.stages = vec![VkShaderStageFlagBits::VK_SHADER_STAGE_VERTEX_BIT];
    let d = graphics_pipeline_desc(&info);
    assert_eq!(d.shaders.fragment, None);
    assert_eq!(d.multisampling, None);
    assert_eq!(d.depth_stencil.depth, None);
    assert_eq!(d.depth_stencil.stencil, None);
    assert_eq!(d.baked.scissor, None);
    // with no dynamic state in use, a viewport state would be baked in, but
    // none is read when primitives are discarded
    assert!(!d.baked.viewport);
}

#[test]
fn discarding_pipelines_ignore_their_fragment_stage() {
    let mut info = basic_info();
    info.rasterizer_discard = true;
    let d = graphics_pipeline_desc(&info);
    assert_eq!(d.shaders.vertex, 0);
    assert_eq!(d.shaders.fragment, None);
    assert_eq!(d.multisampling, None);
    assert_eq!(d.depth_stencil.depth, None);
    assert_eq!(d.baked.scissor, None);
    assert!(!d.baked.viewport);
    assert_eq!(shader_slot(VkShaderStageFlagBits::VK_SHADER_STAGE_FRAGMENT_BIT, true), ShaderSlot::Ignored);
}

#[test]
fn tessellation_takes_the_patch_size() {
    let mut info = basic_info();
    info.stages.push(VkShaderStageFlagBits::VK_SHADER_STAGE_TESSELLATION_CONTROL_BIT);
    info.topology = VkPrimitiveTopology::VK_PRIMITIVE_TOPOLOGY_PATCH_LIST;
    info.patch_control_points = 3;
    let d = graphics_pipeline_desc(&info);
    assert_eq!(d.shaders.hull, Some(2));
    assert_eq!(d.input_assembler.primitive, Primitive::PatchList(3));
}

fn attachment() -> VkAttachmentDescription {
    VkAttachmentDescription {
        flags: 0,
        format: VkFormat::VK_FORMAT_B8G8R8A8_UNORM,
        samples: VkSampleCountFlagBits::VK_SAMPLE_COUNT_1_BIT,
        loadOp: VkAttachmentLoadOp::VK_ATTACHMENT_LOAD_OP_CLEAR,
        storeOp: VkAttachmentStoreOp::VK_ATTACHMENT_STORE_OP_STORE,
        stencilLoadOp: VkAttachmentLoadOp::VK_ATTACHMENT_LOAD_OP_DONT_CARE,
        stencilStoreOp: VkAttachmentStoreOp::VK_ATTACHMENT_STORE_OP_DONT_CARE,
        initialLayout: VkImageLayout::VK_IMAGE_LAYOUT_UNDEFINED,
        finalLayout: VkImageLayout::VK_IMAGE_LAYOUT_PRESENT_SRC_KHR,
    }
}

#[test]
fn render_pass_description() {
    let color = VkAttachmentReference { attachment: 0, layout: VkImageLayout::VK_IMAGE_LAYOUT_COLOR_ATTACHMENT_OPTIMAL };
    let unused_depth = VkAttachmentReference { attachment: VK_ATTACHMENT_UNUSED, layout: VkImageLayout::VK_IMAGE_LAYOUT_DEPTH_STENCIL_ATTACHMENT_OPTIMAL };
    let subpass = SubpassInfo { inputs: vec![], colors: vec![color], resolves: None, depth_stencil: Some(unused_depth), preserves: vec![3] };
    let dep = VkSubpassDependency {
        srcSubpass: VK_SUBPASS_EXTERNAL,
        dstSubpass: 0,
        srcStageMask: 0x400,
        dstStageMask: 0x400,
        srcAccessMask: 0,
        dstAccessMask: 0x100,
        dependencyFlags: 0,
    };
    assert!(render_pass_is_supported(&[attachment()], &[subpass.clone()]));
    let mut flagged = attachment();
    flagged.flags = 1;
    assert!(!render_pass_is_supported(&[flagged], &[subpass.clone()]));
    let odd = VkAttachmentReference { attachment: 0, layout: VkImageLayout::VK_IMAGE_LAYOUT_MAX_ENUM };
    let odd_subpass = SubpassInfo { inputs: vec![odd], colors: vec![], resolves: None, depth_stencil: None, preserves: vec![] };
    assert!(!render_pass_is_supported(&[attachment()], &[subpass.clone(), odd_subpass]));
    let rp = render_pass_desc(&[attachment()], &[subpass], &[dep]);
    let a = rp.attachments[0];
    assert_eq!(a.format, Some(Format { id: VkFormat::VK_FORMAT_B8G8R8A8_UNORM.as_raw() }));
    assert_eq!(a.samples, 1);
    assert_eq!((a.ops.load, a.ops.store), (AttachmentLoadOp::Clear, AttachmentStoreOp::Store));
    assert_eq!((a.initial_layout, a.final_layout), (Layout::Undefined, Layout::Present));
    let s = &rp.subpasses[0];
    assert_eq!(s.colors.len(), 1);
    assert_eq!((s.colors[0].attachment, s.colors[0].layout), (0, Layout::ColorAttachmentOptimal));
    assert_eq!(s.depth_stencil, None);
    assert!(s.resolves.is_empty());
    assert_eq!(s.preserves, vec![3]);
    let d = rp.dependencies[0];
    assert_eq!((d.src_pass, d.dst_pass), (None, Some(0)));
    assert_eq!((d.src_stage.bits, d.dst_access.bits, d.src_access.bits), (0x400, 0x100, 0));
}

#[test]
fn attachment_references_and_subpass_indices() {
    let used = VkAttachmentReference { attachment: 1, layout: VkImageLayout::VK_IMAGE_LAYOUT_GENERAL };
    assert_eq!(map_depth_stencil_ref(Some(&used)).map(|r| r.attachment), Some(1));
    assert_eq!(map_depth_stencil_ref(None), None);
    assert_eq!(map_subpass_ref(VK_SUBPASS_EXTERNAL), None);
    assert_eq!(map_subpass_ref(2), Some(2));
}
