//! The description of a graphics pipeline that the portability layer makes
//! of the creation info of a Vulkan graphics pipeline. The floating-point
//! parts of the state (depth bias factors, line width, sample shading,
//! viewports, blend constants, depth bounds) travel beside it: the
//! description says where each is baked in and where it is dynamic.

use vstd::prelude::*;

use crate::conv::{
    logic_op_of,
    map_cull_face,
    map_front_face,
    map_logic_op,
    map_rect,
    rect_spec,
    VK_TRUE,
};
use crate::hal::format::NUM_FORMATS;
use crate::hal::pso::{
    AttributeDesc,
    ColorBlendDesc,
    DepthStencilDesc,
    Face,
    FrontFace,
    InputAssemblerDesc,
    LogicOp,
    PipelineCreationFlags,
    PolygonMode,
    Rect,
    VertexBufferDesc,
    VertexInputRate,
};
use crate::pipeline::{
    base_pipeline,
    color_blend_spec,
    depth_stencil_spec,
    color_blend_is_supported,
    color_blend_supported,
    depth_stencil_is_supported,
    depth_stencil_supported,
    has_dynamic_state,
    input_assembler_spec,
    map_color_blend_attachment,
    map_depth_stencil,
    map_input_assembler,
    map_pipeline_creation_flags,
    map_polygon_mode,
    map_vertex_attribute,
    map_vertex_binding,
    polygon_mode_supported,
    shader_slot,
    stage_accepted,
    BasePipelineChoice,
    DepthStencilState,
    ShaderSlot,
};
use crate::vk_enums::{
    VkDynamicState,
    VkFrontFace,
    VkLogicOp,
    VkPolygonMode,
    VkPrimitiveTopology,
    VkSampleCountFlagBits,
    VkShaderStageFlagBits,
    VkVertexInputRate,
};
use crate::vk_structs::{
    VkBool32,
    VkCullModeFlags,
    VkPipelineColorBlendAttachmentState,
    VkRect2D,
    VkVertexInputAttributeDescription,
    VkVertexInputBindingDescription,
};

verus! {

/// The color blend state of a graphics pipeline.
#[derive(Clone, Debug)]
pub struct ColorBlendInfo {
    pub logic_op_enable: VkBool32,
    pub logic_op: VkLogicOp,
    pub attachments: Vec<VkPipelineColorBlendAttachmentState>,
}

/// The multisample state of a graphics pipeline.
#[derive(Clone, Copy, Debug)]
pub struct MultisampleInfo {
    pub rasterization_samples: VkSampleCountFlagBits,
    pub sample_shading_enable: VkBool32,
    pub alpha_to_coverage_enable: VkBool32,
    pub alpha_to_one_enable: VkBool32,
}

/// The viewport state of a graphics pipeline: whether it gives viewports,
/// and its first scissor where it gives scissors.
#[derive(Clone, Copy, Debug)]
pub struct ViewportInfo {
    pub has_viewports: bool,
    pub scissor: Option<VkRect2D>,
}

/// The creation info of a graphics pipeline, as far as its description
/// reads it.
#[derive(Clone, Debug)]
pub struct GraphicsPipelineInfo {
    pub flags: u32,
    pub stages: Vec<VkShaderStageFlagBits>,
    pub rasterizer_discard: bool,
    pub polygon_mode: VkPolygonMode,
    pub cull_mode: VkCullModeFlags,
    pub front_face: VkFrontFace,
    pub depth_clamp_enable: VkBool32,
    pub depth_bias_enable: VkBool32,
    pub dynamic_states: Option<Vec<VkDynamicState>>,
    pub vertex_bindings: Vec<VkVertexInputBindingDescription>,
    pub vertex_attributes: Vec<VkVertexInputAttributeDescription>,
    pub topology: VkPrimitiveTopology,
    pub patch_control_points: u32,
    pub color_blend: Option<ColorBlendInfo>,
    pub multisample: Option<MultisampleInfo>,
    pub depth_stencil: Option<DepthStencilState>,
    pub viewport: Option<ViewportInfo>,
    pub has_base_handle: bool,
    pub base_index: i32,
    pub subpass: u32,
}

/// The shaders of a graphics pipeline, by the index of the stage that gives
/// each.
#[derive(Clone, Copy, Debug, PartialEq, Eq, Structural)]
pub struct ShaderSet {
    pub vertex: usize,
    pub hull: Option<usize>,
    pub domain: Option<usize>,
    pub geometry: Option<usize>,
    pub fragment: Option<usize>,
}

/// The rasterizer: the depth bias where it is on (dynamic or baked), and
/// whether the line width is dynamic.
#[derive(Clone, Copy, Debug, PartialEq, Eq, Structural)]
pub struct RasterizerDesc {
    pub polygon_mode: PolygonMode,
    pub cull_face: Face,
    pub front_face: FrontFace,
    pub depth_clamping: bool,
    pub depth_bias_dynamic: Option<bool>,
    pub line_width_dynamic: bool,
}

/// Multisampling: the sample count, and which options are on.
#[derive(Clone, Copy, Debug, PartialEq, Eq, Structural)]
pub struct MultisamplingDesc {
    pub rasterization_samples: u8,
    pub sample_shading: bool,
    pub alpha_coverage: bool,
    pub alpha_to_one: bool,
}

/// The states baked into the pipeline: whether a viewport, blend constants
/// and depth bounds are, and the scissor where it is.
#[derive(Clone, Copy, Debug, PartialEq, Eq, Structural)]
pub struct BakedStates {
    pub viewport: bool,
    pub scissor: Option<Rect>,
    pub blend_color: bool,
    pub depth_bounds: bool,
}

/// The description of a graphics pipeline.
#[derive(Clone, Debug)]
pub struct GraphicsPipelineDesc {
    pub shaders: ShaderSet,
    pub rasterizer: RasterizerDesc,
    pub vertex_buffers: Vec<VertexBufferDesc>,
    pub attributes: Vec<AttributeDesc>,
    pub input_assembler: InputAssemblerDesc,
    pub logic_op: Option<LogicOp>,
    pub targets: Vec<ColorBlendDesc>,
    pub multisampling: Option<MultisamplingDesc>,
    pub depth_stencil: DepthStencilDesc,
    pub baked: BakedStates,
    pub subpass: u8,
    pub flags: PipelineCreationFlags,
    pub parent: BasePipelineChoice,
}

/// The dynamic states in use: none when all primitives are discarded before
/// rasterization.
pub open spec fn dynamic_states_of(info: GraphicsPipelineInfo) -> Seq<VkDynamicState> {
    match info.dynamic_states {
        Some(v) => if info.rasterizer_discard {
            Seq::empty()
        } else {
            v@
        },
        None => Seq::empty(),
    }
}

pub open spec fn is_dynamic(info: GraphicsPipelineInfo, s: VkDynamicState) -> bool {
    dynamic_states_of(info).contains(s)
}

/// The index of the last of the first `n` stages that is `stage`.
pub open spec fn last_stage(stages: Seq<VkShaderStageFlagBits>, stage: VkShaderStageFlagBits, n: int) -> Option<usize>
    decreases n,
{
    if n <= 0 {
        None
    } else if stages[n - 1] == stage {
        Some((n - 1) as usize)
    } else {
        last_stage(stages, stage, n - 1)
    }
}

/// Whether the description of a graphics pipeline can be made of `info`:
/// every stage fills a shader slot and one is a vertex shader; the
/// rasterization, vertex input, blending and depth-stencil state is what
/// the abstraction layer can express.
pub open spec fn graphics_info_supported(info: GraphicsPipelineInfo) -> bool {
    &&& forall|i: int|
        0 <= i < info.stages@.len() ==> stage_accepted(#[trigger] info.stages@[i])
    &&& last_stage(info.stages@, VkShaderStageFlagBits::VK_SHADER_STAGE_VERTEX_BIT, info.stages@.len() as int) is Some
    &&& polygon_mode_supported(info.polygon_mode)
    &&& info.cull_mode <= 3
    &&& info.front_face.value() <= VkFrontFace::VK_FRONT_FACE_CLOCKWISE.value()
    &&& forall|i: int|
        0 <= i < info.vertex_bindings@.len() ==> (#[trigger] info.vertex_bindings@[i]).inputRate.value()
            <= VkVertexInputRate::VK_VERTEX_INPUT_RATE_INSTANCE.value()
    &&& forall|i: int|
        0 <= i < info.vertex_attributes@.len() ==> 0 < (#[trigger] info.vertex_attributes@[i]).format.value()
            < NUM_FORMATS
    &&& (info.color_blend matches Some(cb) ==> {
        &&& cb.logic_op_enable == VK_TRUE ==> cb.logic_op.value() <= VkLogicOp::VK_LOGIC_OP_SET.value()
        &&& forall|i: int| 0 <= i < cb.attachments@.len() ==> color_blend_supported(#[trigger] cb.attachments@[i])
    })
    &&& (!info.rasterizer_discard && info.depth_stencil is Some ==> depth_stencil_supported(
        info.depth_stencil.unwrap(),
    ))
}

/// The shader set: each slot holds the last stage that fills it; a pipeline
/// that discards all primitives before rasterization has no fragment shader.
pub open spec fn shaders_ok(info: GraphicsPipelineInfo, s: ShaderSet) -> bool {
    let stages = info.stages@;
    let n = stages.len() as int;
    &&& Some(s.vertex) == last_stage(stages, VkShaderStageFlagBits::VK_SHADER_STAGE_VERTEX_BIT, n)
    &&& s.hull == last_stage(stages, VkShaderStageFlagBits::VK_SHADER_STAGE_TESSELLATION_CONTROL_BIT, n)
    &&& s.domain == last_stage(stages, VkShaderStageFlagBits::VK_SHADER_STAGE_TESSELLATION_EVALUATION_BIT, n)
    &&& s.geometry == last_stage(stages, VkShaderStageFlagBits::VK_SHADER_STAGE_GEOMETRY_BIT, n)
    &&& s.fragment == (if info.rasterizer_discard {
        None
    } else {
        last_stage(stages, VkShaderStageFlagBits::VK_SHADER_STAGE_FRAGMENT_BIT, n)
    })
}

/// The rasterizer of `info`.
pub open spec fn rasterizer_ok(info: GraphicsPipelineInfo, r: RasterizerDesc) -> bool {
    &&& info.polygon_mode == VkPolygonMode::VK_POLYGON_MODE_FILL ==> r.polygon_mode == PolygonMode::Fill
    &&& info.polygon_mode == VkPolygonMode::VK_POLYGON_MODE_LINE ==> r.polygon_mode == PolygonMode::Line
    &&& info.polygon_mode == VkPolygonMode::VK_POLYGON_MODE_POINT ==> r.polygon_mode == PolygonMode::Point
    &&& r.cull_face.bits == info.cull_mode
    &&& info.front_face == VkFrontFace::VK_FRONT_FACE_COUNTER_CLOCKWISE ==> r.front_face == FrontFace::CounterClockwise
    &&& info.front_face == VkFrontFace::VK_FRONT_FACE_CLOCKWISE ==> r.front_face == FrontFace::Clockwise
    &&& r.depth_clamping == (info.depth_clamp_enable == VK_TRUE)
    &&& r.depth_bias_dynamic == (if info.depth_bias_enable == VK_TRUE {
        Some(is_dynamic(info, VkDynamicState::VK_DYNAMIC_STATE_DEPTH_BIAS))
    } else {
        None
    })
    &&& r.line_width_dynamic == is_dynamic(info, VkDynamicState::VK_DYNAMIC_STATE_LINE_WIDTH)
}

/// The baked states of `info`: each baked in unless it is dynamic and
/// where the state that gives it is there (viewports and scissors only
/// where primitives are rasterized).
pub open spec fn baked_ok(info: GraphicsPipelineInfo, b: BakedStates) -> bool {
    let vp = if info.rasterizer_discard {
        None
    } else {
        info.viewport
    };
    &&& b.viewport == (!is_dynamic(info, VkDynamicState::VK_DYNAMIC_STATE_VIEWPORT) && (vp matches Some(v)
        && v.has_viewports))
    &&& b.scissor == (if is_dynamic(info, VkDynamicState::VK_DYNAMIC_STATE_SCISSOR) {
        None
    } else {
        match vp {
            Some(v) => match v.scissor {
                Some(s) => Some(rect_spec(s)),
                None => None,
            },
            None => None,
        }
    })
    &&& b.blend_color == (!is_dynamic(info, VkDynamicState::VK_DYNAMIC_STATE_BLEND_CONSTANTS)
        && info.color_blend is Some)
    &&& b.depth_bounds == (!is_dynamic(info, VkDynamicState::VK_DYNAMIC_STATE_DEPTH_BOUNDS)
        && info.depth_stencil is Some)
}

/// Whether a stage is one of a graphics pipeline.
fn stage_is_accepted(stage: VkShaderStageFlagBits) -> (r: bool)
    ensures
        r == stage_accepted(stage),
{
    match stage {
        VkShaderStageFlagBits::VK_SHADER_STAGE_VERTEX_BIT => true,
        VkShaderStageFlagBits::VK_SHADER_STAGE_TESSELLATION_CONTROL_BIT => true,
        VkShaderStageFlagBits::VK_SHADER_STAGE_TESSELLATION_EVALUATION_BIT => true,
        VkShaderStageFlagBits::VK_SHADER_STAGE_GEOMETRY_BIT => true,
        VkShaderStageFlagBits::VK_SHADER_STAGE_FRAGMENT_BIT => true,
        _ => false,
    }
}

/// Whether the stages are those of a graphics pipeline, one of them the
/// vertex shader.
fn stages_are_supported(stages: &[VkShaderStageFlagBits]) -> (r: bool)
    ensures
        r == ((forall|i: int| 0 <= i < stages@.len() ==> stage_accepted(#[trigger] stages@[i]))
            && last_stage(stages@, VkShaderStageFlagBits::VK_SHADER_STAGE_VERTEX_BIT, stages@.len() as int) is Some),
{
    let mut has_vertex = false;
    let mut i: usize = 0;
    while i < stages.len()
        invariant
            i <= stages@.len(),
            forall|k: int| 0 <= k < i ==> stage_accepted(#[trigger] stages@[k]),
            has_vertex == last_stage(stages@, VkShaderStageFlagBits::VK_SHADER_STAGE_VERTEX_BIT, i as int) is Some,
        decreases stages@.len() - i,
    {
        let stage = stages[i];
        if !stage_is_accepted(stage) {
            return false;
        }
        if stage == VkShaderStageFlagBits::VK_SHADER_STAGE_VERTEX_BIT {
            has_vertex = true;
        }
        i = i + 1;
    }
    has_vertex
}

/// Whether the description of a graphics pipeline can be made of `info`
/// (see `graphics_info_supported`).
pub fn graphics_info_is_supported(info: &GraphicsPipelineInfo) -> (r: bool)
    ensures
        r == graphics_info_supported(*info),
{
    if !stages_are_supported(info.stages.as_slice()) {
        return false;
    }
    if !(info.polygon_mode.as_raw() <= VkPolygonMode::VK_POLYGON_MODE_POINT.as_raw()) {
        return false;
    }
    if !(info.cull_mode <= 3 && info.front_face.as_raw() <= VkFrontFace::VK_FRONT_FACE_CLOCKWISE.as_raw()) {
        return false;
    }
    let mut i: usize = 0;
    while i < info.vertex_bindings.len()
        invariant
            i <= info.vertex_bindings@.len(),
            forall|k: int|
                0 <= k < i ==> (#[trigger] info.vertex_bindings@[k]).inputRate.value()
                    <= VkVertexInputRate::VK_VERTEX_INPUT_RATE_INSTANCE.value(),
        decreases info.vertex_bindings@.len() - i,
    {
        if info.vertex_bindings[i].inputRate.as_raw()
            > VkVertexInputRate::VK_VERTEX_INPUT_RATE_INSTANCE.as_raw() {
            return false;
        }
        i = i + 1;
    }
    let mut i: usize = 0;
    while i < info.vertex_attributes.len()
        invariant
            i <= info.vertex_attributes@.len(),
            forall|k: int|
                0 <= k < i ==> 0 < (#[trigger] info.vertex_attributes@[k]).format.value() < NUM_FORMATS,
        decreases info.vertex_attributes@.len() - i,
    {
        let f = info.vertex_attributes[i].format.as_raw();
        if !(0 < f && f < NUM_FORMATS) {
            return false;
        }
        i = i + 1;
    }
    match &info.color_blend {
        Some(cb) => {
            if cb.logic_op_enable == VK_TRUE && cb.logic_op.as_raw() > VkLogicOp::VK_LOGIC_OP_SET.as_raw() {
                return false;
            }
            let mut i: usize = 0;
            while i < cb.attachments.len()
                invariant
                    i <= cb.attachments@.len(),
                    info.color_blend == Some(*cb),
                    forall|k: int| 0 <= k < i ==> color_blend_supported(#[trigger] cb.attachments@[k]),
                decreases cb.attachments@.len() - i,
            {
                if !color_blend_is_supported(&cb.attachments[i]) {
                    assert(!color_blend_supported(cb.attachments@[i as int]));
                    return false;
                }
                i = i + 1;
            }
        },
        None => {},
    }
    match &info.depth_stencil {
        Some(ds) => info.rasterizer_discard || depth_stencil_is_supported(ds),
        None => true,
    }
}

fn stage_slots(stages: &[VkShaderStageFlagBits], rasterizer_discard: bool) -> (r: ShaderSet)
    requires
        forall|i: int| 0 <= i < stages@.len() ==> stage_accepted(#[trigger] stages@[i]),
        last_stage(stages@, VkShaderStageFlagBits::VK_SHADER_STAGE_VERTEX_BIT, stages@.len() as int) is Some,
    ensures
        ({
            let n = stages@.len() as int;
            &&& Some(r.vertex) == last_stage(stages@, VkShaderStageFlagBits::VK_SHADER_STAGE_VERTEX_BIT, n)
            &&& r.hull == last_stage(stages@, VkShaderStageFlagBits::VK_SHADER_STAGE_TESSELLATION_CONTROL_BIT, n)
            &&& r.domain == last_stage(stages@, VkShaderStageFlagBits::VK_SHADER_STAGE_TESSELLATION_EVALUATION_BIT, n)
            &&& r.geometry == last_stage(stages@, VkShaderStageFlagBits::VK_SHADER_STAGE_GEOMETRY_BIT, n)
            &&& r.fragment == (if rasterizer_discard {
                None
            } else {
                last_stage(stages@, VkShaderStageFlagBits::VK_SHADER_STAGE_FRAGMENT_BIT, n)
            })
        }),
{
    let mut vertex: Option<usize> = None;
    let mut hull: Option<usize> = None;
    let mut domain: Option<usize> = None;
    let mut geometry: Option<usize> = None;
    let mut fragment: Option<usize> = None;
    let mut i: usize = 0;
    while i < stages.len()
        invariant
            i <= stages@.len(),
            forall|k: int| 0 <= k < stages@.len() ==> stage_accepted(#[trigger] stages@[k]),
            vertex == last_stage(stages@, VkShaderStageFlagBits::VK_SHADER_STAGE_VERTEX_BIT, i as int),
            hull == last_stage(stages@, VkShaderStageFlagBits::VK_SHADER_STAGE_TESSELLATION_CONTROL_BIT, i as int),
            domain == last_stage(stages@, VkShaderStageFlagBits::VK_SHADER_STAGE_TESSELLATION_EVALUATION_BIT, i as int),
            geometry == last_stage(stages@, VkShaderStageFlagBits::VK_SHADER_STAGE_GEOMETRY_BIT, i as int),
            fragment == (if rasterizer_discard {
                None
            } else {
                last_stage(stages@, VkShaderStageFlagBits::VK_SHADER_STAGE_FRAGMENT_BIT, i as int)
            }),
        decreases stages@.len() - i,
    {
        let stage = stages[i];
        assert(stage_accepted(stages@[i as int]));
        match shader_slot(stage, rasterizer_discard) {
            ShaderSlot::Vertex => vertex = Some(i),
            ShaderSlot::Hull => hull = Some(i),
            ShaderSlot::Domain => domain = Some(i),
            ShaderSlot::Geometry => geometry = Some(i),
            ShaderSlot::Fragment => fragment = Some(i),
            ShaderSlot::Ignored => {},
        }
        i = i + 1;
    }
    let v = match vertex {
        Some(v) => v,
        None => vstd::pervasive::unreached(),
    };
    ShaderSet { vertex: v, hull, domain, geometry, fragment }
}

/// The description of a graphics pipeline for its creation info: its
/// shaders, rasterizer, vertex input, primitives (with the patch size of
/// the tessellation state where there is a hull shader), blending,
/// multisampling and depth-stencil state (neither where all primitives are
/// discarded), baked states, subpass, flags and parent.
pub fn graphics_pipeline_desc(info: &GraphicsPipelineInfo) -> (r: GraphicsPipelineDesc)
    requires
        graphics_info_supported(*info),
    ensures
        shaders_ok(*info, r.shaders),
        rasterizer_ok(*info, r.rasterizer),
        r.vertex_buffers@.len() == info.vertex_bindings@.len(),
        forall|i: int|
            0 <= i < info.vertex_bindings@.len() ==> {
                let b = #[trigger] info.vertex_bindings@[i];
                &&& r.vertex_buffers@[i].binding == b.binding
                &&& r.vertex_buffers@[i].stride == b.stride
                &&& r.vertex_buffers@[i].rate == (if b.inputRate
                    == VkVertexInputRate::VK_VERTEX_INPUT_RATE_VERTEX {
                    VertexInputRate::Vertex
                } else {
                    VertexInputRate::Instance(1)
                })
            },
        r.attributes@.len() == info.vertex_attributes@.len(),
        forall|i: int|
            0 <= i < info.vertex_attributes@.len() ==> {
                let a = #[trigger] info.vertex_attributes@[i];
                &&& r.attributes@[i].location == a.location
                &&& r.attributes@[i].binding == a.binding
                &&& r.attributes@[i].format.id == a.format.value()
                &&& r.attributes@[i].offset == a.offset
            },
        r.input_assembler == input_assembler_spec(
            info.topology,
            if r.shaders.hull is Some {
                Some(info.patch_control_points)
            } else {
                None
            },
        ),
        r.logic_op == (match info.color_blend {
            Some(cb) => if cb.logic_op_enable == VK_TRUE {
                Some(logic_op_of(cb.logic_op.value()))
            } else {
                None
            },
            None => None,
        }),
        info.color_blend is None ==> r.targets@.len() == 0,
        info.color_blend matches Some(cb) ==> r.targets@.len() == cb.attachments@.len() && forall|i: int|
            0 <= i < cb.attachments@.len() ==> #[trigger] r.targets@[i] == color_blend_spec(
                cb.attachments@[i],
            ),
        r.multisampling == (if !info.rasterizer_discard && info.multisample is Some {
            let m = info.multisample.unwrap();
            Some(
                MultisamplingDesc {
                    rasterization_samples: m.rasterization_samples.value() as u8,
                    sample_shading: m.sample_shading_enable == VK_TRUE,
                    alpha_coverage: m.alpha_to_coverage_enable == VK_TRUE,
                    alpha_to_one: m.alpha_to_one_enable == VK_TRUE,
                },
            )
        } else {
            None
        }),
        info.rasterizer_discard || info.depth_stencil is None ==> r.depth_stencil == (
        DepthStencilDesc { depth: None, depth_bounds: false, stencil: None }),
        !info.rasterizer_discard && info.depth_stencil is Some ==> r.depth_stencil
            == depth_stencil_spec(info.depth_stencil.unwrap(), dynamic_states_of(*info)),
        baked_ok(*info, r.baked),
        r.subpass == info.subpass as u8,
        (r.flags.bits & PipelineCreationFlags::DISABLE_OPTIMIZATION != 0) == (info.flags & 1 != 0),
        (r.flags.bits & PipelineCreationFlags::ALLOW_DERIVATIVES != 0) == (info.flags & 2 != 0),
        info.has_base_handle ==> r.parent == BasePipelineChoice::Handle,
        !info.has_base_handle && info.flags & 4 != 0 && info.base_index >= 0 ==> r.parent
            == BasePipelineChoice::Index(info.base_index as usize),
        !info.has_base_handle && !(info.flags & 4 != 0 && info.base_index >= 0) ==> r.parent
            == BasePipelineChoice::Independent,
{
    let empty: Vec<VkDynamicState> = Vec::new();
    let dyn_states: &[VkDynamicState] = match &info.dynamic_states {
        Some(v) => if info.rasterizer_discard {
            empty.as_slice()
        } else {
            v.as_slice()
        },
        None => empty.as_slice(),
    };
    assert(dyn_states@ == dynamic_states_of(*info));

    let rasterizer = RasterizerDesc {
        polygon_mode: map_polygon_mode(info.polygon_mode),
        cull_face: map_cull_face(info.cull_mode),
        front_face: map_front_face(info.front_face),
        depth_clamping: info.depth_clamp_enable == VK_TRUE,
        depth_bias_dynamic: if info.depth_bias_enable == VK_TRUE {
            Some(has_dynamic_state(dyn_states, VkDynamicState::VK_DYNAMIC_STATE_DEPTH_BIAS))
        } else {
            None
        },
        line_width_dynamic: has_dynamic_state(dyn_states, VkDynamicState::VK_DYNAMIC_STATE_LINE_WIDTH),
    };

    let shaders = stage_slots(info.stages.as_slice(), info.rasterizer_discard);

    let mut vertex_buffers: Vec<VertexBufferDesc> = Vec::new();
    let mut i: usize = 0;
    while i < info.vertex_bindings.len()
        invariant
            i <= info.vertex_bindings@.len(),
            graphics_info_supported(*info),
            vertex_buffers@.len() == i,
            forall|k: int|
                0 <= k < i ==> {
                    let b = #[trigger] info.vertex_bindings@[k];
                    &&& vertex_buffers@[k].binding == b.binding
                    &&& vertex_buffers@[k].stride == b.stride
                    &&& vertex_buffers@[k].rate == (if b.inputRate
                        == VkVertexInputRate::VK_VERTEX_INPUT_RATE_VERTEX {
                        VertexInputRate::Vertex
                    } else {
                        VertexInputRate::Instance(1)
                    })
                },
        decreases info.vertex_bindings@.len() - i,
    {
        assert(info.vertex_bindings@[i as int].inputRate.value() <= 1);
        let vb = map_vertex_binding(&info.vertex_bindings[i]);
        vertex_buffers.push(vb);
        i = i + 1;
    }

    let mut attributes: Vec<AttributeDesc> = Vec::new();
    let mut j: usize = 0;
    while j < info.vertex_attributes.len()
        invariant
            j <= info.vertex_attributes@.len(),
            graphics_info_supported(*info),
            attributes@.len() == j,
            forall|k: int|
                0 <= k < j ==> {
                    let a = #[trigger] info.vertex_attributes@[k];
                    &&& attributes@[k].location == a.location
                    &&& attributes@[k].binding == a.binding
                    &&& attributes@[k].format.id == a.format.value()
                    &&& attributes@[k].offset == a.offset
                },
        decreases info.vertex_attributes@.len() - j,
    {
        assert(0 < info.vertex_attributes@[j as int].format.value() < NUM_FORMATS);
        let attr = map_vertex_attribute(&info.vertex_attributes[j]);
        attributes.push(attr);
        j = j + 1;
    }

    let patch = if shaders.hull.is_some() {
        Some(info.patch_control_points)
    } else {
        None
    };
    let input_assembler = map_input_assembler(info.topology, patch);

    let mut logic_op: Option<LogicOp> = None;
    let mut targets: Vec<ColorBlendDesc> = Vec::new();
    match &info.color_blend {
        Some(cb) => {
            if cb.logic_op_enable == VK_TRUE {
                logic_op = Some(map_logic_op(cb.logic_op));
            }
            let mut k: usize = 0;
            while k < cb.attachments.len()
                invariant
                    k <= cb.attachments@.len(),
                    forall|m: int| 0 <= m < cb.attachments@.len() ==> color_blend_supported(#[trigger] cb.attachments@[m]),
                    targets@.len() == k,
                    forall|m: int| 0 <= m < k ==> #[trigger] targets@[m] == color_blend_spec(cb.attachments@[m]),
                decreases cb.attachments@.len() - k,
            {
                assert(color_blend_supported(cb.attachments@[k as int]));
                let t = map_color_blend_attachment(&cb.attachments[k]);
                targets.push(t);
                k = k + 1;
            }
        },
        None => {},
    }

    let multisampling = if !info.rasterizer_discard {
        match &info.multisample {
            Some(m) => Some(
                MultisamplingDesc {
                    rasterization_samples: m.rasterization_samples.as_raw() as u8,
                    sample_shading: m.sample_shading_enable == VK_TRUE,
                    alpha_coverage: m.alpha_to_coverage_enable == VK_TRUE,
                    alpha_to_one: m.alpha_to_one_enable == VK_TRUE,
                },
            ),
            None => None,
        }
    } else {
        None
    };

    let depth_stencil = if !info.rasterizer_discard {
        match &info.depth_stencil {
            Some(ds) => map_depth_stencil(ds, dyn_states),
            None => DepthStencilDesc { depth: None, depth_bounds: false, stencil: None },
        }
    } else {
        DepthStencilDesc { depth: None, depth_bounds: false, stencil: None }
    };

    let vp = if info.rasterizer_discard {
        None
    } else {
        info.viewport
    };
    let baked = BakedStates {
        viewport: !has_dynamic_state(dyn_states, VkDynamicState::VK_DYNAMIC_STATE_VIEWPORT) && match vp {
            Some(v) => v.has_viewports,
            None => false,
        },
        scissor: if has_dynamic_state(dyn_states, VkDynamicState::VK_DYNAMIC_STATE_SCISSOR) {
            None
        } else {
            match vp {
                Some(v) => match v.scissor {
                    Some(s) => Some(map_rect(&s)),
                    None => None,
                },
                None => None,
            }
        },
        blend_color: !has_dynamic_state(dyn_states, VkDynamicState::VK_DYNAMIC_STATE_BLEND_CONSTANTS)
            && info.color_blend.is_some(),
        depth_bounds: !has_dynamic_state(dyn_states, VkDynamicState::VK_DYNAMIC_STATE_DEPTH_BOUNDS)
            && info.depth_stencil.is_some(),
    };

    let flags = map_pipeline_creation_flags(info.flags);
    let parent = base_pipeline(info.has_base_handle, info.flags, info.base_index);

    GraphicsPipelineDesc {
        shaders,
        rasterizer,
        vertex_buffers,
        attributes,
        input_assembler,
        logic_op,
        targets,
        multisampling,
        depth_stencil,
        baked,
        subpass: info.subpass as u8,
        flags,
        parent,
    }
}

} // verus!
