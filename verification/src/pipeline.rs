//! The state of graphics and compute pipelines: what the portability layer
//! makes of the creation info of a pipeline.

use vstd::prelude::*;

use crate::conv::{
    blend_op_spec,
    blend_supported,
    comparison_of,
    map_blend_op,
    map_color_components,
    map_compare_op,
    map_format,
    map_primitive_topology,
    map_stencil_op,
    primitive_topology_spec,
    stencil_op_of,
    VK_TRUE,
};
use crate::hal::format::{Format, NUM_FORMATS};
use crate::hal::image::LayerRange;
use crate::hal::pso::{
    AttributeDesc,
    BlendState,
    ColorBlendDesc,
    ColorMask,
    DepthStencilDesc,
    DepthTest,
    InputAssemblerDesc,
    PipelineCreationFlags,
    PolygonMode,
    Primitive,
    Sided,
    SpecializationConstant,
    State,
    StencilFace,
    StencilTest,
    VertexBufferDesc,
    VertexInputRate,
};
use crate::vk_enums::{
    VkBlendFactor,
    VkBlendOp,
    VkCompareOp,
    VkDynamicState,
    VkPipelineCreateFlagBits,
    VkPolygonMode,
    VkPrimitiveTopology,
    VkResult,
    VkShaderStageFlagBits,
    VkStencilOp,
    VkVertexInputRate,
};
use crate::vk_structs::{
    VkBool32,
    VkPipelineColorBlendAttachmentState,
    VkSpecializationMapEntry,
    VkStencilOpState,
    VkVertexInputAttributeDescription,
    VkVertexInputBindingDescription,
};

verus! {

/// Whether a list of dynamic states holds `state`.
pub fn has_dynamic_state(states: &[VkDynamicState], state: VkDynamicState) -> (r: bool)
    ensures
        r == states@.contains(state),
{
    let mut i: usize = 0;
    while i < states.len()
        invariant
            i <= states@.len(),
            forall|j: int| 0 <= j < i ==> states@[j] != state,
        decreases states@.len() - i,
    {
        if states[i] == state {
            return true;
        }
        i = i + 1;
    }
    false
}

/// The dynamic states that a pipeline uses: those it lists, unless it
/// discards all primitives before rasterization, in which case none.
pub fn dynamic_states_in_use(states: Option<&[VkDynamicState]>, rasterizer_discard: bool) -> (r:
    Vec<VkDynamicState>)
    ensures
        !rasterizer_discard ==> (states matches Some(s) ==> r@ == s@),
        states is None || rasterizer_discard ==> r@.len() == 0,
{
    match states {
        Some(s) if !rasterizer_discard => {
            let mut out: Vec<VkDynamicState> = Vec::new();
            let mut i: usize = 0;
            while i < s.len()
                invariant
                    i <= s@.len(),
                    out@ == s@.take(i as int),
                decreases s@.len() - i,
            {
                out.push(s[i]);
                i = i + 1;
                assert(out@ =~= s@.take(i as int));
            }
            assert(s@.take(s@.len() as int) =~= s@);
            out
        },
        _ => Vec::new(),
    }
}

/// A state that is set dynamically when the pipeline lists it among its
/// dynamic states, and baked into the pipeline otherwise.
pub open spec fn state_choice<T>(dynamic: bool, value: T) -> State<T> {
    if dynamic {
        State::Dynamic
    } else {
        State::Static(value)
    }
}

pub fn choose_state<T>(states: &[VkDynamicState], state: VkDynamicState, value: T) -> (r: State<T>)
    ensures
        r == state_choice(states@.contains(state), value),
{
    if has_dynamic_state(states, state) {
        State::Dynamic
    } else {
        State::Static(value)
    }
}

/// Whether a polygon mode is fill, line or point.
pub open spec fn polygon_mode_supported(mode: VkPolygonMode) -> bool {
    mode.value() <= VkPolygonMode::VK_POLYGON_MODE_POINT.value()
}

pub fn map_polygon_mode(mode: VkPolygonMode) -> (r: PolygonMode)
    requires
        polygon_mode_supported(mode),
    ensures
        mode == VkPolygonMode::VK_POLYGON_MODE_FILL ==> r == PolygonMode::Fill,
        mode == VkPolygonMode::VK_POLYGON_MODE_LINE ==> r == PolygonMode::Line,
        mode == VkPolygonMode::VK_POLYGON_MODE_POINT ==> r == PolygonMode::Point,
{
    match mode {
        VkPolygonMode::VK_POLYGON_MODE_FILL => PolygonMode::Fill,
        VkPolygonMode::VK_POLYGON_MODE_LINE => PolygonMode::Line,
        _ => PolygonMode::Point,
    }
}

/// The vertex buffer binding of the abstraction layer for a Vulkan binding
/// description: per vertex, or per single instance.
pub fn map_vertex_binding(binding: &VkVertexInputBindingDescription) -> (r: VertexBufferDesc)
    requires
        binding.inputRate.value() <= VkVertexInputRate::VK_VERTEX_INPUT_RATE_INSTANCE.value(),
    ensures
        r.binding == binding.binding,
        r.stride == binding.stride,
        binding.inputRate == VkVertexInputRate::VK_VERTEX_INPUT_RATE_VERTEX ==> r.rate
            == VertexInputRate::Vertex,
        binding.inputRate == VkVertexInputRate::VK_VERTEX_INPUT_RATE_INSTANCE ==> r.rate
            == VertexInputRate::Instance(1),
{
    let rate = match binding.inputRate {
        VkVertexInputRate::VK_VERTEX_INPUT_RATE_VERTEX => VertexInputRate::Vertex,
        _ => VertexInputRate::Instance(1),
    };
    VertexBufferDesc { binding: binding.binding, stride: binding.stride, rate }
}

/// The vertex attribute of the abstraction layer for a Vulkan attribute
/// description, whose format must be a defined one.
pub fn map_vertex_attribute(attrib: &VkVertexInputAttributeDescription) -> (r: AttributeDesc)
    requires
        0 < attrib.format.value() < NUM_FORMATS,
    ensures
        r.location == attrib.location,
        r.binding == attrib.binding,
        r.format == (Format { id: attrib.format.value() }),
        r.offset == attrib.offset,
{
    let format = match map_format(attrib.format) {
        Some(f) => f,
        None => vstd::pervasive::unreached(),
    };
    AttributeDesc { location: attrib.location, binding: attrib.binding, format, offset: attrib.offset }
}

/// The primitives of a pipeline: those of its topology, with the patch size
/// of its tessellation state where it has a hull shader (zero otherwise); an
/// unsupported topology falls back to a point list.
pub open spec fn input_assembler_spec(
    topology: VkPrimitiveTopology,
    patch_control_points: Option<u32>,
) -> InputAssemblerDesc {
    let patch_size = match patch_control_points {
        Some(n) => n as u8,
        None => 0u8,
    };
    match primitive_topology_spec(topology, patch_size) {
        Some((primitive, with_adjacency)) => InputAssemblerDesc { primitive, with_adjacency },
        None => InputAssemblerDesc { primitive: Primitive::PointList, with_adjacency: false },
    }
}

pub fn map_input_assembler(topology: VkPrimitiveTopology, patch_control_points: Option<u32>) -> (r:
    InputAssemblerDesc)
    ensures
        r == input_assembler_spec(topology, patch_control_points),
{
    let patch_size = match patch_control_points {
        Some(n) => n as u8,
        None => 0u8,
    };
    match map_primitive_topology(topology, patch_size) {
        Some((primitive, with_adjacency)) => InputAssemblerDesc { primitive, with_adjacency },
        None => InputAssemblerDesc { primitive: Primitive::PointList, with_adjacency: false },
    }
}

/// Whether the blend state of a color target is one the abstraction layer can
/// express (only checked where blending is on).
pub open spec fn color_blend_supported(att: VkPipelineColorBlendAttachmentState) -> bool {
    att.blendEnable == VK_TRUE ==> blend_supported(
        att.colorBlendOp,
        att.srcColorBlendFactor,
        att.dstColorBlendFactor,
    ) && blend_supported(att.alphaBlendOp, att.srcAlphaBlendFactor, att.dstAlphaBlendFactor)
}

/// How a color target of a pipeline is written: its write mask, and its
/// blending where blending is on.
pub open spec fn color_blend_spec(att: VkPipelineColorBlendAttachmentState) -> ColorBlendDesc {
    ColorBlendDesc {
        mask: ColorMask { bits: att.colorWriteMask as u8 },
        blend: if att.blendEnable == VK_TRUE {
            Some(
                BlendState {
                    color: blend_op_spec(att.colorBlendOp, att.srcColorBlendFactor, att.dstColorBlendFactor),
                    alpha: blend_op_spec(att.alphaBlendOp, att.srcAlphaBlendFactor, att.dstAlphaBlendFactor),
                },
            )
        } else {
            None
        },
    }
}

/// Whether a blend operation with its factors can be described.
fn blend_is_supported(op: VkBlendOp, src: VkBlendFactor, dst: VkBlendFactor) -> (r: bool)
    ensures
        r == blend_supported(op, src, dst),
{
    let max_factor = VkBlendFactor::VK_BLEND_FACTOR_ONE_MINUS_SRC1_ALPHA.as_raw();
    op.as_raw() <= VkBlendOp::VK_BLEND_OP_MAX.as_raw() && (op.as_raw()
        > VkBlendOp::VK_BLEND_OP_REVERSE_SUBTRACT.as_raw() || (src.as_raw() <= max_factor
        && dst.as_raw() <= max_factor))
}

/// Whether a color target's state can be described.
pub fn color_blend_is_supported(att: &VkPipelineColorBlendAttachmentState) -> (r: bool)
    ensures
        r == color_blend_supported(*att),
{
    att.blendEnable != VK_TRUE || (blend_is_supported(
        att.colorBlendOp,
        att.srcColorBlendFactor,
        att.dstColorBlendFactor,
    ) && blend_is_supported(att.alphaBlendOp, att.srcAlphaBlendFactor, att.dstAlphaBlendFactor))
}

pub fn map_color_blend_attachment(att: &VkPipelineColorBlendAttachmentState) -> (r: ColorBlendDesc)
    requires
        color_blend_supported(*att),
    ensures
        r == color_blend_spec(*att),
{
    let mask = map_color_components(att.colorWriteMask);
    let blend = if att.blendEnable == VK_TRUE {
        Some(
            BlendState {
                color: map_blend_op(att.colorBlendOp, att.srcColorBlendFactor, att.dstColorBlendFactor),
                alpha: map_blend_op(att.alphaBlendOp, att.srcAlphaBlendFactor, att.dstAlphaBlendFactor),
            },
        )
    } else {
        None
    };
    ColorBlendDesc { mask, blend }
}

/// Whether the operations of a stencil face are ones the abstraction layer
/// numbers alike.
pub open spec fn stencil_state_supported(state: VkStencilOpState) -> bool {
    &&& state.compareOp.value() <= VkCompareOp::VK_COMPARE_OP_ALWAYS.value()
    &&& state.failOp.value() <= VkStencilOp::VK_STENCIL_OP_DECREMENT_AND_WRAP.value()
    &&& state.depthFailOp.value() <= VkStencilOp::VK_STENCIL_OP_DECREMENT_AND_WRAP.value()
    &&& state.passOp.value() <= VkStencilOp::VK_STENCIL_OP_DECREMENT_AND_WRAP.value()
}

pub open spec fn stencil_face_spec(state: VkStencilOpState) -> StencilFace {
    StencilFace {
        fun: comparison_of(state.compareOp.value()),
        op_fail: stencil_op_of(state.failOp.value()),
        op_depth_fail: stencil_op_of(state.depthFailOp.value()),
        op_pass: stencil_op_of(state.passOp.value()),
    }
}

pub fn map_stencil_state(state: &VkStencilOpState) -> (r: StencilFace)
    requires
        stencil_state_supported(*state),
    ensures
        r == stencil_face_spec(*state),
{
    StencilFace {
        fun: map_compare_op(state.compareOp),
        op_fail: map_stencil_op(state.failOp),
        op_depth_fail: map_stencil_op(state.depthFailOp),
        op_pass: map_stencil_op(state.passOp),
    }
}

/// The depth and stencil part of the creation info of a graphics pipeline.
#[derive(Clone, Copy, Debug, PartialEq, Eq)]
pub struct DepthStencilState {
    pub depth_test_enable: VkBool32,
    pub depth_write_enable: VkBool32,
    pub depth_compare_op: VkCompareOp,
    pub depth_bounds_test_enable: VkBool32,
    pub stencil_test_enable: VkBool32,
    pub front: VkStencilOpState,
    pub back: VkStencilOpState,
}

pub open spec fn depth_stencil_supported(state: DepthStencilState) -> bool {
    &&& state.depth_test_enable == VK_TRUE ==> state.depth_compare_op.value()
        <= VkCompareOp::VK_COMPARE_OP_ALWAYS.value()
    &&& state.stencil_test_enable == VK_TRUE ==> stencil_state_supported(state.front)
        && stencil_state_supported(state.back)
}

/// The depth and stencil state of a pipeline: a depth test where it is on, a
/// stencil test where it is on, with the masks and references baked in unless
/// the pipeline sets them dynamically.
pub open spec fn depth_stencil_spec(state: DepthStencilState, dyn_states: Seq<VkDynamicState>) -> DepthStencilDesc {
    DepthStencilDesc {
        depth: if state.depth_test_enable == VK_TRUE {
            Some(
                DepthTest {
                    fun: comparison_of(state.depth_compare_op.value()),
                    write: state.depth_write_enable == VK_TRUE,
                },
            )
        } else {
            None
        },
        depth_bounds: state.depth_bounds_test_enable == VK_TRUE,
        stencil: if state.stencil_test_enable == VK_TRUE {
            Some(
                StencilTest {
                    faces: Sided {
                        front: stencil_face_spec(state.front),
                        back: stencil_face_spec(state.back),
                    },
                    read_masks: state_choice(
                        dyn_states.contains(VkDynamicState::VK_DYNAMIC_STATE_STENCIL_COMPARE_MASK),
                        Sided { front: state.front.compareMask, back: state.back.compareMask },
                    ),
                    write_masks: state_choice(
                        dyn_states.contains(VkDynamicState::VK_DYNAMIC_STATE_STENCIL_WRITE_MASK),
                        Sided { front: state.front.writeMask, back: state.back.writeMask },
                    ),
                    reference_values: state_choice(
                        dyn_states.contains(VkDynamicState::VK_DYNAMIC_STATE_STENCIL_REFERENCE),
                        Sided { front: state.front.reference, back: state.back.reference },
                    ),
                },
            )
        } else {
            None
        },
    }
}

/// Whether the stencil operations of a face can be described.
fn stencil_state_is_supported(state: &VkStencilOpState) -> (r: bool)
    ensures
        r == stencil_state_supported(*state),
{
    let max_op = VkStencilOp::VK_STENCIL_OP_DECREMENT_AND_WRAP.as_raw();
    state.compareOp.as_raw() <= VkCompareOp::VK_COMPARE_OP_ALWAYS.as_raw() && state.failOp.as_raw()
        <= max_op && state.depthFailOp.as_raw() <= max_op && state.passOp.as_raw() <= max_op
}

/// Whether a depth and stencil state can be described.
pub fn depth_stencil_is_supported(state: &DepthStencilState) -> (r: bool)
    ensures
        r == depth_stencil_supported(*state),
{
    (state.depth_test_enable != VK_TRUE || state.depth_compare_op.as_raw()
        <= VkCompareOp::VK_COMPARE_OP_ALWAYS.as_raw()) && (state.stencil_test_enable != VK_TRUE || (
    stencil_state_is_supported(&state.front) && stencil_state_is_supported(&state.back)))
}

/// The depth and stencil state of the abstraction layer for that of a
/// pipeline, given the dynamic states in use.
pub fn map_depth_stencil(state: &DepthStencilState, dyn_states: &[VkDynamicState]) -> (r:
    DepthStencilDesc)
    requires
        depth_stencil_supported(*state),
    ensures
        r == depth_stencil_spec(*state, dyn_states@),
{
    let depth = if state.depth_test_enable == VK_TRUE {
        Some(
            DepthTest {
                fun: map_compare_op(state.depth_compare_op),
                write: state.depth_write_enable == VK_TRUE,
            },
        )
    } else {
        None
    };
    let stencil = if state.stencil_test_enable == VK_TRUE {
        Some(
            StencilTest {
                faces: Sided {
                    front: map_stencil_state(&state.front),
                    back: map_stencil_state(&state.back),
                },
                read_masks: choose_state(
                    dyn_states,
                    VkDynamicState::VK_DYNAMIC_STATE_STENCIL_COMPARE_MASK,
                    Sided { front: state.front.compareMask, back: state.back.compareMask },
                ),
                write_masks: choose_state(
                    dyn_states,
                    VkDynamicState::VK_DYNAMIC_STATE_STENCIL_WRITE_MASK,
                    Sided { front: state.front.writeMask, back: state.back.writeMask },
                ),
                reference_values: choose_state(
                    dyn_states,
                    VkDynamicState::VK_DYNAMIC_STATE_STENCIL_REFERENCE,
                    Sided { front: state.front.reference, back: state.back.reference },
                ),
            },
        )
    } else {
        None
    };
    DepthStencilDesc {
        depth,
        depth_bounds: state.depth_bounds_test_enable == VK_TRUE,
        stencil,
    }
}

/// The creation flags of the abstraction layer for Vulkan pipeline creation
/// flags: disabled optimization and allowed derivatives carry over.
pub fn map_pipeline_creation_flags(flags: u32) -> (r: PipelineCreationFlags)
    ensures
        (r.bits & PipelineCreationFlags::DISABLE_OPTIMIZATION != 0) == (flags
            & VkPipelineCreateFlagBits::VK_PIPELINE_CREATE_DISABLE_OPTIMIZATION_BIT.value() != 0),
        (r.bits & PipelineCreationFlags::ALLOW_DERIVATIVES != 0) == (flags
            & VkPipelineCreateFlagBits::VK_PIPELINE_CREATE_ALLOW_DERIVATIVES_BIT.value() != 0),
        r.bits & !0x3u32 == 0,
{
    let a: u32 = if flags
        & VkPipelineCreateFlagBits::VK_PIPELINE_CREATE_DISABLE_OPTIMIZATION_BIT.as_raw() != 0 {
        PipelineCreationFlags::DISABLE_OPTIMIZATION
    } else {
        0
    };
    let b: u32 = if flags & VkPipelineCreateFlagBits::VK_PIPELINE_CREATE_ALLOW_DERIVATIVES_BIT.as_raw()
        != 0 {
        PipelineCreationFlags::ALLOW_DERIVATIVES
    } else {
        0
    };
    let bits: u32 = a | b;
    assert({
        &&& ((bits & 1u32) != 0) == ((flags & 1u32) != 0)
        &&& ((bits & 2u32) != 0) == ((flags & 2u32) != 0)
        &&& bits & !0x3u32 == 0
    }) by (bit_vector)
        requires
            bits == a | b,
            a == (if flags & 1u32 != 0 { 1u32 } else { 0u32 }),
            b == (if flags & 2u32 != 0 { 2u32 } else { 0u32 }),
    ;
    PipelineCreationFlags { bits }
}

/// Which pipeline a new pipeline derives from.
#[derive(Clone, Copy, Debug, PartialEq, Eq, Structural)]
pub enum BasePipelineChoice {
    /// The pipeline that the base handle names.
    Handle,
    /// The pipeline at this index of the same creation call.
    Index(usize),
    /// No parent.
    Independent,
}

/// The parent of a pipeline: the base handle where one is given; else, for a
/// derivative pipeline, the base index where it is one (not negative); else
/// none.
pub fn base_pipeline(has_base_handle: bool, flags: u32, base_index: i32) -> (r: BasePipelineChoice)
    ensures
        has_base_handle ==> r == BasePipelineChoice::Handle,
        !has_base_handle && flags & VkPipelineCreateFlagBits::VK_PIPELINE_CREATE_DERIVATIVE_BIT.value()
            != 0 && base_index >= 0 ==> r == BasePipelineChoice::Index(base_index as usize),
        !has_base_handle && !(flags
            & VkPipelineCreateFlagBits::VK_PIPELINE_CREATE_DERIVATIVE_BIT.value() != 0 && base_index
            >= 0) ==> r == BasePipelineChoice::Independent,
{
    let is_derivative = flags & VkPipelineCreateFlagBits::VK_PIPELINE_CREATE_DERIVATIVE_BIT.as_raw()
        != 0;
    if has_base_handle {
        BasePipelineChoice::Handle
    } else if is_derivative && base_index >= 0 {
        BasePipelineChoice::Index(base_index as usize)
    } else {
        BasePipelineChoice::Independent
    }
}

/// The shader slot of a graphics pipeline that a stage fills.
#[derive(Clone, Copy, Debug, PartialEq, Eq, Structural)]
pub enum ShaderSlot {
    Vertex,
    Hull,
    Domain,
    Geometry,
    Fragment,
    /// A fragment shader of a pipeline that discards all primitives before
    /// rasterization: no fragment is shaded, so the stage is left out.
    Ignored,
}

/// Whether a stage is one of a graphics pipeline.
pub open spec fn stage_accepted(stage: VkShaderStageFlagBits) -> bool {
    ||| stage == VkShaderStageFlagBits::VK_SHADER_STAGE_VERTEX_BIT
    ||| stage == VkShaderStageFlagBits::VK_SHADER_STAGE_TESSELLATION_CONTROL_BIT
    ||| stage == VkShaderStageFlagBits::VK_SHADER_STAGE_TESSELLATION_EVALUATION_BIT
    ||| stage == VkShaderStageFlagBits::VK_SHADER_STAGE_GEOMETRY_BIT
    ||| stage == VkShaderStageFlagBits::VK_SHADER_STAGE_FRAGMENT_BIT
}

/// The slot a stage fills; a fragment stage fills none when the pipeline
/// discards all primitives before rasterization.
pub fn shader_slot(stage: VkShaderStageFlagBits, rasterizer_discard: bool) -> (r: ShaderSlot)
    requires
        stage_accepted(stage),
    ensures
        stage == VkShaderStageFlagBits::VK_SHADER_STAGE_VERTEX_BIT ==> r == ShaderSlot::Vertex,
        stage == VkShaderStageFlagBits::VK_SHADER_STAGE_TESSELLATION_CONTROL_BIT ==> r
            == ShaderSlot::Hull,
        stage == VkShaderStageFlagBits::VK_SHADER_STAGE_TESSELLATION_EVALUATION_BIT ==> r
            == ShaderSlot::Domain,
        stage == VkShaderStageFlagBits::VK_SHADER_STAGE_GEOMETRY_BIT ==> r == ShaderSlot::Geometry,
        stage == VkShaderStageFlagBits::VK_SHADER_STAGE_FRAGMENT_BIT ==> r == (if rasterizer_discard {
            ShaderSlot::Ignored
        } else {
            ShaderSlot::Fragment
        }),
{
    match stage {
        VkShaderStageFlagBits::VK_SHADER_STAGE_VERTEX_BIT => ShaderSlot::Vertex,
        VkShaderStageFlagBits::VK_SHADER_STAGE_TESSELLATION_CONTROL_BIT => ShaderSlot::Hull,
        VkShaderStageFlagBits::VK_SHADER_STAGE_TESSELLATION_EVALUATION_BIT => ShaderSlot::Domain,
        VkShaderStageFlagBits::VK_SHADER_STAGE_GEOMETRY_BIT => ShaderSlot::Geometry,
        _ => if rasterizer_discard {
            ShaderSlot::Ignored
        } else {
            ShaderSlot::Fragment
        },
    }
}

/// Where the value of a specialization constant lies in the specialization
/// data of all stages: past the data gathered before it, at its offset, for
/// its size; positions are 16-bit, so each of these is read in its low 16
/// bits.
pub open spec fn specialization_range(data_len: int, entry: VkSpecializationMapEntry) -> (int, int) {
    let base = (data_len as u16) + (entry.offset as u16);
    (base, base + (entry.size as u16))
}

/// Whether the constants of a stage can be placed, given the data gathered
/// before the stage: the abstraction layer keeps positions in 16 bits, so
/// the length, offsets and sizes are read in their low 16 bits, and their
/// sums must not pass the 16-bit range.
pub open spec fn specialization_fits(data_len: nat, entries: Seq<VkSpecializationMapEntry>) -> bool {
    forall|i: int|
        0 <= i < entries.len() ==> #[trigger] specialization_range(data_len as int, entries[i]).1
            <= u16::MAX
}

/// The specialization constants of one stage, whose data follows `data_len`
/// bytes of data of earlier stages.
pub fn specialization_constants(entries: &[VkSpecializationMapEntry], data_len: usize) -> (r: Vec<
    SpecializationConstant,
>)
    requires
        specialization_fits(data_len as nat, entries@),
    ensures
        r@.len() == entries@.len(),
        forall|i: int|
            0 <= i < entries@.len() ==> #[trigger] r@[i] == (SpecializationConstant {
                id: entries@[i].constantID,
                range: LayerRange {
                    start: specialization_range(data_len as int, entries@[i]).0 as u16,
                    end: specialization_range(data_len as int, entries@[i]).1 as u16,
                },
            }),
{
    let mut out: Vec<SpecializationConstant> = Vec::new();
    let mut i: usize = 0;
    while i < entries.len()
        invariant
            i <= entries@.len(),
            specialization_fits(data_len as nat, entries@),
            out@.len() == i,
            forall|k: int|
                0 <= k < i ==> #[trigger] out@[k] == (SpecializationConstant {
                    id: entries@[k].constantID,
                    range: LayerRange {
                        start: specialization_range(data_len as int, entries@[k]).0 as u16,
                        end: specialization_range(data_len as int, entries@[k]).1 as u16,
                    },
                }),
        decreases entries@.len() - i,
    {
        let entry = entries[i];
        assert(specialization_range(data_len as int, entries@[i as int]).1 <= u16::MAX);
        let base = data_len as u16 + entry.offset as u16;
        out.push(
            SpecializationConstant {
                id: entry.constantID,
                range: LayerRange { start: base, end: base + entry.size as u16 },
            },
        );
        i = i + 1;
    }
    out
}

/// The specialization constant for a map entry of a stage whose data
/// follows `data_len` bytes of data of earlier stages.
pub open spec fn constant_spec(data_len: int, e: VkSpecializationMapEntry) -> SpecializationConstant {
    SpecializationConstant {
        id: e.constantID,
        range: LayerRange {
            start: specialization_range(data_len, e).0 as u16,
            end: specialization_range(data_len, e).1 as u16,
        },
    }
}

/// The specialization info of one shader stage: its map entries and its
/// data (both empty for a stage without specialization info).
#[derive(Clone, Debug)]
pub struct StageSpecialization {
    pub entries: Vec<VkSpecializationMapEntry>,
    pub data: Vec<u8>,
}

/// The data of the first `i` stages, one after the other.
pub open spec fn data_before(stages: Seq<StageSpecialization>, i: int) -> Seq<u8>
    decreases i,
{
    if i <= 0 {
        Seq::empty()
    } else {
        data_before(stages, i - 1) + stages[i - 1].data@
    }
}

/// The number of map entries of the first `i` stages.
pub open spec fn constants_before(stages: Seq<StageSpecialization>, i: int) -> int
    decreases i,
{
    if i <= 0 {
        0
    } else {
        constants_before(stages, i - 1) + stages[i - 1].entries@.len()
    }
}

proof fn lemma_constants_before_mono(stages: Seq<StageSpecialization>, j: int, i: int)
    requires
        0 <= j <= i,
    ensures
        constants_before(stages, j) <= constants_before(stages, i),
    decreases i - j,
{
    if j < i {
        lemma_constants_before_mono(stages, j, i - 1);
    }
}

/// Whether the constants of every stage fit the 16-bit ranges of the
/// abstraction layer, after the data of the stages before it.
pub open spec fn gather_supported(stages: Seq<StageSpecialization>) -> bool {
    forall|i: int|
        0 <= i < stages.len() ==> specialization_fits(
            data_before(stages, i).len(),
            #[trigger] stages[i].entries@,
        )
}

/// The specialization of all the stages of a pipeline creation call: the
/// constants of all stages, the data of all stages one after the other, and
/// for each stage the range of its constants.
#[derive(Clone, Debug)]
pub struct GatheredSpecialization {
    pub constants: Vec<SpecializationConstant>,
    pub data: Vec<u8>,
    pub slices: Vec<(usize, usize)>,
}

/// Whether the constants of a stage fit the 16-bit ranges after `data_len`
/// bytes of data of earlier stages.
fn stage_fits(entries: &[VkSpecializationMapEntry], data_len: usize) -> (r: bool)
    ensures
        r == specialization_fits(data_len as nat, entries@),
{
    let base: u32 = (data_len as u16) as u32;
    let mut i: usize = 0;
    while i < entries.len()
        invariant
            i <= entries@.len(),
            base == data_len as u16,
            forall|k: int| 0 <= k < i ==> #[trigger] specialization_range(data_len as int, entries@[k]).1 <= u16::MAX,
        decreases entries@.len() - i,
    {
        let e = entries[i];
        let end: u32 = base + (e.offset as u16) as u32 + (e.size as u16) as u32;
        if end > 0xFFFF {
            assert(specialization_range(data_len as int, entries@[i as int]).1 > u16::MAX);
            return false;
        }
        i = i + 1;
    }
    true
}

/// Gathers the specialization of the stages of all pipelines of a creation
/// call, in order: the data of each stage follows that of the stages before
/// it, the ranges of its constants point past that earlier data, and its
/// constants follow those of the stages before it. There is none where the
/// constants of a stage do not fit the 16-bit ranges.
pub fn gather_specialization(stages: &[StageSpecialization]) -> (r: Option<GatheredSpecialization>)
    ensures
        r is None <==> !gather_supported(stages@),
        r matches Some(g) ==> {
            &&& g.data@ == data_before(stages@, stages@.len() as int)
            &&& g.constants@.len() == constants_before(stages@, stages@.len() as int)
            &&& g.slices@.len() == stages@.len()
            &&& forall|i: int|
                0 <= i < stages@.len() ==> #[trigger] g.slices@[i] == (
                    constants_before(stages@, i) as usize,
                    constants_before(stages@, i + 1) as usize,
                )
            &&& forall|i: int, k: int|
                0 <= i < stages@.len() && 0 <= k < stages@[i].entries@.len() ==> g.constants@[constants_before(
                    stages@,
                    i,
                ) + k] == constant_spec(data_before(stages@, i).len() as int, #[trigger] stages@[i].entries@[k])
        },
{
    let mut constants: Vec<SpecializationConstant> = Vec::new();
    let mut data: Vec<u8> = Vec::new();
    let mut slices: Vec<(usize, usize)> = Vec::new();
    let mut i: usize = 0;
    while i < stages.len()
        invariant
            i <= stages@.len(),
            forall|j: int|
                0 <= j < i ==> specialization_fits(
                    data_before(stages@, j).len(),
                    #[trigger] stages@[j].entries@,
                ),
            data@ == data_before(stages@, i as int),
            constants@.len() == constants_before(stages@, i as int),
            slices@.len() == i,
            forall|j: int|
                0 <= j < i ==> #[trigger] slices@[j] == (
                    constants_before(stages@, j) as usize,
                    constants_before(stages@, j + 1) as usize,
                ),
            forall|j: int, k: int|
                0 <= j < i && 0 <= k < stages@[j].entries@.len() ==> constants@[constants_before(
                    stages@,
                    j,
                ) + k] == constant_spec(data_before(stages@, j).len() as int, #[trigger] stages@[j].entries@[k]),
        decreases stages@.len() - i,
    {
        let stage = &stages[i];
        if !stage_fits(stage.entries.as_slice(), data.len()) {
            return None;
        }
        let start = constants.len();
        let ghost old_constants = constants@;
        let mut mine = specialization_constants(stage.entries.as_slice(), data.len());
        let ghost new_constants = mine@;
        constants.append(&mut mine);
        assert(constants@ == old_constants + new_constants);
        let end = constants.len();
        slices.push((start, end));
        let mut d = stage.data.clone();
        assert(d@ =~= stages@[i as int].data@);
        data.append(&mut d);
        proof {
            assert(data@ =~= data_before(stages@, i + 1));
            assert forall|j: int, k: int|
                0 <= j < i + 1 && 0 <= k < stages@[j].entries@.len() implies constants@[constants_before(
                stages@,
                j,
            ) + k] == constant_spec(data_before(stages@, j).len() as int, #[trigger] stages@[j].entries@[k]) by {
                if j < i {
                    lemma_constants_before_mono(stages@, j + 1, i as int);
                    lemma_constants_before_mono(stages@, 0, j);
                    assert(constants_before(stages@, j + 1) == constants_before(stages@, j)
                        + stages@[j].entries@.len());
                    assert(constants@[constants_before(stages@, j) + k] == old_constants[constants_before(stages@, j) + k]);
                } else {
                    assert(old_constants.len() == constants_before(stages@, j));
                    assert(constants@[constants_before(stages@, j) + k] == new_constants[k]);
                }
            }
        }
        i = i + 1;
    }
    Some(GatheredSpecialization { constants, data, slices })
}

/// The result of creating pipelines: success when every pipeline could be
/// made; otherwise none of them is kept, and the driver reports itself
/// incompatible.
pub fn pipelines_result(created: &[bool]) -> (r: VkResult)
    ensures
        (forall|i: int| 0 <= i < created@.len() ==> created@[i]) ==> r == VkResult::VK_SUCCESS,
        (exists|i: int| 0 <= i < created@.len() && !created@[i]) ==> r
            == VkResult::VK_ERROR_INCOMPATIBLE_DRIVER,
{
    let mut i: usize = 0;
    while i < created.len()
        invariant
            i <= created@.len(),
            forall|j: int| 0 <= j < i ==> created@[j],
        decreases created@.len() - i,
    {
        if !created[i] {
            return VkResult::VK_ERROR_INCOMPATIBLE_DRIVER;
        }
        i = i + 1;
    }
    VkResult::VK_SUCCESS
}

} // verus!
