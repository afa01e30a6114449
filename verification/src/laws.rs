//! Properties that hold across the conversions and state changes of the
//! portability layer.

use vstd::prelude::*;
use vstd::string::StringSliceAdditionalSpecFns;
use vstd::utf8::{encode_utf8_valid_utf8, valid_utf8};

use crate::conv::{
    bool32,
    extent3d_spec,
    feature_at,
    feature_mask,
    features_list_spec,
    features_listed,
    features_read,
    format_spec,
    format_spec_of,
    lemma_features_listed,
    lemma_formats_contiguous,
};
use crate::commands::{
    buffer_barriers_spec,
    image_barriers_spec,
    lemma_buffer_access_spec_matches,
    lemma_image_access_spec_matches,
    BufferBarrierInfo,
    ImageBarrierInfo,
};
use crate::conv::{
    blend_op_spec,
    blend_supported,
    buffer_access_match,
    comparison_of,
    image_access_match,
    image_layout_spec,
    layout_supported,
    logic_op_of,
    VK_TRUE,
};
use crate::pipeline::{color_blend_spec, stencil_face_spec, stencil_state_supported};
use crate::descriptors::{descriptor_spec, recorded, released, BufferInfo, Descriptor, ImageInfo, SetTracker};
use crate::hal::memory::Barrier;
use crate::hal::pass::{AttachmentLoadOp, AttachmentStoreOp};
use crate::hal::pso::{BlendOp, Comparison, DescriptorType, Factor, LogicOp, StencilOp};
use crate::render_pass::{attachment_spec, attachment_supported};
use crate::graphics_pipeline::{shaders_ok, GraphicsPipelineInfo, ShaderSet};
use crate::hal::format::{Format, NUM_FORMATS};
use crate::hal::image::{Extent, Usage};
use crate::hal::Features;
use crate::instance::api_version_spec;
use crate::hal::pso::PipelineStage;
use crate::render_pass::pipeline_stage_spec;
use crate::conv::present_mode_spec;
use crate::swapchain::{handed_to_acquire, present_modes_spec};
use crate::sync::{all_real, fence_status_spec, waits_spec};
use crate::vk_enums::{
    VkAttachmentLoadOp,
    VkAttachmentStoreOp,
    VkBlendFactor,
    VkBlendOp,
    VkCompareOp,
    VkImageLayout,
    VkLogicOp,
    VkPresentModeKHR,
    VkResult,
};
use crate::procs::{
    device_entry_points_spec,
    first_index_of,
    instance_entry_points_spec,
    instance_proc_spec,
    table_has,
    ProcAddr,
};
use crate::pipeline::{
    data_before,
    specialization_range,
    StageSpecialization,
};
use crate::vk_enums::VkFormat;
use crate::vk_structs::{
    VkAttachmentDescription,
    VkExtent3D,
    VkPhysicalDeviceFeatures,
    VkPipelineColorBlendAttachmentState,
    VkStencilOpState,
};

verus! {

// ---------------------------------------------------------------------------
// Conversions that undo each other.

/// A defined format of the abstraction layer survives a trip to its Vulkan
/// format and back.
pub proof fn lemma_format_roundtrip(f: Format)
    requires
        f.is_valid(),
    ensures
        format_spec(format_spec_of(f)) == Some(f),
{
    lemma_formats_contiguous(f.id);
}

/// A defined Vulkan format of the Vulkan 1.0 list survives a trip to the
/// abstraction layer and back.
pub proof fn lemma_vk_format_roundtrip(v: VkFormat)
    requires
        0 < v.value() < NUM_FORMATS,
    ensures
        format_spec(v) matches Some(f) && f.is_valid() && format_spec_of(f) == v,
{
    v.lemma_value_roundtrip();
}

/// A set of feature flags survives a trip through the Vulkan feature list:
/// each feature of the list is back exactly where the set held it, and no
/// other flag is set.
pub proof fn lemma_features_roundtrip(f: Features, back: Features)
    requires
        features_read(features_list_spec(f), back),
    ensures
        forall|k: int|
            0 <= k < Features::NUM_CORE ==> (#[trigger] (back.bits & feature_mask(k)) != 0) == (f.bits
                & feature_mask(k) != 0),
        back.bits < feature_mask(Features::NUM_CORE as int),
{
    lemma_features_listed(f);
    assert forall|k: int| 0 <= k < Features::NUM_CORE implies (#[trigger] (back.bits & feature_mask(k))
        != 0) == (f.bits & feature_mask(k) != 0) by {
        assert(feature_at(features_list_spec(f), k) == bool32(f.bits & feature_mask(k) != 0));
    }
}

/// A Vulkan feature list read as flags and listed again enables the same
/// features, each now as `VK_TRUE` or `VK_FALSE`.
pub proof fn lemma_feature_list_roundtrip(l: VkPhysicalDeviceFeatures, flags: Features)
    requires
        features_read(l, flags),
    ensures
        forall|k: int|
            0 <= k < Features::NUM_CORE ==> #[trigger] feature_at(features_list_spec(flags), k)
                == bool32(feature_at(l, k) != 0),
{
    lemma_features_listed(flags);
    assert forall|k: int| 0 <= k < Features::NUM_CORE implies #[trigger] feature_at(
        features_list_spec(flags),
        k,
    ) == bool32(feature_at(l, k) != 0) by {
        assert(features_listed(flags, features_list_spec(flags)));
    }
}

/// The image usage of the abstraction layer and the Vulkan usage mask have
/// the same bits: a Vulkan mask keeps the flags the abstraction layer knows
/// on a round trip, and a usage of the abstraction layer comes back whole.
pub proof fn lemma_image_usage_roundtrip(vk_usage: u32, usage: Usage)
    requires
        usage.bits & !Usage::ALL == 0,
    ensures
        (vk_usage & Usage::ALL) & Usage::ALL == vk_usage & Usage::ALL,
        usage.bits & Usage::ALL == usage.bits,
{
    let u = usage.bits;
    assert((vk_usage & 0xFFu32) & 0xFFu32 == vk_usage & 0xFFu32) by (bit_vector);
    assert(u & 0xFFu32 == u) by (bit_vector)
        requires
            u & !0xFFu32 == 0,
    ;
}

/// An extent survives a trip between the abstraction layer and Vulkan.
pub proof fn lemma_extent_roundtrip(e: Extent, v: VkExtent3D)
    ensures
        extent3d_spec(e).width == e.width && extent3d_spec(e).height == e.height && extent3d_spec(
            e,
        ).depth == e.depth,
        extent3d_spec(Extent { width: v.width, height: v.height, depth: v.depth }) == v,
{
}

// ---------------------------------------------------------------------------
// Versions.

/// Only the major and minor parts of an API version decide whether it is
/// supported: every patch of Vulkan 1.0 is, and two versions that differ
/// only in their patch are alike.
pub proof fn lemma_version_patch_ignored(major: u32, minor: u32, patch: u32)
    requires
        major < 0x400,
        minor < 0x400,
        patch < 0x1000,
    ensures
        (api_version_spec(major, minor, patch) as u32) >> 12u32 == major * 0x400 + minor,
        (api_version_spec(1, 0, patch) as u32) >> 12u32 == 0x400,
{
    assert(((major * 0x40_0000u32 + minor * 0x1000u32 + patch) as u32) >> 12u32 == major * 0x400u32
        + minor) by (bit_vector)
        requires
            major < 0x400,
            minor < 0x400,
            patch < 0x1000,
    ;
    assert(((1u32 * 0x40_0000u32 + 0u32 * 0x1000u32 + patch) as u32) >> 12u32 == 0x400u32) by (
    bit_vector)
        requires
            patch < 0x1000,
    ;
}

// ---------------------------------------------------------------------------
// Descriptor pools.

/// Resetting a pool that keeps its sets releases exactly the sets allocated
/// from it since it was created, in the order they were allocated, and
/// leaves it keeping none.
pub proof fn lemma_reset_releases_allocations<H>(
    t0: SetTracker<H>,
    first: Seq<H>,
    t1: SetTracker<H>,
    second: Seq<H>,
    t2: SetTracker<H>,
    t3: SetTracker<H>,
    handed: Seq<H>,
)
    requires
        t0.tracks(),
        t0.kept().len() == 0,
        recorded(t0, first, t1),
        recorded(t1, second, t2),
        released(t2, t3, handed),
    ensures
        handed == first + second,
        t3.kept().len() == 0,
        t3.tracks(),
{
    assert(t0.kept() + first =~= first);
}

// ---------------------------------------------------------------------------
// Specialization.

/// The constants of a stage read that stage's own data: where an entry lies
/// within the data of its stage, and the data gathered up to that stage fits
/// the 16-bit positions, the range of its constant lies within the part of
/// the gathered data that the stage brought, and that part is the stage's
/// data.
pub proof fn lemma_constants_read_own_data(stages: Seq<StageSpecialization>, i: int, k: int)
    requires
        0 <= i < stages.len(),
        0 <= k < stages[i].entries@.len(),
        stages[i].entries@[k].offset + stages[i].entries@[k].size <= stages[i].data@.len(),
        data_before(stages, i + 1).len() <= u16::MAX,
    ensures
        ({
            let start = data_before(stages, i).len() as int;
            let range = specialization_range(start, stages[i].entries@[k]);
            &&& start <= range.0 <= range.1 <= data_before(stages, i + 1).len()
            &&& data_before(stages, i + 1).subrange(start, data_before(stages, i + 1).len() as int)
                == stages[i].data@
        }),
{
    let start = data_before(stages, i).len() as int;
    assert(data_before(stages, i + 1) == data_before(stages, i) + stages[i].data@);
    assert(data_before(stages, i + 1).subrange(start, data_before(stages, i + 1).len() as int)
        =~= stages[i].data@);
}

// ---------------------------------------------------------------------------
// Graphics pipelines.

/// A pipeline that discards all primitives before rasterization has no
/// fragment shader, whatever stages it is given; its other shader slots are
/// those it would have without discarding.
pub proof fn lemma_discard_has_no_fragment(
    info: GraphicsPipelineInfo,
    s: ShaderSet,
    kept: GraphicsPipelineInfo,
    t: ShaderSet,
)
    requires
        info.rasterizer_discard,
        shaders_ok(info, s),
        kept == (GraphicsPipelineInfo { rasterizer_discard: false, ..info }),
        shaders_ok(kept, t),
    ensures
        s.fragment is None,
        s.vertex == t.vertex,
        s.hull == t.hull,
        s.domain == t.domain,
        s.geometry == t.geometry,
{
}

// ---------------------------------------------------------------------------
// Entry points by name.

/// No table of entry-point names holds a name that is not UTF-8: every name
/// in a table is a string.
pub proof fn lemma_non_utf8_name_not_in_table(table: Seq<&'static str>, name: Seq<u8>)
    requires
        !valid_utf8(name),
    ensures
        !table_has(table, name),
{
    assert forall|j: int| 0 <= j < table.len() implies #[trigger] table[j].spec_bytes() != name by {
        encode_utf8_valid_utf8(table[j]@);
    }
}

/// `vkGetInstanceProcAddr` is a function of the name: where a name has a
/// device entry point it gives the first one; where it has none, the first
/// instance entry point of that name; where it has neither, nothing; and a
/// name that is not UTF-8 finds nothing.
pub proof fn lemma_instance_proc_addr(name: Seq<u8>, r: Option<ProcAddr>, s: Option<ProcAddr>)
    requires
        instance_proc_spec(name, r),
        instance_proc_spec(name, s),
    ensures
        r == s,
        table_has(device_entry_points_spec(), name) <==> r is Some && r.unwrap() is Device,
        !table_has(device_entry_points_spec(), name) && table_has(instance_entry_points_spec(), name)
            <==> r is Some && r.unwrap() is Instance,
        !valid_utf8(name) ==> r is None,
{
    if !valid_utf8(name) {
        lemma_non_utf8_name_not_in_table(device_entry_points_spec(), name);
        lemma_non_utf8_name_not_in_table(instance_entry_points_spec(), name);
    }
    match (r, s) {
        (Some(ProcAddr::Device(i)), Some(ProcAddr::Device(k))) => {
            lemma_first_index_unique(device_entry_points_spec(), name, i as int, k as int);
        },
        (Some(ProcAddr::Instance(i)), Some(ProcAddr::Instance(k))) => {
            lemma_first_index_unique(instance_entry_points_spec(), name, i as int, k as int);
        },
        _ => {},
    }
}

proof fn lemma_first_index_unique(table: Seq<&'static str>, name: Seq<u8>, i: int, k: int)
    requires
        first_index_of(table, name, i),
        first_index_of(table, name, k),
    ensures
        i == k,
{
    if i < k {
        assert(table[i].spec_bytes() != name);
    } else if k < i {
        assert(table[k].spec_bytes() != name);
    }
}

// ---------------------------------------------------------------------------
// Fake fences and semaphores.

/// A fence or semaphore handed to an acquire of a swapchain image is fake:
/// the fence reads as signaled whatever the device would answer, and a
/// submission does not wait on the semaphore. Once the fence is reset, or a
/// submission signals the semaphore, it is real again: the fence reads as
/// the device answers, and a later submission waits on the semaphore.
pub proof fn lemma_fake_until_signaled(flag: bool, status: Result<bool, ()>, stage: u32)
    ensures
        ({
            let acquired = handed_to_acquire(Some(flag)).unwrap();
            &&& fence_status_spec(acquired, status) == VkResult::VK_SUCCESS
            &&& waits_spec(seq![acquired], seq![stage], 1).len() == 0
        }),
        ({
            let signaled = all_real(1)[0];
            &&& fence_status_spec(signaled, status) == fence_status_spec(false, status)
            &&& waits_spec(seq![signaled], seq![stage], 1) == seq![(0usize, pipeline_stage_spec(stage))]
        }),
{
    reveal_with_fuel(waits_spec, 2);
    assert(waits_spec(seq![false], seq![stage], 0) =~= Seq::<(usize, PipelineStage)>::empty());
}

/// A present mode asked for, as the abstraction layer takes it, is reported
/// back as that one mode: the two present-mode numberings agree.
pub proof fn lemma_present_mode_roundtrip(mode: VkPresentModeKHR)
    requires
        mode.value() <= VkPresentModeKHR::VK_PRESENT_MODE_FIFO_RELAXED_KHR.value(),
    ensures
        present_modes_spec(present_mode_spec(mode).bits) == seq![mode],
{
    assert(1u32 & 1u32 != 0 && 1u32 & 2u32 == 0 && 1u32 & 4u32 == 0 && 1u32 & 8u32 == 0) by (bit_vector);
    assert(2u32 & 1u32 == 0 && 2u32 & 2u32 != 0 && 2u32 & 4u32 == 0 && 2u32 & 8u32 == 0) by (bit_vector);
    assert(4u32 & 1u32 == 0 && 4u32 & 2u32 == 0 && 4u32 & 4u32 != 0 && 4u32 & 8u32 == 0) by (bit_vector);
    assert(8u32 & 1u32 == 0 && 8u32 & 2u32 == 0 && 8u32 & 4u32 == 0 && 8u32 & 8u32 != 0) by (bit_vector);
    let e = Seq::<VkPresentModeKHR>::empty();
    assert(e + seq![mode] + e + e =~= seq![mode]);
    assert(seq![mode] + e + e + e =~= seq![mode]);
    assert(e + e + seq![mode] + e =~= seq![mode]);
    assert(e + e + e + seq![mode] =~= seq![mode]);
}

// ---------------------------------------------------------------------------
// Render-pass attachments.

/// The operations of an attachment come from its own fields: the color or
/// depth operations from its load and store operations, the stencil
/// operations from its stencil load and store operations, each whatever the
/// other pair is. A Vulkan load keeps, a clear clears, anything else is
/// don't-care; a Vulkan store stores, anything else is don't-care.
pub proof fn lemma_attachment_ops_follow_their_fields(a: VkAttachmentDescription, b: VkAttachmentDescription)
    requires
        attachment_supported(a),
        attachment_supported(b),
    ensures
        a.stencilLoadOp == b.stencilLoadOp && a.stencilStoreOp == b.stencilStoreOp
            ==> attachment_spec(a).stencil_ops == attachment_spec(b).stencil_ops,
        a.loadOp == b.loadOp && a.storeOp == b.storeOp ==> attachment_spec(a).ops == attachment_spec(b).ops,
        attachment_spec(a).stencil_ops.load == (if a.stencilLoadOp == VkAttachmentLoadOp::VK_ATTACHMENT_LOAD_OP_LOAD {
            AttachmentLoadOp::Load
        } else if a.stencilLoadOp == VkAttachmentLoadOp::VK_ATTACHMENT_LOAD_OP_CLEAR {
            AttachmentLoadOp::Clear
        } else {
            AttachmentLoadOp::DontCare
        }),
        attachment_spec(a).stencil_ops.store == (if a.stencilStoreOp == VkAttachmentStoreOp::VK_ATTACHMENT_STORE_OP_STORE {
            AttachmentStoreOp::Store
        } else {
            AttachmentStoreOp::DontCare
        }),
        attachment_spec(a).ops.load == (if a.loadOp == VkAttachmentLoadOp::VK_ATTACHMENT_LOAD_OP_LOAD {
            AttachmentLoadOp::Load
        } else if a.loadOp == VkAttachmentLoadOp::VK_ATTACHMENT_LOAD_OP_CLEAR {
            AttachmentLoadOp::Clear
        } else {
            AttachmentLoadOp::DontCare
        }),
        attachment_spec(a).ops.store == (if a.storeOp == VkAttachmentStoreOp::VK_ATTACHMENT_STORE_OP_STORE {
            AttachmentStoreOp::Store
        } else {
            AttachmentStoreOp::DontCare
        }),
{
}

// ---------------------------------------------------------------------------
// Comparisons.

/// The number of a comparison function of the abstraction layer, in its own
/// declaration order.
pub open spec fn comparison_number(c: Comparison) -> u32 {
    match c {
        Comparison::Never => 0,
        Comparison::Less => 1,
        Comparison::Equal => 2,
        Comparison::LessEqual => 3,
        Comparison::Greater => 4,
        Comparison::NotEqual => 5,
        Comparison::GreaterEqual => 6,
        Comparison::Always => 7,
    }
}

/// A Vulkan compare op becomes the comparison with the same number, so no
/// two compare ops become the same comparison.
pub proof fn lemma_compare_op_keeps_its_number(op: VkCompareOp, other: VkCompareOp)
    requires
        op.value() <= VkCompareOp::VK_COMPARE_OP_ALWAYS.value(),
        other.value() <= VkCompareOp::VK_COMPARE_OP_ALWAYS.value(),
    ensures
        comparison_number(comparison_of(op.value())) == op.value(),
        op != other ==> comparison_of(op.value()) != comparison_of(other.value()),
{
}

// ---------------------------------------------------------------------------
// Barriers.

/// Each image barrier made is the one of its position: it moves the image
/// from exactly the accesses its source mask names, in its old layout, to
/// exactly the accesses its destination mask names, in its new layout; and
/// its source side does not depend on the destination mask.
pub proof fn lemma_image_barrier_sides(bs: Seq<ImageBarrierInfo>, i: int, cs: Seq<ImageBarrierInfo>)
    requires
        0 <= i < bs.len(),
        0 <= i < cs.len(),
        cs[i].src_access == bs[i].src_access,
        cs[i].old_layout == bs[i].old_layout,
    ensures
        image_barriers_spec(bs)[i] matches Barrier::Image { index, src, src_layout, dst, dst_layout, .. } && {
            &&& index == i as usize
            &&& image_access_match(bs[i].src_access, src)
            &&& image_access_match(bs[i].dst_access, dst)
            &&& src_layout == image_layout_spec(bs[i].old_layout)
            &&& dst_layout == image_layout_spec(bs[i].new_layout)
        },
        image_barriers_spec(bs)[i] matches Barrier::Image { src: s1, src_layout: l1, .. }
            && image_barriers_spec(cs)[i] matches Barrier::Image { src: s2, src_layout: l2, .. }
            && s1 == s2 && l1 == l2,
{
    lemma_image_access_spec_matches(bs[i].src_access);
    lemma_image_access_spec_matches(bs[i].dst_access);
}

/// The number of a stencil operation of the abstraction layer, in its own
/// declaration order.
pub open spec fn stencil_op_number(op: StencilOp) -> u32 {
    match op {
        StencilOp::Keep => 0,
        StencilOp::Zero => 1,
        StencilOp::Replace => 2,
        StencilOp::IncrementClamp => 3,
        StencilOp::DecrementClamp => 4,
        StencilOp::Invert => 5,
        StencilOp::IncrementWrap => 6,
        StencilOp::DecrementWrap => 7,
    }
}

/// The number of a logic operation of the abstraction layer, in its own
/// declaration order.
pub open spec fn logic_op_number(op: LogicOp) -> u32 {
    match op {
        LogicOp::Clear => 0,
        LogicOp::And => 1,
        LogicOp::AndReverse => 2,
        LogicOp::Copy => 3,
        LogicOp::AndInverted => 4,
        LogicOp::NoOp => 5,
        LogicOp::Xor => 6,
        LogicOp::Or => 7,
        LogicOp::Nor => 8,
        LogicOp::Equivalent => 9,
        LogicOp::Invert => 10,
        LogicOp::OrReverse => 11,
        LogicOp::CopyInverted => 12,
        LogicOp::OrInverted => 13,
        LogicOp::Nand => 14,
        LogicOp::Set_ => 15,
    }
}

/// The number of a blend factor of the abstraction layer, in its own
/// declaration order.
pub open spec fn factor_number(f: Factor) -> u32 {
    match f {
        Factor::Zero => 0,
        Factor::One => 1,
        Factor::SrcColor => 2,
        Factor::OneMinusSrcColor => 3,
        Factor::DstColor => 4,
        Factor::OneMinusDstColor => 5,
        Factor::SrcAlpha => 6,
        Factor::OneMinusSrcAlpha => 7,
        Factor::DstAlpha => 8,
        Factor::OneMinusDstAlpha => 9,
        Factor::ConstColor => 10,
        Factor::OneMinusConstColor => 11,
        Factor::ConstAlpha => 12,
        Factor::OneMinusConstAlpha => 13,
        Factor::SrcAlphaSaturate => 14,
        Factor::Src1Color => 15,
        Factor::OneMinusSrc1Color => 16,
        Factor::Src1Alpha => 17,
        Factor::OneMinusSrc1Alpha => 18,
    }
}

/// Each stencil operation of a face comes from its own field, keeping its
/// number; the comparison comes from the face's compare op.
pub proof fn lemma_stencil_face_keeps_its_fields(state: VkStencilOpState)
    requires
        stencil_state_supported(state),
    ensures
        comparison_number(stencil_face_spec(state).fun) == state.compareOp.value(),
        stencil_op_number(stencil_face_spec(state).op_fail) == state.failOp.value(),
        stencil_op_number(stencil_face_spec(state).op_depth_fail) == state.depthFailOp.value(),
        stencil_op_number(stencil_face_spec(state).op_pass) == state.passOp.value(),
{
}

/// A Vulkan logic op becomes the logic operation with the same number.
pub proof fn lemma_logic_op_keeps_its_number(op: VkLogicOp)
    requires
        op.value() <= VkLogicOp::VK_LOGIC_OP_SET.value(),
    ensures
        logic_op_number(logic_op_of(op.value())) == op.value(),
{
}

/// A blend operation takes its source factor from the source argument and
/// its destination factor from the destination argument, each keeping its
/// number; the operation is the Vulkan one of the same name.
pub proof fn lemma_blend_op_keeps_its_factors(op: VkBlendOp, src: VkBlendFactor, dst: VkBlendFactor)
    requires
        blend_supported(op, src, dst),
    ensures
        match blend_op_spec(op, src, dst) {
            BlendOp::Add { src: s, dst: d } => op == VkBlendOp::VK_BLEND_OP_ADD && factor_number(s)
                == src.value() && factor_number(d) == dst.value(),
            BlendOp::Sub { src: s, dst: d } => op == VkBlendOp::VK_BLEND_OP_SUBTRACT && factor_number(s)
                == src.value() && factor_number(d) == dst.value(),
            BlendOp::RevSub { src: s, dst: d } => op == VkBlendOp::VK_BLEND_OP_REVERSE_SUBTRACT
                && factor_number(s) == src.value() && factor_number(d) == dst.value(),
            BlendOp::Min => op == VkBlendOp::VK_BLEND_OP_MIN,
            BlendOp::Max => op == VkBlendOp::VK_BLEND_OP_MAX,
        },
{
}

/// A color target blends only where blending is on; its color blending
/// depends only on the color fields, its alpha blending only on the alpha
/// fields, and its write mask only on the write mask.
pub proof fn lemma_color_blend_sides(
    a: VkPipelineColorBlendAttachmentState,
    b: VkPipelineColorBlendAttachmentState,
)
    ensures
        (color_blend_spec(a).blend is Some) == (a.blendEnable == VK_TRUE),
        a.colorWriteMask == b.colorWriteMask ==> color_blend_spec(a).mask == color_blend_spec(b).mask,
        a.blendEnable == VK_TRUE && b.blendEnable == VK_TRUE && a.colorBlendOp == b.colorBlendOp
            && a.srcColorBlendFactor == b.srcColorBlendFactor && a.dstColorBlendFactor
            == b.dstColorBlendFactor ==> color_blend_spec(a).blend.unwrap().color == color_blend_spec(
            b,
        ).blend.unwrap().color,
        a.blendEnable == VK_TRUE && b.blendEnable == VK_TRUE && a.alphaBlendOp == b.alphaBlendOp
            && a.srcAlphaBlendFactor == b.srcAlphaBlendFactor && a.dstAlphaBlendFactor
            == b.dstAlphaBlendFactor ==> color_blend_spec(a).blend.unwrap().alpha == color_blend_spec(
            b,
        ).blend.unwrap().alpha,
{
}

/// Each buffer barrier made is the one of its position: from exactly the
/// buffer accesses its source mask names to exactly those its destination
/// mask names, over the buffer from its offset, for its size, or to the end
/// of the buffer where the low 32 bits of its size are all ones.
pub proof fn lemma_buffer_barrier_sides(bs: Seq<BufferBarrierInfo>, i: int)
    requires
        0 <= i < bs.len(),
    ensures
        buffer_barriers_spec(bs)[i] matches Barrier::Buffer { index, src, dst, offset, size } && {
            &&& index == i as usize
            &&& buffer_access_match(bs[i].src_access, src)
            &&& buffer_access_match(bs[i].dst_access, dst)
            &&& offset == bs[i].offset
            &&& size == (if bs[i].size & 0xFFFF_FFFFu64 == 0xFFFF_FFFFu64 {
                None
            } else {
                Some(bs[i].size)
            })
        },
{
    lemma_buffer_access_spec_matches(bs[i].src_access);
    lemma_buffer_access_spec_matches(bs[i].dst_access);
    let x = bs[i].size;
    assert(((x as i32) == -1i32) == (x & 0xFFFF_FFFFu64 == 0xFFFF_FFFFu64)) by (bit_vector);
}

// ---------------------------------------------------------------------------
// Fence status.

/// A fake fence reads as signaled. A real fence reads as signaled exactly when
/// the device reports it signaled, as not ready exactly when the device
/// reports it unsignaled, and as a lost device exactly when the device fails.
pub proof fn lemma_fence_status_follows_the_device(status: Result<bool, ()>)
    ensures
        fence_status_spec(true, status) == VkResult::VK_SUCCESS,
        (fence_status_spec(false, status) == VkResult::VK_SUCCESS) <==> status == Ok::<bool, ()>(true),
        (fence_status_spec(false, status) == VkResult::VK_NOT_READY) <==> status == Ok::<bool, ()>(false),
        (fence_status_spec(false, status) == VkResult::VK_ERROR_DEVICE_LOST) <==> status is Err,
{
}

// ---------------------------------------------------------------------------
// Descriptor writes.

/// Distinct layouts that the abstraction layer knows stay distinct.
pub proof fn lemma_image_layouts_distinct(x: VkImageLayout, y: VkImageLayout)
    requires
        layout_supported(x),
        layout_supported(y),
        x != y,
    ensures
        image_layout_spec(x) != image_layout_spec(y),
{
}

/// Every image descriptor of a write that reads images (sampled, storage,
/// input attachment or combined) is the view of the image info at its
/// position, in the layout of that info.
pub proof fn lemma_image_descriptors_carry_their_layout(
    ty: DescriptorType,
    images: Seq<ImageInfo>,
    buffers: Seq<BufferInfo>,
    pos: int,
)
    requires
        ty is Image || ty is InputAttachment,
        0 <= pos < images.len(),
    ensures
        match descriptor_spec(ty, images, buffers, pos) {
            Descriptor::Image(k, l) => k == pos as usize && l == image_layout_spec(images[pos].layout),
            Descriptor::CombinedImageSampler(k, l) => k == pos as usize && l == image_layout_spec(
                images[pos].layout,
            ),
            _ => false,
        },
{
}

} // verus!
