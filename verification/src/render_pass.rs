//! Render passes: what the portability layer makes of the attachments,
//! subpasses and dependencies that a Vulkan render pass is created with.

use vstd::prelude::*;

use crate::conv::{
    format_spec,
    image_access_match,
    image_layout_spec,
    layout_is_supported,
    layout_supported,
    map_attachment_load_op,
    map_attachment_store_op,
    map_dependency_flags,
    map_format,
    map_image_access,
    map_image_layout,
    map_pipeline_stage_flags,
};
use crate::hal::format::{Format, NUM_FORMATS};
use crate::hal::image::Access;
use crate::hal::memory::Dependencies;
use crate::hal::pass::{
    Attachment,
    AttachmentLoadOp,
    AttachmentOps,
    AttachmentRef,
    AttachmentStoreOp,
    SubpassDependency,
    SubpassDesc,
};
use crate::hal::pso::PipelineStage;
use crate::vk_enums::{VkAttachmentLoadOp, VkAttachmentStoreOp, VkFormat};
use crate::vk_structs::{VkAttachmentDescription, VkAttachmentReference, VkSubpassDependency};

verus! {

/// The attachment index of a reference that names no attachment.
pub const VK_ATTACHMENT_UNUSED: u32 = 0xFFFF_FFFF;

/// The subpass index that stands for what happens outside the render pass.
pub const VK_SUBPASS_EXTERNAL: u32 = 0xFFFF_FFFF;

pub open spec fn load_op_spec(op: VkAttachmentLoadOp) -> AttachmentLoadOp {
    match op {
        VkAttachmentLoadOp::VK_ATTACHMENT_LOAD_OP_LOAD => AttachmentLoadOp::Load,
        VkAttachmentLoadOp::VK_ATTACHMENT_LOAD_OP_CLEAR => AttachmentLoadOp::Clear,
        _ => AttachmentLoadOp::DontCare,
    }
}

pub open spec fn store_op_spec(op: VkAttachmentStoreOp) -> AttachmentStoreOp {
    match op {
        VkAttachmentStoreOp::VK_ATTACHMENT_STORE_OP_STORE => AttachmentStoreOp::Store,
        _ => AttachmentStoreOp::DontCare,
    }
}

pub open spec fn load_op_supported(op: VkAttachmentLoadOp) -> bool {
    op.value() <= VkAttachmentLoadOp::VK_ATTACHMENT_LOAD_OP_DONT_CARE.value()
}

pub open spec fn store_op_supported(op: VkAttachmentStoreOp) -> bool {
    op.value() <= VkAttachmentStoreOp::VK_ATTACHMENT_STORE_OP_DONT_CARE.value()
}

/// An attachment description that the portability layer takes: no flags,
/// a format, operations and layouts that the abstraction layer knows.
pub open spec fn attachment_supported(a: VkAttachmentDescription) -> bool {
    &&& a.flags == 0
    &&& a.format.value() < NUM_FORMATS
    &&& load_op_supported(a.loadOp)
    &&& store_op_supported(a.storeOp)
    &&& load_op_supported(a.stencilLoadOp)
    &&& store_op_supported(a.stencilStoreOp)
    &&& layout_supported(a.initialLayout)
    &&& layout_supported(a.finalLayout)
}

pub open spec fn attachment_spec(a: VkAttachmentDescription) -> Attachment {
    Attachment {
        format: format_spec(a.format),
        samples: a.samples.value() as u8,
        ops: AttachmentOps { load: load_op_spec(a.loadOp), store: store_op_spec(a.storeOp) },
        stencil_ops: AttachmentOps {
            load: load_op_spec(a.stencilLoadOp),
            store: store_op_spec(a.stencilStoreOp),
        },
        initial_layout: image_layout_spec(a.initialLayout),
        final_layout: image_layout_spec(a.finalLayout),
    }
}

/// The attachment of the abstraction layer for a Vulkan attachment
/// description.
pub fn map_attachment(a: &VkAttachmentDescription) -> (r: Attachment)
    requires
        attachment_supported(*a),
    ensures
        r == attachment_spec(*a),
{
    Attachment {
        format: map_format(a.format),
        samples: a.samples.as_raw() as u8,
        ops: AttachmentOps {
            load: map_attachment_load_op(a.loadOp),
            store: map_attachment_store_op(a.storeOp),
        },
        stencil_ops: AttachmentOps {
            load: map_attachment_load_op(a.stencilLoadOp),
            store: map_attachment_store_op(a.stencilStoreOp),
        },
        initial_layout: map_image_layout(a.initialLayout),
        final_layout: map_image_layout(a.finalLayout),
    }
}

pub open spec fn attachment_ref_spec(r: VkAttachmentReference) -> AttachmentRef {
    AttachmentRef { attachment: r.attachment as usize, layout: image_layout_spec(r.layout) }
}

/// The attachment reference of the abstraction layer for a Vulkan one.
pub fn map_attachment_ref(att_ref: &VkAttachmentReference) -> (r: AttachmentRef)
    requires
        layout_supported(att_ref.layout),
    ensures
        r == attachment_ref_spec(*att_ref),
{
    AttachmentRef { attachment: att_ref.attachment as usize, layout: map_image_layout(att_ref.layout) }
}

/// Whether every reference of a list has a layout the abstraction layer knows.
pub open spec fn refs_supported(refs: Seq<VkAttachmentReference>) -> bool {
    forall|i: int| 0 <= i < refs.len() ==> layout_supported(#[trigger] refs[i].layout)
}

/// Whether `r` maps each reference of `refs`, in order.
pub open spec fn refs_mapped(refs: Seq<VkAttachmentReference>, r: Seq<AttachmentRef>) -> bool {
    &&& r.len() == refs.len()
    &&& forall|i: int| 0 <= i < refs.len() ==> #[trigger] r[i] == attachment_ref_spec(refs[i])
}

/// The attachment references of the abstraction layer for a list of Vulkan
/// ones, in the same order.
pub fn map_attachment_refs(refs: &[VkAttachmentReference]) -> (r: Vec<AttachmentRef>)
    requires
        refs_supported(refs@),
    ensures
        refs_mapped(refs@, r@),
{
    let mut out: Vec<AttachmentRef> = Vec::new();
    let mut i: usize = 0;
    while i < refs.len()
        invariant
            i <= refs@.len(),
            refs_supported(refs@),
            out@.len() == i,
            forall|k: int| 0 <= k < i ==> #[trigger] out@[k] == attachment_ref_spec(refs@[k]),
        decreases refs@.len() - i,
    {
        let mapped = map_attachment_ref(&refs[i]);
        out.push(mapped);
        i = i + 1;
    }
    out
}

/// The depth-stencil attachment of a subpass: none where the subpass gives
/// none, or where its reference names no attachment.
pub open spec fn depth_stencil_spec(ds: Option<VkAttachmentReference>) -> Option<AttachmentRef> {
    match ds {
        Some(r) => if r.attachment == VK_ATTACHMENT_UNUSED {
            None
        } else {
            Some(attachment_ref_spec(r))
        },
        None => None,
    }
}

pub fn map_depth_stencil_ref(ds: Option<&VkAttachmentReference>) -> (r: Option<AttachmentRef>)
    requires
        ds matches Some(d) ==> layout_supported(d.layout),
    ensures
        r == depth_stencil_spec(
            match ds {
                Some(d) => Some(*d),
                None => None,
            },
        ),
{
    match ds {
        Some(d) => {
            let mapped = map_attachment_ref(d);
            if d.attachment == VK_ATTACHMENT_UNUSED {
                None
            } else {
                Some(mapped)
            }
        },
        None => None,
    }
}

/// The indices of the attachments that a subpass preserves.
pub fn map_preserves(ids: &[u32]) -> (r: Vec<usize>)
    ensures
        r@.len() == ids@.len(),
        forall|i: int| 0 <= i < ids@.len() ==> #[trigger] r@[i] == ids@[i] as usize,
{
    let mut out: Vec<usize> = Vec::new();
    let mut i: usize = 0;
    while i < ids.len()
        invariant
            i <= ids@.len(),
            out@.len() == i,
            forall|k: int| 0 <= k < i ==> #[trigger] out@[k] == ids@[k] as usize,
        decreases ids@.len() - i,
    {
        out.push(ids[i] as usize);
        i = i + 1;
    }
    out
}

/// The description of a subpass in the creation info of a render pass: the
/// attachments it reads as input, writes as color, resolves the colors to
/// (where it resolves), uses as depth and stencil, and preserves.
#[derive(Clone, Debug)]
pub struct SubpassInfo {
    pub inputs: Vec<VkAttachmentReference>,
    pub colors: Vec<VkAttachmentReference>,
    pub resolves: Option<Vec<VkAttachmentReference>>,
    pub depth_stencil: Option<VkAttachmentReference>,
    pub preserves: Vec<u32>,
}

pub open spec fn subpass_supported(s: SubpassInfo) -> bool {
    &&& refs_supported(s.inputs@)
    &&& refs_supported(s.colors@)
    &&& (s.resolves matches Some(v) ==> refs_supported(v@))
    &&& (s.depth_stencil matches Some(d) ==> layout_supported(d.layout))
}

/// Whether `d` is the subpass of the abstraction layer for `s`.
pub open spec fn subpass_mapped(s: SubpassInfo, d: SubpassDesc) -> bool {
    &&& refs_mapped(s.inputs@, d.inputs@)
    &&& refs_mapped(s.colors@, d.colors@)
    &&& match s.resolves {
        Some(v) => refs_mapped(v@, d.resolves@),
        None => d.resolves@.len() == 0,
    }
    &&& d.depth_stencil == depth_stencil_spec(s.depth_stencil)
    &&& d.preserves@.len() == s.preserves@.len()
    &&& forall|i: int|
        0 <= i < s.preserves@.len() ==> #[trigger] d.preserves@[i] == s.preserves@[i] as usize
}

/// The subpass of the abstraction layer for a subpass description.
pub fn map_subpass(s: &SubpassInfo) -> (r: SubpassDesc)
    requires
        subpass_supported(*s),
    ensures
        subpass_mapped(*s, r),
{
    let inputs = map_attachment_refs(s.inputs.as_slice());
    let colors = map_attachment_refs(s.colors.as_slice());
    let resolves = match &s.resolves {
        Some(v) => map_attachment_refs(v.as_slice()),
        None => Vec::new(),
    };
    let depth_stencil = match &s.depth_stencil {
        Some(d) => map_depth_stencil_ref(Some(d)),
        None => None,
    };
    let preserves = map_preserves(s.preserves.as_slice());
    SubpassDesc { colors, depth_stencil, inputs, resolves, preserves }
}

/// The subpass that a dependency names: none for the outside of the pass;
/// the abstraction layer numbers subpasses in a byte.
pub open spec fn subpass_ref_spec(subpass: u32) -> Option<u8> {
    if subpass == VK_SUBPASS_EXTERNAL {
        None
    } else {
        Some(subpass as u8)
    }
}

pub fn map_subpass_ref(subpass: u32) -> (r: Option<u8>)
    ensures
        r == subpass_ref_spec(subpass),
{
    if subpass == VK_SUBPASS_EXTERNAL {
        None
    } else {
        Some(subpass as u8)
    }
}

/// The stages of the abstraction layer for a Vulkan stage mask (see
/// `map_pipeline_stage_flags`).
pub open spec fn pipeline_stage_spec(stages: u32) -> PipelineStage {
    if stages <= PipelineStage::ALL {
        PipelineStage { bits: stages }
    } else {
        PipelineStage { bits: PipelineStage::ALL }
    }
}

/// The dependency flags of the abstraction layer for a Vulkan mask (see
/// `map_dependency_flags`).
pub open spec fn dependency_flags_spec(flags: u32) -> Dependencies {
    if flags <= Dependencies::BY_REGION {
        Dependencies { bits: flags }
    } else {
        Dependencies { bits: Dependencies::ALL }
    }
}

/// Whether `d` is the dependency of the abstraction layer for `dep`: the
/// passes with the outside as none, the stages and dependency flags mapped,
/// and the access masks read as accesses to images (buffer accesses are not
/// carried by subpass dependencies).
pub open spec fn dependency_mapped(dep: VkSubpassDependency, d: SubpassDependency) -> bool {
    &&& d.src_pass == subpass_ref_spec(dep.srcSubpass)
    &&& d.dst_pass == subpass_ref_spec(dep.dstSubpass)
    &&& d.src_stage == pipeline_stage_spec(dep.srcStageMask)
    &&& d.dst_stage == pipeline_stage_spec(dep.dstStageMask)
    &&& image_access_match(dep.srcAccessMask, d.src_access)
    &&& image_access_match(dep.dstAccessMask, d.dst_access)
    &&& d.flags == dependency_flags_spec(dep.dependencyFlags)
}

pub fn map_subpass_dependency(dep: &VkSubpassDependency) -> (r: SubpassDependency)
    ensures
        dependency_mapped(*dep, r),
{
    SubpassDependency {
        src_pass: map_subpass_ref(dep.srcSubpass),
        dst_pass: map_subpass_ref(dep.dstSubpass),
        src_stage: map_pipeline_stage_flags(dep.srcStageMask),
        dst_stage: map_pipeline_stage_flags(dep.dstStageMask),
        src_access: map_image_access(dep.srcAccessMask),
        dst_access: map_image_access(dep.dstAccessMask),
        flags: map_dependency_flags(dep.dependencyFlags),
    }
}

/// Everything a render pass of the abstraction layer is created from.
#[derive(Clone, Debug)]
pub struct RenderPassDesc {
    pub attachments: Vec<Attachment>,
    pub subpasses: Vec<SubpassDesc>,
    pub dependencies: Vec<SubpassDependency>,
}

pub open spec fn render_pass_supported(
    attachments: Seq<VkAttachmentDescription>,
    subpasses: Seq<SubpassInfo>,
) -> bool {
    &&& forall|i: int| 0 <= i < attachments.len() ==> attachment_supported(#[trigger] attachments[i])
    &&& forall|i: int| 0 <= i < subpasses.len() ==> subpass_supported(#[trigger] subpasses[i])
}

fn refs_are_supported(refs: &[VkAttachmentReference]) -> (r: bool)
    ensures
        r == refs_supported(refs@),
{
    let mut i: usize = 0;
    while i < refs.len()
        invariant
            i <= refs@.len(),
            forall|k: int| 0 <= k < i ==> layout_supported(#[trigger] refs@[k].layout),
        decreases refs@.len() - i,
    {
        if !layout_is_supported(refs[i].layout) {
            assert(!layout_supported(refs@[i as int].layout));
            return false;
        }
        i = i + 1;
    }
    true
}

fn attachment_is_supported(a: &VkAttachmentDescription) -> (r: bool)
    ensures
        r == attachment_supported(*a),
{
    let max_load = VkAttachmentLoadOp::VK_ATTACHMENT_LOAD_OP_DONT_CARE.as_raw();
    let max_store = VkAttachmentStoreOp::VK_ATTACHMENT_STORE_OP_DONT_CARE.as_raw();
    a.flags == 0 && a.format.as_raw() < NUM_FORMATS && a.loadOp.as_raw() <= max_load
        && a.storeOp.as_raw() <= max_store && a.stencilLoadOp.as_raw() <= max_load
        && a.stencilStoreOp.as_raw() <= max_store && layout_is_supported(a.initialLayout)
        && layout_is_supported(a.finalLayout)
}

fn subpass_is_supported(s: &SubpassInfo) -> (r: bool)
    ensures
        r == subpass_supported(*s),
{
    let resolves_ok = match &s.resolves {
        Some(v) => refs_are_supported(v.as_slice()),
        None => true,
    };
    let depth_ok = match &s.depth_stencil {
        Some(d) => layout_is_supported(d.layout),
        None => true,
    };
    refs_are_supported(s.inputs.as_slice()) && refs_are_supported(s.colors.as_slice()) && resolves_ok
        && depth_ok
}

/// Whether a render pass can be described: its attachments and the
/// references of its subpasses are what the abstraction layer knows.
pub fn render_pass_is_supported(attachments: &[VkAttachmentDescription], subpasses: &[SubpassInfo]) -> (r: bool)
    ensures
        r == render_pass_supported(attachments@, subpasses@),
{
    let mut i: usize = 0;
    while i < attachments.len()
        invariant
            i <= attachments@.len(),
            forall|k: int| 0 <= k < i ==> attachment_supported(#[trigger] attachments@[k]),
        decreases attachments@.len() - i,
    {
        if !attachment_is_supported(&attachments[i]) {
            assert(!attachment_supported(attachments@[i as int]));
            return false;
        }
        i = i + 1;
    }
    let mut i: usize = 0;
    while i < subpasses.len()
        invariant
            i <= subpasses@.len(),
            forall|k: int| 0 <= k < attachments@.len() ==> attachment_supported(#[trigger] attachments@[k]),
            forall|k: int| 0 <= k < i ==> subpass_supported(#[trigger] subpasses@[k]),
        decreases subpasses@.len() - i,
    {
        if !subpass_is_supported(&subpasses[i]) {
            assert(!subpass_supported(subpasses@[i as int]));
            return false;
        }
        i = i + 1;
    }
    true
}

/// The description of a render pass of the abstraction layer for the
/// creation info of a Vulkan render pass: each attachment, subpass and
/// dependency mapped, in order.
pub fn render_pass_desc(
    attachments: &[VkAttachmentDescription],
    subpasses: &[SubpassInfo],
    dependencies: &[VkSubpassDependency],
) -> (r: RenderPassDesc)
    requires
        render_pass_supported(attachments@, subpasses@),
    ensures
        r.attachments@.len() == attachments@.len(),
        forall|i: int|
            0 <= i < attachments@.len() ==> #[trigger] r.attachments@[i] == attachment_spec(
                attachments@[i],
            ),
        r.subpasses@.len() == subpasses@.len(),
        forall|i: int|
            0 <= i < subpasses@.len() ==> subpass_mapped(subpasses@[i], #[trigger] r.subpasses@[i]),
        r.dependencies@.len() == dependencies@.len(),
        forall|i: int|
            0 <= i < dependencies@.len() ==> dependency_mapped(
                dependencies@[i],
                #[trigger] r.dependencies@[i],
            ),
{
    let mut atts: Vec<Attachment> = Vec::new();
    let mut i: usize = 0;
    while i < attachments.len()
        invariant
            i <= attachments@.len(),
            render_pass_supported(attachments@, subpasses@),
            atts@.len() == i,
            forall|k: int| 0 <= k < i ==> #[trigger] atts@[k] == attachment_spec(attachments@[k]),
        decreases attachments@.len() - i,
    {
        let a = map_attachment(&attachments[i]);
        atts.push(a);
        i = i + 1;
    }
    let mut subs: Vec<SubpassDesc> = Vec::new();
    let mut j: usize = 0;
    while j < subpasses.len()
        invariant
            j <= subpasses@.len(),
            render_pass_supported(attachments@, subpasses@),
            subs@.len() == j,
            forall|k: int| 0 <= k < j ==> subpass_mapped(subpasses@[k], #[trigger] subs@[k]),
        decreases subpasses@.len() - j,
    {
        let s = map_subpass(&subpasses[j]);
        subs.push(s);
        j = j + 1;
    }
    let mut deps: Vec<SubpassDependency> = Vec::new();
    let mut k: usize = 0;
    while k < dependencies.len()
        invariant
            k <= dependencies@.len(),
            deps@.len() == k,
            forall|m: int| 0 <= m < k ==> dependency_mapped(dependencies@[m], #[trigger] deps@[m]),
        decreases dependencies@.len() - k,
    {
        let d = map_subpass_dependency(&dependencies[k]);
        deps.push(d);
        k = k + 1;
    }
    RenderPassDesc { attachments: atts, subpasses: subs, dependencies: deps }
}

} // verus!
