//! Descriptors: set layouts, pools that keep track of their sets, and what
//! a write of descriptors is made of.

use vstd::prelude::*;

use crate::conv::{
    descriptor_type_spec,
    descriptor_type_supported,
    image_layout_spec,
    layout_is_supported,
    layout_supported,
    map_descriptor_type,
    map_image_layout,
    map_stage_flags,
    stage_flags_match,
};
use crate::hal::image::Layout;
use crate::hal::pso::{
    AllocationError,
    BufferDescriptorFormat,
    DescriptorPoolCreateFlags,
    DescriptorType,
    ImageDescriptorType,
    ShaderStageFlags,
};
use crate::instance::{map_oom, oom_spec};
use crate::vk_enums::{VkDescriptorPoolCreateFlagBits, VkDescriptorType, VkImageLayout, VkResult};
use crate::vk_structs::{VkDescriptorPoolSize, VkShaderStageFlags};

verus! {

// ---------------------------------------------------------------------------
// Set layouts and pools.

/// A binding of a descriptor set layout as the Vulkan API describes it;
/// whether it has immutable samplers stands for its sampler list.
#[derive(Clone, Copy, Debug)]
pub struct LayoutBindingInfo {
    pub binding: u32,
    pub descriptor_type: VkDescriptorType,
    pub descriptor_count: u32,
    pub stage_flags: VkShaderStageFlags,
    pub has_immutable_samplers: bool,
}

/// A binding of a descriptor set layout of the abstraction layer.
#[derive(Clone, Copy, Debug, PartialEq, Eq, Structural)]
pub struct DescriptorSetLayoutBinding {
    pub binding: u32,
    pub ty: DescriptorType,
    pub count: usize,
    pub stage_flags: ShaderStageFlags,
    pub immutable_samplers: bool,
}

pub fn map_layout_binding(b: &LayoutBindingInfo) -> (r: DescriptorSetLayoutBinding)
    requires
        descriptor_type_supported(b.descriptor_type),
    ensures
        r.binding == b.binding,
        r.ty == descriptor_type_spec(b.descriptor_type),
        r.count == b.descriptor_count as usize,
        stage_flags_match(b.stage_flags, r.stage_flags),
        r.immutable_samplers == b.has_immutable_samplers,
{
    DescriptorSetLayoutBinding {
        binding: b.binding,
        ty: map_descriptor_type(b.descriptor_type),
        count: b.descriptor_count as usize,
        stage_flags: map_stage_flags(b.stage_flags),
        immutable_samplers: b.has_immutable_samplers,
    }
}

/// A range of descriptors that a pool holds: their type and how many.
#[derive(Clone, Copy, Debug, PartialEq, Eq, Structural)]
pub struct DescriptorRangeDesc {
    pub ty: DescriptorType,
    pub count: usize,
}

pub fn map_pool_size(size: &VkDescriptorPoolSize) -> (r: DescriptorRangeDesc)
    requires
        descriptor_type_supported(size.type_),
    ensures
        r.ty == descriptor_type_spec(size.type_),
        r.count == size.descriptorCount as usize,
{
    DescriptorRangeDesc { ty: map_descriptor_type(size.type_), count: size.descriptorCount as usize }
}

/// The pool flags of the abstraction layer for Vulkan ones: the flags it
/// knows, the others dropped.
pub fn map_pool_flags(flags: u32) -> (r: DescriptorPoolCreateFlags)
    ensures
        r.bits == flags & DescriptorPoolCreateFlags::FREE_DESCRIPTOR_SET,
{
    DescriptorPoolCreateFlags { bits: flags & DescriptorPoolCreateFlags::FREE_DESCRIPTOR_SET }
}

/// The sets of a pool that the pool frees itself. A pool whose sets cannot
/// be freed one by one keeps the handles of all the sets it gave out, to
/// release them when it is reset or destroyed; a pool whose sets can be
/// freed one by one keeps none.
pub struct SetTracker<H> {
    pub handles: Option<Vec<H>>,
}

impl<H> SetTracker<H> {
    /// Whether the pool keeps its sets.
    pub open spec fn tracks(&self) -> bool {
        self.handles is Some
    }

    /// The sets the pool keeps (none where it keeps none).
    pub open spec fn kept(&self) -> Seq<H> {
        match self.handles {
            Some(v) => v@,
            None => Seq::empty(),
        }
    }

    /// The tracker of a new pool created with `flags`: it keeps its sets
    /// unless they may be freed one by one.
    pub fn new(flags: u32) -> (r: Self)
        ensures
            r.tracks() == (flags
                & VkDescriptorPoolCreateFlagBits::VK_DESCRIPTOR_POOL_CREATE_FREE_DESCRIPTOR_SET_BIT.value()
                == 0),
            r.kept().len() == 0,
    {
        if flags
            & VkDescriptorPoolCreateFlagBits::VK_DESCRIPTOR_POOL_CREATE_FREE_DESCRIPTOR_SET_BIT.as_raw()
            != 0 {
            SetTracker { handles: None }
        } else {
            SetTracker { handles: Some(Vec::new()) }
        }
    }

    /// Records sets just allocated from the pool.
    pub fn record(&mut self, sets: Vec<H>)
        ensures
            recorded(*old(self), sets@, *final(self)),
    {
        let mut sets = sets;
        match &mut self.handles {
            Some(v) => {
                v.append(&mut sets);
            },
            None => {},
        }
    }

    /// Hands out every set the pool keeps, to be released, and keeps none.
    pub fn take_all(&mut self) -> (r: Vec<H>)
        ensures
            released(*old(self), *final(self), r@),
    {
        match &mut self.handles {
            Some(v) => {
                let mut out: Vec<H> = Vec::new();
                std::mem::swap(v, &mut out);
                out
            },
            None => Vec::new(),
        }
    }

    /// Whether sets of the pool may be freed one by one.
    pub fn frees_individually(&self) -> (r: bool)
        ensures
            r == !self.tracks(),
    {
        self.handles.is_none()
    }
}

/// The effect of recording allocated sets into a pool's tracker.
pub open spec fn recorded<H>(before: SetTracker<H>, sets: Seq<H>, after: SetTracker<H>) -> bool {
    &&& after.tracks() == before.tracks()
    &&& before.tracks() ==> after.kept() == before.kept() + sets
    &&& !before.tracks() ==> after.kept().len() == 0
}

/// The effect of handing out every set a pool's tracker keeps.
pub open spec fn released<H>(before: SetTracker<H>, after: SetTracker<H>, handed: Seq<H>) -> bool {
    &&& after.tracks() == before.tracks()
    &&& after.kept().len() == 0
    &&& handed == before.kept()
}

/// The Vulkan error for descriptor sets that could not be allocated.
pub open spec fn alloc_error_spec(e: AllocationError) -> VkResult {
    match e {
        AllocationError::OutOfMemory(oom) => oom_spec(oom),
        AllocationError::OutOfPoolMemory => VkResult::VK_ERROR_OUT_OF_POOL_MEMORY_KHR,
        AllocationError::IncompatibleLayout => VkResult::VK_ERROR_DEVICE_LOST,
        AllocationError::FragmentedPool => VkResult::VK_ERROR_FRAGMENTED_POOL,
    }
}

pub fn map_descriptor_alloc_error(e: AllocationError) -> (r: VkResult)
    ensures
        r == alloc_error_spec(e),
{
    match e {
        AllocationError::OutOfMemory(oom) => map_oom(oom),
        AllocationError::OutOfPoolMemory => VkResult::VK_ERROR_OUT_OF_POOL_MEMORY_KHR,
        AllocationError::IncompatibleLayout => VkResult::VK_ERROR_DEVICE_LOST,
        AllocationError::FragmentedPool => VkResult::VK_ERROR_FRAGMENTED_POOL,
    }
}

// ---------------------------------------------------------------------------
// Writes.

/// An image info of a descriptor write: whether it names a sampler, and the
/// layout of its image view.
#[derive(Clone, Copy, Debug)]
pub struct ImageInfo {
    pub has_sampler: bool,
    pub layout: VkImageLayout,
}

/// A buffer info of a descriptor write: offset and range in the buffer.
#[derive(Clone, Copy, Debug, PartialEq, Eq, Structural)]
pub struct BufferInfo {
    pub offset: u64,
    pub range: u64,
}

/// A descriptor of a write, naming by index the info it is made from.
#[derive(Clone, Copy, Debug, PartialEq, Eq, Structural)]
pub enum Descriptor {
    /// The sampler of image info `index`.
    Sampler(usize),
    /// The view and sampler of image info `index`, in the layout.
    CombinedImageSampler(usize, Layout),
    /// The view of image info `index`, in the layout.
    Image(usize, Layout),
    /// Texel buffer view `index`.
    TexelBuffer(usize),
    /// The buffer of buffer info `index`, from the offset, for the size
    /// (to its end where none).
    Buffer(usize, u64, Option<u64>),
}

/// Which infos the descriptors of a type are made from.
pub enum Source {
    Images,
    Buffers,
    TexelViews,
}

pub open spec fn source_of(ty: DescriptorType) -> Source {
    match ty {
        DescriptorType::Buffer { format: BufferDescriptorFormat::Texel, .. } => Source::TexelViews,
        DescriptorType::Buffer { .. } => Source::Buffers,
        _ => Source::Images,
    }
}

/// How many descriptors a write of type `ty` holds: as many as infos of the
/// kind that type reads.
pub open spec fn descriptor_count(ty: DescriptorType, images: nat, buffers: nat, texels: nat) -> nat {
    match source_of(ty) {
        Source::Images => images,
        Source::Buffers => buffers,
        Source::TexelViews => texels,
    }
}

/// Whether the size of a buffer descriptor stands for the rest of the
/// buffer: its low 32 bits, read as a signed number, are the whole-size
/// marker.
pub open spec fn is_whole_range(range: u64) -> bool {
    (range as i32) == -1i32
}

/// The descriptor at position `i` of a write of type `ty`.
pub open spec fn descriptor_spec(
    ty: DescriptorType,
    images: Seq<ImageInfo>,
    buffers: Seq<BufferInfo>,
    i: int,
) -> Descriptor {
    match ty {
        DescriptorType::Sampler => Descriptor::Sampler(i as usize),
        DescriptorType::Image { ty: ImageDescriptorType::Sampled { with_sampler: true } } => {
            if images[i].has_sampler {
                Descriptor::CombinedImageSampler(i as usize, image_layout_spec(images[i].layout))
            } else {
                Descriptor::Image(i as usize, image_layout_spec(images[i].layout))
            }
        },
        DescriptorType::Buffer { format: BufferDescriptorFormat::Texel, .. } => Descriptor::TexelBuffer(
            i as usize,
        ),
        DescriptorType::Buffer { .. } => Descriptor::Buffer(
            i as usize,
            buffers[i].offset,
            if is_whole_range(buffers[i].range) {
                None
            } else {
                Some(buffers[i].range)
            },
        ),
        _ => Descriptor::Image(i as usize, image_layout_spec(images[i].layout)),
    }
}

/// Whether the image infos of a write have layouts the abstraction layer
/// knows, where the type reads their layouts.
pub open spec fn write_supported(ty: DescriptorType, images: Seq<ImageInfo>) -> bool {
    ty != DescriptorType::Sampler ==> forall|i: int|
        0 <= i < images.len() ==> layout_supported(#[trigger] images[i].layout)
}

/// Whether a write of type `ty` can be described: the abstraction layer
/// knows the layouts of its images, where it reads them.
pub fn write_is_supported(ty: DescriptorType, images: &[ImageInfo]) -> (r: bool)
    ensures
        r == write_supported(ty, images@),
{
    if ty == DescriptorType::Sampler {
        return true;
    }
    let mut i: usize = 0;
    while i < images.len()
        invariant
            i <= images@.len(),
            ty != DescriptorType::Sampler,
            forall|k: int| 0 <= k < i ==> layout_supported(#[trigger] images@[k].layout),
        decreases images@.len() - i,
    {
        if !layout_is_supported(images[i].layout) {
            assert(!layout_supported(images@[i as int].layout));
            return false;
        }
        i = i + 1;
    }
    true
}

/// The next descriptor of a write of type `ty`, at position `pos`: none once
/// the infos of the kind that type reads run out.
pub fn next_descriptor(
    ty: DescriptorType,
    images: &[ImageInfo],
    buffers: &[BufferInfo],
    texels: usize,
    pos: usize,
) -> (r: Option<Descriptor>)
    requires
        write_supported(ty, images@),
    ensures
        pos < descriptor_count(ty, images@.len(), buffers@.len(), texels as nat) ==> r == Some(
            descriptor_spec(ty, images@, buffers@, pos as int),
        ),
        pos >= descriptor_count(ty, images@.len(), buffers@.len(), texels as nat) ==> r is None,
{
    match ty {
        DescriptorType::Sampler => if pos < images.len() {
            Some(Descriptor::Sampler(pos))
        } else {
            None
        },
        DescriptorType::Image { ty: ImageDescriptorType::Sampled { with_sampler: true } } => {
            if pos < images.len() {
                let info = images[pos];
                let layout = map_image_layout(info.layout);
                if info.has_sampler {
                    Some(Descriptor::CombinedImageSampler(pos, layout))
                } else {
                    Some(Descriptor::Image(pos, layout))
                }
            } else {
                None
            }
        },
        DescriptorType::Buffer { format: BufferDescriptorFormat::Texel, .. } => if pos < texels {
            Some(Descriptor::TexelBuffer(pos))
        } else {
            None
        },
        DescriptorType::Buffer { .. } => if pos < buffers.len() {
            let info = buffers[pos];
            let size = if info.range as i32 == -1i32 {
                None
            } else {
                Some(info.range)
            };
            Some(Descriptor::Buffer(pos, info.offset, size))
        } else {
            None
        },
        _ => if pos < images.len() {
            Some(Descriptor::Image(pos, map_image_layout(images[pos].layout)))
        } else {
            None
        },
    }
}

/// The descriptors of a write of type `ty`, in order: one per info of the
/// kind that type reads.
pub fn write_descriptors(
    ty: DescriptorType,
    images: &[ImageInfo],
    buffers: &[BufferInfo],
    texels: usize,
) -> (r: Vec<Descriptor>)
    requires
        write_supported(ty, images@),
    ensures
        r@.len() == descriptor_count(ty, images@.len(), buffers@.len(), texels as nat),
        forall|i: int| 0 <= i < r@.len() ==> #[trigger] r@[i] == descriptor_spec(ty, images@, buffers@, i),
{
    let ghost n = descriptor_count(ty, images@.len(), buffers@.len(), texels as nat);
    let image_count = images.len();
    let buffer_count = buffers.len();
    assert(n <= usize::MAX);
    let mut out: Vec<Descriptor> = Vec::new();
    let mut pos: usize = 0;
    loop
        invariant
            write_supported(ty, images@),
            n == descriptor_count(ty, images@.len(), buffers@.len(), texels as nat),
            pos <= n,
            n <= usize::MAX,
            out@.len() == pos,
            forall|i: int| 0 <= i < pos ==> #[trigger] out@[i] == descriptor_spec(ty, images@, buffers@, i),
        ensures
            out@.len() == n,
            forall|i: int| 0 <= i < out@.len() ==> #[trigger] out@[i] == descriptor_spec(ty, images@, buffers@, i),
        decreases n - pos,
    {
        match next_descriptor(ty, images, buffers, texels, pos) {
            Some(d) => {
                out.push(d);
                pos = pos + 1;
            },
            None => {
                break;
            },
        }
    }
    out
}

} // verus!
