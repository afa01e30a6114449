//! Recording of commands: what the portability layer makes of the regions,
//! ranges and barriers that Vulkan commands are recorded with.

use vstd::prelude::*;

use crate::conv::{
    layout_is_supported,
    aspect_match,
    buffer_access_match,
    extent3d_spec,
    image_access_match,
    image_layout_spec,
    layout_supported,
    map_buffer_access,
    map_extent,
    map_image_access,
    map_image_layout,
    map_offset,
    map_stage_flags,
    stage_flags_match,
};
use crate::hal::buffer;
use crate::hal::command::{
    AttachmentClearKind,
    BufferCopy,
    BufferImageCopy,
    ImageBlit,
    ImageCopy,
    ImageResolve,
};
use crate::hal::format::Aspects;
use crate::hal::image::{self, Extent, LayerRange, LevelRange, Offset, SubresourceLayers, SubresourceRange};
use crate::hal::memory::{Barrier, Dependencies};
use crate::hal::pso::ShaderStageFlags;
use crate::objects::{range_end, Image};
use crate::vk_enums::{VkImageAspectFlagBits, VkImageLayout, VkShaderStageFlagBits};
use crate::vk_structs::{
    VkAccessFlags,
    VkBufferCopy,
    VkBufferImageCopy,
    VkDependencyFlags,
    VkExtent3D,
    VkImageAspectFlags,
    VkImageBlit,
    VkImageCopy,
    VkImageResolve,
    VkImageSubresourceLayers,
    VkImageSubresourceRange,
    VkOffset3D,
    VkShaderStageFlags,
};

verus! {

// ---------------------------------------------------------------------------
// The flag conversions as functions.

/// The buffer access state of the abstraction layer for a Vulkan access mask.
pub open spec fn buffer_access_spec(access: VkAccessFlags) -> buffer::Access {
    choose|r: buffer::Access| buffer_access_match(access, r)
}

/// The image access state of the abstraction layer for a Vulkan access mask.
pub open spec fn image_access_spec(access: VkAccessFlags) -> image::Access {
    choose|r: image::Access| image_access_match(access, r)
}

/// The aspects of the abstraction layer for a Vulkan aspect mask.
pub open spec fn aspect_spec(aspects: VkImageAspectFlags) -> Aspects {
    choose|r: Aspects| aspect_match(aspects, r)
}

/// At most one buffer access state matches a Vulkan access mask.
pub proof fn lemma_buffer_access_unique(access: VkAccessFlags, a: buffer::Access, b: buffer::Access)
    requires
        buffer_access_match(access, a),
        buffer_access_match(access, b),
    ensures
        a == b,
{
    let x = a.bits;
    let y = b.bits;
    assert(x == y) by (bit_vector)
        requires
            (x & 0x1u32 != 0) == (y & 0x1u32 != 0),
            (x & 0x2u32 != 0) == (y & 0x2u32 != 0),
            (x & 0x4u32 != 0) == (y & 0x4u32 != 0),
            (x & 0x8u32 != 0) == (y & 0x8u32 != 0),
            (x & 0x20u32 != 0) == (y & 0x20u32 != 0),
            (x & 0x40u32 != 0) == (y & 0x40u32 != 0),
            (x & 0x800u32 != 0) == (y & 0x800u32 != 0),
            (x & 0x1000u32 != 0) == (y & 0x1000u32 != 0),
            (x & 0x2000u32 != 0) == (y & 0x2000u32 != 0),
            (x & 0x4000u32 != 0) == (y & 0x4000u32 != 0),
            (x & 0x8000u32 != 0) == (y & 0x8000u32 != 0),
            (x & 0x10000u32 != 0) == (y & 0x10000u32 != 0),
            x & !0x1f86fu32 == 0,
            y & !0x1f86fu32 == 0,
    ;
}

/// At most one image access state matches a Vulkan access mask.
pub proof fn lemma_image_access_unique(access: VkAccessFlags, a: image::Access, b: image::Access)
    requires
        image_access_match(access, a),
        image_access_match(access, b),
    ensures
        a == b,
{
    let x = a.bits;
    let y = b.bits;
    assert(x == y) by (bit_vector)
        requires
            (x & 0x10u32 != 0) == (y & 0x10u32 != 0),
            (x & 0x20u32 != 0) == (y & 0x20u32 != 0),
            (x & 0x40u32 != 0) == (y & 0x40u32 != 0),
            (x & 0x80u32 != 0) == (y & 0x80u32 != 0),
            (x & 0x100u32 != 0) == (y & 0x100u32 != 0),
            (x & 0x200u32 != 0) == (y & 0x200u32 != 0),
            (x & 0x400u32 != 0) == (y & 0x400u32 != 0),
            (x & 0x800u32 != 0) == (y & 0x800u32 != 0),
            (x & 0x1000u32 != 0) == (y & 0x1000u32 != 0),
            (x & 0x2000u32 != 0) == (y & 0x2000u32 != 0),
            (x & 0x4000u32 != 0) == (y & 0x4000u32 != 0),
            (x & 0x8000u32 != 0) == (y & 0x8000u32 != 0),
            (x & 0x10000u32 != 0) == (y & 0x10000u32 != 0),
            x & !0x1fff0u32 == 0,
            y & !0x1fff0u32 == 0,
    ;
}

/// The buffer access state of a Vulkan access mask holds exactly the buffer
/// accesses the mask names.
pub proof fn lemma_buffer_access_spec_matches(access: VkAccessFlags)
    ensures
        buffer_access_match(access, buffer_access_spec(access)),
{
    let x = access;
    let b = x & 0x1f86fu32;
    assert({
        &&& (b & 0x1u32 != 0) == (x & 0x1u32 != 0)
        &&& (b & 0x2u32 != 0) == (x & 0x2u32 != 0)
        &&& (b & 0x4u32 != 0) == (x & 0x4u32 != 0)
        &&& (b & 0x8u32 != 0) == (x & 0x8u32 != 0)
        &&& (b & 0x20u32 != 0) == (x & 0x20u32 != 0)
        &&& (b & 0x40u32 != 0) == (x & 0x40u32 != 0)
        &&& (b & 0x800u32 != 0) == (x & 0x800u32 != 0)
        &&& (b & 0x1000u32 != 0) == (x & 0x1000u32 != 0)
        &&& (b & 0x2000u32 != 0) == (x & 0x2000u32 != 0)
        &&& (b & 0x4000u32 != 0) == (x & 0x4000u32 != 0)
        &&& (b & 0x8000u32 != 0) == (x & 0x8000u32 != 0)
        &&& (b & 0x10000u32 != 0) == (x & 0x10000u32 != 0)
        &&& b & !0x1f86fu32 == 0
    }) by (bit_vector)
        requires
            b == x & 0x1f86fu32,
    ;
    assert(buffer_access_match(access, buffer::Access { bits: b }));
}

/// The image access state of a Vulkan access mask holds exactly the image
/// accesses the mask names.
pub proof fn lemma_image_access_spec_matches(access: VkAccessFlags)
    ensures
        image_access_match(access, image_access_spec(access)),
{
    let x = access;
    let b = x & 0x1fff0u32;
    assert({
        &&& (b & 0x10u32 != 0) == (x & 0x10u32 != 0)
        &&& (b & 0x20u32 != 0) == (x & 0x20u32 != 0)
        &&& (b & 0x40u32 != 0) == (x & 0x40u32 != 0)
        &&& (b & 0x80u32 != 0) == (x & 0x80u32 != 0)
        &&& (b & 0x100u32 != 0) == (x & 0x100u32 != 0)
        &&& (b & 0x200u32 != 0) == (x & 0x200u32 != 0)
        &&& (b & 0x400u32 != 0) == (x & 0x400u32 != 0)
        &&& (b & 0x800u32 != 0) == (x & 0x800u32 != 0)
        &&& (b & 0x1000u32 != 0) == (x & 0x1000u32 != 0)
        &&& (b & 0x2000u32 != 0) == (x & 0x2000u32 != 0)
        &&& (b & 0x4000u32 != 0) == (x & 0x4000u32 != 0)
        &&& (b & 0x8000u32 != 0) == (x & 0x8000u32 != 0)
        &&& (b & 0x10000u32 != 0) == (x & 0x10000u32 != 0)
        &&& b & !0x1fff0u32 == 0
    }) by (bit_vector)
        requires
            b == x & 0x1fff0u32,
    ;
    assert(image_access_match(access, image::Access { bits: b }));
}

/// At most one set of aspects matches a Vulkan aspect mask.
pub proof fn lemma_aspect_unique(aspects: VkImageAspectFlags, a: Aspects, b: Aspects)
    requires
        aspect_match(aspects, a),
        aspect_match(aspects, b),
    ensures
        a == b,
{
    let x = a.bits;
    let y = b.bits;
    assert(x == y) by (bit_vector)
        requires
            (x & 0x1u8 != 0) == (y & 0x1u8 != 0),
            (x & 0x2u8 != 0) == (y & 0x2u8 != 0),
            (x & 0x4u8 != 0) == (y & 0x4u8 != 0),
            x & !0x7u8 == 0,
            y & !0x7u8 == 0,
    ;
}

proof fn lemma_buffer_access_spec(access: VkAccessFlags, r: buffer::Access)
    requires
        buffer_access_match(access, r),
    ensures
        r == buffer_access_spec(access),
{
    lemma_buffer_access_unique(access, r, buffer_access_spec(access));
}

proof fn lemma_image_access_spec(access: VkAccessFlags, r: image::Access)
    requires
        image_access_match(access, r),
    ensures
        r == image_access_spec(access),
{
    lemma_image_access_unique(access, r, image_access_spec(access));
}

proof fn lemma_aspect_spec(aspects: VkImageAspectFlags, r: Aspects)
    requires
        aspect_match(aspects, r),
    ensures
        r == aspect_spec(aspects),
{
    lemma_aspect_unique(aspects, r, aspect_spec(aspects));
}

// ---------------------------------------------------------------------------
// Regions of copies, blits and resolves.

pub open spec fn offset_spec(o: VkOffset3D) -> Offset {
    Offset { x: o.x, y: o.y, z: o.z }
}

pub open spec fn extent_spec(e: VkExtent3D) -> Extent {
    Extent { width: e.width, height: e.height, depth: e.depth }
}

fn offset_of(o: VkOffset3D) -> (r: Offset)
    ensures
        r == offset_spec(o),
{
    map_offset(o)
}

fn extent_of(e: VkExtent3D) -> (r: Extent)
    ensures
        r == extent_spec(e),
{
    let r = map_extent(e);
    assert(extent3d_spec(r) == e);
    r
}

/// Whether a subresource of an image with `array_layers` layers is one the
/// portability layer takes: no metadata aspect, and a layer range whose end
/// fits.
pub open spec fn layers_supported(array_layers: u32, s: VkImageSubresourceLayers) -> bool {
    &&& s.aspectMask & VkImageAspectFlagBits::VK_IMAGE_ASPECT_METADATA_BIT.value() == 0
    &&& range_end(s.baseArrayLayer, s.layerCount, array_layers) <= u32::MAX
}

/// The subresource layers of the abstraction layer for Vulkan ones of an
/// image with `array_layers` layers.
pub open spec fn layers_spec(array_layers: u32, s: VkImageSubresourceLayers) -> SubresourceLayers {
    SubresourceLayers {
        aspects: aspect_spec(s.aspectMask),
        level: s.mipLevel as u8,
        layers: LayerRange {
            start: s.baseArrayLayer as u16,
            end: range_end(s.baseArrayLayer, s.layerCount, array_layers) as u16,
        },
    }
}

fn layers_of<R>(img: &Image<R>, s: VkImageSubresourceLayers) -> (r: SubresourceLayers)
    requires
        layers_supported(img.array_layers, s),
    ensures
        r == layers_spec(img.array_layers, s),
{
    let r = img.map_subresource_layers(s);
    proof {
        lemma_aspect_spec(s.aspectMask, r.aspects);
    }
    r
}

/// Whether a subresource range of an image is one the portability layer
/// takes: no metadata aspect, and level and layer ranges whose ends fit.
pub open spec fn range_supported(
    mip_levels: u32,
    array_layers: u32,
    s: VkImageSubresourceRange,
) -> bool {
    &&& s.aspectMask & VkImageAspectFlagBits::VK_IMAGE_ASPECT_METADATA_BIT.value() == 0
    &&& range_end(s.baseMipLevel, s.levelCount, mip_levels) <= u32::MAX
    &&& range_end(s.baseArrayLayer, s.layerCount, array_layers) <= u32::MAX
}

/// The subresource range of the abstraction layer for a Vulkan one of an
/// image with `mip_levels` levels and `array_layers` layers.
pub open spec fn range_spec(
    mip_levels: u32,
    array_layers: u32,
    s: VkImageSubresourceRange,
) -> SubresourceRange {
    SubresourceRange {
        aspects: aspect_spec(s.aspectMask),
        levels: LevelRange {
            start: s.baseMipLevel as u8,
            end: range_end(s.baseMipLevel, s.levelCount, mip_levels) as u8,
        },
        layers: LayerRange {
            start: s.baseArrayLayer as u16,
            end: range_end(s.baseArrayLayer, s.layerCount, array_layers) as u16,
        },
    }
}

fn range_of<R>(img: &Image<R>, s: VkImageSubresourceRange) -> (r: SubresourceRange)
    requires
        range_supported(img.mip_levels, img.array_layers, s),
    ensures
        r == range_spec(img.mip_levels, img.array_layers, s),
{
    let r = img.map_subresource_range(s);
    proof {
        lemma_aspect_spec(s.aspectMask, r.aspects);
    }
    r
}

/// The subresource ranges of an image that a clear covers.
pub fn subresource_ranges<R>(img: &Image<R>, ranges: &[VkImageSubresourceRange]) -> (r: Vec<
    SubresourceRange,
>)
    requires
        forall|i: int|
            0 <= i < ranges@.len() ==> range_supported(
                img.mip_levels,
                img.array_layers,
                #[trigger] ranges@[i],
            ),
    ensures
        r@.len() == ranges@.len(),
        forall|i: int|
            0 <= i < ranges@.len() ==> #[trigger] r@[i] == range_spec(
                img.mip_levels,
                img.array_layers,
                ranges@[i],
            ),
{
    let mut out: Vec<SubresourceRange> = Vec::new();
    let mut i: usize = 0;
    while i < ranges.len()
        invariant
            i <= ranges@.len(),
            forall|k: int|
                0 <= k < ranges@.len() ==> range_supported(
                    img.mip_levels,
                    img.array_layers,
                    #[trigger] ranges@[k],
                ),
            out@.len() == i,
            forall|k: int|
                0 <= k < i ==> #[trigger] out@[k] == range_spec(
                    img.mip_levels,
                    img.array_layers,
                    ranges@[k],
                ),
        decreases ranges@.len() - i,
    {
        let mapped = range_of(img, ranges[i]);
        out.push(mapped);
        i = i + 1;
    }
    out
}

pub open spec fn buffer_copy_spec(r: VkBufferCopy) -> BufferCopy {
    BufferCopy { src: r.srcOffset, dst: r.dstOffset, size: r.size }
}

/// The regions of a copy between buffers.
pub fn buffer_copies(regions: &[VkBufferCopy]) -> (r: Vec<BufferCopy>)
    ensures
        r@.len() == regions@.len(),
        forall|i: int| 0 <= i < regions@.len() ==> #[trigger] r@[i] == buffer_copy_spec(regions@[i]),
{
    let mut out: Vec<BufferCopy> = Vec::new();
    let mut i: usize = 0;
    while i < regions.len()
        invariant
            i <= regions@.len(),
            out@.len() == i,
            forall|k: int| 0 <= k < i ==> #[trigger] out@[k] == buffer_copy_spec(regions@[k]),
        decreases regions@.len() - i,
    {
        let g = regions[i];
        out.push(BufferCopy { src: g.srcOffset, dst: g.dstOffset, size: g.size });
        i = i + 1;
    }
    out
}

pub open spec fn image_copy_spec(src_layers: u32, dst_layers: u32, r: VkImageCopy) -> ImageCopy {
    ImageCopy {
        src_subresource: layers_spec(src_layers, r.srcSubresource),
        src_offset: offset_spec(r.srcOffset),
        dst_subresource: layers_spec(dst_layers, r.dstSubresource),
        dst_offset: offset_spec(r.dstOffset),
        extent: extent_spec(r.extent),
    }
}

pub open spec fn image_copy_supported(src_layers: u32, dst_layers: u32, r: VkImageCopy) -> bool {
    layers_supported(src_layers, r.srcSubresource) && layers_supported(dst_layers, r.dstSubresource)
}

/// The regions of a copy between two images.
pub fn image_copies<R>(src: &Image<R>, dst: &Image<R>, regions: &[VkImageCopy]) -> (r: Vec<
    ImageCopy,
>)
    requires
        forall|i: int|
            0 <= i < regions@.len() ==> image_copy_supported(
                src.array_layers,
                dst.array_layers,
                #[trigger] regions@[i],
            ),
    ensures
        r@.len() == regions@.len(),
        forall|i: int|
            0 <= i < regions@.len() ==> #[trigger] r@[i] == image_copy_spec(
                src.array_layers,
                dst.array_layers,
                regions@[i],
            ),
{
    let mut out: Vec<ImageCopy> = Vec::new();
    let mut i: usize = 0;
    while i < regions.len()
        invariant
            i <= regions@.len(),
            forall|k: int|
                0 <= k < regions@.len() ==> image_copy_supported(
                    src.array_layers,
                    dst.array_layers,
                    #[trigger] regions@[k],
                ),
            out@.len() == i,
            forall|k: int|
                0 <= k < i ==> #[trigger] out@[k] == image_copy_spec(
                    src.array_layers,
                    dst.array_layers,
                    regions@[k],
                ),
        decreases regions@.len() - i,
    {
        let g = regions[i];
        assert(image_copy_supported(src.array_layers, dst.array_layers, regions@[i as int]));
        out.push(
            ImageCopy {
                src_subresource: layers_of(src, g.srcSubresource),
                src_offset: offset_of(g.srcOffset),
                dst_subresource: layers_of(dst, g.dstSubresource),
                dst_offset: offset_of(g.dstOffset),
                extent: extent_of(g.extent),
            },
        );
        i = i + 1;
    }
    out
}

pub open spec fn image_blit_spec(src_layers: u32, dst_layers: u32, r: VkImageBlit) -> ImageBlit {
    ImageBlit {
        src_subresource: layers_spec(src_layers, r.srcSubresource),
        src_bounds_start: offset_spec(r.srcOffsets[0]),
        src_bounds_end: offset_spec(r.srcOffsets[1]),
        dst_subresource: layers_spec(dst_layers, r.dstSubresource),
        dst_bounds_start: offset_spec(r.dstOffsets[0]),
        dst_bounds_end: offset_spec(r.dstOffsets[1]),
    }
}

pub open spec fn image_blit_supported(src_layers: u32, dst_layers: u32, r: VkImageBlit) -> bool {
    layers_supported(src_layers, r.srcSubresource) && layers_supported(dst_layers, r.dstSubresource)
}

/// The regions of a blit between two images: the boxes run from the first
/// corner to the second.
pub fn image_blits<R>(src: &Image<R>, dst: &Image<R>, regions: &[VkImageBlit]) -> (r: Vec<
    ImageBlit,
>)
    requires
        forall|i: int|
            0 <= i < regions@.len() ==> image_blit_supported(
                src.array_layers,
                dst.array_layers,
                #[trigger] regions@[i],
            ),
    ensures
        r@.len() == regions@.len(),
        forall|i: int|
            0 <= i < regions@.len() ==> #[trigger] r@[i] == image_blit_spec(
                src.array_layers,
                dst.array_layers,
                regions@[i],
            ),
{
    let mut out: Vec<ImageBlit> = Vec::new();
    let mut i: usize = 0;
    while i < regions.len()
        invariant
            i <= regions@.len(),
            forall|k: int|
                0 <= k < regions@.len() ==> image_blit_supported(
                    src.array_layers,
                    dst.array_layers,
                    #[trigger] regions@[k],
                ),
            out@.len() == i,
            forall|k: int|
                0 <= k < i ==> #[trigger] out@[k] == image_blit_spec(
                    src.array_layers,
                    dst.array_layers,
                    regions@[k],
                ),
        decreases regions@.len() - i,
    {
        let g = regions[i];
        assert(image_blit_supported(src.array_layers, dst.array_layers, regions@[i as int]));
        out.push(
            ImageBlit {
                src_subresource: layers_of(src, g.srcSubresource),
                src_bounds_start: offset_of(g.srcOffsets[0]),
                src_bounds_end: offset_of(g.srcOffsets[1]),
                dst_subresource: layers_of(dst, g.dstSubresource),
                dst_bounds_start: offset_of(g.dstOffsets[0]),
                dst_bounds_end: offset_of(g.dstOffsets[1]),
            },
        );
        i = i + 1;
    }
    out
}

pub open spec fn buffer_image_copy_spec(layers: u32, r: VkBufferImageCopy) -> BufferImageCopy {
    BufferImageCopy {
        buffer_offset: r.bufferOffset,
        buffer_width: r.bufferRowLength,
        buffer_height: r.bufferImageHeight,
        image_layers: layers_spec(layers, r.imageSubresource),
        image_offset: offset_spec(r.imageOffset),
        image_extent: extent_spec(r.imageExtent),
    }
}

/// The regions of a copy between a buffer and an image (in either direction).
pub fn buffer_image_copies<R>(img: &Image<R>, regions: &[VkBufferImageCopy]) -> (r: Vec<
    BufferImageCopy,
>)
    requires
        forall|i: int|
            0 <= i < regions@.len() ==> layers_supported(
                img.array_layers,
                #[trigger] regions@[i].imageSubresource,
            ),
    ensures
        r@.len() == regions@.len(),
        forall|i: int|
            0 <= i < regions@.len() ==> #[trigger] r@[i] == buffer_image_copy_spec(
                img.array_layers,
                regions@[i],
            ),
{
    let mut out: Vec<BufferImageCopy> = Vec::new();
    let mut i: usize = 0;
    while i < regions.len()
        invariant
            i <= regions@.len(),
            forall|k: int|
                0 <= k < regions@.len() ==> layers_supported(
                    img.array_layers,
                    #[trigger] regions@[k].imageSubresource,
                ),
            out@.len() == i,
            forall|k: int|
                0 <= k < i ==> #[trigger] out@[k] == buffer_image_copy_spec(
                    img.array_layers,
                    regions@[k],
                ),
        decreases regions@.len() - i,
    {
        let g = regions[i];
        out.push(
            BufferImageCopy {
                buffer_offset: g.bufferOffset,
                buffer_width: g.bufferRowLength,
                buffer_height: g.bufferImageHeight,
                image_layers: layers_of(img, g.imageSubresource),
                image_offset: offset_of(g.imageOffset),
                image_extent: extent_of(g.imageExtent),
            },
        );
        i = i + 1;
    }
    out
}

pub open spec fn image_resolve_spec(src_layers: u32, dst_layers: u32, r: VkImageResolve) -> ImageResolve {
    ImageResolve {
        src_subresource: layers_spec(src_layers, r.srcSubresource),
        src_offset: offset_spec(r.srcOffset),
        dst_subresource: layers_spec(dst_layers, r.dstSubresource),
        dst_offset: offset_spec(r.dstOffset),
        extent: extent_spec(r.extent),
    }
}

pub open spec fn image_resolve_supported(src_layers: u32, dst_layers: u32, r: VkImageResolve) -> bool {
    layers_supported(src_layers, r.srcSubresource) && layers_supported(dst_layers, r.dstSubresource)
}

/// The regions of a resolve of one image into another.
pub fn image_resolves<R>(src: &Image<R>, dst: &Image<R>, regions: &[VkImageResolve]) -> (r: Vec<
    ImageResolve,
>)
    requires
        forall|i: int|
            0 <= i < regions@.len() ==> image_resolve_supported(
                src.array_layers,
                dst.array_layers,
                #[trigger] regions@[i],
            ),
    ensures
        r@.len() == regions@.len(),
        forall|i: int|
            0 <= i < regions@.len() ==> #[trigger] r@[i] == image_resolve_spec(
                src.array_layers,
                dst.array_layers,
                regions@[i],
            ),
{
    let mut out: Vec<ImageResolve> = Vec::new();
    let mut i: usize = 0;
    while i < regions.len()
        invariant
            i <= regions@.len(),
            forall|k: int|
                0 <= k < regions@.len() ==> image_resolve_supported(
                    src.array_layers,
                    dst.array_layers,
                    #[trigger] regions@[k],
                ),
            out@.len() == i,
            forall|k: int|
                0 <= k < i ==> #[trigger] out@[k] == image_resolve_spec(
                    src.array_layers,
                    dst.array_layers,
                    regions@[k],
                ),
        decreases regions@.len() - i,
    {
        let g = regions[i];
        assert(image_resolve_supported(src.array_layers, dst.array_layers, regions@[i as int]));
        out.push(
            ImageResolve {
                src_subresource: layers_of(src, g.srcSubresource),
                src_offset: offset_of(g.srcOffset),
                dst_subresource: layers_of(dst, g.dstSubresource),
                dst_offset: offset_of(g.dstOffset),
                extent: extent_of(g.extent),
            },
        );
        i = i + 1;
    }
    out
}

// ---------------------------------------------------------------------------
// Attachment clears.

/// What an attachment clear clears: the color attachment it names where its
/// aspects hold color; otherwise depth where they hold depth and stencil
/// where they hold stencil.
pub open spec fn clear_kind_spec(aspect_mask: VkImageAspectFlags, color_attachment: u32) -> AttachmentClearKind {
    if aspect_mask & VkImageAspectFlagBits::VK_IMAGE_ASPECT_COLOR_BIT.value() != 0 {
        AttachmentClearKind::Color(color_attachment as usize)
    } else {
        AttachmentClearKind::DepthStencil {
            depth: aspect_mask & VkImageAspectFlagBits::VK_IMAGE_ASPECT_DEPTH_BIT.value() != 0,
            stencil: aspect_mask & VkImageAspectFlagBits::VK_IMAGE_ASPECT_STENCIL_BIT.value() != 0,
        }
    }
}

pub fn clear_attachment_kind(aspect_mask: VkImageAspectFlags, color_attachment: u32) -> (r:
    AttachmentClearKind)
    ensures
        r == clear_kind_spec(aspect_mask, color_attachment),
{
    if aspect_mask & VkImageAspectFlagBits::VK_IMAGE_ASPECT_COLOR_BIT.as_raw() != 0 {
        AttachmentClearKind::Color(color_attachment as usize)
    } else {
        AttachmentClearKind::DepthStencil {
            depth: aspect_mask & VkImageAspectFlagBits::VK_IMAGE_ASPECT_DEPTH_BIT.as_raw() != 0,
            stencil: aspect_mask & VkImageAspectFlagBits::VK_IMAGE_ASPECT_STENCIL_BIT.as_raw() != 0,
        }
    }
}

// ---------------------------------------------------------------------------
// Barriers.

/// A global memory barrier: access masks before and after.
#[derive(Clone, Copy, Debug, PartialEq, Eq, Structural)]
pub struct MemoryBarrierInfo {
    pub src_access: VkAccessFlags,
    pub dst_access: VkAccessFlags,
}

/// A buffer memory barrier: access masks before and after, and the range of
/// the buffer.
#[derive(Clone, Copy, Debug, PartialEq, Eq, Structural)]
pub struct BufferBarrierInfo {
    pub src_access: VkAccessFlags,
    pub dst_access: VkAccessFlags,
    pub offset: u64,
    pub size: u64,
}

/// An image memory barrier: access masks and layouts before and after, the
/// subresource range, and the levels and layers of the image.
#[derive(Clone, Copy, Debug)]
pub struct ImageBarrierInfo {
    pub src_access: VkAccessFlags,
    pub dst_access: VkAccessFlags,
    pub old_layout: VkImageLayout,
    pub new_layout: VkImageLayout,
    pub range: VkImageSubresourceRange,
    pub mip_levels: u32,
    pub array_layers: u32,
}

/// The barriers for one global memory barrier: one over all buffers where
/// either buffer access state is not empty, then one over all images where
/// either image access state is not empty.
pub open spec fn global_barrier_spec(g: MemoryBarrierInfo) -> Seq<Barrier> {
    let bs = buffer_access_spec(g.src_access);
    let bd = buffer_access_spec(g.dst_access);
    let is = image_access_spec(g.src_access);
    let id = image_access_spec(g.dst_access);
    (if bs.bits != 0 || bd.bits != 0 {
        seq![Barrier::AllBuffers(bs, bd)]
    } else {
        Seq::empty()
    }) + (if is.bits != 0 || id.bits != 0 {
        seq![Barrier::AllImages(is, id)]
    } else {
        Seq::empty()
    })
}

pub open spec fn global_barriers_spec(gs: Seq<MemoryBarrierInfo>) -> Seq<Barrier>
    decreases gs.len(),
{
    if gs.len() == 0 {
        Seq::empty()
    } else {
        global_barriers_spec(gs.drop_last()) + global_barrier_spec(gs.last())
    }
}

/// Whether a size of a buffer barrier stands for the rest of the buffer: its
/// low 32 bits, read as a signed number, are the whole-size marker.
pub open spec fn is_whole_size(size: u64) -> bool {
    (size as i32) == -1i32
}

pub open spec fn buffer_barrier_spec(index: int, b: BufferBarrierInfo) -> Barrier {
    Barrier::Buffer {
        index: index as usize,
        src: buffer_access_spec(b.src_access),
        dst: buffer_access_spec(b.dst_access),
        offset: b.offset,
        size: if is_whole_size(b.size) {
            None
        } else {
            Some(b.size)
        },
    }
}

pub open spec fn buffer_barriers_spec(bs: Seq<BufferBarrierInfo>) -> Seq<Barrier> {
    Seq::new(bs.len(), |i: int| buffer_barrier_spec(i, bs[i]))
}

pub open spec fn image_barrier_supported(b: ImageBarrierInfo) -> bool {
    &&& layout_supported(b.old_layout)
    &&& layout_supported(b.new_layout)
    &&& range_supported(b.mip_levels, b.array_layers, b.range)
}

/// Whether a range of `count` elements from `base` (everything up to `total`
/// for the remaining-count) ends within the 32-bit range.
fn range_end_fits(base: u32, count: u32, total: u32) -> (r: bool)
    ensures
        r == (range_end(base, count, total) <= u32::MAX),
{
    count == 0xFFFF_FFFFu32 || base as u64 + count as u64 <= 0xFFFF_FFFFu64
}

/// Whether every image barrier can be described: the abstraction layer
/// knows its layouts, and its range is one of the image.
pub fn image_barriers_are_supported(images: &[ImageBarrierInfo]) -> (r: bool)
    ensures
        r == forall|i: int| 0 <= i < images@.len() ==> image_barrier_supported(#[trigger] images@[i]),
{
    let mut i: usize = 0;
    while i < images.len()
        invariant
            i <= images@.len(),
            forall|k: int| 0 <= k < i ==> image_barrier_supported(#[trigger] images@[k]),
        decreases images@.len() - i,
    {
        let b = &images[i];
        let ok = layout_is_supported(b.old_layout) && layout_is_supported(b.new_layout)
            && b.range.aspectMask & VkImageAspectFlagBits::VK_IMAGE_ASPECT_METADATA_BIT.as_raw() == 0
            && range_end_fits(b.range.baseMipLevel, b.range.levelCount, b.mip_levels)
            && range_end_fits(b.range.baseArrayLayer, b.range.layerCount, b.array_layers);
        if !ok {
            assert(!image_barrier_supported(images@[i as int]));
            return false;
        }
        i = i + 1;
    }
    true
}

pub open spec fn image_barrier_spec(index: int, b: ImageBarrierInfo) -> Barrier {
    Barrier::Image {
        index: index as usize,
        src: image_access_spec(b.src_access),
        src_layout: image_layout_spec(b.old_layout),
        dst: image_access_spec(b.dst_access),
        dst_layout: image_layout_spec(b.new_layout),
        range: range_spec(b.mip_levels, b.array_layers, b.range),
    }
}

pub open spec fn image_barriers_spec(bs: Seq<ImageBarrierInfo>) -> Seq<Barrier> {
    Seq::new(bs.len(), |i: int| image_barrier_spec(i, bs[i]))
}

fn global_barrier(g: MemoryBarrierInfo) -> (r: Vec<Barrier>)
    ensures
        r@ == global_barrier_spec(g),
{
    let bs = map_buffer_access(g.src_access);
    let bd = map_buffer_access(g.dst_access);
    let is = map_image_access(g.src_access);
    let id = map_image_access(g.dst_access);
    proof {
        lemma_buffer_access_spec(g.src_access, bs);
        lemma_buffer_access_spec(g.dst_access, bd);
        lemma_image_access_spec(g.src_access, is);
        lemma_image_access_spec(g.dst_access, id);
    }
    let mut out: Vec<Barrier> = Vec::new();
    if bs.bits != 0 || bd.bits != 0 {
        out.push(Barrier::AllBuffers(bs, bd));
    }
    if is.bits != 0 || id.bits != 0 {
        out.push(Barrier::AllImages(is, id));
    }
    assert(out@ =~= global_barrier_spec(g));
    out
}

/// The barriers of a pipeline barrier or of a wait for events: those for
/// the global barriers, in order, then one per buffer barrier, then one per
/// image barrier.
pub fn make_barriers(
    globals: &[MemoryBarrierInfo],
    buffers: &[BufferBarrierInfo],
    images: &[ImageBarrierInfo],
) -> (r: Vec<Barrier>)
    requires
        forall|i: int| 0 <= i < images@.len() ==> image_barrier_supported(#[trigger] images@[i]),
    ensures
        r@ == global_barriers_spec(globals@) + buffer_barriers_spec(buffers@) + image_barriers_spec(
            images@,
        ),
{
    let mut out: Vec<Barrier> = Vec::new();
    let mut i: usize = 0;
    while i < globals.len()
        invariant
            i <= globals@.len(),
            out@ == global_barriers_spec(globals@.take(i as int)),
        decreases globals@.len() - i,
    {
        let mut more = global_barrier(globals[i]);
        proof {
            assert(globals@.take(i + 1).drop_last() =~= globals@.take(i as int));
        }
        out.append(&mut more);
        i = i + 1;
    }
    assert(globals@.take(globals@.len() as int) =~= globals@);
    let ghost gl = out@;
    let mut j: usize = 0;
    while j < buffers.len()
        invariant
            j <= buffers@.len(),
            gl == global_barriers_spec(globals@),
            out@ =~= gl + buffer_barriers_spec(buffers@.take(j as int)),
        decreases buffers@.len() - j,
    {
        let b = buffers[j];
        let src = map_buffer_access(b.src_access);
        let dst = map_buffer_access(b.dst_access);
        proof {
            lemma_buffer_access_spec(b.src_access, src);
            lemma_buffer_access_spec(b.dst_access, dst);
        }
        let size = if b.size as i32 == -1i32 {
            None
        } else {
            Some(b.size)
        };
        out.push(Barrier::Buffer { index: j, src, dst, offset: b.offset, size });
        proof {
            assert(buffer_barriers_spec(buffers@.take(j + 1)) =~= buffer_barriers_spec(
                buffers@.take(j as int),
            ).push(buffer_barrier_spec(j as int, b)));
        }
        j = j + 1;
    }
    assert(buffers@.take(buffers@.len() as int) =~= buffers@);
    let ghost gb = out@;
    let mut k: usize = 0;
    while k < images.len()
        invariant
            k <= images@.len(),
            forall|m: int| 0 <= m < images@.len() ==> image_barrier_supported(#[trigger] images@[m]),
            gb == global_barriers_spec(globals@) + buffer_barriers_spec(buffers@),
            out@ =~= gb + image_barriers_spec(images@.take(k as int)),
        decreases images@.len() - k,
    {
        let b = images[k];
        assert(image_barrier_supported(images@[k as int]));
        let src = map_image_access(b.src_access);
        let dst = map_image_access(b.dst_access);
        proof {
            lemma_image_access_spec(b.src_access, src);
            lemma_image_access_spec(b.dst_access, dst);
        }
        let img = Image { raw: (), mip_levels: b.mip_levels, array_layers: b.array_layers };
        let range = range_of(&img, b.range);
        out.push(
            Barrier::Image {
                index: k,
                src,
                src_layout: map_image_layout(b.old_layout),
                dst,
                dst_layout: map_image_layout(b.new_layout),
                range,
            },
        );
        proof {
            assert(image_barriers_spec(images@.take(k + 1)) =~= image_barriers_spec(
                images@.take(k as int),
            ).push(image_barrier_spec(k as int, b)));
        }
        k = k + 1;
    }
    assert(images@.take(images@.len() as int) =~= images@);
    out
}

/// The dependency flags of a pipeline barrier: the Vulkan flags where all of
/// them are known to the abstraction layer, none otherwise.
pub open spec fn barrier_dependencies_spec(flags: VkDependencyFlags) -> Dependencies {
    if flags & !Dependencies::ALL == 0 {
        Dependencies { bits: flags }
    } else {
        Dependencies { bits: 0 }
    }
}

pub fn barrier_dependencies(flags: VkDependencyFlags) -> (r: Dependencies)
    ensures
        r == barrier_dependencies_spec(flags),
{
    if flags & !Dependencies::ALL == 0 {
        Dependencies { bits: flags }
    } else {
        Dependencies { bits: 0 }
    }
}

// ---------------------------------------------------------------------------
// Draws, queries and push constants.

/// The half-open range that starts at `first` and holds `count` elements.
pub fn counted_range(first: u32, count: u32) -> (r: (u32, u32))
    requires
        first + count <= u32::MAX,
    ensures
        r.0 == first,
        r.1 == first + count,
{
    (first, first + count)
}

/// How push constants are routed: to the compute pipeline where the stages
/// hold the compute stage, to the graphics pipeline (with its stages) where
/// they hold a graphics stage, and as how many 32-bit words.
#[derive(Clone, Copy, Debug, PartialEq, Eq, Structural)]
pub struct PushConstantsPlan {
    pub compute: bool,
    pub graphics: Option<ShaderStageFlags>,
    pub words: usize,
}

pub open spec fn push_constants_ok(stage_flags: VkShaderStageFlags, size: u32, p: PushConstantsPlan) -> bool {
    &&& p.compute == (stage_flags & VkShaderStageFlagBits::VK_SHADER_STAGE_COMPUTE_BIT.value() != 0)
    &&& (stage_flags & VkShaderStageFlagBits::VK_SHADER_STAGE_ALL_GRAPHICS.value() != 0) == (
    p.graphics is Some)
    &&& (p.graphics matches Some(g) ==> stage_flags_match(stage_flags, g))
    &&& p.words == size / 4
}

/// The routing of push constants of `size` bytes (a multiple of four) for
/// the given stages.
pub fn push_constants_plan(stage_flags: VkShaderStageFlags, size: u32) -> (r: PushConstantsPlan)
    requires
        size % 4 == 0,
    ensures
        push_constants_ok(stage_flags, size, r),
{
    let compute = stage_flags & VkShaderStageFlagBits::VK_SHADER_STAGE_COMPUTE_BIT.as_raw() != 0;
    let graphics = if stage_flags & VkShaderStageFlagBits::VK_SHADER_STAGE_ALL_GRAPHICS.as_raw()
        != 0 {
        Some(map_stage_flags(stage_flags))
    } else {
        None
    };
    PushConstantsPlan { compute, graphics, words: (size / 4) as usize }
}

/// The range of a fill of a buffer: from `offset`, to its end where `size` is
/// the whole-size marker.
pub fn fill_range(offset: u64, size: u64) -> (r: (u64, Option<u64>))
    ensures
        r.0 == offset,
        size == u64::MAX ==> r.1 is None,
        size != u64::MAX ==> r.1 == Some(size),
{
    (offset, if size == u64::MAX { None } else { Some(size) })
}

} // verus!
