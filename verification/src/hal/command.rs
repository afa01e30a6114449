//! Command buffer flags and subpass contents of the hardware abstraction layer.

use vstd::prelude::*;

use crate::hal::image::{Extent, Offset, SubresourceLayers};

verus! {

/// How a command buffer is recorded and used.
#[derive(Clone, Copy, Debug, PartialEq, Eq, Structural)]
pub struct CommandBufferFlags {
    pub bits: u32,
}

impl CommandBufferFlags {
    pub const ONE_TIME_SUBMIT: u32 = 0x1;
    pub const RENDER_PASS_CONTINUE: u32 = 0x2;
    pub const SIMULTANEOUS_USE: u32 = 0x4;
}

/// Where the commands of a subpass are recorded.
#[derive(Clone, Copy, Debug, PartialEq, Eq, Structural)]
pub enum SubpassContents {
    Inline,
    SecondaryBuffers,
}


/// A copy between two buffers: source offset, destination offset, size.
#[derive(Clone, Copy, Debug, PartialEq, Eq, Structural)]
pub struct BufferCopy {
    pub src: u64,
    pub dst: u64,
    pub size: u64,
}

/// A copy between two images.
#[derive(Clone, Copy, Debug, PartialEq, Eq, Structural)]
pub struct ImageCopy {
    pub src_subresource: SubresourceLayers,
    pub src_offset: Offset,
    pub dst_subresource: SubresourceLayers,
    pub dst_offset: Offset,
    pub extent: Extent,
}

/// A blit between two images: the corners of the source and destination
/// boxes.
#[derive(Clone, Copy, Debug, PartialEq, Eq, Structural)]
pub struct ImageBlit {
    pub src_subresource: SubresourceLayers,
    pub src_bounds_start: Offset,
    pub src_bounds_end: Offset,
    pub dst_subresource: SubresourceLayers,
    pub dst_bounds_start: Offset,
    pub dst_bounds_end: Offset,
}

/// A copy between a buffer and an image.
#[derive(Clone, Copy, Debug, PartialEq, Eq, Structural)]
pub struct BufferImageCopy {
    pub buffer_offset: u64,
    pub buffer_width: u32,
    pub buffer_height: u32,
    pub image_layers: SubresourceLayers,
    pub image_offset: Offset,
    pub image_extent: Extent,
}

/// A resolve of a multisampled image into another.
#[derive(Clone, Copy, Debug, PartialEq, Eq, Structural)]
pub struct ImageResolve {
    pub src_subresource: SubresourceLayers,
    pub src_offset: Offset,
    pub dst_subresource: SubresourceLayers,
    pub dst_offset: Offset,
    pub extent: Extent,
}

/// What an attachment clear inside a render pass clears: a color attachment
/// by its index, or the depth and (or) stencil of the depth-stencil
/// attachment. The clear values travel beside it.
#[derive(Clone, Copy, Debug, PartialEq, Eq, Structural)]
pub enum AttachmentClearKind {
    Color(usize),
    DepthStencil { depth: bool, stencil: bool },
}

} // verus!
