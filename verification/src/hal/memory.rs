//! Memory properties and dependency flags of the hardware abstraction layer.

use vstd::prelude::*;

use crate::hal::buffer;
use crate::hal::image;

verus! {

/// Properties of a memory type.
#[derive(Clone, Copy, Debug, PartialEq, Eq, Structural)]
pub struct Properties {
    pub bits: u16,
}

impl Properties {
    pub const DEVICE_LOCAL: u16 = 0x1;
    pub const CPU_VISIBLE: u16 = 0x2;
    pub const COHERENT: u16 = 0x4;
    pub const CPU_CACHED: u16 = 0x8;
    pub const LAZILY_ALLOCATED: u16 = 0x10;
}

/// Flags of a memory dependency.
#[derive(Clone, Copy, Debug, PartialEq, Eq, Structural)]
pub struct Dependencies {
    pub bits: u32,
}

impl Dependencies {
    pub const BY_REGION: u32 = 0x1;
    pub const VIEW_LOCAL: u32 = 0x2;
    pub const DEVICE_GROUP: u32 = 0x4;
    /// Every flag of the set.
    pub const ALL: u32 = 0x7;
}


/// A memory barrier of a command buffer. Buffer and image barriers name
/// their target by its position in the list of barriers of their kind.
#[derive(Clone, Copy, Debug, PartialEq, Eq, Structural)]
pub enum Barrier {
    /// Every buffer, from the first access state to the second.
    AllBuffers(buffer::Access, buffer::Access),
    /// Every image, from the first access state to the second.
    AllImages(image::Access, image::Access),
    /// A range of one buffer; a size of `None` reaches to its end.
    Buffer {
        index: usize,
        src: buffer::Access,
        dst: buffer::Access,
        offset: u64,
        size: Option<u64>,
    },
    /// A subresource range of one image, with its access and layout before
    /// and after.
    Image {
        index: usize,
        src: image::Access,
        src_layout: image::Layout,
        dst: image::Access,
        dst_layout: image::Layout,
        range: image::SubresourceRange,
    },
}

} // verus!
