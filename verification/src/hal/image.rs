//! Images, their kinds, layouts, usages and accesses in the hardware
//! abstraction layer.

use vstd::prelude::*;

use crate::hal::format::Aspects;

verus! {

/// Size of an image along one dimension.
pub type Size = u32;
/// An array layer index.
pub type Layer = u16;
/// A mipmap level index.
pub type Level = u8;
/// A mask of sample counts.
pub type NumSamples = u8;

/// The size of an image in three dimensions.
#[derive(Clone, Copy, Debug, PartialEq, Eq, Structural)]
pub struct Extent {
    pub width: Size,
    pub height: Size,
    pub depth: Size,
}

/// An offset into an image, in texels.
#[derive(Clone, Copy, Debug, PartialEq, Eq, Structural)]
pub struct Offset {
    pub x: i32,
    pub y: i32,
    pub z: i32,
}

#[derive(Clone, Copy, Debug, PartialEq, Eq, Structural)]
pub enum Tiling {
    Optimal,
    Linear,
}

#[derive(Clone, Copy, Debug, PartialEq, Eq, Structural)]
pub enum Filter {
    Nearest,
    Linear,
}

/// The dimensionality of an image, with its extent, layers and samples.
#[derive(Clone, Copy, Debug, PartialEq, Eq, Structural)]
pub enum Kind {
    D1(Size, Layer),
    D2(Size, Size, Layer, NumSamples),
    D3(Size, Size, Size),
}

/// How an image view interprets its image.
#[derive(Clone, Copy, Debug, PartialEq, Eq, Structural)]
pub enum ViewKind {
    D1,
    D1Array,
    D2,
    D2Array,
    D3,
    Cube,
    CubeArray,
}

/// What views an image allows.
#[derive(Clone, Copy, Debug, PartialEq, Eq, Structural)]
pub struct ViewCapabilities {
    pub bits: u32,
}

impl ViewCapabilities {
    pub const MUTABLE_FORMAT: u32 = 0x8;
    pub const KIND_CUBE: u32 = 0x10;
    pub const KIND_2D_ARRAY: u32 = 0x20;
    /// Every flag of the set.
    pub const ALL: u32 = 0x38;
}

/// What an image may be used for.
#[derive(Clone, Copy, Debug, PartialEq, Eq, Structural)]
pub struct Usage {
    pub bits: u32,
}

impl Usage {
    pub const TRANSFER_SRC: u32 = 0x1;
    pub const TRANSFER_DST: u32 = 0x2;
    pub const SAMPLED: u32 = 0x4;
    pub const STORAGE: u32 = 0x8;
    pub const COLOR_ATTACHMENT: u32 = 0x10;
    pub const DEPTH_STENCIL_ATTACHMENT: u32 = 0x20;
    pub const TRANSIENT_ATTACHMENT: u32 = 0x40;
    pub const INPUT_ATTACHMENT: u32 = 0x80;
    /// Every flag of the set.
    pub const ALL: u32 = 0xFF;
}

/// How addresses outside an image are sampled.
#[derive(Clone, Copy, Debug, PartialEq, Eq, Structural)]
pub enum WrapMode {
    Tile,
    Mirror,
    Clamp,
    Border,
    MirrorClamp,
}

/// The layout of an image in memory.
#[derive(Clone, Copy, Debug, PartialEq, Eq, Structural)]
pub enum Layout {
    General,
    ColorAttachmentOptimal,
    DepthStencilAttachmentOptimal,
    DepthStencilReadOnlyOptimal,
    ShaderReadOnlyOptimal,
    TransferSrcOptimal,
    TransferDstOptimal,
    Undefined,
    Preinitialized,
    Present,
}

/// Kinds of access to an image.
#[derive(Clone, Copy, Debug, PartialEq, Eq, Structural)]
pub struct Access {
    pub bits: u32,
}

impl Access {
    pub const INPUT_ATTACHMENT_READ: u32 = 0x10;
    pub const SHADER_READ: u32 = 0x20;
    pub const SHADER_WRITE: u32 = 0x40;
    pub const COLOR_ATTACHMENT_READ: u32 = 0x80;
    pub const COLOR_ATTACHMENT_WRITE: u32 = 0x100;
    pub const DEPTH_STENCIL_ATTACHMENT_READ: u32 = 0x200;
    pub const DEPTH_STENCIL_ATTACHMENT_WRITE: u32 = 0x400;
    pub const TRANSFER_READ: u32 = 0x800;
    pub const TRANSFER_WRITE: u32 = 0x1000;
    pub const HOST_READ: u32 = 0x2000;
    pub const HOST_WRITE: u32 = 0x4000;
    pub const MEMORY_READ: u32 = 0x8000;
    pub const MEMORY_WRITE: u32 = 0x10000;
}

/// A half-open range of array layers.
#[derive(Clone, Copy, Debug, PartialEq, Eq, Structural)]
pub struct LayerRange {
    pub start: Layer,
    pub end: Layer,
}

/// A half-open range of mipmap levels.
#[derive(Clone, Copy, Debug, PartialEq, Eq, Structural)]
pub struct LevelRange {
    pub start: Level,
    pub end: Level,
}

/// One mipmap level of one array layer of an image.
#[derive(Clone, Copy, Debug, PartialEq, Eq, Structural)]
pub struct Subresource {
    pub aspects: Aspects,
    pub level: Level,
    pub layer: Layer,
}

/// A range of array layers of one mipmap level of an image.
#[derive(Clone, Copy, Debug, PartialEq, Eq, Structural)]
pub struct SubresourceLayers {
    pub aspects: Aspects,
    pub level: Level,
    pub layers: LayerRange,
}

/// A range of mipmap levels and array layers of an image.
#[derive(Clone, Copy, Debug, PartialEq, Eq, Structural)]
pub struct SubresourceRange {
    pub aspects: Aspects,
    pub levels: LevelRange,
    pub layers: LayerRange,
}

/// The limits an image of a given format and kind can have.
#[derive(Clone, Copy, Debug, PartialEq, Eq, Structural)]
pub struct FormatProperties {
    pub max_extent: Extent,
    pub max_levels: Level,
    pub max_layers: Layer,
    pub sample_count_mask: NumSamples,
    pub max_resource_size: usize,
}

} // verus!
