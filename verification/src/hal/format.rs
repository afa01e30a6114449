//! Formats, aspects, swizzles and format capabilities of the hardware
//! abstraction layer that the portability layer runs on.

use vstd::prelude::*;

verus! {

/// Number of formats the abstraction layer knows, counting the undefined
/// format at zero; a defined format has an identifier in `1..NUM_FORMATS`.
pub const NUM_FORMATS: u32 = 185;

/// An image format of the abstraction layer, by its identifier.
///
/// The abstraction layer numbers its formats in the order, and with the
/// values, that the Vulkan API gives them.
#[derive(Clone, Copy, Debug, PartialEq, Eq, Structural)]
pub struct Format {
    pub id: u32,
}

impl Format {
    /// A format that the abstraction layer defines.
    pub open spec fn is_valid(self) -> bool {
        1 <= self.id < NUM_FORMATS
    }
}

/// A set of image aspects (color, depth, stencil).
#[derive(Clone, Copy, Debug, PartialEq, Eq, Structural)]
pub struct Aspects {
    pub bits: u8,
}

impl Aspects {
    pub const COLOR: u8 = 0x1;
    pub const DEPTH: u8 = 0x2;
    pub const STENCIL: u8 = 0x4;
}

/// One channel of a swizzle.
#[derive(Clone, Copy, Debug, PartialEq, Eq, Structural)]
pub enum Component {
    Zero,
    One,
    R,
    G,
    B,
    A,
}

/// Channel remapping of an image view: red, green, blue, alpha.
#[derive(Clone, Copy, Debug, PartialEq, Eq, Structural)]
pub struct Swizzle(pub Component, pub Component, pub Component, pub Component);

/// Features that an image format supports.
#[derive(Clone, Copy, Debug, PartialEq, Eq, Structural)]
pub struct ImageFeature {
    pub bits: u32,
}

impl ImageFeature {
    pub const SAMPLED: u32 = 0x1;
    pub const STORAGE: u32 = 0x2;
    pub const STORAGE_ATOMIC: u32 = 0x4;
    pub const COLOR_ATTACHMENT: u32 = 0x80;
    pub const COLOR_ATTACHMENT_BLEND: u32 = 0x100;
    pub const DEPTH_STENCIL_ATTACHMENT: u32 = 0x200;
    pub const BLIT_SRC: u32 = 0x400;
    pub const BLIT_DST: u32 = 0x800;
    pub const SAMPLED_LINEAR: u32 = 0x1000;
}

/// Features that a format supports in buffers.
#[derive(Clone, Copy, Debug, PartialEq, Eq, Structural)]
pub struct BufferFeature {
    pub bits: u32,
}

impl BufferFeature {
    pub const UNIFORM_TEXEL: u32 = 0x8;
    pub const STORAGE_TEXEL: u32 = 0x10;
    pub const STORAGE_TEXEL_ATOMIC: u32 = 0x20;
    pub const VERTEX: u32 = 0x40;
}

/// What a format supports with linear and optimal tiling, and in buffers.
#[derive(Clone, Copy, Debug, PartialEq, Eq, Structural)]
pub struct Properties {
    pub linear_tiling: ImageFeature,
    pub optimal_tiling: ImageFeature,
    pub buffer_features: BufferFeature,
}

} // verus!
