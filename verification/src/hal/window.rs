//! Presentation: extents, present modes and composite alpha modes of the
//! hardware abstraction layer.

use vstd::prelude::*;

use crate::hal::device::OutOfMemory;
use crate::hal::format::Format;
use crate::hal::image::Usage;

verus! {

/// A two-dimensional size.
#[derive(Clone, Copy, Debug, PartialEq, Eq, Structural)]
pub struct Extent2D {
    pub width: u32,
    pub height: u32,
}

/// A set of presentation modes.
#[derive(Clone, Copy, Debug, PartialEq, Eq, Structural)]
pub struct PresentMode {
    pub bits: u32,
}

impl PresentMode {
    pub const IMMEDIATE: u32 = 0x1;
    pub const MAILBOX: u32 = 0x2;
    pub const FIFO: u32 = 0x4;
    pub const RELAXED: u32 = 0x8;
}

/// A set of ways to composite alpha when presenting.
#[derive(Clone, Copy, Debug, PartialEq, Eq, Structural)]
pub struct CompositeAlphaMode {
    pub bits: u32,
}

impl CompositeAlphaMode {
    pub const OPAQUE: u32 = 0x1;
    pub const PREMULTIPLIED: u32 = 0x2;
    pub const POSTMULTIPLIED: u32 = 0x4;
    pub const INHERIT: u32 = 0x8;
}


/// How a swapchain is to be configured on a surface.
#[derive(Clone, Copy, Debug, PartialEq, Eq, Structural)]
pub struct SwapchainConfig {
    pub present_mode: PresentMode,
    pub composite_alpha_mode: CompositeAlphaMode,
    pub format: Format,
    pub extent: Extent2D,
    pub image_count: u32,
    pub image_layers: u16,
    pub image_usage: Usage,
}

/// Why a swapchain could not be configured.
#[derive(Clone, Copy, Debug, PartialEq, Eq, Structural)]
pub enum CreationError {
    OutOfMemory(OutOfMemory),
    DeviceLost,
    SurfaceLost,
    WindowInUse,
}

/// Why no image could be acquired from a swapchain.
#[derive(Clone, Copy, Debug, PartialEq, Eq, Structural)]
pub enum AcquireError {
    OutOfMemory(OutOfMemory),
    NotReady,
    Timeout,
    OutOfDate,
    SurfaceLost,
    DeviceLost,
}

/// What a surface can do for a swapchain: the range of image counts, its
/// current extent where it has one, the range of extents, the most image
/// layers, and the composite alpha modes it supports.
#[derive(Clone, Copy, Debug, PartialEq, Eq, Structural)]
pub struct SurfaceCapabilities {
    pub min_image_count: u32,
    pub max_image_count: u32,
    pub current_extent: Option<Extent2D>,
    pub min_extent: Extent2D,
    pub max_extent: Extent2D,
    pub max_image_layers: u16,
    pub composite_alpha_modes: CompositeAlphaMode,
}

} // verus!
