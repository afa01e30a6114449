//! The objects that the portability layer keeps behind its handles, as far as
//! their own logic goes.

use vstd::prelude::*;

use crate::conv::{aspect_match, map_aspect};
use crate::hal::image::{LayerRange, LevelRange, Subresource, SubresourceLayers, SubresourceRange};
use crate::vk_enums::VkImageAspectFlagBits;
use crate::vk_structs::{VkImageSubresource, VkImageSubresourceLayers, VkImageSubresourceRange};

verus! {

/// The count that stands for every mip level from the base level on.
pub const VK_REMAINING_MIP_LEVELS: u32 = 0xFFFF_FFFF;
/// The count that stands for every array layer from the base layer on.
pub const VK_REMAINING_ARRAY_LAYERS: u32 = 0xFFFF_FFFF;

/// An image: the backend's image `raw`, with the number of mip levels and
/// array layers it was created with.
pub struct Image<R> {
    pub raw: R,
    pub mip_levels: u32,
    pub array_layers: u32,
}

/// The end of a range that starts at `base` and holds `count` elements, where
/// the remaining-count stands for everything up to `total`.
pub open spec fn range_end(base: u32, count: u32, total: u32) -> int {
    if count == 0xFFFF_FFFFu32 {
        total as int
    } else {
        base + count
    }
}

impl<R> Image<R> {
    /// The subresource of the abstraction layer for a Vulkan one.
    pub fn map_subresource(&self, subresource: VkImageSubresource) -> (r: Subresource)
        requires
            subresource.aspectMask & VkImageAspectFlagBits::VK_IMAGE_ASPECT_METADATA_BIT.value() == 0,
        ensures
            aspect_match(subresource.aspectMask, r.aspects),
            r.level == subresource.mipLevel as u8,
            r.layer == subresource.arrayLayer as u16,
    {
        Subresource {
            aspects: map_aspect(subresource.aspectMask),
            level: subresource.mipLevel as u8,
            layer: subresource.arrayLayer as u16,
        }
    }

    /// The subresource layers of the abstraction layer for Vulkan ones; the
    /// remaining-layers count reaches to the last layer of the image.
    pub fn map_subresource_layers(&self, subresource: VkImageSubresourceLayers) -> (r:
        SubresourceLayers)
        requires
            subresource.aspectMask & VkImageAspectFlagBits::VK_IMAGE_ASPECT_METADATA_BIT.value() == 0,
            range_end(subresource.baseArrayLayer, subresource.layerCount, self.array_layers)
                <= u32::MAX,
        ensures
            aspect_match(subresource.aspectMask, r.aspects),
            r.level == subresource.mipLevel as u8,
            r.layers.start == subresource.baseArrayLayer as u16,
            r.layers.end == range_end(
                subresource.baseArrayLayer,
                subresource.layerCount,
                self.array_layers,
            ) as u16,
    {
        let layer_end = if subresource.layerCount == VK_REMAINING_ARRAY_LAYERS {
            self.array_layers
        } else {
            subresource.baseArrayLayer + subresource.layerCount
        };
        SubresourceLayers {
            aspects: map_aspect(subresource.aspectMask),
            level: subresource.mipLevel as u8,
            layers: LayerRange {
                start: subresource.baseArrayLayer as u16,
                end: layer_end as u16,
            },
        }
    }

    /// The subresource range of the abstraction layer for a Vulkan one; the
    /// remaining counts reach to the last level and the last layer of the
    /// image.
    pub fn map_subresource_range(&self, subresource: VkImageSubresourceRange) -> (r:
        SubresourceRange)
        requires
            subresource.aspectMask & VkImageAspectFlagBits::VK_IMAGE_ASPECT_METADATA_BIT.value() == 0,
            range_end(subresource.baseMipLevel, subresource.levelCount, self.mip_levels)
                <= u32::MAX,
            range_end(subresource.baseArrayLayer, subresource.layerCount, self.array_layers)
                <= u32::MAX,
        ensures
            aspect_match(subresource.aspectMask, r.aspects),
            r.levels.start == subresource.baseMipLevel as u8,
            r.levels.end == range_end(
                subresource.baseMipLevel,
                subresource.levelCount,
                self.mip_levels,
            ) as u8,
            r.layers.start == subresource.baseArrayLayer as u16,
            r.layers.end == range_end(
                subresource.baseArrayLayer,
                subresource.layerCount,
                self.array_layers,
            ) as u16,
    {
        let level_end = if subresource.levelCount == VK_REMAINING_MIP_LEVELS {
            self.mip_levels
        } else {
            subresource.baseMipLevel + subresource.levelCount
        };
        let layer_end = if subresource.layerCount == VK_REMAINING_ARRAY_LAYERS {
            self.array_layers
        } else {
            subresource.baseArrayLayer + subresource.layerCount
        };
        SubresourceRange {
            aspects: map_aspect(subresource.aspectMask),
            levels: LevelRange { start: subresource.baseMipLevel as u8, end: level_end as u8 },
            layers: LayerRange {
                start: subresource.baseArrayLayer as u16,
                end: layer_end as u16,
            },
        }
    }
}

} // verus!
