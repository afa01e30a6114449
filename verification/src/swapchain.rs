//! Swapchains and surfaces: the configuration a swapchain is created with,
//! what a surface reports, and the state of acquired and presented images.

use vstd::prelude::*;

use crate::conv::{
    extent2d_from_hal,
    format_spec_of,
    map_composite_alpha,
    map_extent2d,
    map_format,
    map_present_mode,
    present_mode_spec,
    VK_TRUE,
};
use crate::hal::format::{Format, NUM_FORMATS};
use crate::hal::image::Usage;
use crate::hal::window::{
    AcquireError,
    CompositeAlphaMode,
    CreationError,
    Extent2D,
    PresentMode,
    SurfaceCapabilities,
    SwapchainConfig,
};
use crate::instance::{enumerate_into, map_oom, oom_spec};
use crate::vk_enums::{
    VkColorSpaceKHR,
    VkCompositeAlphaFlagBitsKHR,
    VkFormat,
    VkImageUsageFlagBits,
    VkPresentModeKHR,
    VkResult,
    VkSharingMode,
    VkSurfaceTransformFlagBitsKHR,
};
use crate::vk_structs::{VkBool32, VkExtent2D, VkSurfaceCapabilitiesKHR, VkSurfaceFormatKHR};

verus! {

// ---------------------------------------------------------------------------
// Creation.

/// The part of the creation info of a swapchain that its configuration is
/// made from.
#[derive(Clone, Copy, Debug, PartialEq, Eq)]
pub struct SwapchainInfo {
    pub min_image_count: u32,
    pub image_format: VkFormat,
    pub image_extent: VkExtent2D,
    pub image_sharing_mode: VkSharingMode,
    pub present_mode: VkPresentModeKHR,
    pub composite_alpha: VkCompositeAlphaFlagBitsKHR,
    pub clipped: VkBool32,
}

/// A swapchain creation info that the portability layer takes: clipped,
/// exclusive, with a defined format.
pub open spec fn swapchain_info_supported(info: SwapchainInfo) -> bool {
    &&& info.clipped == VK_TRUE
    &&& info.image_sharing_mode == VkSharingMode::VK_SHARING_MODE_EXCLUSIVE
    &&& 0 < info.image_format.value() < NUM_FORMATS
}

/// The configuration of a swapchain: its present mode, composite alpha,
/// format, extent and image count as asked, with one layer of color
/// attachment images.
pub fn swapchain_config(info: &SwapchainInfo) -> (r: SwapchainConfig)
    requires
        swapchain_info_supported(*info),
    ensures
        r.present_mode == present_mode_spec(info.present_mode),
        r.composite_alpha_mode == map_composite_alpha_spec(info.composite_alpha),
        r.format == (Format { id: info.image_format.value() }),
        r.extent == (Extent2D { width: info.image_extent.width, height: info.image_extent.height }),
        r.image_count == info.min_image_count,
        r.image_layers == 1,
        r.image_usage == (Usage { bits: Usage::COLOR_ATTACHMENT }),
{
    let format = match map_format(info.image_format) {
        Some(f) => f,
        None => vstd::pervasive::unreached(),
    };
    SwapchainConfig {
        present_mode: map_present_mode(info.present_mode),
        composite_alpha_mode: map_composite_alpha(info.composite_alpha),
        format,
        extent: map_extent2d(info.image_extent),
        image_count: info.min_image_count,
        image_layers: 1,
        image_usage: Usage { bits: Usage::COLOR_ATTACHMENT },
    }
}

/// The composite alpha mode for a Vulkan composite alpha bit (see
/// `map_composite_alpha`).
pub open spec fn map_composite_alpha_spec(a: VkCompositeAlphaFlagBitsKHR) -> CompositeAlphaMode {
    match a {
        VkCompositeAlphaFlagBitsKHR::VK_COMPOSITE_ALPHA_PRE_MULTIPLIED_BIT_KHR => CompositeAlphaMode {
            bits: CompositeAlphaMode::PREMULTIPLIED,
        },
        VkCompositeAlphaFlagBitsKHR::VK_COMPOSITE_ALPHA_POST_MULTIPLIED_BIT_KHR => CompositeAlphaMode {
            bits: CompositeAlphaMode::POSTMULTIPLIED,
        },
        VkCompositeAlphaFlagBitsKHR::VK_COMPOSITE_ALPHA_INHERIT_BIT_KHR => CompositeAlphaMode {
            bits: CompositeAlphaMode::INHERIT,
        },
        _ => CompositeAlphaMode { bits: CompositeAlphaMode::OPAQUE },
    }
}

/// The Vulkan error code for a swapchain that could not be configured.
pub open spec fn swapchain_error_spec(err: CreationError) -> VkResult {
    match err {
        CreationError::OutOfMemory(oom) => oom_spec(oom),
        CreationError::DeviceLost => VkResult::VK_ERROR_DEVICE_LOST,
        CreationError::SurfaceLost => VkResult::VK_ERROR_SURFACE_LOST_KHR,
        CreationError::WindowInUse => VkResult::VK_ERROR_NATIVE_WINDOW_IN_USE_KHR,
    }
}

pub fn map_swapchain_error(err: CreationError) -> (r: VkResult)
    ensures
        r == swapchain_error_spec(err),
{
    match err {
        CreationError::OutOfMemory(oom) => map_oom(oom),
        CreationError::DeviceLost => VkResult::VK_ERROR_DEVICE_LOST,
        CreationError::SurfaceLost => VkResult::VK_ERROR_SURFACE_LOST_KHR,
        CreationError::WindowInUse => VkResult::VK_ERROR_NATIVE_WINDOW_IN_USE_KHR,
    }
}

// ---------------------------------------------------------------------------
// Acquiring and presenting.

/// The state of a swapchain: how many images it has, the index of the image
/// acquired last, and whether that image is held and not yet presented.
#[derive(Clone, Copy, Debug, PartialEq, Eq, Structural)]
pub struct SwapchainState {
    pub count: u8,
    pub current_index: u8,
    pub active: bool,
}

/// The state of a new swapchain of `min_image_count` images: no image
/// acquired, the index at zero.
pub open spec fn new_state_spec(min_image_count: u32) -> SwapchainState {
    SwapchainState { count: min_image_count as u8, current_index: 0, active: false }
}

pub fn new_swapchain_state(min_image_count: u32) -> (r: SwapchainState)
    ensures
        r == new_state_spec(min_image_count),
{
    SwapchainState { count: min_image_count as u8, current_index: 0, active: false }
}

/// The Vulkan result for an image that could not be acquired.
pub open spec fn acquire_error_spec(err: AcquireError) -> VkResult {
    match err {
        AcquireError::NotReady => VkResult::VK_NOT_READY,
        AcquireError::OutOfDate => VkResult::VK_ERROR_OUT_OF_DATE_KHR,
        AcquireError::SurfaceLost => VkResult::VK_ERROR_SURFACE_LOST_KHR,
        AcquireError::DeviceLost => VkResult::VK_ERROR_DEVICE_LOST,
        AcquireError::Timeout => VkResult::VK_TIMEOUT,
        AcquireError::OutOfMemory(oom) => oom_spec(oom),
    }
}

/// What acquiring the next image does, given what the surface answered (a
/// frame, suboptimal or not, or an error): the image held before is given
/// up; on success the index moves to the next image, round the swapchain,
/// and that image is held and its index returned.
pub open spec fn acquire_spec(s: SwapchainState, outcome: Result<bool, AcquireError>) -> (
    SwapchainState,
    VkResult,
    Option<u32>,
) {
    match outcome {
        Ok(suboptimal) => {
            let next = ((s.current_index + 1) % (s.count as int)) as u8;
            (
                SwapchainState { count: s.count, current_index: next, active: true },
                if suboptimal {
                    VkResult::VK_SUBOPTIMAL_KHR
                } else {
                    VkResult::VK_SUCCESS
                },
                Some(next as u32),
            )
        },
        Err(err) => (
            SwapchainState { count: s.count, current_index: s.current_index, active: false },
            acquire_error_spec(err),
            None,
        ),
    }
}

/// The fake flag of a fence or semaphore handed to an acquire (`None` where
/// none is handed in), after the acquire: fake, since nothing signals it.
pub open spec fn handed_to_acquire(fake: Option<bool>) -> Option<bool> {
    match fake {
        Some(_) => Some(true),
        None => None,
    }
}

/// Acquires the next image of a swapchain, where the surface answered
/// `outcome`; returns the Vulkan result and, on success, the image index.
/// The fence and semaphore handed in (their fake flags, where given) become
/// fake, whatever the outcome.
pub fn acquire_next_image(
    state: &mut SwapchainState,
    fence_fake: &mut Option<bool>,
    semaphore_fake: &mut Option<bool>,
    outcome: Result<bool, AcquireError>,
) -> (r: (VkResult, Option<u32>))
    requires
        outcome is Ok ==> old(state).count > 0,
    ensures
        (*final(state), r.0, r.1) == acquire_spec(*old(state), outcome),
        *final(fence_fake) == handed_to_acquire(*old(fence_fake)),
        *final(semaphore_fake) == handed_to_acquire(*old(semaphore_fake)),
{
    if fence_fake.is_some() {
        *fence_fake = Some(true);
    }
    if semaphore_fake.is_some() {
        *semaphore_fake = Some(true);
    }
    state.active = false;
    match outcome {
        Ok(suboptimal) => {
            let next: u8 = ((state.current_index as u16 + 1) % (state.count as u16)) as u8;
            state.current_index = next;
            state.active = true;
            let code = if suboptimal {
                VkResult::VK_SUBOPTIMAL_KHR
            } else {
                VkResult::VK_SUCCESS
            };
            (code, Some(next as u32))
        },
        Err(err) => {
            let code = match err {
                AcquireError::NotReady => VkResult::VK_NOT_READY,
                AcquireError::OutOfDate => VkResult::VK_ERROR_OUT_OF_DATE_KHR,
                AcquireError::SurfaceLost => VkResult::VK_ERROR_SURFACE_LOST_KHR,
                AcquireError::DeviceLost => VkResult::VK_ERROR_DEVICE_LOST,
                AcquireError::Timeout => VkResult::VK_TIMEOUT,
                AcquireError::OutOfMemory(oom) => map_oom(oom),
            };
            (code, None)
        },
    }
}

/// What presenting image `index` does: the held image is given up, and it
/// is shown only where the index is that of the image acquired last (an
/// index is compared in its low byte); a stale image is dropped.
pub open spec fn present_spec(s: SwapchainState, index: u32) -> (SwapchainState, bool) {
    (
        SwapchainState { count: s.count, current_index: s.current_index, active: false },
        s.current_index == index as u8,
    )
}

/// Presents image `index` of a swapchain that holds an acquired image;
/// returns whether the image is to be shown.
pub fn present_image(state: &mut SwapchainState, index: u32) -> (r: bool)
    requires
        old(state).active,
    ensures
        (*final(state), r) == present_spec(*old(state), index),
{
    state.active = false;
    state.current_index == index as u8
}

/// An image acquired from a swapchain is the one it presents: after a
/// successful acquire, the index it returns is below the image count, the
/// image is held, and presenting that index shows it.
pub proof fn lemma_acquire_then_present(s: SwapchainState, suboptimal: bool)
    requires
        s.count > 0,
    ensures
        ({
            let (s1, _, index) = acquire_spec(s, Ok(suboptimal));
            &&& index matches Some(i) && i < s.count
            &&& s1.active
            &&& present_spec(s1, index.unwrap()).1
            &&& !present_spec(s1, index.unwrap()).0.active
        }),
{
    let next = ((s.current_index + 1) % (s.count as int)) as u8;
    assert(next as u32 as u8 == next);
}

/// Acquiring walks the images of a swapchain in turn: each success moves the
/// index one on, from the last image back to the first; a failure leaves the
/// index as it was.
pub proof fn lemma_acquire_cycles(s: SwapchainState, outcome: Result<bool, AcquireError>)
    requires
        s.count > 0,
        s.current_index < s.count,
    ensures
        ({
            let s1 = acquire_spec(s, outcome).0;
            &&& s1.count == s.count
            &&& s1.current_index < s1.count
            &&& outcome is Ok && s.current_index + 1 < s.count ==> s1.current_index == s.current_index
                + 1
            &&& outcome is Ok && s.current_index + 1 == s.count ==> s1.current_index == 0
            &&& outcome is Err ==> s1.current_index == s.current_index && !s1.active
        }),
{
    let v: int = s.current_index + 1;
    let m: int = s.count as int;
    if v < m {
        vstd::arithmetic::div_mod::lemma_small_mod(v as nat, m as nat);
    } else {
        assert(v == m);
        vstd::arithmetic::div_mod::lemma_mod_self_0(m);
    }
}

// ---------------------------------------------------------------------------
// Surfaces.

/// The present modes of a set, as Vulkan present modes, in the order of
/// their bits.
pub open spec fn present_modes_spec(bits: u32) -> Seq<VkPresentModeKHR> {
    (if bits & 1u32 != 0 {
        seq![VkPresentModeKHR::VK_PRESENT_MODE_IMMEDIATE_KHR]
    } else {
        Seq::empty()
    }) + (if bits & 2u32 != 0 {
        seq![VkPresentModeKHR::VK_PRESENT_MODE_MAILBOX_KHR]
    } else {
        Seq::empty()
    }) + (if bits & 4u32 != 0 {
        seq![VkPresentModeKHR::VK_PRESENT_MODE_FIFO_KHR]
    } else {
        Seq::empty()
    }) + (if bits & 8u32 != 0 {
        seq![VkPresentModeKHR::VK_PRESENT_MODE_FIFO_RELAXED_KHR]
    } else {
        Seq::empty()
    })
}

/// The Vulkan present mode whose number is `i`, for `i` below four.
pub open spec fn present_mode_at(i: u32) -> VkPresentModeKHR {
    if i == 0 {
        VkPresentModeKHR::VK_PRESENT_MODE_IMMEDIATE_KHR
    } else if i == 1 {
        VkPresentModeKHR::VK_PRESENT_MODE_MAILBOX_KHR
    } else if i == 2 {
        VkPresentModeKHR::VK_PRESENT_MODE_FIFO_KHR
    } else {
        VkPresentModeKHR::VK_PRESENT_MODE_FIFO_RELAXED_KHR
    }
}

/// The present modes of the first `n` bits of a set.
pub open spec fn present_modes_upto(bits: u32, n: u32) -> Seq<VkPresentModeKHR>
    decreases n,
{
    if n == 0 {
        Seq::empty()
    } else {
        let k = (n - 1) as u32;
        present_modes_upto(bits, k) + if bits & (1u32 << k) != 0 {
            seq![present_mode_at(k)]
        } else {
            Seq::empty()
        }
    }
}

/// The Vulkan present modes of a set of present modes of the abstraction
/// layer, in the order of their bits.
pub fn present_modes(modes: PresentMode) -> (r: Vec<VkPresentModeKHR>)
    ensures
        r@ == present_modes_spec(modes.bits),
{
    let mut out: Vec<VkPresentModeKHR> = Vec::new();
    let mut i: u32 = 0;
    while i < 4
        invariant
            i <= 4,
            out@ == present_modes_upto(modes.bits, i),
        decreases 4 - i,
    {
        if modes.bits & (1u32 << i) != 0 {
            let mode = if i == 0 {
                VkPresentModeKHR::VK_PRESENT_MODE_IMMEDIATE_KHR
            } else if i == 1 {
                VkPresentModeKHR::VK_PRESENT_MODE_MAILBOX_KHR
            } else if i == 2 {
                VkPresentModeKHR::VK_PRESENT_MODE_FIFO_KHR
            } else {
                VkPresentModeKHR::VK_PRESENT_MODE_FIFO_RELAXED_KHR
            };
            out.push(mode);
        }
        proof {
            assert(((i + 1) as u32 - 1) as u32 == i);
        }
        i = i + 1;
    }
    assert(1u32 << 0u32 == 1u32 && 1u32 << 1u32 == 2u32 && 1u32 << 2u32 == 4u32 && 1u32 << 3u32
        == 8u32) by (bit_vector);
    assert(present_modes_upto(modes.bits, 4) =~= present_modes_spec(modes.bits)) by {
        reveal_with_fuel(present_modes_upto, 5);
        assert(present_modes_upto(modes.bits, 1) =~= present_modes_upto(modes.bits, 0) + (if modes.bits
            & 1u32 != 0 {
            seq![present_mode_at(0)]
        } else {
            Seq::empty()
        }));
    }
    out
}

/// The answer about the present modes of a surface: with no room given,
/// how many there are; with room given, as many of the modes as fit, in
/// ascending order, with their number, and `VK_INCOMPLETE` where not all
/// fit.
pub fn present_modes_answer(modes: PresentMode, capacity: Option<u32>) -> (r: (u32, Vec<
    VkPresentModeKHR,
>, VkResult))
    ensures
        capacity is None ==> r.0 == present_modes_spec(modes.bits).len() && r.1@.len() == 0 && r.2
            == VkResult::VK_SUCCESS,
        capacity matches Some(c) ==> (if c < present_modes_spec(modes.bits).len() {
            &&& r.0 == c
            &&& r.1@ == present_modes_spec(modes.bits).take(c as int)
            &&& r.2 == VkResult::VK_INCOMPLETE
        } else {
            &&& r.0 == present_modes_spec(modes.bits).len()
            &&& r.1@ == present_modes_spec(modes.bits)
            &&& r.2 == VkResult::VK_SUCCESS
        }),
{
    let list = present_modes(modes);
    let count = list.len() as u32;
    match capacity {
        None => (count, Vec::new(), VkResult::VK_SUCCESS),
        Some(c) => {
            let (written, code) = enumerate_into(list.as_slice(), c as usize);
            let n: u32 = if c < count {
                c
            } else {
                count
            };
            (n, written, code)
        },
    }
}

/// The Vulkan capabilities of a surface: the image counts, extents, layers
/// and composite alpha modes it reports (with all ones for the width and
/// height where it has no current extent), the identity transform, and
/// color attachment use.
pub fn surface_capabilities(caps: &SurfaceCapabilities) -> (r: VkSurfaceCapabilitiesKHR)
    ensures
        r.minImageCount == caps.min_image_count,
        r.maxImageCount == caps.max_image_count,
        caps.current_extent matches Some(e) ==> r.currentExtent == (VkExtent2D {
            width: e.width,
            height: e.height,
        }),
        caps.current_extent is None ==> r.currentExtent == (VkExtent2D {
            width: 0xFFFF_FFFF,
            height: 0xFFFF_FFFF,
        }),
        r.minImageExtent == (VkExtent2D { width: caps.min_extent.width, height: caps.min_extent.height }),
        r.maxImageExtent == (VkExtent2D { width: caps.max_extent.width, height: caps.max_extent.height }),
        r.maxImageArrayLayers == caps.max_image_layers as u32,
        r.supportedTransforms
            == VkSurfaceTransformFlagBitsKHR::VK_SURFACE_TRANSFORM_IDENTITY_BIT_KHR.value(),
        r.currentTransform == VkSurfaceTransformFlagBitsKHR::VK_SURFACE_TRANSFORM_IDENTITY_BIT_KHR,
        r.supportedCompositeAlpha == caps.composite_alpha_modes.bits,
        r.supportedUsageFlags == VkImageUsageFlagBits::VK_IMAGE_USAGE_COLOR_ATTACHMENT_BIT.value(),
{
    VkSurfaceCapabilitiesKHR {
        minImageCount: caps.min_image_count,
        maxImageCount: caps.max_image_count,
        currentExtent: match caps.current_extent {
            Some(extent) => extent2d_from_hal(extent),
            None => VkExtent2D { width: 0xFFFF_FFFF, height: 0xFFFF_FFFF },
        },
        minImageExtent: extent2d_from_hal(caps.min_extent),
        maxImageExtent: extent2d_from_hal(caps.max_extent),
        maxImageArrayLayers: caps.max_image_layers as u32,
        supportedTransforms: VkSurfaceTransformFlagBitsKHR::VK_SURFACE_TRANSFORM_IDENTITY_BIT_KHR.as_raw(),
        currentTransform: VkSurfaceTransformFlagBitsKHR::VK_SURFACE_TRANSFORM_IDENTITY_BIT_KHR,
        supportedCompositeAlpha: caps.composite_alpha_modes.bits,
        supportedUsageFlags: VkImageUsageFlagBits::VK_IMAGE_USAGE_COLOR_ATTACHMENT_BIT.as_raw(),
    }
}

/// The Vulkan formats of a surface: those it lists, or the undefined format
/// alone where it has no preference.
pub open spec fn surface_formats_spec(formats: Option<Seq<Format>>) -> Seq<VkFormat> {
    match formats {
        Some(fs) => fs.map_values(|f: Format| format_spec_of(f)),
        None => seq![VkFormat::VK_FORMAT_UNDEFINED],
    }
}

/// The answer about the formats of a surface: with no room given, how many
/// there are; with room for `c`, the first of them (in the sRGB nonlinear
/// color space) as far as they fit, and the count lowered to their number
/// where the room was larger. The answer is always a success.
pub fn surface_formats_answer(formats: Option<&[Format]>, capacity: Option<u32>) -> (r: (
    u32,
    Vec<VkSurfaceFormatKHR>,
))
    requires
        formats matches Some(fs) ==> forall|i: int| 0 <= i < fs@.len() ==> (#[trigger] fs@[i]).is_valid(),
        formats matches Some(fs) ==> fs@.len() <= u32::MAX,
    ensures
        ({
            let all = surface_formats_spec(
                match formats {
                    Some(fs) => Some(fs@),
                    None => None,
                },
            );
            &&& capacity is None ==> r.0 == all.len() && r.1@.len() == 0
            &&& capacity matches Some(c) ==> {
                &&& r.0 == (if c > all.len() {
                    all.len() as u32
                } else {
                    c
                })
                &&& r.1@.len() == (if c < all.len() {
                    c as int
                } else {
                    all.len() as int
                })
                &&& forall|i: int|
                    0 <= i < r.1@.len() ==> #[trigger] r.1@[i] == (VkSurfaceFormatKHR {
                        format: all[i],
                        colorSpace: VkColorSpaceKHR::VK_COLOR_SPACE_SRGB_NONLINEAR_KHR,
                    })
            }
        }),
{
    let ghost spec_formats = match formats {
        Some(fs) => Some(fs@),
        None => None,
    };
    let mut all: Vec<VkFormat> = Vec::new();
    match formats {
        Some(fs) => {
            let mut i: usize = 0;
            while i < fs.len()
                invariant
                    i <= fs@.len(),
                    forall|k: int| 0 <= k < fs@.len() ==> (#[trigger] fs@[k]).is_valid(),
                    all@ == fs@.take(i as int).map_values(|f: Format| format_spec_of(f)),
                decreases fs@.len() - i,
            {
                let f = crate::conv::format_from_hal(fs[i]);
                all.push(f);
                proof {
                    assert(fs@.take(i + 1) =~= fs@.take(i as int).push(fs@[i as int]));
                }
                i = i + 1;
                assert(all@ =~= fs@.take(i as int).map_values(|f: Format| format_spec_of(f)));
            }
            assert(fs@.take(fs@.len() as int) =~= fs@);
        },
        None => {
            all.push(VkFormat::VK_FORMAT_UNDEFINED);
        },
    }
    assert(all@ =~= surface_formats_spec(spec_formats));
    let len = all.len() as u32;
    match capacity {
        None => (len, Vec::new()),
        Some(c) => {
            let n: usize = if (c as usize) < all.len() {
                c as usize
            } else {
                all.len()
            };
            let mut out: Vec<VkSurfaceFormatKHR> = Vec::new();
            let mut i: usize = 0;
            while i < n
                invariant
                    i <= n,
                    n <= all@.len(),
                    out@.len() == i,
                    forall|k: int|
                        0 <= k < i ==> #[trigger] out@[k] == (VkSurfaceFormatKHR {
                            format: all@[k],
                            colorSpace: VkColorSpaceKHR::VK_COLOR_SPACE_SRGB_NONLINEAR_KHR,
                        }),
                decreases n - i,
            {
                out.push(
                    VkSurfaceFormatKHR {
                        format: all[i],
                        colorSpace: VkColorSpaceKHR::VK_COLOR_SPACE_SRGB_NONLINEAR_KHR,
                    },
                );
                i = i + 1;
            }
            let count = if c > len {
                len
            } else {
                c
            };
            (count, out)
        },
    }
}

} // verus!
