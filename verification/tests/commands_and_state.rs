use portability_gfx::commands::{
    barrier_dependencies, buffer_copies, buffer_image_copies, clear_attachment_kind,
    counted_range, fill_range, image_barriers_are_supported, image_blits, image_copies,
    image_resolves, make_barriers,
    push_constants_plan, subresource_ranges, BufferBarrierInfo, ImageBarrierInfo,
    MemoryBarrierInfo,
};
use portability_gfx::conv::descriptor_type_is_supported;
use portability_gfx::descriptors::{
    map_descriptor_alloc_error, map_layout_binding, map_pool_flags, map_pool_size,
    next_descriptor, write_descriptors, write_is_supported, BufferInfo, Descriptor, ImageInfo, LayoutBindingInfo,
    SetTracker,
};
use portability_gfx::hal::command::AttachmentClearKind;
use portability_gfx::hal::device::{OomOrDeviceLost, OutOfMemory};
use portability_gfx::hal::format::{Aspects, Format};
use portability_gfx::hal::image::{Access as ImageAccess, Layout};
use portability_gfx::hal::memory::{Barrier, Dependencies};
use portability_gfx::hal::pso::{
    AllocationError, BufferDescriptorFormat, BufferDescriptorType, DescriptorType,
    ImageDescriptorType,
};
use portability_gfx::hal::window::{
    AcquireError, CompositeAlphaMode, CreationError, Extent2D, PresentMode, SurfaceCapabilities,
};
use portability_gfx::objects::{Image, VK_REMAINING_ARRAY_LAYERS, VK_REMAINING_MIP_LEVELS};
use portability_gfx::swapchain::{
    acquire_next_image, map_swapchain_error, new_swapchain_state, present_image,
    present_modes, present_modes_answer, surface_capabilities, surface_formats_answer,
    swapchain_config, SwapchainInfo,
};
use portability_gfx::sync::{
    event_status, fence_signaled, fence_status, made_real, query_results_status, submissions, wait_plan,
    wait_result, SubmitWaits, WaitPlan,
};
use portability_gfx::vk_enums::{
    VkColorSpaceKHR, VkCompositeAlphaFlagBitsKHR, VkDescriptorType, VkFormat, VkImageLayout,
    VkPresentModeKHR, VkResult, VkSharingMode,
};
use portability_gfx::vk_structs::{
    VkBufferCopy, VkBufferImageCopy, VkDescriptorPoolSize, VkExtent2D, VkExtent3D, VkImageBlit,
    VkImageCopy, VkImageResolve, VkImageSubresourceLayers, VkImageSubresourceRange, VkOffset3D,
};

fn image(levels: u32, layers: u32) -> Image<()> {
    Image { raw: (), mip_levels: levels, array_layers: layers }
}

fn layers(base: u32, count: u32) -> VkImageSubresourceLayers {
    VkImageSubresourceLayers { aspectMask: 0x1, mipLevel: 2, baseArrayLayer: base, layerCount: count }
}

const ORIGIN: VkOffset3D = VkOffset3D { x: 0, y: 0, z: 0 };
const EXTENT: VkExtent3D = VkExtent3D { width: 4, height: 4, depth: 1 };

#[test]
fn remaining_layers_reach_the_last_layer() {
    let img = image(5, 6);
    let copies = image_copies(&img, &image(1, 3), &[VkImageCopy {
        srcSubresource: layers(2, VK_REMAINING_ARRAY_LAYERS),
        srcOffset: ORIGIN,
        dstSubresource: layers(0, 2),
        dstOffset: VkOffset3D { x: 1, y: 2, z: 3 },
        extent: EXTENT,
    }]);
    let c = copies[0];
    assert_eq!((c.src_subresource.layers.start, c.src_subresource.layers.end), (2, 6));
    assert_eq!((c.dst_subresource.layers.start, c.dst_subresource.layers.end), (0, 2));
    assert_eq!(c.src_subresource.level, 2);
    assert_eq!(c.src_subresource.aspects, Aspects { bits: Aspects::COLOR });
    assert_eq!((c.dst_offset.x, c.dst_offset.y, c.dst_offset.z), (1, 2, 3));
    let ranges = subresource_ranges(&img, &[VkImageSubresourceRange {
        aspectMask: 0x2,
        baseMipLevel: 1,
        levelCount: VK_REMAINING_MIP_LEVELS,
        baseArrayLayer: 0,
        layerCount: 1,
    }]);
    assert_eq!((ranges[0].levels.start, ranges[0].levels.end), (1, 5));
    assert_eq!((ranges[0].layers.start, ranges[0].layers.end), (0, 1));
}

#[test]
fn regions_of_copies_blits_and_resolves() {
    let img = image(1, 4);
    let b = buffer_copies(&[VkBufferCopy { srcOffset: 1, dstOffset: 2, size: 3 }]);
    assert_eq!((b[0].src, b[0].dst, b[0].size), (1, 2, 3));
    let blits = image_blits(&img, &img, &[VkImageBlit {
        srcSubresource: layers(0, 1),
        srcOffsets: [ORIGIN, VkOffset3D { x: 8, y: 8, z: 1 }],
        dstSubresource: layers(1, 1),
        dstOffsets: [ORIGIN, VkOffset3D { x: 4, y: 4, z: 1 }],
    }]);
    assert_eq!((blits[0].src_bounds_end.x, blits[0].dst_bounds_end.x), (8, 4));
    assert_eq!(blits[0].dst_subresource.layers.end, 2);
    let bic = buffer_image_copies(&img, &[VkBufferImageCopy {
        bufferOffset: 64,
        bufferRowLength: 16,
        bufferImageHeight: 8,
        imageSubresource: layers(0, 1),
        imageOffset: ORIGIN,
        imageExtent: EXTENT,
    }]);
    assert_eq!((bic[0].buffer_offset, bic[0].buffer_width, bic[0].buffer_height), (64, 16, 8));
    let res = image_resolves(&img, &img, &[VkImageResolve {
        srcSubresource: layers(0, 1),
        srcOffset: ORIGIN,
        dstSubresource: layers(0, 1),
        dstOffset: ORIGIN,
        extent: EXTENT,
    }]);
    assert_eq!(res[0].extent.width, 4);
}

#[test]
fn global_barriers_split_by_resource_kind() {
    // transfer write (0x1000) concerns buffers and images; input attachment read (0x10) only images
    let globals = [
        MemoryBarrierInfo { src_access: 0x1000, dst_access: 0 },
        MemoryBarrierInfo { src_access: 0x10, dst_access: 0 },
        MemoryBarrierInfo { src_access: 0, dst_access: 0 },
    ];
    let buffers = [BufferBarrierInfo { src_access: 0, dst_access: 0x20, offset: 4, size: 0xFFFF_FFFF }];
    let images = [ImageBarrierInfo {
        src_access: 0,
        dst_access: 0x20,
        old_layout: VkImageLayout::VK_IMAGE_LAYOUT_UNDEFINED,
        new_layout: VkImageLayout::VK_IMAGE_LAYOUT_SHADER_READ_ONLY_OPTIMAL,
        range: VkImageSubresourceRange { aspectMask: 0x1, baseMipLevel: 0, levelCount: VK_REMAINING_MIP_LEVELS, baseArrayLayer: 0, layerCount: 1 },
        mip_levels: 3,
        array_layers: 1,
    }];
    let barriers = make_barriers(&globals, &buffers, &images);
    assert_eq!(barriers.len(), 5);
    assert!(matches!(barriers[0], Barrier::AllBuffers(s, d) if s.bits == 0x1000 && d.bits == 0));
    assert!(matches!(barriers[1], Barrier::AllImages(s, _) if s.bits == 0x1000));
    assert!(matches!(barriers[2], Barrier::AllImages(s, _) if s.bits == 0x10));
    assert!(matches!(barriers[3], Barrier::Buffer { index: 0, offset: 4, size: None, .. }));
    match barriers[4] {
        Barrier::Image { index, src_layout, dst_layout, dst, range, .. } => {
            assert_eq!(index, 0);
            assert_eq!((src_layout, dst_layout), (Layout::Undefined, Layout::ShaderReadOnlyOptimal));
            assert_eq!(dst, ImageAccess { bits: 0x20 });
            assert_eq!((range.levels.start, range.levels.end), (0, 3));
        }
        _ => panic!("expected an image barrier"),
    }
}

#[test]
fn image_barriers_are_checked_before_they_are_made() {
    let good = ImageBarrierInfo {
        src_access: 0,
        dst_access: 0,
        old_layout: VkImageLayout::VK_IMAGE_LAYOUT_UNDEFINED,
        new_layout: VkImageLayout::VK_IMAGE_LAYOUT_PRESENT_SRC_KHR,
        range: VkImageSubresourceRange { aspectMask: 0x6, baseMipLevel: 0, levelCount: 1, baseArrayLayer: 0, layerCount: VK_REMAINING_ARRAY_LAYERS },
        mip_levels: 1,
        array_layers: 4,
    };
    assert!(image_barriers_are_supported(&[good]));
    let mut metadata = good;
    metadata.range.aspectMask = 0x8;
    assert!(!image_barriers_are_supported(&[good, metadata]));
    let mut past = good;
    past.range.baseArrayLayer = 0xFFFF_FFF0;
    past.range.layerCount = 0x20;
    assert!(!image_barriers_are_supported(&[past]));
    let mut layout = good;
    layout.new_layout = VkImageLayout::VK_IMAGE_LAYOUT_MAX_ENUM;
    assert!(!image_barriers_are_supported(&[layout]));
    // depth and stencil aspects reach the barrier each as itself
    match make_barriers(&[], &[], &[good])[0] {
        Barrier::Image { range, .. } => assert_eq!(range.aspects, Aspects { bits: Aspects::DEPTH | Aspects::STENCIL }),
        _ => panic!("expected an image barrier"),
    }
    // an index read reaches a buffer barrier
    match make_barriers(&[], &[BufferBarrierInfo { src_access: 0x2, dst_access: 0, offset: 0, size: 4 }], &[])[0] {
        Barrier::Buffer { src, .. } => assert_eq!(src.bits, 0x2),
        _ => panic!("expected a buffer barrier"),
    }
}

#[test]
fn buffer_barrier_sizes_stand_for_the_rest_by_their_low_word() {
    let b = make_barriers(&[], &[BufferBarrierInfo { src_access: 0x800, dst_access: 0, offset: 0, size: 0x1_FFFF_FFFF }], &[]);
    assert!(matches!(b[0], Barrier::Buffer { size: None, .. }));
    let b = make_barriers(&[], &[BufferBarrierInfo { src_access: 0x800, dst_access: 0, offset: 0, size: 256 }], &[]);
    assert!(matches!(b[0], Barrier::Buffer { size: Some(256), .. }));
}

#[test]
fn unknown_dependency_flags_become_none() {
    assert_eq!(barrier_dependencies(1), Dependencies { bits: 1 });
    assert_eq!(barrier_dependencies(0x8), Dependencies { bits: 0 });
}

#[test]
fn draws_and_fills() {
    assert_eq!(counted_range(3, 4), (3, 7));
    assert_eq!(fill_range(16, u64::MAX), (16, None));
    assert_eq!(fill_range(16, 0xFFFF_FFFF), (16, Some(0xFFFF_FFFF)));
}

#[test]
fn push_constants_go_to_the_stages_named() {
    let p = push_constants_plan(0x20, 8);
    assert!(p.compute);
    assert_eq!(p.graphics, None);
    assert_eq!(p.words, 2);
    let p = push_constants_plan(0x1 | 0x10 | 0x20, 16);
    assert!(p.compute);
    // the graphics pipeline is given the whole stage mask
    assert_eq!(p.graphics.map(|g| g.bits), Some(0x31));
    assert_eq!(p.words, 4);
}

#[test]
fn attachment_clears_pick_color_first() {
    assert_eq!(clear_attachment_kind(0x1 | 0x2, 3), AttachmentClearKind::Color(3));
    assert_eq!(clear_attachment_kind(0x2 | 0x4, 3), AttachmentClearKind::DepthStencil { depth: true, stencil: true });
    assert_eq!(clear_attachment_kind(0x4, 0), AttachmentClearKind::DepthStencil { depth: false, stencil: true });
}

#[test]
fn fences_events_and_queries() {
    assert!(fence_signaled(1));
    assert!(!fence_signaled(0));
    assert_eq!(fence_status(true, Err(())), VkResult::VK_SUCCESS);
    assert_eq!(fence_status(false, Ok(false)), VkResult::VK_NOT_READY);
    assert_eq!(fence_status(false, Err(())), VkResult::VK_ERROR_DEVICE_LOST);
    assert_eq!(wait_result(Ok(false)), VkResult::VK_TIMEOUT);
    assert_eq!(wait_result(Err(OomOrDeviceLost::OutOfMemory(OutOfMemory::Device))), VkResult::VK_ERROR_OUT_OF_DEVICE_MEMORY);
    assert_eq!(event_status(Ok(true)), VkResult::VK_EVENT_SET);
    assert_eq!(event_status(Ok(false)), VkResult::VK_EVENT_RESET);
    assert_eq!(event_status(Err(OomOrDeviceLost::DeviceLost)), VkResult::VK_ERROR_DEVICE_LOST);
    assert_eq!(query_results_status(Ok(false)), VkResult::VK_NOT_READY);
    assert_eq!(query_results_status(Err(OomOrDeviceLost::DeviceLost)), VkResult::VK_ERROR_OUT_OF_DEVICE_MEMORY);
}

#[test]
fn waits_skip_fake_fences() {
    assert!(matches!(wait_plan(&[], 1), WaitPlan::Done));
    assert!(matches!(wait_plan(&[false], 1), WaitPlan::One(0)));
    assert!(matches!(wait_plan(&[true], 1), WaitPlan::Done));
    assert!(matches!(wait_plan(&[true, true], 0), WaitPlan::Done));
    match wait_plan(&[true, false, false], 0) {
        WaitPlan::Many(v, all) => {
            assert_eq!(v, vec![1, 2]);
            assert!(!all);
        }
        _ => panic!("expected a wait on several fences"),
    }
}

#[test]
fn only_the_last_submission_carries_the_fence() {
    let s = submissions(&[]);
    assert_eq!(s.len(), 1);
    assert!(s[0].with_fence);
    assert!(s[0].waits.is_empty());
    let infos = [
        SubmitWaits { fakes: vec![false, true], stages: vec![0x400, 0x1], signal_fakes: vec![true, false] },
        SubmitWaits { fakes: vec![], stages: vec![], signal_fakes: vec![] },
    ];
    let s = submissions(&infos);
    assert_eq!(s.len(), 2);
    assert!(!s[0].with_fence);
    assert!(s[1].with_fence);
    // a signaled semaphore is real afterwards
    assert_eq!(s[0].signal_fakes, vec![false, false]);
    assert!(s[1].signal_fakes.is_empty());
    assert_eq!(made_real(&[true, true, false]), vec![false, false, false]);
    assert_eq!(s[0].waits.len(), 1);
    assert_eq!((s[0].waits[0].0, s[0].waits[0].1.bits), (0, 0x400));
}

#[test]
fn acquired_images_are_presented() {
    let mut sc = new_swapchain_state(3);
    assert_eq!((sc.count, sc.current_index, sc.active), (3, 0, false));
    let mut fence = Some(false);
    let mut semaphore = None;
    let (code, index) = acquire_next_image(&mut sc, &mut fence, &mut semaphore, Ok(false));
    assert_eq!((code, index), (VkResult::VK_SUCCESS, Some(1)));
    // the fence handed in is fake afterwards; no semaphore was handed in
    assert_eq!((fence, semaphore), (Some(true), None));
    let mut semaphore = Some(false);
    let _ = acquire_next_image(&mut new_swapchain_state(1), &mut None, &mut semaphore, Err(AcquireError::NotReady));
    assert_eq!(semaphore, Some(true));
    assert!(sc.active);
    assert!(present_image(&mut sc, 1));
    assert!(!sc.active);
    let (code, index) = acquire_next_image(&mut sc, &mut None, &mut None, Ok(true));
    assert_eq!((code, index), (VkResult::VK_SUBOPTIMAL_KHR, Some(2)));
    assert!(!present_image(&mut sc, 1));
    let (_, index) = acquire_next_image(&mut sc, &mut None, &mut None, Ok(false));
    assert_eq!(index, Some(0));
    let (code, index) = acquire_next_image(&mut sc, &mut None, &mut None, Err(AcquireError::OutOfDate));
    assert_eq!((code, index), (VkResult::VK_ERROR_OUT_OF_DATE_KHR, None));
    assert_eq!(sc.current_index, 0);
    assert!(!sc.active);
    let (code, _) = acquire_next_image(&mut sc, &mut None, &mut None, Err(AcquireError::OutOfMemory(OutOfMemory::Host)));
    assert_eq!(code, VkResult::VK_ERROR_OUT_OF_HOST_MEMORY);
}

#[test]
fn swapchain_creation() {
    let info = SwapchainInfo {
        min_image_count: 2,
        image_format: VkFormat::VK_FORMAT_B8G8R8A8_SRGB,
        image_extent: VkExtent2D { width: 800, height: 600 },
        image_sharing_mode: VkSharingMode::VK_SHARING_MODE_EXCLUSIVE,
        present_mode: VkPresentModeKHR::VK_PRESENT_MODE_FIFO_KHR,
        composite_alpha: VkCompositeAlphaFlagBitsKHR::VK_COMPOSITE_ALPHA_OPAQUE_BIT_KHR,
        clipped: 1,
    };
    let c = swapchain_config(&info);
    assert_eq!(c.format, Format { id: VkFormat::VK_FORMAT_B8G8R8A8_SRGB.as_raw() });
    assert_eq!((c.extent.width, c.extent.height, c.image_count, c.image_layers), (800, 600, 2, 1));
    assert_eq!(c.image_usage.bits, 0x10);
    assert_eq!(c.composite_alpha_mode, CompositeAlphaMode { bits: CompositeAlphaMode::OPAQUE });
    assert_eq!(map_swapchain_error(CreationError::SurfaceLost), VkResult::VK_ERROR_SURFACE_LOST_KHR);
    assert_eq!(map_swapchain_error(CreationError::WindowInUse), VkResult::VK_ERROR_NATIVE_WINDOW_IN_USE_KHR);
    assert_eq!(map_swapchain_error(CreationError::DeviceLost), VkResult::VK_ERROR_DEVICE_LOST);
}

#[test]
fn present_modes_come_in_bit_order() {
    assert_eq!(present_modes(PresentMode { bits: 0x4 | 0x1 }), vec![VkPresentModeKHR::VK_PRESENT_MODE_IMMEDIATE_KHR, VkPresentModeKHR::VK_PRESENT_MODE_FIFO_KHR]);
    let (count, list, code) = present_modes_answer(PresentMode { bits: 0xF }, None);
    assert_eq!((count, list.len(), code), (4, 0, VkResult::VK_SUCCESS));
    let (count, list, _) = present_modes_answer(PresentMode { bits: 0x2 }, Some(3));
    assert_eq!((count, list), (1, vec![VkPresentModeKHR::VK_PRESENT_MODE_MAILBOX_KHR]));
    let (count, list, code) = present_modes_answer(PresentMode { bits: 0xD }, Some(2));
    assert_eq!(
        (count, list, code),
        (2, vec![VkPresentModeKHR::VK_PRESENT_MODE_IMMEDIATE_KHR, VkPresentModeKHR::VK_PRESENT_MODE_FIFO_KHR], VkResult::VK_INCOMPLETE)
    );
    let (count, list, code) = present_modes_answer(PresentMode { bits: 0xD }, Some(0));
    assert_eq!((count, list.len(), code), (0, 0, VkResult::VK_INCOMPLETE));
}

#[test]
fn surface_capabilities_and_formats() {
    let caps = SurfaceCapabilities {
        min_image_count: 2,
        max_image_count: 8,
        current_extent: None,
        min_extent: Extent2D { width: 1, height: 1 },
        max_extent: Extent2D { width: 4096, height: 4096 },
        max_image_layers: 1,
        composite_alpha_modes: CompositeAlphaMode { bits: 0x1 },
    };
    let v = surface_capabilities(&caps);
    assert_eq!((v.currentExtent.width, v.currentExtent.height), (0xFFFF_FFFF, 0xFFFF_FFFF));
    assert_eq!((v.minImageCount, v.maxImageCount, v.maxImageArrayLayers), (2, 8, 1));
    assert_eq!((v.supportedTransforms, v.supportedUsageFlags), (1, 0x10));
    let (count, out) = surface_formats_answer(None, None);
    assert_eq!((count, out.len()), (1, 0));
    let (count, out) = surface_formats_answer(None, Some(4));
    assert_eq!(count, 1);
    assert_eq!(out[0].format, VkFormat::VK_FORMAT_UNDEFINED);
    assert_eq!(out[0].colorSpace, VkColorSpaceKHR::VK_COLOR_SPACE_SRGB_NONLINEAR_KHR);
    let formats = [Format { id: 44 }, Format { id: 50 }];
    let (count, out) = surface_formats_answer(Some(&formats), Some(1));
    assert_eq!(count, 1);
    assert_eq!(out.len(), 1);
    assert_eq!(out[0].format.as_raw(), 44);
}

#[test]
fn descriptor_writes_read_the_infos_of_their_type() {
    let images = [
        ImageInfo { has_sampler: true, layout: VkImageLayout::VK_IMAGE_LAYOUT_SHADER_READ_ONLY_OPTIMAL },
        ImageInfo { has_sampler: false, layout: VkImageLayout::VK_IMAGE_LAYOUT_GENERAL },
    ];
    let buffers = [BufferInfo { offset: 16, range: u64::MAX }, BufferInfo { offset: 0, range: 64 }];
    let combined = DescriptorType::Image { ty: ImageDescriptorType::Sampled { with_sampler: true } };
    assert_eq!(
        write_descriptors(combined, &images, &buffers, 0),
        vec![Descriptor::CombinedImageSampler(0, Layout::ShaderReadOnlyOptimal), Descriptor::Image(1, Layout::General)]
    );
    let uniform = DescriptorType::Buffer { ty: BufferDescriptorType::Uniform, format: BufferDescriptorFormat::Structured { dynamic_offset: false } };
    assert_eq!(
        write_descriptors(uniform, &images, &buffers, 0),
        vec![Descriptor::Buffer(0, 16, None), Descriptor::Buffer(1, 0, Some(64))]
    );
    let texel = DescriptorType::Buffer { ty: BufferDescriptorType::Uniform, format: BufferDescriptorFormat::Texel };
    assert_eq!(write_descriptors(texel, &images, &buffers, 3).len(), 3);
    assert_eq!(write_descriptors(DescriptorType::Sampler, &images, &[], 0), vec![Descriptor::Sampler(0), Descriptor::Sampler(1)]);
    assert!(write_is_supported(combined, &images));
    let odd = [ImageInfo { has_sampler: false, layout: VkImageLayout::VK_IMAGE_LAYOUT_MAX_ENUM }];
    assert!(!write_is_supported(combined, &odd));
    assert!(write_is_supported(DescriptorType::Sampler, &odd));
    assert_eq!(next_descriptor(DescriptorType::Sampler, &images, &[], 0, 2), None);
}

#[test]
fn descriptor_pools_keep_sets_unless_freed_one_by_one() {
    let mut kept: SetTracker<u32> = SetTracker::new(0);
    assert!(!kept.frees_individually());
    kept.record(vec![1, 2]);
    kept.record(vec![3]);
    assert_eq!(kept.take_all(), vec![1, 2, 3]);
    assert!(kept.take_all().is_empty());
    let mut free: SetTracker<u32> = SetTracker::new(1);
    assert!(free.frees_individually());
    free.record(vec![1]);
    assert!(free.take_all().is_empty());
    assert_eq!(map_pool_flags(0x3).bits, 0x1);
}

#[test]
fn descriptor_layouts_and_pools() {
    let b = map_layout_binding(&LayoutBindingInfo {
        binding: 2,
        descriptor_type: VkDescriptorType::VK_DESCRIPTOR_TYPE_STORAGE_BUFFER,
        descriptor_count: 4,
        stage_flags: 0x20,
        has_immutable_samplers: false,
    });
    assert_eq!((b.binding, b.count, b.stage_flags.bits, b.immutable_samplers), (2, 4, 0x20, false));
    assert_eq!(b.ty, DescriptorType::Buffer { ty: BufferDescriptorType::Storage { read_only: false }, format: BufferDescriptorFormat::Structured { dynamic_offset: false } });
    assert!(descriptor_type_is_supported(VkDescriptorType::VK_DESCRIPTOR_TYPE_INPUT_ATTACHMENT));
    assert!(!descriptor_type_is_supported(VkDescriptorType::VK_DESCRIPTOR_TYPE_RANGE_SIZE));
    let r = map_pool_size(&VkDescriptorPoolSize { type_: VkDescriptorType::VK_DESCRIPTOR_TYPE_SAMPLER, descriptorCount: 9 });
    assert_eq!((r.ty, r.count), (DescriptorType::Sampler, 9));
    assert_eq!(map_descriptor_alloc_error(AllocationError::OutOfPoolMemory), VkResult::VK_ERROR_OUT_OF_POOL_MEMORY_KHR);
    assert_eq!(map_descriptor_alloc_error(AllocationError::FragmentedPool), VkResult::VK_ERROR_FRAGMENTED_POOL);
    assert_eq!(map_descriptor_alloc_error(AllocationError::IncompatibleLayout), VkResult::VK_ERROR_DEVICE_LOST);
    assert_eq!(map_descriptor_alloc_error(AllocationError::OutOfMemory(OutOfMemory::Host)), VkResult::VK_ERROR_OUT_OF_HOST_MEMORY);
}
