//! Conversion between the values of the Vulkan API and those of the hardware
//! abstraction layer.

use vstd::prelude::*;

use crate::hal::format::{Aspects, BufferFeature, Component, Format, ImageFeature, Properties, Swizzle, NUM_FORMATS};
use crate::hal::{buffer, command, device, image, memory, pass, pso, query, window};
use crate::hal::{Features, IndexType};
use crate::vk_enums::{
    VkAccessFlagBits,
    VkAttachmentLoadOp,
    VkAttachmentStoreOp,
    VkBlendFactor,
    VkBlendOp,
    VkBufferUsageFlagBits,
    VkCompareOp,
    VkComponentSwizzle,
    VkCompositeAlphaFlagBitsKHR,
    VkCullModeFlagBits,
    VkDependencyFlagBits,
    VkDescriptorType,
    VkFilter,
    VkFormat,
    VkFormatFeatureFlagBits,
    VkFrontFace,
    VkImageAspectFlagBits,
    VkImageLayout,
    VkImageTiling,
    VkImageType,
    VkImageViewType,
    VkIndexType,
    VkLogicOp,
    VkMemoryPropertyFlagBits,
    VkPipelineStageFlagBits,
    VkPresentModeKHR,
    VkPrimitiveTopology,
    VkQueryType,
    VkResult,
    VkSampleCountFlagBits,
    VkSamplerAddressMode,
    VkSamplerMipmapMode,
    VkShaderStageFlagBits,
    VkStencilFaceFlagBits,
    VkStencilOp,
    VkSubpassContents,
};
use crate::vk_structs::{
    VkAccessFlags,
    VkBool32,
    VkBufferUsageFlags,
    VkClearRect,
    VkColorComponentFlags,
    VkCommandBufferUsageFlags,
    VkComponentMapping,
    VkCullModeFlags,
    VkDependencyFlags,
    VkExtent2D,
    VkExtent3D,
    VkFormatFeatureFlags,
    VkFormatProperties,
    VkImageAspectFlags,
    VkImageCreateFlags,
    VkImageFormatProperties,
    VkImageUsageFlags,
    VkMemoryPropertyFlags,
    VkOffset3D,
    VkPhysicalDeviceFeatures,
    VkPipelineStageFlags,
    VkQueryControlFlags,
    VkQueryPipelineStatisticFlags,
    VkQueryResultFlags,
    VkRect2D,
    VkShaderStageFlags,
    VkStencilFaceFlags,
};

verus! {

pub const VK_TRUE: VkBool32 = 1;
pub const VK_FALSE: VkBool32 = 0;

/// The Vulkan boolean for `b`.
pub open spec fn bool32(b: bool) -> VkBool32 {
    if b { VK_TRUE } else { VK_FALSE }
}

pub fn vk_bool(b: bool) -> (r: VkBool32)
    ensures
        r == bool32(b),
{
    if b { VK_TRUE } else { VK_FALSE }
}

/// The flag of `Features` that stands for the `k`-th feature of the Vulkan 1.0
/// feature list.
pub open spec fn feature_mask(k: int) -> u128 {
    1u128 << (k as u32)
}

/// The `k`-th feature of the Vulkan 1.0 feature list, as `f` holds it.
pub open spec fn feature_at(f: VkPhysicalDeviceFeatures, k: int) -> VkBool32 {
    if k == 0 {
        f.robustBufferAccess
    } else if k == 1 {
        f.fullDrawIndexUint32
    } else if k == 2 {
        f.imageCubeArray
    } else if k == 3 {
        f.independentBlend
    } else if k == 4 {
        f.geometryShader
    } else if k == 5 {
        f.tessellationShader
    } else if k == 6 {
        f.sampleRateShading
    } else if k == 7 {
        f.dualSrcBlend
    } else if k == 8 {
        f.logicOp
    } else if k == 9 {
        f.multiDrawIndirect
    } else if k == 10 {
        f.drawIndirectFirstInstance
    } else if k == 11 {
        f.depthClamp
    } else if k == 12 {
        f.depthBiasClamp
    } else if k == 13 {
        f.fillModeNonSolid
    } else if k == 14 {
        f.depthBounds
    } else if k == 15 {
        f.wideLines
    } else if k == 16 {
        f.largePoints
    } else if k == 17 {
        f.alphaToOne
    } else if k == 18 {
        f.multiViewport
    } else if k == 19 {
        f.samplerAnisotropy
    } else if k == 20 {
        f.textureCompressionETC2
    } else if k == 21 {
        f.textureCompressionASTC_LDR
    } else if k == 22 {
        f.textureCompressionBC
    } else if k == 23 {
        f.occlusionQueryPrecise
    } else if k == 24 {
        f.pipelineStatisticsQuery
    } else if k == 25 {
        f.vertexPipelineStoresAndAtomics
    } else if k == 26 {
        f.fragmentStoresAndAtomics
    } else if k == 27 {
        f.shaderTessellationAndGeometryPointSize
    } else if k == 28 {
        f.shaderImageGatherExtended
    } else if k == 29 {
        f.shaderStorageImageExtendedFormats
    } else if k == 30 {
        f.shaderStorageImageMultisample
    } else if k == 31 {
        f.shaderStorageImageReadWithoutFormat
    } else if k == 32 {
        f.shaderStorageImageWriteWithoutFormat
    } else if k == 33 {
        f.shaderUniformBufferArrayDynamicIndexing
    } else if k == 34 {
        f.shaderSampledImageArrayDynamicIndexing
    } else if k == 35 {
        f.shaderStorageBufferArrayDynamicIndexing
    } else if k == 36 {
        f.shaderStorageImageArrayDynamicIndexing
    } else if k == 37 {
        f.shaderClipDistance
    } else if k == 38 {
        f.shaderCullDistance
    } else if k == 39 {
        f.shaderFloat64
    } else if k == 40 {
        f.shaderInt64
    } else if k == 41 {
        f.shaderInt16
    } else if k == 42 {
        f.shaderResourceResidency
    } else if k == 43 {
        f.shaderResourceMinLod
    } else if k == 44 {
        f.sparseBinding
    } else if k == 45 {
        f.sparseResidencyBuffer
    } else if k == 46 {
        f.sparseResidencyImage2D
    } else if k == 47 {
        f.sparseResidencyImage3D
    } else if k == 48 {
        f.sparseResidency2Samples
    } else if k == 49 {
        f.sparseResidency4Samples
    } else if k == 50 {
        f.sparseResidency8Samples
    } else if k == 51 {
        f.sparseResidency16Samples
    } else if k == 52 {
        f.sparseResidencyAliased
    } else if k == 53 {
        f.variableMultisampleRate
    } else if k == 54 {
        f.inheritedQueries
    } else {
        0
    }
}

/// The named feature flags are the flags of the feature list, in its order.
pub proof fn lemma_feature_mask_names()
    ensures
        Features::ROBUST_BUFFER_ACCESS == feature_mask(0),
        Features::FULL_DRAW_INDEX_U32 == feature_mask(1),
        Features::IMAGE_CUBE_ARRAY == feature_mask(2),
        Features::INDEPENDENT_BLENDING == feature_mask(3),
        Features::GEOMETRY_SHADER == feature_mask(4),
        Features::TESSELLATION_SHADER == feature_mask(5),
        Features::SAMPLE_RATE_SHADING == feature_mask(6),
        Features::DUAL_SRC_BLENDING == feature_mask(7),
        Features::LOGIC_OP == feature_mask(8),
        Features::MULTI_DRAW_INDIRECT == feature_mask(9),
        Features::DRAW_INDIRECT_FIRST_INSTANCE == feature_mask(10),
        Features::DEPTH_CLAMP == feature_mask(11),
        Features::DEPTH_BIAS_CLAMP == feature_mask(12),
        Features::NON_FILL_POLYGON_MODE == feature_mask(13),
        Features::DEPTH_BOUNDS == feature_mask(14),
        Features::LINE_WIDTH == feature_mask(15),
        Features::POINT_SIZE == feature_mask(16),
        Features::ALPHA_TO_ONE == feature_mask(17),
        Features::MULTI_VIEWPORTS == feature_mask(18),
        Features::SAMPLER_ANISOTROPY == feature_mask(19),
        Features::FORMAT_ETC2 == feature_mask(20),
        Features::FORMAT_ASTC_LDR == feature_mask(21),
        Features::FORMAT_BC == feature_mask(22),
        Features::PRECISE_OCCLUSION_QUERY == feature_mask(23),
        Features::PIPELINE_STATISTICS_QUERY == feature_mask(24),
        Features::VERTEX_STORES_AND_ATOMICS == feature_mask(25),
        Features::FRAGMENT_STORES_AND_ATOMICS == feature_mask(26),
        Features::SHADER_TESSELLATION_AND_GEOMETRY_POINT_SIZE == feature_mask(27),
        Features::SHADER_IMAGE_GATHER_EXTENDED == feature_mask(28),
        Features::SHADER_STORAGE_IMAGE_EXTENDED_FORMATS == feature_mask(29),
        Features::SHADER_STORAGE_IMAGE_MULTISAMPLE == feature_mask(30),
        Features::SHADER_STORAGE_IMAGE_READ_WITHOUT_FORMAT == feature_mask(31),
        Features::SHADER_STORAGE_IMAGE_WRITE_WITHOUT_FORMAT == feature_mask(32),
        Features::SHADER_UNIFORM_BUFFER_ARRAY_DYNAMIC_INDEXING == feature_mask(33),
        Features::SHADER_SAMPLED_IMAGE_ARRAY_DYNAMIC_INDEXING == feature_mask(34),
        Features::SHADER_STORAGE_BUFFER_ARRAY_DYNAMIC_INDEXING == feature_mask(35),
        Features::SHADER_STORAGE_IMAGE_ARRAY_DYNAMIC_INDEXING == feature_mask(36),
        Features::SHADER_CLIP_DISTANCE == feature_mask(37),
        Features::SHADER_CULL_DISTANCE == feature_mask(38),
        Features::SHADER_FLOAT64 == feature_mask(39),
        Features::SHADER_INT64 == feature_mask(40),
        Features::SHADER_INT16 == feature_mask(41),
        Features::SHADER_RESOURCE_RESIDENCY == feature_mask(42),
        Features::SHADER_RESOURCE_MIN_LOD == feature_mask(43),
        Features::SPARSE_BINDING == feature_mask(44),
        Features::SPARSE_RESIDENCY_BUFFER == feature_mask(45),
        Features::SPARSE_RESIDENCY_IMAGE_2D == feature_mask(46),
        Features::SPARSE_RESIDENCY_IMAGE_3D == feature_mask(47),
        Features::SPARSE_RESIDENCY_2_SAMPLES == feature_mask(48),
        Features::SPARSE_RESIDENCY_4_SAMPLES == feature_mask(49),
        Features::SPARSE_RESIDENCY_8_SAMPLES == feature_mask(50),
        Features::SPARSE_RESIDENCY_16_SAMPLES == feature_mask(51),
        Features::SPARSE_RESIDENCY_ALIASED == feature_mask(52),
        Features::VARIABLE_MULTISAMPLE_RATE == feature_mask(53),
        Features::INHERITED_QUERIES == feature_mask(54),
{
    assert({
        &&& 0x0000_0000_0000_0001 == (1u128 << 0u32)
        &&& 0x0000_0000_0000_0002 == (1u128 << 1u32)
        &&& 0x0000_0000_0000_0004 == (1u128 << 2u32)
        &&& 0x0000_0000_0000_0008 == (1u128 << 3u32)
        &&& 0x0000_0000_0000_0010 == (1u128 << 4u32)
        &&& 0x0000_0000_0000_0020 == (1u128 << 5u32)
        &&& 0x0000_0000_0000_0040 == (1u128 << 6u32)
        &&& 0x0000_0000_0000_0080 == (1u128 << 7u32)
        &&& 0x0000_0000_0000_0100 == (1u128 << 8u32)
        &&& 0x0000_0000_0000_0200 == (1u128 << 9u32)
        &&& 0x0000_0000_0000_0400 == (1u128 << 10u32)
        &&& 0x0000_0000_0000_0800 == (1u128 << 11u32)
        &&& 0x0000_0000_0000_1000 == (1u128 << 12u32)
        &&& 0x0000_0000_0000_2000 == (1u128 << 13u32)
        &&& 0x0000_0000_0000_4000 == (1u128 << 14u32)
        &&& 0x0000_0000_0000_8000 == (1u128 << 15u32)
        &&& 0x0000_0000_0001_0000 == (1u128 << 16u32)
        &&& 0x0000_0000_0002_0000 == (1u128 << 17u32)
        &&& 0x0000_0000_0004_0000 == (1u128 << 18u32)
        &&& 0x0000_0000_0008_0000 == (1u128 << 19u32)
        &&& 0x0000_0000_0010_0000 == (1u128 << 20u32)
        &&& 0x0000_0000_0020_0000 == (1u128 << 21u32)
        &&& 0x0000_0000_0040_0000 == (1u128 << 22u32)
        &&& 0x0000_0000_0080_0000 == (1u128 << 23u32)
        &&& 0x0000_0000_0100_0000 == (1u128 << 24u32)
        &&& 0x0000_0000_0200_0000 == (1u128 << 25u32)
        &&& 0x0000_0000_0400_0000 == (1u128 << 26u32)
        &&& 0x0000_0000_0800_0000 == (1u128 << 27u32)
        &&& 0x0000_0000_1000_0000 == (1u128 << 28u32)
        &&& 0x0000_0000_2000_0000 == (1u128 << 29u32)
        &&& 0x0000_0000_4000_0000 == (1u128 << 30u32)
        &&& 0x0000_0000_8000_0000 == (1u128 << 31u32)
        &&& 0x0000_0001_0000_0000 == (1u128 << 32u32)
        &&& 0x0000_0002_0000_0000 == (1u128 << 33u32)
        &&& 0x0000_0004_0000_0000 == (1u128 << 34u32)
        &&& 0x0000_0008_0000_0000 == (1u128 << 35u32)
        &&& 0x0000_0010_0000_0000 == (1u128 << 36u32)
        &&& 0x0000_0020_0000_0000 == (1u128 << 37u32)
        &&& 0x0000_0040_0000_0000 == (1u128 << 38u32)
        &&& 0x0000_0080_0000_0000 == (1u128 << 39u32)
        &&& 0x0000_0100_0000_0000 == (1u128 << 40u32)
        &&& 0x0000_0200_0000_0000 == (1u128 << 41u32)
        &&& 0x0000_0400_0000_0000 == (1u128 << 42u32)
        &&& 0x0000_0800_0000_0000 == (1u128 << 43u32)
        &&& 0x0000_1000_0000_0000 == (1u128 << 44u32)
        &&& 0x0000_2000_0000_0000 == (1u128 << 45u32)
        &&& 0x0000_4000_0000_0000 == (1u128 << 46u32)
        &&& 0x0000_8000_0000_0000 == (1u128 << 47u32)
        &&& 0x0001_0000_0000_0000 == (1u128 << 48u32)
        &&& 0x0002_0000_0000_0000 == (1u128 << 49u32)
        &&& 0x0004_0000_0000_0000 == (1u128 << 50u32)
        &&& 0x0008_0000_0000_0000 == (1u128 << 51u32)
        &&& 0x0010_0000_0000_0000 == (1u128 << 52u32)
        &&& 0x0020_0000_0000_0000 == (1u128 << 53u32)
        &&& 0x0040_0000_0000_0000 == (1u128 << 54u32)
    }) by (bit_vector);
}

/// Whether the feature list `l` enables exactly the features of `f`, each as
/// `VK_TRUE` or `VK_FALSE`.
pub open spec fn features_listed(f: Features, l: VkPhysicalDeviceFeatures) -> bool {
    forall|k: int|
        0 <= k < Features::NUM_CORE ==> #[trigger] feature_at(l, k) == bool32(
            f.bits & feature_mask(k) != 0,
        )
}

/// Whether `f` holds exactly the features that the feature list `l` enables
/// (any non-zero value enabling one), and no other flag.
pub open spec fn features_read(l: VkPhysicalDeviceFeatures, f: Features) -> bool {
    &&& forall|k: int|
        0 <= k < Features::NUM_CORE ==> (f.bits & feature_mask(k) != 0) == (#[trigger] feature_at(
            l,
            k,
        ) != 0)
    &&& f.bits < feature_mask(Features::NUM_CORE as int)
}

/// Whether the feature list holds the features that a set of flags holds.
/// The feature list that enables exactly the features of a set of flags.
pub open spec fn features_list_spec(features: Features) -> VkPhysicalDeviceFeatures {
    VkPhysicalDeviceFeatures {
        robustBufferAccess: bool32(features.bits & feature_mask(0) != 0),
        fullDrawIndexUint32: bool32(features.bits & feature_mask(1) != 0),
        imageCubeArray: bool32(features.bits & feature_mask(2) != 0),
        independentBlend: bool32(features.bits & feature_mask(3) != 0),
        geometryShader: bool32(features.bits & feature_mask(4) != 0),
        tessellationShader: bool32(features.bits & feature_mask(5) != 0),
        sampleRateShading: bool32(features.bits & feature_mask(6) != 0),
        dualSrcBlend: bool32(features.bits & feature_mask(7) != 0),
        logicOp: bool32(features.bits & feature_mask(8) != 0),
        multiDrawIndirect: bool32(features.bits & feature_mask(9) != 0),
        drawIndirectFirstInstance: bool32(features.bits & feature_mask(10) != 0),
        depthClamp: bool32(features.bits & feature_mask(11) != 0),
        depthBiasClamp: bool32(features.bits & feature_mask(12) != 0),
        fillModeNonSolid: bool32(features.bits & feature_mask(13) != 0),
        depthBounds: bool32(features.bits & feature_mask(14) != 0),
        wideLines: bool32(features.bits & feature_mask(15) != 0),
        largePoints: bool32(features.bits & feature_mask(16) != 0),
        alphaToOne: bool32(features.bits & feature_mask(17) != 0),
        multiViewport: bool32(features.bits & feature_mask(18) != 0),
        samplerAnisotropy: bool32(features.bits & feature_mask(19) != 0),
        textureCompressionETC2: bool32(features.bits & feature_mask(20) != 0),
        textureCompressionASTC_LDR: bool32(features.bits & feature_mask(21) != 0),
        textureCompressionBC: bool32(features.bits & feature_mask(22) != 0),
        occlusionQueryPrecise: bool32(features.bits & feature_mask(23) != 0),
        pipelineStatisticsQuery: bool32(features.bits & feature_mask(24) != 0),
        vertexPipelineStoresAndAtomics: bool32(features.bits & feature_mask(25) != 0),
        fragmentStoresAndAtomics: bool32(features.bits & feature_mask(26) != 0),
        shaderTessellationAndGeometryPointSize: bool32(features.bits & feature_mask(27) != 0),
        shaderImageGatherExtended: bool32(features.bits & feature_mask(28) != 0),
        shaderStorageImageExtendedFormats: bool32(features.bits & feature_mask(29) != 0),
        shaderStorageImageMultisample: bool32(features.bits & feature_mask(30) != 0),
        shaderStorageImageReadWithoutFormat: bool32(features.bits & feature_mask(31) != 0),
        shaderStorageImageWriteWithoutFormat: bool32(features.bits & feature_mask(32) != 0),
        shaderUniformBufferArrayDynamicIndexing: bool32(features.bits & feature_mask(33) != 0),
        shaderSampledImageArrayDynamicIndexing: bool32(features.bits & feature_mask(34) != 0),
        shaderStorageBufferArrayDynamicIndexing: bool32(features.bits & feature_mask(35) != 0),
        shaderStorageImageArrayDynamicIndexing: bool32(features.bits & feature_mask(36) != 0),
        shaderClipDistance: bool32(features.bits & feature_mask(37) != 0),
        shaderCullDistance: bool32(features.bits & feature_mask(38) != 0),
        shaderFloat64: bool32(features.bits & feature_mask(39) != 0),
        shaderInt64: bool32(features.bits & feature_mask(40) != 0),
        shaderInt16: bool32(features.bits & feature_mask(41) != 0),
        shaderResourceResidency: bool32(features.bits & feature_mask(42) != 0),
        shaderResourceMinLod: bool32(features.bits & feature_mask(43) != 0),
        sparseBinding: bool32(features.bits & feature_mask(44) != 0),
        sparseResidencyBuffer: bool32(features.bits & feature_mask(45) != 0),
        sparseResidencyImage2D: bool32(features.bits & feature_mask(46) != 0),
        sparseResidencyImage3D: bool32(features.bits & feature_mask(47) != 0),
        sparseResidency2Samples: bool32(features.bits & feature_mask(48) != 0),
        sparseResidency4Samples: bool32(features.bits & feature_mask(49) != 0),
        sparseResidency8Samples: bool32(features.bits & feature_mask(50) != 0),
        sparseResidency16Samples: bool32(features.bits & feature_mask(51) != 0),
        sparseResidencyAliased: bool32(features.bits & feature_mask(52) != 0),
        variableMultisampleRate: bool32(features.bits & feature_mask(53) != 0),
        inheritedQueries: bool32(features.bits & feature_mask(54) != 0),
    }
}

#[verifier::rlimit(50)]
pub fn features_from_hal(features: Features) -> (r: VkPhysicalDeviceFeatures)
    ensures
        r == features_list_spec(features),
{
    VkPhysicalDeviceFeatures {
        robustBufferAccess: vk_bool(features.bits & (1u128 << 0u32) != 0),
        fullDrawIndexUint32: vk_bool(features.bits & (1u128 << 1u32) != 0),
        imageCubeArray: vk_bool(features.bits & (1u128 << 2u32) != 0),
        independentBlend: vk_bool(features.bits & (1u128 << 3u32) != 0),
        geometryShader: vk_bool(features.bits & (1u128 << 4u32) != 0),
        tessellationShader: vk_bool(features.bits & (1u128 << 5u32) != 0),
        sampleRateShading: vk_bool(features.bits & (1u128 << 6u32) != 0),
        dualSrcBlend: vk_bool(features.bits & (1u128 << 7u32) != 0),
        logicOp: vk_bool(features.bits & (1u128 << 8u32) != 0),
        multiDrawIndirect: vk_bool(features.bits & (1u128 << 9u32) != 0),
        drawIndirectFirstInstance: vk_bool(features.bits & (1u128 << 10u32) != 0),
        depthClamp: vk_bool(features.bits & (1u128 << 11u32) != 0),
        depthBiasClamp: vk_bool(features.bits & (1u128 << 12u32) != 0),
        fillModeNonSolid: vk_bool(features.bits & (1u128 << 13u32) != 0),
        depthBounds: vk_bool(features.bits & (1u128 << 14u32) != 0),
        wideLines: vk_bool(features.bits & (1u128 << 15u32) != 0),
        largePoints: vk_bool(features.bits & (1u128 << 16u32) != 0),
        alphaToOne: vk_bool(features.bits & (1u128 << 17u32) != 0),
        multiViewport: vk_bool(features.bits & (1u128 << 18u32) != 0),
        samplerAnisotropy: vk_bool(features.bits & (1u128 << 19u32) != 0),
        textureCompressionETC2: vk_bool(features.bits & (1u128 << 20u32) != 0),
        textureCompressionASTC_LDR: vk_bool(features.bits & (1u128 << 21u32) != 0),
        textureCompressionBC: vk_bool(features.bits & (1u128 << 22u32) != 0),
        occlusionQueryPrecise: vk_bool(features.bits & (1u128 << 23u32) != 0),
        pipelineStatisticsQuery: vk_bool(features.bits & (1u128 << 24u32) != 0),
        vertexPipelineStoresAndAtomics: vk_bool(features.bits & (1u128 << 25u32) != 0),
        fragmentStoresAndAtomics: vk_bool(features.bits & (1u128 << 26u32) != 0),
        shaderTessellationAndGeometryPointSize: vk_bool(features.bits & (1u128 << 27u32) != 0),
        shaderImageGatherExtended: vk_bool(features.bits & (1u128 << 28u32) != 0),
        shaderStorageImageExtendedFormats: vk_bool(features.bits & (1u128 << 29u32) != 0),
        shaderStorageImageMultisample: vk_bool(features.bits & (1u128 << 30u32) != 0),
        shaderStorageImageReadWithoutFormat: vk_bool(features.bits & (1u128 << 31u32) != 0),
        shaderStorageImageWriteWithoutFormat: vk_bool(features.bits & (1u128 << 32u32) != 0),
        shaderUniformBufferArrayDynamicIndexing: vk_bool(features.bits & (1u128 << 33u32) != 0),
        shaderSampledImageArrayDynamicIndexing: vk_bool(features.bits & (1u128 << 34u32) != 0),
        shaderStorageBufferArrayDynamicIndexing: vk_bool(features.bits & (1u128 << 35u32) != 0),
        shaderStorageImageArrayDynamicIndexing: vk_bool(features.bits & (1u128 << 36u32) != 0),
        shaderClipDistance: vk_bool(features.bits & (1u128 << 37u32) != 0),
        shaderCullDistance: vk_bool(features.bits & (1u128 << 38u32) != 0),
        shaderFloat64: vk_bool(features.bits & (1u128 << 39u32) != 0),
        shaderInt64: vk_bool(features.bits & (1u128 << 40u32) != 0),
        shaderInt16: vk_bool(features.bits & (1u128 << 41u32) != 0),
        shaderResourceResidency: vk_bool(features.bits & (1u128 << 42u32) != 0),
        shaderResourceMinLod: vk_bool(features.bits & (1u128 << 43u32) != 0),
        sparseBinding: vk_bool(features.bits & (1u128 << 44u32) != 0),
        sparseResidencyBuffer: vk_bool(features.bits & (1u128 << 45u32) != 0),
        sparseResidencyImage2D: vk_bool(features.bits & (1u128 << 46u32) != 0),
        sparseResidencyImage3D: vk_bool(features.bits & (1u128 << 47u32) != 0),
        sparseResidency2Samples: vk_bool(features.bits & (1u128 << 48u32) != 0),
        sparseResidency4Samples: vk_bool(features.bits & (1u128 << 49u32) != 0),
        sparseResidency8Samples: vk_bool(features.bits & (1u128 << 50u32) != 0),
        sparseResidency16Samples: vk_bool(features.bits & (1u128 << 51u32) != 0),
        sparseResidencyAliased: vk_bool(features.bits & (1u128 << 52u32) != 0),
        variableMultisampleRate: vk_bool(features.bits & (1u128 << 53u32) != 0),
        inheritedQueries: vk_bool(features.bits & (1u128 << 54u32) != 0),
    }
}

/// The feature list for a set of flags enables each feature exactly where
/// the set holds its flag.
pub proof fn lemma_features_listed(f: Features)
    ensures
        features_listed(f, features_list_spec(f)),
{
    let l = features_list_spec(f);
    assert forall|k: int| 0 <= k < 14 implies #[trigger] feature_at(l, k) == bool32(
        f.bits & feature_mask(k) != 0,
    ) by {}
    assert forall|k: int| 14 <= k < 28 implies #[trigger] feature_at(l, k) == bool32(
        f.bits & feature_mask(k) != 0,
    ) by {}
    assert forall|k: int| 28 <= k < 42 implies #[trigger] feature_at(l, k) == bool32(
        f.bits & feature_mask(k) != 0,
    ) by {}
    assert forall|k: int| 42 <= k < 55 implies #[trigger] feature_at(l, k) == bool32(
        f.bits & feature_mask(k) != 0,
    ) by {}
}

/// The `k`-th feature of the Vulkan 1.0 feature list, as `f` holds it.
fn feature_value(f: &VkPhysicalDeviceFeatures, k: u32) -> (r: VkBool32)
    requires
        k < Features::NUM_CORE,
    ensures
        r == feature_at(*f, k as int),
{
    match k {
        0 => f.robustBufferAccess,
        1 => f.fullDrawIndexUint32,
        2 => f.imageCubeArray,
        3 => f.independentBlend,
        4 => f.geometryShader,
        5 => f.tessellationShader,
        6 => f.sampleRateShading,
        7 => f.dualSrcBlend,
        8 => f.logicOp,
        9 => f.multiDrawIndirect,
        10 => f.drawIndirectFirstInstance,
        11 => f.depthClamp,
        12 => f.depthBiasClamp,
        13 => f.fillModeNonSolid,
        14 => f.depthBounds,
        15 => f.wideLines,
        16 => f.largePoints,
        17 => f.alphaToOne,
        18 => f.multiViewport,
        19 => f.samplerAnisotropy,
        20 => f.textureCompressionETC2,
        21 => f.textureCompressionASTC_LDR,
        22 => f.textureCompressionBC,
        23 => f.occlusionQueryPrecise,
        24 => f.pipelineStatisticsQuery,
        25 => f.vertexPipelineStoresAndAtomics,
        26 => f.fragmentStoresAndAtomics,
        27 => f.shaderTessellationAndGeometryPointSize,
        28 => f.shaderImageGatherExtended,
        29 => f.shaderStorageImageExtendedFormats,
        30 => f.shaderStorageImageMultisample,
        31 => f.shaderStorageImageReadWithoutFormat,
        32 => f.shaderStorageImageWriteWithoutFormat,
        33 => f.shaderUniformBufferArrayDynamicIndexing,
        34 => f.shaderSampledImageArrayDynamicIndexing,
        35 => f.shaderStorageBufferArrayDynamicIndexing,
        36 => f.shaderStorageImageArrayDynamicIndexing,
        37 => f.shaderClipDistance,
        38 => f.shaderCullDistance,
        39 => f.shaderFloat64,
        40 => f.shaderInt64,
        41 => f.shaderInt16,
        42 => f.shaderResourceResidency,
        43 => f.shaderResourceMinLod,
        44 => f.sparseBinding,
        45 => f.sparseResidencyBuffer,
        46 => f.sparseResidencyImage2D,
        47 => f.sparseResidencyImage3D,
        48 => f.sparseResidency2Samples,
        49 => f.sparseResidency4Samples,
        50 => f.sparseResidency8Samples,
        51 => f.sparseResidency16Samples,
        52 => f.sparseResidencyAliased,
        53 => f.variableMultisampleRate,
        54 => f.inheritedQueries,
        _ => 0,
    }
}

proof fn lemma_set_bit(x: u128, k: u32, j: u32)
    requires
        k < 64,
        j < 64,
    ensures
        ((x | (1u128 << k)) & (1u128 << j) != 0) == (x & (1u128 << j) != 0 || j == k),
        x < (1u128 << k) ==> (x | (1u128 << k)) < (1u128 << (k + 1) as u32),
        x < (1u128 << k) ==> x < (1u128 << (k + 1) as u32),
        x < (1u128 << k) ==> (x & (1u128 << j) != 0 ==> j < k),
{
    assert(((x | (1u128 << k)) & (1u128 << j) != 0) == (x & (1u128 << j) != 0 || j == k))
        by (bit_vector)
        requires
            k < 64,
            j < 64,
    ;
    assert(x < (1u128 << k) ==> (x | (1u128 << k)) < (1u128 << (k + 1) as u32)) by (bit_vector)
        requires
            k < 64,
    ;
    assert(x < (1u128 << k) ==> x < (1u128 << (k + 1) as u32)) by (bit_vector)
        requires
            k < 64,
    ;
    assert(x < (1u128 << k) ==> (x & (1u128 << j) != 0 ==> j < k)) by (bit_vector)
        requires
            k < 64,
            j < 64,
    ;
}

/// The set of feature flags for the features that the feature list enables
/// (any non-zero value enables a feature).
#[verifier::rlimit(50)]
pub fn map_features(ef: &VkPhysicalDeviceFeatures) -> (r: Features)
    ensures
        forall|k: int|
            0 <= k < Features::NUM_CORE ==> (r.bits & feature_mask(k) != 0) == (#[trigger] feature_at(
                *ef,
                k,
            ) != 0),
        r.bits < feature_mask(Features::NUM_CORE as int),
        features_read(*ef, r),
{
    let mut bits: u128 = 0;
    let mut k: u32 = 0;
    assert(0u128 < (1u128 << 0u32)) by (bit_vector);
    while k < Features::NUM_CORE
        invariant
            k <= Features::NUM_CORE,
            bits < (1u128 << k),
            forall|j: int|
                0 <= j < k ==> (bits & feature_mask(j) != 0) == (#[trigger] feature_at(*ef, j) != 0),
        decreases Features::NUM_CORE - k,
    {
        let on = feature_value(ef, k);
        let ghost old_bits = bits;
        if on != 0 {
            bits = bits | (1u128 << k);
        }
        proof {
            assert forall|j: int| 0 <= j < k + 1 implies (bits & feature_mask(j) != 0) == (
            #[trigger] feature_at(*ef, j) != 0) by {
                lemma_set_bit(old_bits, k, j as u32);
            }
            lemma_set_bit(old_bits, k, 0);
        }
        k = k + 1;
    }
    bits = bits;
    Features { bits }
}


/// The Vulkan format whose number is the identifier of `format`.
pub open spec fn format_spec_of(format: Format) -> VkFormat {
    VkFormat::from_value(format.id).unwrap()
}

/// The Vulkan format for a format of the abstraction layer, which numbers its
/// formats as the Vulkan API does.
pub fn format_from_hal(format: Format) -> (r: VkFormat)
    requires
        format.is_valid(),
    ensures
        r.value() == format.id,
        r == format_spec_of(format),
{
    proof {
        lemma_formats_contiguous(format.id);
    }
    match VkFormat::from_raw(format.id) {
        Some(f) => f,
        None => VkFormat::VK_FORMAT_UNDEFINED,
    }
}

/// Every value below the number of formats names a Vulkan format.
pub proof fn lemma_formats_contiguous(id: u32)
    requires
        id < NUM_FORMATS,
    ensures
        VkFormat::from_value(id) is Some,
        VkFormat::from_value(id).unwrap().value() == id,
{
}

/// The format of the abstraction layer for a Vulkan format: none for the
/// undefined format.
pub open spec fn format_spec(format: VkFormat) -> Option<Format> {
    if format == VkFormat::VK_FORMAT_UNDEFINED {
        None
    } else {
        Some(Format { id: format.value() })
    }
}

/// The format of the abstraction layer for a Vulkan format; `None` for the
/// undefined format.
pub fn map_format(format: VkFormat) -> (r: Option<Format>)
    requires
        format.value() < NUM_FORMATS,
    ensures
        r == format_spec(format),
        format == VkFormat::VK_FORMAT_UNDEFINED ==> r is None,
        format != VkFormat::VK_FORMAT_UNDEFINED ==> r == Some(Format { id: format.value() }),
{
    if format == VkFormat::VK_FORMAT_UNDEFINED {
        None
    } else {
        Some(Format { id: format.as_raw() })
    }
}

/// The Vulkan format properties for the capabilities of a format.
pub fn format_properties_from_hal(properties: Properties) -> (r: VkFormatProperties)
    ensures
        image_features_match(properties.linear_tiling, r.linearTilingFeatures),
        image_features_match(properties.optimal_tiling, r.optimalTilingFeatures),
        buffer_features_match(properties.buffer_features, r.bufferFeatures),
{
    VkFormatProperties {
        linearTilingFeatures: image_features_from_hal(properties.linear_tiling),
        optimalTilingFeatures: image_features_from_hal(properties.optimal_tiling),
        bufferFeatures: buffer_features_from_hal(properties.buffer_features),
    }
}

/// The Vulkan image format properties for the limits of an image format.
pub fn image_format_properties_from_hal(properties: image::FormatProperties) -> (r:
    VkImageFormatProperties)
    ensures
        r.maxExtent == extent3d_spec(properties.max_extent),
        r.maxMipLevels == properties.max_levels,
        r.maxArrayLayers == properties.max_layers,
        r.sampleCounts == properties.sample_count_mask,
        r.maxResourceSize == properties.max_resource_size,
{
    VkImageFormatProperties {
        maxExtent: extent3d_from_hal(properties.max_extent),
        maxMipLevels: properties.max_levels as u32,
        maxArrayLayers: properties.max_layers as u32,
        sampleCounts: properties.sample_count_mask as u32,
        maxResourceSize: properties.max_resource_size as u64,
    }
}

pub fn extent2d_from_hal(extent: window::Extent2D) -> (r: VkExtent2D)
    ensures
        r.width == extent.width,
        r.height == extent.height,
{
    VkExtent2D { width: extent.width, height: extent.height }
}

pub fn map_extent2d(extent: VkExtent2D) -> (r: window::Extent2D)
    ensures
        r.width == extent.width,
        r.height == extent.height,
{
    window::Extent2D { width: extent.width, height: extent.height }
}

pub open spec fn extent3d_spec(extent: image::Extent) -> VkExtent3D {
    VkExtent3D { width: extent.width, height: extent.height, depth: extent.depth }
}

pub fn extent3d_from_hal(extent: image::Extent) -> (r: VkExtent3D)
    ensures
        r == extent3d_spec(extent),
{
    VkExtent3D { width: extent.width, height: extent.height, depth: extent.depth }
}

pub fn map_offset(extent: VkOffset3D) -> (r: image::Offset)
    ensures
        r.x == extent.x,
        r.y == extent.y,
        r.z == extent.z,
{
    image::Offset { x: extent.x, y: extent.y, z: extent.z }
}

pub fn map_extent(extent: VkExtent3D) -> (r: image::Extent)
    ensures
        extent3d_spec(r) == extent,
{
    image::Extent { width: extent.width, height: extent.height, depth: extent.depth }
}

/// Whether a Vulkan swizzle is one that the abstraction layer can express.
pub open spec fn swizzle_supported(component: VkComponentSwizzle) -> bool {
    component.value() <= VkComponentSwizzle::VK_COMPONENT_SWIZZLE_A.value()
}

/// The channel that a Vulkan swizzle selects, where `identity` is the channel
/// in whose place it stands.
pub open spec fn swizzle_component_spec(
    component: VkComponentSwizzle,
    identity: Component,
) -> Component {
    match component {
        VkComponentSwizzle::VK_COMPONENT_SWIZZLE_IDENTITY => identity,
        VkComponentSwizzle::VK_COMPONENT_SWIZZLE_ZERO => Component::Zero,
        VkComponentSwizzle::VK_COMPONENT_SWIZZLE_ONE => Component::One,
        VkComponentSwizzle::VK_COMPONENT_SWIZZLE_R => Component::R,
        VkComponentSwizzle::VK_COMPONENT_SWIZZLE_G => Component::G,
        VkComponentSwizzle::VK_COMPONENT_SWIZZLE_B => Component::B,
        _ => Component::A,
    }
}

/// The swizzle of the abstraction layer for a Vulkan component mapping.
pub fn map_swizzle(components: VkComponentMapping) -> (r: Swizzle)
    requires
        swizzle_supported(components.r),
        swizzle_supported(components.g),
        swizzle_supported(components.b),
        swizzle_supported(components.a),
    ensures
        r.0 == swizzle_component_spec(components.r, Component::R),
        r.1 == swizzle_component_spec(components.g, Component::G),
        r.2 == swizzle_component_spec(components.b, Component::B),
        r.3 == swizzle_component_spec(components.a, Component::A),
{
    Swizzle(
        map_swizzle_component(components.r, Component::R),
        map_swizzle_component(components.g, Component::G),
        map_swizzle_component(components.b, Component::B),
        map_swizzle_component(components.a, Component::A),
    )
}

fn map_swizzle_component(component: VkComponentSwizzle, identity: Component) -> (r: Component)
    requires
        swizzle_supported(component),
    ensures
        r == swizzle_component_spec(component, identity),
{
    match component {
        VkComponentSwizzle::VK_COMPONENT_SWIZZLE_IDENTITY => identity,
        VkComponentSwizzle::VK_COMPONENT_SWIZZLE_ZERO => Component::Zero,
        VkComponentSwizzle::VK_COMPONENT_SWIZZLE_ONE => Component::One,
        VkComponentSwizzle::VK_COMPONENT_SWIZZLE_R => Component::R,
        VkComponentSwizzle::VK_COMPONENT_SWIZZLE_G => Component::G,
        VkComponentSwizzle::VK_COMPONENT_SWIZZLE_B => Component::B,
        _ => Component::A,
    }
}

/// The view capabilities for Vulkan image creation flags: the flags that the
/// abstraction layer knows, and no others.
pub fn map_image_create_flags(flags: VkImageCreateFlags) -> (r: image::ViewCapabilities)
    ensures
        r.bits == flags & image::ViewCapabilities::ALL,
{
    image::ViewCapabilities { bits: flags & image::ViewCapabilities::ALL }
}

/// Whether an image type is one of the three dimensionalities.
pub open spec fn image_type_supported(ty: VkImageType) -> bool {
    ty.value() <= VkImageType::VK_IMAGE_TYPE_3D.value()
}

/// The image kind of the abstraction layer for a Vulkan image type, extent,
/// layer count and sample count.
pub fn map_image_kind(
    ty: VkImageType,
    extent: VkExtent3D,
    array_layers: image::Layer,
    samples: VkSampleCountFlagBits,
) -> (r: image::Kind)
    requires
        array_layers != 0,
        image_type_supported(ty),
    ensures
        ty == VkImageType::VK_IMAGE_TYPE_1D ==> r == image::Kind::D1(extent.width, array_layers),
        ty == VkImageType::VK_IMAGE_TYPE_2D ==> r == image::Kind::D2(
            extent.width,
            extent.height,
            array_layers,
            samples.value() as u8,
        ),
        ty == VkImageType::VK_IMAGE_TYPE_3D ==> r == image::Kind::D3(
            extent.width,
            extent.height,
            extent.depth,
        ),
{
    match ty {
        VkImageType::VK_IMAGE_TYPE_1D => image::Kind::D1(extent.width, array_layers),
        VkImageType::VK_IMAGE_TYPE_2D => image::Kind::D2(
            extent.width,
            extent.height,
            array_layers,
            samples.as_raw() as u8,
        ),
        _ => image::Kind::D3(extent.width, extent.height, extent.depth),
    }
}

/// Whether an image view type is one of the seven view kinds.
pub open spec fn view_type_supported(ty: VkImageViewType) -> bool {
    ty.value() <= VkImageViewType::VK_IMAGE_VIEW_TYPE_CUBE_ARRAY.value()
}

pub open spec fn view_kind_spec(ty: VkImageViewType) -> image::ViewKind {
    match ty {
        VkImageViewType::VK_IMAGE_VIEW_TYPE_1D => image::ViewKind::D1,
        VkImageViewType::VK_IMAGE_VIEW_TYPE_1D_ARRAY => image::ViewKind::D1Array,
        VkImageViewType::VK_IMAGE_VIEW_TYPE_2D => image::ViewKind::D2,
        VkImageViewType::VK_IMAGE_VIEW_TYPE_2D_ARRAY => image::ViewKind::D2Array,
        VkImageViewType::VK_IMAGE_VIEW_TYPE_3D => image::ViewKind::D3,
        VkImageViewType::VK_IMAGE_VIEW_TYPE_CUBE => image::ViewKind::Cube,
        _ => image::ViewKind::CubeArray,
    }
}

pub fn map_view_kind(ty: VkImageViewType) -> (r: image::ViewKind)
    requires
        view_type_supported(ty),
    ensures
        r == view_kind_spec(ty),
{
    match ty {
        VkImageViewType::VK_IMAGE_VIEW_TYPE_1D => image::ViewKind::D1,
        VkImageViewType::VK_IMAGE_VIEW_TYPE_1D_ARRAY => image::ViewKind::D1Array,
        VkImageViewType::VK_IMAGE_VIEW_TYPE_2D => image::ViewKind::D2,
        VkImageViewType::VK_IMAGE_VIEW_TYPE_2D_ARRAY => image::ViewKind::D2Array,
        VkImageViewType::VK_IMAGE_VIEW_TYPE_3D => image::ViewKind::D3,
        VkImageViewType::VK_IMAGE_VIEW_TYPE_CUBE => image::ViewKind::Cube,
        _ => image::ViewKind::CubeArray,
    }
}

/// Whether an image layout is one that the abstraction layer knows.
pub open spec fn layout_supported(layout: VkImageLayout) -> bool {
    layout.value() <= VkImageLayout::VK_IMAGE_LAYOUT_PREINITIALIZED.value() || layout
        == VkImageLayout::VK_IMAGE_LAYOUT_PRESENT_SRC_KHR
}

pub open spec fn image_layout_spec(layout: VkImageLayout) -> image::Layout {
    match layout {
        VkImageLayout::VK_IMAGE_LAYOUT_UNDEFINED => image::Layout::Undefined,
        VkImageLayout::VK_IMAGE_LAYOUT_GENERAL => image::Layout::General,
        VkImageLayout::VK_IMAGE_LAYOUT_COLOR_ATTACHMENT_OPTIMAL => image::Layout::ColorAttachmentOptimal,
        VkImageLayout::VK_IMAGE_LAYOUT_DEPTH_STENCIL_ATTACHMENT_OPTIMAL => image::Layout::DepthStencilAttachmentOptimal,
        VkImageLayout::VK_IMAGE_LAYOUT_DEPTH_STENCIL_READ_ONLY_OPTIMAL => image::Layout::DepthStencilReadOnlyOptimal,
        VkImageLayout::VK_IMAGE_LAYOUT_SHADER_READ_ONLY_OPTIMAL => image::Layout::ShaderReadOnlyOptimal,
        VkImageLayout::VK_IMAGE_LAYOUT_TRANSFER_SRC_OPTIMAL => image::Layout::TransferSrcOptimal,
        VkImageLayout::VK_IMAGE_LAYOUT_TRANSFER_DST_OPTIMAL => image::Layout::TransferDstOptimal,
        VkImageLayout::VK_IMAGE_LAYOUT_PREINITIALIZED => image::Layout::Preinitialized,
        _ => image::Layout::Present,
    }
}

/// Whether the abstraction layer knows an image layout.
pub fn layout_is_supported(layout: VkImageLayout) -> (r: bool)
    ensures
        r == layout_supported(layout),
{
    layout.as_raw() <= VkImageLayout::VK_IMAGE_LAYOUT_PREINITIALIZED.as_raw() || layout.as_raw()
        == VkImageLayout::VK_IMAGE_LAYOUT_PRESENT_SRC_KHR.as_raw()
}

pub fn map_image_layout(layout: VkImageLayout) -> (r: image::Layout)
    requires
        layout_supported(layout),
    ensures
        r == image_layout_spec(layout),
{
    match layout {
        VkImageLayout::VK_IMAGE_LAYOUT_UNDEFINED => image::Layout::Undefined,
        VkImageLayout::VK_IMAGE_LAYOUT_GENERAL => image::Layout::General,
        VkImageLayout::VK_IMAGE_LAYOUT_COLOR_ATTACHMENT_OPTIMAL => image::Layout::ColorAttachmentOptimal,
        VkImageLayout::VK_IMAGE_LAYOUT_DEPTH_STENCIL_ATTACHMENT_OPTIMAL => image::Layout::DepthStencilAttachmentOptimal,
        VkImageLayout::VK_IMAGE_LAYOUT_DEPTH_STENCIL_READ_ONLY_OPTIMAL => image::Layout::DepthStencilReadOnlyOptimal,
        VkImageLayout::VK_IMAGE_LAYOUT_SHADER_READ_ONLY_OPTIMAL => image::Layout::ShaderReadOnlyOptimal,
        VkImageLayout::VK_IMAGE_LAYOUT_TRANSFER_SRC_OPTIMAL => image::Layout::TransferSrcOptimal,
        VkImageLayout::VK_IMAGE_LAYOUT_TRANSFER_DST_OPTIMAL => image::Layout::TransferDstOptimal,
        VkImageLayout::VK_IMAGE_LAYOUT_PREINITIALIZED => image::Layout::Preinitialized,
        _ => image::Layout::Present,
    }
}

/// The image usage for a Vulkan usage mask: the flags that the abstraction
/// layer knows, and no others.
pub fn map_image_usage(usage: VkImageUsageFlags) -> (r: image::Usage)
    ensures
        r.bits == usage & image::Usage::ALL,
{
    image::Usage { bits: usage & image::Usage::ALL }
}

/// The Vulkan usage mask for an image usage, which has the same bits.
pub fn map_image_usage_from_hal(usage: image::Usage) -> (r: VkImageUsageFlags)
    ensures
        r == usage.bits,
{
    usage.bits
}

/// Whether a descriptor type is one of the Vulkan 1.0 descriptor types.
pub open spec fn descriptor_type_supported(ty: VkDescriptorType) -> bool {
    ty.value() <= VkDescriptorType::VK_DESCRIPTOR_TYPE_INPUT_ATTACHMENT.value()
}

pub open spec fn descriptor_type_spec(ty: VkDescriptorType) -> pso::DescriptorType {
    match ty {
        VkDescriptorType::VK_DESCRIPTOR_TYPE_SAMPLER => pso::DescriptorType::Sampler,
        VkDescriptorType::VK_DESCRIPTOR_TYPE_SAMPLED_IMAGE => pso::DescriptorType::Image {
            ty: pso::ImageDescriptorType::Sampled { with_sampler: false },
        },
        VkDescriptorType::VK_DESCRIPTOR_TYPE_STORAGE_IMAGE => pso::DescriptorType::Image {
            ty: pso::ImageDescriptorType::Storage { read_only: false },
        },
        VkDescriptorType::VK_DESCRIPTOR_TYPE_UNIFORM_TEXEL_BUFFER => pso::DescriptorType::Buffer {
            ty: pso::BufferDescriptorType::Uniform,
            format: pso::BufferDescriptorFormat::Texel,
        },
        VkDescriptorType::VK_DESCRIPTOR_TYPE_STORAGE_TEXEL_BUFFER => pso::DescriptorType::Buffer {
            ty: pso::BufferDescriptorType::Storage { read_only: false },
            format: pso::BufferDescriptorFormat::Texel,
        },
        VkDescriptorType::VK_DESCRIPTOR_TYPE_UNIFORM_BUFFER => pso::DescriptorType::Buffer {
            ty: pso::BufferDescriptorType::Uniform,
            format: pso::BufferDescriptorFormat::Structured { dynamic_offset: false },
        },
        VkDescriptorType::VK_DESCRIPTOR_TYPE_STORAGE_BUFFER => pso::DescriptorType::Buffer {
            ty: pso::BufferDescriptorType::Storage { read_only: false },
            format: pso::BufferDescriptorFormat::Structured { dynamic_offset: false },
        },
        VkDescriptorType::VK_DESCRIPTOR_TYPE_INPUT_ATTACHMENT => pso::DescriptorType::InputAttachment,
        VkDescriptorType::VK_DESCRIPTOR_TYPE_COMBINED_IMAGE_SAMPLER => pso::DescriptorType::Image {
            ty: pso::ImageDescriptorType::Sampled { with_sampler: true },
        },
        VkDescriptorType::VK_DESCRIPTOR_TYPE_UNIFORM_BUFFER_DYNAMIC => pso::DescriptorType::Buffer {
            ty: pso::BufferDescriptorType::Uniform,
            format: pso::BufferDescriptorFormat::Structured { dynamic_offset: true },
        },
        _ => pso::DescriptorType::Buffer {
            ty: pso::BufferDescriptorType::Storage { read_only: false },
            format: pso::BufferDescriptorFormat::Structured { dynamic_offset: true },
        },
    }
}

/// Whether a descriptor type is one of the core Vulkan types.
pub fn descriptor_type_is_supported(ty: VkDescriptorType) -> (r: bool)
    ensures
        r == descriptor_type_supported(ty),
{
    ty.as_raw() <= VkDescriptorType::VK_DESCRIPTOR_TYPE_INPUT_ATTACHMENT.as_raw()
}

/// The descriptor type of the abstraction layer for a Vulkan descriptor type.
/// Storage descriptors are always writable in Vulkan, so none is read-only.
pub fn map_descriptor_type(ty: VkDescriptorType) -> (r: pso::DescriptorType)
    requires
        descriptor_type_supported(ty),
    ensures
        r == descriptor_type_spec(ty),
{
    match ty {
        VkDescriptorType::VK_DESCRIPTOR_TYPE_SAMPLER => pso::DescriptorType::Sampler,
        VkDescriptorType::VK_DESCRIPTOR_TYPE_SAMPLED_IMAGE => pso::DescriptorType::Image {
            ty: pso::ImageDescriptorType::Sampled { with_sampler: false },
        },
        VkDescriptorType::VK_DESCRIPTOR_TYPE_STORAGE_IMAGE => pso::DescriptorType::Image {
            ty: pso::ImageDescriptorType::Storage { read_only: false },
        },
        VkDescriptorType::VK_DESCRIPTOR_TYPE_UNIFORM_TEXEL_BUFFER => pso::DescriptorType::Buffer {
            ty: pso::BufferDescriptorType::Uniform,
            format: pso::BufferDescriptorFormat::Texel,
        },
        VkDescriptorType::VK_DESCRIPTOR_TYPE_STORAGE_TEXEL_BUFFER => pso::DescriptorType::Buffer {
            ty: pso::BufferDescriptorType::Storage { read_only: false },
            format: pso::BufferDescriptorFormat::Texel,
        },
        VkDescriptorType::VK_DESCRIPTOR_TYPE_UNIFORM_BUFFER => pso::DescriptorType::Buffer {
            ty: pso::BufferDescriptorType::Uniform,
            format: pso::BufferDescriptorFormat::Structured { dynamic_offset: false },
        },
        VkDescriptorType::VK_DESCRIPTOR_TYPE_STORAGE_BUFFER => pso::DescriptorType::Buffer {
            ty: pso::BufferDescriptorType::Storage { read_only: false },
            format: pso::BufferDescriptorFormat::Structured { dynamic_offset: false },
        },
        VkDescriptorType::VK_DESCRIPTOR_TYPE_INPUT_ATTACHMENT => pso::DescriptorType::InputAttachment,
        VkDescriptorType::VK_DESCRIPTOR_TYPE_COMBINED_IMAGE_SAMPLER => pso::DescriptorType::Image {
            ty: pso::ImageDescriptorType::Sampled { with_sampler: true },
        },
        VkDescriptorType::VK_DESCRIPTOR_TYPE_UNIFORM_BUFFER_DYNAMIC => pso::DescriptorType::Buffer {
            ty: pso::BufferDescriptorType::Uniform,
            format: pso::BufferDescriptorFormat::Structured { dynamic_offset: true },
        },
        _ => pso::DescriptorType::Buffer {
            ty: pso::BufferDescriptorType::Storage { read_only: false },
            format: pso::BufferDescriptorFormat::Structured { dynamic_offset: true },
        },
    }
}
/// The Vulkan format feature flags for the image features of a format.
pub open spec fn image_features_match(features: ImageFeature, r: VkFormatFeatureFlags) -> bool {
    &&& (r & VkFormatFeatureFlagBits::VK_FORMAT_FEATURE_SAMPLED_IMAGE_BIT.value() != 0) == (features.bits & ImageFeature::SAMPLED != 0)
    &&& (r & VkFormatFeatureFlagBits::VK_FORMAT_FEATURE_STORAGE_IMAGE_BIT.value() != 0) == (features.bits & ImageFeature::STORAGE != 0)
    &&& (r & VkFormatFeatureFlagBits::VK_FORMAT_FEATURE_STORAGE_IMAGE_ATOMIC_BIT.value() != 0) == (features.bits & ImageFeature::STORAGE_ATOMIC != 0)
    &&& (r & VkFormatFeatureFlagBits::VK_FORMAT_FEATURE_COLOR_ATTACHMENT_BIT.value() != 0) == (features.bits & ImageFeature::COLOR_ATTACHMENT != 0)
    &&& (r & VkFormatFeatureFlagBits::VK_FORMAT_FEATURE_COLOR_ATTACHMENT_BLEND_BIT.value() != 0) == (features.bits & ImageFeature::COLOR_ATTACHMENT_BLEND != 0)
    &&& (r & VkFormatFeatureFlagBits::VK_FORMAT_FEATURE_DEPTH_STENCIL_ATTACHMENT_BIT.value() != 0) == (features.bits & ImageFeature::DEPTH_STENCIL_ATTACHMENT != 0)
    &&& (r & VkFormatFeatureFlagBits::VK_FORMAT_FEATURE_BLIT_SRC_BIT.value() != 0) == (features.bits & ImageFeature::BLIT_SRC != 0)
    &&& (r & VkFormatFeatureFlagBits::VK_FORMAT_FEATURE_BLIT_DST_BIT.value() != 0) == (features.bits & ImageFeature::BLIT_DST != 0)
    &&& (r & VkFormatFeatureFlagBits::VK_FORMAT_FEATURE_SAMPLED_IMAGE_FILTER_LINEAR_BIT.value() != 0) == (features.bits & ImageFeature::SAMPLED_LINEAR != 0)
    &&& r & !0x1f87u32 == 0
}

/// The Vulkan format feature flags for the buffer features of a format.
pub open spec fn buffer_features_match(features: BufferFeature, r: VkFormatFeatureFlags) -> bool {
    &&& (r & VkFormatFeatureFlagBits::VK_FORMAT_FEATURE_UNIFORM_TEXEL_BUFFER_BIT.value() != 0) == (features.bits & BufferFeature::UNIFORM_TEXEL != 0)
    &&& (r & VkFormatFeatureFlagBits::VK_FORMAT_FEATURE_STORAGE_TEXEL_BUFFER_BIT.value() != 0) == (features.bits & BufferFeature::STORAGE_TEXEL != 0)
    &&& (r & VkFormatFeatureFlagBits::VK_FORMAT_FEATURE_STORAGE_TEXEL_BUFFER_ATOMIC_BIT.value() != 0) == (features.bits & BufferFeature::STORAGE_TEXEL_ATOMIC != 0)
    &&& (r & VkFormatFeatureFlagBits::VK_FORMAT_FEATURE_VERTEX_BUFFER_BIT.value() != 0) == (features.bits & BufferFeature::VERTEX != 0)
    &&& r & !0x78u32 == 0
}

/// The Vulkan memory property flags for the properties of a memory type.
pub open spec fn memory_properties_match(properties: memory::Properties, r: VkMemoryPropertyFlags) -> bool {
    &&& (r & VkMemoryPropertyFlagBits::VK_MEMORY_PROPERTY_DEVICE_LOCAL_BIT.value() != 0) == (properties.bits & memory::Properties::DEVICE_LOCAL != 0)
    &&& (r & VkMemoryPropertyFlagBits::VK_MEMORY_PROPERTY_HOST_COHERENT_BIT.value() != 0) == (properties.bits & memory::Properties::COHERENT != 0)
    &&& (r & VkMemoryPropertyFlagBits::VK_MEMORY_PROPERTY_HOST_VISIBLE_BIT.value() != 0) == (properties.bits & memory::Properties::CPU_VISIBLE != 0)
    &&& (r & VkMemoryPropertyFlagBits::VK_MEMORY_PROPERTY_HOST_CACHED_BIT.value() != 0) == (properties.bits & memory::Properties::CPU_CACHED != 0)
    &&& (r & VkMemoryPropertyFlagBits::VK_MEMORY_PROPERTY_LAZILY_ALLOCATED_BIT.value() != 0) == (properties.bits & memory::Properties::LAZILY_ALLOCATED != 0)
    &&& r & !0x1fu32 == 0
}

/// The aspects of the abstraction layer for a Vulkan aspect mask.
pub open spec fn aspect_match(aspects: VkImageAspectFlags, r: Aspects) -> bool {
    &&& (r.bits & Aspects::COLOR != 0) == (aspects & VkImageAspectFlagBits::VK_IMAGE_ASPECT_COLOR_BIT.value() != 0)
    &&& (r.bits & Aspects::DEPTH != 0) == (aspects & VkImageAspectFlagBits::VK_IMAGE_ASPECT_DEPTH_BIT.value() != 0)
    &&& (r.bits & Aspects::STENCIL != 0) == (aspects & VkImageAspectFlagBits::VK_IMAGE_ASPECT_STENCIL_BIT.value() != 0)
    &&& r.bits & !0x7u8 == 0
}

/// The image access flags of the abstraction layer for a Vulkan access mask.
pub open spec fn image_access_match(access: VkAccessFlags, r: image::Access) -> bool {
    &&& (r.bits & image::Access::INPUT_ATTACHMENT_READ != 0) == (access & VkAccessFlagBits::VK_ACCESS_INPUT_ATTACHMENT_READ_BIT.value() != 0)
    &&& (r.bits & image::Access::SHADER_READ != 0) == (access & VkAccessFlagBits::VK_ACCESS_SHADER_READ_BIT.value() != 0)
    &&& (r.bits & image::Access::SHADER_WRITE != 0) == (access & VkAccessFlagBits::VK_ACCESS_SHADER_WRITE_BIT.value() != 0)
    &&& (r.bits & image::Access::COLOR_ATTACHMENT_READ != 0) == (access & VkAccessFlagBits::VK_ACCESS_COLOR_ATTACHMENT_READ_BIT.value() != 0)
    &&& (r.bits & image::Access::COLOR_ATTACHMENT_WRITE != 0) == (access & VkAccessFlagBits::VK_ACCESS_COLOR_ATTACHMENT_WRITE_BIT.value() != 0)
    &&& (r.bits & image::Access::DEPTH_STENCIL_ATTACHMENT_READ != 0) == (access & VkAccessFlagBits::VK_ACCESS_DEPTH_STENCIL_ATTACHMENT_READ_BIT.value() != 0)
    &&& (r.bits & image::Access::DEPTH_STENCIL_ATTACHMENT_WRITE != 0) == (access & VkAccessFlagBits::VK_ACCESS_DEPTH_STENCIL_ATTACHMENT_WRITE_BIT.value() != 0)
    &&& (r.bits & image::Access::TRANSFER_READ != 0) == (access & VkAccessFlagBits::VK_ACCESS_TRANSFER_READ_BIT.value() != 0)
    &&& (r.bits & image::Access::TRANSFER_WRITE != 0) == (access & VkAccessFlagBits::VK_ACCESS_TRANSFER_WRITE_BIT.value() != 0)
    &&& (r.bits & image::Access::HOST_READ != 0) == (access & VkAccessFlagBits::VK_ACCESS_HOST_READ_BIT.value() != 0)
    &&& (r.bits & image::Access::HOST_WRITE != 0) == (access & VkAccessFlagBits::VK_ACCESS_HOST_WRITE_BIT.value() != 0)
    &&& (r.bits & image::Access::MEMORY_READ != 0) == (access & VkAccessFlagBits::VK_ACCESS_MEMORY_READ_BIT.value() != 0)
    &&& (r.bits & image::Access::MEMORY_WRITE != 0) == (access & VkAccessFlagBits::VK_ACCESS_MEMORY_WRITE_BIT.value() != 0)
    &&& r.bits & !0x1fff0u32 == 0
}

/// The buffer usage of the abstraction layer for a Vulkan buffer usage mask.
pub open spec fn buffer_usage_match(usage: VkBufferUsageFlags, r: buffer::Usage) -> bool {
    &&& (r.bits & buffer::Usage::TRANSFER_SRC != 0) == (usage & VkBufferUsageFlagBits::VK_BUFFER_USAGE_TRANSFER_SRC_BIT.value() != 0)
    &&& (r.bits & buffer::Usage::TRANSFER_DST != 0) == (usage & VkBufferUsageFlagBits::VK_BUFFER_USAGE_TRANSFER_DST_BIT.value() != 0)
    &&& (r.bits & buffer::Usage::UNIFORM_TEXEL != 0) == (usage & VkBufferUsageFlagBits::VK_BUFFER_USAGE_UNIFORM_TEXEL_BUFFER_BIT.value() != 0)
    &&& (r.bits & buffer::Usage::STORAGE_TEXEL != 0) == (usage & VkBufferUsageFlagBits::VK_BUFFER_USAGE_STORAGE_TEXEL_BUFFER_BIT.value() != 0)
    &&& (r.bits & buffer::Usage::UNIFORM != 0) == (usage & VkBufferUsageFlagBits::VK_BUFFER_USAGE_UNIFORM_BUFFER_BIT.value() != 0)
    &&& (r.bits & buffer::Usage::STORAGE != 0) == (usage & VkBufferUsageFlagBits::VK_BUFFER_USAGE_STORAGE_BUFFER_BIT.value() != 0)
    &&& (r.bits & buffer::Usage::INDEX != 0) == (usage & VkBufferUsageFlagBits::VK_BUFFER_USAGE_INDEX_BUFFER_BIT.value() != 0)
    &&& (r.bits & buffer::Usage::VERTEX != 0) == (usage & VkBufferUsageFlagBits::VK_BUFFER_USAGE_VERTEX_BUFFER_BIT.value() != 0)
    &&& (r.bits & buffer::Usage::INDIRECT != 0) == (usage & VkBufferUsageFlagBits::VK_BUFFER_USAGE_INDIRECT_BUFFER_BIT.value() != 0)
    &&& r.bits & !0x1ffu32 == 0
}

/// The buffer access flags of the abstraction layer for a Vulkan access mask.
pub open spec fn buffer_access_match(access: VkAccessFlags, r: buffer::Access) -> bool {
    &&& (r.bits & buffer::Access::INDEX_BUFFER_READ != 0) == (access & VkAccessFlagBits::VK_ACCESS_INDEX_READ_BIT.value() != 0)
    &&& (r.bits & buffer::Access::VERTEX_BUFFER_READ != 0) == (access & VkAccessFlagBits::VK_ACCESS_VERTEX_ATTRIBUTE_READ_BIT.value() != 0)
    &&& (r.bits & buffer::Access::UNIFORM_READ != 0) == (access & VkAccessFlagBits::VK_ACCESS_UNIFORM_READ_BIT.value() != 0)
    &&& (r.bits & buffer::Access::INDIRECT_COMMAND_READ != 0) == (access & VkAccessFlagBits::VK_ACCESS_INDIRECT_COMMAND_READ_BIT.value() != 0)
    &&& (r.bits & buffer::Access::SHADER_READ != 0) == (access & VkAccessFlagBits::VK_ACCESS_SHADER_READ_BIT.value() != 0)
    &&& (r.bits & buffer::Access::SHADER_WRITE != 0) == (access & VkAccessFlagBits::VK_ACCESS_SHADER_WRITE_BIT.value() != 0)
    &&& (r.bits & buffer::Access::TRANSFER_READ != 0) == (access & VkAccessFlagBits::VK_ACCESS_TRANSFER_READ_BIT.value() != 0)
    &&& (r.bits & buffer::Access::TRANSFER_WRITE != 0) == (access & VkAccessFlagBits::VK_ACCESS_TRANSFER_WRITE_BIT.value() != 0)
    &&& (r.bits & buffer::Access::HOST_READ != 0) == (access & VkAccessFlagBits::VK_ACCESS_HOST_READ_BIT.value() != 0)
    &&& (r.bits & buffer::Access::HOST_WRITE != 0) == (access & VkAccessFlagBits::VK_ACCESS_HOST_WRITE_BIT.value() != 0)
    &&& (r.bits & buffer::Access::MEMORY_READ != 0) == (access & VkAccessFlagBits::VK_ACCESS_MEMORY_READ_BIT.value() != 0)
    &&& (r.bits & buffer::Access::MEMORY_WRITE != 0) == (access & VkAccessFlagBits::VK_ACCESS_MEMORY_WRITE_BIT.value() != 0)
    &&& r.bits & !0x1f86fu32 == 0
}

/// The shader stages of the abstraction layer for a Vulkan shader stage mask.
pub open spec fn stage_flags_match(stages: VkShaderStageFlags, r: pso::ShaderStageFlags) -> bool {
    &&& (r.bits & pso::ShaderStageFlags::VERTEX != 0) == (stages & VkShaderStageFlagBits::VK_SHADER_STAGE_VERTEX_BIT.value() != 0)
    &&& (r.bits & pso::ShaderStageFlags::HULL != 0) == (stages & VkShaderStageFlagBits::VK_SHADER_STAGE_TESSELLATION_CONTROL_BIT.value() != 0)
    &&& (r.bits & pso::ShaderStageFlags::DOMAIN != 0) == (stages & VkShaderStageFlagBits::VK_SHADER_STAGE_TESSELLATION_EVALUATION_BIT.value() != 0)
    &&& (r.bits & pso::ShaderStageFlags::GEOMETRY != 0) == (stages & VkShaderStageFlagBits::VK_SHADER_STAGE_GEOMETRY_BIT.value() != 0)
    &&& (r.bits & pso::ShaderStageFlags::FRAGMENT != 0) == (stages & VkShaderStageFlagBits::VK_SHADER_STAGE_FRAGMENT_BIT.value() != 0)
    &&& (r.bits & pso::ShaderStageFlags::COMPUTE != 0) == (stages & VkShaderStageFlagBits::VK_SHADER_STAGE_COMPUTE_BIT.value() != 0)
    &&& r.bits & !0x3fu32 == 0
}

/// The Vulkan format feature flags for the image features of a format.
#[verifier::rlimit(50)]
pub fn image_features_from_hal(features: ImageFeature) -> (r: VkFormatFeatureFlags)
    ensures
        image_features_match(features, r),
{
    let flags: u32 = (if features.bits & ImageFeature::SAMPLED != 0 { VkFormatFeatureFlagBits::VK_FORMAT_FEATURE_SAMPLED_IMAGE_BIT.as_raw() } else { 0 })
        | (if features.bits & ImageFeature::STORAGE != 0 { VkFormatFeatureFlagBits::VK_FORMAT_FEATURE_STORAGE_IMAGE_BIT.as_raw() } else { 0 })
        | (if features.bits & ImageFeature::STORAGE_ATOMIC != 0 { VkFormatFeatureFlagBits::VK_FORMAT_FEATURE_STORAGE_IMAGE_ATOMIC_BIT.as_raw() } else { 0 })
        | (if features.bits & ImageFeature::COLOR_ATTACHMENT != 0 { VkFormatFeatureFlagBits::VK_FORMAT_FEATURE_COLOR_ATTACHMENT_BIT.as_raw() } else { 0 })
        | (if features.bits & ImageFeature::COLOR_ATTACHMENT_BLEND != 0 { VkFormatFeatureFlagBits::VK_FORMAT_FEATURE_COLOR_ATTACHMENT_BLEND_BIT.as_raw() } else { 0 })
        | (if features.bits & ImageFeature::DEPTH_STENCIL_ATTACHMENT != 0 { VkFormatFeatureFlagBits::VK_FORMAT_FEATURE_DEPTH_STENCIL_ATTACHMENT_BIT.as_raw() } else { 0 })
        | (if features.bits & ImageFeature::BLIT_SRC != 0 { VkFormatFeatureFlagBits::VK_FORMAT_FEATURE_BLIT_SRC_BIT.as_raw() } else { 0 })
        | (if features.bits & ImageFeature::BLIT_DST != 0 { VkFormatFeatureFlagBits::VK_FORMAT_FEATURE_BLIT_DST_BIT.as_raw() } else { 0 })
        | (if features.bits & ImageFeature::SAMPLED_LINEAR != 0 { VkFormatFeatureFlagBits::VK_FORMAT_FEATURE_SAMPLED_IMAGE_FILTER_LINEAR_BIT.as_raw() } else { 0 });
    let ghost x = features.bits;
    let ghost f = flags;
    assert({
        &&& (f & 0x1u32 != 0) == (x & 0x1u32 != 0)
        &&& (f & 0x2u32 != 0) == (x & 0x2u32 != 0)
        &&& (f & 0x4u32 != 0) == (x & 0x4u32 != 0)
        &&& (f & 0x80u32 != 0) == (x & 0x80u32 != 0)
        &&& (f & 0x100u32 != 0) == (x & 0x100u32 != 0)
        &&& (f & 0x200u32 != 0) == (x & 0x200u32 != 0)
        &&& (f & 0x400u32 != 0) == (x & 0x400u32 != 0)
        &&& (f & 0x800u32 != 0) == (x & 0x800u32 != 0)
        &&& (f & 0x1000u32 != 0) == (x & 0x1000u32 != 0)
        &&& f & !0x1f87u32 == 0
    }) by (bit_vector)
        requires
            f == (if x & 0x1u32 != 0 { 0x1u32 } else { 0u32 })
                | (if x & 0x2u32 != 0 { 0x2u32 } else { 0u32 })
                | (if x & 0x4u32 != 0 { 0x4u32 } else { 0u32 })
                | (if x & 0x80u32 != 0 { 0x80u32 } else { 0u32 })
                | (if x & 0x100u32 != 0 { 0x100u32 } else { 0u32 })
                | (if x & 0x200u32 != 0 { 0x200u32 } else { 0u32 })
                | (if x & 0x400u32 != 0 { 0x400u32 } else { 0u32 })
                | (if x & 0x800u32 != 0 { 0x800u32 } else { 0u32 })
                | (if x & 0x1000u32 != 0 { 0x1000u32 } else { 0u32 }),
    ;
    flags
}

/// The Vulkan format feature flags for the buffer features of a format.
#[verifier::rlimit(50)]
pub fn buffer_features_from_hal(features: BufferFeature) -> (r: VkFormatFeatureFlags)
    ensures
        buffer_features_match(features, r),
{
    let flags: u32 = (if features.bits & BufferFeature::UNIFORM_TEXEL != 0 { VkFormatFeatureFlagBits::VK_FORMAT_FEATURE_UNIFORM_TEXEL_BUFFER_BIT.as_raw() } else { 0 })
        | (if features.bits & BufferFeature::STORAGE_TEXEL != 0 { VkFormatFeatureFlagBits::VK_FORMAT_FEATURE_STORAGE_TEXEL_BUFFER_BIT.as_raw() } else { 0 })
        | (if features.bits & BufferFeature::STORAGE_TEXEL_ATOMIC != 0 { VkFormatFeatureFlagBits::VK_FORMAT_FEATURE_STORAGE_TEXEL_BUFFER_ATOMIC_BIT.as_raw() } else { 0 })
        | (if features.bits & BufferFeature::VERTEX != 0 { VkFormatFeatureFlagBits::VK_FORMAT_FEATURE_VERTEX_BUFFER_BIT.as_raw() } else { 0 });
    let ghost x = features.bits;
    let ghost f = flags;
    assert({
        &&& (f & 0x8u32 != 0) == (x & 0x8u32 != 0)
        &&& (f & 0x10u32 != 0) == (x & 0x10u32 != 0)
        &&& (f & 0x20u32 != 0) == (x & 0x20u32 != 0)
        &&& (f & 0x40u32 != 0) == (x & 0x40u32 != 0)
        &&& f & !0x78u32 == 0
    }) by (bit_vector)
        requires
            f == (if x & 0x8u32 != 0 { 0x8u32 } else { 0u32 })
                | (if x & 0x10u32 != 0 { 0x10u32 } else { 0u32 })
                | (if x & 0x20u32 != 0 { 0x20u32 } else { 0u32 })
                | (if x & 0x40u32 != 0 { 0x40u32 } else { 0u32 }),
    ;
    flags
}

/// The Vulkan memory property flags for the properties of a memory type.
#[verifier::rlimit(50)]
pub fn memory_properties_from_hal(properties: memory::Properties) -> (r: VkMemoryPropertyFlags)
    ensures
        memory_properties_match(properties, r),
{
    let flags: u32 = (if properties.bits & memory::Properties::DEVICE_LOCAL != 0 { VkMemoryPropertyFlagBits::VK_MEMORY_PROPERTY_DEVICE_LOCAL_BIT.as_raw() } else { 0 })
        | (if properties.bits & memory::Properties::COHERENT != 0 { VkMemoryPropertyFlagBits::VK_MEMORY_PROPERTY_HOST_COHERENT_BIT.as_raw() } else { 0 })
        | (if properties.bits & memory::Properties::CPU_VISIBLE != 0 { VkMemoryPropertyFlagBits::VK_MEMORY_PROPERTY_HOST_VISIBLE_BIT.as_raw() } else { 0 })
        | (if properties.bits & memory::Properties::CPU_CACHED != 0 { VkMemoryPropertyFlagBits::VK_MEMORY_PROPERTY_HOST_CACHED_BIT.as_raw() } else { 0 })
        | (if properties.bits & memory::Properties::LAZILY_ALLOCATED != 0 { VkMemoryPropertyFlagBits::VK_MEMORY_PROPERTY_LAZILY_ALLOCATED_BIT.as_raw() } else { 0 });
    let ghost x = properties.bits;
    let ghost f = flags;
    assert({
        &&& (f & 0x1u32 != 0) == (x & 0x1u16 != 0)
        &&& (f & 0x4u32 != 0) == (x & 0x4u16 != 0)
        &&& (f & 0x2u32 != 0) == (x & 0x2u16 != 0)
        &&& (f & 0x8u32 != 0) == (x & 0x8u16 != 0)
        &&& (f & 0x10u32 != 0) == (x & 0x10u16 != 0)
        &&& f & !0x1fu32 == 0
    }) by (bit_vector)
        requires
            f == (if x & 0x1u16 != 0 { 0x1u32 } else { 0u32 })
                | (if x & 0x4u16 != 0 { 0x4u32 } else { 0u32 })
                | (if x & 0x2u16 != 0 { 0x2u32 } else { 0u32 })
                | (if x & 0x8u16 != 0 { 0x8u32 } else { 0u32 })
                | (if x & 0x10u16 != 0 { 0x10u32 } else { 0u32 }),
    ;
    flags
}

/// The aspects of the abstraction layer for a Vulkan aspect mask.
/// The metadata aspect has no counterpart.
#[verifier::rlimit(50)]
pub fn map_aspect(aspects: VkImageAspectFlags) -> (r: Aspects)
    requires
        aspects & VkImageAspectFlagBits::VK_IMAGE_ASPECT_METADATA_BIT.value() == 0,
    ensures
        aspect_match(aspects, r),
{
    let flags: u8 = (if aspects & VkImageAspectFlagBits::VK_IMAGE_ASPECT_COLOR_BIT.as_raw() != 0 { Aspects::COLOR } else { 0 })
        | (if aspects & VkImageAspectFlagBits::VK_IMAGE_ASPECT_DEPTH_BIT.as_raw() != 0 { Aspects::DEPTH } else { 0 })
        | (if aspects & VkImageAspectFlagBits::VK_IMAGE_ASPECT_STENCIL_BIT.as_raw() != 0 { Aspects::STENCIL } else { 0 });
    let ghost x = aspects;
    let ghost f = flags;
    assert({
        &&& (f & 0x1u8 != 0) == (x & 0x1u32 != 0)
        &&& (f & 0x2u8 != 0) == (x & 0x2u32 != 0)
        &&& (f & 0x4u8 != 0) == (x & 0x4u32 != 0)
        &&& f & !0x7u8 == 0
    }) by (bit_vector)
        requires
            f == (if x & 0x1u32 != 0 { 0x1u8 } else { 0u8 })
                | (if x & 0x2u32 != 0 { 0x2u8 } else { 0u8 })
                | (if x & 0x4u32 != 0 { 0x4u8 } else { 0u8 }),
    ;
    Aspects { bits: flags }
}

/// The image access flags of the abstraction layer for a Vulkan access mask.
#[verifier::rlimit(50)]
pub fn map_image_access(access: VkAccessFlags) -> (r: image::Access)
    ensures
        image_access_match(access, r),
{
    let flags: u32 = (if access & VkAccessFlagBits::VK_ACCESS_INPUT_ATTACHMENT_READ_BIT.as_raw() != 0 { image::Access::INPUT_ATTACHMENT_READ } else { 0 })
        | (if access & VkAccessFlagBits::VK_ACCESS_SHADER_READ_BIT.as_raw() != 0 { image::Access::SHADER_READ } else { 0 })
        | (if access & VkAccessFlagBits::VK_ACCESS_SHADER_WRITE_BIT.as_raw() != 0 { image::Access::SHADER_WRITE } else { 0 })
        | (if access & VkAccessFlagBits::VK_ACCESS_COLOR_ATTACHMENT_READ_BIT.as_raw() != 0 { image::Access::COLOR_ATTACHMENT_READ } else { 0 })
        | (if access & VkAccessFlagBits::VK_ACCESS_COLOR_ATTACHMENT_WRITE_BIT.as_raw() != 0 { image::Access::COLOR_ATTACHMENT_WRITE } else { 0 })
        | (if access & VkAccessFlagBits::VK_ACCESS_DEPTH_STENCIL_ATTACHMENT_READ_BIT.as_raw() != 0 { image::Access::DEPTH_STENCIL_ATTACHMENT_READ } else { 0 })
        | (if access & VkAccessFlagBits::VK_ACCESS_DEPTH_STENCIL_ATTACHMENT_WRITE_BIT.as_raw() != 0 { image::Access::DEPTH_STENCIL_ATTACHMENT_WRITE } else { 0 })
        | (if access & VkAccessFlagBits::VK_ACCESS_TRANSFER_READ_BIT.as_raw() != 0 { image::Access::TRANSFER_READ } else { 0 })
        | (if access & VkAccessFlagBits::VK_ACCESS_TRANSFER_WRITE_BIT.as_raw() != 0 { image::Access::TRANSFER_WRITE } else { 0 })
        | (if access & VkAccessFlagBits::VK_ACCESS_HOST_READ_BIT.as_raw() != 0 { image::Access::HOST_READ } else { 0 })
        | (if access & VkAccessFlagBits::VK_ACCESS_HOST_WRITE_BIT.as_raw() != 0 { image::Access::HOST_WRITE } else { 0 })
        | (if access & VkAccessFlagBits::VK_ACCESS_MEMORY_READ_BIT.as_raw() != 0 { image::Access::MEMORY_READ } else { 0 })
        | (if access & VkAccessFlagBits::VK_ACCESS_MEMORY_WRITE_BIT.as_raw() != 0 { image::Access::MEMORY_WRITE } else { 0 });
    let ghost x = access;
    let ghost f = flags;
    assert({
        &&& (f & 0x10u32 != 0) == (x & 0x10u32 != 0)
        &&& (f & 0x20u32 != 0) == (x & 0x20u32 != 0)
        &&& (f & 0x40u32 != 0) == (x & 0x40u32 != 0)
        &&& (f & 0x80u32 != 0) == (x & 0x80u32 != 0)
        &&& (f & 0x100u32 != 0) == (x & 0x100u32 != 0)
        &&& (f & 0x200u32 != 0) == (x & 0x200u32 != 0)
        &&& (f & 0x400u32 != 0) == (x & 0x400u32 != 0)
        &&& (f & 0x800u32 != 0) == (x & 0x800u32 != 0)
        &&& (f & 0x1000u32 != 0) == (x & 0x1000u32 != 0)
        &&& (f & 0x2000u32 != 0) == (x & 0x2000u32 != 0)
        &&& (f & 0x4000u32 != 0) == (x & 0x4000u32 != 0)
        &&& (f & 0x8000u32 != 0) == (x & 0x8000u32 != 0)
        &&& (f & 0x10000u32 != 0) == (x & 0x10000u32 != 0)
        &&& f & !0x1fff0u32 == 0
    }) by (bit_vector)
        requires
            f == (if x & 0x10u32 != 0 { 0x10u32 } else { 0u32 })
                | (if x & 0x20u32 != 0 { 0x20u32 } else { 0u32 })
                | (if x & 0x40u32 != 0 { 0x40u32 } else { 0u32 })
                | (if x & 0x80u32 != 0 { 0x80u32 } else { 0u32 })
                | (if x & 0x100u32 != 0 { 0x100u32 } else { 0u32 })
                | (if x & 0x200u32 != 0 { 0x200u32 } else { 0u32 })
                | (if x & 0x400u32 != 0 { 0x400u32 } else { 0u32 })
                | (if x & 0x800u32 != 0 { 0x800u32 } else { 0u32 })
                | (if x & 0x1000u32 != 0 { 0x1000u32 } else { 0u32 })
                | (if x & 0x2000u32 != 0 { 0x2000u32 } else { 0u32 })
                | (if x & 0x4000u32 != 0 { 0x4000u32 } else { 0u32 })
                | (if x & 0x8000u32 != 0 { 0x8000u32 } else { 0u32 })
                | (if x & 0x10000u32 != 0 { 0x10000u32 } else { 0u32 }),
    ;
    image::Access { bits: flags }
}

/// The buffer usage of the abstraction layer for a Vulkan buffer usage mask.
#[verifier::rlimit(50)]
pub fn map_buffer_usage(usage: VkBufferUsageFlags) -> (r: buffer::Usage)
    ensures
        buffer_usage_match(usage, r),
{
    let flags: u32 = (if usage & VkBufferUsageFlagBits::VK_BUFFER_USAGE_TRANSFER_SRC_BIT.as_raw() != 0 { buffer::Usage::TRANSFER_SRC } else { 0 })
        | (if usage & VkBufferUsageFlagBits::VK_BUFFER_USAGE_TRANSFER_DST_BIT.as_raw() != 0 { buffer::Usage::TRANSFER_DST } else { 0 })
        | (if usage & VkBufferUsageFlagBits::VK_BUFFER_USAGE_UNIFORM_TEXEL_BUFFER_BIT.as_raw() != 0 { buffer::Usage::UNIFORM_TEXEL } else { 0 })
        | (if usage & VkBufferUsageFlagBits::VK_BUFFER_USAGE_STORAGE_TEXEL_BUFFER_BIT.as_raw() != 0 { buffer::Usage::STORAGE_TEXEL } else { 0 })
        | (if usage & VkBufferUsageFlagBits::VK_BUFFER_USAGE_UNIFORM_BUFFER_BIT.as_raw() != 0 { buffer::Usage::UNIFORM } else { 0 })
        | (if usage & VkBufferUsageFlagBits::VK_BUFFER_USAGE_STORAGE_BUFFER_BIT.as_raw() != 0 { buffer::Usage::STORAGE } else { 0 })
        | (if usage & VkBufferUsageFlagBits::VK_BUFFER_USAGE_INDEX_BUFFER_BIT.as_raw() != 0 { buffer::Usage::INDEX } else { 0 })
        | (if usage & VkBufferUsageFlagBits::VK_BUFFER_USAGE_VERTEX_BUFFER_BIT.as_raw() != 0 { buffer::Usage::VERTEX } else { 0 })
        | (if usage & VkBufferUsageFlagBits::VK_BUFFER_USAGE_INDIRECT_BUFFER_BIT.as_raw() != 0 { buffer::Usage::INDIRECT } else { 0 });
    let ghost x = usage;
    let ghost f = flags;
    assert({
        &&& (f & 0x1u32 != 0) == (x & 0x1u32 != 0)
        &&& (f & 0x2u32 != 0) == (x & 0x2u32 != 0)
        &&& (f & 0x4u32 != 0) == (x & 0x4u32 != 0)
        &&& (f & 0x8u32 != 0) == (x & 0x8u32 != 0)
        &&& (f & 0x10u32 != 0) == (x & 0x10u32 != 0)
        &&& (f & 0x20u32 != 0) == (x & 0x20u32 != 0)
        &&& (f & 0x40u32 != 0) == (x & 0x40u32 != 0)
        &&& (f & 0x80u32 != 0) == (x & 0x80u32 != 0)
        &&& (f & 0x100u32 != 0) == (x & 0x100u32 != 0)
        &&& f & !0x1ffu32 == 0
    }) by (bit_vector)
        requires
            f == (if x & 0x1u32 != 0 { 0x1u32 } else { 0u32 })
                | (if x & 0x2u32 != 0 { 0x2u32 } else { 0u32 })
                | (if x & 0x4u32 != 0 { 0x4u32 } else { 0u32 })
                | (if x & 0x8u32 != 0 { 0x8u32 } else { 0u32 })
                | (if x & 0x10u32 != 0 { 0x10u32 } else { 0u32 })
                | (if x & 0x20u32 != 0 { 0x20u32 } else { 0u32 })
                | (if x & 0x40u32 != 0 { 0x40u32 } else { 0u32 })
                | (if x & 0x80u32 != 0 { 0x80u32 } else { 0u32 })
                | (if x & 0x100u32 != 0 { 0x100u32 } else { 0u32 }),
    ;
    buffer::Usage { bits: flags }
}

/// The buffer access flags of the abstraction layer for a Vulkan access mask.
#[verifier::rlimit(50)]
pub fn map_buffer_access(access: VkAccessFlags) -> (r: buffer::Access)
    ensures
        buffer_access_match(access, r),
{
    let flags: u32 = (if access & VkAccessFlagBits::VK_ACCESS_INDEX_READ_BIT.as_raw() != 0 { buffer::Access::INDEX_BUFFER_READ } else { 0 })
        | (if access & VkAccessFlagBits::VK_ACCESS_VERTEX_ATTRIBUTE_READ_BIT.as_raw() != 0 { buffer::Access::VERTEX_BUFFER_READ } else { 0 })
        | (if access & VkAccessFlagBits::VK_ACCESS_UNIFORM_READ_BIT.as_raw() != 0 { buffer::Access::UNIFORM_READ } else { 0 })
        | (if access & VkAccessFlagBits::VK_ACCESS_INDIRECT_COMMAND_READ_BIT.as_raw() != 0 { buffer::Access::INDIRECT_COMMAND_READ } else { 0 })
        | (if access & VkAccessFlagBits::VK_ACCESS_SHADER_READ_BIT.as_raw() != 0 { buffer::Access::SHADER_READ } else { 0 })
        | (if access & VkAccessFlagBits::VK_ACCESS_SHADER_WRITE_BIT.as_raw() != 0 { buffer::Access::SHADER_WRITE } else { 0 })
        | (if access & VkAccessFlagBits::VK_ACCESS_TRANSFER_READ_BIT.as_raw() != 0 { buffer::Access::TRANSFER_READ } else { 0 })
        | (if access & VkAccessFlagBits::VK_ACCESS_TRANSFER_WRITE_BIT.as_raw() != 0 { buffer::Access::TRANSFER_WRITE } else { 0 })
        | (if access & VkAccessFlagBits::VK_ACCESS_HOST_READ_BIT.as_raw() != 0 { buffer::Access::HOST_READ } else { 0 })
        | (if access & VkAccessFlagBits::VK_ACCESS_HOST_WRITE_BIT.as_raw() != 0 { buffer::Access::HOST_WRITE } else { 0 })
        | (if access & VkAccessFlagBits::VK_ACCESS_MEMORY_READ_BIT.as_raw() != 0 { buffer::Access::MEMORY_READ } else { 0 })
        | (if access & VkAccessFlagBits::VK_ACCESS_MEMORY_WRITE_BIT.as_raw() != 0 { buffer::Access::MEMORY_WRITE } else { 0 });
    let ghost x = access;
    let ghost f = flags;
    assert({
        &&& (f & 0x2u32 != 0) == (x & 0x2u32 != 0)
        &&& (f & 0x4u32 != 0) == (x & 0x4u32 != 0)
        &&& (f & 0x8u32 != 0) == (x & 0x8u32 != 0)
        &&& (f & 0x1u32 != 0) == (x & 0x1u32 != 0)
        &&& (f & 0x20u32 != 0) == (x & 0x20u32 != 0)
        &&& (f & 0x40u32 != 0) == (x & 0x40u32 != 0)
        &&& (f & 0x800u32 != 0) == (x & 0x800u32 != 0)
        &&& (f & 0x1000u32 != 0) == (x & 0x1000u32 != 0)
        &&& (f & 0x2000u32 != 0) == (x & 0x2000u32 != 0)
        &&& (f & 0x4000u32 != 0) == (x & 0x4000u32 != 0)
        &&& (f & 0x8000u32 != 0) == (x & 0x8000u32 != 0)
        &&& (f & 0x10000u32 != 0) == (x & 0x10000u32 != 0)
        &&& f & !0x1f86fu32 == 0
    }) by (bit_vector)
        requires
            f == (if x & 0x2u32 != 0 { 0x2u32 } else { 0u32 })
                | (if x & 0x4u32 != 0 { 0x4u32 } else { 0u32 })
                | (if x & 0x8u32 != 0 { 0x8u32 } else { 0u32 })
                | (if x & 0x1u32 != 0 { 0x1u32 } else { 0u32 })
                | (if x & 0x20u32 != 0 { 0x20u32 } else { 0u32 })
                | (if x & 0x40u32 != 0 { 0x40u32 } else { 0u32 })
                | (if x & 0x800u32 != 0 { 0x800u32 } else { 0u32 })
                | (if x & 0x1000u32 != 0 { 0x1000u32 } else { 0u32 })
                | (if x & 0x2000u32 != 0 { 0x2000u32 } else { 0u32 })
                | (if x & 0x4000u32 != 0 { 0x4000u32 } else { 0u32 })
                | (if x & 0x8000u32 != 0 { 0x8000u32 } else { 0u32 })
                | (if x & 0x10000u32 != 0 { 0x10000u32 } else { 0u32 }),
    ;
    buffer::Access { bits: flags }
}

/// The shader stages of the abstraction layer for a Vulkan shader stage mask.
#[verifier::rlimit(50)]
pub fn map_stage_flags(stages: VkShaderStageFlags) -> (r: pso::ShaderStageFlags)
    ensures
        stage_flags_match(stages, r),
{
    let flags: u32 = (if stages & VkShaderStageFlagBits::VK_SHADER_STAGE_VERTEX_BIT.as_raw() != 0 { pso::ShaderStageFlags::VERTEX } else { 0 })
        | (if stages & VkShaderStageFlagBits::VK_SHADER_STAGE_TESSELLATION_CONTROL_BIT.as_raw() != 0 { pso::ShaderStageFlags::HULL } else { 0 })
        | (if stages & VkShaderStageFlagBits::VK_SHADER_STAGE_TESSELLATION_EVALUATION_BIT.as_raw() != 0 { pso::ShaderStageFlags::DOMAIN } else { 0 })
        | (if stages & VkShaderStageFlagBits::VK_SHADER_STAGE_GEOMETRY_BIT.as_raw() != 0 { pso::ShaderStageFlags::GEOMETRY } else { 0 })
        | (if stages & VkShaderStageFlagBits::VK_SHADER_STAGE_FRAGMENT_BIT.as_raw() != 0 { pso::ShaderStageFlags::FRAGMENT } else { 0 })
        | (if stages & VkShaderStageFlagBits::VK_SHADER_STAGE_COMPUTE_BIT.as_raw() != 0 { pso::ShaderStageFlags::COMPUTE } else { 0 });
    let ghost x = stages;
    let ghost f = flags;
    assert({
        &&& (f & 0x1u32 != 0) == (x & 0x1u32 != 0)
        &&& (f & 0x2u32 != 0) == (x & 0x2u32 != 0)
        &&& (f & 0x4u32 != 0) == (x & 0x4u32 != 0)
        &&& (f & 0x8u32 != 0) == (x & 0x8u32 != 0)
        &&& (f & 0x10u32 != 0) == (x & 0x10u32 != 0)
        &&& (f & 0x20u32 != 0) == (x & 0x20u32 != 0)
        &&& f & !0x3fu32 == 0
    }) by (bit_vector)
        requires
            f == (if x & 0x1u32 != 0 { 0x1u32 } else { 0u32 })
                | (if x & 0x2u32 != 0 { 0x2u32 } else { 0u32 })
                | (if x & 0x4u32 != 0 { 0x4u32 } else { 0u32 })
                | (if x & 0x8u32 != 0 { 0x8u32 } else { 0u32 })
                | (if x & 0x10u32 != 0 { 0x10u32 } else { 0u32 })
                | (if x & 0x20u32 != 0 { 0x20u32 } else { 0u32 }),
    ;
    pso::ShaderStageFlags { bits: flags }
}

/// The pipeline stages of the abstraction layer for a Vulkan stage mask. The
/// two numberings agree up to the host stage; a mask with any later stage
/// (all graphics, all commands, command processing) becomes every stage.
pub fn map_pipeline_stage_flags(stages: VkPipelineStageFlags) -> (r: pso::PipelineStage)
    ensures
        stages <= pso::PipelineStage::ALL ==> r.bits == stages,
        stages > pso::PipelineStage::ALL ==> r.bits == pso::PipelineStage::ALL,
{
    let max_flag = VkPipelineStageFlagBits::VK_PIPELINE_STAGE_HOST_BIT.as_raw();
    assert(0x4000u32 << 1u32 == 0x8000u32) by (bit_vector);
    assert(stages & !0x7fffu32 == 0 <==> stages <= 0x7fff) by (bit_vector);
    if (stages & !((max_flag << 1) - 1)) == 0 {
        pso::PipelineStage { bits: stages }
    } else {
        pso::PipelineStage { bits: pso::PipelineStage::ALL }
    }
}

/// The dependency flags of the abstraction layer for a Vulkan dependency
/// mask. Only the by-region flag is carried over; any other flag makes the
/// result every flag.
pub fn map_dependency_flags(dependencies: VkDependencyFlags) -> (r: memory::Dependencies)
    ensures
        dependencies <= memory::Dependencies::BY_REGION ==> r.bits == dependencies,
        dependencies > memory::Dependencies::BY_REGION ==> r.bits == memory::Dependencies::ALL,
{
    let max_flag = VkDependencyFlagBits::VK_DEPENDENCY_BY_REGION_BIT.as_raw();
    assert(1u32 << 1u32 == 2u32) by (bit_vector);
    assert(dependencies & !1u32 == 0 <==> dependencies <= 1) by (bit_vector);
    if (dependencies & !((max_flag << 1) - 1)) == 0 {
        memory::Dependencies { bits: dependencies }
    } else {
        memory::Dependencies { bits: memory::Dependencies::ALL }
    }
}

/// The Vulkan error code for a failure to create a logical device.
pub open spec fn device_creation_error_spec(err: device::CreationError) -> VkResult {
    match err {
        device::CreationError::OutOfMemory(device::OutOfMemory::Host) => VkResult::VK_ERROR_OUT_OF_HOST_MEMORY,
        device::CreationError::OutOfMemory(device::OutOfMemory::Device) => VkResult::VK_ERROR_OUT_OF_DEVICE_MEMORY,
        device::CreationError::InitializationFailed => VkResult::VK_ERROR_INITIALIZATION_FAILED,
        device::CreationError::MissingExtension => VkResult::VK_ERROR_EXTENSION_NOT_PRESENT,
        device::CreationError::MissingFeature => VkResult::VK_ERROR_FEATURE_NOT_PRESENT,
        device::CreationError::TooManyObjects => VkResult::VK_ERROR_TOO_MANY_OBJECTS,
        device::CreationError::DeviceLost => VkResult::VK_ERROR_DEVICE_LOST,
    }
}

pub fn map_err_device_creation(err: device::CreationError) -> (r: VkResult)
    ensures
        r == device_creation_error_spec(err),
{
    match err {
        device::CreationError::OutOfMemory(device::OutOfMemory::Host) => VkResult::VK_ERROR_OUT_OF_HOST_MEMORY,
        device::CreationError::OutOfMemory(device::OutOfMemory::Device) => VkResult::VK_ERROR_OUT_OF_DEVICE_MEMORY,
        device::CreationError::InitializationFailed => VkResult::VK_ERROR_INITIALIZATION_FAILED,
        device::CreationError::MissingExtension => VkResult::VK_ERROR_EXTENSION_NOT_PRESENT,
        device::CreationError::MissingFeature => VkResult::VK_ERROR_FEATURE_NOT_PRESENT,
        device::CreationError::TooManyObjects => VkResult::VK_ERROR_TOO_MANY_OBJECTS,
        device::CreationError::DeviceLost => VkResult::VK_ERROR_DEVICE_LOST,
    }
}

pub fn map_attachment_load_op(op: VkAttachmentLoadOp) -> (r: pass::AttachmentLoadOp)
    requires
        op.value() <= VkAttachmentLoadOp::VK_ATTACHMENT_LOAD_OP_DONT_CARE.value(),
    ensures
        op == VkAttachmentLoadOp::VK_ATTACHMENT_LOAD_OP_LOAD ==> r == pass::AttachmentLoadOp::Load,
        op == VkAttachmentLoadOp::VK_ATTACHMENT_LOAD_OP_CLEAR ==> r == pass::AttachmentLoadOp::Clear,
        op == VkAttachmentLoadOp::VK_ATTACHMENT_LOAD_OP_DONT_CARE ==> r == pass::AttachmentLoadOp::DontCare,
{
    match op {
        VkAttachmentLoadOp::VK_ATTACHMENT_LOAD_OP_LOAD => pass::AttachmentLoadOp::Load,
        VkAttachmentLoadOp::VK_ATTACHMENT_LOAD_OP_CLEAR => pass::AttachmentLoadOp::Clear,
        _ => pass::AttachmentLoadOp::DontCare,
    }
}

pub fn map_attachment_store_op(op: VkAttachmentStoreOp) -> (r: pass::AttachmentStoreOp)
    requires
        op.value() <= VkAttachmentStoreOp::VK_ATTACHMENT_STORE_OP_DONT_CARE.value(),
    ensures
        op == VkAttachmentStoreOp::VK_ATTACHMENT_STORE_OP_STORE ==> r == pass::AttachmentStoreOp::Store,
        op == VkAttachmentStoreOp::VK_ATTACHMENT_STORE_OP_DONT_CARE ==> r == pass::AttachmentStoreOp::DontCare,
{
    match op {
        VkAttachmentStoreOp::VK_ATTACHMENT_STORE_OP_STORE => pass::AttachmentStoreOp::Store,
        _ => pass::AttachmentStoreOp::DontCare,
    }
}

pub fn map_subpass_contents(contents: VkSubpassContents) -> (r: command::SubpassContents)
    requires
        contents.value() <= VkSubpassContents::VK_SUBPASS_CONTENTS_SECONDARY_COMMAND_BUFFERS.value(),
    ensures
        contents == VkSubpassContents::VK_SUBPASS_CONTENTS_INLINE ==> r == command::SubpassContents::Inline,
        contents == VkSubpassContents::VK_SUBPASS_CONTENTS_SECONDARY_COMMAND_BUFFERS ==> r
            == command::SubpassContents::SecondaryBuffers,
{
    match contents {
        VkSubpassContents::VK_SUBPASS_CONTENTS_INLINE => command::SubpassContents::Inline,
        _ => command::SubpassContents::SecondaryBuffers,
    }
}

/// The faces of the abstraction layer for a Vulkan stencil face mask, which
/// must name the front, the back, or both.
pub fn map_stencil_face(face: VkStencilFaceFlags) -> (r: pso::Face)
    requires
        1 <= face <= 3,
    ensures
        r.bits == face,
{
    if face == VkStencilFaceFlagBits::VK_STENCIL_FACE_FRONT_BIT.as_raw() {
        pso::Face { bits: pso::Face::FRONT }
    } else if face == VkStencilFaceFlagBits::VK_STENCIL_FACE_BACK_BIT.as_raw() {
        pso::Face { bits: pso::Face::BACK }
    } else {
        pso::Face { bits: pso::Face::ALL }
    }
}

/// The faces of the abstraction layer for a Vulkan cull mode, which must be
/// none, the front, the back, or both.
pub fn map_cull_face(cull: VkCullModeFlags) -> (r: pso::Face)
    requires
        cull <= 3,
    ensures
        r.bits == cull,
{
    if cull == VkCullModeFlagBits::VK_CULL_MODE_NONE.as_raw() {
        pso::Face { bits: pso::Face::NONE }
    } else if cull == VkCullModeFlagBits::VK_CULL_MODE_FRONT_BIT.as_raw() {
        pso::Face { bits: pso::Face::FRONT }
    } else if cull == VkCullModeFlagBits::VK_CULL_MODE_BACK_BIT.as_raw() {
        pso::Face { bits: pso::Face::BACK }
    } else {
        pso::Face { bits: pso::Face::ALL }
    }
}

pub fn map_front_face(face: VkFrontFace) -> (r: pso::FrontFace)
    requires
        face.value() <= VkFrontFace::VK_FRONT_FACE_CLOCKWISE.value(),
    ensures
        face == VkFrontFace::VK_FRONT_FACE_COUNTER_CLOCKWISE ==> r == pso::FrontFace::CounterClockwise,
        face == VkFrontFace::VK_FRONT_FACE_CLOCKWISE ==> r == pso::FrontFace::Clockwise,
{
    match face {
        VkFrontFace::VK_FRONT_FACE_COUNTER_CLOCKWISE => pso::FrontFace::CounterClockwise,
        _ => pso::FrontFace::Clockwise,
    }
}

/// The primitive of the abstraction layer, and whether adjacency information
/// comes with it, for a Vulkan topology; `None` for triangle fans and for
/// topologies outside the Vulkan 1.0 list.
pub open spec fn primitive_topology_spec(
    topology: VkPrimitiveTopology,
    patch_size: pso::PatchSize,
) -> Option<(pso::Primitive, bool)> {
    match topology {
        VkPrimitiveTopology::VK_PRIMITIVE_TOPOLOGY_POINT_LIST => Some((pso::Primitive::PointList, false)),
        VkPrimitiveTopology::VK_PRIMITIVE_TOPOLOGY_LINE_LIST => Some((pso::Primitive::LineList, false)),
        VkPrimitiveTopology::VK_PRIMITIVE_TOPOLOGY_LINE_STRIP => Some((pso::Primitive::LineStrip, false)),
        VkPrimitiveTopology::VK_PRIMITIVE_TOPOLOGY_TRIANGLE_LIST => Some((pso::Primitive::TriangleList, false)),
        VkPrimitiveTopology::VK_PRIMITIVE_TOPOLOGY_TRIANGLE_STRIP => Some((pso::Primitive::TriangleStrip, false)),
        VkPrimitiveTopology::VK_PRIMITIVE_TOPOLOGY_LINE_LIST_WITH_ADJACENCY => Some((pso::Primitive::LineList, true)),
        VkPrimitiveTopology::VK_PRIMITIVE_TOPOLOGY_LINE_STRIP_WITH_ADJACENCY => Some((pso::Primitive::LineStrip, true)),
        VkPrimitiveTopology::VK_PRIMITIVE_TOPOLOGY_TRIANGLE_LIST_WITH_ADJACENCY => Some((pso::Primitive::TriangleList, true)),
        VkPrimitiveTopology::VK_PRIMITIVE_TOPOLOGY_TRIANGLE_STRIP_WITH_ADJACENCY => Some((pso::Primitive::TriangleStrip, true)),
        VkPrimitiveTopology::VK_PRIMITIVE_TOPOLOGY_PATCH_LIST => Some((pso::Primitive::PatchList(patch_size), false)),
        _ => None,
    }
}

pub fn map_primitive_topology(topology: VkPrimitiveTopology, patch_size: pso::PatchSize) -> (r:
    Option<(pso::Primitive, bool)>)
    ensures
        r == primitive_topology_spec(topology, patch_size),
{
    match topology {
        VkPrimitiveTopology::VK_PRIMITIVE_TOPOLOGY_POINT_LIST => Some((pso::Primitive::PointList, false)),
        VkPrimitiveTopology::VK_PRIMITIVE_TOPOLOGY_LINE_LIST => Some((pso::Primitive::LineList, false)),
        VkPrimitiveTopology::VK_PRIMITIVE_TOPOLOGY_LINE_STRIP => Some((pso::Primitive::LineStrip, false)),
        VkPrimitiveTopology::VK_PRIMITIVE_TOPOLOGY_TRIANGLE_LIST => Some((pso::Primitive::TriangleList, false)),
        VkPrimitiveTopology::VK_PRIMITIVE_TOPOLOGY_TRIANGLE_STRIP => Some((pso::Primitive::TriangleStrip, false)),
        VkPrimitiveTopology::VK_PRIMITIVE_TOPOLOGY_TRIANGLE_FAN => None,
        VkPrimitiveTopology::VK_PRIMITIVE_TOPOLOGY_LINE_LIST_WITH_ADJACENCY => Some((pso::Primitive::LineList, true)),
        VkPrimitiveTopology::VK_PRIMITIVE_TOPOLOGY_LINE_STRIP_WITH_ADJACENCY => Some((pso::Primitive::LineStrip, true)),
        VkPrimitiveTopology::VK_PRIMITIVE_TOPOLOGY_TRIANGLE_LIST_WITH_ADJACENCY => Some((pso::Primitive::TriangleList, true)),
        VkPrimitiveTopology::VK_PRIMITIVE_TOPOLOGY_TRIANGLE_STRIP_WITH_ADJACENCY => Some((pso::Primitive::TriangleStrip, true)),
        VkPrimitiveTopology::VK_PRIMITIVE_TOPOLOGY_PATCH_LIST => Some((pso::Primitive::PatchList(patch_size), false)),
        _ => None,
    }
}

/// The present mode of the abstraction layer for a Vulkan present mode, as
/// one bit of the set: the Vulkan mode of value `i` is the bit `1 << i` (the
/// numbering by which the surface's modes are reported back). A value that
/// names no mode gives the empty set.
pub open spec fn present_mode_spec(present_mode: VkPresentModeKHR) -> window::PresentMode {
    window::PresentMode {
        bits: match present_mode {
            VkPresentModeKHR::VK_PRESENT_MODE_IMMEDIATE_KHR => window::PresentMode::IMMEDIATE,
            VkPresentModeKHR::VK_PRESENT_MODE_MAILBOX_KHR => window::PresentMode::MAILBOX,
            VkPresentModeKHR::VK_PRESENT_MODE_FIFO_KHR => window::PresentMode::FIFO,
            VkPresentModeKHR::VK_PRESENT_MODE_FIFO_RELAXED_KHR => window::PresentMode::RELAXED,
            _ => 0,
        },
    }
}

pub fn map_present_mode(present_mode: VkPresentModeKHR) -> (r: window::PresentMode)
    ensures
        r == present_mode_spec(present_mode),
{
    let bits: u32 = match present_mode {
        VkPresentModeKHR::VK_PRESENT_MODE_IMMEDIATE_KHR => window::PresentMode::IMMEDIATE,
        VkPresentModeKHR::VK_PRESENT_MODE_MAILBOX_KHR => window::PresentMode::MAILBOX,
        VkPresentModeKHR::VK_PRESENT_MODE_FIFO_KHR => window::PresentMode::FIFO,
        VkPresentModeKHR::VK_PRESENT_MODE_FIFO_RELAXED_KHR => window::PresentMode::RELAXED,
        _ => 0,
    };
    window::PresentMode { bits }
}

/// The composite alpha mode of the abstraction layer for a Vulkan composite
/// alpha bit; an unrecognized value becomes opaque.
pub fn map_composite_alpha(composite_alpha: VkCompositeAlphaFlagBitsKHR) -> (r:
    window::CompositeAlphaMode)
    ensures
        composite_alpha == VkCompositeAlphaFlagBitsKHR::VK_COMPOSITE_ALPHA_OPAQUE_BIT_KHR ==> r.bits
            == window::CompositeAlphaMode::OPAQUE,
        composite_alpha == VkCompositeAlphaFlagBitsKHR::VK_COMPOSITE_ALPHA_PRE_MULTIPLIED_BIT_KHR
            ==> r.bits == window::CompositeAlphaMode::PREMULTIPLIED,
        composite_alpha == VkCompositeAlphaFlagBitsKHR::VK_COMPOSITE_ALPHA_POST_MULTIPLIED_BIT_KHR
            ==> r.bits == window::CompositeAlphaMode::POSTMULTIPLIED,
        composite_alpha == VkCompositeAlphaFlagBitsKHR::VK_COMPOSITE_ALPHA_INHERIT_BIT_KHR ==> r.bits
            == window::CompositeAlphaMode::INHERIT,
        composite_alpha == VkCompositeAlphaFlagBitsKHR::VK_COMPOSITE_ALPHA_FLAG_BITS_MAX_ENUM_KHR
            ==> r.bits == window::CompositeAlphaMode::OPAQUE,
{
    if composite_alpha == VkCompositeAlphaFlagBitsKHR::VK_COMPOSITE_ALPHA_OPAQUE_BIT_KHR {
        window::CompositeAlphaMode { bits: window::CompositeAlphaMode::OPAQUE }
    } else if composite_alpha == VkCompositeAlphaFlagBitsKHR::VK_COMPOSITE_ALPHA_PRE_MULTIPLIED_BIT_KHR {
        window::CompositeAlphaMode { bits: window::CompositeAlphaMode::PREMULTIPLIED }
    } else if composite_alpha == VkCompositeAlphaFlagBitsKHR::VK_COMPOSITE_ALPHA_POST_MULTIPLIED_BIT_KHR {
        window::CompositeAlphaMode { bits: window::CompositeAlphaMode::POSTMULTIPLIED }
    } else if composite_alpha == VkCompositeAlphaFlagBitsKHR::VK_COMPOSITE_ALPHA_INHERIT_BIT_KHR {
        window::CompositeAlphaMode { bits: window::CompositeAlphaMode::INHERIT }
    } else {
        window::CompositeAlphaMode { bits: window::CompositeAlphaMode::OPAQUE }
    }
}

/// The comparison function whose number is `n` in both numberings.
pub open spec fn comparison_of(n: u32) -> pso::Comparison {
    if n == 0 {
        pso::Comparison::Never
    } else if n == 1 {
        pso::Comparison::Less
    } else if n == 2 {
        pso::Comparison::Equal
    } else if n == 3 {
        pso::Comparison::LessEqual
    } else if n == 4 {
        pso::Comparison::Greater
    } else if n == 5 {
        pso::Comparison::NotEqual
    } else if n == 6 {
        pso::Comparison::GreaterEqual
    } else {
        pso::Comparison::Always
    }
}

/// The comparison function of the abstraction layer for a Vulkan compare op;
/// the two number their functions alike.
pub fn map_compare_op(op: VkCompareOp) -> (r: pso::Comparison)
    requires
        op.value() <= VkCompareOp::VK_COMPARE_OP_ALWAYS.value(),
    ensures
        r == comparison_of(op.value()),
{
    match op {
        VkCompareOp::VK_COMPARE_OP_NEVER => pso::Comparison::Never,
        VkCompareOp::VK_COMPARE_OP_LESS => pso::Comparison::Less,
        VkCompareOp::VK_COMPARE_OP_EQUAL => pso::Comparison::Equal,
        VkCompareOp::VK_COMPARE_OP_LESS_OR_EQUAL => pso::Comparison::LessEqual,
        VkCompareOp::VK_COMPARE_OP_GREATER => pso::Comparison::Greater,
        VkCompareOp::VK_COMPARE_OP_NOT_EQUAL => pso::Comparison::NotEqual,
        VkCompareOp::VK_COMPARE_OP_GREATER_OR_EQUAL => pso::Comparison::GreaterEqual,
        _ => pso::Comparison::Always,
    }
}

/// The logic operation whose number is `n` in both numberings.
pub open spec fn logic_op_of(n: u32) -> pso::LogicOp {
    if n == 0 {
        pso::LogicOp::Clear
    } else if n == 1 {
        pso::LogicOp::And
    } else if n == 2 {
        pso::LogicOp::AndReverse
    } else if n == 3 {
        pso::LogicOp::Copy
    } else if n == 4 {
        pso::LogicOp::AndInverted
    } else if n == 5 {
        pso::LogicOp::NoOp
    } else if n == 6 {
        pso::LogicOp::Xor
    } else if n == 7 {
        pso::LogicOp::Or
    } else if n == 8 {
        pso::LogicOp::Nor
    } else if n == 9 {
        pso::LogicOp::Equivalent
    } else if n == 10 {
        pso::LogicOp::Invert
    } else if n == 11 {
        pso::LogicOp::OrReverse
    } else if n == 12 {
        pso::LogicOp::CopyInverted
    } else if n == 13 {
        pso::LogicOp::OrInverted
    } else if n == 14 {
        pso::LogicOp::Nand
    } else {
        pso::LogicOp::Set_
    }
}

/// The logic operation of the abstraction layer for a Vulkan logic op; the two
/// number their operations alike.
pub fn map_logic_op(op: VkLogicOp) -> (r: pso::LogicOp)
    requires
        op.value() <= VkLogicOp::VK_LOGIC_OP_SET.value(),
    ensures
        r == logic_op_of(op.value()),
{
    match op {
        VkLogicOp::VK_LOGIC_OP_CLEAR => pso::LogicOp::Clear,
        VkLogicOp::VK_LOGIC_OP_AND => pso::LogicOp::And,
        VkLogicOp::VK_LOGIC_OP_AND_REVERSE => pso::LogicOp::AndReverse,
        VkLogicOp::VK_LOGIC_OP_COPY => pso::LogicOp::Copy,
        VkLogicOp::VK_LOGIC_OP_AND_INVERTED => pso::LogicOp::AndInverted,
        VkLogicOp::VK_LOGIC_OP_NO_OP => pso::LogicOp::NoOp,
        VkLogicOp::VK_LOGIC_OP_XOR => pso::LogicOp::Xor,
        VkLogicOp::VK_LOGIC_OP_OR => pso::LogicOp::Or,
        VkLogicOp::VK_LOGIC_OP_NOR => pso::LogicOp::Nor,
        VkLogicOp::VK_LOGIC_OP_EQUIVALENT => pso::LogicOp::Equivalent,
        VkLogicOp::VK_LOGIC_OP_INVERT => pso::LogicOp::Invert,
        VkLogicOp::VK_LOGIC_OP_OR_REVERSE => pso::LogicOp::OrReverse,
        VkLogicOp::VK_LOGIC_OP_COPY_INVERTED => pso::LogicOp::CopyInverted,
        VkLogicOp::VK_LOGIC_OP_OR_INVERTED => pso::LogicOp::OrInverted,
        VkLogicOp::VK_LOGIC_OP_NAND => pso::LogicOp::Nand,
        _ => pso::LogicOp::Set_,
    }
}

/// The stencil operation whose number is `n` in both numberings.
pub open spec fn stencil_op_of(n: u32) -> pso::StencilOp {
    if n == 0 {
        pso::StencilOp::Keep
    } else if n == 1 {
        pso::StencilOp::Zero
    } else if n == 2 {
        pso::StencilOp::Replace
    } else if n == 3 {
        pso::StencilOp::IncrementClamp
    } else if n == 4 {
        pso::StencilOp::DecrementClamp
    } else if n == 5 {
        pso::StencilOp::Invert
    } else if n == 6 {
        pso::StencilOp::IncrementWrap
    } else {
        pso::StencilOp::DecrementWrap
    }
}

/// The stencil operation of the abstraction layer for a Vulkan stencil op; the
/// two number their operations alike.
pub fn map_stencil_op(op: VkStencilOp) -> (r: pso::StencilOp)
    requires
        op.value() <= VkStencilOp::VK_STENCIL_OP_DECREMENT_AND_WRAP.value(),
    ensures
        r == stencil_op_of(op.value()),
{
    match op {
        VkStencilOp::VK_STENCIL_OP_KEEP => pso::StencilOp::Keep,
        VkStencilOp::VK_STENCIL_OP_ZERO => pso::StencilOp::Zero,
        VkStencilOp::VK_STENCIL_OP_REPLACE => pso::StencilOp::Replace,
        VkStencilOp::VK_STENCIL_OP_INCREMENT_AND_CLAMP => pso::StencilOp::IncrementClamp,
        VkStencilOp::VK_STENCIL_OP_DECREMENT_AND_CLAMP => pso::StencilOp::DecrementClamp,
        VkStencilOp::VK_STENCIL_OP_INVERT => pso::StencilOp::Invert,
        VkStencilOp::VK_STENCIL_OP_INCREMENT_AND_WRAP => pso::StencilOp::IncrementWrap,
        _ => pso::StencilOp::DecrementWrap,
    }
}

/// The color mask whose bits are the low byte of a Vulkan color component
/// mask; the two assign the same bit to each channel.
pub fn map_color_components(mask: VkColorComponentFlags) -> (r: pso::ColorMask)
    ensures
        r.bits == mask as u8,
{
    pso::ColorMask { bits: mask as u8 }
}

/// The blend factor whose number is `n` in both numberings.
pub open spec fn blend_factor_of(n: u32) -> pso::Factor {
    if n == 0 {
        pso::Factor::Zero
    } else if n == 1 {
        pso::Factor::One
    } else if n == 2 {
        pso::Factor::SrcColor
    } else if n == 3 {
        pso::Factor::OneMinusSrcColor
    } else if n == 4 {
        pso::Factor::DstColor
    } else if n == 5 {
        pso::Factor::OneMinusDstColor
    } else if n == 6 {
        pso::Factor::SrcAlpha
    } else if n == 7 {
        pso::Factor::OneMinusSrcAlpha
    } else if n == 8 {
        pso::Factor::DstAlpha
    } else if n == 9 {
        pso::Factor::OneMinusDstAlpha
    } else if n == 10 {
        pso::Factor::ConstColor
    } else if n == 11 {
        pso::Factor::OneMinusConstColor
    } else if n == 12 {
        pso::Factor::ConstAlpha
    } else if n == 13 {
        pso::Factor::OneMinusConstAlpha
    } else if n == 14 {
        pso::Factor::SrcAlphaSaturate
    } else if n == 15 {
        pso::Factor::Src1Color
    } else if n == 16 {
        pso::Factor::OneMinusSrc1Color
    } else if n == 17 {
        pso::Factor::Src1Alpha
    } else {
        pso::Factor::OneMinusSrc1Alpha
    }
}

pub open spec fn blend_factor_supported(factor: VkBlendFactor) -> bool {
    factor.value() <= VkBlendFactor::VK_BLEND_FACTOR_ONE_MINUS_SRC1_ALPHA.value()
}

fn map_blend_factor(factor: VkBlendFactor) -> (r: pso::Factor)
    requires
        blend_factor_supported(factor),
    ensures
        r == blend_factor_of(factor.value()),
{
    match factor {
        VkBlendFactor::VK_BLEND_FACTOR_ZERO => pso::Factor::Zero,
        VkBlendFactor::VK_BLEND_FACTOR_ONE => pso::Factor::One,
        VkBlendFactor::VK_BLEND_FACTOR_SRC_COLOR => pso::Factor::SrcColor,
        VkBlendFactor::VK_BLEND_FACTOR_ONE_MINUS_SRC_COLOR => pso::Factor::OneMinusSrcColor,
        VkBlendFactor::VK_BLEND_FACTOR_DST_COLOR => pso::Factor::DstColor,
        VkBlendFactor::VK_BLEND_FACTOR_ONE_MINUS_DST_COLOR => pso::Factor::OneMinusDstColor,
        VkBlendFactor::VK_BLEND_FACTOR_SRC_ALPHA => pso::Factor::SrcAlpha,
        VkBlendFactor::VK_BLEND_FACTOR_ONE_MINUS_SRC_ALPHA => pso::Factor::OneMinusSrcAlpha,
        VkBlendFactor::VK_BLEND_FACTOR_DST_ALPHA => pso::Factor::DstAlpha,
        VkBlendFactor::VK_BLEND_FACTOR_ONE_MINUS_DST_ALPHA => pso::Factor::OneMinusDstAlpha,
        VkBlendFactor::VK_BLEND_FACTOR_CONSTANT_COLOR => pso::Factor::ConstColor,
        VkBlendFactor::VK_BLEND_FACTOR_ONE_MINUS_CONSTANT_COLOR => pso::Factor::OneMinusConstColor,
        VkBlendFactor::VK_BLEND_FACTOR_CONSTANT_ALPHA => pso::Factor::ConstAlpha,
        VkBlendFactor::VK_BLEND_FACTOR_ONE_MINUS_CONSTANT_ALPHA => pso::Factor::OneMinusConstAlpha,
        VkBlendFactor::VK_BLEND_FACTOR_SRC_ALPHA_SATURATE => pso::Factor::SrcAlphaSaturate,
        VkBlendFactor::VK_BLEND_FACTOR_SRC1_COLOR => pso::Factor::Src1Color,
        VkBlendFactor::VK_BLEND_FACTOR_ONE_MINUS_SRC1_COLOR => pso::Factor::OneMinusSrc1Color,
        VkBlendFactor::VK_BLEND_FACTOR_SRC1_ALPHA => pso::Factor::Src1Alpha,
        _ => pso::Factor::OneMinusSrc1Alpha,
    }
}

/// Whether a blend operation, with its factors, is one that the abstraction
/// layer can express.
pub open spec fn blend_supported(
    blend_op: VkBlendOp,
    src_factor: VkBlendFactor,
    dst_factor: VkBlendFactor,
) -> bool {
    &&& blend_op.value() <= VkBlendOp::VK_BLEND_OP_MAX.value()
    &&& blend_op.value() <= VkBlendOp::VK_BLEND_OP_REVERSE_SUBTRACT.value() ==> blend_factor_supported(
        src_factor,
    ) && blend_factor_supported(dst_factor)
}

pub open spec fn blend_op_spec(
    blend_op: VkBlendOp,
    src_factor: VkBlendFactor,
    dst_factor: VkBlendFactor,
) -> pso::BlendOp {
    let src = blend_factor_of(src_factor.value());
    let dst = blend_factor_of(dst_factor.value());
    match blend_op {
        VkBlendOp::VK_BLEND_OP_ADD => pso::BlendOp::Add { src, dst },
        VkBlendOp::VK_BLEND_OP_SUBTRACT => pso::BlendOp::Sub { src, dst },
        VkBlendOp::VK_BLEND_OP_REVERSE_SUBTRACT => pso::BlendOp::RevSub { src, dst },
        VkBlendOp::VK_BLEND_OP_MIN => pso::BlendOp::Min,
        _ => pso::BlendOp::Max,
    }
}

pub fn map_blend_op(
    blend_op: VkBlendOp,
    src_factor: VkBlendFactor,
    dst_factor: VkBlendFactor,
) -> (r: pso::BlendOp)
    requires
        blend_supported(blend_op, src_factor, dst_factor),
    ensures
        r == blend_op_spec(blend_op, src_factor, dst_factor),
{
    match blend_op {
        VkBlendOp::VK_BLEND_OP_ADD => pso::BlendOp::Add {
            src: map_blend_factor(src_factor),
            dst: map_blend_factor(dst_factor),
        },
        VkBlendOp::VK_BLEND_OP_SUBTRACT => pso::BlendOp::Sub {
            src: map_blend_factor(src_factor),
            dst: map_blend_factor(dst_factor),
        },
        VkBlendOp::VK_BLEND_OP_REVERSE_SUBTRACT => pso::BlendOp::RevSub {
            src: map_blend_factor(src_factor),
            dst: map_blend_factor(dst_factor),
        },
        VkBlendOp::VK_BLEND_OP_MIN => pso::BlendOp::Min,
        _ => pso::BlendOp::Max,
    }
}

/// The command buffer flags whose bits are the Vulkan usage mask; the two
/// assign the same bit to each flag.
pub fn map_cmd_buffer_usage(flags: VkCommandBufferUsageFlags) -> (r: command::CommandBufferFlags)
    ensures
        r.bits == flags,
{
    command::CommandBufferFlags { bits: flags }
}

pub fn map_filter(filter: VkFilter) -> (r: image::Filter)
    requires
        filter.value() <= VkFilter::VK_FILTER_LINEAR.value(),
    ensures
        filter == VkFilter::VK_FILTER_NEAREST ==> r == image::Filter::Nearest,
        filter == VkFilter::VK_FILTER_LINEAR ==> r == image::Filter::Linear,
{
    match filter {
        VkFilter::VK_FILTER_NEAREST => image::Filter::Nearest,
        _ => image::Filter::Linear,
    }
}

pub fn map_mipmap_filter(mode: VkSamplerMipmapMode) -> (r: image::Filter)
    requires
        mode.value() <= VkSamplerMipmapMode::VK_SAMPLER_MIPMAP_MODE_LINEAR.value(),
    ensures
        mode == VkSamplerMipmapMode::VK_SAMPLER_MIPMAP_MODE_NEAREST ==> r == image::Filter::Nearest,
        mode == VkSamplerMipmapMode::VK_SAMPLER_MIPMAP_MODE_LINEAR ==> r == image::Filter::Linear,
{
    match mode {
        VkSamplerMipmapMode::VK_SAMPLER_MIPMAP_MODE_NEAREST => image::Filter::Nearest,
        _ => image::Filter::Linear,
    }
}

pub open spec fn wrap_mode_spec(mode: VkSamplerAddressMode) -> image::WrapMode {
    match mode {
        VkSamplerAddressMode::VK_SAMPLER_ADDRESS_MODE_REPEAT => image::WrapMode::Tile,
        VkSamplerAddressMode::VK_SAMPLER_ADDRESS_MODE_MIRRORED_REPEAT => image::WrapMode::Mirror,
        VkSamplerAddressMode::VK_SAMPLER_ADDRESS_MODE_CLAMP_TO_EDGE => image::WrapMode::Clamp,
        VkSamplerAddressMode::VK_SAMPLER_ADDRESS_MODE_CLAMP_TO_BORDER => image::WrapMode::Border,
        _ => image::WrapMode::Clamp,
    }
}

/// The wrap mode of the abstraction layer for a Vulkan address mode; any mode
/// beyond the four of Vulkan 1.0 becomes clamping.
pub fn map_wrap_mode(mode: VkSamplerAddressMode) -> (r: image::WrapMode)
    ensures
        r == wrap_mode_spec(mode),
{
    match mode {
        VkSamplerAddressMode::VK_SAMPLER_ADDRESS_MODE_REPEAT => image::WrapMode::Tile,
        VkSamplerAddressMode::VK_SAMPLER_ADDRESS_MODE_MIRRORED_REPEAT => image::WrapMode::Mirror,
        VkSamplerAddressMode::VK_SAMPLER_ADDRESS_MODE_CLAMP_TO_EDGE => image::WrapMode::Clamp,
        VkSamplerAddressMode::VK_SAMPLER_ADDRESS_MODE_CLAMP_TO_BORDER => image::WrapMode::Border,
        _ => image::WrapMode::Clamp,
    }
}

/// The rectangle of the abstraction layer for a Vulkan rectangle; each value
/// is cut down to 16 bits.
pub open spec fn rect_spec(rect: VkRect2D) -> pso::Rect {
    pso::Rect {
        x: rect.offset.x as i16,
        y: rect.offset.y as i16,
        w: rect.extent.width as i16,
        h: rect.extent.height as i16,
    }
}

pub fn map_rect(rect: &VkRect2D) -> (r: pso::Rect)
    ensures
        r == rect_spec(*rect),
{
    pso::Rect {
        x: rect.offset.x as i16,
        y: rect.offset.y as i16,
        w: rect.extent.width as i16,
        h: rect.extent.height as i16,
    }
}

/// The clear rectangle of the abstraction layer for a Vulkan one: the layers
/// from the base layer on, as many as the layer count says.
pub fn map_clear_rect(rect: &VkClearRect) -> (r: pso::ClearRect)
    requires
        (rect.baseArrayLayer as u16) + (rect.layerCount as u16) <= u16::MAX,
    ensures
        r.rect == rect_spec(rect.rect),
        r.layers.start == rect.baseArrayLayer as u16,
        r.layers.end == (rect.baseArrayLayer as u16) + (rect.layerCount as u16),
{
    let base = rect.baseArrayLayer as image::Layer;
    pso::ClearRect {
        rect: map_rect(&rect.rect),
        layers: image::LayerRange { start: base, end: base + rect.layerCount as image::Layer },
    }
}

pub fn map_tiling(tiling: VkImageTiling) -> (r: image::Tiling)
    requires
        tiling.value() <= VkImageTiling::VK_IMAGE_TILING_LINEAR.value(),
    ensures
        tiling == VkImageTiling::VK_IMAGE_TILING_OPTIMAL ==> r == image::Tiling::Optimal,
        tiling == VkImageTiling::VK_IMAGE_TILING_LINEAR ==> r == image::Tiling::Linear,
{
    match tiling {
        VkImageTiling::VK_IMAGE_TILING_OPTIMAL => image::Tiling::Optimal,
        _ => image::Tiling::Linear,
    }
}

pub fn map_index_type(ty: VkIndexType) -> (r: IndexType)
    requires
        ty.value() <= VkIndexType::VK_INDEX_TYPE_UINT32.value(),
    ensures
        ty == VkIndexType::VK_INDEX_TYPE_UINT16 ==> r == IndexType::U16,
        ty == VkIndexType::VK_INDEX_TYPE_UINT32 ==> r == IndexType::U32,
{
    match ty {
        VkIndexType::VK_INDEX_TYPE_UINT16 => IndexType::U16,
        _ => IndexType::U32,
    }
}

/// The query type of the abstraction layer for a Vulkan query type; a
/// pipeline statistics query carries the statistics it counts.
pub fn map_query_type(ty: VkQueryType, statistic: VkQueryPipelineStatisticFlags) -> (r:
    query::Type)
    requires
        ty.value() <= VkQueryType::VK_QUERY_TYPE_TIMESTAMP.value(),
    ensures
        ty == VkQueryType::VK_QUERY_TYPE_OCCLUSION ==> r == query::Type::Occlusion,
        ty == VkQueryType::VK_QUERY_TYPE_PIPELINE_STATISTICS ==> r == query::Type::PipelineStatistics(
            query::PipelineStatistic { bits: statistic & query::PipelineStatistic::ALL },
        ),
        ty == VkQueryType::VK_QUERY_TYPE_TIMESTAMP ==> r == query::Type::Timestamp,
{
    match ty {
        VkQueryType::VK_QUERY_TYPE_OCCLUSION => query::Type::Occlusion,
        VkQueryType::VK_QUERY_TYPE_PIPELINE_STATISTICS => query::Type::PipelineStatistics(
            map_pipeline_statistics(statistic),
        ),
        _ => query::Type::Timestamp,
    }
}

/// The query control flags for a Vulkan mask: the flags that the abstraction
/// layer knows, and no others.
pub fn map_query_control(flags: VkQueryControlFlags) -> (r: query::ControlFlags)
    ensures
        r.bits == flags & query::ControlFlags::ALL,
{
    query::ControlFlags { bits: flags & query::ControlFlags::ALL }
}

/// The query result flags for a Vulkan mask: the flags that the abstraction
/// layer knows, and no others.
pub fn map_query_result(flags: VkQueryResultFlags) -> (r: query::ResultFlags)
    ensures
        r.bits == flags & query::ResultFlags::ALL,
{
    query::ResultFlags { bits: flags & query::ResultFlags::ALL }
}

/// The pipeline statistics for a Vulkan mask: the flags that the abstraction
/// layer knows, and no others.
pub fn map_pipeline_statistics(flags: VkQueryPipelineStatisticFlags) -> (r:
    query::PipelineStatistic)
    ensures
        r.bits == flags & query::PipelineStatistic::ALL,
{
    query::PipelineStatistic { bits: flags & query::PipelineStatistic::ALL }
}

} // verus!
