//! A model, in plain values, of the hardware abstraction layer types that the
//! portability layer converts to and from.

pub mod adapter;
pub mod buffer;
pub mod command;
pub mod device;
pub mod format;
pub mod image;
pub mod memory;
pub mod pass;
pub mod pso;
pub mod query;
pub mod queue;
pub mod window;

use vstd::prelude::*;

verus! {

/// A set of optional device features.
///
/// Bit `k`, for `k < Features::NUM_CORE`, is the `k`-th feature of the
/// Vulkan 1.0 feature list, in the order that the API lists them.
#[derive(Clone, Copy, Debug, PartialEq, Eq, Structural)]
pub struct Features {
    pub bits: u128,
}

impl Features {
    /// Number of features of the Vulkan 1.0 feature list.
    pub const NUM_CORE: u32 = 55;
    pub const ROBUST_BUFFER_ACCESS: u128 = 0x0000_0000_0000_0001;
    pub const FULL_DRAW_INDEX_U32: u128 = 0x0000_0000_0000_0002;
    pub const IMAGE_CUBE_ARRAY: u128 = 0x0000_0000_0000_0004;
    pub const INDEPENDENT_BLENDING: u128 = 0x0000_0000_0000_0008;
    pub const GEOMETRY_SHADER: u128 = 0x0000_0000_0000_0010;
    pub const TESSELLATION_SHADER: u128 = 0x0000_0000_0000_0020;
    pub const SAMPLE_RATE_SHADING: u128 = 0x0000_0000_0000_0040;
    pub const DUAL_SRC_BLENDING: u128 = 0x0000_0000_0000_0080;
    pub const LOGIC_OP: u128 = 0x0000_0000_0000_0100;
    pub const MULTI_DRAW_INDIRECT: u128 = 0x0000_0000_0000_0200;
    pub const DRAW_INDIRECT_FIRST_INSTANCE: u128 = 0x0000_0000_0000_0400;
    pub const DEPTH_CLAMP: u128 = 0x0000_0000_0000_0800;
    pub const DEPTH_BIAS_CLAMP: u128 = 0x0000_0000_0000_1000;
    pub const NON_FILL_POLYGON_MODE: u128 = 0x0000_0000_0000_2000;
    pub const DEPTH_BOUNDS: u128 = 0x0000_0000_0000_4000;
    pub const LINE_WIDTH: u128 = 0x0000_0000_0000_8000;
    pub const POINT_SIZE: u128 = 0x0000_0000_0001_0000;
    pub const ALPHA_TO_ONE: u128 = 0x0000_0000_0002_0000;
    pub const MULTI_VIEWPORTS: u128 = 0x0000_0000_0004_0000;
    pub const SAMPLER_ANISOTROPY: u128 = 0x0000_0000_0008_0000;
    pub const FORMAT_ETC2: u128 = 0x0000_0000_0010_0000;
    pub const FORMAT_ASTC_LDR: u128 = 0x0000_0000_0020_0000;
    pub const FORMAT_BC: u128 = 0x0000_0000_0040_0000;
    pub const PRECISE_OCCLUSION_QUERY: u128 = 0x0000_0000_0080_0000;
    pub const PIPELINE_STATISTICS_QUERY: u128 = 0x0000_0000_0100_0000;
    pub const VERTEX_STORES_AND_ATOMICS: u128 = 0x0000_0000_0200_0000;
    pub const FRAGMENT_STORES_AND_ATOMICS: u128 = 0x0000_0000_0400_0000;
    pub const SHADER_TESSELLATION_AND_GEOMETRY_POINT_SIZE: u128 = 0x0000_0000_0800_0000;
    pub const SHADER_IMAGE_GATHER_EXTENDED: u128 = 0x0000_0000_1000_0000;
    pub const SHADER_STORAGE_IMAGE_EXTENDED_FORMATS: u128 = 0x0000_0000_2000_0000;
    pub const SHADER_STORAGE_IMAGE_MULTISAMPLE: u128 = 0x0000_0000_4000_0000;
    pub const SHADER_STORAGE_IMAGE_READ_WITHOUT_FORMAT: u128 = 0x0000_0000_8000_0000;
    pub const SHADER_STORAGE_IMAGE_WRITE_WITHOUT_FORMAT: u128 = 0x0000_0001_0000_0000;
    pub const SHADER_UNIFORM_BUFFER_ARRAY_DYNAMIC_INDEXING: u128 = 0x0000_0002_0000_0000;
    pub const SHADER_SAMPLED_IMAGE_ARRAY_DYNAMIC_INDEXING: u128 = 0x0000_0004_0000_0000;
    pub const SHADER_STORAGE_BUFFER_ARRAY_DYNAMIC_INDEXING: u128 = 0x0000_0008_0000_0000;
    pub const SHADER_STORAGE_IMAGE_ARRAY_DYNAMIC_INDEXING: u128 = 0x0000_0010_0000_0000;
    pub const SHADER_CLIP_DISTANCE: u128 = 0x0000_0020_0000_0000;
    pub const SHADER_CULL_DISTANCE: u128 = 0x0000_0040_0000_0000;
    pub const SHADER_FLOAT64: u128 = 0x0000_0080_0000_0000;
    pub const SHADER_INT64: u128 = 0x0000_0100_0000_0000;
    pub const SHADER_INT16: u128 = 0x0000_0200_0000_0000;
    pub const SHADER_RESOURCE_RESIDENCY: u128 = 0x0000_0400_0000_0000;
    pub const SHADER_RESOURCE_MIN_LOD: u128 = 0x0000_0800_0000_0000;
    pub const SPARSE_BINDING: u128 = 0x0000_1000_0000_0000;
    pub const SPARSE_RESIDENCY_BUFFER: u128 = 0x0000_2000_0000_0000;
    pub const SPARSE_RESIDENCY_IMAGE_2D: u128 = 0x0000_4000_0000_0000;
    pub const SPARSE_RESIDENCY_IMAGE_3D: u128 = 0x0000_8000_0000_0000;
    pub const SPARSE_RESIDENCY_2_SAMPLES: u128 = 0x0001_0000_0000_0000;
    pub const SPARSE_RESIDENCY_4_SAMPLES: u128 = 0x0002_0000_0000_0000;
    pub const SPARSE_RESIDENCY_8_SAMPLES: u128 = 0x0004_0000_0000_0000;
    pub const SPARSE_RESIDENCY_16_SAMPLES: u128 = 0x0008_0000_0000_0000;
    pub const SPARSE_RESIDENCY_ALIASED: u128 = 0x0010_0000_0000_0000;
    pub const VARIABLE_MULTISAMPLE_RATE: u128 = 0x0020_0000_0000_0000;
    pub const INHERITED_QUERIES: u128 = 0x0040_0000_0000_0000;
    pub const TRIANGLE_FAN: u128 = 0x1_0000_0000_0000_0000;
    pub const SEPARATE_STENCIL_REF_VALUES: u128 = 0x2_0000_0000_0000_0000;
    pub const INSTANCE_RATE: u128 = 0x4_0000_0000_0000_0000;
    pub const SAMPLER_MIP_LOD_BIAS: u128 = 0x8_0000_0000_0000_0000;
}

/// The width of the indices of an index buffer.
#[derive(Clone, Copy, Debug, PartialEq, Eq, Structural)]
pub enum IndexType {
    U16,
    U32,
}

} // verus!
