//! Pipeline state of the hardware abstraction layer: descriptors, stages,
//! rasterization, blending and depth-stencil state.

use vstd::prelude::*;

verus! {

/// How a buffer descriptor is accessed.
#[derive(Clone, Copy, Debug, PartialEq, Eq, Structural)]
pub enum BufferDescriptorType {
    Storage { read_only: bool },
    Uniform,
}

/// How a buffer descriptor lays out its data.
#[derive(Clone, Copy, Debug, PartialEq, Eq, Structural)]
pub enum BufferDescriptorFormat {
    Structured { dynamic_offset: bool },
    Texel,
}

/// How an image descriptor is accessed.
#[derive(Clone, Copy, Debug, PartialEq, Eq, Structural)]
pub enum ImageDescriptorType {
    Sampled { with_sampler: bool },
    Storage { read_only: bool },
}

/// The type of a descriptor.
#[derive(Clone, Copy, Debug, PartialEq, Eq, Structural)]
pub enum DescriptorType {
    Sampler,
    Image { ty: ImageDescriptorType },
    Buffer { ty: BufferDescriptorType, format: BufferDescriptorFormat },
    InputAttachment,
}

/// A set of shader stages.
#[derive(Clone, Copy, Debug, PartialEq, Eq, Structural)]
pub struct ShaderStageFlags {
    pub bits: u32,
}

impl ShaderStageFlags {
    pub const VERTEX: u32 = 0x1;
    pub const HULL: u32 = 0x2;
    pub const DOMAIN: u32 = 0x4;
    pub const GEOMETRY: u32 = 0x8;
    pub const FRAGMENT: u32 = 0x10;
    pub const COMPUTE: u32 = 0x20;
}

/// A set of pipeline stages.
#[derive(Clone, Copy, Debug, PartialEq, Eq, Structural)]
pub struct PipelineStage {
    pub bits: u32,
}

impl PipelineStage {
    pub const TOP_OF_PIPE: u32 = 0x1;
    pub const DRAW_INDIRECT: u32 = 0x2;
    pub const VERTEX_INPUT: u32 = 0x4;
    pub const VERTEX_SHADER: u32 = 0x8;
    pub const HULL_SHADER: u32 = 0x10;
    pub const DOMAIN_SHADER: u32 = 0x20;
    pub const GEOMETRY_SHADER: u32 = 0x40;
    pub const FRAGMENT_SHADER: u32 = 0x80;
    pub const EARLY_FRAGMENT_TESTS: u32 = 0x100;
    pub const LATE_FRAGMENT_TESTS: u32 = 0x200;
    pub const COLOR_ATTACHMENT_OUTPUT: u32 = 0x400;
    pub const COMPUTE_SHADER: u32 = 0x800;
    pub const TRANSFER: u32 = 0x1000;
    pub const BOTTOM_OF_PIPE: u32 = 0x2000;
    pub const HOST: u32 = 0x4000;
    /// Every flag of the set.
    pub const ALL: u32 = 0x7FFF;
}

/// A set of polygon faces.
#[derive(Clone, Copy, Debug, PartialEq, Eq, Structural)]
pub struct Face {
    pub bits: u32,
}

impl Face {
    pub const NONE: u32 = 0x0;
    pub const FRONT: u32 = 0x1;
    pub const BACK: u32 = 0x2;
    /// Every flag of the set.
    pub const ALL: u32 = 0x3;
}

/// Which winding makes a polygon front-facing.
#[derive(Clone, Copy, Debug, PartialEq, Eq, Structural)]
pub enum FrontFace {
    Clockwise,
    CounterClockwise,
}

/// Number of control points of a patch.
pub type PatchSize = u8;

/// The primitive an input assembler builds.
#[derive(Clone, Copy, Debug, PartialEq, Eq, Structural)]
pub enum Primitive {
    PointList,
    LineList,
    LineStrip,
    TriangleList,
    TriangleStrip,
    PatchList(PatchSize),
}

/// A comparison function for depth, stencil and sampler tests.
#[derive(Clone, Copy, Debug, PartialEq, Eq, Structural)]
pub enum Comparison {
    Never,
    Less,
    Equal,
    LessEqual,
    Greater,
    NotEqual,
    GreaterEqual,
    Always,
}

/// A logical operation on color values.
#[derive(Clone, Copy, Debug, PartialEq, Eq, Structural)]
pub enum LogicOp {
    Clear,
    And,
    AndReverse,
    Copy,
    AndInverted,
    NoOp,
    Xor,
    Or,
    Nor,
    Equivalent,
    Invert,
    OrReverse,
    CopyInverted,
    OrInverted,
    Nand,
    Set_,
}

/// An operation on the stencil buffer.
#[derive(Clone, Copy, Debug, PartialEq, Eq, Structural)]
pub enum StencilOp {
    Keep,
    Zero,
    Replace,
    IncrementClamp,
    DecrementClamp,
    Invert,
    IncrementWrap,
    DecrementWrap,
}

/// A set of color channels that are written.
#[derive(Clone, Copy, Debug, PartialEq, Eq, Structural)]
pub struct ColorMask {
    pub bits: u8,
}

impl ColorMask {
    pub const RED: u8 = 0x1;
    pub const GREEN: u8 = 0x2;
    pub const BLUE: u8 = 0x4;
    pub const ALPHA: u8 = 0x8;
}

/// A blend factor.
#[derive(Clone, Copy, Debug, PartialEq, Eq, Structural)]
pub enum Factor {
    Zero,
    One,
    SrcColor,
    OneMinusSrcColor,
    DstColor,
    OneMinusDstColor,
    SrcAlpha,
    OneMinusSrcAlpha,
    DstAlpha,
    OneMinusDstAlpha,
    ConstColor,
    OneMinusConstColor,
    ConstAlpha,
    OneMinusConstAlpha,
    SrcAlphaSaturate,
    Src1Color,
    OneMinusSrc1Color,
    Src1Alpha,
    OneMinusSrc1Alpha,
}

/// A blend operation with its factors.
#[derive(Clone, Copy, Debug, PartialEq, Eq, Structural)]
pub enum BlendOp {
    Add { src: Factor, dst: Factor },
    Sub { src: Factor, dst: Factor },
    RevSub { src: Factor, dst: Factor },
    Min,
    Max,
}

/// An integer rectangle.
#[derive(Clone, Copy, Debug, PartialEq, Eq, Structural)]
pub struct Rect {
    pub x: i16,
    pub y: i16,
    pub w: i16,
    pub h: i16,
}

/// A rectangle and a range of array layers to clear.
#[derive(Clone, Copy, Debug, PartialEq, Eq, Structural)]
pub struct ClearRect {
    pub rect: Rect,
    pub layers: crate::hal::image::LayerRange,
}

/// How polygons are rasterized.
#[derive(Clone, Copy, Debug, PartialEq, Eq, Structural)]
pub enum PolygonMode {
    Point,
    Line,
    Fill,
}

/// How often the attributes of a vertex buffer advance: per vertex, or per
/// this many instances.
#[derive(Clone, Copy, Debug, PartialEq, Eq, Structural)]
pub enum VertexInputRate {
    Vertex,
    Instance(u32),
}

/// A vertex buffer binding of a pipeline.
#[derive(Clone, Copy, Debug, PartialEq, Eq, Structural)]
pub struct VertexBufferDesc {
    pub binding: u32,
    pub stride: u32,
    pub rate: VertexInputRate,
}

/// A vertex attribute of a pipeline: where it is read from and its format.
#[derive(Clone, Copy, Debug, PartialEq, Eq, Structural)]
pub struct AttributeDesc {
    pub location: u32,
    pub binding: u32,
    pub format: crate::hal::format::Format,
    pub offset: u32,
}

/// The primitives that a pipeline assembles.
#[derive(Clone, Copy, Debug, PartialEq, Eq, Structural)]
pub struct InputAssemblerDesc {
    pub primitive: Primitive,
    pub with_adjacency: bool,
}

/// The blending of color and of alpha.
#[derive(Clone, Copy, Debug, PartialEq, Eq, Structural)]
pub struct BlendState {
    pub color: BlendOp,
    pub alpha: BlendOp,
}

/// How one color target is written.
#[derive(Clone, Copy, Debug, PartialEq, Eq, Structural)]
pub struct ColorBlendDesc {
    pub mask: ColorMask,
    pub blend: Option<BlendState>,
}

/// The depth test.
#[derive(Clone, Copy, Debug, PartialEq, Eq, Structural)]
pub struct DepthTest {
    pub fun: Comparison,
    pub write: bool,
}

/// The stencil operations of one face.
#[derive(Clone, Copy, Debug, PartialEq, Eq, Structural)]
pub struct StencilFace {
    pub fun: Comparison,
    pub op_fail: StencilOp,
    pub op_depth_fail: StencilOp,
    pub op_pass: StencilOp,
}

/// A value for the front faces and one for the back faces.
#[derive(Clone, Copy, Debug, PartialEq, Eq, Structural)]
pub struct Sided<T> {
    pub front: T,
    pub back: T,
}

/// A state that is baked into a pipeline, or set dynamically.
#[derive(Clone, Copy, Debug, PartialEq, Eq, Structural)]
pub enum State<T> {
    Static(T),
    Dynamic,
}

/// The stencil test.
#[derive(Clone, Copy, Debug, PartialEq, Eq, Structural)]
pub struct StencilTest {
    pub faces: Sided<StencilFace>,
    pub read_masks: State<Sided<u32>>,
    pub write_masks: State<Sided<u32>>,
    pub reference_values: State<Sided<u32>>,
}

/// The depth and stencil state of a pipeline.
#[derive(Clone, Copy, Debug, PartialEq, Eq, Structural)]
pub struct DepthStencilDesc {
    pub depth: Option<DepthTest>,
    pub depth_bounds: bool,
    pub stencil: Option<StencilTest>,
}

/// Flags of pipeline creation.
#[derive(Clone, Copy, Debug, PartialEq, Eq, Structural)]
pub struct PipelineCreationFlags {
    pub bits: u32,
}

impl PipelineCreationFlags {
    pub const DISABLE_OPTIMIZATION: u32 = 0x1;
    pub const ALLOW_DERIVATIVES: u32 = 0x2;
}

/// A specialization constant: its id, and the bytes of the specialization
/// data that hold its value.
#[derive(Clone, Copy, Debug, PartialEq, Eq, Structural)]
pub struct SpecializationConstant {
    pub id: u32,
    pub range: crate::hal::image::LayerRange,
}

/// Flags of a descriptor pool.
#[derive(Clone, Copy, Debug, PartialEq, Eq, Structural)]
pub struct DescriptorPoolCreateFlags {
    pub bits: u32,
}

impl DescriptorPoolCreateFlags {
    pub const FREE_DESCRIPTOR_SET: u32 = 0x1;
}

/// Why descriptor sets could not be allocated.
#[derive(Clone, Copy, Debug, PartialEq, Eq, Structural)]
pub enum AllocationError {
    OutOfMemory(crate::hal::device::OutOfMemory),
    OutOfPoolMemory,
    FragmentedPool,
    IncompatibleLayout,
}

} // verus!
