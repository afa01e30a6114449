//! Render pass attachment operations of the hardware abstraction layer.

use vstd::prelude::*;

use crate::hal::format::Format;
use crate::hal::image::{Access, Layout};
use crate::hal::memory::Dependencies;
use crate::hal::pso::PipelineStage;

verus! {

/// What happens to an attachment at the start of a subpass.
#[derive(Clone, Copy, Debug, PartialEq, Eq, Structural)]
pub enum AttachmentLoadOp {
    Load,
    Clear,
    DontCare,
}

/// What happens to an attachment at the end of a subpass.
#[derive(Clone, Copy, Debug, PartialEq, Eq, Structural)]
pub enum AttachmentStoreOp {
    Store,
    DontCare,
}


/// What happens to an attachment at the start and at the end of a render pass.
#[derive(Clone, Copy, Debug, PartialEq, Eq, Structural)]
pub struct AttachmentOps {
    pub load: AttachmentLoadOp,
    pub store: AttachmentStoreOp,
}

/// An attachment of a render pass: its format (none where it is left
/// undefined), its sample count, its operations on color or depth and on
/// stencil, and its layouts at the start and at the end of the pass.
#[derive(Clone, Copy, Debug, PartialEq, Eq, Structural)]
pub struct Attachment {
    pub format: Option<Format>,
    pub samples: u8,
    pub ops: AttachmentOps,
    pub stencil_ops: AttachmentOps,
    pub initial_layout: Layout,
    pub final_layout: Layout,
}

/// A reference from a subpass to an attachment, with the layout the
/// attachment has during the subpass.
#[derive(Clone, Copy, Debug, PartialEq, Eq, Structural)]
pub struct AttachmentRef {
    pub attachment: usize,
    pub layout: Layout,
}

/// The attachments that a subpass reads, writes, resolves and preserves.
#[derive(Clone, Debug)]
pub struct SubpassDesc {
    pub colors: Vec<AttachmentRef>,
    pub depth_stencil: Option<AttachmentRef>,
    pub inputs: Vec<AttachmentRef>,
    pub resolves: Vec<AttachmentRef>,
    pub preserves: Vec<usize>,
}

/// A dependency between two subpasses, either of which may be outside the
/// render pass (`None`): the stages and accesses that must be done before
/// and that wait.
#[derive(Clone, Copy, Debug, PartialEq, Eq, Structural)]
pub struct SubpassDependency {
    pub src_pass: Option<u8>,
    pub dst_pass: Option<u8>,
    pub src_stage: PipelineStage,
    pub dst_stage: PipelineStage,
    pub src_access: Access,
    pub dst_access: Access,
    pub flags: Dependencies,
}

} // verus!
