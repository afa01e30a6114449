//! Buffer usages and accesses in the hardware abstraction layer.

use vstd::prelude::*;

verus! {

/// What a buffer may be used for.
#[derive(Clone, Copy, Debug, PartialEq, Eq, Structural)]
pub struct Usage {
    pub bits: u32,
}

impl Usage {
    pub const TRANSFER_SRC: u32 = 0x1;
    pub const TRANSFER_DST: u32 = 0x2;
    pub const UNIFORM_TEXEL: u32 = 0x4;
    pub const STORAGE_TEXEL: u32 = 0x8;
    pub const UNIFORM: u32 = 0x10;
    pub const STORAGE: u32 = 0x20;
    pub const INDEX: u32 = 0x40;
    pub const VERTEX: u32 = 0x80;
    pub const INDIRECT: u32 = 0x100;
}

/// Kinds of access to a buffer.
#[derive(Clone, Copy, Debug, PartialEq, Eq, Structural)]
pub struct Access {
    pub bits: u32,
}

impl Access {
    pub const INDIRECT_COMMAND_READ: u32 = 0x1;
    pub const INDEX_BUFFER_READ: u32 = 0x2;
    pub const VERTEX_BUFFER_READ: u32 = 0x4;
    pub const UNIFORM_READ: u32 = 0x8;
    pub const SHADER_READ: u32 = 0x20;
    pub const SHADER_WRITE: u32 = 0x40;
    pub const TRANSFER_READ: u32 = 0x800;
    pub const TRANSFER_WRITE: u32 = 0x1000;
    pub const HOST_READ: u32 = 0x2000;
    pub const HOST_WRITE: u32 = 0x4000;
    pub const MEMORY_READ: u32 = 0x8000;
    pub const MEMORY_WRITE: u32 = 0x10000;
}

} // verus!
