//! Queries of the hardware abstraction layer.

use vstd::prelude::*;

verus! {

/// Flags that control a query.
#[derive(Clone, Copy, Debug, PartialEq, Eq, Structural)]
pub struct ControlFlags {
    pub bits: u32,
}

impl ControlFlags {
    pub const PRECISE: u32 = 0x1;
    /// Every flag of the set.
    pub const ALL: u32 = 0x1;
}

/// Flags that control how query results are returned.
#[derive(Clone, Copy, Debug, PartialEq, Eq, Structural)]
pub struct ResultFlags {
    pub bits: u32,
}

impl ResultFlags {
    pub const BITS_64: u32 = 0x1;
    pub const WAIT: u32 = 0x2;
    pub const WITH_AVAILABILITY: u32 = 0x4;
    pub const PARTIAL: u32 = 0x8;
    /// Every flag of the set.
    pub const ALL: u32 = 0xF;
}

/// A set of pipeline statistics to query.
#[derive(Clone, Copy, Debug, PartialEq, Eq, Structural)]
pub struct PipelineStatistic {
    pub bits: u32,
}

impl PipelineStatistic {
    /// Every flag of the set.
    pub const ALL: u32 = 0x7FF;
}

/// The type of a query.
#[derive(Clone, Copy, Debug, PartialEq, Eq, Structural)]
pub enum Type {
    Occlusion,
    PipelineStatistics(PipelineStatistic),
    Timestamp,
}

} // verus!
