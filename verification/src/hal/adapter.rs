//! Physical devices of the hardware abstraction layer.

use vstd::prelude::*;

use crate::hal::memory::Properties;

verus! {

/// The kind of a physical device.
#[derive(Clone, Copy, Debug, PartialEq, Eq, Structural)]
pub enum DeviceType {
    Other,
    IntegratedGpu,
    DiscreteGpu,
    VirtualGpu,
    Cpu,
}

/// A memory type of a physical device, and the heap it belongs to.
#[derive(Clone, Copy, Debug, PartialEq, Eq, Structural)]
pub struct MemoryType {
    pub properties: Properties,
    pub heap_index: usize,
}

} // verus!
