//! Queue families of the hardware abstraction layer.

use vstd::prelude::*;

verus! {

/// What the queues of a family can do.
#[derive(Clone, Copy, Debug, PartialEq, Eq, Structural)]
pub enum QueueType {
    General,
    Graphics,
    Compute,
    Transfer,
}

} // verus!
