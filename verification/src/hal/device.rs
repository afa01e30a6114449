//! Errors that a device of the hardware abstraction layer reports.

use vstd::prelude::*;

verus! {

/// Which memory ran out.
#[derive(Clone, Copy, Debug, PartialEq, Eq, Structural)]
pub enum OutOfMemory {
    Host,
    Device,
}

/// Why a memory allocation failed.
#[derive(Clone, Copy, Debug, PartialEq, Eq, Structural)]
pub enum AllocationError {
    OutOfMemory(OutOfMemory),
    TooManyObjects,
}

/// Why a logical device could not be created.
#[derive(Clone, Copy, Debug, PartialEq, Eq, Structural)]
pub enum CreationError {
    OutOfMemory(OutOfMemory),
    InitializationFailed,
    MissingExtension,
    MissingFeature,
    TooManyObjects,
    DeviceLost,
}


/// A failure that is either a lack of memory or a lost device.
#[derive(Clone, Copy, Debug, PartialEq, Eq, Structural)]
pub enum OomOrDeviceLost {
    OutOfMemory(OutOfMemory),
    DeviceLost,
}

} // verus!
