//! Error taxonomy of the staging and dispatch protocol.

use vstd::prelude::*;

verus! {

/// A request was rejected before any device interaction.  Always recoverable
/// by the caller: fix the inputs and retry.
#[derive(Clone, Copy, Debug, PartialEq, Eq, Structural)]
pub enum ConfigurationError {
    /// An extent with a zero dimension, or one too large for the transfer
    /// sizes the protocol must declare.
    InvalidExtent,
    /// A declared byte capacity that is zero, not a whole number of
    /// elements, or too large for a dispatch grid.
    InvalidCapacity,
    /// An input with no elements.
    EmptyInput,
    /// An input whose length does not match the resource set's declared
    /// extent or capacity.
    CapacityMismatch,
}

/// Construction of a resource set failed in the driver: no partially built
/// set is exposed.  Raised by the unverified shell that performs the driver
/// calls when it executes a resource plan.
#[derive(Clone, Copy, Debug, PartialEq, Eq, Structural)]
pub enum BuildError {
    /// The kernel program failed to compile.
    Compilation,
    /// A memory object could not be created (capacity or device limits
    /// exceeded).
    Allocation,
}

/// The driver reported failure while making staging memory host-readable.
/// Fatal for that dispatch's completion handle; other resource sets are
/// unaffected unless the device itself was lost.
#[derive(Clone, Copy, Debug, PartialEq, Eq, Structural)]
pub enum MappingError {
    /// The device was lost; every further operation on it must be treated
    /// as fatal.
    DeviceLost,
    /// The driver reported some other mapping failure.
    MappingFailed,
}

/// Why consuming a completion handle yielded no output.
#[derive(Clone, Copy, Debug, PartialEq, Eq, Structural)]
pub enum ConsumeError {
    /// The handle was consumed before: exactly one consume is valid, and a
    /// second one is rejected rather than returning stale or empty data.
    AlreadyConsumed,
    /// The driver failed to map the staging memory; the carried cause is the
    /// driver-reported one.
    Mapping(MappingError),
}

} // verus!
