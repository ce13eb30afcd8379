//! Value-level descriptions of the driver work one dispatch needs.
//!
//! The verified protocol decides *what* the device must do — which memory
//! objects to create, with which sizes and usage roles, which copy layouts
//! to declare, and how large the dispatch grid is — and records those
//! decisions in the plain structures below.  The unverified shell executes
//! them against the real device in the order their fields are documented.

use vstd::prelude::*;

verus! {

/// Binding slot of the kernel's input memory object: a fixed part of the
/// kernel's interface contract, not negotiated at runtime.
pub const INPUT_BINDING: u32 = 0;

/// Binding slot of the kernel's output memory object: a fixed part of the
/// kernel's interface contract, not negotiated at runtime.
pub const OUTPUT_BINDING: u32 = 1;

/// Usage roles a GPU memory object is created with.  Each flag names one
/// role the protocol needs: written from the host, read or written by the
/// kernel, copied from or into, or mapped for host reading or writing.
#[derive(Clone, Copy, Debug, PartialEq, Eq, Structural)]
pub struct MemoryUsage {
    /// The object is the source of a device-side copy.
    pub copy_src: bool,
    /// The object is the destination of a device-side copy or host write.
    pub copy_dst: bool,
    /// The kernel reads or writes the object through a binding slot.
    pub storage: bool,
    /// The host maps the object for reading.
    pub map_read: bool,
    /// The host maps the object for writing.
    pub map_write: bool,
}

/// Texel format of a texture memory object.
#[derive(Clone, Copy, Debug, PartialEq, Eq, Structural)]
pub enum TexelFormat {
    /// One 32-bit floating-point channel: the scalar field samples.
    R32Float,
    /// One 32-bit unsigned-integer channel: the extracted surface cells.
    R32Uint,
}

/// Description of one buffer the shell must create.
#[derive(Clone, Copy, Debug, PartialEq, Eq, Structural)]
pub struct BufferPlan {
    /// Size of the buffer in bytes.
    pub size: u64,
    /// Usage roles the buffer is created with.
    pub usage: MemoryUsage,
    /// Whether the buffer starts out mapped for host writing.
    pub mapped_at_creation: bool,
}

/// Description of one 3-D texture the shell must create.
#[derive(Clone, Copy, Debug, PartialEq, Eq, Structural)]
pub struct TexturePlan {
    /// Shape of the texture.
    pub extent: crate::extent::Extent,
    /// Texel format of the texture.
    pub format: TexelFormat,
    /// Usage roles the texture is created with.
    pub usage: MemoryUsage,
}

/// Byte layout of a host-to-texture write or a texture-to-buffer copy: the
/// buffer-side offset, the byte stride between consecutive rows, and the
/// number of rows of one image slice.
#[derive(Clone, Copy, Debug, PartialEq, Eq, Structural)]
pub struct ImageCopyLayout {
    /// Byte offset into the buffer side of the transfer.
    pub offset: u64,
    /// Byte stride between consecutive rows.
    pub bytes_per_row: u32,
    /// Rows per image slice, for 3-D transfers.
    pub rows_per_image: u32,
}

/// Number of kernel invocations along each axis of one dispatch.
#[derive(Clone, Copy, Debug, PartialEq, Eq, Structural)]
pub struct GridSize {
    pub x: u32,
    pub y: u32,
    pub z: u32,
}

} // verus!
