//! Host-side staging and dispatch protocol for a GPU compute kernel that
//! extracts a surface from a scalar field.
//!
//! The kernel itself is an opaque compiled program; this crate verifies the
//! host's side of the exchange: the row-alignment arithmetic that sizes
//! staging memory, the resource and dispatch plans handed to the device
//! driver, the single-consume completion protocol for mapped staging memory,
//! and the reinterpretation of raw staging bytes as typed elements with row
//! padding stripped.  The driver calls themselves (allocation, submission,
//! asynchronous mapping) are performed by an unverified shell that executes
//! the plans produced here.

pub mod codec;
pub mod dual_contour;
pub mod error;
pub mod extent;
pub mod linear;
pub mod plan;
pub mod texture;

pub use texture::aligned_texture_buffer_size_bytes;
pub use texture::aligned_texture_bytes_per_row;
pub use texture::extent_volume;
pub use texture::next_multiple;
