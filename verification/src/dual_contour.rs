//! The texture-backed resource set and its dispatch protocol.
//!
//! A `DualContourPipeline` owns the description of one resource set: a
//! field texture receiving the scalar field, a surface texture receiving the
//! kernel's output, and a host-readable staging buffer sized to the padded
//! texture-to-buffer copy.  `dispatch` validates one request and plans the
//! full command sequence; the unverified shell executes the plan against the
//! device and later resolves the returned `DualContourOutputBuffer` with the
//! driver's mapping outcome.

use vstd::arithmetic::div_mod::lemma_div_is_ordered;
use vstd::arithmetic::div_mod::lemma_div_multiples_vanish;
use vstd::arithmetic::div_mod::lemma_fundamental_div_mod;
use vstd::arithmetic::div_mod::lemma_mod_multiples_basic;
use vstd::arithmetic::mul::lemma_mul_is_commutative;
use vstd::prelude::*;

use crate::codec::strip_row_padding;
use crate::codec::stripped_spec;
use crate::codec::words_from_bytes;
use crate::codec::words_of_bytes;
use crate::error::ConfigurationError;
use crate::error::ConsumeError;
use crate::error::MappingError;
use crate::extent::Extent;
use crate::plan::BufferPlan;
use crate::plan::GridSize;
use crate::plan::ImageCopyLayout;
use crate::plan::MemoryUsage;
use crate::plan::TexelFormat;
use crate::plan::TexturePlan;
use crate::plan::INPUT_BINDING;
use crate::plan::OUTPUT_BINDING;
use crate::texture::aligned_texture_buffer_size_bytes;
use crate::texture::aligned_texture_bytes_per_row;
use crate::texture::buffer_size_spec;
use crate::texture::bytes_per_row_spec;
use crate::texture::extent_volume;

verus! {

/// Bytes of one texel: both the field texture (one 32-bit float channel)
/// and the surface texture (one 32-bit unsigned channel) store four bytes
/// per texel.
pub const TEXEL_SIZE: u32 = 4;

/// An extent the texture-backed resource set supports: positive dimensions,
/// an unpadded row short enough that its padded pitch still fits the 32-bit
/// pitch field, and staging size and volume that fit their 64-bit carriers.
pub open spec fn supported_extent(e: Extent) -> bool {
    &&& e.wf()
    &&& e.width * TEXEL_SIZE <= u32::MAX - 255
    &&& buffer_size_spec(e.width as int, TEXEL_SIZE as int, e.height as int, e.depth as int)
        <= u64::MAX
    &&& e.volume() <= u64::MAX
}

/// Size in bytes of the staging buffer of an `e`-shaped resource set.
pub open spec fn staging_size_spec(e: Extent) -> int {
    buffer_size_spec(e.width as int, TEXEL_SIZE as int, e.height as int, e.depth as int)
}

/// Number of 32-bit words of one padded staging row.
pub open spec fn padded_row_words_spec(e: Extent) -> int {
    bytes_per_row_spec(e.width as int, TEXEL_SIZE as int) / 4
}

/// The elements a texture-backed dispatch yields from the raw bytes of its
/// staging buffer: the bytes reinterpreted as words, with the per-row
/// alignment padding stripped.
pub open spec fn extracted_spec(e: Extent, bytes: Seq<u8>) -> Seq<u32> {
    stripped_spec(
        words_of_bytes(bytes),
        e.width as int,
        padded_row_words_spec(e),
        e.height * e.depth,
    )
}

/// The resource plan every `e`-shaped set is created from.
pub open spec fn resource_plan_spec(e: Extent) -> TextureResourcePlan {
    TextureResourcePlan {
        sdf_texture: TexturePlan {
            extent: e,
            format: TexelFormat::R32Float,
            usage: MemoryUsage {
                copy_src: false,
                copy_dst: true,
                storage: true,
                map_read: false,
                map_write: false,
            },
        },
        surface_texture: TexturePlan {
            extent: e,
            format: TexelFormat::R32Uint,
            usage: MemoryUsage {
                copy_src: true,
                copy_dst: false,
                storage: true,
                map_read: false,
                map_write: false,
            },
        },
        surface_staging_buffer: BufferPlan {
            size: staging_size_spec(e) as u64,
            usage: MemoryUsage {
                copy_src: false,
                copy_dst: true,
                storage: false,
                map_read: true,
                map_write: false,
            },
            mapped_at_creation: false,
        },
    }
}

/// The command plan every dispatch against an `e`-shaped set performs.
pub open spec fn dispatch_plan_spec(e: Extent) -> TextureDispatchPlan {
    TextureDispatchPlan {
        extent: e,
        write_layout: ImageCopyLayout {
            offset: 0,
            bytes_per_row: (e.width * TEXEL_SIZE) as u32,
            rows_per_image: e.height,
        },
        input_binding: INPUT_BINDING,
        output_binding: OUTPUT_BINDING,
        grid: GridSize {
            x: (e.width - 1) as u32,
            y: (e.height - 1) as u32,
            z: (e.depth - 1) as u32,
        },
        copy_layout: ImageCopyLayout {
            offset: 0,
            bytes_per_row: bytes_per_row_spec(e.width as int, TEXEL_SIZE as int) as u32,
            rows_per_image: e.height,
        },
        map_bytes: staging_size_spec(e) as u64,
    }
}

/// The memory objects the shell must create for one texture-backed resource
/// set, each with the usage roles its place in the protocol needs.  The
/// shell also compiles the kernel program once per set; a driver rejection
/// of either step is reported as a `BuildError` and no set is exposed.
#[derive(Clone, Copy, Debug, PartialEq, Eq, Structural)]
pub struct TextureResourcePlan {
    /// Input texture receiving the scalar field: written by host-to-device
    /// copy, read by the kernel.
    pub sdf_texture: TexturePlan,
    /// Output texture written by the kernel and copied out.
    pub surface_texture: TexturePlan,
    /// Host-readable staging buffer receiving the padded copy of the whole
    /// surface texture.
    pub surface_staging_buffer: BufferPlan,
}

/// One dispatch, planned: the shell performs the steps in field order —
/// write the field bytes into the input texture with `write_layout`, bind
/// the two textures to `input_binding` and `output_binding`, invoke the
/// kernel over `grid`, copy the output texture into the staging buffer with
/// `copy_layout`, submit, then request an asynchronous read mapping of the
/// staging buffer's `map_bytes` bytes.  Submission is fire-and-forget: the
/// queue orders the three device-side steps, and nothing blocks the host.
#[derive(Clone, Copy, Debug, PartialEq, Eq, Structural)]
pub struct TextureDispatchPlan {
    /// Shape of both the host-to-texture write and the texture-to-buffer
    /// copy: the resource set's whole extent.
    pub extent: Extent,
    /// Layout of the host write of the field: rows are unpadded, the driver
    /// repacks them.
    pub write_layout: ImageCopyLayout,
    /// Binding slot of the input texture.
    pub input_binding: u32,
    /// Binding slot of the output texture.
    pub output_binding: u32,
    /// Kernel invocations per axis: one per cell of `extent - 1`, since the
    /// kernel's local work-group reads a 2x2x2 neighbourhood and the
    /// boundary layer is never an origin cell.
    pub grid: GridSize,
    /// Layout of the copy into the staging buffer: rows at the padded
    /// hardware pitch.
    pub copy_layout: ImageCopyLayout,
    /// Bytes of the staging buffer to map for reading: all of it.
    pub map_bytes: u64,
}

/// The texture-backed resource set: compiled kernel plus the memory objects
/// of `TextureResourcePlan`, created once and reused across dispatches.
///
/// Resources are long-lived and shared between dispatches, so issuing a new
/// dispatch before the previous handle was consumed races the device's use
/// of the shared staging memory.  The protocol does not serialize
/// overlapping dispatches: consume each returned handle before the next
/// dispatch against the same set, or use independent sets for overlap.
pub struct DualContourPipeline {
    extent: Extent,
}

impl DualContourPipeline {
    /// The extent this resource set was planned for.
    pub closed spec fn extent_spec(self) -> Extent {
        self.extent
    }

    /// The set's construction-time invariant.
    pub open spec fn wf(self) -> bool {
        supported_extent(self.extent_spec())
    }

    /// The extent this resource set was planned for.
    pub fn extent(&self) -> (r: Extent)
        ensures
            r == self.extent_spec(),
    {
        self.extent
    }

    /// Plans one resource set for `extent`: the two textures and the staging
    /// buffer, the latter sized to the padded texture-to-buffer copy.
    /// Rejected before any device interaction iff the extent has a zero
    /// dimension or is too large for the transfer sizes the protocol must
    /// declare.
    pub fn new(extent: Extent) -> (r: Result<
        (DualContourPipeline, TextureResourcePlan),
        ConfigurationError,
    >)
        ensures
            r is Ok <==> supported_extent(extent),
            r matches Err(e) ==> e == ConfigurationError::InvalidExtent,
            r matches Ok((pipe, plan)) ==> {
                &&& pipe.extent_spec() == extent
                &&& pipe.wf()
                &&& plan == resource_plan_spec(extent)
            },
    {
        if extent.width == 0 || extent.height == 0 || extent.depth == 0 {
            return Err(ConfigurationError::InvalidExtent);
        }
        if extent.width > (u32::MAX - 255) / TEXEL_SIZE {
            return Err(ConfigurationError::InvalidExtent);
        }
        proof {
            assert((extent.width as int) * (extent.height as int) <= 0xFFFF_FFFF * 0xFFFF_FFFF)
                by (nonlinear_arith)
                requires
                    extent.width <= 0xFFFF_FFFFu32,
                    extent.height <= 0xFFFF_FFFFu32,
            ;
        }
        let wh: u64 = (extent.width as u64) * (extent.height as u64);
        let vol = match wh.checked_mul(extent.depth as u64) {
            Some(v) => v,
            None => {
                return Err(ConfigurationError::InvalidExtent);
            },
        };
        let bytes_per_row = aligned_texture_bytes_per_row(extent.width, TEXEL_SIZE);
        proof {
            assert((bytes_per_row as int) * (extent.height as int) <= 0xFFFF_FFFF * 0xFFFF_FFFF)
                by (nonlinear_arith)
                requires
                    bytes_per_row <= 0xFFFF_FFFFu32,
                    extent.height <= 0xFFFF_FFFFu32,
            ;
        }
        let row_height: u64 = (bytes_per_row as u64) * (extent.height as u64);
        let staging = match row_height.checked_mul(extent.depth as u64) {
            Some(v) => v,
            None => {
                return Err(ConfigurationError::InvalidExtent);
            },
        };
        let pipe = DualContourPipeline { extent };
        let plan = TextureResourcePlan {
            sdf_texture: TexturePlan {
                extent,
                format: TexelFormat::R32Float,
                usage: MemoryUsage {
                    copy_src: false,
                    copy_dst: true,
                    storage: true,
                    map_read: false,
                    map_write: false,
                },
            },
            surface_texture: TexturePlan {
                extent,
                format: TexelFormat::R32Uint,
                usage: MemoryUsage {
                    copy_src: true,
                    copy_dst: false,
                    storage: true,
                    map_read: false,
                    map_write: false,
                },
            },
            surface_staging_buffer: BufferPlan {
                size: staging,
                usage: MemoryUsage {
                    copy_src: false,
                    copy_dst: true,
                    storage: false,
                    map_read: true,
                    map_write: false,
                },
                mapped_at_creation: false,
            },
        };
        Ok((pipe, plan))
    }

    /// Plans one dispatch of the field `sdf` (one 32-bit sample per cell,
    /// in row-major order).  Rejected before any device interaction iff the
    /// input's length does not match the extent's volume; on success every
    /// step of the returned plan is pinned, and the returned handle is the
    /// unconsumed completion handle of this dispatch's staging buffer.
    pub fn dispatch(&self, sdf: &Vec<u32>) -> (r: Result<
        (TextureDispatchPlan, DualContourOutputBuffer),
        ConfigurationError,
    >)
        requires
            self.wf(),
        ensures
            r is Ok <==> sdf@.len() == self.extent_spec().volume(),
            r matches Err(e) ==> e == ConfigurationError::CapacityMismatch,
            r matches Ok((plan, handle)) ==> {
                &&& plan == dispatch_plan_spec(self.extent_spec())
                &&& handle.extent_spec() == self.extent_spec()
                &&& !handle.is_consumed_spec()
                &&& handle.wf()
            },
    {
        let volume = extent_volume(&self.extent);
        if sdf.len() as u64 != volume {
            return Err(ConfigurationError::CapacityMismatch);
        }
        let bytes_per_row = aligned_texture_bytes_per_row(self.extent.width, TEXEL_SIZE);
        let staging = aligned_texture_buffer_size_bytes(&self.extent, TEXEL_SIZE);
        let plan = TextureDispatchPlan {
            extent: self.extent,
            write_layout: ImageCopyLayout {
                offset: 0,
                bytes_per_row: self.extent.width * TEXEL_SIZE,
                rows_per_image: self.extent.height,
            },
            input_binding: INPUT_BINDING,
            output_binding: OUTPUT_BINDING,
            grid: GridSize {
                x: self.extent.width - 1,
                y: self.extent.height - 1,
                z: self.extent.depth - 1,
            },
            copy_layout: ImageCopyLayout {
                offset: 0,
                bytes_per_row,
                rows_per_image: self.extent.height,
            },
            map_bytes: staging,
        };
        let handle = DualContourOutputBuffer { extent: self.extent, consumed: false };
        Ok((plan, handle))
    }
}

/// The completion handle of one texture-backed dispatch: the pending
/// asynchronous readiness signal of the staging buffer, and the exclusive
/// right to read the mapping once and release it.  Do not drop an
/// unresolved handle while the driver may still write through its staging
/// buffer.
pub struct DualContourOutputBuffer {
    extent: Extent,
    consumed: bool,
}

impl DualContourOutputBuffer {
    /// The extent of the resource set this handle borrows from.
    pub closed spec fn extent_spec(self) -> Extent {
        self.extent
    }

    /// Whether the single valid consume already happened.
    pub closed spec fn is_consumed_spec(self) -> bool {
        self.consumed
    }

    /// The handle's construction-time invariant.
    pub open spec fn wf(self) -> bool {
        supported_extent(self.extent_spec())
    }

    /// Whether the single valid consume already happened.
    pub fn is_consumed(&self) -> (r: bool)
        ensures
            r == self.is_consumed_spec(),
    {
        self.consumed
    }

    /// Consumes the handle.  The shell calls this after waiting for the
    /// driver's mapping signal, passing either the full raw contents of the
    /// mapped staging buffer or the driver-reported failure; it releases
    /// the mapping (unmaps) after this returns, on success and failure
    /// alike.  Exactly one consume is valid: a second call is rejected with
    /// `AlreadyConsumed` and never returns stale data.  On success the
    /// result is the staging bytes reinterpreted as 32-bit elements with
    /// the row padding stripped: exactly one element per cell of the
    /// extent.  A mapping failure is fatal for this dispatch and is
    /// propagated, never downgraded to a default result.
    pub fn unwrap(&mut self, mapped: Result<Vec<u8>, MappingError>) -> (r: Result<
        Vec<u32>,
        ConsumeError,
    >)
        requires
            old(self).wf(),
            mapped matches Ok(bytes) ==> bytes@.len() == staging_size_spec(
                old(self).extent_spec(),
            ),
        ensures
            final(self).extent_spec() == old(self).extent_spec(),
            final(self).is_consumed_spec(),
            old(self).is_consumed_spec() ==> r == Err::<Vec<u32>, ConsumeError>(
                ConsumeError::AlreadyConsumed,
            ),
            !old(self).is_consumed_spec() ==> (mapped matches Err(e) ==> r == Err::<
                Vec<u32>,
                ConsumeError,
            >(ConsumeError::Mapping(e))),
            !old(self).is_consumed_spec() ==> (mapped matches Ok(bytes) ==> (r matches Ok(out)
                && out@ == extracted_spec(old(self).extent_spec(), bytes@) && out@.len() == old(
                self,
            ).extent_spec().volume())),
    {
        if self.consumed {
            return Err(ConsumeError::AlreadyConsumed);
        }
        self.consumed = true;
        match mapped {
            Err(e) => Err(ConsumeError::Mapping(e)),
            Ok(bytes) => {
                let e = self.extent;
                let len: usize = bytes.len();
                let bytes_per_row = aligned_texture_bytes_per_row(e.width, TEXEL_SIZE);
                let row_words: usize = (bytes_per_row / 4) as usize;
                proof {
                    lemma_strip_arithmetic(e, bytes_per_row, len as int);
                }
                let rows: usize = (e.height as usize) * (e.depth as usize);
                let words = words_from_bytes(&bytes);
                let out = strip_row_padding(&words, e.width as usize, row_words, rows);
                proof {
                    assert((e.width as int) * ((e.height as int) * (e.depth as int)) == (
                    e.width as int) * (e.height as int) * (e.depth as int)) by (nonlinear_arith);
                }
                Ok(out)
            },
        }
    }
}

/// A pool of independent, equally shaped resource sets, for callers that
/// want dispatches in flight concurrently.  One resource set must not have
/// two unconsumed dispatches against it (the documented staging hazard);
/// the pool instead hands successive dispatches to its sets in rotation, so
/// as many completion handles as there are sets can be outstanding safely,
/// one per set.
pub struct DualContourPipelinePool {
    pipelines: Vec<DualContourPipeline>,
    next: usize,
}

impl DualContourPipelinePool {
    /// Number of independent resource sets.
    pub closed spec fn len_spec(self) -> int {
        self.pipelines@.len() as int
    }

    /// The set the next dispatch is handed to.
    pub closed spec fn next_spec(self) -> int {
        self.next as int
    }

    /// The extent every set of the pool was planned for.
    pub closed spec fn extent_spec(self) -> Extent {
        self.pipelines@[0].extent_spec()
    }

    /// The pool's construction-time invariant: at least one set, every set
    /// planned for the same supported extent, and the rotation cursor in
    /// range.
    pub closed spec fn wf(self) -> bool {
        &&& self.pipelines@.len() >= 1
        &&& self.next < self.pipelines@.len()
        &&& forall|i: int|
            0 <= i < self.pipelines@.len() ==> (#[trigger] self.pipelines@[i]).extent_spec()
                == self.extent_spec()
        &&& supported_extent(self.extent_spec())
    }

    /// Number of independent resource sets.
    pub fn len(&self) -> (r: usize)
        requires
            self.wf(),
        ensures
            r == self.len_spec(),
    {
        self.pipelines.len()
    }

    /// Plans `count` independent resource sets for `extent`, one resource
    /// plan per set for the shell to create.  Rejected iff `count` is zero
    /// or the extent is unsupported.
    pub fn new(extent: Extent, count: usize) -> (r: Result<
        (DualContourPipelinePool, Vec<TextureResourcePlan>),
        ConfigurationError,
    >)
        ensures
            r is Ok <==> count >= 1 && supported_extent(extent),
            count == 0 ==> r == Err::<
                (DualContourPipelinePool, Vec<TextureResourcePlan>),
                ConfigurationError,
            >(ConfigurationError::InvalidCapacity),
            count >= 1 && !supported_extent(extent) ==> r == Err::<
                (DualContourPipelinePool, Vec<TextureResourcePlan>),
                ConfigurationError,
            >(ConfigurationError::InvalidExtent),
            r matches Ok((pool, plans)) ==> {
                &&& pool.wf()
                &&& pool.len_spec() == count
                &&& pool.next_spec() == 0
                &&& pool.extent_spec() == extent
                &&& plans@.len() == count
                &&& forall|i: int| 0 <= i < count ==> plans@[i] == resource_plan_spec(extent)
            },
    {
        if count == 0 {
            return Err(ConfigurationError::InvalidCapacity);
        }
        let mut pipelines: Vec<DualContourPipeline> = Vec::new();
        let mut plans: Vec<TextureResourcePlan> = Vec::new();
        let mut i: usize = 0;
        while i < count
            invariant
                i <= count,
                pipelines@.len() == i,
                plans@.len() == i,
                forall|j: int|
                    0 <= j < i ==> (#[trigger] pipelines@[j]).extent_spec() == extent,
                forall|j: int| 0 <= j < i ==> plans@[j] == resource_plan_spec(extent),
                i >= 1 ==> supported_extent(extent),
            decreases count - i,
        {
            match DualContourPipeline::new(extent) {
                Ok((pipe, plan)) => {
                    pipelines.push(pipe);
                    plans.push(plan);
                },
                Err(e) => {
                    return Err(e);
                },
            }
            i = i + 1;
        }
        Ok((DualContourPipelinePool { pipelines, next: 0 }, plans))
    }

    /// Plans one dispatch against the pool's next set in rotation and
    /// advances the rotation.  Returns the index of the set used, so the
    /// shell executes the plan against that set's memory objects and
    /// resolves the handle against that set's staging buffer.  Rejected,
    /// with the rotation unmoved, iff the input's length does not match the
    /// extent's volume.
    pub fn dispatch(&mut self, sdf: &Vec<u32>) -> (r: Result<
        (usize, TextureDispatchPlan, DualContourOutputBuffer),
        ConfigurationError,
    >)
        requires
            old(self).wf(),
        ensures
            final(self).wf(),
            final(self).len_spec() == old(self).len_spec(),
            final(self).extent_spec() == old(self).extent_spec(),
            r is Ok <==> sdf@.len() == old(self).extent_spec().volume(),
            r matches Err(e) ==> e == ConfigurationError::CapacityMismatch && final(self)
                .next_spec() == old(self).next_spec(),
            r matches Ok((idx, plan, handle)) ==> {
                &&& idx == old(self).next_spec()
                &&& final(self).next_spec() == (if old(self).next_spec() + 1 == old(
                    self,
                ).len_spec() {
                    0int
                } else {
                    old(self).next_spec() + 1
                })
                &&& plan == dispatch_plan_spec(old(self).extent_spec())
                &&& handle.extent_spec() == old(self).extent_spec()
                &&& !handle.is_consumed_spec()
                &&& handle.wf()
            },
    {
        let idx = self.next;
        let count = self.pipelines.len();
        match self.pipelines[idx].dispatch(sdf) {
            Ok((plan, handle)) => {
                self.next = if idx + 1 == count {
                    0
                } else {
                    idx + 1
                };
                Ok((idx, plan, handle))
            },
            Err(e) => Err(e),
        }
    }
}

/// Relates the staging size of a supported extent to the element counts the
/// padding strip works with: the staging words split into `height * depth`
/// padded rows of `bytes_per_row / 4` words, each at least `width` long.
proof fn lemma_strip_arithmetic(e: Extent, bytes_per_row: u32, len: int)
    requires
        supported_extent(e),
        bytes_per_row == bytes_per_row_spec(e.width as int, TEXEL_SIZE as int),
        bytes_per_row % 256 == 0,
        bytes_per_row >= e.width * TEXEL_SIZE,
        len == staging_size_spec(e),
        len <= usize::MAX,
    ensures
        (e.height as int) * (e.depth as int) <= usize::MAX,
        len / 4 == ((e.height as int) * (e.depth as int)) * (bytes_per_row as int / 4),
        e.width <= bytes_per_row as int / 4,
        bytes_per_row as int / 4 == padded_row_words_spec(e),
{
    let b = bytes_per_row as int;
    let h = e.height as int;
    let d = e.depth as int;
    let w = e.width as int;

    // bytes_per_row is a positive multiple of 4.
    let k = b / 256;
    lemma_fundamental_div_mod(b, 256);
    assert(b == 4 * (64 * k));
    lemma_fundamental_div_mod(b, 4);
    lemma_mod_multiples_basic(64 * k, 4);
    lemma_mul_is_commutative(64 * k, 4);
    let rw = b / 4;
    assert(b == 4 * rw);

    // The staging size splits into rows of rw words.
    assert(b * h * d == 4 * (rw * h * d)) by (nonlinear_arith)
        requires
            b == 4 * rw,
    ;
    lemma_div_multiples_vanish(rw * h * d, 4);
    assert(len / 4 == rw * h * d);
    assert(rw * h * d == (h * d) * rw) by (nonlinear_arith);

    // Row count fits: each padded row holds at least one word.
    assert(h * d <= b * h * d) by (nonlinear_arith)
        requires
            b >= 1,
            h >= 1,
            d >= 1,
    ;

    // Each padded row holds at least the extent's width in words.
    lemma_div_is_ordered(4 * w, b, 4);
    lemma_div_multiples_vanish(w, 4);
}

} // verus!
