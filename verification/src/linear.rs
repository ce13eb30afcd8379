//! The two linear (buffer-backed) resource-set shapes.
//!
//! Both feed a one-dimensional run of 32-bit elements through the kernel
//! with one invocation per element and no row padding anywhere.  The
//! double-staged shape keeps four fixed-capacity buffers and moves input
//! through an explicit host-staging hop, so no live host mapping is held
//! across the compute submission; the single-buffer shape reuses one
//! GPU-visible buffer as both kernel input and output and allocates a fresh
//! read-staging buffer per dispatch.

use vstd::arithmetic::div_mod::lemma_div_multiples_vanish;
use vstd::arithmetic::div_mod::lemma_fundamental_div_mod;
use vstd::arithmetic::div_mod::lemma_mod_multiples_basic;
use vstd::arithmetic::mul::lemma_mul_is_commutative;
use vstd::prelude::*;

use crate::codec::bytes_from_words;
use crate::codec::bytes_of_words;
use crate::codec::words_from_bytes;
use crate::codec::words_of_bytes;
use crate::error::ConfigurationError;
use crate::error::ConsumeError;
use crate::error::MappingError;
use crate::plan::BufferPlan;
use crate::plan::GridSize;
use crate::plan::MemoryUsage;
use crate::plan::INPUT_BINDING;
use crate::plan::OUTPUT_BINDING;

verus! {

/// A byte capacity the linear shapes support: positive, a whole number of
/// 32-bit elements, and few enough elements for a one-axis dispatch grid.
pub open spec fn supported_capacity(capacity: int) -> bool {
    &&& capacity > 0
    &&& capacity % 4 == 0
    &&& capacity / 4 <= u32::MAX
}

/// An input fits a linear shape iff it is non-empty and its byte length is
/// within the fixed capacity.
pub open spec fn fits(len: int, capacity: int) -> bool {
    1 <= len && 4 * len <= capacity
}

/// `4 * len <= capacity` can be decided without multiplying, by comparing
/// `len` against the capacity's element count.
proof fn lemma_fits_by_quarter(len: int, capacity: int)
    requires
        supported_capacity(capacity),
    ensures
        4 * len <= capacity <==> len <= capacity / 4,
{
    lemma_fundamental_div_mod(capacity, 4);
}

/// The four fixed-capacity buffers of one double-staged resource set, in
/// the order data moves through them.  The shell also compiles the kernel
/// program once per set; a driver rejection of either step is a
/// `BuildError` and no set is exposed.
#[derive(Clone, Copy, Debug, PartialEq, Eq, Structural)]
pub struct StagedResourcePlan {
    /// Host-writable staging buffer the input bytes are written into.
    pub upload_staging: BufferPlan,
    /// GPU-private buffer the kernel reads, filled by copy from the upload
    /// staging buffer.
    pub input_buffer: BufferPlan,
    /// GPU-private buffer the kernel writes.
    pub output_buffer: BufferPlan,
    /// Host-readable staging buffer the output is copied into.
    pub read_staging: BufferPlan,
}

/// One double-staged dispatch, planned: the shell performs the steps in
/// field order — write `host_write` into the upload staging buffer at
/// offset 0, copy `upload_copy_bytes` from it into the input buffer, bind
/// input and output buffers to their slots, invoke the kernel over `grid`,
/// copy `readback_copy_bytes` from the output buffer into the read staging
/// buffer, submit, then request an asynchronous read mapping of the first
/// `map_bytes` bytes of the read staging buffer.
#[derive(Clone, Debug)]
pub struct StagedDispatchPlan {
    /// Byte encoding of the input elements, to write into the upload
    /// staging buffer.
    pub host_write: Vec<u8>,
    /// Bytes to copy from the upload staging buffer into the input buffer.
    pub upload_copy_bytes: u64,
    /// Binding slot of the input buffer.
    pub input_binding: u32,
    /// Binding slot of the output buffer.
    pub output_binding: u32,
    /// Kernel invocations: one per input element, along one axis.
    pub grid: GridSize,
    /// Bytes to copy from the output buffer into the read staging buffer.
    pub readback_copy_bytes: u64,
    /// Bytes of the read staging buffer to map for reading.
    pub map_bytes: u64,
}

/// The double-staged linear resource set: four equally sized buffers,
/// created once and reused across dispatches.
///
/// As with every shape, resources are shared between dispatches: consume
/// each returned handle before the next dispatch against the same set, or
/// use independent sets for overlap.
pub struct StagedBufferPipeline {
    capacity: u64,
}

impl StagedBufferPipeline {
    /// The fixed byte capacity every buffer of the set was planned with.
    pub closed spec fn capacity_spec(self) -> int {
        self.capacity as int
    }

    /// The set's construction-time invariant.
    pub open spec fn wf(self) -> bool {
        supported_capacity(self.capacity_spec())
    }

    /// The fixed byte capacity every buffer of the set was planned with.
    pub fn capacity(&self) -> (r: u64)
        ensures
            r == self.capacity_spec(),
    {
        self.capacity
    }

    /// Plans one double-staged resource set of the given fixed byte
    /// capacity.  Rejected before any device interaction iff the capacity
    /// is zero, not a whole number of elements, or too large for a one-axis
    /// dispatch grid.
    pub fn new(capacity_bytes: u64) -> (r: Result<
        (StagedBufferPipeline, StagedResourcePlan),
        ConfigurationError,
    >)
        ensures
            r is Ok <==> supported_capacity(capacity_bytes as int),
            r matches Err(e) ==> e == ConfigurationError::InvalidCapacity,
            r matches Ok((pipe, plan)) ==> {
                &&& pipe.capacity_spec() == capacity_bytes
                &&& pipe.wf()
                &&& plan.upload_staging == (BufferPlan {
                    size: capacity_bytes,
                    usage: (MemoryUsage {
                        copy_src: true,
                        copy_dst: false,
                        storage: false,
                        map_read: false,
                        map_write: true,
                    }),
                    mapped_at_creation: false,
                })
                &&& plan.input_buffer == (BufferPlan {
                    size: capacity_bytes,
                    usage: (MemoryUsage {
                        copy_src: false,
                        copy_dst: true,
                        storage: true,
                        map_read: false,
                        map_write: false,
                    }),
                    mapped_at_creation: false,
                })
                &&& plan.output_buffer == (BufferPlan {
                    size: capacity_bytes,
                    usage: (MemoryUsage {
                        copy_src: true,
                        copy_dst: false,
                        storage: true,
                        map_read: false,
                        map_write: false,
                    }),
                    mapped_at_creation: false,
                })
                &&& plan.read_staging == (BufferPlan {
                    size: capacity_bytes,
                    usage: (MemoryUsage {
                        copy_src: false,
                        copy_dst: true,
                        storage: false,
                        map_read: true,
                        map_write: false,
                    }),
                    mapped_at_creation: false,
                })
            },
    {
        if capacity_bytes == 0 || capacity_bytes % 4 != 0 || capacity_bytes / 4 > (
        u32::MAX as u64) {
            return Err(ConfigurationError::InvalidCapacity);
        }
        let pipe = StagedBufferPipeline { capacity: capacity_bytes };
        let plan = StagedResourcePlan {
            upload_staging: BufferPlan {
                size: capacity_bytes,
                usage: MemoryUsage {
                    copy_src: true,
                    copy_dst: false,
                    storage: false,
                    map_read: false,
                    map_write: true,
                },
                mapped_at_creation: false,
            },
            input_buffer: BufferPlan {
                size: capacity_bytes,
                usage: MemoryUsage {
                    copy_src: false,
                    copy_dst: true,
                    storage: true,
                    map_read: false,
                    map_write: false,
                },
                mapped_at_creation: false,
            },
            output_buffer: BufferPlan {
                size: capacity_bytes,
                usage: MemoryUsage {
                    copy_src: true,
                    copy_dst: false,
                    storage: true,
                    map_read: false,
                    map_write: false,
                },
                mapped_at_creation: false,
            },
            read_staging: BufferPlan {
                size: capacity_bytes,
                usage: MemoryUsage {
                    copy_src: false,
                    copy_dst: true,
                    storage: false,
                    map_read: true,
                    map_write: false,
                },
                mapped_at_creation: false,
            },
        };
        Ok((pipe, plan))
    }

    /// Plans one dispatch of `input` through the double-staged set.
    /// Rejected before any device interaction iff the input is empty or its
    /// byte length exceeds the fixed capacity; on success every step of the
    /// returned plan is pinned and the returned handle is the unconsumed
    /// completion handle of the read staging buffer.
    pub fn dispatch(&self, input: &Vec<u32>) -> (r: Result<
        (StagedDispatchPlan, LinearOutputBuffer),
        ConfigurationError,
    >)
        requires
            self.wf(),
            4 * input@.len() <= usize::MAX,
        ensures
            r is Ok <==> fits(input@.len() as int, self.capacity_spec()),
            input@.len() == 0 ==> r == Err::<
                (StagedDispatchPlan, LinearOutputBuffer),
                ConfigurationError,
            >(ConfigurationError::EmptyInput),
            input@.len() >= 1 && !fits(input@.len() as int, self.capacity_spec()) ==> r == Err::<
                (StagedDispatchPlan, LinearOutputBuffer),
                ConfigurationError,
            >(ConfigurationError::CapacityMismatch),
            r matches Ok((plan, handle)) ==> {
                &&& plan.host_write@ == bytes_of_words(input@)
                &&& plan.upload_copy_bytes == 4 * input@.len()
                &&& plan.input_binding == INPUT_BINDING
                &&& plan.output_binding == OUTPUT_BINDING
                &&& plan.grid == (GridSize { x: input@.len() as u32, y: 1, z: 1 })
                &&& plan.readback_copy_bytes == 4 * input@.len()
                &&& plan.map_bytes == 4 * input@.len()
                &&& handle.len_spec() == input@.len()
                &&& !handle.is_consumed_spec()
            },
    {
        plan_linear_transfer(input, self.capacity)
    }
}

/// The single GPU-visible buffer of one single-buffer resource set.  The
/// buffer is created directly from the initial input's byte contents and is
/// reused in place as both kernel input and output.
#[derive(Clone, Debug)]
pub struct SingleResourcePlan {
    /// The shared buffer, sized to the initial contents.
    pub buffer: BufferPlan,
    /// Byte encoding of the initial elements the buffer is created from.
    pub initial_contents: Vec<u8>,
}

/// One single-buffer dispatch, planned: the shell performs the steps in
/// field order — write `host_write` into the shared buffer at offset 0,
/// bind that same buffer to both binding slots, invoke the kernel over
/// `grid`, create the per-dispatch read staging buffer described by
/// `staging`, copy `readback_copy_bytes` from the shared buffer into it,
/// submit, then request an asynchronous read mapping of its `map_bytes`
/// bytes.
#[derive(Clone, Debug)]
pub struct SingleDispatchPlan {
    /// Byte encoding of the input elements, to write into the shared
    /// buffer.
    pub host_write: Vec<u8>,
    /// Binding slot for the kernel's input; bound to the shared buffer.
    pub input_binding: u32,
    /// Binding slot for the kernel's output; bound to the same shared
    /// buffer.
    pub output_binding: u32,
    /// Kernel invocations: one per input element, along one axis.
    pub grid: GridSize,
    /// The read staging buffer to create for this dispatch, sized to the
    /// current input's byte length.
    pub staging: BufferPlan,
    /// Bytes to copy from the shared buffer into the staging buffer.
    pub readback_copy_bytes: u64,
    /// Bytes of the staging buffer to map for reading.
    pub map_bytes: u64,
}

/// The single-buffer linear resource set: one shared buffer whose capacity
/// is fixed by the initial contents at construction.
///
/// As with every shape, the buffer is shared between dispatches: consume
/// each returned handle before the next dispatch against the same set, or
/// use independent sets for overlap.
pub struct SingleBufferPipeline {
    capacity: u64,
}

impl SingleBufferPipeline {
    /// The shared buffer's byte capacity, fixed at construction.
    pub closed spec fn capacity_spec(self) -> int {
        self.capacity as int
    }

    /// The set's construction-time invariant.
    pub open spec fn wf(self) -> bool {
        supported_capacity(self.capacity_spec())
    }

    /// The shared buffer's byte capacity, fixed at construction.
    pub fn capacity(&self) -> (r: u64)
        ensures
            r == self.capacity_spec(),
    {
        self.capacity
    }

    /// Plans one single-buffer resource set whose shared buffer is created
    /// directly from `initial`'s byte contents.  Rejected before any device
    /// interaction iff the initial input is empty or holds too many
    /// elements for a one-axis dispatch grid.
    pub fn new(initial: &Vec<u32>) -> (r: Result<
        (SingleBufferPipeline, SingleResourcePlan),
        ConfigurationError,
    >)
        requires
            4 * initial@.len() <= usize::MAX,
        ensures
            r is Ok <==> 1 <= initial@.len() <= u32::MAX,
            initial@.len() == 0 ==> r == Err::<
                (SingleBufferPipeline, SingleResourcePlan),
                ConfigurationError,
            >(ConfigurationError::EmptyInput),
            initial@.len() > u32::MAX ==> r == Err::<
                (SingleBufferPipeline, SingleResourcePlan),
                ConfigurationError,
            >(ConfigurationError::InvalidCapacity),
            r matches Ok((pipe, plan)) ==> {
                &&& pipe.capacity_spec() == 4 * initial@.len()
                &&& pipe.wf()
                &&& plan.buffer == (BufferPlan {
                    size: (4 * initial@.len()) as u64,
                    usage: (MemoryUsage {
                        copy_src: true,
                        copy_dst: true,
                        storage: true,
                        map_read: false,
                        map_write: false,
                    }),
                    mapped_at_creation: false,
                })
                &&& plan.initial_contents@ == bytes_of_words(initial@)
            },
    {
        if initial.len() == 0 {
            return Err(ConfigurationError::EmptyInput);
        }
        if initial.len() as u64 > u32::MAX as u64 {
            return Err(ConfigurationError::InvalidCapacity);
        }
        let contents = bytes_from_words(initial);
        let size: u64 = (initial.len() as u64) * 4;
        proof {
            lemma_mod_multiples_basic(initial@.len() as int, 4);
            lemma_mul_is_commutative(initial@.len() as int, 4);
            lemma_div_multiples_vanish(initial@.len() as int, 4);
        }
        let pipe = SingleBufferPipeline { capacity: size };
        let plan = SingleResourcePlan {
            buffer: BufferPlan {
                size,
                usage: MemoryUsage {
                    copy_src: true,
                    copy_dst: true,
                    storage: true,
                    map_read: false,
                    map_write: false,
                },
                mapped_at_creation: false,
            },
            initial_contents: contents,
        };
        Ok((pipe, plan))
    }

    /// Plans one dispatch of `input` through the single-buffer set.
    /// Rejected before any device interaction iff the input is empty or its
    /// byte length exceeds the shared buffer's capacity; on success every
    /// step of the returned plan is pinned and the returned handle is the
    /// unconsumed completion handle of the per-dispatch staging buffer.
    pub fn dispatch(&self, input: &Vec<u32>) -> (r: Result<
        (SingleDispatchPlan, LinearOutputBuffer),
        ConfigurationError,
    >)
        requires
            self.wf(),
            4 * input@.len() <= usize::MAX,
        ensures
            r is Ok <==> fits(input@.len() as int, self.capacity_spec()),
            input@.len() == 0 ==> r == Err::<
                (SingleDispatchPlan, LinearOutputBuffer),
                ConfigurationError,
            >(ConfigurationError::EmptyInput),
            input@.len() >= 1 && !fits(input@.len() as int, self.capacity_spec()) ==> r == Err::<
                (SingleDispatchPlan, LinearOutputBuffer),
                ConfigurationError,
            >(ConfigurationError::CapacityMismatch),
            r matches Ok((plan, handle)) ==> {
                &&& plan.host_write@ == bytes_of_words(input@)
                &&& plan.input_binding == INPUT_BINDING
                &&& plan.output_binding == OUTPUT_BINDING
                &&& plan.grid == (GridSize { x: input@.len() as u32, y: 1, z: 1 })
                &&& plan.staging == (BufferPlan {
                    size: (4 * input@.len()) as u64,
                    usage: (MemoryUsage {
                        copy_src: false,
                        copy_dst: true,
                        storage: false,
                        map_read: true,
                        map_write: false,
                    }),
                    mapped_at_creation: false,
                })
                &&& plan.readback_copy_bytes == 4 * input@.len()
                &&& plan.map_bytes == 4 * input@.len()
                &&& handle.len_spec() == input@.len()
                &&& !handle.is_consumed_spec()
            },
    {
        if input.len() == 0 {
            return Err(ConfigurationError::EmptyInput);
        }
        proof {
            lemma_fits_by_quarter(input@.len() as int, self.capacity as int);
        }
        if input.len() as u64 > self.capacity / 4 {
            return Err(ConfigurationError::CapacityMismatch);
        }
        let host_write = bytes_from_words(input);
        let byte_len: u64 = (input.len() as u64) * 4;
        let plan = SingleDispatchPlan {
            host_write,
            input_binding: INPUT_BINDING,
            output_binding: OUTPUT_BINDING,
            grid: GridSize { x: input.len() as u32, y: 1, z: 1 },
            staging: BufferPlan {
                size: byte_len,
                usage: MemoryUsage {
                    copy_src: false,
                    copy_dst: true,
                    storage: false,
                    map_read: true,
                    map_write: false,
                },
                mapped_at_creation: false,
            },
            readback_copy_bytes: byte_len,
            map_bytes: byte_len,
        };
        let handle = LinearOutputBuffer { n: input.len(), consumed: false };
        Ok((plan, handle))
    }
}

/// The shared body of the two linear dispatch planners.
fn plan_linear_transfer(input: &Vec<u32>, capacity: u64) -> (r: Result<
    (StagedDispatchPlan, LinearOutputBuffer),
    ConfigurationError,
>)
    requires
        supported_capacity(capacity as int),
        4 * input@.len() <= usize::MAX,
    ensures
        r is Ok <==> fits(input@.len() as int, capacity as int),
        input@.len() == 0 ==> r == Err::<
            (StagedDispatchPlan, LinearOutputBuffer),
            ConfigurationError,
        >(ConfigurationError::EmptyInput),
        input@.len() >= 1 && !fits(input@.len() as int, capacity as int) ==> r == Err::<
            (StagedDispatchPlan, LinearOutputBuffer),
            ConfigurationError,
        >(ConfigurationError::CapacityMismatch),
        r matches Ok((plan, handle)) ==> {
            &&& plan.host_write@ == bytes_of_words(input@)
            &&& plan.upload_copy_bytes == 4 * input@.len()
            &&& plan.input_binding == INPUT_BINDING
            &&& plan.output_binding == OUTPUT_BINDING
            &&& plan.grid == (GridSize { x: input@.len() as u32, y: 1, z: 1 })
            &&& plan.readback_copy_bytes == 4 * input@.len()
            &&& plan.map_bytes == 4 * input@.len()
            &&& handle.len_spec() == input@.len()
            &&& !handle.is_consumed_spec()
        },
{
    if input.len() == 0 {
        return Err(ConfigurationError::EmptyInput);
    }
    proof {
        lemma_fits_by_quarter(input@.len() as int, capacity as int);
    }
    if input.len() as u64 > capacity / 4 {
        return Err(ConfigurationError::CapacityMismatch);
    }
    let host_write = bytes_from_words(input);
    let byte_len: u64 = (input.len() as u64) * 4;
    let plan = StagedDispatchPlan {
        host_write,
        upload_copy_bytes: byte_len,
        input_binding: INPUT_BINDING,
        output_binding: OUTPUT_BINDING,
        grid: GridSize { x: input.len() as u32, y: 1, z: 1 },
        readback_copy_bytes: byte_len,
        map_bytes: byte_len,
    };
    let handle = LinearOutputBuffer { n: input.len(), consumed: false };
    Ok((plan, handle))
}

/// The completion handle of one linear dispatch: the pending asynchronous
/// readiness signal of its read staging region, and the exclusive right to
/// read the mapping once and release it.  Do not drop an unresolved handle
/// while the driver may still write through its staging buffer.
pub struct LinearOutputBuffer {
    n: usize,
    consumed: bool,
}

impl LinearOutputBuffer {
    /// Number of 32-bit elements this dispatch produces.
    pub closed spec fn len_spec(self) -> int {
        self.n as int
    }

    /// Whether the single valid consume already happened.
    pub closed spec fn is_consumed_spec(self) -> bool {
        self.consumed
    }

    /// Number of 32-bit elements this dispatch produces.
    pub fn len(&self) -> (r: usize)
        ensures
            r == self.len_spec(),
    {
        self.n
    }

    /// Whether the single valid consume already happened.
    pub fn is_consumed(&self) -> (r: bool)
        ensures
            r == self.is_consumed_spec(),
    {
        self.consumed
    }

    /// Consumes the handle.  The shell calls this after waiting for the
    /// driver's mapping signal, passing either the full raw contents of the
    /// mapped staging region or the driver-reported failure; it releases
    /// the mapping (unmaps) after this returns, on success and failure
    /// alike.  Exactly one consume is valid: a second call is rejected with
    /// `AlreadyConsumed` and never returns stale data.  On success the
    /// result is the staging bytes reinterpreted as 32-bit elements, one
    /// per input element of the dispatch.  A mapping failure is fatal for
    /// this dispatch and is propagated, never downgraded to a default
    /// result.
    pub fn unwrap(&mut self, mapped: Result<Vec<u8>, MappingError>) -> (r: Result<
        Vec<u32>,
        ConsumeError,
    >)
        requires
            mapped matches Ok(bytes) ==> bytes@.len() == 4 * old(self).len_spec(),
        ensures
            final(self).len_spec() == old(self).len_spec(),
            final(self).is_consumed_spec(),
            old(self).is_consumed_spec() ==> r == Err::<Vec<u32>, ConsumeError>(
                ConsumeError::AlreadyConsumed,
            ),
            !old(self).is_consumed_spec() ==> (mapped matches Err(e) ==> r == Err::<
                Vec<u32>,
                ConsumeError,
            >(ConsumeError::Mapping(e))),
            !old(self).is_consumed_spec() ==> (mapped matches Ok(bytes) ==> (r matches Ok(out)
                && out@ == words_of_bytes(bytes@) && out@.len() == old(self).len_spec())),
    {
        if self.consumed {
            return Err(ConsumeError::AlreadyConsumed);
        }
        self.consumed = true;
        match mapped {
            Err(e) => Err(ConsumeError::Mapping(e)),
            Ok(bytes) => {
                let out = words_from_bytes(&bytes);
                proof {
                    lemma_div_multiples_vanish(self.n as int, 4);
                }
                Ok(out)
            },
        }
    }
}

} // verus!
