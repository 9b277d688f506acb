//! GPU-resident buffers: synchronous creation, synchronous bounded in-place
//! overwrite, asynchronous destruction through the command queue.
//!
//! A buffer owns a device object handle, a memory allocation sized exactly to
//! the data it was built with, and — when host visible — a byte-exact model
//! of its mapped memory. `overwrite` never grows or reallocates: an oversized
//! payload is rejected with the size error and the buffer is left untouched,
//! so a live handle the actor might still be reading mid-frame is never
//! invalidated.

use vstd::prelude::*;

use crate::allocator::{AllocatorGuard, MemoryLocation};
use crate::channel::ChannelClosedError;
use crate::Vust;

verus! {

/// Buffer-usage bit: source of transfer operations.
pub const BUFFER_USAGE_TRANSFER_SRC: u32 = 0x1;

/// Buffer-usage bit: destination of transfer operations.
pub const BUFFER_USAGE_TRANSFER_DST: u32 = 0x2;

/// Buffer-usage bit: uniform buffer.
pub const BUFFER_USAGE_UNIFORM_BUFFER: u32 = 0x10;

/// Buffer-usage bit: index buffer.
pub const BUFFER_USAGE_INDEX_BUFFER: u32 = 0x40;

/// Buffer-usage bit: vertex buffer.
pub const BUFFER_USAGE_VERTEX_BUFFER: u32 = 0x80;

/// Memory-property bit: device-local memory.
pub const MEMORY_PROPERTY_DEVICE_LOCAL: u32 = 0x1;

/// Memory-property bit: memory mappable by the host.
pub const MEMORY_PROPERTY_HOST_VISIBLE: u32 = 0x2;

/// Memory-property bit: host writes need no explicit flushing.
pub const MEMORY_PROPERTY_HOST_COHERENT: u32 = 0x4;

/// Where requested memory properties place an allocation: host-visible memory
/// maps to the host-to-device heap, otherwise device-local memory maps to the
/// device-only heap; anything else is unsupported.
pub open spec fn spec_memory_location_of(memory_properties: u32) -> Option<MemoryLocation> {
    if memory_properties & MEMORY_PROPERTY_HOST_VISIBLE != 0 {
        Some(MemoryLocation::CpuToGpu)
    } else if memory_properties & MEMORY_PROPERTY_DEVICE_LOCAL != 0 {
        Some(MemoryLocation::GpuOnly)
    } else {
        None
    }
}

/// Decide the heap for the requested memory properties; `None` means the
/// combination is unsupported.
pub fn memory_location_of(memory_properties: u32) -> (r: Option<MemoryLocation>)
    ensures
        r == spec_memory_location_of(memory_properties),
{
    if memory_properties & MEMORY_PROPERTY_HOST_VISIBLE != 0 {
        Some(MemoryLocation::CpuToGpu)
    } else if memory_properties & MEMORY_PROPERTY_DEVICE_LOCAL != 0 {
        Some(MemoryLocation::GpuOnly)
    } else {
        None
    }
}

/// The overwrite payload does not fit the existing allocation. The buffer was
/// left unmodified; this is the one error calling code is meant to handle.
#[derive(Clone, Copy, Debug, PartialEq, Eq, Structural)]
pub struct SizeError;

/// Why a buffer could not be built.
#[derive(Clone, Copy, Debug, PartialEq, Eq, Structural)]
pub enum BufferBuildError {
    /// The requested memory properties name neither host-visible nor
    /// device-local memory.
    UnsupportedMemoryLocation,
    /// The allocator refused the request; unrecoverable by design.
    AllocationFailed,
}

/// What the device collaborator created for a buffer about to be built: the
/// buffer object's raw handle and its memory requirements.
#[derive(Clone, Copy, Debug, PartialEq, Eq, Structural)]
pub struct DeviceBufferParts {
    pub handle: u64,
    pub required_size: u64,
    pub alignment: u64,
    pub memory_type_bits: u32,
}

/// A GPU-resident buffer. When host visible, `contents` is the byte-exact
/// model of its mapped memory: bytes never written read as zero.
pub struct Buffer {
    name: String,
    handle: u64,
    memory: Option<gpu_allocator::vulkan::Allocation>,
    allocation_size: usize,
    host_visible: bool,
    contents: Vec<u8>,
    usage: u32,
}

impl Buffer {
    /// A buffer models its mapped memory byte for byte exactly when it is
    /// host visible.
    pub closed spec fn wf(self) -> bool {
        &&& self.host_visible ==> self.contents@.len() == self.allocation_size
        &&& !self.host_visible ==> self.contents@.len() == 0
    }

    pub closed spec fn spec_handle(self) -> u64 {
        self.handle
    }

    pub closed spec fn spec_size(self) -> usize {
        self.allocation_size
    }

    pub closed spec fn spec_usage(self) -> u32 {
        self.usage
    }

    pub closed spec fn is_host_visible(self) -> bool {
        self.host_visible
    }

    pub closed spec fn spec_bytes(self) -> Seq<u8> {
        self.contents@
    }

    /// A fresh builder with no data, no usage and no memory location.
    pub fn builder() -> (r: BufferBuilder)
        ensures
            r.data@.len() == 0,
            r.usage == 0,
            r.memory_location == 0,
    {
        BufferBuilder {
            name: "Default".to_owned(),
            data: Vec::new(),
            usage: 0,
            memory_location: 0,
        }
    }

    /// The raw device object handle.
    pub fn handle(&self) -> (r: u64)
        ensures
            r == self.spec_handle(),
    {
        self.handle
    }

    /// The byte length of the allocation backing this buffer.
    pub fn size(&self) -> (r: usize)
        ensures
            r == self.spec_size(),
    {
        self.allocation_size
    }

    /// The usage bits the buffer was built with.
    pub fn usage(&self) -> (r: u32)
        ensures
            r == self.spec_usage(),
    {
        self.usage
    }

    /// Whether the host can read and write the buffer's memory.
    pub fn host_visible(&self) -> (r: bool)
        ensures
            r == self.is_host_visible(),
    {
        self.host_visible
    }

    /// The modeled mapped memory, byte for byte.
    pub fn mapped_bytes(&self) -> (r: &Vec<u8>)
        ensures
            r@ == self.spec_bytes(),
    {
        &self.contents
    }

    pub closed spec fn spec_memory(self) -> Option<gpu_allocator::vulkan::Allocation> {
        self.memory
    }

    /// The real allocation backing the buffer, when it was built against a
    /// device: the owner of the device copies the modeled bytes into its
    /// mapped memory.
    pub fn memory(&self) -> (r: &Option<gpu_allocator::vulkan::Allocation>)
        ensures
            *r == self.spec_memory(),
    {
        &self.memory
    }

    /// Assemble a buffer from its parts: handle, allocation size, usage, and
    /// optionally the real allocation backing it. Host-visible buffers start
    /// with every byte of their model reading zero.
    pub fn from_parts(
        name: String,
        handle: u64,
        allocation_size: usize,
        usage: u32,
        host_visible: bool,
        memory: Option<gpu_allocator::vulkan::Allocation>,
    ) -> (r: Buffer)
        ensures
            r.wf(),
            r.spec_handle() == handle,
            r.spec_size() == allocation_size,
            r.spec_usage() == usage,
            r.is_host_visible() == host_visible,
            host_visible ==> r.spec_bytes() == Seq::<u8>::new(
                allocation_size as nat,
                |i: int| 0u8,
            ),
    {
        let contents = if host_visible {
            zero_bytes(allocation_size)
        } else {
            Vec::new()
        };
        proof {
            if host_visible {
                assert(contents@ =~= Seq::<u8>::new(allocation_size as nat, |i: int| 0u8));
            }
        }
        Buffer { name, handle, memory, allocation_size, host_visible, contents, usage }
    }

    /// Overwrite the buffer's bytes in place with `data`.
    ///
    /// Fails with the size error, leaving every byte unchanged, exactly when
    /// the payload is longer than the allocation; otherwise succeeds, and a
    /// subsequent read of the mapped memory returns exactly `data` followed by
    /// whatever the bytes behind it already held. Never grows or reallocates.
    pub fn overwrite(&mut self, data: &[u8]) -> (r: Result<(), SizeError>)
        requires
            old(self).wf(),
            old(self).is_host_visible(),
        ensures
            final(self).wf(),
            final(self).spec_handle() == old(self).spec_handle(),
            final(self).spec_size() == old(self).spec_size(),
            final(self).spec_usage() == old(self).spec_usage(),
            final(self).is_host_visible() == old(self).is_host_visible(),
            r is Err <==> data@.len() > old(self).spec_size(),
            r is Err ==> final(self).spec_bytes() == old(self).spec_bytes(),
            r is Ok ==> final(self).spec_bytes() == data@ + old(self).spec_bytes().skip(
                data@.len() as int,
            ),
    {
        if data.len() > self.allocation_size {
            return Err(SizeError);
        }
        let ghost old_bytes = self.contents@;
        let mut i: usize = 0;
        while i < data.len()
            invariant
                i <= data@.len(),
                data@.len() <= self.contents@.len(),
                self.contents@.len() == old_bytes.len(),
                self.contents@ == old_bytes.map(
                    |k: int, b: u8|
                        if k < i {
                            data@[k]
                        } else {
                            b
                        },
                ),
                self.wf(),
                self.spec_handle() == old(self).spec_handle(),
                self.spec_size() == old(self).spec_size(),
                self.spec_usage() == old(self).spec_usage(),
                self.is_host_visible() == old(self).is_host_visible(),
                self.spec_size() == old_bytes.len(),
            decreases data@.len() - i,
        {
            self.contents.set(i, data[i]);
            proof {
                assert(self.contents@ =~= old_bytes.map(
                    |k: int, b: u8|
                        if k < i + 1 {
                            data@[k]
                        } else {
                            b
                        },
                ));
            }
            i = i + 1;
        }
        proof {
            assert(self.contents@ =~= data@ + old_bytes.skip(data@.len() as int));
        }
        Ok(())
    }

    /// Hand the buffer over for destruction: its allocation and device object
    /// are enqueued behind every command already in the queue, so they are
    /// released only after everything that references the buffer has executed.
    /// The handle is consumed; destruction happens exactly once.
    pub fn destroy(self, vust: &Vust) -> (r: Result<(), ChannelClosedError>) {
        let Buffer { name: _, handle, memory, .. } = self;
        vust.destroy_buffer_parts(handle, memory)
    }

    /// Give the buffer's memory back to the allocator at once, bypassing the
    /// command queue, and hand the device object handle back to the caller to
    /// destroy. Only safe when no enqueued command still references the
    /// buffer; the ordered `destroy` is the usual path. Reports whether the
    /// allocator accepted the memory (a buffer never backed by one counts as
    /// accepted).
    pub fn release(self, allocator: &AllocatorGuard) -> (r: (u64, bool))
        ensures
            r.0 == self.spec_handle(),
    {
        let Buffer { name: _, handle, memory, .. } = self;
        let freed = match memory {
            Some(allocation) => allocator.free(allocation),
            None => true,
        };
        (handle, freed)
    }
}

/// A zero-filled byte vector of the given length.
fn zero_bytes(n: usize) -> (r: Vec<u8>)
    ensures
        r@.len() == n,
        forall|i: int| 0 <= i < n ==> r@[i] == 0u8,
{
    let mut r: Vec<u8> = Vec::new();
    let mut i: usize = 0;
    while i < n
        invariant
            i <= n,
            r@.len() == i,
            forall|k: int| 0 <= k < i ==> r@[k] == 0u8,
        decreases n - i,
    {
        r.push(0u8);
        i = i + 1;
    }
    r
}

/// Step-by-step description of what a buffer build asked of the device and
/// the allocator, settled before any device call is made.
pub struct BufferBuilder {
    pub name: String,
    pub data: Vec<u8>,
    pub usage: u32,
    pub memory_location: u32,
}

impl BufferBuilder {
    /// Name the buffer, for allocator tracking and debugging.
    pub fn with_name(self, name: &str) -> (r: Self)
        ensures
            r.data == self.data,
            r.usage == self.usage,
            r.memory_location == self.memory_location,
    {
        let BufferBuilder { name: _, data, usage, memory_location } = self;
        BufferBuilder { name: name.to_owned(), data, usage, memory_location }
    }

    /// The bytes the buffer is sized for and optionally written with.
    pub fn with_data(self, data: Vec<u8>) -> (r: Self)
        ensures
            r.data == data,
            r.usage == self.usage,
            r.memory_location == self.memory_location,
            r.name == self.name,
    {
        let BufferBuilder { name, data: _, usage, memory_location } = self;
        BufferBuilder { name, data, usage, memory_location }
    }

    /// The usage bits of the device buffer object.
    pub fn with_usage(self, usage: u32) -> (r: Self)
        ensures
            r.usage == usage,
            r.data == self.data,
            r.memory_location == self.memory_location,
            r.name == self.name,
    {
        let BufferBuilder { name, data, usage: _, memory_location } = self;
        BufferBuilder { name, data, usage, memory_location }
    }

    /// The memory-property bits of the memory the buffer should live in.
    pub fn with_memory_location(self, memory_location: u32) -> (r: Self)
        ensures
            r.memory_location == memory_location,
            r.data == self.data,
            r.usage == self.usage,
            r.name == self.name,
    {
        let BufferBuilder { name, data, usage, memory_location: _ } = self;
        BufferBuilder { name, data, usage, memory_location }
    }

    /// Build the buffer: decide the heap from the requested memory
    /// properties, allocate memory sized to the device's requirements under
    /// the allocator guard, and — when `write_on_creation` and the memory is
    /// host visible — write the data into it.
    ///
    /// The caller that owns the device supplies `device`: the created buffer
    /// object and its memory requirements, which are at least as large as the
    /// data. Fails with the unsupported-location error exactly when the
    /// memory-property bits name neither host-visible nor device-local
    /// memory, and with the allocation error when the allocator refuses.
    pub fn build(
        self,
        allocator: &AllocatorGuard,
        device: DeviceBufferParts,
        write_on_creation: bool,
    ) -> (r: Result<Buffer, BufferBuildError>)
        requires
            self.data@.len() <= device.required_size,
            device.required_size <= usize::MAX,
        ensures
            r is Err && r->Err_0 == BufferBuildError::UnsupportedMemoryLocation <==>
                spec_memory_location_of(self.memory_location) is None,
            r matches Ok(b) ==> {
                &&& b.wf()
                &&& b.spec_handle() == device.handle
                &&& b.spec_size() == device.required_size
                &&& b.spec_usage() == self.usage
                &&& b.is_host_visible() == (spec_memory_location_of(self.memory_location)
                    == Some(MemoryLocation::CpuToGpu))
                &&& b.is_host_visible() && write_on_creation ==> b.spec_bytes().take(
                    self.data@.len() as int,
                ) == self.data@
            },
    {
        let BufferBuilder { name, data, usage, memory_location } = self;
        let location = match memory_location_of(memory_location) {
            Some(location) => location,
            None => {
                return Err(BufferBuildError::UnsupportedMemoryLocation);
            },
        };
        let host_visible = match location {
            MemoryLocation::CpuToGpu => true,
            MemoryLocation::GpuOnly => false,
        };
        let allocated = allocator.allocate(
            name.as_str(),
            device.required_size,
            device.alignment,
            device.memory_type_bits,
            location,
            false,
        );
        let (allocation, allocation_size) = match allocated {
            Some(pair) => pair,
            None => {
                return Err(BufferBuildError::AllocationFailed);
            },
        };
        let mut buffer = Buffer::from_parts(
            name,
            device.handle,
            allocation_size as usize,
            usage,
            host_visible,
            Some(allocation),
        );
        if write_on_creation && host_visible {
            let wrote = buffer.overwrite(data.as_slice());
            proof {
                assert(wrote is Ok);
                assert(buffer.spec_bytes().take(data@.len() as int) =~= data@);
            }
        }
        Ok(buffer)
    }
}

} // verus!
