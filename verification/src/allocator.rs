//! The resource allocator guard: a mutually exclusive wrapper around the GPU
//! memory allocator. Resource construction and destruction on any thread go
//! through it, and the lock is held only for the duration of one allocate or
//! free call, so producer threads and the render actor may allocate
//! concurrently without corrupting allocator state.

use vstd::prelude::*;

verus! {

/// The GPU memory allocator of the device bring-up collaborator.
#[verifier::external_type_specification]
#[verifier::external_body]
pub struct ExAllocator(gpu_allocator::vulkan::Allocator);

/// Standard mutual-exclusion lock, used only to guard the allocator.
#[verifier::external_type_specification]
#[verifier::external_body]
#[verifier::reject_recursive_types(T)]
pub struct ExMutex<T: ?Sized>(std::sync::Mutex<T>);

/// Where an allocation must live. Only host-visible and device-local memory
/// are supported.
#[derive(Clone, Copy, Debug, PartialEq, Eq, Structural)]
pub enum MemoryLocation {
    /// Host-visible memory the CPU writes and the GPU reads.
    CpuToGpu,
    /// Device-local memory only the GPU touches.
    GpuOnly,
}

/// The guard itself: a shared, cloneable handle to the one allocator.
/// Cloning duplicates the handle, never the allocator.
pub struct AllocatorGuard {
    lock: std::sync::Arc<std::sync::Mutex<gpu_allocator::vulkan::Allocator>>,
}

impl Clone for AllocatorGuard {
    fn clone(&self) -> (r: Self) {
        AllocatorGuard { lock: self.lock.clone() }
    }
}

impl AllocatorGuard {
    /// Relies on std::sync::Mutex::new: wraps the allocator so that every
    /// allocate and free is serialized behind one lock.
    #[verifier::external_body]
    pub fn new(allocator: gpu_allocator::vulkan::Allocator) -> (r: AllocatorGuard) {
        AllocatorGuard { lock: std::sync::Arc::new(std::sync::Mutex::new(allocator)) }
    }

    /// Relies on gpu_allocator::vulkan::Allocator::allocate and
    /// gpu_allocator::vulkan::Allocation::size: a successful allocation is
    /// exactly as large as the memory requirements asked for, and a request of
    /// zero bytes always fails. The lock is held only for the one call.
    #[verifier::external_body]
    pub fn allocate(
        &self,
        name: &str,
        size: u64,
        alignment: u64,
        memory_type_bits: u32,
        location: MemoryLocation,
        linear: bool,
    ) -> (r: Option<(gpu_allocator::vulkan::Allocation, u64)>)
        ensures
            r matches Some(p) ==> p.1 == size && size > 0,
    {
        let loc = match location {
            MemoryLocation::CpuToGpu => gpu_allocator::MemoryLocation::CpuToGpu,
            MemoryLocation::GpuOnly => gpu_allocator::MemoryLocation::GpuOnly,
        };
        let desc = gpu_allocator::vulkan::AllocationCreateDesc {
            name, linear, location: loc,
            requirements: ash::vk::MemoryRequirements { size, alignment, memory_type_bits },
            allocation_scheme: gpu_allocator::vulkan::AllocationScheme::GpuAllocatorManaged,
        };
        let allocation = self.lock.lock().ok()?.allocate(&desc).ok()?;
        let allocated_size = allocation.size();
        Some((allocation, allocated_size))
    }

    /// Relies on gpu_allocator::vulkan::Allocator::free: hands the allocation
    /// back to the allocator; reports whether the allocator accepted it. The
    /// lock is held only for the one call.
    #[verifier::external_body]
    pub fn free(&self, allocation: gpu_allocator::vulkan::Allocation) -> (r: bool) {
        match self.lock.lock() {
            Ok(mut guard) => guard.free(allocation).is_ok(),
            Err(_) => false,
        }
    }
}

} // verus!
