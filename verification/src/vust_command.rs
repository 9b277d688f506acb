//! The closed set of commands that producers enqueue for the render actor.
//!
//! Every variant carries only plain device-object ids and value payloads, so a
//! command can cross threads freely. The actor executes commands strictly in
//! arrival order; destruction requests travel through the same ordered queue
//! and therefore run only after everything enqueued before them.

use vstd::prelude::*;

use crate::descriptor::Descriptor;
use crate::write_descriptor_info::WriteDescriptorInfo;

verus! {

/// Device viewport description, carried through the queue untouched.
#[verifier::external_type_specification]
#[verifier::external_body]
pub struct ExViewport(ash::vk::Viewport);

/// A piece of device memory handed out by the GPU memory allocator, carried
/// through the queue untouched so the actor can return it to the allocator.
#[verifier::external_type_specification]
#[verifier::external_body]
pub struct ExAllocation(gpu_allocator::vulkan::Allocation);

/// A scissor rectangle, as plain values.
#[derive(Clone, Copy, Debug, PartialEq, Eq, Structural)]
pub struct ScissorRect {
    pub x: i32,
    pub y: i32,
    pub width: u32,
    pub height: u32,
}

/// One unit of work for the render actor. Handles are raw device object ids.
///
/// A destroy command may carry the resource's memory allocation so that the
/// actor can hand it back to the allocator; the actor's decisions never look
/// inside it.
pub enum VustCommand {
    /// Open the next frame slot for recording and release one back-pressure token.
    OpenFrame,
    BindPipeline { pipeline_handle: u64 },
    BindViewport { viewport: ash::vk::Viewport },
    BindScissor { scissor: ScissorRect },
    BindDescriptorSet { pipeline_layout: u64, descriptor: Descriptor },
    BindVertexBuffer { vertex_buffer: u64 },
    BindIndexBuffer { index_buffer: u64 },
    Draw { vertex_count: u32 },
    DrawIndexed { index_count: u32 },
    UpdateDescriptorSet { descriptor: Descriptor, write_descriptor_infos: Vec<WriteDescriptorInfo> },
    /// Submit and present the frame slot that is open, then advance the ring.
    SubmitFrame,
    DestroyBuffer { buffer: u64, allocation: Option<gpu_allocator::vulkan::Allocation> },
    DestroyTexture {
        image: u64,
        view: u64,
        sampler: u64,
        allocation: Option<gpu_allocator::vulkan::Allocation>,
    },
    /// Wait for the device to go idle and stop the actor; commands queued
    /// behind it are never executed.
    Shutdown,
}

impl VustCommand {
    /// A command is well formed when any binding table it carries holds one
    /// instance per frame slot and any table update carries exactly one
    /// payload per binding.
    pub open spec fn wf(self) -> bool {
        match self {
            VustCommand::BindDescriptorSet { descriptor, .. } => descriptor.wf(),
            VustCommand::UpdateDescriptorSet { descriptor, write_descriptor_infos } => {
                &&& descriptor.wf()
                &&& write_descriptor_infos@.len() == descriptor.spec_binding_count()
                &&& write_descriptor_infos@.len() <= u32::MAX
            },
            _ => true,
        }
    }

    /// Runtime check of well-formedness, for callers outside verified code
    /// that must establish it before handing the command to the actor.
    pub fn is_wf(&self) -> (r: bool)
        ensures
            r == self.wf(),
    {
        match self {
            VustCommand::BindDescriptorSet { descriptor, .. } => descriptor.descriptor_set.len()
                == crate::MAX_FRAMES_IN_FLIGHT,
            VustCommand::UpdateDescriptorSet { descriptor, write_descriptor_infos } => {
                descriptor.descriptor_set.len() == crate::MAX_FRAMES_IN_FLIGHT
                    && write_descriptor_infos.len() == descriptor.binding_types.len()
                    && write_descriptor_infos.len() <= u32::MAX as usize
            },
            _ => true,
        }
    }
}

} // verus!
