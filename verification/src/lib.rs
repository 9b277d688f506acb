//! A render-command actor that owns a graphics device on a dedicated thread.
//!
//! Producers describe per-frame drawing work and resource lifetimes by
//! enqueueing commands on a strict first-in-first-out queue; a single consumer
//! thread owns the device, executes the commands strictly in arrival order,
//! and paces the producers through a back-pressure channel with one token per
//! opened frame. Resource destruction travels through the same queue, so a
//! resource is destroyed only after every command enqueued before the destroy
//! request has executed.
//!
//! This crate holds the decision core: which device operations each command
//! turns into, how the fixed ring of frame slots advances, how buffers are
//! sized, written and destroyed, and how binding tables are filled per frame
//! slot. The thread that owns the real device performs the operations the
//! core hands it, in the order given.

pub mod actor;
pub mod allocator;
pub mod buffer;
pub mod channel;
pub mod create_info;
pub mod descriptor;
pub mod pipeline;
pub mod texture;
pub mod vust_command;
pub mod vust_sync;
pub mod write_descriptor_info;

pub use crate::create_info::make_api_version;

use vstd::prelude::*;

use crate::channel::{channel_recv, channel_send, channel_try_recv, clone_sender, make_channel};
use crate::channel::{ChannelClosedError, TryRecvOutcome};
use crate::descriptor::Descriptor;
use crate::vust_command::{ScissorRect, VustCommand};
use crate::write_descriptor_info::WriteDescriptorInfo;

verus! {

/// Number of frame slots cycled round-robin by the render actor.
pub const MAX_FRAMES_IN_FLIGHT: usize = 2;

/// The slot that follows `frame` in the ring of frame slots.
pub fn next_frame(frame: usize) -> (r: usize)
    requires
        frame < MAX_FRAMES_IN_FLIGHT,
    ensures
        r == (frame + 1) % (MAX_FRAMES_IN_FLIGHT as int),
        r < MAX_FRAMES_IN_FLIGHT,
{
    if frame + 1 == MAX_FRAMES_IN_FLIGHT {
        0
    } else {
        frame + 1
    }
}

/// The cross-thread producer handle: a cheap, cloneable bundle of the command
/// queue's sending end. Every method enqueues one command; the render actor
/// executes them strictly in the order enqueued. Each method fails only with
/// the closed-channel error, after the actor has shut down.
pub struct Vust {
    vust_sender: std::sync::mpsc::Sender<VustCommand>,
}

impl Clone for Vust {
    /// Another handle to the same command queue: cloning duplicates the
    /// endpoint, not the actor or any resource.
    fn clone(&self) -> (r: Self) {
        Vust { vust_sender: clone_sender(&self.vust_sender) }
    }
}

/// The actor's end of the command queue.
pub struct CommandReceiver {
    receiver: std::sync::mpsc::Receiver<VustCommand>,
}

impl CommandReceiver {
    /// Block until the next command arrives; the closed error means every
    /// producer handle is gone.
    pub fn recv_command(&self) -> (r: Result<VustCommand, ChannelClosedError>) {
        channel_recv(&self.receiver)
    }

    /// Take the next command if one is waiting.
    pub fn try_recv_command(&self) -> (r: TryRecvOutcome<VustCommand>) {
        channel_try_recv(&self.receiver)
    }
}

/// A fresh command queue: the producer handle and the actor's receiving end.
pub fn command_channel() -> (Vust, CommandReceiver) {
    let (sender, receiver) = make_channel::<VustCommand>();
    (Vust { vust_sender: sender }, CommandReceiver { receiver })
}

impl Vust {
    /// Enqueue the destruction of a buffer: its allocation returns to the
    /// allocator and its device object is destroyed, strictly after every
    /// command enqueued before this one has executed.
    pub fn destroy_buffer(
        &self,
        buffer: u64,
        allocation: gpu_allocator::vulkan::Allocation,
    ) -> (r: Result<(), ChannelClosedError>) {
        self.destroy_buffer_parts(buffer, Some(allocation))
    }

    /// Enqueue the destruction of a buffer that may or may not still carry
    /// its allocation.
    pub(crate) fn destroy_buffer_parts(
        &self,
        buffer: u64,
        allocation: Option<gpu_allocator::vulkan::Allocation>,
    ) -> (r: Result<(), ChannelClosedError>) {
        channel_send(&self.vust_sender, VustCommand::DestroyBuffer { buffer, allocation })
    }

    /// Enqueue the destruction of a texture's image, view and sampler, and the
    /// return of its allocation, strictly after every command enqueued before.
    pub fn destroy_texture(
        &self,
        image: u64,
        view: u64,
        sampler: u64,
        allocation: gpu_allocator::vulkan::Allocation,
    ) -> (r: Result<(), ChannelClosedError>) {
        self.destroy_texture_parts(image, view, sampler, Some(allocation))
    }

    /// Enqueue the destruction of a texture that may or may not still carry
    /// its allocation.
    pub(crate) fn destroy_texture_parts(
        &self,
        image: u64,
        view: u64,
        sampler: u64,
        allocation: Option<gpu_allocator::vulkan::Allocation>,
    ) -> (r: Result<(), ChannelClosedError>) {
        channel_send(&self.vust_sender, VustCommand::DestroyTexture { image, view, sampler, allocation })
    }

    /// Enqueue the opening of the next frame: the actor waits on the slot's
    /// fence, resets the slot's recorder, acquires the slot's image, begins
    /// recording and the render pass, then releases one back-pressure token.
    /// Synchronize once per frame right after this call.
    pub fn reset_command_buffer(&self) -> (r: Result<(), ChannelClosedError>) {
        channel_send(&self.vust_sender, VustCommand::OpenFrame)
    }

    /// Enqueue a pipeline bind against the open frame's recorder.
    pub fn bind_pipeline(&self, pipeline_handle: u64) -> (r: Result<(), ChannelClosedError>) {
        channel_send(&self.vust_sender, VustCommand::BindPipeline { pipeline_handle })
    }

    /// Enqueue a viewport bind against the open frame's recorder.
    pub fn bind_viewport(&self, viewport: ash::vk::Viewport) -> (r: Result<
        (),
        ChannelClosedError,
    >) {
        channel_send(&self.vust_sender, VustCommand::BindViewport { viewport })
    }

    /// Enqueue a scissor bind against the open frame's recorder.
    pub fn bind_scissor(&self, scissor: ScissorRect) -> (r: Result<(), ChannelClosedError>) {
        channel_send(&self.vust_sender, VustCommand::BindScissor { scissor })
    }

    /// Enqueue a binding-table bind: the actor binds the table instance of
    /// whichever frame slot is current when it executes the command.
    pub fn bind_descriptor_set(&self, pipeline_layout: u64, descriptor: &Descriptor) -> (r: Result<
        (),
        ChannelClosedError,
    >) {
        channel_send(
            &self.vust_sender,
            VustCommand::BindDescriptorSet { pipeline_layout, descriptor: descriptor.clone() },
        )
    }

    /// Enqueue a vertex-buffer bind against the open frame's recorder.
    pub fn bind_vertex_buffer(&self, vertex_buffer: u64) -> (r: Result<(), ChannelClosedError>) {
        channel_send(&self.vust_sender, VustCommand::BindVertexBuffer { vertex_buffer })
    }

    /// Enqueue an index-buffer bind against the open frame's recorder.
    pub fn bind_index_buffer(&self, index_buffer: u64) -> (r: Result<(), ChannelClosedError>) {
        channel_send(&self.vust_sender, VustCommand::BindIndexBuffer { index_buffer })
    }

    /// Enqueue a draw of `vertex_count` vertices.
    pub fn draw(&self, vertex_count: u32) -> (r: Result<(), ChannelClosedError>) {
        channel_send(&self.vust_sender, VustCommand::Draw { vertex_count })
    }

    /// Enqueue an indexed draw of `index_count` indices.
    pub fn draw_indexed(&self, index_count: u32) -> (r: Result<(), ChannelClosedError>) {
        channel_send(&self.vust_sender, VustCommand::DrawIndexed { index_count })
    }

    /// Enqueue a binding-table update: the writes target the table instance of
    /// whichever frame slot is current when the actor executes the command,
    /// which is correct because the command is ordered relative to the
    /// frame-opening commands around it.
    pub fn update_descriptor_set(
        &self,
        descriptor: &Descriptor,
        write_descriptor_infos: Vec<WriteDescriptorInfo>,
    ) -> (r: Result<(), ChannelClosedError>) {
        channel_send(
            &self.vust_sender,
            VustCommand::UpdateDescriptorSet {
                descriptor: descriptor.clone(),
                write_descriptor_infos,
            },
        )
    }

    /// Enqueue the submission of the open frame: the actor ends the render
    /// pass and the recording, submits, presents, and advances the frame ring
    /// by exactly one slot.
    pub fn render_surface(&mut self) -> (r: Result<(), ChannelClosedError>) {
        channel_send(&self.vust_sender, VustCommand::SubmitFrame)
    }

    /// Enqueue shutdown: the actor waits for the device to go idle, closes the
    /// back-pressure channel and stops. Commands enqueued behind this one are
    /// never executed, so enqueue destroys before it.
    pub fn wait_idle(&self) -> (r: Result<(), ChannelClosedError>) {
        channel_send(&self.vust_sender, VustCommand::Shutdown)
    }
}

} // verus!
