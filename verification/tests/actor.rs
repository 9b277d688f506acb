//! The render actor's drain loop: command order, the frame-slot ring, tokens.

use vust::actor::{drain, initial_actor_state, step, ActorState, DeviceOp};
use vust::descriptor::Descriptor;
use vust::vust_command::VustCommand;
use vust::write_descriptor_info::WriteDescriptorInfo;
use vust::MAX_FRAMES_IN_FLIGHT;

fn pairs(k: usize) -> Vec<VustCommand> {
    let mut cmds = Vec::new();
    for _ in 0..k {
        cmds.push(VustCommand::OpenFrame);
        cmds.push(VustCommand::SubmitFrame);
    }
    cmds
}

#[test]
fn open_frame_ops_and_token() {
    let state = initial_actor_state();
    let effect = step(state, &VustCommand::OpenFrame);
    assert!(effect.token);
    assert!(!effect.stop);
    assert_eq!(effect.ops.len(), 6);
    assert!(matches!(effect.ops[0], DeviceOp::WaitForFence { slot: 0 }));
    assert!(matches!(effect.ops[1], DeviceOp::ResetFence { slot: 0 }));
    assert!(matches!(effect.ops[2], DeviceOp::ResetRecorder { slot: 0 }));
    assert!(matches!(effect.ops[3], DeviceOp::AcquireImage { slot: 0 }));
    assert!(matches!(effect.ops[4], DeviceOp::BeginRecording { slot: 0 }));
    assert!(matches!(effect.ops[5], DeviceOp::BeginRenderPass { slot: 0 }));
    assert_eq!(effect.state.current_frame, 0);
    assert!(effect.state.frame_open);
}

#[test]
fn submit_advances_ring_one_slot_at_a_time() {
    let state = ActorState { current_frame: 0, frame_open: true };
    let effect = step(state, &VustCommand::SubmitFrame);
    assert_eq!(effect.state.current_frame, 1);
    assert!(!effect.state.frame_open);
    assert!(!effect.token);
    assert_eq!(effect.ops.len(), 4);
    assert!(matches!(effect.ops[0], DeviceOp::EndRenderPass { slot: 0 }));
    assert!(matches!(effect.ops[1], DeviceOp::EndRecording { slot: 0 }));
    assert!(matches!(effect.ops[2], DeviceOp::SubmitQueue { slot: 0 }));
    assert!(matches!(effect.ops[3], DeviceOp::PresentImage { slot: 0 }));

    let wrapped = step(effect.state, &VustCommand::SubmitFrame);
    assert_eq!(wrapped.state.current_frame, 0);
}

#[test]
fn current_frame_is_pair_count_mod_ring_size() {
    for k in 0..7usize {
        let outcome = drain(initial_actor_state(), &pairs(k));
        assert_eq!(outcome.state.current_frame, k % MAX_FRAMES_IN_FLIGHT);
        assert_eq!(outcome.tokens_sent, k);
        assert_eq!(outcome.executed, 2 * k);
    }
}

#[test]
fn commands_execute_in_enqueue_order() {
    let buffer_a = 17u64;
    let cmds = vec![
        VustCommand::BindVertexBuffer { vertex_buffer: buffer_a },
        VustCommand::Draw { vertex_count: 3 },
        VustCommand::DestroyBuffer { buffer: buffer_a, allocation: None },
    ];
    let outcome = drain(initial_actor_state(), &cmds);
    assert_eq!(outcome.executed, 3);
    assert_eq!(outcome.trace.len(), 4);
    assert!(matches!(outcome.trace[0], DeviceOp::CmdBindVertexBuffer { vertex_buffer: 17 }));
    assert!(matches!(outcome.trace[1], DeviceOp::CmdDraw { vertex_count: 3 }));
    assert!(matches!(outcome.trace[2], DeviceOp::FreeAllocation));
    assert!(matches!(outcome.trace[3], DeviceOp::DestroyBufferObject { buffer: 17 }));
}

#[test]
fn shutdown_stops_the_drain_and_skips_the_rest() {
    let cmds = vec![
        VustCommand::Draw { vertex_count: 1 },
        VustCommand::Shutdown,
        VustCommand::Draw { vertex_count: 2 },
        VustCommand::OpenFrame,
    ];
    let outcome = drain(initial_actor_state(), &cmds);
    assert_eq!(outcome.executed, 2);
    assert_eq!(outcome.tokens_sent, 0);
    assert_eq!(outcome.trace.len(), 2);
    assert!(matches!(outcome.trace[0], DeviceOp::CmdDraw { vertex_count: 1 }));
    assert!(matches!(outcome.trace[1], DeviceOp::WaitDeviceIdle));
}

fn op_touches(op: &DeviceOp, h: u64) -> bool {
    match op {
        DeviceOp::CmdBindPipeline { pipeline } => *pipeline == h,
        DeviceOp::CmdBindDescriptorSet { pipeline_layout, descriptor_set } => {
            *pipeline_layout == h || *descriptor_set == h
        }
        DeviceOp::CmdBindVertexBuffer { vertex_buffer } => *vertex_buffer == h,
        DeviceOp::CmdBindIndexBuffer { index_buffer } => *index_buffer == h,
        DeviceOp::WriteDescriptor { write } => write.dst_set == h,
        DeviceOp::DestroyBufferObject { buffer } => *buffer == h,
        DeviceOp::DestroyImageObject { image } => *image == h,
        DeviceOp::DestroyImageView { view } => *view == h,
        DeviceOp::DestroySampler { sampler } => *sampler == h,
        _ => false,
    }
}

#[test]
fn destroy_executes_after_submit_and_leaves_the_other_buffer_alone() {
    let buffer_a = 64u64;
    let buffer_b = 128u64;
    let cmds = vec![
        VustCommand::OpenFrame,
        VustCommand::BindVertexBuffer { vertex_buffer: buffer_a },
        VustCommand::Draw { vertex_count: 3 },
        VustCommand::SubmitFrame,
        VustCommand::DestroyBuffer { buffer: buffer_a, allocation: None },
    ];
    let outcome = drain(initial_actor_state(), &cmds);
    let present_at = outcome
        .trace
        .iter()
        .position(|op| matches!(op, DeviceOp::PresentImage { .. }))
        .expect("the frame must be presented");
    let destroy_at = outcome
        .trace
        .iter()
        .position(|op| matches!(op, DeviceOp::DestroyBufferObject { .. }))
        .expect("the buffer must be destroyed");
    let free_at = outcome
        .trace
        .iter()
        .position(|op| matches!(op, DeviceOp::FreeAllocation))
        .expect("the allocation must be freed");
    assert!(destroy_at > present_at);
    assert!(free_at > present_at);
    assert!(outcome.trace.iter().all(|op| !op_touches(op, buffer_b)));
}

#[test]
fn descriptor_update_targets_the_slot_current_at_execution() {
    let descriptor = Descriptor {
        descriptor_pool: 900,
        descriptor_set: vec![100, 101],
        binding_types: vec![6, 1],
    };
    let infos = vec![
        WriteDescriptorInfo::Buffer { buffer: 5, offset: 0, range: 64 },
        WriteDescriptorInfo::Image { image_view: 8, sampler: 9 },
    ];
    let cmds = vec![
        VustCommand::OpenFrame,
        VustCommand::SubmitFrame,
        VustCommand::OpenFrame,
        VustCommand::UpdateDescriptorSet { descriptor, write_descriptor_infos: infos },
    ];
    let outcome = drain(initial_actor_state(), &cmds);
    let writes: Vec<_> = outcome
        .trace
        .iter()
        .filter_map(|op| match op {
            DeviceOp::WriteDescriptor { write } => Some(*write),
            _ => None,
        })
        .collect();
    assert_eq!(writes.len(), 2);
    assert_eq!(writes[0].dst_set, 101);
    assert_eq!(writes[0].dst_binding, 0);
    assert_eq!(writes[0].descriptor_type, 6);
    assert!(matches!(
        writes[0].info,
        WriteDescriptorInfo::Buffer { buffer: 5, offset: 0, range: 64 }
    ));
    assert_eq!(writes[1].dst_set, 101);
    assert_eq!(writes[1].dst_binding, 1);
    assert_eq!(writes[1].descriptor_type, 1);
}

#[test]
fn bind_descriptor_set_uses_the_current_slot_instance() {
    let descriptor = Descriptor {
        descriptor_pool: 900,
        descriptor_set: vec![100, 101],
        binding_types: vec![],
    };
    let cmds = vec![
        VustCommand::OpenFrame,
        VustCommand::SubmitFrame,
        VustCommand::BindDescriptorSet { pipeline_layout: 55, descriptor },
    ];
    let outcome = drain(initial_actor_state(), &cmds);
    let bind = outcome
        .trace
        .iter()
        .find(|op| matches!(op, DeviceOp::CmdBindDescriptorSet { .. }))
        .expect("the table must be bound");
    assert!(matches!(
        bind,
        DeviceOp::CmdBindDescriptorSet { pipeline_layout: 55, descriptor_set: 101 }
    ));
}
