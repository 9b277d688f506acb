//! The producer handle: every method enqueues exactly the command it names,
//! clones feed the same queue, and a closed queue is a hard error.

use vust::channel::TryRecvOutcome;
use vust::command_channel;
use vust::descriptor::Descriptor;
use vust::vust_command::{ScissorRect, VustCommand};
use vust::write_descriptor_info::WriteDescriptorInfo;

fn next(rx: &vust::CommandReceiver) -> VustCommand {
    match rx.try_recv_command() {
        TryRecvOutcome::Received(cmd) => cmd,
        TryRecvOutcome::Empty => panic!("no command was enqueued"),
        TryRecvOutcome::Closed => panic!("queue closed unexpectedly"),
    }
}

#[test]
fn every_method_enqueues_its_command() {
    let (mut vust, rx) = command_channel();

    vust.reset_command_buffer().unwrap();
    assert!(matches!(next(&rx), VustCommand::OpenFrame));

    vust.bind_pipeline(11).unwrap();
    assert!(matches!(next(&rx), VustCommand::BindPipeline { pipeline_handle: 11 }));

    vust.bind_viewport(ash::vk::Viewport {
        x: 0.0,
        y: 0.0,
        width: 800.0,
        height: 600.0,
        min_depth: 0.0,
        max_depth: 1.0,
    })
    .unwrap();
    match next(&rx) {
        VustCommand::BindViewport { viewport } => {
            assert_eq!(viewport.width, 800.0);
            assert_eq!(viewport.height, 600.0);
        }
        _ => panic!("expected the viewport bind"),
    }

    vust.bind_scissor(ScissorRect { x: 0, y: 0, width: 800, height: 600 }).unwrap();
    match next(&rx) {
        VustCommand::BindScissor { scissor } => {
            assert_eq!(scissor, ScissorRect { x: 0, y: 0, width: 800, height: 600 });
        }
        _ => panic!("expected the scissor bind"),
    }

    vust.bind_vertex_buffer(21).unwrap();
    assert!(matches!(next(&rx), VustCommand::BindVertexBuffer { vertex_buffer: 21 }));

    vust.bind_index_buffer(22).unwrap();
    assert!(matches!(next(&rx), VustCommand::BindIndexBuffer { index_buffer: 22 }));

    vust.draw(3).unwrap();
    assert!(matches!(next(&rx), VustCommand::Draw { vertex_count: 3 }));

    vust.draw_indexed(6).unwrap();
    assert!(matches!(next(&rx), VustCommand::DrawIndexed { index_count: 6 }));

    vust.render_surface().unwrap();
    assert!(matches!(next(&rx), VustCommand::SubmitFrame));

    vust.wait_idle().unwrap();
    assert!(matches!(next(&rx), VustCommand::Shutdown));

    assert!(matches!(rx.try_recv_command(), TryRecvOutcome::Empty));
}

#[test]
fn descriptor_commands_carry_the_table_and_payloads() {
    let (vust, rx) = command_channel();
    let descriptor = Descriptor {
        descriptor_pool: 40,
        descriptor_set: vec![41, 42],
        binding_types: vec![6],
    };

    vust.bind_descriptor_set(50, &descriptor).unwrap();
    match next(&rx) {
        VustCommand::BindDescriptorSet { pipeline_layout, descriptor: d } => {
            assert_eq!(pipeline_layout, 50);
            assert_eq!(d.descriptor_pool, 40);
            assert_eq!(d.descriptor_set, vec![41, 42]);
            assert_eq!(d.binding_types, vec![6]);
        }
        _ => panic!("expected the table bind"),
    }

    let infos = vec![WriteDescriptorInfo::Buffer { buffer: 5, offset: 0, range: 64 }];
    vust.update_descriptor_set(&descriptor, infos.clone()).unwrap();
    match next(&rx) {
        VustCommand::UpdateDescriptorSet { descriptor: d, write_descriptor_infos } => {
            assert_eq!(d.descriptor_set, vec![41, 42]);
            assert_eq!(write_descriptor_infos, infos);
        }
        _ => panic!("expected the table update"),
    }
}

#[test]
fn destroy_commands_travel_the_same_queue() {
    let (vust, rx) = command_channel();
    vust.bind_vertex_buffer(9).unwrap();
    let buffer = vust::buffer::Buffer::from_parts("doomed".to_owned(), 9, 4, 0, true, None);
    buffer.destroy(&vust).unwrap();
    assert!(matches!(next(&rx), VustCommand::BindVertexBuffer { vertex_buffer: 9 }));
    assert!(matches!(next(&rx), VustCommand::DestroyBuffer { buffer: 9, allocation: None }));
}

#[test]
fn clones_feed_the_same_queue_in_order() {
    let (vust, rx) = command_channel();
    let other = vust.clone();
    vust.draw(1).unwrap();
    other.draw(2).unwrap();
    vust.draw(3).unwrap();
    assert!(matches!(next(&rx), VustCommand::Draw { vertex_count: 1 }));
    assert!(matches!(next(&rx), VustCommand::Draw { vertex_count: 2 }));
    assert!(matches!(next(&rx), VustCommand::Draw { vertex_count: 3 }));
}

#[test]
fn sending_after_shutdown_is_a_hard_error() {
    let (vust, rx) = command_channel();
    drop(rx);
    assert!(vust.draw(1).is_err());
    assert!(vust.reset_command_buffer().is_err());
}

#[test]
fn command_wf_check_matches_the_payload_lengths() {
    let descriptor = Descriptor {
        descriptor_pool: 1,
        descriptor_set: vec![2, 3],
        binding_types: vec![6, 6],
    };
    let good = VustCommand::UpdateDescriptorSet {
        descriptor,
        write_descriptor_infos: vec![
            WriteDescriptorInfo::Buffer { buffer: 1, offset: 0, range: 1 },
            WriteDescriptorInfo::Image { image_view: 2, sampler: 3 },
        ],
    };
    assert!(good.is_wf());

    let short_table = Descriptor {
        descriptor_pool: 1,
        descriptor_set: vec![2],
        binding_types: vec![],
    };
    let bad = VustCommand::BindDescriptorSet { pipeline_layout: 4, descriptor: short_table };
    assert!(!bad.is_wf());

    let mismatched = Descriptor {
        descriptor_pool: 1,
        descriptor_set: vec![2, 3],
        binding_types: vec![6, 6],
    };
    let bad_update = VustCommand::UpdateDescriptorSet {
        descriptor: mismatched,
        write_descriptor_infos: vec![],
    };
    assert!(!bad_update.is_wf());

    assert!(VustCommand::OpenFrame.is_wf());
}
