//! Pipeline creation decisions, binding tables, textures and barriers.

use vust::create_info::{
    default_physical_device_filter, make_api_version, PhysicalDevice, PhysicalDeviceType,
    VustCreateInfo,
};
use vust::descriptor::{Descriptor, DescriptorWrite};
use vust::pipeline::{
    cull_settings, dynamic_states, layout_bindings, CullMode, CullSettings, DescriptorSetBinding,
    DescriptorSetLayout, GraphicsPipeline, Scissor, ViewportConfig, CULL_MODE_BACK, CULL_MODE_NONE,
    DYNAMIC_STATE_SCISSOR, DYNAMIC_STATE_VIEWPORT, FRONT_FACE_CLOCKWISE,
    FRONT_FACE_COUNTER_CLOCKWISE,
};
use vust::texture::{
    transition_barrier, Texture, ACCESS_SHADER_READ, ACCESS_TRANSFER_WRITE, FILTER_LINEAR,
    FILTER_NEAREST, FORMAT_R8G8B8A8_SRGB, IMAGE_USAGE_SAMPLED, IMAGE_USAGE_TRANSFER_DST,
    PIPELINE_STAGE_FRAGMENT_SHADER, PIPELINE_STAGE_TOP_OF_PIPE, PIPELINE_STAGE_TRANSFER,
};
use vust::write_descriptor_info::{ImageLayout, WriteDescriptorInfo};
use vust::MAX_FRAMES_IN_FLIGHT;

#[test]
fn cull_mode_translates_exactly() {
    assert_eq!(
        cull_settings(&CullMode::Disabled),
        CullSettings { cull_flags: CULL_MODE_NONE, front_face: FRONT_FACE_CLOCKWISE }
    );
    assert_eq!(
        cull_settings(&CullMode::Clockwise),
        CullSettings { cull_flags: CULL_MODE_BACK, front_face: FRONT_FACE_CLOCKWISE }
    );
    assert_eq!(
        cull_settings(&CullMode::AntiClockwise),
        CullSettings { cull_flags: CULL_MODE_BACK, front_face: FRONT_FACE_COUNTER_CLOCKWISE }
    );
}

#[test]
fn dynamic_states_follow_viewport_and_scissor() {
    let fixed_scissor = Scissor::Static { x: 0, y: 0, width: 800, height: 600 };
    assert_eq!(
        dynamic_states(&ViewportConfig::Dynamic, &Scissor::Dynamic),
        vec![DYNAMIC_STATE_VIEWPORT, DYNAMIC_STATE_SCISSOR]
    );
    assert_eq!(
        dynamic_states(&ViewportConfig::Dynamic, &fixed_scissor),
        vec![DYNAMIC_STATE_VIEWPORT]
    );
    let fixed_viewport = ViewportConfig::Fixed {
        viewport: ash::vk::Viewport {
            x: 0.0,
            y: 0.0,
            width: 800.0,
            height: 600.0,
            min_depth: 0.0,
            max_depth: 1.0,
        },
    };
    assert_eq!(dynamic_states(&fixed_viewport, &Scissor::Dynamic), vec![DYNAMIC_STATE_SCISSOR]);
    match fixed_viewport {
        ViewportConfig::Fixed { viewport } => {
            assert_eq!(dynamic_states(&ViewportConfig::Fixed { viewport }, &fixed_scissor), vec![])
        }
        _ => unreachable!(),
    }
}

fn two_binding_layout() -> DescriptorSetLayout {
    DescriptorSetLayout {
        bindings: vec![
            DescriptorSetBinding { descriptor_type: 6, stage_flags: 0x1 },
            DescriptorSetBinding { descriptor_type: 1, stage_flags: 0x10 },
        ],
    }
}

#[test]
fn layout_bindings_are_numbered_by_position() {
    let bindings = layout_bindings(&two_binding_layout());
    assert_eq!(bindings.len(), 2);
    assert_eq!(bindings[0].binding, 0);
    assert_eq!(bindings[0].descriptor_type, 6);
    assert_eq!(bindings[0].descriptor_count, 1);
    assert_eq!(bindings[0].stage_flags, 0x1);
    assert_eq!(bindings[1].binding, 1);
    assert_eq!(bindings[1].descriptor_type, 1);
}

#[test]
fn pool_plan_is_sized_for_every_frame_slot() {
    let pipeline = GraphicsPipeline::from_parts(70, 71, 72, &Some(two_binding_layout()));
    let plan = pipeline.descriptor_pool_plan().as_ref().expect("a layout implies a plan");
    assert_eq!(plan.max_sets as usize, MAX_FRAMES_IN_FLIGHT);
    assert_eq!(plan.pool_sizes.len(), 2);
    assert_eq!(plan.pool_sizes[0].descriptor_type, 6);
    assert_eq!(plan.pool_sizes[0].descriptor_count as usize, MAX_FRAMES_IN_FLIGHT);
    assert_eq!(plan.pool_sizes[1].descriptor_type, 1);
    assert_eq!(pipeline.handle(), 70);
    assert_eq!(pipeline.pipeline_layout(), 71);
}

#[test]
fn pipeline_without_layout_has_no_plan_and_no_descriptor() {
    let pipeline = GraphicsPipeline::from_parts(70, 71, 72, &None);
    assert!(pipeline.descriptor_pool_plan().is_none());
    assert!(pipeline.create_descriptor(80, vec![81, 82]).is_none());
}

#[test]
fn create_descriptor_carries_the_templates() {
    let pipeline = GraphicsPipeline::from_parts(70, 71, 72, &Some(two_binding_layout()));
    let descriptor = pipeline.create_descriptor(80, vec![81, 82]).expect("a layout implies a table");
    assert_eq!(descriptor.descriptor_pool, 80);
    assert_eq!(descriptor.descriptor_set, vec![81, 82]);
    assert_eq!(descriptor.binding_types, vec![6, 1]);
}

#[test]
fn writes_for_one_slot_touch_only_that_instance() {
    let descriptor = Descriptor {
        descriptor_pool: 80,
        descriptor_set: vec![81, 82],
        binding_types: vec![6, 1],
    };
    let infos = vec![
        WriteDescriptorInfo::Buffer { buffer: 5, offset: 16, range: 48 },
        WriteDescriptorInfo::Image { image_view: 8, sampler: 9 },
    ];
    let writes = descriptor.writes_for_slot(&infos, 1);
    assert_eq!(
        writes,
        vec![
            DescriptorWrite {
                dst_set: 82,
                dst_binding: 0,
                descriptor_type: 6,
                info: WriteDescriptorInfo::Buffer { buffer: 5, offset: 16, range: 48 },
            },
            DescriptorWrite {
                dst_set: 82,
                dst_binding: 1,
                descriptor_type: 1,
                info: WriteDescriptorInfo::Image { image_view: 8, sampler: 9 },
            },
        ]
    );
}

#[test]
fn one_time_update_writes_every_instance() {
    let descriptor = Descriptor {
        descriptor_pool: 80,
        descriptor_set: vec![81, 82],
        binding_types: vec![6],
    };
    let infos = vec![WriteDescriptorInfo::Image { image_view: 8, sampler: 9 }];
    let writes = descriptor.writes_once(&infos);
    assert_eq!(writes.len(), 2);
    assert_eq!(writes[0].dst_set, 81);
    assert_eq!(writes[1].dst_set, 82);
    assert_eq!(writes[0].dst_binding, 0);
    assert_eq!(writes[1].dst_binding, 0);
}

#[test]
fn descriptor_payloads_translate_exactly() {
    let (buffer_info, image_info) =
        WriteDescriptorInfo::Buffer { buffer: 5, offset: 16, range: 48 }.to_vk();
    let buffer_info = buffer_info.expect("a buffer payload has a buffer record");
    assert!(image_info.is_none());
    assert_eq!(buffer_info.buffer, 5);
    assert_eq!(buffer_info.offset, 16);
    assert_eq!(buffer_info.range, 48);

    let (buffer_info, image_info) =
        WriteDescriptorInfo::Image { image_view: 8, sampler: 9 }.to_vk();
    assert!(buffer_info.is_none());
    let image_info = image_info.expect("an image payload has an image record");
    assert_eq!(image_info.image_view, 8);
    assert_eq!(image_info.sampler, 9);
    assert_eq!(image_info.image_layout, ImageLayout::ShaderReadOnlyOptimal);
}

#[test]
fn texture_build_plan_exists_exactly_when_there_is_data() {
    let empty = Texture::builder().with_dimensions((2, 2));
    assert!(empty.build_plan().is_none());

    let builder = Texture::builder()
        .with_name("Texture Buffer")
        .with_data(vec![255; 16])
        .with_dimensions((2, 2))
        .with_format(FORMAT_R8G8B8A8_SRGB)
        .with_filter(FILTER_LINEAR);
    assert_eq!(builder.filter, FILTER_LINEAR);
    let plan = builder.build_plan().expect("data implies a plan");
    assert_eq!(plan.width, 2);
    assert_eq!(plan.height, 2);
    assert_eq!(plan.format, FORMAT_R8G8B8A8_SRGB);
    assert_eq!(plan.filter, FILTER_LINEAR);
    assert_eq!(plan.image_usage, IMAGE_USAGE_TRANSFER_DST | IMAGE_USAGE_SAMPLED);
    assert!(plan.staging_write_on_creation);
    assert_eq!(plan.pre_copy_from, ImageLayout::Undefined);
    assert_eq!(plan.pre_copy_to, ImageLayout::TransferDstOptimal);
    assert_eq!(plan.post_copy_from, ImageLayout::TransferDstOptimal);
    assert_eq!(plan.post_copy_to, ImageLayout::ShaderReadOnlyOptimal);
    assert_eq!(Texture::builder().filter, FILTER_NEAREST);
}

#[test]
fn texture_destroy_enqueues_once() {
    let (vust, rx) = vust::command_channel();
    let mut texture = Texture::from_parts(90, 91, 92, None);
    assert!(!texture.is_destroyed());
    assert_eq!(texture.view(), 91);
    assert_eq!(texture.sampler(), 92);

    texture.destroy(&vust).unwrap();
    assert!(texture.is_destroyed());
    match rx.try_recv_command() {
        vust::channel::TryRecvOutcome::Received(
            vust::vust_command::VustCommand::DestroyTexture { image, view, sampler, allocation },
        ) => {
            assert_eq!((image, view, sampler), (90, 91, 92));
            assert!(allocation.is_none());
        }
        _ => panic!("expected the texture destroy command"),
    }

    texture.destroy(&vust).unwrap();
    assert!(matches!(
        rx.try_recv_command(),
        vust::channel::TryRecvOutcome::Empty
    ));
}

#[test]
fn supported_transitions_have_their_barriers() {
    let fresh = transition_barrier(ImageLayout::Undefined, ImageLayout::TransferDstOptimal)
        .expect("fresh image transition is supported");
    assert_eq!(fresh.src_access, 0);
    assert_eq!(fresh.dst_access, ACCESS_TRANSFER_WRITE);
    assert_eq!(fresh.src_stage, PIPELINE_STAGE_TOP_OF_PIPE);
    assert_eq!(fresh.dst_stage, PIPELINE_STAGE_TRANSFER);
    assert!(!fresh.depth_stencil_aspect);

    let sampled =
        transition_barrier(ImageLayout::TransferDstOptimal, ImageLayout::ShaderReadOnlyOptimal)
            .expect("post-copy transition is supported");
    assert_eq!(sampled.src_access, ACCESS_TRANSFER_WRITE);
    assert_eq!(sampled.dst_access, ACCESS_SHADER_READ);
    assert_eq!(sampled.src_stage, PIPELINE_STAGE_TRANSFER);
    assert_eq!(sampled.dst_stage, PIPELINE_STAGE_FRAGMENT_SHADER);

    let depth =
        transition_barrier(ImageLayout::Undefined, ImageLayout::DepthStencilAttachmentOptimal)
            .expect("depth transition is supported");
    assert!(depth.depth_stencil_aspect);

    assert!(transition_barrier(
        ImageLayout::ShaderReadOnlyOptimal,
        ImageLayout::TransferDstOptimal
    )
    .is_none());
    assert!(transition_barrier(ImageLayout::Undefined, ImageLayout::Undefined).is_none());
}

#[test]
fn api_versions_pack_their_fields() {
    assert_eq!(make_api_version(0, 1, 2, 3), (1u32 << 22) | (2u32 << 12) | 3);
    assert_eq!(make_api_version(0, 0, 1, 0), ash::vk::make_api_version(0, 0, 1, 0));
    assert_eq!(make_api_version(1, 2, 3, 4), ash::vk::make_api_version(1, 2, 3, 4));
}

#[test]
fn create_info_defaults_and_builders() {
    let info = VustCreateInfo::default();
    assert_eq!(info.app_version, make_api_version(0, 1, 0, 0));
    assert_eq!(info.app_name, "Vust App");
    assert!(info.enabled_instance_extensions.is_empty());
    assert_eq!(info.framebuffer_size, (0, 0));

    let info = info
        .with_app_name("Vust Triangle Test")
        .with_app_version(make_api_version(0, 0, 1, 0))
        .with_extensions(vec!["VK_KHR_surface".to_owned()])
        .with_framebuffer_size((800, 600));
    assert_eq!(info.app_name, "Vust Triangle Test");
    assert_eq!(info.app_version, make_api_version(0, 0, 1, 0));
    assert_eq!(info.enabled_instance_extensions, vec!["VK_KHR_surface".to_owned()]);
    assert_eq!(info.framebuffer_size, (800, 600));
}

#[test]
fn default_device_filter_takes_discrete_and_integrated() {
    let discrete =
        PhysicalDevice { name: "gpu".to_owned(), device_type: PhysicalDeviceType::Discrete };
    let integrated =
        PhysicalDevice { name: "igpu".to_owned(), device_type: PhysicalDeviceType::Integrated };
    let unsupported =
        PhysicalDevice { name: "other".to_owned(), device_type: PhysicalDeviceType::NotSupported };
    assert!(default_physical_device_filter(&discrete));
    assert!(default_physical_device_filter(&integrated));
    assert!(!default_physical_device_filter(&unsupported));
}
