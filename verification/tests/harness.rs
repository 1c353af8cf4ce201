use gpu_harness::blur_pass::BlurPass;
use gpu_harness::color::{clear_color, Rgba8};
use gpu_harness::command::{GpuCommand, PipelineKind};
use gpu_harness::context::{
    pick_queue_family, ContextError, PhysicalDeviceInfo, QueueFamilyProperties, VulkanContext,
};
use gpu_harness::fractal_pass::FractalPass;
use gpu_harness::geometry::{
    BYTES_PER_PIXEL, ELEMENT_COUNT, GENERATE_GROUP_COUNT, GENERATE_LOCAL_SIZE, IMAGE_HEIGHT,
    IMAGE_WIDTH, MUTATE_FACTOR, MUTATE_GROUP_COUNT, MUTATE_LOCAL_SIZE,
};
use gpu_harness::host::{
    all_pixels_equal, apply_mutate_dispatch, bytes_equal, elements_equal, expected_clear_bytes,
    is_all_zero,
};
use gpu_harness::lifecycle::{next_stage, PassLifecycle};
use gpu_harness::test_pass::TestPass;

fn family(graphics: bool, compute: bool) -> QueueFamilyProperties {
    QueueFamilyProperties { supports_graphics: graphics, supports_compute: compute }
}

fn make_context() -> VulkanContext {
    let devices = vec![PhysicalDeviceInfo {
        queue_families: vec![family(true, true)],
    }];
    VulkanContext::new(&devices).expect("a device with a suitable queue family")
}

#[test]
fn pick_queue_family_takes_first_suitable() {
    let families = vec![
        family(true, false),
        family(false, true),
        family(true, true),
        family(true, true),
    ];
    assert_eq!(pick_queue_family(&families), Some(2));
}

#[test]
fn pick_queue_family_refuses_partial_capability() {
    let families = vec![family(true, false), family(false, true)];
    assert_eq!(pick_queue_family(&families), None);
    assert_eq!(pick_queue_family(&Vec::new()), None);
}

#[test]
fn context_selects_the_first_suitable_family() {
    let devices = vec![PhysicalDeviceInfo {
        queue_families: vec![family(true, false), family(true, true), family(true, true)],
    }];
    let ctx = VulkanContext::new(&devices).expect("construction must succeed");
    assert_eq!(ctx.queue_family_index, 1);
}

#[test]
fn context_fails_without_a_device() {
    let devices: Vec<PhysicalDeviceInfo> = Vec::new();
    let r = VulkanContext::new(&devices);
    assert!(matches!(r, Err(ContextError::NoPhysicalDevice)));
}

#[test]
fn context_fails_without_a_compute_capable_family() {
    let devices = vec![PhysicalDeviceInfo {
        queue_families: vec![family(true, false)],
    }];
    let r = VulkanContext::new(&devices);
    assert!(matches!(r, Err(ContextError::NoSuitableQueueFamily)));
}

#[test]
fn render_once_assembles_a_single_use_submission() {
    let ctx = make_context();
    let pass = BlurPass::new(&ctx);
    let mut cmds: Vec<GpuCommand> = Vec::new();
    pass.execute(&mut cmds);
    let recorded = cmds.clone();
    let submission = ctx.render_once(cmds);
    assert_eq!(submission.queue_family_index, ctx.queue_family_index);
    assert!(submission.one_time_submit);
    assert_eq!(submission.commands, recorded);
}

#[test]
fn blur_pass_records_clear_then_copy() {
    let ctx = make_context();
    let pass = BlurPass::new(&ctx);
    let mut cmds: Vec<GpuCommand> = Vec::new();
    pass.execute(&mut cmds);
    assert_eq!(
        cmds,
        vec![
            GpuCommand::ClearColorImage { color: clear_color() },
            GpuCommand::CopyImageToBuffer,
        ]
    );
}

#[test]
fn blur_pass_allocates_image_and_matching_staging_buffer() {
    let ctx = make_context();
    let pass = BlurPass::new(&ctx);
    assert_eq!(pass.image.width, IMAGE_WIDTH);
    assert_eq!(pass.image.height, IMAGE_HEIGHT);
    assert!(pass.image.transfer_src);
    assert!(pass.image.transfer_dst);
    assert!(!pass.image.storage);
    assert_eq!(
        pass.transfer_buffer.len,
        (IMAGE_WIDTH as usize) * (IMAGE_HEIGHT as usize) * (BYTES_PER_PIXEL as usize)
    );
    assert!(pass.transfer_buffer.host_visible);
}

#[test]
fn fractal_pass_records_bind_dispatch_copy() {
    let ctx = make_context();
    let pass = FractalPass::new(&ctx);
    let mut cmds: Vec<GpuCommand> = Vec::new();
    pass.execute(&mut cmds);
    assert_eq!(
        cmds,
        vec![
            GpuCommand::BindComputePipeline { pipeline: PipelineKind::Generate },
            GpuCommand::BindDescriptorSets { set_index: 0 },
            GpuCommand::Dispatch { x: GENERATE_GROUP_COUNT, y: GENERATE_GROUP_COUNT, z: 1 },
            GpuCommand::CopyImageToBuffer,
        ]
    );
}

#[test]
fn fractal_pass_dispatch_covers_every_pixel_once() {
    let ctx = make_context();
    let pass = FractalPass::new(&ctx);
    assert_eq!(pass.compute_pipeline.local_size_x, GENERATE_LOCAL_SIZE);
    assert_eq!(pass.compute_pipeline.local_size_y, GENERATE_LOCAL_SIZE);
    assert_eq!(GENERATE_GROUP_COUNT * GENERATE_LOCAL_SIZE, IMAGE_WIDTH);
    assert_eq!(GENERATE_GROUP_COUNT * GENERATE_LOCAL_SIZE, IMAGE_HEIGHT);
    assert_eq!(pass.dset_layout_idx, 0);
    assert_eq!(pass.dset.set_index, 0);
    assert_eq!(pass.dset.binding, 0);
}

#[test]
fn test_pass_records_bind_then_dispatch() {
    let ctx = make_context();
    let pass = TestPass::new(&ctx);
    let mut cmds: Vec<GpuCommand> = Vec::new();
    pass.execute(&mut cmds);
    assert_eq!(
        cmds,
        vec![
            GpuCommand::BindComputePipeline { pipeline: PipelineKind::Mutate },
            GpuCommand::BindDescriptorSets { set_index: 0 },
            GpuCommand::Dispatch { x: MUTATE_GROUP_COUNT, y: 1, z: 1 },
        ]
    );
}

#[test]
fn test_pass_starts_from_the_identity_sequence() {
    let ctx = make_context();
    let pass = TestPass::new(&ctx);
    assert_eq!(pass.initial_data.len(), ELEMENT_COUNT as usize);
    assert_eq!(pass.initial_data[0], 0);
    assert_eq!(pass.initial_data[1], 1);
    assert_eq!(pass.initial_data[65535], 65535);
    assert_eq!(MUTATE_GROUP_COUNT * MUTATE_LOCAL_SIZE, ELEMENT_COUNT);
}

#[test]
fn one_mutate_dispatch_multiplies_each_element_by_twelve() {
    let ctx = make_context();
    let pass = TestPass::new(&ctx);
    let mut data = pass.initial_data.clone();
    apply_mutate_dispatch(&mut data);
    assert_eq!(data.len(), ELEMENT_COUNT as usize);
    for i in 0..ELEMENT_COUNT as usize {
        assert_eq!(data[i] as u64, (i as u64 * MUTATE_FACTOR as u64) % (1u64 << 32));
    }
    assert_eq!(data[1], 12);
    assert_eq!(data[65535], 786420);
}

#[test]
fn two_mutate_dispatches_multiply_by_the_squared_factor() {
    let ctx = make_context();
    let pass = TestPass::new(&ctx);
    let mut data = pass.initial_data.clone();
    apply_mutate_dispatch(&mut data);
    apply_mutate_dispatch(&mut data);
    for i in 0..ELEMENT_COUNT as usize {
        assert_eq!(data[i] as u64, (i as u64 * 144) % (1u64 << 32));
    }
    assert_eq!(data[100], 14400);
}

#[test]
fn mutate_dispatch_truncates_to_32_bits() {
    let mut data = vec![357913942u32, u32::MAX];
    apply_mutate_dispatch(&mut data);
    assert_eq!(data[0], 8);
    assert_eq!(data[1], ((u32::MAX as u64 * 12) % (1u64 << 32)) as u32);
}

#[test]
fn expected_clear_bytes_hold_the_fixed_color() {
    let bytes = expected_clear_bytes();
    assert_eq!(bytes.len(), 1024 * 1024 * 4);
    assert_eq!(&bytes[0..4], &[0u8, 127, 76, 255]);
    let mid = 4 * (512 * 1024 + 512);
    assert_eq!(&bytes[mid..mid + 4], &[0u8, 127, 76, 255]);
    assert!(all_pixels_equal(&bytes, clear_color()));
}

#[test]
fn all_pixels_equal_detects_a_stray_pixel() {
    let mut bytes = expected_clear_bytes();
    assert!(all_pixels_equal(&bytes, clear_color()));
    bytes[4 * 777 + 2] = 77;
    assert!(!all_pixels_equal(&bytes, clear_color()));
    let short = vec![0u8, 127, 76, 255];
    assert!(!all_pixels_equal(&short, clear_color()));
    assert!(!all_pixels_equal(
        &expected_clear_bytes(),
        Rgba8 { r: 1, g: 127, b: 76, a: 255 }
    ));
}

#[test]
fn is_all_zero_tells_an_overwritten_buffer_apart() {
    let zeroes = vec![0u8; 64];
    assert!(is_all_zero(&zeroes));
    let mut touched = zeroes.clone();
    touched[63] = 1;
    assert!(!is_all_zero(&touched));
    assert!(is_all_zero(&Vec::new()));
}

#[test]
fn readback_comparisons_are_exact() {
    let a = vec![1u8, 2, 3];
    let b = vec![1u8, 2, 3];
    let c = vec![1u8, 2, 4];
    let d = vec![1u8, 2];
    assert!(bytes_equal(&a, &b));
    assert!(!bytes_equal(&a, &c));
    assert!(!bytes_equal(&a, &d));
    let e = vec![5u32, 6];
    let f = vec![5u32, 6];
    let g = vec![5u32, 7];
    assert!(elements_equal(&e, &f));
    assert!(!elements_equal(&e, &g));
}

#[test]
fn lifecycle_advances_one_way_and_stops_at_readable() {
    let s0 = PassLifecycle::Uninitialized;
    let s1 = next_stage(s0);
    let s2 = next_stage(s1);
    let s3 = next_stage(s2);
    let s4 = next_stage(s3);
    assert_eq!(s1, PassLifecycle::Resourced);
    assert_eq!(s2, PassLifecycle::Recorded);
    assert_eq!(s3, PassLifecycle::Submitted);
    assert_eq!(s4, PassLifecycle::Readable);
    assert_eq!(next_stage(s4), PassLifecycle::Readable);
}
