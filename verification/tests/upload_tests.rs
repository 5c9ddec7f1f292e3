use charts::rendering::triple_buffer::{BindGroupHandle, FrameSyncState, GpuBufferHandle, TripleBufferedResources};
use charts::rendering::upload::{
    draw_call, upload_frame, DrawCall, GpuCommand, InstancePass, UploadInput, VERTICES_PER_BAR,
    VERTICES_PER_CANDLE, VIEW_UNIFORM_SIZE,
};

fn input(count: usize) -> UploadInput {
    UploadInput {
        has_pipeline: true,
        instance_count: count,
        viewport_width: 800.0f32.to_bits(),
        viewport_height: 600.0f32.to_bits(),
        bull_color: [0.0f32.to_bits(), 1.0f32.to_bits(), 0.0f32.to_bits(), 1.0f32.to_bits()],
        bear_color: [1.0f32.to_bits(), 0.0f32.to_bits(), 0.0f32.to_bits(), 1.0f32.to_bits()],
        wick_color: [0.5f32.to_bits(), 0.5f32.to_bits(), 0.5f32.to_bits(), 1.0f32.to_bits()],
    }
}

fn h(id: u64) -> GpuBufferHandle {
    GpuBufferHandle { id }
}

#[test]
fn first_candle_frame_preallocates_every_slot() {
    let mut res = TripleBufferedResources::new();
    let mut next = 0u64;
    let commands = upload_frame(&mut res, InstancePass::Candles, &input(10), &mut next);
    assert_eq!(
        commands,
        vec![
            GpuCommand::CreateInstanceBuffer { slot: 0, handle: h(0), capacity: 4096 },
            GpuCommand::CreateInstanceBuffer { slot: 1, handle: h(1), capacity: 4096 },
            GpuCommand::CreateInstanceBuffer { slot: 2, handle: h(2), capacity: 4096 },
            GpuCommand::WriteInstances { handle: h(0) },
            GpuCommand::CreateUniformBuffer { slot: 0, handle: h(3), size: VIEW_UNIFORM_SIZE },
            GpuCommand::CreateConfigBuffer { handle: h(4) },
            GpuCommand::CreateBindGroup {
                slot: 0,
                group: BindGroupHandle { id: 5 },
                view: h(3),
                config: Some(h(4)),
            },
        ]
    );
    assert_eq!(next, 6);
    assert_eq!(res.frame_count, 1);
    assert_eq!(res.instance_count, 10);
    assert_eq!(res.current_write_slot, 0);
    assert_eq!(res.allocation_stats.initial_allocations, 3);
    assert_eq!(res.allocation_stats.current_capacity, 3 * 4096);
    assert_eq!(res.allocation_stats.peak_instance_count, 10);
    assert_eq!(res.slots[0].fence.state, FrameSyncState::Submitted);
    assert_eq!(res.slots[0].fence.submission_frame, Some(0));
    assert_eq!(res.config_buffer, Some(h(4)));
    assert_eq!(res.last_viewport_width, 800.0f32.to_bits());
    assert_eq!(
        draw_call(&res, InstancePass::Candles),
        Some(DrawCall {
            instance_buffer: h(0),
            bind_group: BindGroupHandle { id: 5 },
            vertices: VERTICES_PER_CANDLE,
            instances: 10,
        })
    );
}

#[test]
fn later_candle_frames_reuse_buffers() {
    let mut res = TripleBufferedResources::new();
    let mut next = 0u64;
    upload_frame(&mut res, InstancePass::Candles, &input(10), &mut next);
    let second = upload_frame(&mut res, InstancePass::Candles, &input(10), &mut next);
    assert_eq!(
        second,
        vec![
            GpuCommand::WriteInstances { handle: h(1) },
            GpuCommand::CreateUniformBuffer { slot: 1, handle: h(6), size: VIEW_UNIFORM_SIZE },
            GpuCommand::CreateBindGroup {
                slot: 1,
                group: BindGroupHandle { id: 7 },
                view: h(6),
                config: Some(h(4)),
            },
        ]
    );
    upload_frame(&mut res, InstancePass::Candles, &input(10), &mut next);
    // Slot 0 again: everything exists and its bind group is still valid.
    let fourth = upload_frame(&mut res, InstancePass::Candles, &input(10), &mut next);
    assert_eq!(
        fourth,
        vec![GpuCommand::WriteInstances { handle: h(0) }, GpuCommand::WriteUniform { handle: h(3) }]
    );
    assert_eq!(res.frame_count, 4);
    assert_eq!(res.allocation_stats.reallocations, 0);
}

#[test]
fn growing_data_reallocates_current_slot() {
    let mut res = TripleBufferedResources::new();
    let mut next = 0u64;
    upload_frame(&mut res, InstancePass::Candles, &input(10), &mut next);
    // 200 records = 6400 bytes > 4096: slot 1 grows to ceil(6400 * 3 / 2) = 9600.
    let commands = upload_frame(&mut res, InstancePass::Candles, &input(200), &mut next);
    assert_eq!(commands[0], GpuCommand::CreateInstanceBuffer { slot: 1, handle: h(6), capacity: 9600 });
    assert_eq!(res.slots[1].buffer_capacity, 9600);
    assert_eq!(res.allocation_stats.reallocations, 1);
    assert_eq!(res.allocation_stats.current_capacity, 2 * 4096 + 9600);
    assert_eq!(res.allocation_stats.peak_capacity, 9600);
}

#[test]
fn volume_frames_rewrite_their_slot_and_bind_without_config() {
    let mut res = TripleBufferedResources::new();
    let mut next = 0u64;
    let first = upload_frame(&mut res, InstancePass::Volumes, &input(4), &mut next);
    assert_eq!(
        first,
        vec![
            GpuCommand::CreateInstanceBuffer { slot: 0, handle: h(0), capacity: 4096 },
            GpuCommand::CreateInstanceBuffer { slot: 1, handle: h(1), capacity: 4096 },
            GpuCommand::CreateInstanceBuffer { slot: 2, handle: h(2), capacity: 4096 },
            GpuCommand::WriteInstances { handle: h(0) },
            GpuCommand::CreateUniformBuffer { slot: 0, handle: h(3), size: VIEW_UNIFORM_SIZE },
            GpuCommand::CreateBindGroup { slot: 0, group: BindGroupHandle { id: 4 }, view: h(3), config: None },
        ]
    );
    assert_eq!(res.config_buffer, None);
    assert_eq!(res.last_wick_color, [0, 0, 0, 0]);
    assert_eq!(
        draw_call(&res, InstancePass::Volumes),
        Some(DrawCall { instance_buffer: h(0), bind_group: BindGroupHandle { id: 4 }, vertices: VERTICES_PER_BAR, instances: 4 })
    );
    let second = upload_frame(&mut res, InstancePass::Volumes, &input(4), &mut next);
    assert_eq!(
        second,
        vec![
            GpuCommand::WriteInstances { handle: h(1) },
            GpuCommand::CreateUniformBuffer { slot: 1, handle: h(5), size: VIEW_UNIFORM_SIZE },
            GpuCommand::CreateBindGroup { slot: 1, group: BindGroupHandle { id: 6 }, view: h(5), config: None },
        ]
    );
}

#[test]
fn frames_without_pipeline_or_instances_are_skipped() {
    let mut res = TripleBufferedResources::new();
    let mut next = 0u64;
    upload_frame(&mut res, InstancePass::Candles, &input(10), &mut next);
    let mut no_pipeline = input(10);
    no_pipeline.has_pipeline = false;
    assert!(upload_frame(&mut res, InstancePass::Candles, &no_pipeline, &mut next).is_empty());
    assert_eq!(res.frame_count, 2);
    assert_eq!(res.instance_count, 10);
    assert!(upload_frame(&mut res, InstancePass::Candles, &input(0), &mut next).is_empty());
    assert_eq!(res.frame_count, 3);
    assert_eq!(res.instance_count, 0);
    assert_eq!(next, 6);
    assert_eq!(draw_call(&res, InstancePass::Candles), None);
}

#[test]
fn debug_statistics_record_each_uploaded_frame() {
    let mut res = TripleBufferedResources::new_with_debug();
    let mut next = 0u64;
    upload_frame(&mut res, InstancePass::Candles, &input(10), &mut next);
    upload_frame(&mut res, InstancePass::Candles, &input(200), &mut next);
    let frames = res.debug_stats.recent_frames();
    assert_eq!(frames.len(), 2);
    assert_eq!(frames[0].frame, 0);
    assert_eq!(frames[0].write_slot, 0);
    assert_eq!(frames[0].instance_count, 10);
    assert!(!frames[0].reallocated);
    assert_eq!(frames[1].frame, 1);
    assert_eq!(frames[1].write_slot, 1);
    assert!(frames[1].reallocated);
    assert_eq!(res.debug_stats.total_reallocations, 1);
}

#[test]
fn skipped_frame_at_the_last_frame_number_wraps() {
    let mut res = TripleBufferedResources::new();
    res.frame_count = u64::MAX;
    let mut next = 0u64;
    let mut no_pipeline = input(10);
    no_pipeline.has_pipeline = false;
    assert!(upload_frame(&mut res, InstancePass::Volumes, &no_pipeline, &mut next).is_empty());
    assert_eq!(res.frame_count, 0);
    assert_eq!(next, 0);
}
