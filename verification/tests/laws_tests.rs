use charts::rendering::triple_buffer::{
    calculate_grown_capacity, AllocationStats, DebugStats, calculate_initial_capacity, RotationState, TripleBufferedResources,
    MIN_BUFFER_CAPACITY,
};

#[test]
fn debug_ring_keeps_last_sixty_frames() {
    let mut res = TripleBufferedResources::new_with_debug();
    for _ in 0..70 {
        res.begin_frame();
        res.debug_begin_frame();
        res.debug_end_frame();
        res.complete_frame();
    }
    let frames = res.debug_stats.recent_frames();
    assert_eq!(frames.len(), 60);
    let mut seen: Vec<u64> = frames.iter().map(|f| f.frame).collect();
    seen.sort();
    assert_eq!(seen, (10..70).collect::<Vec<u64>>());
}

#[test]
fn nan_viewport_always_counts_as_changed() {
    let mut res = TripleBufferedResources::new();
    let nan = f32::NAN.to_bits();
    let zero = [0u32; 4];
    res.update_view_tracking(nan, 1.0f32.to_bits(), zero, zero, zero);
    assert!(res.view_uniform_changed(nan, 1.0f32.to_bits(), zero, zero, zero));
    res.update_view_tracking(2.0f32.to_bits(), 1.0f32.to_bits(), zero, zero, zero);
    assert!(!res.view_uniform_changed(2.0f32.to_bits(), 1.0f32.to_bits(), zero, zero, zero));
    // 0.0 and -0.0 compare equal as floats.
    res.update_view_tracking(0.0f32.to_bits(), 1.0f32.to_bits(), zero, zero, zero);
    assert!(!res.view_uniform_changed((-0.0f32).to_bits(), 1.0f32.to_bits(), zero, zero, zero));
}

#[test]
fn initial_capacity_is_at_least_grown_capacity() {
    for n in [0usize, 1, 100, 4096, 5000, 100_000, 1 << 30] {
        assert!(calculate_initial_capacity(n) >= calculate_grown_capacity(n));
        assert!(calculate_grown_capacity(n) >= n);
        assert!(calculate_grown_capacity(n) >= MIN_BUFFER_CAPACITY);
    }
    assert_eq!(calculate_grown_capacity(10_000), 15_000);
    assert_eq!(calculate_initial_capacity(10_000), 22_500);
}

#[test]
fn rotation_partitions_the_slots_and_reads_two_frames_later() {
    for frame in 0..9u64 {
        let r = RotationState::for_frame(frame);
        let mut slots = vec![r.write_slot, r.gpu_read_slot, r.in_flight_slot];
        slots.sort();
        assert_eq!(slots, vec![0, 1, 2]);
        assert_eq!(RotationState::for_frame(frame + 2).gpu_read_slot, r.write_slot);
        assert_eq!(RotationState::for_frame(frame + 1).in_flight_slot, r.write_slot);
    }
}

#[test]
fn slot_is_ready_again_three_frames_after_submission() {
    let mut res = TripleBufferedResources::new();
    for _ in 0..3 {
        res.begin_frame();
        res.complete_frame();
    }
    // Frame 3 reuses slot 0, submitted at frame 0.
    assert!(res.current_slot_is_safe());
    let acquired = res.try_acquire_slot();
    assert!(acquired.is_ready());
    assert_eq!(acquired.slot_index(), 0);
}

fn run_frames(res: &mut TripleBufferedResources, waits: &[u64]) {
    for &w in waits {
        res.begin_frame();
        res.debug_begin_frame();
        res.debug_record_fence_wait(w);
        res.debug_end_frame();
        res.complete_frame();
    }
}

#[test]
fn statistics_text_matches_float_formatting() {
    // Sixty frames with 3 µs of waiting in total: 3/60 = 0.05 is a decimal
    // tie that the nearest binary64 number resolves upwards.
    let mut waits = vec![0u64; 60];
    waits[7] = 3;
    let mut res = TripleBufferedResources::new_with_debug();
    run_frames(&mut res, &waits);
    let summary = res.debug_stats.summary();
    let expected_avg = format!("- Avg fence wait: {:.1}µs", 3u64 as f64 / 60u64 as f64);
    assert!(summary.contains(&expected_avg), "{}", summary);
    assert!(summary.contains("- Avg fence wait: 0.1µs"));
    let expected_rate = format!("- Fence wait rate: {:.1}%", (1u64 as f64 / 60u64 as f64) * 100.0);
    assert!(summary.contains(&expected_rate), "{}", summary);
    let status = res.debug_stats.status_line();
    assert_eq!(
        status,
        format!(
            "TB: fence={:.0}µs/{:.1}% realloc=0 frames=60",
            3u64 as f64 / 60u64 as f64,
            (1u64 as f64 / 60u64 as f64) * 100.0
        )
    );
}

#[test]
fn statistics_rates_match_float_formatting_for_every_count() {
    for n in 1..=60u64 {
        for w in 0..=n {
            let mut waits = vec![0u64; n as usize];
            for i in 0..w as usize {
                waits[i] = 1 + (i as u64 % 7);
            }
            let total: u64 = waits.iter().sum();
            let mut res = TripleBufferedResources::new_with_debug();
            run_frames(&mut res, &waits);
            let status = res.debug_stats.status_line();
            assert_eq!(
                status,
                format!(
                    "TB: fence={:.0}µs/{:.1}% realloc=0 frames={}",
                    total as f64 / n as f64,
                    (w as f64 / n as f64) * 100.0,
                    n
                )
            );
        }
    }
}

#[test]
fn byte_sizes_match_float_formatting() {
    for bytes in [1023usize, 1024, 1536, 1152, 4096 + 5, 1 << 20, (1 << 20) + 5243, usize::MAX, (1usize << 53) + 1] {
        let expected = if bytes >= 1024 * 1024 {
            format!("{:.2} MB", bytes as f64 / (1024.0 * 1024.0))
        } else if bytes >= 1024 {
            format!("{:.2} KB", bytes as f64 / 1024.0)
        } else {
            format!("{} B", bytes)
        };
        assert_eq!(charts::rendering::triple_buffer::format_bytes(bytes), expected);
    }
}

fn float_grown(n: usize) -> usize {
    ((n as f32 * 1.5f32).ceil() as usize).max(MIN_BUFFER_CAPACITY)
}

fn float_initial(n: usize) -> usize {
    ((n as f32 * 1.5f32 * 1.5f32).ceil() as usize).max(MIN_BUFFER_CAPACITY)
}

#[test]
fn capacities_match_single_precision_growth() {
    let mut samples: Vec<usize> = vec![0, 1, 2, 3, 7, 100, 2730, 2731, 4096, 6400, 10_000, 1 << 20];
    for k in 20..64u32 {
        let base = 1usize << k;
        for delta in [0usize, 1, 2, 3, 5, 7, 11, 13, 1000, 12345] {
            samples.push(base.wrapping_add(delta));
            samples.push(base.wrapping_sub(delta));
            samples.push(base + base / 3 + delta);
        }
    }
    samples.push(usize::MAX);
    samples.push(usize::MAX - 1);
    samples.push(usize::MAX / 3 * 2);
    let mut x: u64 = 0x9E37_79B9_7F4A_7C15;
    for _ in 0..20_000 {
        x ^= x << 13;
        x ^= x >> 7;
        x ^= x << 17;
        samples.push((x >> (x % 40)) as usize);
    }
    for n in samples {
        assert_eq!(calculate_grown_capacity(n), float_grown(n), "grown {}", n);
        assert_eq!(calculate_initial_capacity(n), float_initial(n), "initial {}", n);
        assert!(calculate_grown_capacity(n) >= n);
        assert!(calculate_initial_capacity(n) >= calculate_grown_capacity(n));
    }
}

#[test]
fn capacities_follow_the_request() {
    let mut last_grown = 0usize;
    let mut last_initial = 0usize;
    let mut n = 0usize;
    while n < 20_000_000 {
        let g = calculate_grown_capacity(n);
        let i = calculate_initial_capacity(n);
        assert!(g >= last_grown && i >= last_initial, "not monotone at {}", n);
        last_grown = g;
        last_initial = i;
        n += if n < 10_000 { 1 } else { 7_919 };
    }
    assert!(calculate_grown_capacity(usize::MAX - 1) <= calculate_grown_capacity(usize::MAX));
}

#[test]
fn first_allocation_exceeds_growth_above_one_page() {
    assert_eq!(calculate_grown_capacity(2730), MIN_BUFFER_CAPACITY);
    assert_eq!(calculate_grown_capacity(2731), 4097);
    let mut n = 2731usize;
    while n <= 5_000_000 {
        assert!(calculate_initial_capacity(n) > calculate_grown_capacity(n), "at {}", n);
        n += 997;
    }
    assert!(calculate_initial_capacity(5_000_000) > calculate_grown_capacity(5_000_000));
}

#[test]
fn aligned_rotation_never_waits_after_warmup() {
    let mut res = TripleBufferedResources::new();
    for frame in 0..50u64 {
        if frame % 7 == 3 {
            res.skip_frame();
            continue;
        }
        let slot = (res.frame_count % 3) as usize;
        match res.slots[slot].fence.submission_frame {
            None => {}
            Some(f) => assert!(f + 3 <= res.frame_count),
        }
        res.begin_frame();
        res.complete_frame();
    }
}

#[test]
fn efficiency_is_the_binary32_quotient() {
    let pairs: [(usize, usize); 8] = [
        (1, 3),
        (5000, 10000),
        (7, 4096),
        (16_777_217, 33_554_435),
        (1, usize::MAX),
        (usize::MAX, 3),
        (123_456_789, 987_654_321),
        (0, 17),
    ];
    for (used, cap) in pairs {
        let mut stats = AllocationStats::default();
        stats.current_capacity = cap;
        let r = stats.efficiency(used).unwrap();
        let got = r.significand as f64 * 2f64.powi(r.exponent);
        let want = used as f32 / cap as f32;
        assert_eq!(got, want as f64, "{} / {}", used, cap);
    }
}

#[test]
fn averages_are_the_binary64_quotients() {
    let mut stats = DebugStats::new_enabled();
    let waits: [u64; 7] = [3, 0, 10, 7, u64::MAX, 1, 2];
    let mut total: u128 = 0;
    for (i, w) in waits.iter().enumerate() {
        stats.begin_frame(i as u64, i % 3, (i + 1) % 3);
        stats.record_fence_wait(*w);
        stats.end_frame();
        total += *w as u128;
    }
    let avg = stats.avg_fence_wait_us();
    let got = avg.numerator as f64 / avg.denominator as f64;
    assert_eq!(got, total as f64 / waits.len() as f64);
    let empty = DebugStats::new();
    let zero = empty.avg_write_time_us();
    assert_eq!((zero.numerator, zero.denominator), (0, 1));
}

#[test]
fn upload_only_needs_room_for_what_it_does() {
    let mut res = TripleBufferedResources::new();
    let mut next = 0u64;
    let frame = charts::rendering::upload::UploadInput {
        has_pipeline: true,
        instance_count: 10,
        viewport_width: 800.0f32.to_bits(),
        viewport_height: 600.0f32.to_bits(),
        bull_color: [0; 4],
        bear_color: [0; 4],
        wick_color: [0; 4],
    };
    charts::rendering::upload::upload_frame(&mut res, charts::rendering::upload::InstancePass::Candles, &frame, &mut next);
    // Preallocated and roomy: a frame that neither allocates nor grows
    // uploads even with the allocation counters at their limits.
    res.allocation_stats.initial_allocations = u32::MAX;
    res.allocation_stats.reallocations = u32::MAX;
    let commands = charts::rendering::upload::upload_frame(&mut res, charts::rendering::upload::InstancePass::Candles, &frame, &mut next);
    assert!(!commands.is_empty());
    assert_eq!(res.allocation_stats.reallocations, u32::MAX);
}
