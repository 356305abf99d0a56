use drawing_in_3d::dispatch_semaphore::SignalOutcome;
use drawing_in_3d::mbe_renderer::{
    align_up, DrawAction, RustMBERenderer, MBE_BUFFER_ALIGNMENT, MBE_IN_FLIGHT_BUFFER_COUNT,
};

#[test]
fn matrix_types_it_works() {
    assert_eq!(2 + 2, 4);
}

#[test]
fn align_up_exact_values() {
    assert_eq!(align_up(0, 256), 0);
    assert_eq!(align_up(1, 256), 256);
    assert_eq!(align_up(64, 256), 256);
    assert_eq!(align_up(255, 256), 256);
    assert_eq!(align_up(256, 256), 256);
    assert_eq!(align_up(257, 256), 512);
    assert_eq!(align_up(1000, 16), 1008);
    assert_eq!(align_up(12345, 1), 12345);
    assert_eq!(align_up(10, 3), 12);
}

#[test]
fn align_up_at_the_top_of_the_range() {
    assert_eq!(align_up(u64::MAX - 255, 256), u64::MAX - 255);
    assert_eq!(align_up(u64::MAX, 1), u64::MAX);
}

#[test]
fn align_up_gives_a_multiple_not_below() {
    for size in 0u64..2000 {
        let r = align_up(size, MBE_BUFFER_ALIGNMENT);
        assert_eq!(r % 256, 0);
        assert!(r >= size);
        assert!(r < size + 256);
    }
}

#[test]
fn ring_of_a_matrix_block() {
    let renderer = RustMBERenderer::new(64).unwrap();
    assert_eq!(renderer.uniform_size(), 64);
    assert_eq!(renderer.uniform_buffer_stride(), 256);
    assert_eq!(renderer.uniform_buffer_length(), 768);
    assert_eq!(renderer.uniform_buffer_offset(), 0);
    assert_eq!(renderer.buffer_index(), 0);
    assert_eq!(renderer.frames_in_flight(), 0);
}

#[test]
fn ring_of_a_block_larger_than_the_alignment() {
    let renderer = RustMBERenderer::new(300).unwrap();
    assert_eq!(renderer.uniform_buffer_stride(), 512);
    assert_eq!(renderer.uniform_buffer_length(), 1536);
}

#[test]
fn ring_that_does_not_fit_is_refused() {
    assert!(RustMBERenderer::new(u64::MAX).is_none());
    assert!(RustMBERenderer::new(u64::MAX / 3 + 1).is_none());
    assert!(RustMBERenderer::new(u64::MAX / 3 - 255).is_some());
    assert!(RustMBERenderer::new(0).is_some());
}

#[test]
fn slot_offsets_do_not_overlap() {
    let size = 64u64;
    let mut renderer = RustMBERenderer::new(size).unwrap();
    let mut offsets = Vec::new();
    for _ in 0..MBE_IN_FLIGHT_BUFFER_COUNT {
        match renderer.draw_in_view(72) {
            DrawAction::Submit { uniform_buffer_offset, .. } => offsets.push(uniform_buffer_offset),
            DrawAction::Wait => panic!("a slot was free"),
        }
        assert_ne!(renderer.command_buffer_completed(), SignalOutcome::NothingCheckedOut);
    }
    assert_eq!(offsets, vec![0, 256, 512]);
    for i in 0..offsets.len() {
        assert_eq!(offsets[i] % 256, 0);
        assert!(offsets[i] + size <= renderer.uniform_buffer_length());
        for j in (i + 1)..offsets.len() {
            assert!(offsets[i] + size <= offsets[j]);
        }
    }
    assert_eq!(renderer.buffer_index(), 0);
}

#[test]
fn draw_takes_a_permit_and_names_the_current_slot() {
    let mut renderer = RustMBERenderer::new(64).unwrap();
    let action = renderer.draw_in_view(72);
    assert_eq!(action, DrawAction::Submit { uniform_buffer_offset: 0, index_count: 36 });
    assert_eq!(renderer.frames_in_flight(), 1);
    assert_eq!(renderer.buffer_index(), 0);
}

#[test]
fn index_count_is_half_the_length_in_bytes() {
    let mut renderer = RustMBERenderer::new(64).unwrap();
    assert_eq!(
        renderer.draw_in_view(7),
        DrawAction::Submit { uniform_buffer_offset: 0, index_count: 3 }
    );
    assert_eq!(
        renderer.draw_in_view(0),
        DrawAction::Submit { uniform_buffer_offset: 0, index_count: 0 }
    );
}

#[test]
fn fourth_frame_waits_until_one_completes() {
    let mut renderer = RustMBERenderer::new(64).unwrap();
    for _ in 0..3 {
        assert_ne!(renderer.draw_in_view(72), DrawAction::Wait);
    }
    assert_eq!(renderer.frames_in_flight(), 3);
    assert_eq!(renderer.draw_in_view(72), DrawAction::Wait);
    assert_eq!(renderer.frames_in_flight(), 3);
    assert_eq!(renderer.command_buffer_completed(), SignalOutcome::WokeWaiter);
    assert_eq!(renderer.frames_in_flight(), 2);
    assert_eq!(renderer.buffer_index(), 1);
    assert_eq!(
        renderer.draw_in_view(72),
        DrawAction::Submit { uniform_buffer_offset: 256, index_count: 36 }
    );
    assert_eq!(renderer.frames_in_flight(), 3);
}

#[test]
fn completion_without_a_frame_in_flight_changes_nothing() {
    let mut renderer = RustMBERenderer::new(64).unwrap();
    assert_eq!(renderer.command_buffer_completed(), SignalOutcome::NothingCheckedOut);
    assert_eq!(renderer.buffer_index(), 0);
    assert_eq!(renderer.frames_in_flight(), 0);
}

#[test]
fn ring_walks_round_robin() {
    let mut renderer = RustMBERenderer::new(64).unwrap();
    let mut seen = Vec::new();
    for _ in 0..7 {
        seen.push(renderer.buffer_index());
        assert_ne!(renderer.draw_in_view(72), DrawAction::Wait);
        assert_eq!(renderer.command_buffer_completed(), SignalOutcome::Released);
    }
    assert_eq!(seen, vec![0, 1, 2, 0, 1, 2, 0]);
}

#[test]
fn frames_in_flight_stay_bounded() {
    let mut renderer = RustMBERenderer::new(64).unwrap();
    let steps = [0u8, 0, 0, 0, 0, 1, 0, 1, 1, 1, 1, 1, 0, 1, 0, 0, 0, 0, 1, 1];
    for step in steps {
        if step == 0 {
            renderer.draw_in_view(72);
        } else {
            renderer.command_buffer_completed();
        }
        assert!(renderer.frames_in_flight() <= 3);
        assert!(renderer.buffer_index() < 3);
    }
}

#[test]
fn frames_started_between_two_completions_share_a_slot() {
    let mut renderer = RustMBERenderer::new(64).unwrap();
    let first = renderer.draw_in_view(72);
    let second = renderer.draw_in_view(72);
    assert_eq!(first, second);
    assert_eq!(renderer.frames_in_flight(), 2);
    assert_eq!(renderer.blocked_callers(), 0);
}

#[test]
fn a_waiting_frame_is_counted_as_blocked() {
    let mut renderer = RustMBERenderer::new(64).unwrap();
    for _ in 0..3 {
        renderer.draw_in_view(72);
    }
    assert_eq!(renderer.draw_in_view(72), DrawAction::Wait);
    assert_eq!(renderer.blocked_callers(), 1);
    assert_eq!(renderer.command_buffer_completed(), SignalOutcome::WokeWaiter);
    assert_eq!(renderer.blocked_callers(), 0);
}
