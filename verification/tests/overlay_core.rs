use png_overlay::animation::{initial_window_size, AnimationState};
use png_overlay::dimensions::{apply_resize, DimensionsUniform, SurfaceExtent};
use png_overlay::gpu::FrameImage;
use png_overlay::renderer::{choose_format_index, render_binding};
use png_overlay::selector::FrameSelector;
use png_overlay::timing::{FrameTimer, IdleWake};

#[test]
fn advance_cycles_and_stays_in_range() {
    let mut s = FrameSelector::new(3);
    assert_eq!(s.current(), 0);
    let mut seen: Vec<usize> = Vec::new();
    for _ in 0..7 {
        s.advance();
        assert!(s.current() < 3);
        seen.push(s.current());
    }
    // Period 3: back to 0 exactly every three advances.
    assert_eq!(seen, vec![1, 2, 0, 1, 2, 0, 1]);
}

#[test]
fn advance_with_no_frames_is_a_noop() {
    let mut s = FrameSelector::new(0);
    s.advance();
    s.advance();
    assert_eq!(s.current(), 0);
    assert_eq!(s.count(), 0);
}

#[test]
fn select_wraps_by_modulo() {
    let mut s = FrameSelector::new(5);
    s.select(7);
    assert_eq!(s.current(), 2);
    s.select(4);
    assert_eq!(s.current(), 4);
    s.select(5);
    assert_eq!(s.current(), 0);
}

#[test]
fn select_with_no_frames_is_a_noop() {
    let mut s = FrameSelector::new(0);
    s.select(7);
    assert_eq!(s.current(), 0);
}

#[test]
fn ticks_collapse_to_one_advance_per_interval() {
    // frameInterval = 100; ticks at t = 0, 50, 120, 260 advance exactly
    // twice: at the 120 tick and at the 260 tick.
    let mut t = FrameTimer::new(0, 100);
    assert!(!t.tick(0));
    assert!(!t.tick(50));
    assert!(t.tick(120));
    assert!(t.tick(260));
    assert_eq!(t.last_advance(), 260);
    assert_eq!(t.interval(), 100);
}

#[test]
fn early_tick_changes_nothing() {
    let mut t = FrameTimer::new(40, 100);
    assert!(!t.tick(139));
    assert_eq!(t.last_advance(), 40);
    assert!(t.tick(140));
    assert_eq!(t.last_advance(), 140);
}

#[test]
fn wake_deadline_is_frame_accurate() {
    let t = FrameTimer::new(0, 100);
    // Not yet due: no redraw, wake exactly at the next scheduled advance.
    assert_eq!(t.wake_deadline(50), IdleWake { request_redraw: false, wake_at: 100 });
    assert_eq!(t.wake_deadline(99), IdleWake { request_redraw: false, wake_at: 100 });
    // Due: redraw now; the advance it triggers schedules the one after.
    assert_eq!(t.wake_deadline(150), IdleWake { request_redraw: true, wake_at: 250 });
}

#[test]
fn update_advances_twice_over_four_wakes() {
    let mut a = AnimationState::new(3, 0, 100);
    assert_eq!(a.update(0), None);
    assert_eq!(a.update(50), None);
    assert_eq!(a.update(120), Some(1));
    assert_eq!(a.update(260), Some(2));
}

#[test]
fn update_with_no_frames_never_binds() {
    let mut a = AnimationState::new(0, 0, 100);
    assert_eq!(a.update(500), None);
    assert_eq!(a.update(1000), None);
}

#[test]
fn update_wraps_around_the_sequence() {
    let mut a = AnimationState::new(2, 0, 10);
    assert_eq!(a.update(10), Some(1));
    assert_eq!(a.update(20), Some(0));
    assert_eq!(a.update(30), Some(1));
}

#[test]
fn idle_wake_targets_the_next_scheduled_advance() {
    let a = AnimationState::new(3, 0, 100);
    assert_eq!(a.idle_wake(99), IdleWake { request_redraw: false, wake_at: 100 });
    assert_eq!(a.idle_wake(100), IdleWake { request_redraw: true, wake_at: 200 });
}

#[test]
fn degenerate_resize_changes_nothing() {
    let mut extent = SurfaceExtent { width: 64, height: 64 };
    let mut dims = DimensionsUniform::initial(64, 64);
    assert!(!apply_resize(&mut extent, &mut dims, 0, 128));
    assert!(!apply_resize(&mut extent, &mut dims, 128, 0));
    assert_eq!(extent, SurfaceExtent { width: 64, height: 64 });
    assert_eq!(dims, DimensionsUniform::initial(64, 64));
}

#[test]
fn resize_updates_surface_pair_and_keeps_frame_pair() {
    // A 64x64 sequence, then resize(128, 128): the uniform's surface pair
    // becomes 128x128 while the frame pair stays 64x64.
    let mut extent = SurfaceExtent { width: 64, height: 64 };
    let mut dims = DimensionsUniform::initial(64, 64);
    assert!(apply_resize(&mut extent, &mut dims, 128, 128));
    assert_eq!(extent, SurfaceExtent { width: 128, height: 128 });
    assert_eq!(
        dims,
        DimensionsUniform {
            surface_width: 128,
            surface_height: 128,
            frame_width: 64,
            frame_height: 64,
        }
    );
}

#[test]
fn frame_size_update_keeps_surface_pair() {
    let mut dims = DimensionsUniform::initial(800, 600);
    dims.set_frame_size(64, 64);
    assert_eq!(
        dims,
        DimensionsUniform {
            surface_width: 800,
            surface_height: 600,
            frame_width: 64,
            frame_height: 64,
        }
    );
}

#[test]
fn window_takes_first_frame_size_or_default() {
    assert_eq!(initial_window_size(Some((64, 64))), (64, 64));
    assert_eq!(initial_window_size(Some((320, 200))), (320, 200));
    assert_eq!(initial_window_size(None), (800, 600));
}

#[test]
fn first_srgb_format_is_preferred() {
    assert_eq!(choose_format_index(&vec![false, true, true]), 1);
    assert_eq!(choose_format_index(&vec![true, false]), 0);
}

#[test]
fn format_choice_falls_back_to_first() {
    assert_eq!(choose_format_index(&vec![false, false, false]), 0);
}

#[test]
fn empty_cache_binds_nothing() {
    assert_eq!(render_binding(0, 0), None);
}

#[test]
fn nonempty_cache_binds_distinct_resources_per_index() {
    let picks: Vec<Option<usize>> = (0..3).map(|i| render_binding(3, i)).collect();
    assert_eq!(picks, vec![Some(0), Some(1), Some(2)]);
}

#[test]
fn image_from_exact_bytes_keeps_its_size() {
    let img = FrameImage::from_raw_parts(2, 3, vec![7u8; 24]).unwrap();
    assert_eq!(img.dimensions(), (2, 3));
}

#[test]
fn image_with_surplus_bytes_is_accepted() {
    assert!(FrameImage::from_raw_parts(2, 2, vec![0u8; 17]).is_some());
}

#[test]
fn image_with_too_few_bytes_is_rejected() {
    assert!(FrameImage::from_raw_parts(2, 2, vec![0u8; 15]).is_none());
    assert!(FrameImage::from_raw_parts(4096, 4096, Vec::new()).is_none());
}
