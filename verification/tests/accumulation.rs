use raytracer::accumulation::{AccumulationState, FrameParams, Viewport};

#[test]
fn first_frame_finds_an_empty_target() {
    let mut state = AccumulationState::new(1600, 900);
    assert_eq!(state.viewport(), Viewport { width: 1600, height: 900 });
    assert!(!state.is_stale());
    assert_eq!(state.sample_count(), 0);
    assert_eq!(state.frame(false), FrameParams { sample_count: 0, stale: false });
    assert_eq!(state.sample_count(), 1);
}

#[test]
fn steady_frames_count_up() {
    let mut state = AccumulationState::new(4, 4);
    state.frame(false);
    assert_eq!(state.frame(false), FrameParams { sample_count: 1, stale: false });
    assert_eq!(state.frame(false), FrameParams { sample_count: 2, stale: false });
    assert_eq!(state.sample_count(), 3);
}

#[test]
fn changed_frame_restarts_the_count() {
    let mut state = AccumulationState::new(4, 4);
    for _ in 0..5 {
        state.frame(false);
    }
    assert_eq!(state.sample_count(), 5);
    assert_eq!(state.frame(true), FrameParams { sample_count: 0, stale: true });
    assert!(!state.is_stale());
    assert_eq!(state.frame(false), FrameParams { sample_count: 1, stale: false });
}

#[test]
fn invalidate_marks_the_next_frame_stale() {
    let mut state = AccumulationState::new(4, 4);
    state.frame(false);
    state.frame(false);
    state.invalidate();
    assert_eq!(state.sample_count(), 0);
    assert!(state.is_stale());
    assert_eq!(state.frame(false), FrameParams { sample_count: 0, stale: true });
}

#[test]
fn resize_restarts_the_count_and_takes_the_new_size() {
    let mut state = AccumulationState::new(4, 4);
    state.frame(false);
    state.frame(false);
    state.frame(false);
    assert!(state.resize(8, 2));
    assert_eq!(state.viewport(), Viewport { width: 8, height: 2 });
    assert_eq!(state.frame(false), FrameParams { sample_count: 0, stale: true });
}

#[test]
fn resize_to_the_same_size_still_restarts() {
    let mut state = AccumulationState::new(4, 4);
    state.frame(false);
    state.frame(false);
    assert!(state.resize(4, 4));
    assert_eq!(state.frame(false), FrameParams { sample_count: 0, stale: true });
}

#[test]
fn resize_with_a_zero_dimension_is_ignored() {
    let mut state = AccumulationState::new(4, 4);
    state.frame(false);
    state.frame(false);
    assert!(!state.resize(0, 7));
    assert!(!state.resize(7, 0));
    assert!(!state.resize(0, 0));
    assert_eq!(state.viewport(), Viewport { width: 4, height: 4 });
    assert_eq!(state.sample_count(), 2);
    assert!(!state.is_stale());
    assert_eq!(state.frame(false), FrameParams { sample_count: 2, stale: false });
}
