use cube_viewer::frame::{
    dispatch, AcquireError, Command, FrameFollowUp, Notification, ResizeWork, State, UniformUpload,
};
use cube_viewer::surface::{PresentConfig, SurfaceSize, FRAME_LATENCY};

fn size(w: u32, h: u32) -> SurfaceSize {
    SurfaceSize::new(w, h)
}

#[test]
fn startup_uses_window_size_for_aspect() {
    let (state, upload) = State::new(size(800, 600), true);
    assert_eq!(upload, UniformUpload { aspect: size(800, 600), perspective: true });
    assert_eq!(state.size, size(800, 600));
    assert_eq!(state.uniform_aspect, size(800, 600));
    assert_eq!(
        state.config,
        PresentConfig { width: 800, height: 600, max_frame_latency: FRAME_LATENCY }
    );
}

#[test]
fn resize_recomputes_aspect_and_reconfigures() {
    let (mut state, _) = State::new(size(800, 600), true);
    let work = state.resize(size(400, 300));
    assert_eq!(
        work,
        Some(ResizeWork {
            config: PresentConfig { width: 400, height: 300, max_frame_latency: FRAME_LATENCY },
            upload: UniformUpload { aspect: size(400, 300), perspective: true },
        })
    );
    assert_eq!(state.size, size(400, 300));
    assert_eq!(state.uniform_aspect, size(400, 300));
    assert_eq!(state.config.width, 400);
    assert_eq!(state.config.height, 300);
    assert!(state.perspective);
}

#[test]
fn resize_twice_gives_same_upload() {
    let (mut state, _) = State::new(size(640, 480), false);
    let first = state.resize(size(1024, 768));
    let after_first = state;
    let second = state.resize(size(1024, 768));
    assert_eq!(first, second);
    assert_eq!(state, after_first);
    assert_eq!(first.unwrap().upload, UniformUpload { aspect: size(1024, 768), perspective: false });
}

#[test]
fn zero_width_resize_changes_nothing() {
    let (mut state, _) = State::new(size(800, 600), true);
    let before = state;
    assert_eq!(state.resize(size(0, 600)), None);
    assert_eq!(state, before);
}

#[test]
fn zero_height_resize_changes_nothing() {
    let (mut state, _) = State::new(size(800, 600), true);
    let before = state;
    assert_eq!(state.resize(size(800, 0)), None);
    assert_eq!(state, before);
    assert_eq!(state.resize(size(0, 0)), None);
    assert_eq!(state, before);
}

#[test]
fn lost_surface_reconfigures_with_stored_size() {
    let (mut state, _) = State::new(size(800, 600), true);
    state.resize(size(1280, 720));
    let before = state;
    let r = state.finish_frame(Err(AcquireError::Lost));
    assert_eq!(
        r,
        FrameFollowUp::Recover(ResizeWork {
            config: PresentConfig { width: 1280, height: 720, max_frame_latency: FRAME_LATENCY },
            upload: UniformUpload { aspect: size(1280, 720), perspective: true },
        })
    );
    assert_ne!(r, FrameFollowUp::Exit);
    assert_eq!(state, before);
}

#[test]
fn out_of_memory_ends_the_loop() {
    let (mut state, _) = State::new(size(800, 600), true);
    let before = state;
    assert_eq!(state.finish_frame(Err(AcquireError::OutOfMemory)), FrameFollowUp::Exit);
    assert_eq!(state, before);
}

#[test]
fn other_acquire_errors_skip_the_frame() {
    let (mut state, _) = State::new(size(800, 600), true);
    assert_eq!(
        state.finish_frame(Err(AcquireError::Timeout)),
        FrameFollowUp::Skip(AcquireError::Timeout)
    );
    assert_eq!(
        state.finish_frame(Err(AcquireError::Outdated)),
        FrameFollowUp::Skip(AcquireError::Outdated)
    );
    assert_eq!(state.finish_frame(Ok(())), FrameFollowUp::Presented);
}

#[test]
fn lost_surface_with_zero_size_is_skipped() {
    let (mut state, _) = State::new(size(0, 0), true);
    assert_eq!(
        state.finish_frame(Err(AcquireError::Lost)),
        FrameFollowUp::Skip(AcquireError::Lost)
    );
}

#[test]
fn notifications_map_to_commands() {
    assert_eq!(dispatch(Notification::CloseRequested), Command::Exit);
    assert_eq!(dispatch(Notification::Resized(size(3, 4))), Command::Resize(size(3, 4)));
    assert_eq!(dispatch(Notification::RedrawRequested), Command::Render);
    assert_eq!(dispatch(Notification::Other), Command::Ignore);
}

#[test]
fn frame_plan_matches_surface() {
    let (mut state, _) = State::new(size(800, 600), true);
    state.resize(size(400, 300));
    let plan = state.frame_plan();
    assert_eq!(plan.depth_width, 400);
    assert_eq!(plan.depth_height, 300);
    assert_eq!(plan.first_vertex, 0);
    assert_eq!(plan.vertex_count, 36);
    assert_eq!(plan.instance_count, 1);
}

#[test]
fn present_config_ignores_degenerate_size() {
    let mut c = PresentConfig::initial(size(10, 20));
    assert!(!c.reconfigure(size(0, 5)));
    assert_eq!(c.current_size(), size(10, 20));
    assert!(c.reconfigure(size(30, 40)));
    assert_eq!(c.current_size(), size(30, 40));
    assert_eq!(c.max_frame_latency, 2);
}
