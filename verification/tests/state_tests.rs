use gpu_shell::config::{AlphaMode, Format, PresentMode, SurfaceCaps};
use gpu_shell::state::{Directive, RedrawDecision, RenderOutcome, State, WindowEvent};

fn sample_state() -> State {
    let caps = SurfaceCaps {
        formats: vec![Format { id: 0, srgb: true }],
        present_modes: vec![PresentMode::Fifo],
        alpha_modes: vec![AlphaMode::Auto],
    };
    State::new(800, 600, &caps)
}

#[test]
fn resize_positive_stores_size_and_reconfigures_once() {
    let mut state = sample_state();
    let reconfigure = state.resize(1024, 768);
    assert!(reconfigure);
    assert_eq!(state.config.width, 1024);
    assert_eq!(state.config.height, 768);
}

#[test]
fn resize_zero_width_is_a_noop() {
    let mut state = sample_state();
    let before = state.config;
    let reconfigure = state.resize(0, 768);
    assert!(!reconfigure);
    assert_eq!(state.config, before);
}

#[test]
fn resize_zero_height_is_a_noop() {
    let mut state = sample_state();
    let before = state.config;
    let reconfigure = state.resize(1024, 0);
    assert!(!reconfigure);
    assert_eq!(state.config, before);
}

#[test]
fn resize_zero_both_is_a_noop() {
    let mut state = sample_state();
    let before = state.config;
    let reconfigure = state.resize(0, 0);
    assert!(!reconfigure);
    assert_eq!(state.config, before);
}

#[test]
fn resize_keeps_every_other_field() {
    let mut state = sample_state();
    let before = state.config;
    state.resize(320, 240);
    assert_eq!(state.config.usage, before.usage);
    assert_eq!(state.config.format, before.format);
    assert_eq!(state.config.present_mode, before.present_mode);
    assert_eq!(state.config.alpha_mode, before.alpha_mode);
    assert_eq!(
        state.config.desired_maximum_frame_latency,
        before.desired_maximum_frame_latency
    );
}

#[test]
fn close_requested_asks_for_exit() {
    let mut state = sample_state();
    let before = state.config;
    let directive = state.window_event(WindowEvent::CloseRequested);
    assert_eq!(directive, Directive::Exit);
    assert_eq!(state.config, before);
}

#[test]
fn resized_event_updates_config_and_reconfigures() {
    let mut state = sample_state();
    let directive = state.window_event(WindowEvent::Resized { width: 512, height: 384 });
    assert_eq!(directive, Directive::Reconfigure);
    assert_eq!(state.config.width, 512);
    assert_eq!(state.config.height, 384);
}

#[test]
fn resized_event_with_zero_area_is_ignored() {
    let mut state = sample_state();
    let before = state.config;
    let directive = state.window_event(WindowEvent::Resized { width: 0, height: 384 });
    assert_eq!(directive, Directive::Ignore);
    assert_eq!(state.config, before);
}

#[test]
fn redraw_requested_asks_for_a_render() {
    let mut state = sample_state();
    let before = state.config;
    let directive = state.window_event(WindowEvent::RedrawRequested);
    assert_eq!(directive, Directive::Render);
    assert_eq!(state.config, before);
}

#[test]
fn other_events_are_ignored() {
    let mut state = sample_state();
    let before = state.config;
    let directive = state.window_event(WindowEvent::Other);
    assert_eq!(directive, Directive::Ignore);
    assert_eq!(state.config, before);
}

#[test]
fn two_presented_frames_leave_state_untouched() {
    let mut state = sample_state();
    let before = state.config;
    let first = state.after_render(RenderOutcome::Presented, 800, 600);
    assert_eq!(state.config, before);
    let second = state.after_render(RenderOutcome::Presented, 800, 600);
    assert_eq!(state.config, before);
    let expected = RedrawDecision { exit: false, reconfigure: false, request_redraw: true };
    assert_eq!(first, expected);
    assert_eq!(second, expected);
}

#[test]
fn lost_surface_recovers_with_the_current_size() {
    let mut state = sample_state();
    let decision = state.after_render(RenderOutcome::SurfaceLost, 1920, 1080);
    assert_eq!(state.config.width, 1920);
    assert_eq!(state.config.height, 1080);
    assert_eq!(
        decision,
        RedrawDecision { exit: false, reconfigure: true, request_redraw: true }
    );
}

#[test]
fn lost_surface_with_zero_current_size_keeps_config() {
    let mut state = sample_state();
    let before = state.config;
    let decision = state.after_render(RenderOutcome::SurfaceLost, 0, 0);
    assert_eq!(state.config, before);
    assert_eq!(
        decision,
        RedrawDecision { exit: false, reconfigure: false, request_redraw: true }
    );
}

#[test]
fn out_of_memory_exits_and_queues_no_redraw() {
    let mut state = sample_state();
    let before = state.config;
    let decision = state.after_render(RenderOutcome::OutOfMemory, 800, 600);
    assert_eq!(state.config, before);
    assert_eq!(
        decision,
        RedrawDecision { exit: true, reconfigure: false, request_redraw: false }
    );
}

#[test]
fn other_frame_errors_are_skipped_and_the_loop_continues() {
    let mut state = sample_state();
    let before = state.config;
    let decision = state.after_render(RenderOutcome::FrameError, 800, 600);
    assert_eq!(state.config, before);
    assert_eq!(
        decision,
        RedrawDecision { exit: false, reconfigure: false, request_redraw: true }
    );
}
