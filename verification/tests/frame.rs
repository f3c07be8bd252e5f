use raytracer::camera::{restart_if_moved, InputState, MoveStep};
use raytracer::event_loop::{after_render, app_frame_step, on_resumed, on_window_event, AppAction, EguiResponse, WindowEventKind};
use raytracer::raytracing::{next_frame_index, workgroup_count, workgroup_counts, WORKGROUP_SIZE};
use raytracer::renderer::{derived_label, frame_step, FrameStep, SurfaceStatus};

#[test]
fn workgroup_counts_round_up() {
    assert_eq!(WORKGROUP_SIZE, 16);
    assert_eq!(workgroup_count(0), 0);
    assert_eq!(workgroup_count(1), 1);
    assert_eq!(workgroup_count(15), 1);
    assert_eq!(workgroup_count(16), 1);
    assert_eq!(workgroup_count(17), 2);
    assert_eq!(workgroup_count(u32::MAX - 15), 0x0fff_ffff);
    assert_eq!(workgroup_counts(1920, 1080), (120, 68));
    assert_eq!(workgroup_counts(2560, 1440), (160, 90));
}

#[test]
fn workgroups_cover_every_pixel() {
    for extent in 0u32..200 {
        let n = workgroup_count(extent);
        assert!(n * 16 >= extent);
        assert!(n == 0 || (n - 1) * 16 < extent);
    }
}

#[test]
fn frame_index_then_count() {
    let mut count = 5u32;
    assert_eq!(next_frame_index(&mut count), 5);
    assert_eq!(count, 6);
    assert_eq!(next_frame_index(&mut count), 6);
    assert_eq!(count, 7);
}

#[test]
fn moving_restarts_accumulation() {
    let mut count = 42u32;
    restart_if_moved(false, &mut count);
    assert_eq!(count, 42);
    restart_if_moved(true, &mut count);
    assert_eq!(count, 0);
}

#[test]
fn frame_indices_count_frames_since_last_move() {
    let moves = [false, false, true, false, false, false, true, true, false];
    let expected = [0u32, 1, 0, 1, 2, 3, 0, 0, 1];
    let mut count = 0u32;
    for (moved, want) in moves.iter().zip(expected.iter()) {
        restart_if_moved(*moved, &mut count);
        assert_eq!(next_frame_index(&mut count), *want);
    }
}

fn input(forward: bool, backward: bool, left: bool, right: bool, up: bool, down: bool) -> InputState {
    InputState { forward, backward, left, right, up, down }
}

#[test]
fn movement_steps_follow_held_keys() {
    assert_eq!(input(false, false, false, false, false, false).movement_steps(), vec![]);
    assert_eq!(input(true, false, false, false, false, false).movement_steps(), vec![MoveStep::Forward]);
    assert_eq!(
        input(true, true, false, true, false, true).movement_steps(),
        vec![MoveStep::Forward, MoveStep::Backward, MoveStep::Right, MoveStep::Down]
    );
    assert_eq!(
        input(true, true, true, true, true, true).movement_steps(),
        vec![
            MoveStep::Forward,
            MoveStep::Backward,
            MoveStep::Left,
            MoveStep::Right,
            MoveStep::Up,
            MoveStep::Down
        ]
    );
    assert_eq!(input(false, false, true, false, true, false).movement_steps(), vec![MoveStep::Left, MoveStep::Up]);
}

#[test]
fn resume_creates_the_window_once() {
    assert_eq!(on_resumed(false), vec![AppAction::CreateWindow, AppAction::Initialize]);
    assert_eq!(on_resumed(true), vec![]);
}

#[test]
fn window_events_without_overlay() {
    assert_eq!(on_window_event(None, WindowEventKind::CloseRequested), vec![AppAction::Exit]);
    assert_eq!(on_window_event(None, WindowEventKind::RedrawRequested), vec![AppAction::Render]);
    assert_eq!(on_window_event(None, WindowEventKind::Other), vec![]);
}

#[test]
fn overlay_sees_events_first() {
    let consumed = Some(EguiResponse { repaint: false, consumed: true });
    let repaint_consumed = Some(EguiResponse { repaint: true, consumed: true });
    let repaint_only = Some(EguiResponse { repaint: true, consumed: false });
    let neither = Some(EguiResponse { repaint: false, consumed: false });
    assert_eq!(on_window_event(consumed, WindowEventKind::CloseRequested), vec![]);
    assert_eq!(on_window_event(consumed, WindowEventKind::RedrawRequested), vec![]);
    assert_eq!(on_window_event(repaint_consumed, WindowEventKind::CloseRequested), vec![AppAction::RequestRedraw]);
    assert_eq!(
        on_window_event(repaint_only, WindowEventKind::RedrawRequested),
        vec![AppAction::RequestRedraw, AppAction::Render]
    );
    assert_eq!(on_window_event(neither, WindowEventKind::CloseRequested), vec![AppAction::Exit]);
    assert_eq!(on_window_event(neither, WindowEventKind::Other), vec![]);
}

#[test]
fn after_rendering() {
    assert_eq!(after_render(true), vec![AppAction::RequestRedraw]);
    assert_eq!(after_render(false), vec![AppAction::Exit, AppAction::RequestRedraw]);
}

#[test]
fn renderer_skips_frames_without_texture() {
    assert_eq!(frame_step(SurfaceStatus::Success), FrameStep::Draw);
    assert_eq!(frame_step(SurfaceStatus::Suboptimal), FrameStep::Draw);
    for s in [SurfaceStatus::Timeout, SurfaceStatus::Occluded, SurfaceStatus::Outdated, SurfaceStatus::Lost, SurfaceStatus::Validation] {
        assert_eq!(frame_step(s), FrameStep::Skip);
    }
}

#[test]
fn application_fails_on_surface_errors_other_than_outdated() {
    assert_eq!(app_frame_step(SurfaceStatus::Success), FrameStep::Draw);
    assert_eq!(app_frame_step(SurfaceStatus::Suboptimal), FrameStep::Draw);
    assert_eq!(app_frame_step(SurfaceStatus::Outdated), FrameStep::Skip);
    for s in [SurfaceStatus::Timeout, SurfaceStatus::Occluded, SurfaceStatus::Lost, SurfaceStatus::Validation] {
        assert_eq!(app_frame_step(s), FrameStep::Fail);
    }
}

#[test]
fn derived_labels() {
    assert_eq!(derived_label("Raytracing Texture", "view"), "Raytracing Texture view");
    assert_eq!(derived_label("Raytracing Pipeline", "layout"), "Raytracing Pipeline layout");
    assert_eq!(derived_label("", "sampler"), " sampler");
}
