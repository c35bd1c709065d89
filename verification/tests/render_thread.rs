use tauri_femtovg::render_loop::{RenderAction, RenderLoopState};
use tauri_femtovg::render_msg::RenderMsg;
use tauri_femtovg::surface_wait::{
    SurfaceError, SurfacePoll, SurfacePollAction, SURFACE_POLL_LIMIT,
};

#[test]
fn new_state_holds_surface() {
    let s = RenderLoopState::new(640, 480, false);
    assert_eq!(
        s,
        RenderLoopState { width: 640, height: 480, surface_present: true, recreates_surface: false }
    );
}

#[test]
fn resize_configures_and_resizes_canvas() {
    let mut s = RenderLoopState::new(640, 480, false);
    let a = s.step(RenderMsg::Resize { width: 800, height: 600 });
    assert_eq!(
        a,
        vec![
            RenderAction::ConfigureSurface { width: 800, height: 600 },
            RenderAction::ResizeCanvas { width: 800, height: 600 }
        ]
    );
    assert_eq!((s.width, s.height), (800, 600));
}

#[test]
fn paint_draws_with_surface() {
    let mut s = RenderLoopState::new(640, 480, false);
    assert_eq!(s.step(RenderMsg::Paint), vec![RenderAction::DrawFrame]);
    assert_eq!(s, RenderLoopState::new(640, 480, false));
}

#[test]
fn desktop_ignores_suspend_and_resume() {
    let mut s = RenderLoopState::new(640, 480, false);
    assert_eq!(s.step(RenderMsg::Suspend), Vec::<RenderAction>::new());
    assert!(s.surface_present);
    assert_eq!(s.step(RenderMsg::Resume), Vec::<RenderAction>::new());
    assert_eq!(s.step(RenderMsg::Paint), vec![RenderAction::DrawFrame]);
}

#[test]
fn mobile_suspend_resume_round_trip() {
    let mut s = RenderLoopState::new(1080, 2400, true);
    assert_eq!(s.step(RenderMsg::Suspend), vec![RenderAction::DropSurface]);
    assert!(!s.surface_present);
    assert_eq!(s.step(RenderMsg::Paint), Vec::<RenderAction>::new());
    assert_eq!(
        s.step(RenderMsg::Resize { width: 2400, height: 1080 }),
        vec![RenderAction::ResizeCanvas { width: 2400, height: 1080 }]
    );
    assert_eq!(
        s.step(RenderMsg::Resume),
        vec![RenderAction::RecreateSurface { width: 2400, height: 1080 }]
    );
    s.surface_recreated(true);
    assert!(s.surface_present);
    assert_eq!(s.step(RenderMsg::Resume), Vec::<RenderAction>::new());
    assert_eq!(s.step(RenderMsg::Paint), vec![RenderAction::DrawFrame]);
}

#[test]
fn failed_recreation_leaves_no_surface() {
    let mut s = RenderLoopState::new(100, 100, true);
    s.step(RenderMsg::Suspend);
    s.step(RenderMsg::Resume);
    s.surface_recreated(false);
    assert!(!s.surface_present);
    assert_eq!(
        s.step(RenderMsg::Resume),
        vec![RenderAction::RecreateSurface { width: 100, height: 100 }]
    );
}

#[test]
fn exit_stops() {
    let mut s = RenderLoopState::new(10, 20, true);
    assert_eq!(s.step(RenderMsg::Exit), vec![RenderAction::Stop]);
    assert_eq!(s, RenderLoopState::new(10, 20, true));
}

#[test]
fn surface_found_at_once() {
    let mut p = SurfacePoll::new();
    assert_eq!(p.record_attempt(true), SurfacePollAction::UseSurface);
    assert_eq!(p.attempts(), 1);
}

#[test]
fn surface_poll_gives_up_after_limit() {
    let mut p = SurfacePoll::new();
    let mut retries: u32 = 0;
    loop {
        match p.record_attempt(false) {
            SurfacePollAction::SleepThenRetry => retries += 1,
            SurfacePollAction::SleepThenGiveUp => break,
            SurfacePollAction::UseSurface => panic!("no surface was found"),
        }
    }
    assert_eq!(p.attempts(), SURFACE_POLL_LIMIT);
    assert_eq!(p.attempts(), 50);
    assert_eq!(retries, 49);
}

#[test]
fn surface_found_on_last_attempt() {
    let mut p = SurfacePoll::new();
    for _ in 0..49 {
        assert_eq!(p.record_attempt(false), SurfacePollAction::SleepThenRetry);
    }
    assert_eq!(p.record_attempt(true), SurfacePollAction::UseSurface);
}

#[test]
fn surface_error_messages() {
    assert_eq!(SurfaceError::TimedOut.message(), "Timed out waiting for Android Surface");
    assert_eq!(
        SurfaceError::NoNativeWindow.message(),
        "Failed to create native window from surface"
    );
}
