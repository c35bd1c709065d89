use tauri_femtovg::alpha_mode::{choose_alpha_mode, offers_alpha_mode, AlphaMode};
use tauri_femtovg::greeting::greet;
use tauri_femtovg::gtk_loop::{gtk_loop_action, GtkLoopAction};
use tauri_femtovg::plugin::{ping, PingRequest, PingResponse};
use tauri_femtovg::render_msg::RenderMsg;
use tauri_femtovg::run_events::{handle_run, messages_for, nonzero_dimension, RunEventKind};

#[test]
fn greet_names_the_caller() {
    assert_eq!(greet("Tauri"), "Hello, Tauri! You've been greeted from Rust!");
    assert_eq!(greet(""), "Hello, ! You've been greeted from Rust!");
}

#[test]
fn nonzero_dimension_replaces_zero_only() {
    assert_eq!(nonzero_dimension(0), 1);
    assert_eq!(nonzero_dimension(1), 1);
    assert_eq!(nonzero_dimension(800), 800);
    assert_eq!(nonzero_dimension(u32::MAX), u32::MAX);
}

#[test]
fn resize_event_sends_clamped_size() {
    assert_eq!(
        messages_for(&RunEventKind::WindowResized { width: 0, height: 600 }),
        vec![RenderMsg::Resize { width: 1, height: 600 }]
    );
    assert_eq!(
        messages_for(&RunEventKind::WindowResized { width: 1024, height: 0 }),
        vec![RenderMsg::Resize { width: 1024, height: 1 }]
    );
}

#[test]
fn focus_events() {
    assert_eq!(
        messages_for(&RunEventKind::WindowFocused(true)),
        vec![RenderMsg::Resume, RenderMsg::Paint]
    );
    assert_eq!(messages_for(&RunEventKind::WindowFocused(false)), vec![RenderMsg::Suspend]);
}

#[test]
fn lifecycle_events() {
    assert_eq!(messages_for(&RunEventKind::Resumed), vec![RenderMsg::Resume, RenderMsg::Paint]);
    assert_eq!(messages_for(&RunEventKind::MainEventsCleared), vec![RenderMsg::Paint]);
    assert_eq!(messages_for(&RunEventKind::ExitRequested), vec![RenderMsg::Exit]);
    assert_eq!(messages_for(&RunEventKind::Exit), vec![RenderMsg::Exit]);
    assert_eq!(messages_for(&RunEventKind::Other), Vec::<RenderMsg>::new());
}

#[test]
fn nothing_is_sent_without_render_state() {
    assert_eq!(handle_run(&RunEventKind::Resumed, false), Vec::<RenderMsg>::new());
    assert_eq!(handle_run(&RunEventKind::Exit, false), Vec::<RenderMsg>::new());
    assert_eq!(handle_run(&RunEventKind::Exit, true), vec![RenderMsg::Exit]);
}

#[test]
fn focus_gain_equals_resume_on_values() {
    assert_eq!(
        handle_run(&RunEventKind::WindowFocused(true), true),
        handle_run(&RunEventKind::Resumed, true)
    );
}

#[test]
fn gtk_actions() {
    assert_eq!(gtk_loop_action(RenderMsg::Paint), GtkLoopAction::QueueRender);
    assert_eq!(gtk_loop_action(RenderMsg::Exit), GtkLoopAction::Stop);
    assert_eq!(gtk_loop_action(RenderMsg::Resize { width: 3, height: 4 }), GtkLoopAction::Ignore);
    assert_eq!(gtk_loop_action(RenderMsg::Suspend), GtkLoopAction::Ignore);
    assert_eq!(gtk_loop_action(RenderMsg::Resume), GtkLoopAction::Ignore);
}

#[test]
fn alpha_mode_prefers_premultiplied() {
    let modes = vec![AlphaMode::Opaque, AlphaMode::PostMultiplied, AlphaMode::PreMultiplied];
    assert_eq!(choose_alpha_mode(&modes), AlphaMode::PreMultiplied);
}

#[test]
fn alpha_mode_then_postmultiplied() {
    let modes = vec![AlphaMode::Opaque, AlphaMode::PostMultiplied];
    assert_eq!(choose_alpha_mode(&modes), AlphaMode::PostMultiplied);
}

#[test]
fn alpha_mode_else_first() {
    let modes = vec![AlphaMode::Inherit, AlphaMode::Opaque];
    assert_eq!(choose_alpha_mode(&modes), AlphaMode::Inherit);
    assert_eq!(choose_alpha_mode(&vec![AlphaMode::Auto]), AlphaMode::Auto);
}

#[test]
fn offers_alpha_mode_checks_membership() {
    let modes = vec![AlphaMode::Opaque, AlphaMode::Auto];
    assert!(offers_alpha_mode(&modes, AlphaMode::Auto));
    assert!(!offers_alpha_mode(&modes, AlphaMode::PreMultiplied));
    assert!(!offers_alpha_mode(&Vec::new(), AlphaMode::Opaque));
}

#[test]
fn ping_echoes_value() {
    let r = ping(PingRequest { value: Some("hello".to_string()) });
    assert_eq!(r, PingResponse { value: Some("hello".to_string()) });
    assert_eq!(ping(PingRequest { value: None }), PingResponse { value: None });
}
