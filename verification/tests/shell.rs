//! Tests of the application shell's state machine: initialization,
//! readiness, event forwarding and shutdown.

use gpu_frame::shell::{App, Phase, ShellAction, ShellEvent};

#[test]
fn resume_starts_initialization_once() {
    let mut app = App::new();
    assert_eq!(app.phase, Phase::Uninitialized);
    assert_eq!(app.on_resumed(), ShellAction::StartInit);
    assert_eq!(app.phase, Phase::Initializing);
    // A second resume while initializing changes nothing.
    assert_eq!(app.on_resumed(), ShellAction::Ignore);
    assert_eq!(app.phase, Phase::Initializing);
}

#[test]
fn events_before_readiness_are_dropped() {
    let mut app = App::new();
    app.on_resumed();
    assert_eq!(app.on_window_event(ShellEvent::RedrawRequested), ShellAction::Ignore);
    assert_eq!(app.on_window_event(ShellEvent::Resized(800, 600)), ShellAction::Ignore);
    assert_eq!(app.on_window_event(ShellEvent::EscapePressed), ShellAction::Ignore);
    assert_eq!(app.phase, Phase::Initializing);
}

#[test]
fn renderer_arrival_completes_initialization() {
    let mut app = App::new();
    app.on_resumed();
    assert!(!app.is_ready());
    assert_eq!(app.on_window_event(ShellEvent::RendererReady), ShellAction::Ignore);
    assert!(app.is_ready());
}

fn ready_app() -> App {
    let mut app = App::new();
    app.on_resumed();
    app.on_window_event(ShellEvent::RendererReady);
    app
}

#[test]
fn ready_shell_forwards_resize_and_redraw() {
    let mut app = ready_app();
    assert_eq!(app.on_window_event(ShellEvent::Resized(1920, 1080)), ShellAction::ResizeRenderer(1920, 1080));
    assert_eq!(app.last_width, 1920);
    assert_eq!(app.last_height, 1080);
    assert_eq!(app.on_window_event(ShellEvent::RedrawRequested), ShellAction::RenderFrame);
    assert_eq!(app.phase, Phase::Ready);
}

#[test]
fn gui_consumed_and_other_input_are_inert() {
    let mut app = ready_app();
    assert_eq!(app.on_window_event(ShellEvent::GuiConsumed), ShellAction::Ignore);
    assert_eq!(app.on_window_event(ShellEvent::OtherInput), ShellAction::Ignore);
    assert_eq!(app.phase, Phase::Ready);
}

#[test]
fn escape_and_close_request_exit() {
    let mut app = ready_app();
    assert_eq!(app.on_window_event(ShellEvent::EscapePressed), ShellAction::Exit);
    assert_eq!(app.phase, Phase::Closing);

    let mut app = ready_app();
    assert_eq!(app.on_window_event(ShellEvent::CloseRequested), ShellAction::Exit);
    assert_eq!(app.phase, Phase::Closing);
}
