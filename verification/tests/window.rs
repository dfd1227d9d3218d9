use rustle::window::{
    analysis_enabled, finalize_window_visibility, CloseBehavior, WindowCommand, WindowController,
    WindowEvent, WindowMode, WindowState, WindowVisibilityState,
};

#[test]
fn finalize_window_operation_visibility() {
    assert_eq!(
        finalize_window_visibility(WindowMode::Hidden),
        WindowVisibilityState::Hidden,
    );
    assert_eq!(
        finalize_window_visibility(WindowMode::Windowed),
        WindowVisibilityState::Visible,
    );
    assert_eq!(
        finalize_window_visibility(WindowMode::Fullscreen),
        WindowVisibilityState::Visible,
    );
}

#[test]
fn hide_then_show_round_trip_on_x11() {
    let mut w = WindowState::new();
    assert_eq!(w.begin_hide_window(), WindowCommand::SetModeThenComplete(WindowMode::Hidden));
    assert_eq!(w.visibility, WindowVisibilityState::Hiding);
    assert!(w.operation_pending);
    w.complete_operation();
    assert_eq!(w.visibility, WindowVisibilityState::Hidden);
    assert!(!w.operation_pending);
    assert_eq!(
        w.begin_show_window(false),
        WindowCommand::SetModeThenComplete(WindowMode::Windowed)
    );
    w.complete_operation();
    assert_eq!(w, WindowState::new());
}

#[test]
fn show_on_wayland_waits_for_shown_event() {
    let mut w = WindowState::new();
    w.begin_hide_window();
    w.complete_operation();
    w.restore_mode = WindowMode::Fullscreen;
    assert_eq!(w.begin_show_window(true), WindowCommand::SetMode(WindowMode::Fullscreen));
    assert_eq!(w.on_window_shown(true), WindowCommand::Complete);
    assert_eq!(w.on_window_shown(false), WindowCommand::Nothing);
    w.complete_operation();
    assert_eq!(w.visibility, WindowVisibilityState::Visible);
}

#[test]
fn pending_operation_blocks_new_ones() {
    let mut w = WindowState::new();
    w.begin_hide_window();
    let before = w;
    assert_eq!(w.begin_hide_window(), WindowCommand::Nothing);
    assert_eq!(w.begin_show_window(false), WindowCommand::Nothing);
    assert_eq!(w, before);
}

#[test]
fn show_or_focus_focuses_visible_window() {
    let mut w = WindowState::new();
    assert_eq!(w.begin_show_or_focus_window(false), WindowCommand::Nothing);
    w.focused = false;
    assert_eq!(w.begin_show_or_focus_window(false), WindowCommand::Focus);
    assert!(w.is_window_visible());
}

#[test]
fn close_asks_then_remembers_minimize() {
    let mut c = WindowController::new(CloseBehavior::Ask);
    let out = c.handle_window(WindowEvent::RequestClose, false);
    assert_eq!(out.command, WindowCommand::Nothing);
    assert!(c.exit_dialog_open);
    c.handle_window(WindowEvent::ExitDialogRememberChanged(true), false);
    let out = c.handle_window(WindowEvent::MinimizeToTray, false);
    assert_eq!(out.command, WindowCommand::SetModeThenComplete(WindowMode::Hidden));
    assert!(out.save_settings);
    assert_eq!(c.close_behavior, CloseBehavior::MinimizeToTray);
    assert!(!c.exit_dialog_open);
}

#[test]
fn close_exits_when_configured() {
    let mut c = WindowController::new(CloseBehavior::Exit);
    assert_eq!(c.handle_window(WindowEvent::RequestClose, false).command, WindowCommand::Exit);
    let mut c = WindowController::new(CloseBehavior::Ask);
    let out = c.handle_window(WindowEvent::ConfirmExit, false);
    assert_eq!(out.command, WindowCommand::Exit);
    assert!(!out.save_settings);
    assert_eq!(c.close_behavior, CloseBehavior::Ask);
}

#[test]
fn toggle_twice_with_completion() {
    let mut c = WindowController::new(CloseBehavior::Ask);
    c.handle_window(WindowEvent::ToggleWindow, false);
    c.handle_window(WindowEvent::WindowOperationComplete, false);
    assert_eq!(c.window.visibility, WindowVisibilityState::Hidden);
    c.handle_window(WindowEvent::ToggleWindow, false);
    c.handle_window(WindowEvent::WindowOperationComplete, false);
    assert_eq!(c.window.visibility, WindowVisibilityState::Visible);
}

#[test]
fn analysis_only_when_visible_focused_on_engine_page() {
    let w = WindowState::new();
    assert!(analysis_enabled(true, &w, false));
    assert!(!analysis_enabled(false, &w, false));
    assert!(!analysis_enabled(true, &w, true));
    let mut hidden = w;
    hidden.begin_hide_window();
    assert!(!analysis_enabled(true, &hidden, false));
}

#[test]
fn fullscreen_shortcut() {
    assert_eq!(rustle::window::toggle_fullscreen(false), (true, WindowMode::Fullscreen));
    assert_eq!(rustle::window::toggle_fullscreen(true), (false, WindowMode::Windowed));
}
