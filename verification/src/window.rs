//! Window visibility: the main window is hidden to the tray and shown again
//! through a two-step protocol (an operation is started, then completed),
//! and the exit dialog decides what closing the window means.
//!
//! The decisions are a state machine: each event moves the state and names
//! the one window command that the shell has to carry out.

use vstd::prelude::*;

verus! {

/// The mode the window system is asked to put the window in.
#[derive(Debug, Clone, Copy, PartialEq, Eq, Structural)]
pub enum WindowMode {
    Windowed,
    Fullscreen,
    Hidden,
}

/// Where the window stands in the hide/show protocol.
#[derive(Debug, Clone, Copy, PartialEq, Eq, Structural)]
pub enum WindowVisibilityState {
    Visible,
    Hiding,
    Hidden,
    Showing,
}

/// What closing the main window does.
#[derive(Debug, Clone, Copy, PartialEq, Eq, Structural)]
pub enum CloseBehavior {
    Ask,
    Exit,
    MinimizeToTray,
}

/// The state a finished window operation leaves: a hidden window is
/// `Hidden`, a window in any other mode is `Visible`.
pub fn finalize_window_visibility(window_mode: WindowMode) -> (r: WindowVisibilityState)
    ensures
        r == visibility_after(window_mode),
{
    match window_mode {
        WindowMode::Hidden => WindowVisibilityState::Hidden,
        _ => WindowVisibilityState::Visible,
    }
}

pub open spec fn visibility_after(mode: WindowMode) -> WindowVisibilityState {
    if mode == WindowMode::Hidden {
        WindowVisibilityState::Hidden
    } else {
        WindowVisibilityState::Visible
    }
}

/// The window command that the shell carries out after an event.
#[derive(Debug, Clone, Copy, PartialEq, Eq, Structural)]
pub enum WindowCommand {
    /// Nothing to do.
    Nothing,
    /// Put the window in a mode; completion is reported by the window
    /// system itself (a shown-window event).
    SetMode(WindowMode),
    /// Put the window in a mode, then report the operation complete.
    SetModeThenComplete(WindowMode),
    /// Give the window the keyboard focus.
    Focus,
    /// Leave the application.
    Exit,
    /// Report the pending window operation complete.
    Complete,
}

/// Events that the window logic reacts to.
#[derive(Debug, Clone, Copy, PartialEq, Eq, Structural)]
pub enum WindowEvent {
    RequestClose,
    ConfirmExit,
    MinimizeToTray,
    CancelExit,
    ExitDialogRememberChanged(bool),
    ToggleWindow,
    ShowWindow,
    FocusWindow,
    ShowOrFocusWindow,
    WindowShown,
    WindowFocused,
    WindowUnfocused,
    WindowOperationComplete,
    SidebarResizeStart,
    SidebarResizeEnd,
}

/// The window part of the application state.
#[derive(Debug, Clone, Copy, PartialEq, Eq, Structural)]
pub struct WindowState {
    /// The mode the window comes back in when it is shown.
    pub restore_mode: WindowMode,
    pub visibility: WindowVisibilityState,
    pub focused: bool,
    /// A hide or show operation was started and is not complete yet.
    pub operation_pending: bool,
}

/// The window, the close setting and the exit dialog together.
#[derive(Debug, Clone, Copy, PartialEq, Eq, Structural)]
pub struct WindowController {
    pub window: WindowState,
    pub close_behavior: CloseBehavior,
    pub exit_dialog_open: bool,
    pub exit_remember: bool,
    pub sidebar_dragging: bool,
}

/// What one event produced: the command, and whether the close setting
/// changed and has to be saved.
#[derive(Debug, Clone, Copy, PartialEq, Eq, Structural)]
pub struct WindowOutcome {
    pub command: WindowCommand,
    pub save_settings: bool,
}

/// Whether a hide operation may start in this state.
pub open spec fn can_begin_hide(w: WindowState) -> bool {
    !w.operation_pending && w.visibility != WindowVisibilityState::Hidden
        && w.visibility != WindowVisibilityState::Hiding
}

/// Whether a show operation may start in this state.
pub open spec fn can_begin_show(w: WindowState) -> bool {
    !w.operation_pending && w.visibility != WindowVisibilityState::Visible
        && w.visibility != WindowVisibilityState::Showing
}

/// The state after asking to hide the window.
pub open spec fn hidden_begun(w: WindowState) -> WindowState {
    if can_begin_hide(w) {
        WindowState { visibility: WindowVisibilityState::Hiding, operation_pending: true, ..w }
    } else {
        w
    }
}

/// The command that asking to hide the window gives.
pub open spec fn hide_command(w: WindowState) -> WindowCommand {
    if can_begin_hide(w) {
        WindowCommand::SetModeThenComplete(WindowMode::Hidden)
    } else {
        WindowCommand::Nothing
    }
}

/// The state after asking to show the window.
pub open spec fn shown_begun(w: WindowState) -> WindowState {
    if can_begin_show(w) {
        WindowState { visibility: WindowVisibilityState::Showing, operation_pending: true, ..w }
    } else {
        w
    }
}

/// The command that asking to show the window gives: on Wayland the
/// window system reports the window shown, elsewhere completion follows at once.
pub open spec fn show_command(w: WindowState, wayland: bool) -> WindowCommand {
    if !can_begin_show(w) {
        WindowCommand::Nothing
    } else if wayland {
        WindowCommand::SetMode(w.restore_mode)
    } else {
        WindowCommand::SetModeThenComplete(w.restore_mode)
    }
}

/// The mode the window is in, as far as visibility goes.
pub open spec fn visible_mode(w: WindowState) -> WindowMode {
    if w.visibility == WindowVisibilityState::Visible || w.visibility
        == WindowVisibilityState::Showing {
        w.restore_mode
    } else {
        WindowMode::Hidden
    }
}

/// The state after the pending operation completed.
pub open spec fn completed(w: WindowState) -> WindowState {
    WindowState {
        operation_pending: false,
        visibility: visibility_after(visible_mode(w)),
        ..w
    }
}

impl WindowState {
    /// A visible, focused, windowed window with nothing pending.
    pub fn new() -> (r: Self)
        ensures
            r.restore_mode == WindowMode::Windowed,
            r.visibility == WindowVisibilityState::Visible,
            r.focused,
            !r.operation_pending,
    {
        WindowState {
            restore_mode: WindowMode::Windowed,
            visibility: WindowVisibilityState::Visible,
            focused: true,
            operation_pending: false,
        }
    }

    pub fn is_window_visible(&self) -> (r: bool)
        ensures
            r == (self.visibility == WindowVisibilityState::Visible),
    {
        self.visibility == WindowVisibilityState::Visible
    }

    /// Anything but fully visible counts as hidden.
    pub fn is_window_hidden(&self) -> (r: bool)
        ensures
            r == (self.visibility != WindowVisibilityState::Visible),
    {
        !self.is_window_visible()
    }

    pub fn is_window_visible_or_showing(&self) -> (r: bool)
        ensures
            r == (self.visibility == WindowVisibilityState::Visible || self.visibility
                == WindowVisibilityState::Showing),
    {
        match self.visibility {
            WindowVisibilityState::Visible | WindowVisibilityState::Showing => true,
            _ => false,
        }
    }

    pub fn current_visible_mode(&self) -> (r: WindowMode)
        ensures
            r == visible_mode(*self),
    {
        if self.is_window_visible_or_showing() {
            self.restore_mode
        } else {
            WindowMode::Hidden
        }
    }

    /// Starts hiding the window, unless an operation is pending or the
    /// window is already hidden or hiding.
    pub fn begin_hide_window(&mut self) -> (r: WindowCommand)
        ensures
            *final(self) == hidden_begun(*old(self)),
            r == hide_command(*old(self)),
    {
        if self.operation_pending || self.visibility == WindowVisibilityState::Hidden
            || self.visibility == WindowVisibilityState::Hiding {
            return WindowCommand::Nothing;
        }
        self.visibility = WindowVisibilityState::Hiding;
        self.operation_pending = true;
        WindowCommand::SetModeThenComplete(WindowMode::Hidden)
    }

    /// Starts showing the window in its restore mode, unless an operation is
    /// pending or the window is already visible or showing.
    pub fn begin_show_window(&mut self, wayland: bool) -> (r: WindowCommand)
        ensures
            *final(self) == shown_begun(*old(self)),
            r == show_command(*old(self), wayland),
    {
        if self.operation_pending || self.visibility == WindowVisibilityState::Visible
            || self.visibility == WindowVisibilityState::Showing {
            return WindowCommand::Nothing;
        }
        self.visibility = WindowVisibilityState::Showing;
        self.operation_pending = true;
        if wayland {
            WindowCommand::SetMode(self.restore_mode)
        } else {
            WindowCommand::SetModeThenComplete(self.restore_mode)
        }
    }

    /// Shows a hidden window, hides a visible one.
    pub fn toggle_window(&mut self, wayland: bool) -> (r: WindowCommand)
        ensures
            old(self).visibility != WindowVisibilityState::Visible ==> *final(self) == shown_begun(
                *old(self),
            ) && r == show_command(*old(self), wayland),
            old(self).visibility == WindowVisibilityState::Visible ==> *final(self) == hidden_begun(
                *old(self),
            ) && r == hide_command(*old(self)),
    {
        if self.is_window_hidden() {
            self.begin_show_window(wayland)
        } else {
            self.begin_hide_window()
        }
    }

    /// Shows a hidden window; focuses a visible one that lacks the focus.
    pub fn begin_show_or_focus_window(&mut self, wayland: bool) -> (r: WindowCommand)
        ensures
            old(self).visibility != WindowVisibilityState::Visible ==> *final(self) == shown_begun(
                *old(self),
            ) && r == show_command(*old(self), wayland),
            old(self).visibility == WindowVisibilityState::Visible ==> *final(self) == *old(self)
                && r == (if old(self).focused {
                WindowCommand::Nothing
            } else {
                WindowCommand::Focus
            }),
    {
        if self.is_window_hidden() {
            self.begin_show_window(wayland)
        } else if self.focused {
            WindowCommand::Nothing
        } else {
            WindowCommand::Focus
        }
    }

    /// The window system reported the window shown: on Wayland this
    /// completes a pending show.
    pub fn on_window_shown(&self, wayland: bool) -> (r: WindowCommand)
        ensures
            r == (if self.visibility == WindowVisibilityState::Showing && self.operation_pending
                && wayland {
                WindowCommand::Complete
            } else {
                WindowCommand::Nothing
            }),
    {
        if self.visibility == WindowVisibilityState::Showing && self.operation_pending && wayland {
            WindowCommand::Complete
        } else {
            WindowCommand::Nothing
        }
    }

    /// The pending operation completed: the visibility settles on what the
    /// window's mode says.
    pub fn complete_operation(&mut self)
        ensures
            *final(self) == completed(*old(self)),
    {
        let mode = self.current_visible_mode();
        self.operation_pending = false;
        self.visibility = finalize_window_visibility(mode);
    }
}

/// The controller after one event, and what the event produced.
pub open spec fn window_step(c: WindowController, e: WindowEvent, wayland: bool) -> (
    WindowController,
    WindowOutcome,
) {
    let none = WindowOutcome { command: WindowCommand::Nothing, save_settings: false };
    match e {
        WindowEvent::RequestClose => match c.close_behavior {
            CloseBehavior::Ask => (WindowController { exit_dialog_open: true, ..c }, none),
            CloseBehavior::Exit => (c, WindowOutcome { command: WindowCommand::Exit, ..none }),
            CloseBehavior::MinimizeToTray => (
                WindowController { window: hidden_begun(c.window), ..c },
                WindowOutcome { command: hide_command(c.window), ..none },
            ),
        },
        WindowEvent::ConfirmExit => (
            if c.exit_remember {
                WindowController { close_behavior: CloseBehavior::Exit, ..c }
            } else {
                c
            },
            WindowOutcome { command: WindowCommand::Exit, save_settings: c.exit_remember },
        ),
        WindowEvent::MinimizeToTray => (
            WindowController {
                close_behavior: if c.exit_remember {
                    CloseBehavior::MinimizeToTray
                } else {
                    c.close_behavior
                },
                exit_dialog_open: false,
                window: hidden_begun(c.window),
                ..c
            },
            WindowOutcome { command: hide_command(c.window), save_settings: c.exit_remember },
        ),
        WindowEvent::CancelExit => (WindowController { exit_dialog_open: false, ..c }, none),
        WindowEvent::ExitDialogRememberChanged(b) => (
            WindowController { exit_remember: b, ..c },
            none,
        ),
        WindowEvent::ToggleWindow => if c.window.visibility != WindowVisibilityState::Visible {
            (
                WindowController { window: shown_begun(c.window), ..c },
                WindowOutcome { command: show_command(c.window, wayland), ..none },
            )
        } else {
            (
                WindowController { window: hidden_begun(c.window), ..c },
                WindowOutcome { command: hide_command(c.window), ..none },
            )
        },
        WindowEvent::ShowWindow => (
            WindowController { window: shown_begun(c.window), ..c },
            WindowOutcome { command: show_command(c.window, wayland), ..none },
        ),
        WindowEvent::FocusWindow => (c, WindowOutcome { command: WindowCommand::Focus, ..none }),
        WindowEvent::ShowOrFocusWindow => if c.window.visibility
            != WindowVisibilityState::Visible {
            (
                WindowController { window: shown_begun(c.window), ..c },
                WindowOutcome { command: show_command(c.window, wayland), ..none },
            )
        } else if c.window.focused {
            (c, none)
        } else {
            (c, WindowOutcome { command: WindowCommand::Focus, ..none })
        },
        WindowEvent::WindowShown => (
            c,
            if c.window.visibility == WindowVisibilityState::Showing && c.window.operation_pending
                && wayland {
                WindowOutcome { command: WindowCommand::Complete, ..none }
            } else {
                none
            },
        ),
        WindowEvent::WindowFocused => (
            WindowController { window: WindowState { focused: true, ..c.window }, ..c },
            none,
        ),
        WindowEvent::WindowUnfocused => (
            WindowController { window: WindowState { focused: false, ..c.window }, ..c },
            none,
        ),
        WindowEvent::WindowOperationComplete => (
            WindowController { window: completed(c.window), ..c },
            none,
        ),
        WindowEvent::SidebarResizeStart => (WindowController { sidebar_dragging: true, ..c }, none),
        WindowEvent::SidebarResizeEnd => (WindowController { sidebar_dragging: false, ..c }, none),
    }
}

impl WindowController {
    /// A visible window that asks what closing it means.
    pub fn new(close_behavior: CloseBehavior) -> (r: Self)
        ensures
            r.window.restore_mode == WindowMode::Windowed,
            r.window.visibility == WindowVisibilityState::Visible,
            r.window.focused,
            !r.window.operation_pending,
            r.close_behavior == close_behavior,
            !r.exit_dialog_open,
            !r.exit_remember,
            !r.sidebar_dragging,
    {
        WindowController {
            window: WindowState::new(),
            close_behavior,
            exit_dialog_open: false,
            exit_remember: false,
            sidebar_dragging: false,
        }
    }

    /// Handles one window event.
    pub fn handle_window(&mut self, event: WindowEvent, wayland: bool) -> (r: WindowOutcome)
        ensures
            (*final(self), r) == window_step(*old(self), event, wayland),
    {
        let none = WindowOutcome { command: WindowCommand::Nothing, save_settings: false };
        match event {
            WindowEvent::RequestClose => {
                match self.close_behavior {
                    CloseBehavior::Ask => {
                        self.exit_dialog_open = true;
                        none
                    },
                    CloseBehavior::Exit => WindowOutcome {
                        command: WindowCommand::Exit,
                        save_settings: false,
                    },
                    CloseBehavior::MinimizeToTray => {
                        let command = self.window.begin_hide_window();
                        WindowOutcome { command, save_settings: false }
                    },
                }
            },
            WindowEvent::ConfirmExit => {
                let save = self.exit_remember;
                if save {
                    self.close_behavior = CloseBehavior::Exit;
                }
                WindowOutcome { command: WindowCommand::Exit, save_settings: save }
            },
            WindowEvent::MinimizeToTray => {
                let save = self.exit_remember;
                if save {
                    self.close_behavior = CloseBehavior::MinimizeToTray;
                }
                self.exit_dialog_open = false;
                let command = self.window.begin_hide_window();
                WindowOutcome { command, save_settings: save }
            },
            WindowEvent::CancelExit => {
                self.exit_dialog_open = false;
                none
            },
            WindowEvent::ExitDialogRememberChanged(checked) => {
                self.exit_remember = checked;
                none
            },
            WindowEvent::ToggleWindow => {
                let command = self.window.toggle_window(wayland);
                WindowOutcome { command, save_settings: false }
            },
            WindowEvent::ShowWindow => {
                let command = self.window.begin_show_window(wayland);
                WindowOutcome { command, save_settings: false }
            },
            WindowEvent::FocusWindow => WindowOutcome {
                command: WindowCommand::Focus,
                save_settings: false,
            },
            WindowEvent::ShowOrFocusWindow => {
                let command = self.window.begin_show_or_focus_window(wayland);
                WindowOutcome { command, save_settings: false }
            },
            WindowEvent::WindowShown => {
                let command = self.window.on_window_shown(wayland);
                WindowOutcome { command, save_settings: false }
            },
            WindowEvent::WindowFocused => {
                self.window.focused = true;
                none
            },
            WindowEvent::WindowUnfocused => {
                self.window.focused = false;
                none
            },
            WindowEvent::WindowOperationComplete => {
                self.window.complete_operation();
                none
            },
            WindowEvent::SidebarResizeStart => {
                self.sidebar_dragging = true;
                none
            },
            WindowEvent::SidebarResizeEnd => {
                self.sidebar_dragging = false;
                none
            },
        }
    }
}

/// Whether the spectrum analysis runs: only on the audio engine page, while
/// the window is fully visible and focused, and not in power saving mode.
pub fn analysis_enabled(
    on_audio_engine_page: bool,
    window: &WindowState,
    power_saving_mode: bool,
) -> (r: bool)
    ensures
        r == (on_audio_engine_page && window.visibility == WindowVisibilityState::Visible
            && window.focused && !power_saving_mode),
{
    on_audio_engine_page && !window.is_window_hidden() && window.focused && !power_saving_mode
}


/// The fullscreen shortcut: flips the fullscreen flag and gives the mode the
/// window is put in.
pub fn toggle_fullscreen(is_fullscreen: bool) -> (r: (bool, WindowMode))
    ensures
        r.0 == !is_fullscreen,
        r.1 == (if r.0 {
            WindowMode::Fullscreen
        } else {
            WindowMode::Windowed
        }),
{
    let now = !is_fullscreen;
    (now, if now {
        WindowMode::Fullscreen
    } else {
        WindowMode::Windowed
    })
}

/// Hiding a window whose hide has been completed leaves it hidden, and
/// showing it again and completing leaves it visible in its restore mode.
pub proof fn lemma_hide_then_show_round_trip(w: WindowState)
    requires
        w.visibility == WindowVisibilityState::Visible,
        !w.operation_pending,
        w.restore_mode != WindowMode::Hidden,
    ensures
        completed(hidden_begun(w)).visibility == WindowVisibilityState::Hidden,
        !completed(hidden_begun(w)).operation_pending,
        completed(shown_begun(completed(hidden_begun(w)))) == w,
{
}

/// While an operation is pending no new hide or show starts: the state and
/// the command stay put.
pub proof fn lemma_pending_blocks_operations(w: WindowState, wayland: bool)
    requires
        w.operation_pending,
    ensures
        hidden_begun(w) == w,
        shown_begun(w) == w,
        hide_command(w) == WindowCommand::Nothing,
        show_command(w, wayland) == WindowCommand::Nothing,
{
}

/// A completed operation never leaves the window in a transitional state.
pub proof fn lemma_completion_settles(w: WindowState)
    ensures
        completed(w).visibility == WindowVisibilityState::Visible || completed(w).visibility
            == WindowVisibilityState::Hidden,
        !completed(w).operation_pending,
{
}

} // verus!
