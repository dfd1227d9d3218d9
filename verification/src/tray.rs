//! The system tray menu: each command of the tray becomes one action of the
//! player. The tray runs beside the window; the player carries the action
//! out as if the user had asked for it in the window.

use vstd::prelude::*;

verus! {

/// A command from the tray menu; `M` is the player's play mode.
#[derive(Debug, Clone, Copy, PartialEq, Eq)]
pub enum TrayCommand<M> {
    ShowOrFocusWindow,
    ToggleWindow,
    PlayPause,
    NextTrack,
    PrevTrack,
    SetPlayMode(M),
    ToggleFavorite,
    Quit,
}

/// What the player does for a tray command.
#[derive(Debug, Clone, Copy, PartialEq, Eq)]
pub enum TrayAction<M> {
    ShowOrFocusWindow,
    ToggleWindow,
    TogglePlayback,
    NextSong,
    PrevSong,
    /// The play mode changes (and is saved; the shuffle order is made anew).
    SetPlayMode(M),
    /// The like of a song of the service, by its service id, flips.
    ToggleFavorite(u64),
    /// The exit is confirmed.
    ConfirmExit,
    /// Nothing happens.
    Nothing,
}

/// The action of a tray command, given the queue id of the current song:
/// only a song of the service (negative queue id) can be liked.
pub open spec fn tray_action_of<M>(cmd: TrayCommand<M>, current_song: Option<i64>) -> TrayAction<M> {
    match cmd {
        TrayCommand::ShowOrFocusWindow => TrayAction::ShowOrFocusWindow,
        TrayCommand::ToggleWindow => TrayAction::ToggleWindow,
        TrayCommand::PlayPause => TrayAction::TogglePlayback,
        TrayCommand::NextTrack => TrayAction::NextSong,
        TrayCommand::PrevTrack => TrayAction::PrevSong,
        TrayCommand::SetPlayMode(m) => TrayAction::SetPlayMode(m),
        TrayCommand::ToggleFavorite => match current_song {
            Some(id) => if id < 0 {
                TrayAction::ToggleFavorite((-id) as u64)
            } else {
                TrayAction::Nothing
            },
            None => TrayAction::Nothing,
        },
        TrayCommand::Quit => TrayAction::ConfirmExit,
    }
}

/// The action of a tray command, given the queue id of the current song.
pub fn tray_action<M>(cmd: TrayCommand<M>, current_song: Option<i64>) -> (r: TrayAction<M>)
    requires
        current_song != Some(i64::MIN),
    ensures
        r == tray_action_of(cmd, current_song),
{
    match cmd {
        TrayCommand::ShowOrFocusWindow => TrayAction::ShowOrFocusWindow,
        TrayCommand::ToggleWindow => TrayAction::ToggleWindow,
        TrayCommand::PlayPause => TrayAction::TogglePlayback,
        TrayCommand::NextTrack => TrayAction::NextSong,
        TrayCommand::PrevTrack => TrayAction::PrevSong,
        TrayCommand::SetPlayMode(m) => TrayAction::SetPlayMode(m),
        TrayCommand::ToggleFavorite => match current_song {
            Some(id) => if id < 0 {
                TrayAction::ToggleFavorite((-id) as u64)
            } else {
                TrayAction::Nothing
            },
            None => TrayAction::Nothing,
        },
        TrayCommand::Quit => TrayAction::ConfirmExit,
    }
}

} // verus!
