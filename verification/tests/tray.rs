use rustle::tray::{tray_action, TrayAction, TrayCommand};

#[test]
fn tray_commands_map_to_player_actions() {
    assert_eq!(tray_action::<u8>(TrayCommand::PlayPause, None), TrayAction::TogglePlayback);
    assert_eq!(tray_action::<u8>(TrayCommand::NextTrack, Some(3)), TrayAction::NextSong);
    assert_eq!(tray_action::<u8>(TrayCommand::PrevTrack, Some(3)), TrayAction::PrevSong);
    assert_eq!(tray_action::<u8>(TrayCommand::Quit, None), TrayAction::ConfirmExit);
    assert_eq!(tray_action(TrayCommand::SetPlayMode(2u8), None), TrayAction::SetPlayMode(2u8));
    assert_eq!(
        tray_action::<u8>(TrayCommand::ToggleWindow, None),
        TrayAction::ToggleWindow
    );
    assert_eq!(
        tray_action::<u8>(TrayCommand::ShowOrFocusWindow, None),
        TrayAction::ShowOrFocusWindow
    );
}

#[test]
fn tray_favorite_only_for_service_songs() {
    assert_eq!(
        tray_action::<u8>(TrayCommand::ToggleFavorite, Some(-1234)),
        TrayAction::ToggleFavorite(1234)
    );
    assert_eq!(tray_action::<u8>(TrayCommand::ToggleFavorite, Some(5)), TrayAction::Nothing);
    assert_eq!(tray_action::<u8>(TrayCommand::ToggleFavorite, None), TrayAction::Nothing);
}
