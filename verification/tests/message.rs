use rustle::message::{describe_message, MessageDetail, MessageSummary};

fn m(name: &str, detail: MessageDetail) -> MessageSummary {
    MessageSummary { name: name.to_string(), detail }
}

#[test]
fn message_log_texts() {
    assert_eq!(describe_message(&m("PlaybackTick", MessageDetail::Bare)), "PlaybackTick");
    assert_eq!(
        describe_message(&m("SongsLoaded", MessageDetail::Count(12, "songs".to_string()))),
        "SongsLoaded(12 songs)"
    );
    assert_eq!(describe_message(&m("PlayNcmSong", MessageDetail::Id(42))), "PlayNcmSong(id=42)");
    assert_eq!(
        describe_message(&m("LyricsLoaded", MessageDetail::IdCount(-7, 30, "lines".to_string()))),
        "LyricsLoaded(id=-7, 30 lines)"
    );
    assert_eq!(describe_message(&m("OpenPlaylist", MessageDetail::Number(i64::MIN))),
        format!("OpenPlaylist({})", i64::MIN));
    assert_eq!(describe_message(&m("UpdateDarkMode", MessageDetail::Flag(true))), "UpdateDarkMode(true)");
    assert_eq!(
        describe_message(&m("UpdateAppLanguage", MessageDetail::Text("zh".to_string()))),
        "UpdateAppLanguage(zh)"
    );
}

#[test]
fn proxy_password_never_logged() {
    let text = describe_message(&m(
        "UpdateProxyPassword",
        MessageDetail::Private("hunter2".to_string()),
    ));
    assert_eq!(text, "UpdateProxyPassword");
    assert!(!text.contains("hunter2"));
}
