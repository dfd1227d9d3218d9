use rustle::lyrics::{
    get_cache_path, is_lyrics_cached, join_lines, lines_from_timed_texts, lyrics_cache_files,
    preload_target, LyricsOpen, LyricsSession, TimedLine,
};

#[test]
fn timeline_with_translations_and_end_times() {
    let pairs = vec![
        (1000u64, " first ".to_string()),
        (1000u64, "第一".to_string()),
        (1000u64, "ignored".to_string()),
        (4000u64, "second\t".to_string()),
    ];
    let lines = lines_from_timed_texts(&pairs);
    assert_eq!(lines.len(), 2);
    assert_eq!(lines[0].text, "first");
    assert_eq!(lines[0].translated, "第一");
    assert_eq!(lines[0].start_time, 1000);
    assert_eq!(lines[0].end_time, 4000);
    assert_eq!(lines[1].text, "second");
    assert_eq!(lines[1].translated, "");
    assert_eq!(lines[1].end_time, 9000);
}

#[test]
fn timeline_first_line_at_zero() {
    let pairs = vec![(0u64, "a".to_string()), (0u64, "b".to_string())];
    let lines = lines_from_timed_texts(&pairs);
    assert_eq!(lines.len(), 1);
    assert_eq!(lines[0].translated, "b");
    assert_eq!(lines[0].end_time, 5000);
    assert!(lines_from_timed_texts(&Vec::new()).is_empty());
}

#[test]
fn cache_names_and_lookup() {
    assert_eq!(get_cache_path(1234, ".yrc"), "1234.yrc");
    let files = vec!["99.tlrc".to_string(), "99.lrc".to_string()];
    assert!(is_lyrics_cached(99, &files));
    assert!(!is_lyrics_cached(98, &files));
    assert!(!is_lyrics_cached(99, &vec!["99.tlrc".to_string()]));
    assert_eq!(preload_target(-99, &files), None);
    assert_eq!(preload_target(-98, &files), Some(98));
    assert_eq!(preload_target(5, &files), None);
}

#[test]
fn joining_and_cache_files() {
    assert_eq!(join_lines(&Vec::new()), None);
    assert_eq!(
        join_lines(&vec!["a".to_string(), "b".to_string()]).as_deref(),
        Some("a\nb")
    );
    let f = lyrics_cache_files(7, "main", Some("trans"), true);
    assert_eq!(f, vec![
        ("7.yrc".to_string(), "main".to_string()),
        ("7.tlrc".to_string(), "trans".to_string())
    ]);
    let f = lyrics_cache_files(7, "main", Some(""), false);
    assert_eq!(f, vec![("7.lrc".to_string(), "main".to_string())]);
}

fn line(t: u64) -> TimedLine {
    TimedLine { start_time: t, end_time: t + 1, text: "x".to_string(), translated: String::new() }
}

#[test]
fn loading_takes_only_the_requested_song() {
    let mut s = LyricsSession::new();
    assert_eq!(s.open_page(None), LyricsOpen::NoSong);
    assert_eq!(s.open_page(Some(-5)), LyricsOpen::Load(-5));
    s.start_loading(-5);
    assert_eq!(s.open_page(Some(-5)), LyricsOpen::RefreshBackground(-5));
    assert!(!s.preload(-5));
    assert!(!s.lyrics_loaded(-6, vec![line(1)]));
    assert!(s.lines.is_empty());
    assert!(s.is_loading);
    assert!(s.lyrics_loaded(-5, vec![line(1), line(2)]));
    assert_eq!(s.lines.len(), 2);
    assert!(!s.is_loading);
    assert!(!s.load_failed(-6, "e".to_string()));
    assert_eq!(s.lines.len(), 2);
    assert!(s.preload(-7));
    assert!(s.load_failed(-7, "net".to_string()));
    assert!(s.lines.is_empty());
    assert_eq!(s.load_error.as_deref(), Some("net"));
    s.fetch_unavailable();
    assert!(!s.is_loading);
}

#[test]
fn only_the_last_line_needs_room_for_its_display_time() {
    let pairs = vec![(u64::MAX, "a".to_string()), (10, "b".to_string())];
    let lines = lines_from_timed_texts(&pairs);
    assert_eq!(lines.len(), 2);
    assert_eq!(lines[0].end_time, 10);
    assert_eq!(lines[1].end_time, 5010);
}
