use rustle::queue::LibraryPlaylist;
use rustle::model::{SongCopyright, SongInfo};
use rustle::queue::{
    cover_plan, cover_stem, ncm_id_of, ncm_queue_id, queue_song_from_ncm, queue_song_for_url,
    try_play_song, CoverPlan, FailureStep, LibraryState, PlayResult, PlayStep, QueueSong,
};

fn song(id: i64, path: &str) -> QueueSong {
    QueueSong {
        id,
        file_path: path.to_string(),
        title: format!("t{}", id),
        artist: "a".to_string(),
        album: "b".to_string(),
        duration_secs: 100,
        cover_path: None,
    }
}

fn ncm(id: u64, pic: &str, duration: u64) -> SongInfo {
    SongInfo {
        id,
        name: "Song".to_string(),
        singer: "Singer".to_string(),
        album: "Album".to_string(),
        album_id: 9,
        pic_url: pic.to_string(),
        duration,
        song_url: String::new(),
        copyright: SongCopyright::Unknown,
    }
}

fn queue_of(ids: &[i64]) -> LibraryState {
    let mut q = LibraryState::new();
    q.queue = ids.iter().map(|&i| song(i, "/x.mp3")).collect();
    q
}

#[test]
fn online_song_becomes_negative_queue_entry() {
    let q = queue_song_from_ncm(&ncm(123, "http://p/1.jpg", 215_999));
    assert_eq!(q.id, -123);
    assert_eq!(q.duration_secs, 215);
    assert_eq!(q.file_path, "");
    assert_eq!(q.cover_path.as_deref(), Some("http://p/1.jpg"));
    let q = queue_song_from_ncm(&ncm(5, "", 999));
    assert_eq!(q.cover_path, None);
    assert_eq!(q.duration_secs, 0);
    assert_eq!(ncm_queue_id(42), -42);
    assert_eq!(ncm_id_of(-42), 42);
    let u = queue_song_for_url(&ncm(7, "", 3000), "/cache/7.mp3", Some("c.jpg".to_string()));
    assert_eq!(u.id, -7);
    assert_eq!(u.file_path, "/cache/7.mp3");
    assert_eq!(u.cover_path.as_deref(), Some("c.jpg"));
}

#[test]
fn remove_before_current_shifts_index() {
    let mut q = queue_of(&[1, 2, 3, 4]);
    q.queue_index = Some(2);
    assert!(q.remove_from_queue(0));
    assert_eq!(q.queue_index, Some(1));
    assert_eq!(q.queue[1].id, 3);
}

#[test]
fn remove_current_last_moves_to_new_last() {
    let mut q = queue_of(&[1, 2, 3]);
    q.queue_index = Some(2);
    assert!(q.remove_from_queue(2));
    assert_eq!(q.queue_index, Some(1));
    let mut q = queue_of(&[1, 2, 3]);
    q.queue_index = Some(1);
    assert!(q.remove_from_queue(1));
    assert_eq!(q.queue_index, Some(1));
    assert_eq!(q.queue[1].id, 3);
}

#[test]
fn remove_only_song_clears_index() {
    let mut q = queue_of(&[1]);
    q.queue_index = Some(0);
    assert!(q.remove_from_queue(0));
    assert_eq!(q.queue_index, None);
    assert!(q.queue.is_empty());
}

#[test]
fn remove_out_of_range_changes_nothing() {
    let mut q = queue_of(&[1, 2]);
    q.queue_index = Some(1);
    assert!(!q.remove_from_queue(5));
    assert_eq!(q.queue.len(), 2);
    assert_eq!(q.queue_index, Some(1));
}

#[test]
fn remove_after_current_keeps_current_song() {
    let mut q = queue_of(&[1, 2, 3, 4]);
    q.queue_index = Some(1);
    q.remove_from_queue(3);
    assert_eq!(q.queue[q.queue_index.unwrap()].id, 2);
}

#[test]
fn clear_queue_empties() {
    let mut q = queue_of(&[1, 2]);
    q.queue_index = Some(0);
    q.clear_queue();
    assert!(q.queue.is_empty());
    assert_eq!(q.queue_index, None);
}

#[test]
fn try_play_decisions() {
    assert!(matches!(try_play_song("/a.mp3", true, 1, true), PlayResult::Playing));
    assert!(matches!(try_play_song("", false, -5, true), PlayResult::NeedsResolution));
    assert!(matches!(try_play_song("ncm://9", false, 9, true), PlayResult::NeedsResolution));
    match try_play_song("/gone.mp3", false, 3, true) {
        PlayResult::Failed(e) => assert_eq!(e, "File not found: /gone.mp3"),
        _ => panic!("expected failure"),
    }
    match try_play_song("/a.mp3", true, 1, false) {
        PlayResult::Failed(e) => assert_eq!(e, "No audio player"),
        _ => panic!("expected failure"),
    }
}

#[test]
fn three_failures_in_a_row_stop_playback() {
    let mut q = LibraryState::new();
    assert_eq!(q.handle_playback_failure(), FailureStep::SkipToNext);
    assert_eq!(q.handle_playback_failure(), FailureStep::SkipToNext);
    assert_eq!(q.handle_playback_failure(), FailureStep::StopWithWarning);
    assert_eq!(q.consecutive_failures, 0);
}

#[test]
fn play_song_at_index_outcomes() {
    let mut q = queue_of(&[1, 2]);
    assert!(matches!(q.play_song_at_index(9, false, true, true), PlayStep::Ignored));
    assert_eq!(q.queue_index, None);
    q.consecutive_failures = 2;
    assert!(matches!(q.play_song_at_index(1, false, true, true), PlayStep::Started(1)));
    assert_eq!(q.consecutive_failures, 0);
    assert_eq!(q.current_song.as_ref().map(|s| s.id), Some(2));
    assert!(matches!(q.play_song_at_index(0, true, true, true), PlayStep::Resolve(0)));
    assert_eq!(q.pending_resolution_idx, Some(0));
    match q.play_song_at_index(0, false, false, true) {
        PlayStep::Failed(e, FailureStep::SkipToNext) => assert_eq!(e, "File not found: /x.mp3"),
        _ => panic!("expected failure"),
    }
    assert_eq!(q.consecutive_failures, 1);
}

#[test]
fn stale_resolution_does_not_play() {
    let mut q = queue_of(&[-1, -2]);
    q.play_song_at_index(1, true, false, true);
    assert!(!q.song_resolved(0, "/c/1.mp3".to_string(), None));
    assert_eq!(q.pending_resolution_idx, Some(1));
    assert_eq!(q.queue[0].file_path, "/c/1.mp3");
    assert!(q.song_resolved(1, "/c/2.mp3".to_string(), Some("cov".to_string())));
    assert_eq!(q.pending_resolution_idx, None);
    assert_eq!(q.queue[1].cover_path.as_deref(), Some("cov"));
}

#[test]
fn add_ncm_songs_play_now_or_append() {
    let mut q = queue_of(&[1]);
    let songs = vec![ncm(10, "", 1000), ncm(11, "", 2000)];
    assert!(!q.add_ncm_songs(&songs, false));
    assert_eq!(q.queue.iter().map(|s| s.id).collect::<Vec<_>>(), vec![1, -10, -11]);
    assert!(q.add_ncm_songs(&songs, true));
    assert_eq!(q.queue.iter().map(|s| s.id).collect::<Vec<_>>(), vec![-10, -11]);
    assert_eq!(q.queue_index, Some(0));
}

#[test]
fn load_queue_and_recently_played() {
    let mut q = LibraryState::new();
    q.personal_fm_mode = true;
    assert!(!q.load_queue(Vec::new()));
    assert!(!q.personal_fm_mode);
    q.recently_played = vec![song(5, "/5.mp3")];
    assert!(q.play_recently_played());
    assert_eq!(q.queue.len(), 1);
    assert_eq!(q.queue[0].id, 5);
    assert!(!q.play_ncm_playlist(&Vec::new()));
    assert!(q.play_ncm_playlist(&vec![ncm(3, "", 0)]));
    assert_eq!(q.queue[0].id, -3);
}

#[test]
fn queue_finished_returns_to_first() {
    let mut q = queue_of(&[7, 8]);
    q.queue_index = Some(1);
    assert!(q.queue_finished());
    assert_eq!(q.queue_index, Some(0));
    assert_eq!(q.current_song.as_ref().map(|s| s.id), Some(7));
    let mut e = LibraryState::new();
    assert!(!e.queue_finished());
}

#[test]
fn play_single_replaces_queue() {
    let mut q = queue_of(&[1, 2, 3]);
    q.play_single(song(-4, "http://s"));
    assert_eq!(q.queue.len(), 1);
    assert_eq!(q.queue_index, Some(0));
    assert_eq!(q.current_song.as_ref().map(|s| s.id), Some(-4));
}

#[test]
fn cover_plans() {
    assert_eq!(cover_stem(-77), "cover_77");
    assert_eq!(cover_stem(12), "cover_12");
    assert!(matches!(cover_plan(&song(3, ""), None), CoverPlan::Keep));
    let mut s = song(-3, "");
    s.cover_path = Some("http://img/3.jpg".to_string());
    match cover_plan(&s, None) {
        CoverPlan::Download(id, url) => {
            assert_eq!(id, 3);
            assert_eq!(url, "http://img/3.jpg");
        }
        _ => panic!("expected download"),
    }
    match cover_plan(&s, Some("/c/cover_3.jpg".to_string())) {
        CoverPlan::UseLocal(p) => assert_eq!(p, "/c/cover_3.jpg"),
        _ => panic!("expected local"),
    }
    s.cover_path = Some("/c/cover_3.jpg".to_string());
    assert!(matches!(cover_plan(&s, Some("/c/cover_3.jpg".to_string())), CoverPlan::Keep));
    assert!(matches!(cover_plan(&s, None), CoverPlan::Refetch(3)));
}

use rustle::queue::{position_save_tick, seek_backward_target, seek_forward_target, PlaybackStatus, ToggleAction};

#[test]
fn play_pause_button() {
    let mut q = queue_of(&[1, 2]);
    assert!(matches!(q.toggle_action(PlaybackStatus::Playing), ToggleAction::Pause));
    assert!(matches!(q.toggle_action(PlaybackStatus::Buffering), ToggleAction::Pause));
    assert!(matches!(q.toggle_action(PlaybackStatus::Paused), ToggleAction::Resume));
    assert!(matches!(q.toggle_action(PlaybackStatus::Stopped), ToggleAction::Nothing));
    q.current_song = Some(song(2, "/music/a.flac"));
    match q.toggle_action(PlaybackStatus::Stopped) {
        ToggleAction::PlayFile(p) => assert_eq!(p, "/music/a.flac"),
        _ => panic!("expected a file"),
    }
    q.current_song = Some(song(-2, "ncm://2"));
    assert!(matches!(q.toggle_action(PlaybackStatus::Stopped), ToggleAction::Nothing));
    q.queue_index = Some(1);
    assert!(matches!(q.toggle_action(PlaybackStatus::Stopped), ToggleAction::PlayIndex(1)));
}

#[test]
fn seeking_and_position_saves() {
    assert_eq!(seek_forward_target(5_000, 60_000), Some(15_000));
    assert_eq!(seek_forward_target(55_000, 60_000), None);
    assert_eq!(seek_backward_target(25_000), 15_000);
    assert_eq!(seek_backward_target(3_000), 0);
    let mut c = 0;
    let mut saves = 0;
    for _ in 0..120 {
        let (n, save) = position_save_tick(c);
        c = n;
        if save {
            saves += 1;
        }
    }
    assert_eq!(saves, 2);
    assert_eq!(c, 20);
}

#[test]
fn finished_song_moves_on_only_when_settled() {
    let mut q = queue_of(&[1, 2]);
    q.current_song = None;
    assert!(!q.finished_moves_on());
    q.current_song = Some(song(1, "/a.mp3"));
    assert!(q.finished_moves_on());
    q.pending_resolution_idx = Some(1);
    assert!(!q.finished_moves_on());
}

#[test]
fn current_song_checks() {
    let mut q = queue_of(&[1, 2]);
    q.current_song = None;
    assert!(!q.is_current(1));
    q.current_song = Some(song(2, "/b.mp3"));
    assert!(q.is_current(2));
    assert!(!q.is_current(1));
}

#[test]
fn downloaded_cover_reaches_current_song_and_queue() {
    let mut q = queue_of(&[-1, -2]);
    q.queue_index = Some(1);
    q.current_song = Some(song(-2, ""));
    assert!(q.current_cover_ready(-2, &"cover_2.jpg".to_string()));
    assert_eq!(q.current_song.as_ref().unwrap().cover_path.as_deref(), Some("cover_2.jpg"));
    assert_eq!(q.queue[1].cover_path.as_deref(), Some("cover_2.jpg"));
    assert!(!q.current_cover_ready(-1, &"cover_1.jpg".to_string()));
    assert_eq!(q.queue[0].cover_path, song(-1, "/x.mp3").cover_path);
}

#[test]
fn play_song_by_id_searches_queue_library_then_service() {
    let mut q = queue_of(&[1, 2]);
    q.db_songs = vec![song(7, "/7.mp3")];
    let service = vec![ncm(42, "http://p/42", 200_000)];
    assert_eq!(q.play_song_by_id(2, &service), Some(1));
    assert_eq!(q.queue.len(), 2);
    assert_eq!(q.play_song_by_id(7, &service), Some(2));
    assert_eq!(q.queue[2].id, 7);
    assert_eq!(q.play_song_by_id(-42, &service), Some(3));
    assert_eq!(q.queue[3].id, -42);
    assert_eq!(q.queue[3].duration_secs, 200);
    assert_eq!(q.play_song_by_id(-43, &service), None);
    assert_eq!(q.play_song_by_id(99, &service), None);
    assert_eq!(q.queue.len(), 4);
}

#[test]
fn removing_library_playlists_keeps_order() {
    let mut q = LibraryState::new();
    for id in [5, 6, 5, 7] {
        q.playlists.push(LibraryPlaylist { id, name: format!("p{}", id) });
    }
    q.remove_playlist(5);
    let ids: Vec<i64> = q.playlists.iter().map(|p| p.id).collect();
    assert_eq!(ids, vec![6, 7]);
}

#[test]
fn play_song_by_min_id_finds_nothing_in_the_service_list() {
    let mut q = queue_of(&[1]);
    let service = vec![ncm(5, "", 1000)];
    assert_eq!(q.play_song_by_id(i64::MIN, &service), None);
    assert_eq!(q.queue.len(), 1);
}
