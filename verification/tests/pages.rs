use rustle::pages::library_playlist_deleted;
use rustle::queue::{LibraryPlaylist, LibraryState};
use rustle::model::{PlayListDetail, SearchResponse, SongCopyright, SongInfo, SongList};
use rustle::navigation::{Route, SearchTab};
use rustle::pages::{
    creator_avatar_stem, payload_from_response, playlist_duration_text, search_offset,
    search_submit_route, CoverCandidate, DialogState, PlaylistPageState, PlaylistSummary,
    SearchPageState, UserPlaylistEntry,
};

fn info(id: u64) -> SongInfo {
    SongInfo {
        id,
        name: "n".to_string(),
        singer: "s".to_string(),
        album: "a".to_string(),
        album_id: 0,
        pic_url: String::new(),
        duration: 0,
        song_url: String::new(),
        copyright: SongCopyright::Free,
    }
}

fn list(id: u64) -> SongList {
    SongList { id, name: "l".to_string(), cover_img_url: String::new(), author: "x".to_string() }
}

fn response() -> SearchResponse {
    SearchResponse {
        songs: vec![info(1), info(2)],
        albums: vec![list(3)],
        playlists: vec![list(4), list(5), list(6)],
        song_count: 20,
        album_count: 30,
        playlist_count: 40,
    }
}

#[test]
fn payload_picks_the_tab() {
    let p = payload_from_response(SearchTab::Songs, response());
    assert_eq!(p.songs.len(), 2);
    assert!(p.albums.is_empty() && p.playlists.is_empty());
    assert_eq!(p.total_count, 20);
    let p = payload_from_response(SearchTab::Artists, response());
    assert_eq!(p.albums.len(), 1);
    assert_eq!(p.total_count, 30);
    let p = payload_from_response(SearchTab::Playlists, response());
    assert_eq!(p.playlists.len(), 3);
    assert_eq!(p.total_count, 40);
}

#[test]
fn results_replace_their_tab_only() {
    let mut s = SearchPageState::new();
    s.loading = true;
    s.apply_results(payload_from_response(SearchTab::Playlists, response()));
    assert!(!s.loading);
    assert_eq!(s.playlists.len(), 3);
    assert!(s.songs.is_empty());
    assert_eq!(s.total_count, 40);
    s.apply_results(payload_from_response(SearchTab::Songs, response()));
    assert_eq!(s.songs.len(), 2);
    assert_eq!(s.playlists.len(), 3);
}

#[test]
fn search_route_reload_rules() {
    let mut s = SearchPageState::new();
    let r = Route::Search { keyword: "jay".to_string(), tab: SearchTab::Songs, page: 0 };
    assert!(s.should_reload_search(&r));
    assert!(!s.should_reload_search(&Route::Home));
    s.songs = vec![info(1)];
    assert!(s.enter_search_route(&"jay".to_string(), SearchTab::Songs, 0));
    assert!(s.loading);
    assert!(s.songs.is_empty());
    assert!(!s.should_reload_search(&r));
    s.songs = vec![info(1)];
    assert!(!s.enter_search_route(&"jay".to_string(), SearchTab::Songs, 0));
    assert_eq!(s.songs.len(), 1);
    assert!(!s.loading);
    assert!(s.tab_route(SearchTab::Songs).is_none());
    let t = s.tab_route(SearchTab::Albums).unwrap();
    assert!(t.same_as(&Route::Search { keyword: "jay".to_string(), tab: SearchTab::Albums, page: 0 }));
    assert!(s.page_route(0).is_none());
    let p = s.page_route(3).unwrap();
    assert!(p.same_as(&Route::Search { keyword: "jay".to_string(), tab: SearchTab::Songs, page: 3 }));
    assert_eq!(s.search_failed("timeout"), "搜索失败: timeout");
    assert!(!s.loading);
    s.leave_search();
    assert_eq!(s.keyword, "");
}

#[test]
fn submit_trims_and_skips_blank() {
    assert!(search_submit_route("   \t ").is_none());
    let r = search_submit_route("  周杰伦 ").unwrap();
    assert!(r.same_as(&Route::Search { keyword: "周杰伦".to_string(), tab: SearchTab::Songs, page: 0 }));
    assert_eq!(search_offset(3), 150);
}

fn cand(id: i64, url: Option<&str>, has: bool) -> CoverCandidate {
    CoverCandidate { id, pic_url: url.map(|u| u.to_string()), has_cover: has }
}

#[test]
fn lazy_covers_only_for_online_playlists() {
    let mut p = PlaylistPageState::new();
    let rows = vec![cand(-1, Some("u1"), false)];
    assert!(p.visible_covers_to_request(&rows).is_none());
    p.current = Some(PlaylistSummary {
        id: -10,
        name: "n".to_string(),
        description: None,
        cover_path: None,
        owner: String::new(),
        creator_id: 0,
        song_count: 0,
        total_duration: String::new(),
        is_subscribed: false,
    });
    p.pending_cover_downloads.insert(-2);
    let rows = vec![
        cand(-1, Some("u1"), false),
        cand(-2, Some("u2"), false),
        cand(-3, Some(""), false),
        cand(-4, None, false),
        cand(-5, Some("u5"), true),
        cand(-6, Some("u6"), false),
        cand(-7, Some("u7"), false),
        cand(-8, Some("u8"), false),
        cand(-9, Some("u9"), false),
        cand(-11, Some("u11"), false),
    ];
    let got = p.visible_covers_to_request(&rows).unwrap();
    let ids: Vec<i64> = got.iter().map(|x| x.0).collect();
    assert_eq!(ids, vec![-1, -6, -7, -8, -9]);
    let none = vec![cand(-2, Some("u2"), false)];
    assert!(p.visible_covers_to_request(&none).is_none());
}

#[test]
fn cover_requests_marked_pending() {
    let mut p = PlaylistPageState::new();
    p.pending_cover_downloads.insert(1);
    let reqs = vec![
        (1, "a".to_string()),
        (2, "b".to_string()),
        (3, "".to_string()),
        (4, "d".to_string()),
    ];
    let picked = p.take_cover_requests(&reqs, &vec![false, false, false, true]);
    assert_eq!(picked, vec![(2, "b".to_string())]);
    assert!(p.pending_cover_downloads.contains(&2));
    let again = p.take_cover_requests(&reqs, &vec![false, false, false, true]);
    assert!(again.is_empty());
}

#[test]
fn playlist_page_toggles() {
    let mut p = PlaylistPageState::new();
    assert!(p.toggle_search());
    p.search_query = "abc".to_string();
    p.search_blur();
    assert!(p.search_expanded);
    assert!(!p.toggle_search());
    assert_eq!(p.search_query, "");
    p.toggle_search();
    p.search_blur();
    assert!(!p.search_expanded);
    p.current = Some(PlaylistSummary {
        id: -3,
        name: "n".to_string(),
        description: None,
        cover_path: None,
        owner: String::new(),
        creator_id: 0,
        song_count: 0,
        total_duration: String::new(),
        is_subscribed: false,
    });
    p.subscription_changed(-3, true);
    assert!(p.current.as_ref().unwrap().is_subscribed);
    p.playlist_deleted(4);
    assert!(p.current.is_some());
    p.playlist_deleted(-3);
    assert!(p.current.is_none());
    p.viewing_recently_played = true;
    p.reset();
    assert!(!p.viewing_recently_played);
}

#[test]
fn dialogs_delete_and_edit() {
    let mut d = DialogState::new();
    d.request_delete(5);
    assert_eq!(d.confirm_delete(), Some(5));
    assert_eq!(d.confirm_delete(), None);
    d.request_delete(6);
    d.cancel_delete();
    assert_eq!(d.delete_pending_id, None);
    assert!(d.save_edits().is_none());
    let shown = Some(PlaylistSummary {
        id: 8,
        name: "Mix".to_string(),
        description: Some("desc".to_string()),
        cover_path: Some("c.png".to_string()),
        owner: String::new(),
        creator_id: 0,
        song_count: 0,
        total_duration: String::new(),
        is_subscribed: false,
    });
    d.open_edit(8, &shown);
    assert!(d.edit_open);
    assert_eq!(d.edit_name, "Mix");
    d.edit_description = String::new();
    let e = d.save_edits().unwrap();
    assert_eq!(e.playlist_id, 8);
    assert_eq!(e.name, "Mix");
    assert_eq!(e.description, None);
    assert_eq!(e.cover.as_deref(), Some("c.png"));
    assert!(!d.edit_open);
    d.open_edit(9, &None);
    assert!(!d.edit_open);
    d.close_edit();
    assert_eq!(d.editing_playlist_id, None);
}

fn timed(ms: u64) -> SongInfo {
    let mut s = info(1);
    s.duration = ms;
    s
}

#[test]
fn playlist_duration_in_minutes_and_hours() {
    assert_eq!(playlist_duration_text(&vec![]), "0 分钟");
    assert_eq!(playlist_duration_text(&vec![timed(59_999), timed(60_999)]), "1 分钟");
    let long = vec![timed(3_000_000), timed(1_500_000)];
    assert_eq!(playlist_duration_text(&long), "约 1 小时 15 分钟");
    assert_eq!(creator_avatar_stem(42), "playlist_creator_42");
}

fn entry(id: u64, name: &str) -> UserPlaylistEntry {
    UserPlaylistEntry {
        id,
        name: name.to_string(),
        author: "me".to_string(),
        cover_img_url: format!("http://c/{}", id),
    }
}

#[test]
fn opening_service_playlists() {
    let mut p = PlaylistPageState::new();
    let mine = vec![entry(7, "Seven"), entry(9, "Nine"), entry(7, "Other")];
    assert_eq!(p.open_service_playlist(7, &mine).as_deref(), Some("http://c/7"));
    let cur = p.current.as_ref().unwrap();
    assert_eq!(cur.id, -7);
    assert_eq!(cur.name, "Seven");
    assert_eq!(cur.owner, "me");
    assert!(p.loading);
    // Another playlist while loading: skipped.
    assert!(p.open_service_playlist(9, &mine).is_none());
    p.songs_ready();
    assert!(!p.loading);
    // The same one again: skipped.
    assert!(p.open_service_playlist(7, &mine).is_none());
    assert_eq!(p.open_service_playlist(5, &mine).as_deref(), Some(""));
    assert_eq!(p.current.as_ref().unwrap().name, "加载中...");
    p.songs_ready();
    assert_eq!(p.open_service_playlist(0, &mine).as_deref(), Some(""));
    let cur = p.current.as_ref().unwrap();
    assert_eq!(cur.id, 0);
    assert_eq!(cur.name, "每日推荐");
    assert_eq!(cur.owner, "网易云音乐");
    p.songs_ready();
    // The daily recommendation is reloaded even while shown.
    assert!(p.open_service_playlist(0, &mine).is_some());
}

#[test]
fn service_detail_fills_the_shown_playlist() {
    let mut p = PlaylistPageState::new();
    p.open_service_playlist(12, &vec![]);
    let detail = PlayListDetail {
        id: 12,
        name: "Full".to_string(),
        cover_img_url: String::new(),
        description: String::new(),
        create_time: 0,
        track_update_time: 0,
        creator_id: 77,
        creator_nickname: String::new(),
        creator_avatar_url: String::new(),
        track_count: 2,
        subscribed: true,
        songs: vec![timed(120_000), timed(60_500)],
    };
    let mut other = detail.clone();
    assert_eq!(p.service_detail_loaded(detail), "playlist_creator_12");
    assert_eq!(p.service_songs.len(), 2);
    assert_eq!(p.service_songs[0].duration, 120_000);
    let cur = p.current.as_ref().unwrap();
    assert_eq!(cur.name, "Full");
    assert_eq!(cur.description, None);
    assert_eq!(cur.owner, "网易云音乐");
    assert_eq!(cur.creator_id, 77);
    assert_eq!(cur.song_count, 2);
    assert_eq!(cur.total_duration, "3 分钟");
    assert!(cur.is_subscribed);
    other.id = 13;
    other.name = "Else".to_string();
    other.songs = vec![timed(1_000)];
    p.service_detail_loaded(other);
    assert_eq!(p.current.as_ref().unwrap().name, "Full");
    // The songs are kept whichever playlist is shown.
    assert_eq!(p.service_songs.len(), 1);
}

#[test]
fn opening_local_playlists() {
    let mut p = PlaylistPageState::new();
    assert!(p.open_local_playlist(3));
    assert!(p.loading);
    p.songs_ready();
    p.current = Some(PlaylistSummary {
        id: 3,
        name: "L".to_string(),
        description: None,
        cover_path: None,
        owner: String::new(),
        creator_id: 0,
        song_count: 0,
        total_duration: String::new(),
        is_subscribed: false,
    });
    assert!(!p.open_local_playlist(3));
    assert!(!p.loading);
}

#[test]
fn playlist_covers_arrive() {
    let mut p = PlaylistPageState::new();
    p.pending_cover_downloads.insert(-1);
    p.pending_cover_downloads.insert(-2);
    // Nothing shown: pending downloads stay.
    p.song_covers_loaded(&vec![(-1, "a.jpg".to_string())]);
    assert_eq!(p.pending_cover_downloads.len(), 2);
    p.open_service_playlist(8, &vec![]);
    p.song_covers_loaded(&vec![(-1, "a.jpg".to_string()), (-5, "b.jpg".to_string())]);
    assert!(!p.pending_cover_downloads.contains(&-1));
    assert!(p.pending_cover_downloads.contains(&-2));
    p.cover_loaded(-9, &"x.jpg".to_string());
    assert_eq!(p.current.as_ref().unwrap().cover_path, None);
    p.cover_loaded(-8, &"c.jpg".to_string());
    assert_eq!(p.current.as_ref().unwrap().cover_path.as_deref(), Some("c.jpg"));
}

#[test]
fn deleting_a_library_playlist() {
    let mut lib = LibraryState::new();
    for (id, name) in [(1, "a"), (2, "b"), (3, "c"), (2, "b2")] {
        lib.playlists.push(LibraryPlaylist { id, name: name.to_string() });
    }
    let mut p = PlaylistPageState::new();
    p.current = Some(PlaylistSummary {
        id: 2,
        name: "b".to_string(),
        description: None,
        cover_path: None,
        owner: String::new(),
        creator_id: 0,
        song_count: 0,
        total_duration: String::new(),
        is_subscribed: false,
    });
    assert_eq!(library_playlist_deleted(&mut lib, &mut p, 2), "歌单已删除");
    let ids: Vec<i64> = lib.playlists.iter().map(|p| p.id).collect();
    assert_eq!(ids, vec![1, 3]);
    assert!(p.current.is_none());
    library_playlist_deleted(&mut lib, &mut p, 9);
    assert_eq!(lib.playlists.len(), 2);
}

#[test]
fn search_text_is_trimmed_like_std_trim() {
    for text in ["  a b  ", "\u{3000}x\u{2028}", "\t\n", "", "y", "\u{85}z\u{a0}"] {
        match search_submit_route(text) {
            Some(Route::Search { keyword, .. }) => assert_eq!(keyword, text.trim()),
            None => assert!(text.trim().is_empty()),
            _ => panic!("unexpected route"),
        }
    }
}
