use rustle::navigation::{DiscoverViewMode, NavItem, Route, SearchTab, SettingsSection};
use rustle::pages::PlaylistSummary;
use rustle::router::{route_effect, RouteEffect, RouteRequest, RouterState};

fn summary(id: i64) -> PlaylistSummary {
    PlaylistSummary {
        id,
        name: "p".to_string(),
        description: None,
        cover_path: None,
        owner: String::new(),
        creator_id: 0,
        song_count: 0,
        total_duration: String::new(),
        is_subscribed: false,
    }
}

fn search(k: &str, tab: SearchTab, page: u32) -> Route {
    Route::Search { keyword: k.to_string(), tab, page }
}

#[test]
fn effects_of_routes() {
    assert_eq!(route_effect(&Route::Home, false, true), RouteEffect::ScrollHomeToTop);
    assert_eq!(
        route_effect(&Route::Discover(DiscoverViewMode::AllHot), false, false),
        RouteEffect::ShowDiscover { load: true }
    );
    assert_eq!(
        route_effect(&Route::Discover(DiscoverViewMode::Overview), false, true),
        RouteEffect::ShowDiscover { load: false }
    );
    assert_eq!(route_effect(&Route::Radio, false, true), RouteEffect::StartRadio);
    assert_eq!(route_effect(&Route::NcmPlaylist(9), false, true), RouteEffect::OpenServicePlaylist(9));
    assert_eq!(route_effect(&Route::Playlist(4), false, true), RouteEffect::OpenLocalPlaylist(4));
    assert_eq!(route_effect(&Route::RecentlyPlayed, false, true), RouteEffect::LoadRecentlyPlayed);
    assert_eq!(
        route_effect(&search("a", SearchTab::Songs, 0), true, true),
        RouteEffect::ShowSearch { fetch: true }
    );
}

#[test]
fn navigating_syncs_pages_and_history() {
    let mut r = RouterState::new();
    r.lyrics_open = true;
    r.playlist_page.current = Some(summary(-5));
    let e = r.navigate_to_route(Route::Settings(SettingsSection::Network), true, true);
    assert_eq!(e, RouteEffect::ShowSettings(SettingsSection::Network));
    assert!(!r.lyrics_open);
    assert!(r.playlist_page.current.is_none());
    assert_eq!(r.settings_section, SettingsSection::Network);
    assert_eq!(r.nav_history.entries.len(), 2);

    let e = r.navigate_to_route(search("jay", SearchTab::Songs, 0), true, true);
    assert_eq!(e, RouteEffect::ShowSearch { fetch: true });
    assert!(r.search.loading);
    assert_eq!(r.search.keyword, "jay");
    assert_eq!(r.search_query, "jay");
    // The same search again needs no reload.
    r.search.loading = false;
    let e = r.navigate_to_route(search("jay", SearchTab::Songs, 0), false, true);
    assert_eq!(e, RouteEffect::ShowSearch { fetch: false });
    assert!(!r.search.loading);

    let e = r.navigate_to_route(Route::RecentlyPlayed, true, true);
    assert_eq!(e, RouteEffect::LoadRecentlyPlayed);
    assert!(r.playlist_page.viewing_recently_played);
    assert_eq!(r.search.keyword, "");

    r.playlist_page.current = Some(summary(-3));
    r.navigate_to_route(Route::NcmPlaylist(3), true, true);
    assert!(!r.playlist_page.viewing_recently_played);
    assert_eq!(r.playlist_page.current.as_ref().map(|p| p.id), Some(-3));

    r.navigate_to_route(Route::Discover(DiscoverViewMode::AllRecommended), true, true);
    assert_eq!(r.discover_mode, DiscoverViewMode::AllRecommended);
    r.navigate_to_route(Route::Home, true, true);
    assert_eq!(r.discover_mode, DiscoverViewMode::Overview);
}

#[test]
fn back_and_forward_show_history_pages() {
    let mut r = RouterState::new();
    assert!(r.navigate_back(true).is_none());
    // Home is the first entry already: pushing it again adds nothing.
    r.navigate_to_route(Route::Home, true, true);
    assert_eq!(r.nav_history.entries.len(), 1);
    r.navigate_to_route(Route::Radio, true, true);
    r.navigate_to_route(Route::AudioEngine, true, true);
    assert!(r.navigate_forward(true).is_none());
    assert_eq!(r.navigate_back(true), Some(RouteEffect::StartRadio));
    assert!(matches!(r.current_route, Route::Radio));
    assert_eq!(r.navigate_back(true), Some(RouteEffect::ScrollHomeToTop));
    assert!(r.navigate_back(true).is_none());
    assert_eq!(r.navigate_forward(true), Some(RouteEffect::StartRadio));
    assert_eq!(r.nav_history.entries.len(), 3);
    assert_eq!(r.nav_history.current_index, Some(1));
}

#[test]
fn routes_of_requests() {
    let mut r = RouterState::new();
    r.settings_section = SettingsSection::Storage;
    assert!(matches!(
        r.route_for_request(RouteRequest::Navigate(NavItem::Settings)),
        Some(Route::Settings(SettingsSection::Storage))
    ));
    assert!(matches!(
        r.route_for_request(RouteRequest::Navigate(NavItem::Discover)),
        Some(Route::Discover(DiscoverViewMode::Overview))
    ));
    assert!(matches!(
        r.route_for_request(RouteRequest::SeeAllHot),
        Some(Route::Discover(DiscoverViewMode::AllHot))
    ));
    assert!(matches!(
        r.route_for_request(RouteRequest::ScrollToSection(SettingsSection::About)),
        Some(Route::Settings(SettingsSection::About))
    ));
    assert!(r.route_for_request(RouteRequest::SearchSubmit).is_none());
    r.search_query = "  hello  ".to_string();
    match r.route_for_request(RouteRequest::SearchSubmit) {
        Some(Route::Search { keyword, tab, page }) => {
            assert_eq!(keyword, "hello");
            assert_eq!(tab, SearchTab::Songs);
            assert_eq!(page, 0);
        }
        _ => panic!("expected a search route"),
    }
}

#[test]
fn settings_section_follows_scrolling() {
    let mut r = RouterState::new();
    r.sync_settings_section(SettingsSection::Network);
    assert_eq!(r.settings_section, SettingsSection::Network);
    assert!(matches!(r.current_route, Route::Home));
    assert_eq!(r.nav_history.entries.len(), 1);
    r.navigate_to_route(Route::Settings(SettingsSection::Account), true, true);
    r.sync_settings_section(SettingsSection::About);
    assert!(matches!(r.current_route, Route::Settings(SettingsSection::About)));
    assert_eq!(r.nav_history.entries.len(), 2);
    assert!(matches!(
        r.nav_history.entries[1],
        rustle::navigation::NavigationEntry::Route(Route::Settings(SettingsSection::About))
    ));
}

#[test]
fn fresh_router_state() {
    let r = RouterState::new();
    assert!(matches!(r.current_route, Route::Home));
    assert_eq!(r.search.keyword, "");
    assert_eq!(r.search.active_tab, SearchTab::Songs);
    assert!(!r.search.loading);
    assert!(r.playlist_page.current.is_none());
    assert!(r.playlist_page.pending_cover_downloads.is_empty());
    assert!(!r.playlist_page.loading);
    assert_eq!(r.nav_history.current_index, Some(0));
    assert_eq!(r.nav_history.entries.len(), 1);
    assert!(!r.nav_history.can_go_back());
    assert!(!r.nav_history.can_go_forward());
}

#[test]
fn first_navigation_can_go_back_home() {
    let mut r = RouterState::new();
    r.navigate_to_route(Route::Radio, true, true);
    assert_eq!(r.navigate_back(true), Some(RouteEffect::ScrollHomeToTop));
    assert!(matches!(r.current_route, Route::Home));
}

#[test]
fn opening_a_playlist_closes_the_lyrics() {
    let mut r = RouterState::new();
    r.lyrics_open = true;
    assert_eq!(r.open_service_playlist(4, &vec![]).as_deref(), Some(""));
    assert!(!r.lyrics_open);
    assert_eq!(r.playlist_page.current.as_ref().map(|p| p.id), Some(-4));
    // Loading: skipped, the lyrics stay as they are.
    r.lyrics_open = true;
    assert!(r.open_service_playlist(5, &vec![]).is_none());
    assert!(r.lyrics_open);
    r.playlist_page.songs_ready();
    assert!(r.open_local_playlist(8));
    assert!(!r.lyrics_open);
}
