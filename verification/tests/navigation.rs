use rustle::navigation::{
    route_for_nav_item, DiscoverViewMode, NavItem, NavigationEntry, NavigationHistory, Route,
    SearchTab, SettingsSection,
};

fn entry(r: Route) -> NavigationEntry {
    NavigationEntry::Route(r)
}

fn is_route(e: &Option<NavigationEntry>, r: &Route) -> bool {
    match e {
        Some(NavigationEntry::Route(x)) => x.same_as(r),
        None => false,
    }
}

#[test]
fn push_back_forward() {
    let mut h = NavigationHistory::default();
    assert!(!h.can_go_back());
    h.push(entry(Route::Home));
    h.push(entry(Route::Radio));
    h.push(entry(Route::AudioEngine));
    assert_eq!(h.entries.len(), 3);
    assert_eq!(h.current_index, Some(2));
    assert!(h.can_go_back());
    assert!(!h.can_go_forward());
    let back = h.go_back();
    assert!(is_route(&back, &Route::Radio));
    assert!(h.can_go_forward());
    let fwd = h.go_forward();
    assert!(is_route(&fwd, &Route::AudioEngine));
    assert_eq!(h.current_index, Some(2));
}

#[test]
fn push_same_route_is_ignored() {
    let mut h = NavigationHistory::default();
    h.push(entry(Route::Home));
    h.push(entry(Route::Home));
    assert_eq!(h.entries.len(), 1);
}

#[test]
fn push_after_back_drops_forward_history() {
    let mut h = NavigationHistory::default();
    h.push(entry(Route::Home));
    h.push(entry(Route::Radio));
    h.push(entry(Route::AudioEngine));
    h.go_back();
    h.go_back();
    h.push(entry(Route::Playlist(7)));
    assert_eq!(h.entries.len(), 2);
    assert_eq!(h.current_index, Some(1));
    assert!(!h.can_go_forward());
}

#[test]
fn go_back_at_start_gives_nothing() {
    let mut h = NavigationHistory::default();
    assert!(h.go_back().is_none());
    h.push(entry(Route::Home));
    assert!(h.go_back().is_none());
    assert!(h.go_forward().is_none());
}

#[test]
fn replace_current_keeps_length() {
    let mut h = NavigationHistory::default();
    h.replace_current(entry(Route::Home));
    assert_eq!(h.entries.len(), 1);
    h.push(entry(Route::Settings(SettingsSection::Account)));
    h.replace_current(entry(Route::Settings(SettingsSection::Network)));
    assert_eq!(h.entries.len(), 2);
    let back = h.go_back();
    assert!(is_route(&back, &Route::Home));
    let fwd = h.go_forward();
    assert!(is_route(&fwd, &Route::Settings(SettingsSection::Network)));
}

#[test]
fn nav_items_of_routes() {
    assert_eq!(Route::Home.nav_item(), Some(NavItem::Home));
    assert_eq!(
        Route::Discover(DiscoverViewMode::AllHot).nav_item(),
        Some(NavItem::Discover)
    );
    assert_eq!(Route::Settings(SettingsSection::About).nav_item(), Some(NavItem::Settings));
    assert_eq!(Route::Playlist(3).nav_item(), None);
    assert_eq!(
        Route::Search { keyword: "a".to_string(), tab: SearchTab::Songs, page: 0 }.nav_item(),
        None
    );
}

#[test]
fn sidebar_route_highlights_its_item() {
    for nav in [
        NavItem::Home,
        NavItem::Discover,
        NavItem::Radio,
        NavItem::Settings,
        NavItem::AudioEngine,
    ] {
        let r = route_for_nav_item(nav, SettingsSection::Storage);
        assert_eq!(r.nav_item(), Some(nav));
    }
    let r = route_for_nav_item(NavItem::Settings, SettingsSection::Storage);
    assert!(r.same_as(&Route::Settings(SettingsSection::Storage)));
    let r = route_for_nav_item(NavItem::Discover, SettingsSection::Storage);
    assert!(r.same_as(&Route::Discover(DiscoverViewMode::Overview)));
}

#[test]
fn search_tab_types() {
    assert_eq!(SearchTab::Songs.to_search_type().as_str(), "1");
    assert_eq!(SearchTab::Albums.to_search_type().as_str(), "10");
    assert_eq!(SearchTab::Artists.to_search_type().as_str(), "100");
    assert_eq!(SearchTab::Playlists.to_search_type().as_str(), "1000");
    assert_eq!(SearchTab::default(), SearchTab::Songs);
    assert_eq!(DiscoverViewMode::default(), DiscoverViewMode::Overview);
}
