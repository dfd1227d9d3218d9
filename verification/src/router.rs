//! Route transitions: what showing a page does to the state of the pages,
//! what it asks the shell to do next, and how the history takes part.

use vstd::prelude::*;

use crate::navigation::{
    nav_route, route_for_nav_item, DiscoverViewMode, NavItem, NavigationEntry, NavigationHistory,
    HistoryView, Route, RouteView, SearchTab, SettingsSection,
};
use crate::pages::{
    local_opened, needs_reload, search_submit_route, service_opened, PlaylistPageState, SearchPageState,
    SearchPageView, UserPlaylistEntry,
};
use crate::strings::trimmed;

verus! {

/// The state that routes decide.
#[derive(Debug)]
pub struct RouterState {
    pub current_route: Route,
    pub nav_history: NavigationHistory,
    pub search: SearchPageState,
    pub playlist_page: PlaylistPageState,
    pub discover_mode: DiscoverViewMode,
    pub settings_section: SettingsSection,
    /// The text in the search box.
    pub search_query: String,
    /// The lyrics page lies over the current page.
    pub lyrics_open: bool,
}

/// What the shell does after a page was shown.
#[derive(Debug, Clone, PartialEq, Eq)]
pub enum RouteEffect {
    /// The home page scrolls to its top.
    ScrollHomeToTop,
    /// The discover page scrolls to its top; its data loads when it has not
    /// loaded yet.
    ShowDiscover { load: bool },
    /// The home page scrolls to its top and the personal radio starts.
    StartRadio,
    /// The settings page refreshes its cache figures and scrolls to a
    /// section.
    ShowSettings(SettingsSection),
    /// The audio engine page scrolls to its top.
    ScrollAudioEngineToTop,
    /// A playlist of the library opens.
    OpenLocalPlaylist(i64),
    /// A playlist of the service opens.
    OpenServicePlaylist(u64),
    /// The recently played songs load.
    LoadRecentlyPlayed,
    /// The search page scrolls to its top; the search runs when it must.
    ShowSearch { fetch: bool },
}

/// The effect of showing a route.
pub open spec fn route_effect_of(route: RouteView, reload_search: bool, discover_loaded: bool) -> RouteEffect {
    match route {
        RouteView::Home => RouteEffect::ScrollHomeToTop,
        RouteView::Discover(_) => RouteEffect::ShowDiscover { load: !discover_loaded },
        RouteView::Radio => RouteEffect::StartRadio,
        RouteView::Settings(s) => RouteEffect::ShowSettings(s),
        RouteView::AudioEngine => RouteEffect::ScrollAudioEngineToTop,
        RouteView::Playlist(id) => RouteEffect::OpenLocalPlaylist(id),
        RouteView::NcmPlaylist(id) => RouteEffect::OpenServicePlaylist(id),
        RouteView::RecentlyPlayed => RouteEffect::LoadRecentlyPlayed,
        RouteView::Search { .. } => RouteEffect::ShowSearch { fetch: reload_search },
    }
}

/// The effect of showing a route.
pub fn route_effect(route: &Route, reload_search: bool, discover_loaded: bool) -> (r: RouteEffect)
    ensures
        r == route_effect_of(route@, reload_search, discover_loaded),
{
    match route {
        Route::Home => RouteEffect::ScrollHomeToTop,
        Route::Discover(_) => RouteEffect::ShowDiscover { load: !discover_loaded },
        Route::Radio => RouteEffect::StartRadio,
        Route::Settings(s) => RouteEffect::ShowSettings(*s),
        Route::AudioEngine => RouteEffect::ScrollAudioEngineToTop,
        Route::Playlist(id) => RouteEffect::OpenLocalPlaylist(*id),
        Route::NcmPlaylist(id) => RouteEffect::OpenServicePlaylist(*id),
        Route::RecentlyPlayed => RouteEffect::LoadRecentlyPlayed,
        Route::Search { .. } => RouteEffect::ShowSearch { fetch: reload_search },
    }
}

/// What showing a route does to the pages. Every route closes the lyrics
/// and the in-playlist search. A search route takes its keyword, tab and
/// page, and reloads when they differ from those shown; any other route
/// forgets the search keyword. Pages other than the playlist pages forget
/// the shown playlist; only the recently played page is marked as such.
pub open spec fn synced(o: RouterState, n: RouterState, route: RouteView) -> bool {
    &&& n.current_route@ == route
    &&& !n.lyrics_open
    &&& !n.playlist_page.search_expanded
    &&& n.playlist_page.search_query@.len() == 0
    &&& n.playlist_page.pending_cover_downloads@ == o.playlist_page.pending_cover_downloads@
    &&& n.playlist_page.loading == o.playlist_page.loading
    &&& n.playlist_page.service_songs == o.playlist_page.service_songs
    &&& n.nav_history@ == o.nav_history@
    &&& n.settings_section == (match route {
        RouteView::Settings(s) => s,
        _ => o.settings_section,
    })
    &&& n.discover_mode == (match route {
        RouteView::Home => DiscoverViewMode::Overview,
        RouteView::Discover(m) => m,
        _ => o.discover_mode,
    })
    &&& match route {
        RouteView::Search { keyword, tab, page } => {
            let reload = needs_reload(o.search@, route);
            &&& n.playlist_page.current is None
            &&& !n.playlist_page.viewing_recently_played
            &&& n.search@.keyword == keyword
            &&& n.search@.active_tab == tab
            &&& n.search@.current_page == page
            &&& n.search@.loading == reload
            &&& n.search@.total_count == o.search@.total_count
            &&& reload ==> n.search@.songs.len() == 0 && n.search@.albums.len() == 0
                && n.search@.playlists.len() == 0
            &&& !reload ==> n.search@.songs == o.search@.songs && n.search@.albums
                == o.search@.albums && n.search@.playlists == o.search@.playlists
            &&& n.search_query@ == keyword
        },
        _ => {
            &&& n.search@ == (SearchPageView { keyword: Seq::empty(), ..o.search@ })
            &&& n.search_query@ == o.search_query@
            &&& match route {
                RouteView::Playlist(_) | RouteView::NcmPlaylist(_) => {
                    &&& n.playlist_page.current == o.playlist_page.current
                    &&& !n.playlist_page.viewing_recently_played
                },
                RouteView::RecentlyPlayed => {
                    &&& n.playlist_page.current is None
                    &&& n.playlist_page.viewing_recently_played
                },
                _ => {
                    &&& n.playlist_page.current is None
                    &&& !n.playlist_page.viewing_recently_played
                },
            }
        },
    }
}

impl RouterState {
    /// The home page, which is the one entry of the history.
    pub fn new() -> (r: Self)
        ensures
            r.current_route@ == RouteView::Home,
            r.nav_history@.entries == seq![RouteView::Home],
            r.nav_history@.current == Some(0int),
            r.discover_mode == DiscoverViewMode::Overview,
            r.settings_section == SettingsSection::Account,
            r.search_query@.len() == 0,
            !r.lyrics_open,
            r.search@.keyword.len() == 0,
            r.search@.active_tab == SearchTab::Songs,
            r.search@.songs.len() == 0,
            r.search@.albums.len() == 0,
            r.search@.playlists.len() == 0,
            r.search@.total_count == 0,
            r.search@.current_page == 0,
            !r.search@.loading,
            r.playlist_page.current is None,
            !r.playlist_page.viewing_recently_played,
            !r.playlist_page.search_expanded,
            r.playlist_page.search_query@.len() == 0,
            r.playlist_page.pending_cover_downloads@ == Set::<i64>::empty(),
            !r.playlist_page.loading,
            r.playlist_page.service_songs@.len() == 0,
    {
        RouterState {
            current_route: Route::Home,
            nav_history: NavigationHistory {
                entries: vec![NavigationEntry::Route(Route::Home)],
                current_index: Some(0),
            },
            search: SearchPageState::new(),
            playlist_page: PlaylistPageState::new(),
            discover_mode: DiscoverViewMode::Overview,
            settings_section: SettingsSection::Account,
            search_query: String::new(),
            lyrics_open: false,
        }
    }

    fn leave_playlists(&mut self)
        ensures
            final(self).playlist_page.current is None,
            !final(self).playlist_page.viewing_recently_played,
            final(self).playlist_page.search_expanded == old(self).playlist_page.search_expanded,
            final(self).playlist_page.search_query@ == old(self).playlist_page.search_query@,
            final(self).playlist_page.pending_cover_downloads@
                == old(self).playlist_page.pending_cover_downloads@,
            final(self).playlist_page.loading == old(self).playlist_page.loading,
            final(self).playlist_page.service_songs == old(self).playlist_page.service_songs,
            final(self).current_route == old(self).current_route,
            final(self).nav_history == old(self).nav_history,
            final(self).search == old(self).search,
            final(self).discover_mode == old(self).discover_mode,
            final(self).settings_section == old(self).settings_section,
            final(self).search_query == old(self).search_query,
            final(self).lyrics_open == old(self).lyrics_open,
    {
        self.playlist_page.current = None;
        self.playlist_page.viewing_recently_played = false;
    }

    /// Brings the pages in line with a route. Returns whether the search
    /// must run again.
    pub fn sync_route_state(&mut self, route: &Route) -> (r: bool)
        ensures
            r == needs_reload(old(self).search@, route@),
            synced(*old(self), *final(self), route@),
    {
        self.lyrics_open = false;
        self.playlist_page.search_expanded = false;
        self.playlist_page.search_query = String::new();
        let reload = self.search.should_reload_search(route);
        self.current_route = route.clone();
        match route {
            Route::Home => {
                self.search.leave_search();
                self.leave_playlists();
                self.discover_mode = DiscoverViewMode::Overview;
            },
            Route::Discover(mode) => {
                self.search.leave_search();
                self.leave_playlists();
                self.discover_mode = *mode;
            },
            Route::Radio | Route::AudioEngine => {
                self.search.leave_search();
                self.leave_playlists();
            },
            Route::Settings(section) => {
                self.search.leave_search();
                self.leave_playlists();
                self.settings_section = *section;
            },
            Route::Playlist(_) | Route::NcmPlaylist(_) => {
                self.search.leave_search();
                self.playlist_page.viewing_recently_played = false;
            },
            Route::RecentlyPlayed => {
                self.search.leave_search();
                self.playlist_page.current = None;
                self.playlist_page.viewing_recently_played = true;
            },
            Route::Search { keyword, tab, page } => {
                self.leave_playlists();
                self.search.enter_search_route(keyword, *tab, *page);
                self.search_query = keyword.clone();
            },
        }
        reload
    }

    /// Shows a route: it is pushed on the history (or replaces the current
    /// entry, when going back or forward, or between tabs and pages of a
    /// search), the pages follow it, and the effect for the shell comes
    /// back. `discover_loaded` says whether the discover page has its data.
    pub fn navigate_to_route(&mut self, route: Route, push_history: bool, discover_loaded: bool) -> (r:
        RouteEffect)
        requires
            old(self).nav_history.index_in_range(),
        ensures
            r == route_effect_of(route@, needs_reload(old(self).search@, route@), discover_loaded),
            final(self).nav_history@ == (if push_history {
                old(self).nav_history@.pushed(route@)
            } else {
                old(self).nav_history@.replaced(route@)
            }),
            synced(RouterState { nav_history: final(self).nav_history, ..*old(self) }, *final(self), route@),
    {
        let entry = NavigationEntry::Route(route.clone());
        if push_history {
            self.nav_history.push(entry);
        } else {
            self.nav_history.replace_current(entry);
        }
        let reload = self.sync_route_state(&route);
        route_effect(&route, reload, discover_loaded)
    }

    /// Goes back in the history and shows that page; `None` where there is
    /// no page before the current one.
    pub fn navigate_back(&mut self, discover_loaded: bool) -> (r: Option<RouteEffect>)
        requires
            old(self).nav_history@.wf(),
        ensures
            !old(self).nav_history@.can_back() ==> r is None && final(self).nav_history@
                == old(self).nav_history@ && *final(self) == (RouterState {
                nav_history: final(self).nav_history,
                ..*old(self)
            }),
            old(self).nav_history@.can_back() ==> ({
                let h = old(self).nav_history@.backed();
                let route = h.current_entry()->0;
                &&& final(self).nav_history@ == h
                &&& final(self).current_route@ == route
                &&& r == Some(route_effect_of(route, needs_reload(old(self).search@, route), discover_loaded))
            }),
    {
        let entry = self.nav_history.go_back();
        match entry {
            Some(NavigationEntry::Route(route)) => {
                let ghost h = self.nav_history@;
                proof {
                    lemma_replace_current_entry(h, route@);
                }
                Some(self.navigate_to_route(route, false, discover_loaded))
            },
            None => {
                proof {
                    lemma_backed_has_entry(old(self).nav_history@);
                }
                None
            },
        }
    }

    /// Goes forward in the history and shows that page; `None` where there
    /// is no page after the current one.
    pub fn navigate_forward(&mut self, discover_loaded: bool) -> (r: Option<RouteEffect>)
        requires
            old(self).nav_history@.wf(),
        ensures
            !old(self).nav_history@.can_forward() ==> r is None && final(self).nav_history@
                == old(self).nav_history@ && *final(self) == (RouterState {
                nav_history: final(self).nav_history,
                ..*old(self)
            }),
            old(self).nav_history@.can_forward() ==> ({
                let h = old(self).nav_history@.forwarded();
                let route = h.current_entry()->0;
                &&& final(self).nav_history@ == h
                &&& final(self).current_route@ == route
                &&& r == Some(route_effect_of(route, needs_reload(old(self).search@, route), discover_loaded))
            }),
    {
        let n = self.nav_history.entries.len();
        assert(self.nav_history@.entries.len() == n);
        let entry = self.nav_history.go_forward();
        match entry {
            Some(NavigationEntry::Route(route)) => {
                let ghost h = self.nav_history@;
                proof {
                    lemma_replace_current_entry(h, route@);
                }
                Some(self.navigate_to_route(route, false, discover_loaded))
            },
            None => {
                proof {
                    lemma_forwarded_has_entry(old(self).nav_history@);
                }
                None
            },
        }
    }

    /// Opens a playlist of the library on the playlist page; where it
    /// opens, the lyrics page closes.
    pub fn open_local_playlist(&mut self, id: i64) -> (r: bool)
        ensures
            local_opened(old(self).playlist_page, final(self).playlist_page, id, r),
            final(self).lyrics_open == (old(self).lyrics_open && !r),
            *final(self) == (RouterState {
                playlist_page: final(self).playlist_page,
                lyrics_open: final(self).lyrics_open,
                ..*old(self)
            }),
    {
        let r = self.playlist_page.open_local_playlist(id);
        if r {
            self.lyrics_open = false;
        }
        r
    }

    /// Opens a playlist of the service on the playlist page; where it
    /// opens, the lyrics page closes. Returns the cover address to fetch,
    /// or `None` when skipped.
    pub fn open_service_playlist(&mut self, playlist_id: u64, user_playlists: &Vec<UserPlaylistEntry>)
        -> (r: Option<String>)
        requires
            playlist_id != 0x8000_0000_0000_0000u64,
        ensures
            service_opened(old(self).playlist_page, final(self).playlist_page, playlist_id, user_playlists@, r),
            final(self).lyrics_open == (old(self).lyrics_open && r is None),
            *final(self) == (RouterState {
                playlist_page: final(self).playlist_page,
                lyrics_open: final(self).lyrics_open,
                ..*old(self)
            }),
    {
        let r = self.playlist_page.open_service_playlist(playlist_id, user_playlists);
        if r.is_some() {
            self.lyrics_open = false;
        }
        r
    }

    /// The settings page shows another section (scrolled or jumped to): it
    /// becomes the section last shown, and while the settings page is the
    /// current page its route and the current history entry follow.
    pub fn sync_settings_section(&mut self, section: SettingsSection)
        requires
            old(self).nav_history.index_in_range(),
        ensures
            final(self).settings_section == section,
            (old(self).current_route@ is Settings) ==> final(self).current_route@ == RouteView::Settings(
                section,
            ) && final(self).nav_history@ == old(self).nav_history@.replaced(
                RouteView::Settings(section),
            ),
            !(old(self).current_route@ is Settings) ==> final(self).current_route == old(
                self,
            ).current_route && final(self).nav_history == old(self).nav_history,
            final(self).search == old(self).search,
            final(self).playlist_page == old(self).playlist_page,
            final(self).discover_mode == old(self).discover_mode,
            final(self).search_query == old(self).search_query,
            final(self).lyrics_open == old(self).lyrics_open,
    {
        self.settings_section = section;
        let on_settings = match &self.current_route {
            Route::Settings(_) => true,
            _ => false,
        };
        if on_settings {
            self.current_route = Route::Settings(section);
            self.nav_history.replace_current(NavigationEntry::Route(Route::Settings(section)));
        }
    }

    /// The route a request leads to, if any: a sidebar item its page (the
    /// settings at the section last shown), the settings and audio engine
    /// buttons their pages, a search the trimmed text of the search box on
    /// the songs tab (none when blank).
    pub fn route_for_request(&self, request: RouteRequest) -> (r: Option<Route>)
        ensures
            match r {
                Some(route) => request_route(request, self.settings_section, self.search_query@)
                    == Some(route@),
                None => request_route(request, self.settings_section, self.search_query@) is None,
            },
    {
        match request {
            RouteRequest::Navigate(nav) => Some(route_for_nav_item(nav, self.settings_section)),
            RouteRequest::RecentlyPlayed => Some(Route::RecentlyPlayed),
            RouteRequest::OpenSettings => Some(Route::Settings(self.settings_section)),
            RouteRequest::OpenAudioEngine => Some(Route::AudioEngine),
            RouteRequest::OpenPlaylist(id) => Some(Route::Playlist(id)),
            RouteRequest::OpenServicePlaylist(id) => Some(Route::NcmPlaylist(id)),
            RouteRequest::ScrollToSection(s) => Some(Route::Settings(s)),
            RouteRequest::SearchSubmit => search_submit_route(self.search_query.as_str()),
            RouteRequest::SeeAllRecommended => Some(Route::Discover(DiscoverViewMode::AllRecommended)),
            RouteRequest::SeeAllHot => Some(Route::Discover(DiscoverViewMode::AllHot)),
        }
    }
}

/// A request of the user that leads to a page.
#[derive(Debug, Clone, Copy, PartialEq, Eq)]
pub enum RouteRequest {
    Navigate(NavItem),
    RecentlyPlayed,
    OpenSettings,
    OpenAudioEngine,
    OpenPlaylist(i64),
    OpenServicePlaylist(u64),
    ScrollToSection(SettingsSection),
    SearchSubmit,
    SeeAllRecommended,
    SeeAllHot,
}

/// The route of a request, given the settings section last shown and the
/// text of the search box.
pub open spec fn request_route(request: RouteRequest, section: SettingsSection, query: Seq<char>) -> Option<
    RouteView,
> {
    match request {
        RouteRequest::Navigate(nav) => Some(nav_route(nav, section)),
        RouteRequest::RecentlyPlayed => Some(RouteView::RecentlyPlayed),
        RouteRequest::OpenSettings => Some(RouteView::Settings(section)),
        RouteRequest::OpenAudioEngine => Some(RouteView::AudioEngine),
        RouteRequest::OpenPlaylist(id) => Some(RouteView::Playlist(id)),
        RouteRequest::OpenServicePlaylist(id) => Some(RouteView::NcmPlaylist(id)),
        RouteRequest::ScrollToSection(s) => Some(RouteView::Settings(s)),
        RouteRequest::SearchSubmit => if trimmed(query).len() == 0 {
            None
        } else {
            Some(RouteView::Search { keyword: trimmed(query), tab: SearchTab::Songs, page: 0 })
        },
        RouteRequest::SeeAllRecommended => Some(RouteView::Discover(DiscoverViewMode::AllRecommended)),
        RouteRequest::SeeAllHot => Some(RouteView::Discover(DiscoverViewMode::AllHot)),
    }
}

proof fn lemma_replace_current_entry(h: HistoryView, e: RouteView)
    requires
        h.current_entry() == Some(e),
    ensures
        h.replaced(e) == h,
{
    match h.current {
        Some(i) => {
            assert(h.replaced(e).entries =~= h.entries);
        },
        None => {},
    }
}

proof fn lemma_backed_has_entry(h: HistoryView)
    requires
        h.wf(),
    ensures
        h.can_back() ==> h.backed().current_entry() is Some,
{
}

proof fn lemma_forwarded_has_entry(h: HistoryView)
    requires
        h.wf(),
    ensures
        h.can_forward() ==> h.forwarded().current_entry() is Some,
{
}

} // verus!
