//! State of the search page, the playlist page and the playlist dialogs,
//! and the decisions taken on them: which search results are shown, when a
//! search route needs a reload, which covers are fetched lazily, what an
//! edit of a playlist saves.

use vstd::prelude::*;
use vstd::std_specs::hash::*;

use std::collections::HashSet;

use crate::i18n::{translate, zh_text, Key};
use crate::model::{PlayListDetail, SearchResponse, SongInfo, SongInfoView, SongList, SongListView};
use crate::queue::{ncm_queue_id, queue_id_of, LibraryPlaylistView, LibraryState, QueueView};
use crate::text::{concat_str, decimal, push_decimal, push_str};
use crate::navigation::{Route, RouteView, SearchTab};
use crate::strings::{trim_text, trimmed};

verus! {

broadcast use vstd::std_specs::hash::group_hash_axioms;

/// Search results per page.
pub const PAGE_SIZE: u32 = 50;

/// Most covers requested from one look at the visible songs.
pub const COVER_BATCH: usize = 5;

/// Search results payload for async loading.
#[derive(Debug)]
pub struct SearchResultsPayload {
    pub tab: SearchTab,
    pub songs: Vec<SongInfo>,
    pub albums: Vec<SongList>,
    pub playlists: Vec<SongList>,
    pub total_count: u32,
}

/// Search results as plain values.
pub struct PayloadView {
    pub tab: SearchTab,
    pub songs: Seq<SongInfoView>,
    pub albums: Seq<SongListView>,
    pub playlists: Seq<SongListView>,
    pub total_count: u32,
}

impl View for SearchResultsPayload {
    type V = PayloadView;

    open spec fn view(&self) -> PayloadView {
        PayloadView {
            tab: self.tab,
            songs: self.songs@.map_values(|s: SongInfo| s@),
            albums: self.albums@.map_values(|s: SongList| s@),
            playlists: self.playlists@.map_values(|s: SongList| s@),
            total_count: self.total_count,
        }
    }
}

/// The results a search response gives for a tab: songs with the song
/// count; albums with the album count (artists come in the album list
/// too); playlists with the playlist count.
pub open spec fn payload_of(tab: SearchTab, r: crate::model::SearchResponseView) -> PayloadView {
    match tab {
        SearchTab::Songs => PayloadView {
            tab,
            songs: r.songs,
            albums: Seq::empty(),
            playlists: Seq::empty(),
            total_count: r.song_count,
        },
        SearchTab::Albums | SearchTab::Artists => PayloadView {
            tab,
            songs: Seq::empty(),
            albums: r.albums,
            playlists: Seq::empty(),
            total_count: r.album_count,
        },
        SearchTab::Playlists => PayloadView {
            tab,
            songs: Seq::empty(),
            albums: Seq::empty(),
            playlists: r.playlists,
            total_count: r.playlist_count,
        },
    }
}

/// Picks from a search response what the tab shows.
pub fn payload_from_response(tab: SearchTab, response: SearchResponse) -> (r: SearchResultsPayload)
    ensures
        r@ == payload_of(tab, response@),
{
    let r = match tab {
        SearchTab::Songs => SearchResultsPayload {
            tab,
            songs: response.songs,
            albums: Vec::new(),
            playlists: Vec::new(),
            total_count: response.song_count,
        },
        SearchTab::Albums | SearchTab::Artists => SearchResultsPayload {
            tab,
            songs: Vec::new(),
            albums: response.albums,
            playlists: Vec::new(),
            total_count: response.album_count,
        },
        SearchTab::Playlists => SearchResultsPayload {
            tab,
            songs: Vec::new(),
            albums: Vec::new(),
            playlists: response.playlists,
            total_count: response.playlist_count,
        },
    };
    assert(r@.songs =~= payload_of(tab, response@).songs);
    assert(r@.albums =~= payload_of(tab, response@).albums);
    assert(r@.playlists =~= payload_of(tab, response@).playlists);
    r
}

/// The offset of the first result of a page.
pub fn search_offset(page: u32) -> (r: u32)
    requires
        page * PAGE_SIZE <= u32::MAX,
    ensures
        r == page * PAGE_SIZE,
{
    page * PAGE_SIZE
}

/// Search page state.
#[derive(Debug)]
pub struct SearchPageState {
    /// Current search keyword
    pub keyword: String,
    /// Active search tab
    pub active_tab: SearchTab,
    /// Song search results
    pub songs: Vec<SongInfo>,
    /// Album search results
    pub albums: Vec<SongList>,
    /// Playlist search results
    pub playlists: Vec<SongList>,
    /// Total count for pagination
    pub total_count: u32,
    /// Current page (0-indexed)
    pub current_page: u32,
    /// Loading state
    pub loading: bool,
}

/// The search page as plain values.
pub struct SearchPageView {
    pub keyword: Seq<char>,
    pub active_tab: SearchTab,
    pub songs: Seq<SongInfoView>,
    pub albums: Seq<SongListView>,
    pub playlists: Seq<SongListView>,
    pub total_count: u32,
    pub current_page: u32,
    pub loading: bool,
}

impl View for SearchPageState {
    type V = SearchPageView;

    open spec fn view(&self) -> SearchPageView {
        SearchPageView {
            keyword: self.keyword@,
            active_tab: self.active_tab,
            songs: self.songs@.map_values(|s: SongInfo| s@),
            albums: self.albums@.map_values(|s: SongList| s@),
            playlists: self.playlists@.map_values(|s: SongList| s@),
            total_count: self.total_count,
            current_page: self.current_page,
            loading: self.loading,
        }
    }
}

/// Whether showing a route needs the search to run again: a search route
/// whose keyword, tab or page differs from what the page shows.
pub open spec fn needs_reload(s: SearchPageView, r: RouteView) -> bool {
    match r {
        RouteView::Search { keyword, tab, page } => s.keyword != keyword || s.active_tab != tab
            || s.current_page != page,
        _ => false,
    }
}

/// The search page after results arrived: the tab's list and the count
/// are replaced, loading ends.
pub open spec fn with_results(s: SearchPageView, p: PayloadView) -> SearchPageView {
    match p.tab {
        SearchTab::Songs => SearchPageView {
            loading: false,
            songs: p.songs,
            total_count: p.total_count,
            ..s
        },
        SearchTab::Artists | SearchTab::Albums => SearchPageView {
            loading: false,
            albums: p.albums,
            total_count: p.total_count,
            ..s
        },
        SearchTab::Playlists => SearchPageView {
            loading: false,
            playlists: p.playlists,
            total_count: p.total_count,
            ..s
        },
    }
}

impl SearchPageState {
    /// An empty search page on the songs tab.
    pub fn new() -> (r: Self)
        ensures
            r@.keyword.len() == 0,
            r@.active_tab == SearchTab::Songs,
            r@.songs.len() == 0,
            r@.albums.len() == 0,
            r@.playlists.len() == 0,
            r@.total_count == 0,
            r@.current_page == 0,
            !r@.loading,
    {
        SearchPageState {
            keyword: String::new(),
            active_tab: SearchTab::Songs,
            songs: Vec::new(),
            albums: Vec::new(),
            playlists: Vec::new(),
            total_count: 0,
            current_page: 0,
            loading: false,
        }
    }

    /// Whether showing a route needs the search to run again.
    pub fn should_reload_search(&self, route: &Route) -> (r: bool)
        ensures
            r == needs_reload(self@, route@),
    {
        match route {
            Route::Search { keyword, tab, page } => !(self.keyword == *keyword)
                || self.active_tab != *tab || self.current_page != *page,
            _ => false,
        }
    }

    /// Takes the parameters of a search route; a search that must run again
    /// starts loading and drops the old results. Returns whether it must run.
    pub fn enter_search_route(&mut self, keyword: &String, tab: SearchTab, page: u32) -> (r: bool)
        ensures
            r == needs_reload(old(self)@, RouteView::Search { keyword: keyword@, tab, page }),
            final(self)@.keyword == keyword@,
            final(self)@.active_tab == tab,
            final(self)@.current_page == page,
            final(self)@.loading == r,
            final(self)@.total_count == old(self)@.total_count,
            r ==> final(self)@.songs.len() == 0 && final(self)@.albums.len() == 0 && final(self)@.playlists.len() == 0,
            !r ==> final(self)@.songs == old(self)@.songs && final(self)@.albums == old(self)@.albums
                && final(self)@.playlists == old(self)@.playlists,
    {
        let reload = !(self.keyword == *keyword) || self.active_tab != tab || self.current_page
            != page;
        self.keyword = keyword.clone();
        self.active_tab = tab;
        self.current_page = page;
        self.loading = reload;
        if reload {
            self.songs.clear();
            self.albums.clear();
            self.playlists.clear();
        }
        reload
    }

    /// Leaving for a page other than search forgets the keyword.
    pub fn leave_search(&mut self)
        ensures
            final(self)@ == (SearchPageView { keyword: Seq::empty(), ..old(self)@ }),
    {
        self.keyword = String::new();
    }

    /// Results arrived.
    pub fn apply_results(&mut self, payload: SearchResultsPayload)
        ensures
            final(self)@ == with_results(old(self)@, payload@),
    {
        self.loading = false;
        match payload.tab {
            SearchTab::Songs => {
                self.songs = payload.songs;
                self.total_count = payload.total_count;
            },
            SearchTab::Artists | SearchTab::Albums => {
                self.albums = payload.albums;
                self.total_count = payload.total_count;
            },
            SearchTab::Playlists => {
                self.playlists = payload.playlists;
                self.total_count = payload.total_count;
            },
        }
    }

    /// The search failed: loading ends. Returns the error message to show.
    pub fn search_failed(&mut self, error: &str) -> (r: String)
        ensures
            final(self)@ == (SearchPageView { loading: false, ..old(self)@ }),
            r@ == "搜索失败: "@ + error@,
    {
        self.loading = false;
        concat_str("搜索失败: ", error)
    }

    /// The route of another tab of the current search, from its first page;
    /// none when that tab is shown already.
    pub fn tab_route(&self, tab: SearchTab) -> (r: Option<Route>)
        ensures
            tab == self.active_tab ==> r is None,
            tab != self.active_tab ==> (r matches Some(route) && route@ == (RouteView::Search {
                keyword: self@.keyword,
                tab,
                page: 0,
            })),
    {
        if self.active_tab == tab {
            return None;
        }
        Some(Route::Search { keyword: self.keyword.clone(), tab, page: 0 })
    }

    /// The route of another page of the current search; none when that page
    /// is shown already.
    pub fn page_route(&self, page: u32) -> (r: Option<Route>)
        ensures
            page == self.current_page ==> r is None,
            page != self.current_page ==> (r matches Some(route) && route@ == (RouteView::Search {
                keyword: self@.keyword,
                tab: self.active_tab,
                page,
            })),
    {
        if self.current_page == page {
            return None;
        }
        Some(Route::Search { keyword: self.keyword.clone(), tab: self.active_tab, page })
    }
}

/// The route a submitted search query leads to: the songs tab of the
/// trimmed query from its first page, or none for a blank query.
pub fn search_submit_route(query: &str) -> (r: Option<Route>)
    ensures
        trimmed(query@).len() == 0 ==> r is None,
        trimmed(query@).len() > 0 ==> (r matches Some(route) && route@ == (RouteView::Search {
            keyword: trimmed(query@),
            tab: SearchTab::Songs,
            page: 0,
        })),
{
    let keyword = trim_text(query);
    if keyword.as_str().unicode_len() == 0 {
        None
    } else {
        Some(Route::Search { keyword, tab: SearchTab::Songs, page: 0 })
    }
}

/// Entering a search route with the page's own parameters needs no reload.
pub proof fn lemma_same_search_no_reload(s: SearchPageView)
    ensures
        !needs_reload(
            s,
            RouteView::Search { keyword: s.keyword, tab: s.active_tab, page: s.current_page },
        ),
{
}

/// The playlist shown on the playlist page, as far as its decisions go.
#[derive(Debug)]
pub struct PlaylistSummary {
    /// Local playlists have their library id, playlists of the service
    /// their id negated.
    pub id: i64,
    pub name: String,
    pub description: Option<String>,
    pub cover_path: Option<String>,
    pub owner: String,
    pub creator_id: u64,
    pub song_count: u32,
    pub total_duration: String,
    pub is_subscribed: bool,
}

/// A song row of the playlist page, as far as cover loading goes.
#[derive(Debug)]
pub struct CoverCandidate {
    pub id: i64,
    pub pic_url: Option<String>,
    /// The cover image is loaded already.
    pub has_cover: bool,
}

/// Playlist page state.
#[derive(Debug)]
pub struct PlaylistPageState {
    pub current: Option<PlaylistSummary>,
    pub viewing_recently_played: bool,
    pub search_expanded: bool,
    pub search_query: String,
    /// Song ids whose covers are being downloaded (so they are not asked
    /// for twice).
    pub pending_cover_downloads: HashSet<i64>,
    /// A playlist is being loaded.
    pub loading: bool,
    /// The songs of the playlist of the service loaded last, kept for
    /// playing it or one of its songs.
    pub service_songs: Vec<SongInfo>,
}

/// Whether a song row wants its cover fetched: it has none, it has a
/// picture address, and no download for it is pending.
pub open spec fn wants_cover(c: CoverCandidate, pending: Set<i64>) -> bool {
    !c.has_cover && (c.pic_url matches Some(u) && u@.len() > 0) && !pending.contains(c.id)
}

/// The rows of a range that want their covers, in order, at most a batch.
pub open spec fn wanted_covers(rows: Seq<CoverCandidate>, pending: Set<i64>) -> Seq<(i64, Seq<char>)>
    decreases rows.len(),
{
    if rows.len() == 0 {
        Seq::empty()
    } else {
        let before = wanted_covers(rows.drop_last(), pending);
        let c = rows.last();
        if wants_cover(c, pending) {
            before.push((c.id, c.pic_url->0@))
        } else {
            before
        }
    }
}

pub open spec fn request_view(r: (i64, String)) -> (i64, Seq<char>) {
    (r.0, r.1@)
}

/// A cover request wants a download: a picture address, no download pending
/// and no cached file (`cached`, from the disk).
pub open spec fn wants_download(r: (i64, Seq<char>), cached: bool, pending: Set<i64>) -> bool {
    !pending.contains(r.0) && r.1.len() > 0 && !cached
}

/// The requests that want downloads, in order.
pub open spec fn wanted_downloads(
    reqs: Seq<(i64, Seq<char>)>,
    cached: Seq<bool>,
    pending: Set<i64>,
) -> Seq<(i64, Seq<char>)>
    decreases reqs.len(),
{
    if reqs.len() == 0 {
        Seq::empty()
    } else {
        let before = wanted_downloads(reqs.drop_last(), cached.take(reqs.len() - 1), pending);
        if wants_download(reqs.last(), cached[reqs.len() - 1], pending) {
            before.push(reqs.last())
        } else {
            before
        }
    }
}

impl PlaylistPageState {
    /// No playlist shown.
    pub fn new() -> (r: Self)
        ensures
            r.current is None,
            !r.viewing_recently_played,
            !r.search_expanded,
            r.search_query@.len() == 0,
            r.pending_cover_downloads@ == Set::<i64>::empty(),
            !r.loading,
            r.service_songs@.len() == 0,
    {
        PlaylistPageState {
            current: None,
            viewing_recently_played: false,
            search_expanded: false,
            search_query: String::new(),
            pending_cover_downloads: HashSet::new(),
            loading: false,
            service_songs: Vec::new(),
        }
    }

    /// Collapses the in-playlist search and leaves recently played.
    pub fn reset(&mut self)
        ensures
            final(self).service_songs == old(self).service_songs,
            !final(self).search_expanded,
            final(self).search_query@.len() == 0,
            !final(self).viewing_recently_played,
            final(self).current == old(self).current,
            final(self).pending_cover_downloads@ == old(self).pending_cover_downloads@,
            final(self).loading == old(self).loading,
    {
        self.search_expanded = false;
        self.search_query = String::new();
        self.viewing_recently_played = false;
    }

    /// Opens or closes the in-playlist search; closing clears the query.
    /// Returns whether it is open.
    pub fn toggle_search(&mut self) -> (r: bool)
        ensures
            final(self).service_songs == old(self).service_songs,
            r == !old(self).search_expanded,
            final(self).search_expanded == r,
            !r ==> final(self).search_query@.len() == 0,
            r ==> final(self).search_query@ == old(self).search_query@,
    {
        self.search_expanded = !self.search_expanded;
        if !self.search_expanded {
            self.search_query = String::new();
        }
        self.search_expanded
    }

    /// The search field lost the focus: an empty search collapses.
    pub fn search_blur(&mut self)
        ensures
            final(self).service_songs == old(self).service_songs,
            final(self).search_expanded == (old(self).search_expanded && old(self).search_query@.len() > 0),
            final(self).search_query@ == old(self).search_query@,
    {
        if self.search_query.as_str().unicode_len() == 0 && self.search_expanded {
            self.search_expanded = false;
        }
    }

    /// A playlist was deleted: it is no longer shown.
    pub fn playlist_deleted(&mut self, id: i64)
        ensures
            final(self).service_songs == old(self).service_songs,
            (old(self).current matches Some(p) && p.id == id) ==> final(self).current is None,
            !(old(self).current matches Some(p) && p.id == id) ==> final(self).current == old(self).current,
    {
        let shown = match &self.current {
            Some(p) => p.id == id,
            None => false,
        };
        if shown {
            self.current = None;
        }
    }

    /// The subscription of a playlist changed: the shown one follows.
    pub fn subscription_changed(&mut self, id: i64, subscribed: bool)
        ensures
            final(self).service_songs == old(self).service_songs,
            (old(self).current matches Some(p) && p.id == id) ==> (final(self).current matches Some(
                q,
            ) && q.is_subscribed == subscribed && q.id == id),
            !(old(self).current matches Some(p) && p.id == id) ==> final(self).current == old(self).current,
    {
        if let Some(p) = &mut self.current {
            if p.id == id {
                p.is_subscribed = subscribed;
            }
        }
    }

    /// The visible song rows that want covers, at most a batch of them: rows
    /// without a cover, with a picture address, not pending. Only playlists
    /// of the service (negative id) load covers lazily.
    pub fn visible_covers_to_request(&self, visible: &Vec<CoverCandidate>) -> (r: Option<
        Vec<(i64, String)>,
    >)
        ensures
            !(self.current matches Some(p) && p.id < 0) ==> r is None,
            (self.current matches Some(p) && p.id < 0) ==> ({
                let wanted = wanted_covers(visible@, self.pending_cover_downloads@);
                if wanted.len() == 0 {
                    r is None
                } else {
                    r matches Some(v) && v@.map_values(|x: (i64, String)| request_view(x))
                        == wanted.take(
                        if wanted.len() < COVER_BATCH {
                            wanted.len() as int
                        } else {
                            COVER_BATCH as int
                        },
                    )
                }
            }),
    {
        let lazy = match &self.current {
            Some(p) => p.id < 0,
            None => false,
        };
        if !lazy {
            return None;
        }
        let ghost pending = self.pending_cover_downloads@;
        let mut out: Vec<(i64, String)> = Vec::new();
        let mut i: usize = 0;
        while i < visible.len()
            invariant
                i <= visible@.len(),
                pending == self.pending_cover_downloads@,
                out@.map_values(|x: (i64, String)| request_view(x)) == wanted_covers(
                    visible@.take(i as int),
                    pending,
                ),
            decreases visible.len() - i,
        {
            let c = &visible[i];
            assert(visible@.take(i + 1).drop_last() =~= visible@.take(i as int));
            if !c.has_cover && !self.pending_cover_downloads.contains(&c.id) {
                if let Some(u) = &c.pic_url {
                    if u.as_str().unicode_len() > 0 {
                        let ghost before = out@;
                        out.push((c.id, u.clone()));
                        assert(out@.map_values(|x: (i64, String)| request_view(x)) =~= before.map_values(
                            |x: (i64, String)| request_view(x),
                        ).push((c.id, u@)));
                    }
                }
            }
            i = i + 1;
        }
        assert(visible@.take(visible@.len() as int) =~= visible@);
        if out.len() == 0 {
            return None;
        }
        let ghost all = out@.map_values(|x: (i64, String)| request_view(x));
        out.truncate(COVER_BATCH);
        assert(out@.map_values(|x: (i64, String)| request_view(x)) =~= all.take(
            if all.len() < COVER_BATCH {
                all.len() as int
            } else {
                COVER_BATCH as int
            },
        ));
        Some(out)
    }

    /// Picks, from cover requests, those that want a download (`cached`
    /// says, per request, whether its file is on disk already), and marks
    /// them pending.
    pub fn take_cover_requests(&mut self, requests: &Vec<(i64, String)>, cached: &Vec<bool>) -> (r:
        Vec<(i64, String)>)
        requires
            cached@.len() == requests@.len(),
        ensures
            final(self).service_songs == old(self).service_songs,
            r@.map_values(|x: (i64, String)| request_view(x)) == wanted_downloads(
                requests@.map_values(|x: (i64, String)| request_view(x)),
                cached@,
                old(self).pending_cover_downloads@,
            ),
            final(self).pending_cover_downloads@ == old(self).pending_cover_downloads@ + r@.map_values(
                |x: (i64, String)| x.0,
            ).to_set(),
            final(self).current == old(self).current,
    {
        let ghost pending = self.pending_cover_downloads@;
        let ghost reqs = requests@.map_values(|x: (i64, String)| request_view(x));
        let mut out: Vec<(i64, String)> = Vec::new();
        let mut i: usize = 0;
        while i < requests.len()
            invariant
                i <= requests@.len(),
                cached@.len() == requests@.len(),
                pending == old(self).pending_cover_downloads@,
                self.pending_cover_downloads@ == pending,
                self.current == old(self).current,
                self.service_songs == old(self).service_songs,
                reqs == requests@.map_values(|x: (i64, String)| request_view(x)),
                out@.map_values(|x: (i64, String)| request_view(x)) == wanted_downloads(
                    reqs.take(i as int),
                    cached@.take(i as int),
                    pending,
                ),
            decreases requests.len() - i,
        {
            let (id, url) = (requests[i].0, &requests[i].1);
            assert(reqs.take(i + 1).drop_last() =~= reqs.take(i as int));
            assert(cached@.take(i + 1).take(i as int) =~= cached@.take(i as int));
            if !self.pending_cover_downloads.contains(&id) && url.as_str().unicode_len() > 0
                && !cached[i] {
                let ghost before = out@;
                out.push((id, url.clone()));
                assert(out@.map_values(|x: (i64, String)| request_view(x)) =~= before.map_values(
                    |x: (i64, String)| request_view(x),
                ).push(reqs[i as int]));
            }
            i = i + 1;
        }
        assert(reqs.take(requests@.len() as int) =~= reqs);
        assert(cached@.take(requests@.len() as int) =~= cached@);
        let mut k: usize = 0;
        while k < out.len()
            invariant
                k <= out@.len(),
                self.pending_cover_downloads@ == pending + out@.take(k as int).map_values(
                    |x: (i64, String)| x.0,
                ).to_set(),
                self.current == old(self).current,
                self.service_songs == old(self).service_songs,
            decreases out.len() - k,
        {
            let id = out[k].0;
            self.pending_cover_downloads.insert(id);
            proof {
                let ids = out@.take(k as int).map_values(|x: (i64, String)| x.0);
                assert(out@.take(k + 1).map_values(|x: (i64, String)| x.0) =~= ids.push(id));
                ids.lemma_push_to_set_commute(id);
                assert(self.pending_cover_downloads@ =~= pending + out@.take(k + 1).map_values(
                    |x: (i64, String)| x.0,
                ).to_set());
            }
            k = k + 1;
        }
        assert(out@.take(out@.len() as int) =~= out@);
        out
    }
}

/// A playlist of the signed-in user, as the home page lists it.
#[derive(Debug, Clone)]
pub struct UserPlaylistEntry {
    pub id: u64,
    pub name: String,
    pub author: String,
    pub cover_img_url: String,
}

/// The first listed playlist with an id.
pub open spec fn find_entry(entries: Seq<UserPlaylistEntry>, id: u64) -> Option<UserPlaylistEntry>
    decreases entries.len(),
{
    if entries.len() == 0 {
        None
    } else if entries[0].id == id {
        Some(entries[0])
    } else {
        find_entry(entries.drop_first(), id)
    }
}

/// Name, owner and cover address shown while a playlist of the service
/// loads: for the daily recommendation (id 0) its fixed texts, else what the
/// user's playlist list says of it, else a loading text.
pub open spec fn skeleton_of(playlist_id: u64, entries: Seq<UserPlaylistEntry>) -> (
    Seq<char>,
    Seq<char>,
    Seq<char>,
) {
    if playlist_id == 0 {
        (zh_text(Key::DiscoverDailyRecommend), zh_text(Key::DiscoverDailyRecommendCreator), seq![])
    } else {
        match find_entry(entries, playlist_id) {
            Some(e) => (e.name@, e.author@, e.cover_img_url@),
            None => (zh_text(Key::Loading), seq![], seq![]),
        }
    }
}

/// Whether the playlist page shows a playlist with this id.
pub open spec fn shows_playlist(s: PlaylistPageState, id: int) -> bool {
    s.current matches Some(p) && p.id == id
}

/// Whole seconds of a song list: each song's length in milliseconds, cut
/// to whole seconds, summed.
pub open spec fn total_secs(songs: Seq<SongInfo>) -> nat
    decreases songs.len(),
{
    if songs.len() == 0 {
        0
    } else {
        total_secs(songs.drop_last()) + (songs.last().duration / 1000) as nat
    }
}

proof fn lemma_total_secs_prefix(songs: Seq<SongInfo>, i: int)
    requires
        0 <= i <= songs.len(),
    ensures
        total_secs(songs.take(i)) <= total_secs(songs),
    decreases songs.len() - i,
{
    if i < songs.len() {
        lemma_total_secs_prefix(songs, i + 1);
        assert(songs.take(i + 1).drop_last() =~= songs.take(i));
    } else {
        assert(songs.take(i) =~= songs);
    }
}

/// The playing time of a playlist as its page shows it: about so many
/// hours and minutes once it reaches an hour, else minutes.
pub open spec fn duration_text(secs: nat) -> Seq<char> {
    let mins = secs / 60;
    if mins / 60 > 0 {
        "约 "@ + decimal(mins / 60) + " 小时 "@ + decimal(mins % 60) + " 分钟"@
    } else {
        decimal(mins) + " 分钟"@
    }
}

/// The playing time of a song list, as text.
pub fn playlist_duration_text(songs: &Vec<SongInfo>) -> (r: String)
    requires
        total_secs(songs@) <= u64::MAX,
    ensures
        r@ == duration_text(total_secs(songs@)),
{
    let mut total: u64 = 0;
    let mut i: usize = 0;
    while i < songs.len()
        invariant
            i <= songs@.len(),
            total == total_secs(songs@.take(i as int)),
            total_secs(songs@) <= u64::MAX,
        decreases songs.len() - i,
    {
        proof {
            lemma_total_secs_prefix(songs@, i + 1);
            assert(songs@.take(i + 1).drop_last() =~= songs@.take(i as int));
        }
        total = total + songs[i].duration / 1000;
        i = i + 1;
    }
    assert(songs@.take(songs@.len() as int) =~= songs@);
    let mins = total / 60;
    let hours = mins / 60;
    let mut s = String::new();
    if hours > 0 {
        push_str(&mut s, "约 ");
        push_decimal(&mut s, hours);
        push_str(&mut s, " 小时 ");
        push_decimal(&mut s, mins % 60);
        push_str(&mut s, " 分钟");
    } else {
        push_decimal(&mut s, mins);
        push_str(&mut s, " 分钟");
    }
    s
}

/// The file-name stem of a playlist creator's cached avatar.
pub open spec fn creator_avatar_stem_of(playlist_id: u64) -> Seq<char> {
    "playlist_creator_"@ + decimal(playlist_id as nat)
}

/// The file-name stem of a playlist creator's cached avatar.
pub fn creator_avatar_stem(playlist_id: u64) -> (r: String)
    ensures
        r@ == creator_avatar_stem_of(playlist_id),
{
    let mut s = String::new();
    push_str(&mut s, "playlist_creator_");
    push_decimal(&mut s, playlist_id);
    s
}

impl PlaylistPageState {
    /// Opens a playlist of the library. Skipped while it is shown already;
    /// else the page is reset and loading starts. Returns whether it
    /// started.
    pub fn open_local_playlist(&mut self, id: i64) -> (r: bool)
        ensures
            local_opened(*old(self), *final(self), id, r),
    {
        let shown = match &self.current {
            Some(p) => p.id == id,
            None => false,
        };
        if shown {
            return false;
        }
        self.reset();
        self.loading = true;
        true
    }

    /// Opens a playlist of the service (id 0: the daily recommendation).
    /// Skipped while that playlist is shown already (the daily one is
    /// always reloaded) or while a playlist is loading; else the page is
    /// reset, shows a skeleton of the playlist under its page id, and
    /// loading starts. Returns the cover address to fetch (empty: none),
    /// or `None` when skipped.
    pub fn open_service_playlist(&mut self, playlist_id: u64, user_playlists: &Vec<UserPlaylistEntry>) -> (r:
        Option<String>)
        requires
            playlist_id != 0x8000_0000_0000_0000u64,
        ensures
            service_opened(*old(self), *final(self), playlist_id, user_playlists@, r),
    {
        let page_id = ncm_queue_id(playlist_id);
        let shown = match &self.current {
            Some(p) => p.id == page_id,
            None => false,
        };
        if (playlist_id != 0 && shown) || self.loading {
            return None;
        }
        let (name, owner, cover) = if playlist_id == 0 {
            (
                translate(Key::DiscoverDailyRecommend).to_owned(),
                translate(Key::DiscoverDailyRecommendCreator).to_owned(),
                String::new(),
            )
        } else {
            let n = user_playlists.len();
            let mut i: usize = 0;
            assert(user_playlists@.skip(0) =~= user_playlists@);
            while i < n && user_playlists[i].id != playlist_id
                invariant
                    n == user_playlists@.len(),
                    i <= n,
                    find_entry(user_playlists@, playlist_id) == find_entry(
                        user_playlists@.skip(i as int),
                        playlist_id,
                    ),
                decreases n - i,
            {
                assert(user_playlists@.skip(i as int).drop_first() =~= user_playlists@.skip(i + 1));
                i = i + 1;
            }
            if i < n {
                let e = &user_playlists[i];
                (e.name.clone(), e.author.clone(), e.cover_img_url.clone())
            } else {
                assert(user_playlists@.skip(n as int) =~= Seq::<UserPlaylistEntry>::empty());
                (translate(Key::Loading).to_owned(), String::new(), String::new())
            }
        };
        self.reset();
        self.current = Some(
            PlaylistSummary {
                id: page_id,
                name,
                description: None,
                cover_path: None,
                owner,
                creator_id: 0,
                song_count: 0,
                total_duration: String::new(),
                is_subscribed: false,
            },
        );
        self.loading = true;
        Some(cover)
    }

    /// The details of a playlist of the service arrived. The shown playlist,
    /// if it is that one, takes its name, its description (none when
    /// blank), its owner (the service's name when blank), creator, song
    /// count, playing time and subscription. The playlist's songs are kept
    /// for playing, whichever playlist is shown. Returns the file-name stem
    /// of the creator's avatar.
    pub fn service_detail_loaded(&mut self, detail: PlayListDetail) -> (r: String)
        requires
            detail.id != 0x8000_0000_0000_0000u64,
            total_secs(detail.songs@) <= u64::MAX,
        ensures
            r@ == creator_avatar_stem_of(detail.id),
            final(self).service_songs@ == detail.songs@,
            final(self).loading == old(self).loading,
            final(self).search_expanded == old(self).search_expanded,
            final(self).search_query@ == old(self).search_query@,
            final(self).viewing_recently_played == old(self).viewing_recently_played,
            final(self).pending_cover_downloads@ == old(self).pending_cover_downloads@,
            !shows_playlist(*old(self), queue_id_of(detail.id)) ==> final(self).current
                == old(self).current,
            shows_playlist(*old(self), queue_id_of(detail.id)) ==> (final(self).current matches Some(
                p,
            ) && old(self).current matches Some(q) && p.id == q.id && p.cover_path == q.cover_path
                && p.name@ == detail.name@ && (if detail.description@.len() == 0 {
                p.description is None
            } else {
                p.description matches Some(d) && d@ == detail.description@
            }) && (if detail.creator_nickname@.len() == 0 {
                p.owner@ == zh_text(Key::DiscoverDailyRecommendCreator)
            } else {
                p.owner@ == detail.creator_nickname@
            }) && p.creator_id == detail.creator_id && p.song_count == detail.songs@.len() as u32
                && p.total_duration@ == duration_text(total_secs(detail.songs@))
                && p.is_subscribed == detail.subscribed),
    {
        let page_id = ncm_queue_id(detail.id);
        let total_duration = playlist_duration_text(&detail.songs);
        if let Some(p) = &mut self.current {
            if p.id == page_id {
                p.name = detail.name.clone();
                p.description = if detail.description.as_str().unicode_len() == 0 {
                    None
                } else {
                    Some(detail.description.clone())
                };
                p.owner = if detail.creator_nickname.as_str().unicode_len() == 0 {
                    translate(Key::DiscoverDailyRecommendCreator).to_owned()
                } else {
                    detail.creator_nickname.clone()
                };
                p.creator_id = detail.creator_id;
                p.song_count = detail.songs.len() as u32;
                p.total_duration = total_duration;
                p.is_subscribed = detail.subscribed;
            }
        }
        let stem = creator_avatar_stem(detail.id);
        self.service_songs = detail.songs;
        stem
    }

    /// The cover of a playlist was downloaded: the shown playlist, if it is
    /// that one, takes it.
    pub fn cover_loaded(&mut self, playlist_id: i64, path: &String)
        ensures
            final(self).service_songs == old(self).service_songs,
            !shows_playlist(*old(self), playlist_id as int) ==> *final(self) == *old(self),
            shows_playlist(*old(self), playlist_id as int) ==> (final(self).current matches Some(p)
                && old(self).current matches Some(q) && p.cover_path matches Some(c) && c@ == path@
                && p == (PlaylistSummary { cover_path: p.cover_path, ..q })),
            final(self).loading == old(self).loading,
            final(self).pending_cover_downloads == old(self).pending_cover_downloads,
    {
        if let Some(p) = &mut self.current {
            if p.id == playlist_id {
                p.cover_path = Some(path.clone());
            }
        }
    }

    /// Covers of song rows arrived: while a playlist is shown, their
    /// downloads are no longer pending.
    pub fn song_covers_loaded(&mut self, covers: &Vec<(i64, String)>)
        ensures
            final(self).service_songs == old(self).service_songs,
            old(self).current is None ==> final(self).pending_cover_downloads@
                == old(self).pending_cover_downloads@,
            old(self).current is Some ==> final(self).pending_cover_downloads@
                == old(self).pending_cover_downloads@.difference(
                covers@.map_values(|c: (i64, String)| c.0).to_set(),
            ),
            final(self).current == old(self).current,
            final(self).loading == old(self).loading,
            final(self).search_expanded == old(self).search_expanded,
            final(self).search_query == old(self).search_query,
            final(self).viewing_recently_played == old(self).viewing_recently_played,
    {
        if self.current.is_none() {
            return;
        }
        let ghost pending = self.pending_cover_downloads@;
        let mut i: usize = 0;
        while i < covers.len()
            invariant
                i <= covers@.len(),
                self.pending_cover_downloads@ == pending.difference(
                    covers@.take(i as int).map_values(|c: (i64, String)| c.0).to_set(),
                ),
                self.current == old(self).current,
                self.service_songs == old(self).service_songs,
                self.loading == old(self).loading,
                self.search_expanded == old(self).search_expanded,
                self.search_query == old(self).search_query,
                self.viewing_recently_played == old(self).viewing_recently_played,
            decreases covers.len() - i,
        {
            let id = covers[i].0;
            self.pending_cover_downloads.remove(&id);
            proof {
                let ids = covers@.take(i as int).map_values(|c: (i64, String)| c.0);
                assert(covers@.take(i + 1).map_values(|c: (i64, String)| c.0) =~= ids.push(id));
                ids.lemma_push_to_set_commute(id);
                assert(self.pending_cover_downloads@ =~= pending.difference(
                    covers@.take(i + 1).map_values(|c: (i64, String)| c.0).to_set(),
                ));
            }
            i = i + 1;
        }
        assert(covers@.take(covers@.len() as int) =~= covers@);
    }

    /// The songs of the shown playlist are ready: loading ends.
    pub fn songs_ready(&mut self)
        ensures
            final(self).service_songs == old(self).service_songs,
            !final(self).loading,
            final(self).current == old(self).current,
            final(self).search_expanded == old(self).search_expanded,
            final(self).search_query@ == old(self).search_query@,
            final(self).viewing_recently_played == old(self).viewing_recently_played,
            final(self).pending_cover_downloads@ == old(self).pending_cover_downloads@,
    {
        self.loading = false;
    }
}

/// What opening a playlist of the library does to the page `o`, giving `n`
/// and `r`: skipped while it is shown already; else the page is reset
/// (search closed and cleared, recently played left) and loading starts.
pub open spec fn local_opened(o: PlaylistPageState, n: PlaylistPageState, id: i64, r: bool) -> bool {
    &&& r == !shows_playlist(o, id as int)
    &&& !r ==> n == o
    &&& r ==> n.loading && !n.search_expanded && n.search_query@.len() == 0
        && !n.viewing_recently_played && n.current == o.current
        && n.pending_cover_downloads@ == o.pending_cover_downloads@
        && n.service_songs == o.service_songs
}

/// What opening a playlist of the service does to the page `o`, giving `n`
/// and `r`: skipped while it is shown already (the daily recommendation,
/// id 0, is always reloaded) or while a playlist is loading; else the page
/// is reset, shows the skeleton of the playlist under its page id, loading
/// starts, and the cover address to fetch comes back.
pub open spec fn service_opened(
    o: PlaylistPageState,
    n: PlaylistPageState,
    playlist_id: u64,
    entries: Seq<UserPlaylistEntry>,
    r: Option<String>,
) -> bool {
    let skipped = (playlist_id != 0 && shows_playlist(o, queue_id_of(playlist_id))) || o.loading;
    &&& skipped ==> r is None && n == o
    &&& !skipped ==> ({
        let (name, owner, cover) = skeleton_of(playlist_id, entries);
        &&& r matches Some(c) && c@ == cover
        &&& n.loading
        &&& !n.search_expanded
        &&& n.search_query@.len() == 0
        &&& !n.viewing_recently_played
        &&& n.pending_cover_downloads@ == o.pending_cover_downloads@
        &&& n.service_songs == o.service_songs
        &&& n.current matches Some(p) && p.id == queue_id_of(playlist_id) && p.name@ == name
            && p.owner@ == owner && p.description is None && p.cover_path is None
            && p.creator_id == 0 && p.song_count == 0 && p.total_duration@.len() == 0
            && !p.is_subscribed
    })
}

/// A playlist of the library was deleted: it leaves the library's playlist
/// list (the others keep their order) and, where it is shown, the playlist
/// page. Returns the message that confirms it.
pub fn library_playlist_deleted(library: &mut LibraryState, page: &mut PlaylistPageState, id: i64)
    -> (r: String)
    ensures
        final(library)@ == (QueueView {
            playlists: old(library)@.playlists.filter(|p: LibraryPlaylistView| p.id != id),
            ..old(library)@
        }),
        (old(page).current matches Some(p) && p.id == id) ==> (final(page).current is None),
        !(old(page).current matches Some(p) && p.id == id) ==> final(page).current == old(page).current,
        final(page).service_songs == old(page).service_songs,
        r@ == "歌单已删除"@,
{
    library.remove_playlist(id);
    page.playlist_deleted(id);
    "歌单已删除".to_owned()
}

/// The edit that saving the playlist dialog stores: a blank description
/// is stored as none.
#[derive(Debug)]
pub struct PlaylistEdit {
    pub playlist_id: i64,
    pub name: String,
    pub description: Option<String>,
    pub cover: Option<String>,
}

/// State of the playlist dialogs (edit and delete).
#[derive(Debug)]
pub struct DialogState {
    pub import_open: bool,
    pub edit_open: bool,
    pub editing_playlist_id: Option<i64>,
    pub edit_name: String,
    pub edit_description: String,
    pub edit_cover: Option<String>,
    pub delete_pending_id: Option<i64>,
}

pub open spec fn opt_text(o: Option<String>) -> Option<Seq<char>> {
    match o {
        Some(s) => Some(s@),
        None => None,
    }
}

fn clone_opt(o: &Option<String>) -> (r: Option<String>)
    ensures
        opt_text(r) == opt_text(*o),
{
    match o {
        Some(s) => Some(s.clone()),
        None => None,
    }
}

impl DialogState {
    /// All dialogs closed.
    pub fn new() -> (r: Self)
        ensures
            !r.import_open,
            !r.edit_open,
            r.editing_playlist_id is None,
            r.edit_name@.len() == 0,
            r.edit_description@.len() == 0,
            r.edit_cover is None,
            r.delete_pending_id is None,
    {
        DialogState {
            import_open: false,
            edit_open: false,
            editing_playlist_id: None,
            edit_name: String::new(),
            edit_description: String::new(),
            edit_cover: None,
            delete_pending_id: None,
        }
    }

    /// Asks to confirm the deletion of a playlist.
    pub fn request_delete(&mut self, id: i64)
        ensures
            final(self).delete_pending_id == Some(id),
    {
        self.delete_pending_id = Some(id);
    }

    /// The deletion was confirmed: returns the playlist to delete, if one
    /// was asked about, and forgets it.
    pub fn confirm_delete(&mut self) -> (r: Option<i64>)
        ensures
            r == old(self).delete_pending_id,
            final(self).delete_pending_id is None,
    {
        self.delete_pending_id.take()
    }

    /// The deletion was cancelled.
    pub fn cancel_delete(&mut self)
        ensures
            final(self).delete_pending_id is None,
    {
        self.delete_pending_id = None;
    }

    /// Opens the edit dialog on the shown playlist, filled with its name,
    /// description and cover; nothing happens with no playlist shown.
    pub fn open_edit(&mut self, id: i64, shown: &Option<PlaylistSummary>)
        ensures
            shown is None ==> !final(self).edit_open == !old(self).edit_open
                && final(self).editing_playlist_id == old(self).editing_playlist_id,
            shown matches Some(p) ==> final(self).edit_open && final(self).editing_playlist_id
                == Some(id) && final(self).edit_name@ == p.name@ && final(self).edit_description@
                == (match p.description {
                Some(d) => d@,
                None => Seq::empty(),
            }) && opt_text(final(self).edit_cover) == opt_text(p.cover_path),
    {
        if let Some(p) = shown {
            self.edit_open = true;
            self.editing_playlist_id = Some(id);
            self.edit_name = p.name.clone();
            self.edit_description = match &p.description {
                Some(d) => d.clone(),
                None => String::new(),
            };
            self.edit_cover = clone_opt(&p.cover_path);
        }
    }

    /// Closes the edit dialog without saving.
    pub fn close_edit(&mut self)
        ensures
            !final(self).edit_open,
            final(self).editing_playlist_id is None,
    {
        self.edit_open = false;
        self.editing_playlist_id = None;
    }

    /// Saves the edit: the dialog closes and the edit to store is returned,
    /// if a playlist was being edited.
    pub fn save_edits(&mut self) -> (r: Option<PlaylistEdit>)
        ensures
            old(self).editing_playlist_id is None ==> r is None && final(self).edit_open == old(self).edit_open,
            old(self).editing_playlist_id matches Some(id) ==> (r matches Some(e) && e.playlist_id
                == id && e.name@ == old(self).edit_name@ && opt_text(e.description) == (if old(self).edit_description@.len() == 0 {
                None
            } else {
                Some(old(self).edit_description@)
            }) && opt_text(e.cover) == opt_text(old(self).edit_cover) && !final(self).edit_open
                && final(self).editing_playlist_id is None),
    {
        match self.editing_playlist_id {
            None => None,
            Some(id) => {
                let description = if self.edit_description.as_str().unicode_len() == 0 {
                    None
                } else {
                    Some(self.edit_description.clone())
                };
                let edit = PlaylistEdit {
                    playlist_id: id,
                    name: self.edit_name.clone(),
                    description,
                    cover: clone_opt(&self.edit_cover),
                };
                self.edit_open = false;
                self.editing_playlist_id = None;
                Some(edit)
            },
        }
    }
}

} // verus!
