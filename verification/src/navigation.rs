//! Routes of the application and the back/forward navigation history.

use vstd::prelude::*;

use crate::model::SearchType;

verus! {

/// Settings sections for navigation.
#[derive(Debug, Clone, Copy, PartialEq, Eq, Structural)]
pub enum SettingsSection {
    Account,
    Playback,
    Display,
    System,
    Network,
    Storage,
    Shortcuts,
    About,
}

/// Discover page view mode.
#[derive(Debug, Clone, Copy, PartialEq, Eq, Structural)]
pub enum DiscoverViewMode {
    /// Default view showing both sections with limited items
    Overview,
    /// Full view of recommended playlists
    AllRecommended,
    /// Full view of hot playlists with infinite scroll
    AllHot,
}

impl Default for DiscoverViewMode {
    fn default() -> (r: Self)
        ensures
            r == DiscoverViewMode::Overview,
    {
        DiscoverViewMode::Overview
    }
}

/// Search tab types.
#[derive(Debug, Clone, Copy, PartialEq, Eq, Structural)]
pub enum SearchTab {
    Songs,
    Artists,
    Albums,
    Playlists,
}

impl Default for SearchTab {
    fn default() -> (r: Self)
        ensures
            r == SearchTab::Songs,
    {
        SearchTab::Songs
    }
}

impl SearchTab {
    /// The search type code of the web API that this tab asks for.
    pub fn to_search_type(&self) -> (r: SearchType)
        ensures
            r == search_type_of_tab(*self),
    {
        match self {
            SearchTab::Songs => SearchType::Songs,
            SearchTab::Artists => SearchType::Artists,
            SearchTab::Albums => SearchType::Albums,
            SearchTab::Playlists => SearchType::Playlists,
        }
    }
}

/// The search type that a tab stands for: each tab its own type.
pub open spec fn search_type_of_tab(tab: SearchTab) -> SearchType {
    match tab {
        SearchTab::Songs => SearchType::Songs,
        SearchTab::Artists => SearchType::Artists,
        SearchTab::Albums => SearchType::Albums,
        SearchTab::Playlists => SearchType::Playlists,
    }
}

/// Items of the sidebar's main navigation.
#[derive(Debug, Clone, Copy, PartialEq, Eq, Structural)]
pub enum NavItem {
    Home,
    Discover,
    Radio,
    Settings,
    AudioEngine,
}

/// Unified route model for page rendering and navigation history.
#[derive(Debug)]
pub enum Route {
    Home,
    Discover(DiscoverViewMode),
    Radio,
    Settings(SettingsSection),
    AudioEngine,
    Playlist(i64),
    NcmPlaylist(u64),
    RecentlyPlayed,
    Search { keyword: String, tab: SearchTab, page: u32 },
}

/// A route with its search keyword taken as a sequence of characters.
pub enum RouteView {
    Home,
    Discover(DiscoverViewMode),
    Radio,
    Settings(SettingsSection),
    AudioEngine,
    Playlist(i64),
    NcmPlaylist(u64),
    RecentlyPlayed,
    Search { keyword: Seq<char>, tab: SearchTab, page: u32 },
}

impl View for Route {
    type V = RouteView;

    open spec fn view(&self) -> RouteView {
        match self {
            Route::Home => RouteView::Home,
            Route::Discover(m) => RouteView::Discover(*m),
            Route::Radio => RouteView::Radio,
            Route::Settings(s) => RouteView::Settings(*s),
            Route::AudioEngine => RouteView::AudioEngine,
            Route::Playlist(id) => RouteView::Playlist(*id),
            Route::NcmPlaylist(id) => RouteView::NcmPlaylist(*id),
            Route::RecentlyPlayed => RouteView::RecentlyPlayed,
            Route::Search { keyword, tab, page } => RouteView::Search {
                keyword: keyword@,
                tab: *tab,
                page: *page,
            },
        }
    }
}

impl Clone for Route {
    fn clone(&self) -> (r: Self)
        ensures
            r@ == self@,
    {
        match self {
            Route::Home => Route::Home,
            Route::Discover(m) => Route::Discover(*m),
            Route::Radio => Route::Radio,
            Route::Settings(s) => Route::Settings(*s),
            Route::AudioEngine => Route::AudioEngine,
            Route::Playlist(id) => Route::Playlist(*id),
            Route::NcmPlaylist(id) => Route::NcmPlaylist(*id),
            Route::RecentlyPlayed => Route::RecentlyPlayed,
            Route::Search { keyword, tab, page } => Route::Search {
                keyword: keyword.clone(),
                tab: *tab,
                page: *page,
            },
        }
    }
}

impl Route {
    /// Whether two routes lead to the same page with the same parameters.
    pub fn same_as(&self, other: &Route) -> (r: bool)
        ensures
            r == (self@ == other@),
    {
        match (self, other) {
            (Route::Home, Route::Home) => true,
            (Route::Discover(a), Route::Discover(b)) => *a == *b,
            (Route::Radio, Route::Radio) => true,
            (Route::Settings(a), Route::Settings(b)) => *a == *b,
            (Route::AudioEngine, Route::AudioEngine) => true,
            (Route::Playlist(a), Route::Playlist(b)) => *a == *b,
            (Route::NcmPlaylist(a), Route::NcmPlaylist(b)) => *a == *b,
            (Route::RecentlyPlayed, Route::RecentlyPlayed) => true,
            (
                Route::Search { keyword: k1, tab: t1, page: p1 },
                Route::Search { keyword: k2, tab: t2, page: p2 },
            ) => *k1 == *k2 && *t1 == *t2 && *p1 == *p2,
            _ => false,
        }
    }

    /// The sidebar item that is highlighted while this route is shown.
    pub fn nav_item(&self) -> (r: Option<NavItem>)
        ensures
            r == nav_item_of(self@),
    {
        match self {
            Route::Home => Some(NavItem::Home),
            Route::Discover(_) => Some(NavItem::Discover),
            Route::Radio => Some(NavItem::Radio),
            Route::Settings(_) => Some(NavItem::Settings),
            Route::AudioEngine => Some(NavItem::AudioEngine),
            Route::Playlist(_) | Route::NcmPlaylist(_) | Route::RecentlyPlayed | Route::Search {
                ..
            } => None,
        }
    }
}

/// The sidebar item of a route: the five main pages have one, the
/// playlist, recently played and search pages have none.
pub open spec fn nav_item_of(r: RouteView) -> Option<NavItem> {
    match r {
        RouteView::Home => Some(NavItem::Home),
        RouteView::Discover(_) => Some(NavItem::Discover),
        RouteView::Radio => Some(NavItem::Radio),
        RouteView::Settings(_) => Some(NavItem::Settings),
        RouteView::AudioEngine => Some(NavItem::AudioEngine),
        _ => None,
    }
}

/// Navigation history entry.
#[derive(Debug)]
pub enum NavigationEntry {
    Route(Route),
}

impl View for NavigationEntry {
    type V = RouteView;

    open spec fn view(&self) -> RouteView {
        match self {
            NavigationEntry::Route(r) => r@,
        }
    }
}

impl Clone for NavigationEntry {
    fn clone(&self) -> (r: Self)
        ensures
            r@ == self@,
    {
        match self {
            NavigationEntry::Route(route) => NavigationEntry::Route(route.clone()),
        }
    }
}

impl NavigationEntry {
    /// Whether two entries hold the same route.
    pub fn same_as(&self, other: &NavigationEntry) -> (r: bool)
        ensures
            r == (self@ == other@),
    {
        match (self, other) {
            (NavigationEntry::Route(a), NavigationEntry::Route(b)) => a.same_as(b),
        }
    }
}

/// Navigation history for back/forward functionality.
#[derive(Debug)]
pub struct NavigationHistory {
    /// History stack
    pub entries: Vec<NavigationEntry>,
    /// Current position in history (index)
    pub current_index: Option<usize>,
}

/// The history as its routes and the current position.
pub struct HistoryView {
    pub entries: Seq<RouteView>,
    pub current: Option<int>,
}

impl View for NavigationHistory {
    type V = HistoryView;

    open spec fn view(&self) -> HistoryView {
        HistoryView {
            entries: self.entries@.map_values(|e: NavigationEntry| e@),
            current: match self.current_index {
                Some(i) => Some(i as int),
                None => None,
            },
        }
    }
}

impl HistoryView {
    /// A history is well formed when it is empty with no position, or its
    /// position points into it.
    pub open spec fn wf(self) -> bool {
        match self.current {
            Some(i) => 0 <= i < self.entries.len(),
            None => self.entries.len() == 0,
        }
    }

    /// What `push` makes of a history: an entry equal to the current one is
    /// not pushed again; otherwise the entries after the current one are
    /// dropped, the new entry is appended and becomes the current one.
    pub open spec fn pushed(self, e: RouteView) -> HistoryView {
        match self.current {
            Some(i) => if 0 <= i < self.entries.len() && self.entries[i] == e {
                self
            } else {
                let kept = if i + 1 <= self.entries.len() {
                    self.entries.take(i + 1)
                } else {
                    self.entries
                };
                HistoryView { entries: kept.push(e), current: Some(kept.len() as int) }
            },
            None => HistoryView {
                entries: self.entries.push(e),
                current: Some(self.entries.len() as int),
            },
        }
    }

    /// What `replace_current` makes of a history: the current entry is
    /// overwritten where there is one; otherwise the entry is pushed.
    pub open spec fn replaced(self, e: RouteView) -> HistoryView {
        match self.current {
            Some(i) => if 0 <= i < self.entries.len() {
                HistoryView { entries: self.entries.update(i, e), current: self.current }
            } else {
                self.pushed(e)
            },
            None => self.pushed(e),
        }
    }

    /// What `go_back` makes of a history: the position moves one entry
    /// back where there is an entry before it; otherwise nothing changes.
    pub open spec fn backed(self) -> HistoryView {
        if self.can_back() {
            HistoryView { entries: self.entries, current: Some(self.current->0 - 1) }
        } else {
            self
        }
    }

    /// What `go_forward` makes of a history: the position moves one entry
    /// forward where there is an entry after it; otherwise nothing changes.
    pub open spec fn forwarded(self) -> HistoryView {
        if self.can_forward() {
            HistoryView { entries: self.entries, current: Some(self.current->0 + 1) }
        } else {
            self
        }
    }

    /// The entry at the position, where the position points into the history.
    pub open spec fn current_entry(self) -> Option<RouteView> {
        match self.current {
            Some(i) => if 0 <= i < self.entries.len() {
                Some(self.entries[i])
            } else {
                None
            },
            None => None,
        }
    }

    /// Whether there is an entry before the current one.
    pub open spec fn can_back(self) -> bool {
        match self.current {
            Some(i) => i > 0,
            None => false,
        }
    }

    /// Whether there is an entry after the current one.
    pub open spec fn can_forward(self) -> bool {
        match self.current {
            Some(i) => i + 1 < self.entries.len(),
            None => false,
        }
    }
}

impl Default for NavigationHistory {
    fn default() -> (r: Self)
        ensures
            r@.entries.len() == 0,
            r@.current == None::<int>,
    {
        NavigationHistory { entries: Vec::new(), current_index: None }
    }
}

impl NavigationHistory {
    /// Whether advancing the position by one cannot overflow.
    pub open spec fn index_in_range(&self) -> bool {
        self.current_index != Some(usize::MAX)
    }

    /// Push a new entry to history, clearing forward history.
    pub fn push(&mut self, entry: NavigationEntry)
        requires
            old(self).index_in_range(),
        ensures
            final(self)@ == old(self)@.pushed(entry@),
    {
        if let Some(idx) = self.current_index {
            if idx < self.entries.len() && self.entries[idx].same_as(&entry) {
                return ;
            }
            // Clear forward history
            self.entries.truncate(idx + 1);
        }
        self.entries.push(entry);
        self.current_index = Some(self.entries.len() - 1);
        proof {
            let o = old(self)@;
            let n = self@;
            match o.current {
                Some(i) => {
                    let kept = if i + 1 <= o.entries.len() {
                        o.entries.take(i + 1)
                    } else {
                        o.entries
                    };
                    assert(n.entries =~= kept.push(entry@));
                },
                None => {
                    assert(n.entries =~= o.entries.push(entry@));
                },
            }
        }
    }

    /// Replace the current history entry without changing stack length.
    pub fn replace_current(&mut self, entry: NavigationEntry)
        requires
            old(self).index_in_range(),
        ensures
            final(self)@ == old(self)@.replaced(entry@),
    {
        if let Some(idx) = self.current_index {
            if idx < self.entries.len() {
                let ghost e = entry@;
                self.entries.set(idx, entry);
                assert(self@.entries =~= old(self)@.entries.update(idx as int, e));
                return ;
            }
        }
        self.push(entry);
    }

    /// Go back in history, returns the entry to navigate to.
    pub fn go_back(&mut self) -> (r: Option<NavigationEntry>)
        ensures
            final(self)@ == old(self)@.backed(),
            old(self)@.can_back() ==> match r {
                Some(e) => final(self)@.current_entry() == Some(e@),
                None => final(self)@.current_entry() is None,
            },
            !old(self)@.can_back() ==> r is None,
    {
        if let Some(idx) = self.current_index {
            if idx > 0 {
                self.current_index = Some(idx - 1);
                if idx - 1 < self.entries.len() {
                    return Some(self.entries[idx - 1].clone());
                }
                return None;
            }
        }
        None
    }

    /// Go forward in history, returns the entry to navigate to.
    pub fn go_forward(&mut self) -> (r: Option<NavigationEntry>)
        requires
            old(self).index_in_range(),
        ensures
            final(self)@ == old(self)@.forwarded(),
            old(self)@.can_forward() ==> r is Some && final(self)@.current_entry() == Some(
                r->0@,
            ),
            !old(self)@.can_forward() ==> r is None,
    {
        if let Some(idx) = self.current_index {
            if idx + 1 < self.entries.len() {
                self.current_index = Some(idx + 1);
                return Some(self.entries[idx + 1].clone());
            }
        }
        None
    }

    /// Check if can go back.
    pub fn can_go_back(&self) -> (r: bool)
        ensures
            r == self@.can_back(),
    {
        match self.current_index {
            Some(idx) => idx > 0,
            None => false,
        }
    }

    /// Check if can go forward.
    pub fn can_go_forward(&self) -> (r: bool)
        requires
            self.index_in_range(),
        ensures
            r == self@.can_forward(),
    {
        match self.current_index {
            Some(idx) => idx + 1 < self.entries.len(),
            None => false,
        }
    }
}

/// Every operation of the history keeps it well formed: pushing, replacing
/// the current entry, going back and going forward.
pub proof fn lemma_history_ops_keep_wf(h: HistoryView, e: RouteView)
    requires
        h.wf(),
    ensures
        h.pushed(e).wf(),
        h.replaced(e).wf(),
        h.backed().wf(),
        h.forwarded().wf(),
{
}

/// After a push the pushed entry is the current one; pushing an entry other
/// than the current one clears the forward history.
pub proof fn lemma_push_makes_current(h: HistoryView, e: RouteView)
    requires
        h.wf(),
    ensures
        h.pushed(e).current_entry() == Some(e),
        h.current_entry() != Some(e) ==> !h.pushed(e).can_forward(),
{
}

/// Going back right after navigating to a new page leads to the page that
/// was shown before it.
pub proof fn lemma_back_after_push(h: HistoryView, e: RouteView)
    requires
        h.wf(),
        h.current_entry() is Some,
        h.current_entry() != Some(e),
    ensures
        h.pushed(e).can_back(),
        h.pushed(e).backed().current_entry() == h.current_entry(),
{
}

/// Going forward undoes going back: the history is the same as before.
pub proof fn lemma_forward_undoes_back(h: HistoryView)
    requires
        h.wf(),
        h.can_back(),
    ensures
        h.backed().can_forward(),
        h.backed().forwarded() == h,
{
}

/// Going back undoes going forward: the history is the same as before.
pub proof fn lemma_back_undoes_forward(h: HistoryView)
    requires
        h.wf(),
        h.can_forward(),
    ensures
        h.forwarded().can_back(),
        h.forwarded().backed() == h,
{
}

/// Replacing the current entry keeps the number of entries and the position,
/// and the new entry is the current one.
pub proof fn lemma_replace_keeps_shape(h: HistoryView, e: RouteView)
    requires
        h.wf(),
        h.current is Some,
    ensures
        h.replaced(e).entries.len() == h.entries.len(),
        h.replaced(e).current == h.current,
        h.replaced(e).current_entry() == Some(e),
{
}


/// The page a sidebar item leads to: the settings page opens at the
/// section last shown, the discover page at its overview.
pub open spec fn nav_route(nav: NavItem, section: SettingsSection) -> RouteView {
    match nav {
        NavItem::Home => RouteView::Home,
        NavItem::Discover => RouteView::Discover(DiscoverViewMode::Overview),
        NavItem::Radio => RouteView::Radio,
        NavItem::Settings => RouteView::Settings(section),
        NavItem::AudioEngine => RouteView::AudioEngine,
    }
}

/// The route of a sidebar item.
pub fn route_for_nav_item(nav: NavItem, active_section: SettingsSection) -> (r: Route)
    ensures
        r@ == nav_route(nav, active_section),
{
    match nav {
        NavItem::Home => Route::Home,
        NavItem::Discover => Route::Discover(DiscoverViewMode::Overview),
        NavItem::Radio => Route::Radio,
        NavItem::Settings => Route::Settings(active_section),
        NavItem::AudioEngine => Route::AudioEngine,
    }
}

/// The page a sidebar item leads to highlights that same item.
pub proof fn lemma_nav_route_highlights_item(nav: NavItem, section: SettingsSection)
    ensures
        nav_item_of(nav_route(nav, section)) == Some(nav),
{
}

} // verus!
