//! The play queue: which songs are queued, which one is current, and the
//! bookkeeping around starting a song (resolution of online songs, failure
//! counting so that a run of unplayable songs stops instead of looping).

use vstd::prelude::*;

use crate::model::{SongInfo, SongInfoView};
use crate::text::{concat_str, decimal, push_decimal, starts_with};

verus! {

/// Consecutive playback failures after which playback stops.
pub const MAX_CONSECUTIVE_FAILURES: u8 = 3;

/// A song in the play queue. Online songs carry the negated id of the
/// streaming service; local songs carry their library id.
#[derive(Debug)]
pub struct QueueSong {
    pub id: i64,
    pub file_path: String,
    pub title: String,
    pub artist: String,
    pub album: String,
    pub duration_secs: i64,
    pub cover_path: Option<String>,
}

/// A queued song as plain values.
pub struct QueueSongView {
    pub id: i64,
    pub file_path: Seq<char>,
    pub title: Seq<char>,
    pub artist: Seq<char>,
    pub album: Seq<char>,
    pub duration_secs: i64,
    pub cover_path: Option<Seq<char>>,
}

pub open spec fn opt_text(o: Option<String>) -> Option<Seq<char>> {
    match o {
        Some(s) => Some(s@),
        None => None,
    }
}

impl View for QueueSong {
    type V = QueueSongView;

    open spec fn view(&self) -> QueueSongView {
        QueueSongView {
            id: self.id,
            file_path: self.file_path@,
            title: self.title@,
            artist: self.artist@,
            album: self.album@,
            duration_secs: self.duration_secs,
            cover_path: opt_text(self.cover_path),
        }
    }
}

fn clone_opt_text(o: &Option<String>) -> (r: Option<String>)
    ensures
        opt_text(r) == opt_text(*o),
{
    match o {
        Some(s) => Some(s.clone()),
        None => None,
    }
}

impl Clone for QueueSong {
    fn clone(&self) -> (r: Self)
        ensures
            r@ == self@,
    {
        QueueSong {
            id: self.id,
            file_path: self.file_path.clone(),
            title: self.title.clone(),
            artist: self.artist.clone(),
            album: self.album.clone(),
            duration_secs: self.duration_secs,
            cover_path: clone_opt_text(&self.cover_path),
        }
    }
}

/// The queue id of an online song: its service id, negated.
pub open spec fn queue_id_of(ncm_id: u64) -> int {
    -((ncm_id as i64) as int)
}

/// The queue id of an online song. The service id is taken as a signed
/// number first; the one id whose negation has no signed value is left out.
pub fn ncm_queue_id(ncm_id: u64) -> (r: i64)
    requires
        ncm_id != 0x8000_0000_0000_0000u64,
    ensures
        r == queue_id_of(ncm_id),
{
    let x = ncm_id as i64;
    assert(x != i64::MIN) by (bit_vector)
        requires
            ncm_id != 0x8000_0000_0000_0000u64,
            x == ncm_id as i64,
    ;
    -x
}

/// The service id of an online song in the queue (its id negated).
pub fn ncm_id_of(queue_id: i64) -> (r: u64)
    requires
        queue_id < 0,
        queue_id != i64::MIN,
    ensures
        r == -queue_id,
{
    (-queue_id) as u64
}

/// The queue entry of an online song: negated id, no file yet, the song's
/// length in whole seconds, and its picture as cover where it has one.
pub open spec fn queue_song_of(s: SongInfoView) -> QueueSongView {
    QueueSongView {
        id: queue_id_of(s.id) as i64,
        file_path: Seq::empty(),
        title: s.name,
        artist: s.singer,
        album: s.album,
        duration_secs: (s.duration / 1000) as i64,
        cover_path: if s.pic_url.len() == 0 {
            None
        } else {
            Some(s.pic_url)
        },
    }
}

/// Turns an online song into a queue entry.
pub fn queue_song_from_ncm(song: &SongInfo) -> (r: QueueSong)
    requires
        song.id != 0x8000_0000_0000_0000u64,
    ensures
        r@ == queue_song_of(song@),
{
    let cover = if song.pic_url.as_str().unicode_len() == 0 {
        None
    } else {
        Some(song.pic_url.clone())
    };
    let r = QueueSong {
        id: ncm_queue_id(song.id),
        file_path: String::new(),
        title: song.name.clone(),
        artist: song.singer.clone(),
        album: song.album.clone(),
        duration_secs: (song.duration / 1000) as i64,
        cover_path: cover,
    };
    assert(r@.file_path =~= Seq::<char>::empty());
    r
}

/// The queue entry of an online song whose stream address is known.
pub fn queue_song_for_url(song: &SongInfo, url: &str, cover_path: Option<String>) -> (r: QueueSong)
    requires
        song.id != 0x8000_0000_0000_0000u64,
    ensures
        r@ == (QueueSongView {
            file_path: url@,
            cover_path: opt_text(cover_path),
            ..queue_song_of(song@)
        }),
{
    QueueSong {
        id: ncm_queue_id(song.id),
        file_path: url.to_owned(),
        title: song.name.clone(),
        artist: song.singer.clone(),
        album: song.album.clone(),
        duration_secs: (song.duration / 1000) as i64,
        cover_path,
    }
}

/// Whether every song's id can be negated into a queue id.
pub open spec fn convertible(songs: Seq<SongInfoView>) -> bool {
    forall|i: int| 0 <= i < songs.len() ==> #[trigger] songs[i].id != 0x8000_0000_0000_0000u64
}

/// Turns a list of online songs into queue entries, in order.
pub fn queue_songs_from_ncm(songs: &Vec<SongInfo>) -> (r: Vec<QueueSong>)
    requires
        convertible(songs@.map_values(|s: SongInfo| s@)),
    ensures
        r@.map_values(|q: QueueSong| q@) == songs@.map_values(|s: SongInfo| queue_song_of(s@)),
{
    let mut out: Vec<QueueSong> = Vec::new();
    let mut i: usize = 0;
    while i < songs.len()
        invariant
            i <= songs.len(),
            convertible(songs@.map_values(|s: SongInfo| s@)),
            out@.map_values(|q: QueueSong| q@) == songs@.take(i as int).map_values(
                |s: SongInfo| queue_song_of(s@),
            ),
        decreases songs.len() - i,
    {
        assert(songs@.map_values(|s: SongInfo| s@)[i as int].id == songs@[i as int].id);
        let q = queue_song_from_ncm(&songs[i]);
        let ghost before = out@;
        out.push(q);
        assert(songs@.take(i + 1) =~= songs@.take(i as int).push(songs@[i as int]));
        assert(out@.map_values(|q: QueueSong| q@) =~= before.map_values(|q: QueueSong| q@).push(
            q@,
        ));
        assert(songs@.take(i + 1).map_values(|s: SongInfo| queue_song_of(s@)) =~= songs@.take(
            i as int,
        ).map_values(|s: SongInfo| queue_song_of(s@)).push(queue_song_of(songs@[i as int]@)));
        i = i + 1;
    }
    assert(songs@.take(songs.len() as int) =~= songs@);
    out
}

/// Result of attempting to play a song.
#[derive(Debug)]
pub enum PlayResult {
    Playing,
    NeedsResolution,
    Failed(String),
}

/// What playing a song's file gives: a missing file of an online song
/// (an `ncm://` address or a negative id) needs resolution, another
/// missing file fails, and an existing file plays if there is a player.
pub open spec fn play_result_of(
    file_path: Seq<char>,
    exists: bool,
    id: i64,
    has_player: bool,
) -> PlayResultView {
    if file_path.len() == 0 || !exists {
        if (5 < file_path.len() && file_path.take(6) == "ncm://"@) || id < 0 {
            PlayResultView::NeedsResolution
        } else {
            PlayResultView::Failed("File not found: "@ + file_path)
        }
    } else if has_player {
        PlayResultView::Playing
    } else {
        PlayResultView::Failed("No audio player"@)
    }
}

/// A play result as plain values.
pub enum PlayResultView {
    Playing,
    NeedsResolution,
    Failed(Seq<char>),
}

impl View for PlayResult {
    type V = PlayResultView;

    open spec fn view(&self) -> PlayResultView {
        match self {
            PlayResult::Playing => PlayResultView::Playing,
            PlayResult::NeedsResolution => PlayResultView::NeedsResolution,
            PlayResult::Failed(e) => PlayResultView::Failed(e@),
        }
    }
}

/// Decides how a song's file can be played, given whether the file exists
/// on disk and whether an audio player is running.
pub fn try_play_song(file_path: &str, exists: bool, id: i64, has_player: bool) -> (r: PlayResult)
    ensures
        r@ == play_result_of(file_path@, exists, id, has_player),
{
    proof {
        reveal_strlit("ncm://");
        reveal_strlit("File not found: ");
        reveal_strlit("No audio player");
    }
    if file_path.unicode_len() == 0 || !exists {
        if starts_with(file_path, "ncm://") || id < 0 {
            return PlayResult::NeedsResolution;
        }
        return PlayResult::Failed(concat_str("File not found: ", file_path));
    }
    if has_player {
        PlayResult::Playing
    } else {
        PlayResult::Failed("No audio player".to_owned())
    }
}

/// What follows a failed playback.
#[derive(Debug, Clone, Copy, PartialEq, Eq, Structural)]
pub enum FailureStep {
    /// Go on with the next playable song.
    SkipToNext,
    /// Too many songs failed in a row: warn and stop.
    StopWithWarning,
}

/// What starting the song at a queue index led to.
#[derive(Debug)]
pub enum PlayStep {
    /// The index is outside the queue: nothing happened.
    Ignored,
    /// The song's address has to be resolved first.
    Resolve(usize),
    /// The song plays.
    Started(usize),
    /// The song could not be played.
    Failed(String, FailureStep),
}

/// The first position from `k` on of a queue entry with an id.
pub open spec fn index_from(s: Seq<QueueSongView>, id: i64, k: int) -> Option<int>
    decreases s.len() - k,
{
    if k < 0 || k >= s.len() {
        None
    } else if s[k].id == id {
        Some(k)
    } else {
        index_from(s, id, k + 1)
    }
}

/// The first position from `k` on of a service song with an id.
pub open spec fn service_index_from(s: Seq<SongInfo>, id: u64, k: int) -> Option<int>
    decreases s.len() - k,
{
    if k < 0 || k >= s.len() {
        None
    } else if s[k].id == id {
        Some(k)
    } else {
        service_index_from(s, id, k + 1)
    }
}

/// The play queue and the playback bookkeeping around it.
#[derive(Debug)]
pub struct LibraryState {
    pub queue: Vec<QueueSong>,
    pub queue_index: Option<usize>,
    pub current_song: Option<QueueSong>,
    /// Consecutive playback failures (reset on a successful play).
    pub consecutive_failures: u8,
    /// The queue index whose resolution playback waits for.
    pub pending_resolution_idx: Option<usize>,
    pub personal_fm_mode: bool,
    /// The songs played lately, newest first.
    pub recently_played: Vec<QueueSong>,
    /// The songs of the library.
    pub db_songs: Vec<QueueSong>,
    /// The playlists of the library, as the sidebar lists them.
    pub playlists: Vec<LibraryPlaylist>,
}

/// A playlist of the library.
#[derive(Debug)]
pub struct LibraryPlaylist {
    pub id: i64,
    pub name: String,
}

/// A playlist of the library as plain values.
pub struct LibraryPlaylistView {
    pub id: i64,
    pub name: Seq<char>,
}

impl View for LibraryPlaylist {
    type V = LibraryPlaylistView;

    open spec fn view(&self) -> LibraryPlaylistView {
        LibraryPlaylistView { id: self.id, name: self.name@ }
    }
}

impl Clone for LibraryPlaylist {
    fn clone(&self) -> (r: Self)
        ensures
            r@ == self@,
    {
        LibraryPlaylist { id: self.id, name: self.name.clone() }
    }
}

/// The queue as plain values.
pub struct QueueView {
    pub songs: Seq<QueueSongView>,
    pub index: Option<usize>,
    pub current: Option<QueueSongView>,
    pub failures: u8,
    pub pending: Option<usize>,
    pub fm_mode: bool,
    pub recently_played: Seq<QueueSongView>,
    pub db_songs: Seq<QueueSongView>,
    pub playlists: Seq<LibraryPlaylistView>,
}

pub open spec fn opt_song(o: Option<QueueSong>) -> Option<QueueSongView> {
    match o {
        Some(s) => Some(s@),
        None => None,
    }
}

impl View for LibraryState {
    type V = QueueView;

    open spec fn view(&self) -> QueueView {
        QueueView {
            songs: self.queue@.map_values(|s: QueueSong| s@),
            index: self.queue_index,
            current: opt_song(self.current_song),
            failures: self.consecutive_failures,
            pending: self.pending_resolution_idx,
            fm_mode: self.personal_fm_mode,
            recently_played: self.recently_played@.map_values(|s: QueueSong| s@),
            db_songs: self.db_songs@.map_values(|s: QueueSong| s@),
            playlists: self.playlists@.map_values(|p: LibraryPlaylist| p@),
        }
    }
}

/// The current index after the entry at `removed` left a queue that now
/// has `len` entries: later entries move up by one; when the current entry
/// itself left, the one that took its place becomes current (the last one
/// if it was the last), and an emptied queue has none.
pub open spec fn index_after_removal(index: Option<usize>, removed: int, len: int) -> Option<
    usize,
> {
    match index {
        None => None,
        Some(c) => if removed < c {
            Some((c - 1) as usize)
        } else if removed == c {
            if len == 0 {
                None
            } else if c >= len {
                Some((len - 1) as usize)
            } else {
                Some(c)
            }
        } else {
            Some(c)
        },
    }
}

/// The queue after a failure: the count goes up, and is reset once it
/// reaches the limit.
pub open spec fn failures_after(f: u8) -> u8 {
    if f + 1 >= MAX_CONSECUTIVE_FAILURES {
        0
    } else {
        (f + 1) as u8
    }
}

pub open spec fn failure_step_of(f: u8) -> FailureStep {
    if f + 1 >= MAX_CONSECUTIVE_FAILURES {
        FailureStep::StopWithWarning
    } else {
        FailureStep::SkipToNext
    }
}

impl LibraryState {
    /// An empty queue.
    pub fn new() -> (r: Self)
        ensures
            r@.songs.len() == 0,
            r@.index is None,
            r@.current is None,
            r@.failures == 0,
            r@.pending is None,
            !r@.fm_mode,
            r@.recently_played.len() == 0,
            r@.db_songs.len() == 0,
            r@.playlists.len() == 0,
    {
        let r = LibraryState {
            queue: Vec::new(),
            queue_index: None,
            current_song: None,
            consecutive_failures: 0,
            pending_resolution_idx: None,
            personal_fm_mode: false,
            recently_played: Vec::new(),
            db_songs: Vec::new(),
            playlists: Vec::new(),
        };
        assert(r@.songs =~= Seq::<QueueSongView>::empty());
        assert(r@.recently_played =~= Seq::<QueueSongView>::empty());
        r
    }

    /// Removes the entry at `idx` and keeps the current index on the same
    /// song; returns whether an entry was removed (an index outside the
    /// queue changes nothing).
    pub fn remove_from_queue(&mut self, idx: usize) -> (r: bool)
        ensures
            r == (idx < old(self)@.songs.len()),
            r ==> final(self)@ == (QueueView {
                songs: old(self)@.songs.remove(idx as int),
                index: index_after_removal(old(self)@.index, idx as int, old(self)@.songs.len() - 1),
                ..old(self)@
            }),
            !r ==> final(self)@ == old(self)@,
    {
        if idx >= self.queue.len() {
            return false;
        }
        let ghost before = self.queue@;
        self.queue.remove(idx);
        assert(self.queue@.map_values(|s: QueueSong| s@) =~= before.map_values(|s: QueueSong| s@).remove(
            idx as int,
        ));
        if let Some(current_idx) = self.queue_index {
            if idx < current_idx {
                self.queue_index = Some(current_idx - 1);
            } else if idx == current_idx {
                if self.queue.len() == 0 {
                    self.queue_index = None;
                } else if current_idx >= self.queue.len() {
                    self.queue_index = Some(self.queue.len() - 1);
                }
            }
        }
        true
    }

    /// Empties the queue.
    pub fn clear_queue(&mut self)
        ensures
            final(self)@ == (QueueView { songs: Seq::empty(), index: None, ..old(self)@ }),
    {
        self.queue.clear();
        self.queue_index = None;
        assert(self@.songs =~= Seq::<QueueSongView>::empty());
    }

    /// Leaves personal radio mode and takes a loaded list as the queue;
    /// returns whether there is something to play from its first entry (an
    /// empty list leaves the queue as it was).
    pub fn load_queue(&mut self, songs: Vec<QueueSong>) -> (r: bool)
        ensures
            r == (songs@.len() > 0),
            r ==> final(self)@ == (QueueView {
                songs: songs@.map_values(|s: QueueSong| s@),
                fm_mode: false,
                ..old(self)@
            }),
            !r ==> final(self)@ == (QueueView { fm_mode: false, ..old(self)@ }),
    {
        self.personal_fm_mode = false;
        if songs.len() == 0 {
            return false;
        }
        self.queue = songs;
        true
    }

    /// Adds online songs: they replace the queue and play from the first
    /// when `play_now`, otherwise they are appended (also in personal radio
    /// mode). Returns whether the first entry is to be played.
    pub fn add_ncm_songs(&mut self, songs: &Vec<SongInfo>, play_now: bool) -> (r: bool)
        requires
            convertible(songs@.map_values(|s: SongInfo| s@)),
        ensures
            r == play_now,
            play_now ==> final(self)@ == (QueueView {
                songs: songs@.map_values(|s: SongInfo| queue_song_of(s@)),
                index: Some(0),
                ..old(self)@
            }),
            !play_now ==> final(self)@ == (QueueView {
                songs: old(self)@.songs + songs@.map_values(|s: SongInfo| queue_song_of(s@)),
                ..old(self)@
            }),
    {
        let mut converted = queue_songs_from_ncm(songs);
        if play_now {
            self.queue = converted;
            self.queue_index = Some(0);
            true
        } else {
            let ghost before = self.queue@;
            let ghost added = converted@;
            self.queue.append(&mut converted);
            assert(self.queue@.map_values(|s: QueueSong| s@) =~= before.map_values(
                |s: QueueSong| s@,
            ) + added.map_values(|s: QueueSong| s@));
            false
        }
    }

    /// Makes a resolved online song the whole queue and the current song.
    pub fn play_single(&mut self, song: QueueSong)
        ensures
            final(self)@ == (QueueView {
                songs: seq![song@],
                index: Some(0),
                current: Some(song@),
                ..old(self)@
            }),
    {
        let copy = song.clone();
        self.current_song = Some(copy);
        self.queue = Vec::new();
        self.queue.push(song);
        self.queue_index = Some(0);
        assert(self@.songs =~= seq![song@]);
    }

    /// A playback failed: counts it, and decides whether to go on with the
    /// next song or to stop after too many failures in a row (the count is
    /// then reset for the next play that the user starts).
    pub fn handle_playback_failure(&mut self) -> (r: FailureStep)
        requires
            old(self).consecutive_failures < 255,
        ensures
            r == failure_step_of(old(self)@.failures),
            final(self)@ == (QueueView {
                failures: failures_after(old(self)@.failures),
                ..old(self)@
            }),
    {
        self.consecutive_failures = self.consecutive_failures + 1;
        if self.consecutive_failures >= MAX_CONSECUTIVE_FAILURES {
            self.consecutive_failures = 0;
            FailureStep::StopWithWarning
        } else {
            FailureStep::SkipToNext
        }
    }

    /// Starts the song at a queue index. `needs_resolution` says whether
    /// its address must be resolved first, `file_exists` whether its file is
    /// on disk, `has_player` whether audio output is running.
    pub fn play_song_at_index(
        &mut self,
        idx: usize,
        needs_resolution: bool,
        file_exists: bool,
        has_player: bool,
    ) -> (r: PlayStep)
        requires
            old(self).consecutive_failures < 255,
        ensures
            idx >= old(self)@.songs.len() ==> r is Ignored && final(self)@ == old(self)@,
            idx < old(self)@.songs.len() ==> ({
                let s = old(self)@.songs[idx as int];
                let res = play_result_of(s.file_path, file_exists, s.id, has_player);
                let selected = QueueView { index: Some(idx), ..old(self)@ };
                if needs_resolution || res is NeedsResolution {
                    r == PlayStep::Resolve(idx) && final(self)@ == (QueueView {
                        pending: Some(idx),
                        ..selected
                    })
                } else if res is Playing {
                    r == PlayStep::Started(idx) && final(self)@ == (QueueView {
                        failures: 0,
                        current: Some(s),
                        ..selected
                    })
                } else {
                    r matches PlayStep::Failed(e, step) && res == PlayResultView::Failed(e@)
                        && step == failure_step_of(old(self)@.failures) && final(self)@ == (
                    QueueView { failures: failures_after(old(self)@.failures), ..selected })
                }
            }),
    {
        if idx >= self.queue.len() {
            return PlayStep::Ignored;
        }
        self.queue_index = Some(idx);
        if needs_resolution {
            self.pending_resolution_idx = Some(idx);
            return PlayStep::Resolve(idx);
        }
        let song = &self.queue[idx];
        let result = try_play_song(song.file_path.as_str(), file_exists, song.id, has_player);
        match result {
            PlayResult::Playing => {
                let current = self.queue[idx].clone();
                self.consecutive_failures = 0;
                self.current_song = Some(current);
                PlayStep::Started(idx)
            },
            PlayResult::NeedsResolution => {
                self.pending_resolution_idx = Some(idx);
                PlayStep::Resolve(idx)
            },
            PlayResult::Failed(err) => {
                let step = self.handle_playback_failure();
                PlayStep::Failed(err, step)
            },
        }
    }

    /// A song's address was resolved: the entry takes the new file (and
    /// cover, if one came); returns whether playback was waiting for this
    /// index, in which case it waits no more.
    pub fn song_resolved(&mut self, idx: usize, file_path: String, cover_path: Option<String>) -> (r:
        bool)
        ensures
            r == (old(self)@.pending == Some(idx)),
            final(self)@.songs == (if idx < old(self)@.songs.len() {
                old(self)@.songs.update(
                    idx as int,
                    QueueSongView {
                        file_path: file_path@,
                        cover_path: if cover_path is Some {
                            opt_text(cover_path)
                        } else {
                            old(self)@.songs[idx as int].cover_path
                        },
                        ..old(self)@.songs[idx as int]
                    },
                )
            } else {
                old(self)@.songs
            }),
            final(self)@.pending == (if r {
                None
            } else {
                old(self)@.pending
            }),
            final(self)@.index == old(self)@.index,
            final(self)@.current == old(self)@.current,
            final(self)@.failures == old(self)@.failures,
            final(self)@.fm_mode == old(self)@.fm_mode,
            final(self)@.recently_played == old(self)@.recently_played,
            final(self)@.db_songs == old(self)@.db_songs,
            final(self)@.playlists == old(self)@.playlists,
    {
        if idx < self.queue.len() {
            let ghost before = self.queue@;
            let mut song = self.queue[idx].clone();
            song.file_path = file_path;
            if cover_path.is_some() {
                song.cover_path = cover_path;
            }
            self.queue.set(idx, song);
            assert(self.queue@.map_values(|s: QueueSong| s@) =~= before.map_values(
                |s: QueueSong| s@,
            ).update(idx as int, song@));
        }
        let should_play = match self.pending_resolution_idx {
            Some(p) => p == idx,
            None => false,
        };
        if should_play {
            self.pending_resolution_idx = None;
        }
        should_play
    }

    /// The end of the queue was reached: the first entry becomes current
    /// again (stopped). Returns whether the queue had an entry.
    pub fn queue_finished(&mut self) -> (r: bool)
        ensures
            r == (old(self)@.songs.len() > 0),
            r ==> final(self)@ == (QueueView {
                index: Some(0),
                current: Some(old(self)@.songs[0]),
                ..old(self)@
            }),
            !r ==> final(self)@ == old(self)@,
    {
        if self.queue.len() == 0 {
            return false;
        }
        let first = self.queue[0].clone();
        self.queue_index = Some(0);
        self.current_song = Some(first);
        true
    }

    /// The cover of a song was downloaded: the current song, if it is that
    /// song, takes the file, and so does the queue entry at the current
    /// index if it is that song. Returns whether that queue entry changed
    /// (so that it is stored again).
    pub fn current_cover_ready(&mut self, song_id: i64, path: &String) -> (r: bool)
        ensures
            final(self)@.current == (match old(self)@.current {
                Some(c) => if c.id == song_id {
                    Some(QueueSongView { cover_path: Some(path@), ..c })
                } else {
                    Some(c)
                },
                None => None,
            }),
            r == (old(self)@.index matches Some(i) && i < old(self)@.songs.len()
                && old(self)@.songs[i as int].id == song_id),
            r ==> final(self)@.songs == old(self)@.songs.update(
                old(self)@.index->0 as int,
                QueueSongView { cover_path: Some(path@), ..old(self)@.songs[old(self)@.index->0 as int] },
            ),
            !r ==> final(self)@.songs == old(self)@.songs,
            final(self)@.index == old(self)@.index,
            final(self)@.failures == old(self)@.failures,
            final(self)@.pending == old(self)@.pending,
            final(self)@.fm_mode == old(self)@.fm_mode,
            final(self)@.recently_played == old(self)@.recently_played,
            final(self)@.db_songs == old(self)@.db_songs,
            final(self)@.playlists == old(self)@.playlists,
    {
        if let Some(c) = &mut self.current_song {
            if c.id == song_id {
                c.cover_path = Some(path.clone());
            }
        }
        if let Some(i) = self.queue_index {
            if i < self.queue.len() && self.queue[i].id == song_id {
                let mut entry = self.queue[i].clone();
                entry.cover_path = Some(path.clone());
                let ghost e = entry@;
                self.queue.set(i, entry);
                assert(self@.songs =~= old(self)@.songs.update(i as int, e));
                return true;
            }
        }
        false
    }

    /// Whether a song is the current one (events of a stream of another
    /// song are ignored).
    pub fn is_current(&self, song_id: i64) -> (r: bool)
        ensures
            r == (self.current_song matches Some(s) && s.id == song_id),
    {
        match &self.current_song {
            Some(s) => s.id == song_id,
            None => false,
        }
    }

    /// A playlist of the library was deleted: it leaves the playlist list,
    /// the other playlists keep their order.
    pub fn remove_playlist(&mut self, id: i64)
        ensures
            final(self)@ == (QueueView {
                playlists: old(self)@.playlists.filter(|p: LibraryPlaylistView| p.id != id),
                ..old(self)@
            }),
    {
        let ghost all = self@.playlists;
        let mut kept: Vec<LibraryPlaylist> = Vec::new();
        let mut i: usize = 0;
        while i < self.playlists.len()
            invariant
                i <= self.playlists@.len(),
                all == self@.playlists,
                kept@.map_values(|p: LibraryPlaylist| p@) == all.take(i as int).filter(
                    |p: LibraryPlaylistView| p.id != id,
                ),
            decreases self.playlists.len() - i,
        {
            assert(all.take(i + 1).drop_last() =~= all.take(i as int));
            assert(all.take(i + 1).last() == all[i as int]);
            assert(all.take(i + 1).filter(|p: LibraryPlaylistView| p.id != id) == (if all[i as int].id
                != id {
                all.take(i as int).filter(|p: LibraryPlaylistView| p.id != id).push(all[i as int])
            } else {
                all.take(i as int).filter(|p: LibraryPlaylistView| p.id != id)
            })) by {
                reveal(Seq::filter);
            }
            if self.playlists[i].id != id {
                let ghost before = kept@;
                let p = self.playlists[i].clone();
                kept.push(p);
                assert(kept@.map_values(|p: LibraryPlaylist| p@) =~= before.map_values(
                    |p: LibraryPlaylist| p@,
                ).push(all[i as int]));
            }
            i = i + 1;
        }
        assert(all.take(all.len() as int) =~= all);
        self.playlists = kept;
    }

    /// The queue index to play for a song id: its first place in the queue;
    /// else a song of the library with that id, or a song of the shown
    /// service playlist whose negated id it is, appended to the queue.
    /// `None` where the id is found nowhere (the one id without a negation,
    /// `i64::MIN`, names no song of the service).
    pub fn play_song_by_id(&mut self, id: i64, service_songs: &Vec<SongInfo>) -> (r: Option<usize>)
        ensures
            match index_from(old(self)@.songs, id, 0) {
                Some(i) => r == Some(i as usize) && final(self)@ == old(self)@,
                None => match index_from(old(self)@.db_songs, id, 0) {
                    Some(j) => r == Some(old(self)@.songs.len() as usize) && final(self)@ == (QueueView {
                        songs: old(self)@.songs.push(old(self)@.db_songs[j]),
                        ..old(self)@
                    }),
                    None => match (if id < 0 && id != i64::MIN {
                        service_index_from(service_songs@, (-id) as u64, 0)
                    } else {
                        None
                    }) {
                        Some(k) => r == Some(old(self)@.songs.len() as usize) && final(self)@ == (
                        QueueView {
                            songs: old(self)@.songs.push(queue_song_of(service_songs@[k]@)),
                            ..old(self)@
                        }),
                        None => r is None && final(self)@ == old(self)@,
                    },
                },
            },
    {
        let n = self.queue.len();
        let mut i: usize = 0;
        while i < n && self.queue[i].id != id
            invariant
                n == self.queue@.len(),
                i <= n,
                index_from(self@.songs, id, 0) == index_from(self@.songs, id, i as int),
            decreases n - i,
        {
            i = i + 1;
        }
        if i < n {
            return Some(i);
        }
        let m = self.db_songs.len();
        let mut j: usize = 0;
        while j < m && self.db_songs[j].id != id
            invariant
                m == self.db_songs@.len(),
                j <= m,
                index_from(self@.db_songs, id, 0) == index_from(self@.db_songs, id, j as int),
            decreases m - j,
        {
            j = j + 1;
        }
        if j < m {
            let song = self.db_songs[j].clone();
            let ghost before = self.queue@;
            self.queue.push(song);
            assert(self@.songs =~= old(self)@.songs.push(old(self)@.db_songs[j as int]));
            return Some(n);
        }
        if id < 0 && id != i64::MIN {
            let ncm_id = (-id) as u64;
            let c = service_songs.len();
            let mut k: usize = 0;
            while k < c && service_songs[k].id != ncm_id
                invariant
                    c == service_songs@.len(),
                    k <= c,
                    service_index_from(service_songs@, ncm_id, 0) == service_index_from(
                        service_songs@,
                        ncm_id,
                        k as int,
                    ),
                decreases c - k,
            {
                k = k + 1;
            }
            if k < c {
                let entry = queue_song_from_ncm(&service_songs[k]);
                self.queue.push(entry);
                assert(self@.songs =~= old(self)@.songs.push(queue_song_of(service_songs@[k as int]@)));
                return Some(n);
            }
        }
        None
    }

    /// The audio device finished a song: the player moves on only when a
    /// song is current and no song is waiting for its stream address.
    pub fn finished_moves_on(&self) -> (r: bool)
        ensures
            r == (self.pending_resolution_idx is None && self.current_song is Some),
    {
        self.pending_resolution_idx.is_none() && self.current_song.is_some()
    }
}


/// A copy of a list of queue entries.
pub fn clone_songs(songs: &Vec<QueueSong>) -> (r: Vec<QueueSong>)
    ensures
        r@.map_values(|s: QueueSong| s@) == songs@.map_values(|s: QueueSong| s@),
{
    let mut out: Vec<QueueSong> = Vec::new();
    let mut i: usize = 0;
    while i < songs.len()
        invariant
            i <= songs.len(),
            out@.map_values(|s: QueueSong| s@) == songs@.take(i as int).map_values(|s: QueueSong| s@),
        decreases songs.len() - i,
    {
        let c = songs[i].clone();
        let ghost before = out@;
        out.push(c);
        assert(out@.map_values(|s: QueueSong| s@) =~= before.map_values(|s: QueueSong| s@).push(c@));
        assert(songs@.take(i + 1).map_values(|s: QueueSong| s@) =~= songs@.take(i as int).map_values(
            |s: QueueSong| s@,
        ).push(songs@[i as int]@));
        i = i + 1;
    }
    assert(songs@.take(songs.len() as int) =~= songs@);
    out
}

impl LibraryState {
    /// Plays the recently played songs: leaves personal radio mode and, if
    /// there are any, makes them the queue; returns whether there are.
    pub fn play_recently_played(&mut self) -> (r: bool)
        ensures
            r == (old(self)@.recently_played.len() > 0),
            r ==> final(self)@ == (QueueView {
                songs: old(self)@.recently_played,
                fm_mode: false,
                ..old(self)@
            }),
            !r ==> final(self)@ == (QueueView { fm_mode: false, ..old(self)@ }),
    {
        let songs = clone_songs(&self.recently_played);
        self.load_queue(songs)
    }

    /// Plays the songs of a playlist of the service that the page holds:
    /// leaves personal radio mode and, if there are any, makes them the
    /// queue; returns whether there are.
    pub fn play_ncm_playlist(&mut self, songs: &Vec<SongInfo>) -> (r: bool)
        requires
            convertible(songs@.map_values(|s: SongInfo| s@)),
        ensures
            r == (songs@.len() > 0),
            r ==> final(self)@ == (QueueView {
                songs: songs@.map_values(|s: SongInfo| queue_song_of(s@)),
                fm_mode: false,
                ..old(self)@
            }),
            !r ==> final(self)@ == (QueueView { fm_mode: false, ..old(self)@ }),
    {
        let converted = queue_songs_from_ncm(songs);
        assert(converted@.len() == converted@.map_values(|q: QueueSong| q@).len());
        self.load_queue(converted)
    }
}


/// The service id behind a song id of the queue or a page: negative ids
/// are negated, others taken as they are.
pub open spec fn service_id(song_id: i64) -> nat {
    if song_id < 0 {
        (-song_id) as nat
    } else {
        song_id as nat
    }
}

/// The file name stem of a song's cached cover.
pub fn cover_stem(song_id: i64) -> (r: String)
    requires
        song_id != i64::MIN,
    ensures
        r@ == "cover_"@ + decimal(service_id(song_id)),
{
    let id: u64 = if song_id < 0 {
        (-song_id) as u64
    } else {
        song_id as u64
    };
    let mut s = "cover_".to_owned();
    push_decimal(&mut s, id);
    s
}

/// Where the cover of a song that starts playing comes from.
#[derive(Debug)]
pub enum CoverPlan {
    /// A local song, or a cover that is in place: nothing to do.
    Keep,
    /// The cached file is used (and written into the song and its queue entry).
    UseLocal(String),
    /// The cover is downloaded from its address.
    Download(u64, String),
    /// The address is unknown: it is fetched from the service first.
    Refetch(u64),
}

/// Decides where the cover of a starting online song comes from, given the
/// cached cover file found on disk, if any.
pub fn cover_plan(song: &QueueSong, cached: Option<String>) -> (r: CoverPlan)
    requires
        song.id != i64::MIN,
    ensures
        song.id >= 0 ==> r is Keep,
        song.id < 0 ==> match cached {
            Some(p) => if opt_text(song.cover_path) == Some(p@) {
                r is Keep
            } else {
                r matches CoverPlan::UseLocal(q) && q@ == p@
            },
            None => match song.cover_path {
                Some(u) => if 3 < u@.len() && u@.take(4) == "http"@ {
                    r matches CoverPlan::Download(id, url) && id == -song.id && url@ == u@
                } else {
                    r == CoverPlan::Refetch((-song.id) as u64)
                },
                None => r == CoverPlan::Refetch((-song.id) as u64),
            },
        },
{
    proof {
        reveal_strlit("http");
    }
    if song.id >= 0 {
        return CoverPlan::Keep;
    }
    let ncm_id = (-song.id) as u64;
    match cached {
        Some(p) => {
            let same = match &song.cover_path {
                Some(c) => *c == p,
                None => false,
            };
            if same {
                CoverPlan::Keep
            } else {
                CoverPlan::UseLocal(p)
            }
        },
        None => match &song.cover_path {
            Some(u) => if starts_with(u.as_str(), "http") {
                CoverPlan::Download(ncm_id, u.clone())
            } else {
                CoverPlan::Refetch(ncm_id)
            },
            None => CoverPlan::Refetch(ncm_id),
        },
    }
}


/// What the audio output is doing.
#[derive(Debug, Clone, Copy, PartialEq, Eq, Structural)]
pub enum PlaybackStatus {
    Stopped,
    Playing,
    Paused,
    Buffering,
}

/// What the play/pause button does.
#[derive(Debug)]
pub enum ToggleAction {
    /// Nothing can be played.
    Nothing,
    /// Start the queue entry at this index.
    PlayIndex(usize),
    /// Play the current local song's file directly.
    PlayFile(String),
    /// Pause (saving the position first when playing).
    Pause,
    /// Resume.
    Resume,
}

/// Whether a song is an online one: negative id, no file, or an `ncm://`
/// address.
pub open spec fn is_online(s: QueueSongView) -> bool {
    s.id < 0 || s.file_path.len() == 0 || (5 < s.file_path.len() && s.file_path.take(6)
        == "ncm://"@)
}

impl LibraryState {
    /// The action of the play/pause button: a stopped player starts the
    /// queue's current entry, or else the current song if it is a local
    /// one; playing or buffering pauses; paused resumes.
    pub fn toggle_action(&self, status: PlaybackStatus) -> (r: ToggleAction)
        ensures
            status == PlaybackStatus::Playing || status == PlaybackStatus::Buffering ==> r is Pause,
            status == PlaybackStatus::Paused ==> r is Resume,
            status == PlaybackStatus::Stopped ==> match self@.index {
                Some(i) => r == ToggleAction::PlayIndex(i),
                None => match self@.current {
                    None => r is Nothing,
                    Some(s) => if is_online(s) {
                        r is Nothing
                    } else {
                        r matches ToggleAction::PlayFile(p) && p@ == s.file_path
                    },
                },
            },
    {
        proof {
            reveal_strlit("ncm://");
        }
        match status {
            PlaybackStatus::Playing | PlaybackStatus::Buffering => ToggleAction::Pause,
            PlaybackStatus::Paused => ToggleAction::Resume,
            PlaybackStatus::Stopped => {
                if let Some(idx) = self.queue_index {
                    return ToggleAction::PlayIndex(idx);
                }
                match &self.current_song {
                    None => ToggleAction::Nothing,
                    Some(song) => {
                        let online = song.id < 0 || song.file_path.as_str().unicode_len() == 0
                            || starts_with(song.file_path.as_str(), "ncm://");
                        if online {
                            ToggleAction::Nothing
                        } else {
                            ToggleAction::PlayFile(song.file_path.clone())
                        }
                    },
                }
            },
        }
    }
}

/// Playback ticks between two saves of the playback position.
pub const SAVE_POSITION_TICKS: u32 = 50;

/// Counts a playback tick; returns the new count and whether the position
/// is to be saved now (every fiftieth tick, which resets the count).
pub fn position_save_tick(counter: u32) -> (r: (u32, bool))
    requires
        counter < u32::MAX,
    ensures
        counter + 1 >= SAVE_POSITION_TICKS ==> r == (0u32, true),
        counter + 1 < SAVE_POSITION_TICKS ==> r == ((counter + 1) as u32, false),
{
    let c = counter + 1;
    if c >= SAVE_POSITION_TICKS {
        (0, true)
    } else {
        (c, false)
    }
}


/// The step of the seek shortcuts, in milliseconds.
pub const SEEK_STEP_MS: u64 = 10_000;

/// The position the seek-forward shortcut jumps to: ten seconds on, unless
/// that is at or past the end, where it does nothing.
pub fn seek_forward_target(position_ms: u64, duration_ms: u64) -> (r: Option<u64>)
    requires
        position_ms + SEEK_STEP_MS <= u64::MAX,
    ensures
        position_ms + SEEK_STEP_MS < duration_ms ==> r == Some((position_ms + SEEK_STEP_MS) as u64),
        position_ms + SEEK_STEP_MS >= duration_ms ==> r is None,
{
    let target = position_ms + SEEK_STEP_MS;
    if target < duration_ms {
        Some(target)
    } else {
        None
    }
}

/// The position the seek-backward shortcut jumps to: ten seconds back, but
/// not before the start.
pub fn seek_backward_target(position_ms: u64) -> (r: u64)
    ensures
        position_ms >= SEEK_STEP_MS ==> r == position_ms - SEEK_STEP_MS,
        position_ms < SEEK_STEP_MS ==> r == 0,
{
    position_ms.saturating_sub(SEEK_STEP_MS)
}

/// Removing an entry other than the current one keeps the same song current.
pub proof fn lemma_removal_keeps_current_song(songs: Seq<QueueSongView>, c: usize, removed: int)
    requires
        c < songs.len(),
        0 <= removed < songs.len(),
        removed != c,
    ensures
        index_after_removal(Some(c), removed, songs.len() - 1) matches Some(n) && n < songs.remove(
            removed,
        ).len() && songs.remove(removed)[n as int] == songs[c as int],
{
}

/// After a removal the current index, if any, points into the queue.
pub proof fn lemma_removal_keeps_index_in_queue(index: Option<usize>, removed: int, len: int)
    requires
        0 <= removed < len,
        index matches Some(c) ==> c < len,
    ensures
        index_after_removal(index, removed, len - 1) matches Some(n) ==> n < len - 1,
{
}

/// Starting from no failures, the third failure in a row stops playback
/// and leaves the count at zero; the first two go on with the next song.
pub proof fn lemma_failures_stop_after_limit()
    ensures
        failure_step_of(0) == FailureStep::SkipToNext,
        failure_step_of(failures_after(0)) == FailureStep::SkipToNext,
        failure_step_of(failures_after(failures_after(0))) == FailureStep::StopWithWarning,
        failures_after(failures_after(failures_after(0))) == 0,
{
}

/// The failure count never reaches the limit: every failure either leaves
/// it below the limit or resets it.
pub proof fn lemma_failures_stay_below_limit(f: u8)
    requires
        f < MAX_CONSECUTIVE_FAILURES,
    ensures
        failures_after(f) < MAX_CONSECUTIVE_FAILURES,
{
}

} // verus!
