//! Lyrics: the timeline built from the service's timed lyric lines, the
//! names of the files the lyrics cache holds, and the loading state of the
//! lyrics page (results of an earlier request never overwrite a later one).

use vstd::prelude::*;

use crate::strings::{lemma_trimmed_has_no_outer_space, trim_text, trimmed, white_space};
use crate::text::{concat_str, decimal, push_str, to_decimal};

verus! {

/// Display time given to the last line, in milliseconds.
pub const LAST_LINE_MS: u64 = 5000;

/// A lyric line with its time span in milliseconds and its translation.
#[derive(Debug)]
pub struct TimedLine {
    pub start_time: u64,
    pub end_time: u64,
    pub text: String,
    pub translated: String,
}

/// A lyric line as plain values.
pub struct TimedLineView {
    pub start_time: u64,
    pub end_time: u64,
    pub text: Seq<char>,
    pub translated: Seq<char>,
}

impl View for TimedLine {
    type V = TimedLineView;

    open spec fn view(&self) -> TimedLineView {
        TimedLineView {
            start_time: self.start_time,
            end_time: self.end_time,
            text: self.text@,
            translated: self.translated@,
        }
    }
}

/// The lines read from timed texts so far, and the time of the last line:
/// a text at the time of the line before is that line's translation (the
/// first such text only), any other text starts a line. Texts are trimmed.
pub open spec fn collect_lines(pairs: Seq<(u64, Seq<char>)>) -> (Seq<TimedLineView>, u64)
    decreases pairs.len(),
{
    if pairs.len() == 0 {
        (Seq::empty(), 0)
    } else {
        let (lines, cur) = collect_lines(pairs.drop_last());
        let (t, text) = pairs.last();
        if t == cur && lines.len() > 0 {
            if lines.last().translated.len() == 0 {
                (
                    lines.update(
                        lines.len() - 1,
                        TimedLineView { translated: trimmed(text), ..lines.last() },
                    ),
                    cur,
                )
            } else {
                (lines, cur)
            }
        } else {
            (
                lines.push(
                    TimedLineView {
                        start_time: t,
                        end_time: 0,
                        text: trimmed(text),
                        translated: Seq::empty(),
                    },
                ),
                t,
            )
        }
    }
}

/// Each line ends where the next one starts; the last one shows for five
/// seconds.
pub open spec fn with_end_times(lines: Seq<TimedLineView>) -> Seq<TimedLineView> {
    Seq::new(
        lines.len(),
        |i: int|
            TimedLineView {
                end_time: if i + 1 < lines.len() {
                    lines[i + 1].start_time
                } else {
                    (lines[i].start_time + LAST_LINE_MS) as u64
                },
                ..lines[i]
            },
    )
}

/// The lyric timeline of a list of timed texts.
pub open spec fn timeline(pairs: Seq<(u64, Seq<char>)>) -> Seq<TimedLineView> {
    with_end_times(collect_lines(pairs).0)
}

pub open spec fn pair_view(p: (u64, String)) -> (u64, Seq<char>) {
    (p.0, p.1@)
}

/// Whether the last line's start leaves room for its display time: the
/// last line starts at the time of the last text.
pub open spec fn times_fit(pairs: Seq<(u64, Seq<char>)>) -> bool {
    pairs.len() > 0 ==> pairs.last().0 <= u64::MAX - LAST_LINE_MS
}

/// The last line read starts at the time of the last text.
proof fn lemma_collect_last(pairs: Seq<(u64, Seq<char>)>)
    ensures
        pairs.len() == 0 ==> collect_lines(pairs).0.len() == 0,
        pairs.len() > 0 ==> collect_lines(pairs).1 == pairs.last().0 && collect_lines(pairs).0.len()
            > 0 && collect_lines(pairs).0.last().start_time == pairs.last().0,
    decreases pairs.len(),
{
    if pairs.len() > 0 {
        lemma_collect_last(pairs.drop_last());
    }
}


/// A text of the timed texts at a time, trimmed, is this text.
pub open spec fn trimmed_source_at(pairs: Seq<(u64, Seq<char>)>, time: u64, t: Seq<char>) -> bool {
    exists|j: int| 0 <= j < pairs.len() && (#[trigger] pairs[j]).0 == time && t == trimmed(pairs[j].1)
}

proof fn lemma_source_extends(pairs: Seq<(u64, Seq<char>)>, time: u64, t: Seq<char>)
    requires
        pairs.len() > 0,
        trimmed_source_at(pairs.drop_last(), time, t),
    ensures
        trimmed_source_at(pairs, time, t),
{
    let j = choose|j: int|
        0 <= j < pairs.drop_last().len() && (#[trigger] pairs.drop_last()[j]).0 == time && t
            == trimmed(pairs.drop_last()[j].1);
    assert(pairs.drop_last()[j] == pairs[j]);
}

proof fn lemma_collect_sources(pairs: Seq<(u64, Seq<char>)>)
    ensures
        forall|i: int|
            #![trigger collect_lines(pairs).0[i]]
            0 <= i < collect_lines(pairs).0.len() ==> trimmed_source_at(
                pairs,
                collect_lines(pairs).0[i].start_time,
                collect_lines(pairs).0[i].text,
            ) && (collect_lines(pairs).0[i].translated.len() == 0 || trimmed_source_at(
                pairs,
                collect_lines(pairs).0[i].start_time,
                collect_lines(pairs).0[i].translated,
            )),
    decreases pairs.len(),
{
    if pairs.len() > 0 {
        let prev = pairs.drop_last();
        lemma_collect_sources(prev);
        lemma_collect_last(prev);
        let (lines, cur) = collect_lines(prev);
        let (t, text) = pairs.last();
        let n = pairs.len() - 1;
        assert(pairs[n] == (t, text));
        let out = collect_lines(pairs).0;
        assert forall|i: int| #![trigger out[i]] 0 <= i < out.len() implies trimmed_source_at(
            pairs,
            out[i].start_time,
            out[i].text,
        ) && (out[i].translated.len() == 0 || trimmed_source_at(
            pairs,
            out[i].start_time,
            out[i].translated,
        )) by {
            if i < lines.len() {
                assert(trimmed_source_at(prev, lines[i].start_time, lines[i].text));
                lemma_source_extends(pairs, lines[i].start_time, lines[i].text);
                if lines[i].translated.len() > 0 {
                    lemma_source_extends(pairs, lines[i].start_time, lines[i].translated);
                }
                if out[i].translated.len() > 0 && out[i].translated != lines[i].translated {
                    assert(out[i].start_time == t);
                    assert(trimmed_source_at(pairs, out[i].start_time, out[i].translated)) by {
                        assert(pairs[n].0 == out[i].start_time);
                    }
                }
            } else {
                assert(out[i].start_time == t && out[i].text == trimmed(text));
                assert(pairs[n].0 == out[i].start_time);
            }
        }
    }
}

/// Every line of the timeline starts at the time of one of the timed texts
/// and shows that text trimmed; every translation is likewise the trimmed
/// text of one of the timed texts at the line's time. So neither text nor
/// translation begins or ends with white space.
pub proof fn lemma_timeline_texts_are_trimmed_sources(pairs: Seq<(u64, Seq<char>)>)
    ensures
        forall|i: int|
            #![trigger timeline(pairs)[i]]
            0 <= i < timeline(pairs).len() ==> {
                let l = timeline(pairs)[i];
                &&& trimmed_source_at(pairs, l.start_time, l.text)
                &&& l.translated.len() == 0 || trimmed_source_at(pairs, l.start_time, l.translated)
                &&& l.translated.len() == 0 || (!white_space(l.translated[0]) && !white_space(
                    l.translated.last(),
                ))
                &&& l.text.len() == 0 || (!white_space(l.text[0]) && !white_space(l.text.last()))
            },
{
    lemma_collect_sources(pairs);
    let lines = collect_lines(pairs).0;
    assert forall|i: int| #![trigger timeline(pairs)[i]] 0 <= i < timeline(pairs).len() implies {
        let l = timeline(pairs)[i];
        &&& trimmed_source_at(pairs, l.start_time, l.text)
        &&& l.translated.len() == 0 || trimmed_source_at(pairs, l.start_time, l.translated)
        &&& l.translated.len() == 0 || (!white_space(l.translated[0]) && !white_space(
            l.translated.last(),
        ))
        &&& l.text.len() == 0 || (!white_space(l.text[0]) && !white_space(l.text.last()))
    } by {
        let l = timeline(pairs)[i];
        assert(l.start_time == lines[i].start_time && l.text == lines[i].text && l.translated
            == lines[i].translated);
        let j = choose|j: int|
            0 <= j < pairs.len() && (#[trigger] pairs[j]).0 == l.start_time && l.text == trimmed(
                pairs[j].1,
            );
        lemma_trimmed_has_no_outer_space(pairs[j].1);
        if l.translated.len() > 0 {
            let k = choose|k: int|
                0 <= k < pairs.len() && (#[trigger] pairs[k]).0 == l.start_time && l.translated
                    == trimmed(pairs[k].1);
            lemma_trimmed_has_no_outer_space(pairs[k].1);
        }
    }
}

/// Builds the lyric timeline from the service's timed lines.
pub fn lines_from_timed_texts(pairs: &Vec<(u64, String)>) -> (r: Vec<TimedLine>)
    requires
        times_fit(pairs@.map_values(|p: (u64, String)| pair_view(p))),
    ensures
        r@.map_values(|l: TimedLine| l@) == timeline(pairs@.map_values(|p: (u64, String)| pair_view(p))),
{
    let ghost ps = pairs@.map_values(|p: (u64, String)| pair_view(p));
    let mut lines: Vec<TimedLine> = Vec::new();
    let mut current_time: u64 = 0;
    let mut i: usize = 0;
    while i < pairs.len()
        invariant
            i <= pairs.len(),
            ps == pairs@.map_values(|p: (u64, String)| pair_view(p)),
            (lines@.map_values(|l: TimedLine| l@), current_time) == collect_lines(ps.take(i as int)),
        decreases pairs.len() - i,
    {
        let time = pairs[i].0;
        let text = trim_text(pairs[i].1.as_str());
        assert(ps.take(i + 1).drop_last() =~= ps.take(i as int));
        assert(ps.take(i + 1).last() == ps[i as int]);
        let ghost before = lines@;
        if time == current_time && lines.len() > 0 {
            let last = lines.len() - 1;
            if lines[last].translated.as_str().unicode_len() == 0 {
                let old_line = lines.remove(last);
                let line = TimedLine {
                    start_time: old_line.start_time,
                    end_time: old_line.end_time,
                    text: old_line.text,
                    translated: text,
                };
                lines.push(line);
                assert(lines@ =~= before.update(last as int, line));
                assert(lines@.map_values(|l: TimedLine| l@) =~= before.map_values(
                    |l: TimedLine| l@,
                ).update(last as int, line@));
            }
        } else {
            current_time = time;
            let line = TimedLine { start_time: time, end_time: 0, text, translated: String::new() };
            lines.push(line);
            assert(lines@.map_values(|l: TimedLine| l@) =~= before.map_values(|l: TimedLine| l@).push(
                line@,
            ));
            assert(line@.translated =~= Seq::<char>::empty());
        }
        i = i + 1;
    }
    assert(ps.take(pairs.len() as int) =~= ps);
    proof {
        lemma_collect_last(ps);
    }
    let ghost collected = lines@.map_values(|l: TimedLine| l@);
    let n = lines.len();
    let mut out: Vec<TimedLine> = Vec::new();
    let mut k: usize = 0;
    while k < n
        invariant
            n == lines.len(),
            k <= n,
            collected == lines@.map_values(|l: TimedLine| l@),
            collected == collect_lines(ps).0,
            times_fit(ps),
            collected.len() > 0 ==> ps.len() > 0 && collected.last().start_time == ps.last().0,
            out@.map_values(|l: TimedLine| l@) == with_end_times(collected).take(k as int),
        decreases n - k,
    {
        let end_time = if k + 1 < n {
            lines[k + 1].start_time
        } else {
            assert(collected[k as int] == collected.last());
            lines[k].start_time + LAST_LINE_MS
        };
        let line = TimedLine {
            start_time: lines[k].start_time,
            end_time,
            text: lines[k].text.clone(),
            translated: lines[k].translated.clone(),
        };
        let ghost before = out@;
        out.push(line);
        assert(out@.map_values(|l: TimedLine| l@) =~= before.map_values(|l: TimedLine| l@).push(
            line@,
        ));
        assert(with_end_times(collected).take(k + 1) =~= with_end_times(collected).take(
            k as int,
        ).push(line@));
        k = k + 1;
    }
    assert(with_end_times(collected).take(n as int) =~= with_end_times(collected));
    out
}

/// The name of a cached lyrics file: the song's service id and the
/// format's suffix.
pub open spec fn cache_name(ncm_id: u64, suffix: Seq<char>) -> Seq<char> {
    decimal(ncm_id as nat) + suffix
}

/// The file name, within the lyrics cache directory, of a song's lyrics in
/// one format (`.yrc`, `.lrc` or `.tlrc`).
pub fn get_cache_path(ncm_id: u64, suffix: &str) -> (r: String)
    ensures
        r@ == cache_name(ncm_id, suffix@),
{
    let mut s = to_decimal(ncm_id);
    push_str(&mut s, suffix);
    s
}

/// Whether a listing of the cache directory holds a song's lyrics, word
/// timed (`.yrc`) or line timed (`.lrc`).
pub fn is_lyrics_cached(ncm_id: u64, cached_files: &Vec<String>) -> (r: bool)
    ensures
        r == exists|i: int|
            0 <= i < cached_files@.len() && (#[trigger] cached_files@[i]@ == cache_name(
                ncm_id,
                ".yrc"@,
            ) || cached_files@[i]@ == cache_name(ncm_id, ".lrc"@)),
{
    let yrc = get_cache_path(ncm_id, ".yrc");
    let lrc = get_cache_path(ncm_id, ".lrc");
    let mut i: usize = 0;
    while i < cached_files.len()
        invariant
            i <= cached_files.len(),
            yrc@ == cache_name(ncm_id, ".yrc"@),
            lrc@ == cache_name(ncm_id, ".lrc"@),
            forall|j: int|
                0 <= j < i ==> !(#[trigger] cached_files@[j]@ == yrc@ || cached_files@[j]@ == lrc@),
        decreases cached_files.len() - i,
    {
        if cached_files[i] == yrc || cached_files[i] == lrc {
            return true;
        }
        i = i + 1;
    }
    false
}

/// The lines of a lyric text joined with line feeds.
pub open spec fn joined(lines: Seq<Seq<char>>) -> Seq<char>
    decreases lines.len(),
{
    if lines.len() == 0 {
        Seq::empty()
    } else if lines.len() == 1 {
        lines[0]
    } else {
        joined(lines.drop_last()) + seq!['\n'] + lines.last()
    }
}

/// A lyric text from its lines: none when there are no lines.
pub fn join_lines(lines: &Vec<String>) -> (r: Option<String>)
    ensures
        lines@.len() == 0 ==> r is None,
        lines@.len() > 0 ==> (r matches Some(s) && s@ == joined(lines@.map_values(|l: String| l@))),
{
    if lines.len() == 0 {
        return None;
    }
    let ghost ls = lines@.map_values(|l: String| l@);
    let mut s = lines[0].clone();
    let mut i: usize = 1;
    assert(ls.take(1) =~= seq![ls[0]]);
    while i < lines.len()
        invariant
            1 <= i <= lines.len(),
            ls == lines@.map_values(|l: String| l@),
            s@ == joined(ls.take(i as int)),
        decreases lines.len() - i,
    {
        crate::strings::string_push(&mut s, '\n');
        push_str(&mut s, lines[i].as_str());
        assert(ls.take(i + 1).drop_last() =~= ls.take(i as int));
        i = i + 1;
    }
    assert(ls.take(lines.len() as int) =~= ls);
    Some(s)
}

/// The files that saving lyrics writes: the main text under the word timed
/// or line timed suffix, and a non-empty translation under `.tlrc`.
pub open spec fn cache_files(
    ncm_id: u64,
    main: Seq<char>,
    trans: Option<Seq<char>>,
    is_yrc: bool,
) -> Seq<(Seq<char>, Seq<char>)> {
    let first = (cache_name(ncm_id, if is_yrc { ".yrc"@ } else { ".lrc"@ }), main);
    match trans {
        Some(t) => if t.len() > 0 {
            seq![first, (cache_name(ncm_id, ".tlrc"@), t)]
        } else {
            seq![first]
        },
        None => seq![first],
    }
}

pub open spec fn file_view(f: (String, String)) -> (Seq<char>, Seq<char>) {
    (f.0@, f.1@)
}

/// The files, as name and content, that caching a song's lyrics writes.
pub fn lyrics_cache_files(ncm_id: u64, main: &str, trans: Option<&str>, is_yrc: bool) -> (r: Vec<
    (String, String),
>)
    ensures
        r@.map_values(|f: (String, String)| file_view(f)) == cache_files(
            ncm_id,
            main@,
            match trans {
                Some(t) => Some(t@),
                None => None,
            },
            is_yrc,
        ),
{
    let suffix = if is_yrc {
        ".yrc"
    } else {
        ".lrc"
    };
    let mut files: Vec<(String, String)> = Vec::new();
    files.push((get_cache_path(ncm_id, suffix), main.to_owned()));
    if let Some(t) = trans {
        if t.unicode_len() > 0 {
            files.push((get_cache_path(ncm_id, ".tlrc"), t.to_owned()));
        }
    }
    assert(files@.map_values(|f: (String, String)| file_view(f)) =~= cache_files(
        ncm_id,
        main@,
        match trans {
            Some(t) => Some(t@),
            None => None,
        },
        is_yrc,
    ));
    files
}


/// The service id of a song whose online lyrics are worth preloading: an
/// online song (negative id) whose lyrics are not cached.
pub open spec fn preload_target_of(song_id: i64, cached_files: Seq<Seq<char>>) -> Option<u64> {
    if song_id >= 0 {
        None
    } else {
        let ncm_id = (-song_id) as u64;
        if exists|i: int|
            0 <= i < cached_files.len() && (#[trigger] cached_files[i] == cache_name(
                ncm_id,
                ".yrc"@,
            ) || cached_files[i] == cache_name(ncm_id, ".lrc"@)) {
            None
        } else {
            Some(ncm_id)
        }
    }
}

/// Which song's lyrics to preload when a song starts, given a listing of
/// the lyrics cache.
pub fn preload_target(song_id: i64, cached_files: &Vec<String>) -> (r: Option<u64>)
    requires
        song_id != i64::MIN,
    ensures
        r == preload_target_of(song_id, cached_files@.map_values(|f: String| f@)),
{
    if song_id >= 0 {
        return None;
    }
    let ncm_id = (-song_id) as u64;
    let cached = is_lyrics_cached(ncm_id, cached_files);
    proof {
        let fs = cached_files@.map_values(|f: String| f@);
        if cached {
            let i = choose|i: int|
                0 <= i < cached_files@.len() && (#[trigger] cached_files@[i]@ == cache_name(
                    ncm_id,
                    ".yrc"@,
                ) || cached_files@[i]@ == cache_name(ncm_id, ".lrc"@));
            assert(fs[i] == cached_files@[i]@);
        } else {
            assert forall|i: int| 0 <= i < fs.len() implies !(#[trigger] fs[i] == cache_name(
                ncm_id,
                ".yrc"@,
            ) || fs[i] == cache_name(ncm_id, ".lrc"@)) by {
                assert(fs[i] == cached_files@[i]@);
            }
        }
    }
    if cached {
        None
    } else {
        Some(ncm_id)
    }
}

/// What opening the lyrics page leads to.
#[derive(Debug, Clone, Copy, PartialEq, Eq, Structural)]
pub enum LyricsOpen {
    /// No song is playing: the page stays closed.
    NoSong,
    /// The shown lyrics belong to another song: load this song's.
    Load(i64),
    /// The lyrics are this song's already: only the background is refreshed.
    RefreshBackground(i64),
}

/// The loading state of the lyrics page.
#[derive(Debug)]
pub struct LyricsSession {
    pub is_open: bool,
    /// The song whose lyrics are loading or loaded.
    pub loading_song_id: Option<i64>,
    pub is_loading: bool,
    pub load_error: Option<String>,
    pub lines: Vec<TimedLine>,
    pub current_line_idx: Option<usize>,
}

/// The lyrics page state as plain values.
pub struct LyricsSessionView {
    pub is_open: bool,
    pub loading_song_id: Option<i64>,
    pub is_loading: bool,
    pub load_error: Option<Seq<char>>,
    pub lines: Seq<TimedLineView>,
    pub current_line_idx: Option<usize>,
}

impl View for LyricsSession {
    type V = LyricsSessionView;

    open spec fn view(&self) -> LyricsSessionView {
        LyricsSessionView {
            is_open: self.is_open,
            loading_song_id: self.loading_song_id,
            is_loading: self.is_loading,
            load_error: match self.load_error {
                Some(e) => Some(e@),
                None => None,
            },
            lines: self.lines@.map_values(|l: TimedLine| l@),
            current_line_idx: self.current_line_idx,
        }
    }
}

impl LyricsSession {
    /// A closed page with no lyrics.
    pub fn new() -> (r: Self)
        ensures
            !r@.is_open,
            r@.loading_song_id is None,
            !r@.is_loading,
            r@.load_error is None,
            r@.lines.len() == 0,
            r@.current_line_idx is None,
    {
        let r = LyricsSession {
            is_open: false,
            loading_song_id: None,
            is_loading: false,
            load_error: None,
            lines: Vec::new(),
            current_line_idx: None,
        };
        assert(r@.lines =~= Seq::<TimedLineView>::empty());
        r
    }

    /// Opens the page for the playing song.
    pub fn open_page(&mut self, current_song: Option<i64>) -> (r: LyricsOpen)
        ensures
            current_song is None ==> r == LyricsOpen::NoSong && final(self)@ == old(self)@,
            current_song matches Some(id) ==> final(self)@ == (LyricsSessionView {
                is_open: true,
                ..old(self)@
            }) && r == (if old(self)@.loading_song_id == Some(id) {
                LyricsOpen::RefreshBackground(id)
            } else {
                LyricsOpen::Load(id)
            }),
    {
        match current_song {
            None => LyricsOpen::NoSong,
            Some(id) => {
                self.is_open = true;
                let same = match self.loading_song_id {
                    Some(l) => l == id,
                    None => false,
                };
                if same {
                    LyricsOpen::RefreshBackground(id)
                } else {
                    LyricsOpen::Load(id)
                }
            },
        }
    }

    /// Starts loading a song's lyrics: the old lyrics are dropped at once.
    pub fn start_loading(&mut self, song_id: i64)
        ensures
            final(self)@ == (LyricsSessionView {
                loading_song_id: Some(song_id),
                is_loading: true,
                load_error: None,
                lines: Seq::empty(),
                current_line_idx: None,
                ..old(self)@
            }),
    {
        self.lines.clear();
        self.current_line_idx = None;
        self.load_error = None;
        self.loading_song_id = Some(song_id);
        self.is_loading = true;
        assert(self@.lines =~= Seq::<TimedLineView>::empty());
    }

    /// Asks to preload a song's online lyrics; returns whether a fetch
    /// starts (not when the same song is loading already).
    pub fn preload(&mut self, song_id: i64) -> (r: bool)
        ensures
            r == !(old(self)@.loading_song_id == Some(song_id) && old(self)@.is_loading),
            r ==> final(self)@ == (LyricsSessionView {
                loading_song_id: Some(song_id),
                is_loading: true,
                ..old(self)@
            }),
            !r ==> final(self)@ == old(self)@,
    {
        let same = match self.loading_song_id {
            Some(l) => l == song_id,
            None => false,
        };
        if same && self.is_loading {
            return false;
        }
        self.loading_song_id = Some(song_id);
        self.is_loading = true;
        true
    }

    /// No client is available for a fetch: loading stops.
    pub fn fetch_unavailable(&mut self)
        ensures
            final(self)@ == (LyricsSessionView { is_loading: false, ..old(self)@ }),
    {
        self.is_loading = false;
    }

    /// Lyrics arrived for a song; they are taken only if that song is the one
    /// loading. Returns whether they were taken.
    pub fn lyrics_loaded(&mut self, song_id: i64, lines: Vec<TimedLine>) -> (r: bool)
        ensures
            r == (old(self)@.loading_song_id == Some(song_id)),
            r ==> final(self)@ == (LyricsSessionView {
                lines: lines@.map_values(|l: TimedLine| l@),
                is_loading: false,
                load_error: None,
                current_line_idx: None,
                ..old(self)@
            }),
            !r ==> final(self)@ == old(self)@,
    {
        let same = match self.loading_song_id {
            Some(l) => l == song_id,
            None => false,
        };
        if !same {
            return false;
        }
        self.lines = lines;
        self.is_loading = false;
        self.load_error = None;
        self.current_line_idx = None;
        true
    }

    /// Loading failed for a song; this counts only if that song is the one
    /// loading. Returns whether it counted.
    pub fn load_failed(&mut self, song_id: i64, error: String) -> (r: bool)
        ensures
            r == (old(self)@.loading_song_id == Some(song_id)),
            r ==> final(self)@ == (LyricsSessionView {
                lines: Seq::empty(),
                is_loading: false,
                load_error: Some(error@),
                current_line_idx: None,
                ..old(self)@
            }),
            !r ==> final(self)@ == old(self)@,
    {
        let same = match self.loading_song_id {
            Some(l) => l == song_id,
            None => false,
        };
        if !same {
            return false;
        }
        self.lines.clear();
        self.is_loading = false;
        self.load_error = Some(error);
        self.current_line_idx = None;
        assert(self@.lines =~= Seq::<TimedLineView>::empty());
        true
    }
}

/// In the timeline every line but the last ends where the next one
/// starts.
pub proof fn lemma_lines_are_contiguous(pairs: Seq<(u64, Seq<char>)>, i: int)
    requires
        0 <= i < timeline(pairs).len() - 1,
    ensures
        timeline(pairs)[i].end_time == timeline(pairs)[i + 1].start_time,
{
}

} // verus!
