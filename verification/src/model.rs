//! Model types of the streaming service's web API and their parsing.

use vstd::prelude::*;
use vstd::string::*;

use crate::json::{
    as_array, as_bool, as_i32, as_i64, as_text, as_u32, as_u64, deref_opt, field, field_of,
    get_of, read_array, read_bool, read_i32, read_i64, read_string, read_u32, read_u64, Json,
    JsonNumber,
};
use crate::text::{decimal, push_decimal};

verus! {

/// Why a response could not be turned into model values.
#[derive(Debug, Clone, Copy, PartialEq, Eq, Structural)]
pub enum ModelError {
    /// The response is not JSON.
    InvalidJson,
    /// A field that the model needs is missing or of another type.
    MissingField,
    /// The service answered with a status code other than success.
    Status,
}

/// The text that stands for an unknown singer or album.
pub open spec fn unknown() -> Seq<char> {
    "unknown"@
}

/// A string field, or the default where it is missing or not a string.
pub open spec fn text_or(o: Option<Json>, default: Seq<char>) -> Seq<char> {
    match as_text(o) {
        Some(t) => t,
        None => default,
    }
}

/// A string field, or the empty string where it is missing or not a string.
pub open spec fn text_or_empty(o: Option<Json>) -> Seq<char> {
    text_or(o, seq![])
}

/// The name of the first artist of a list, or "unknown" where the list is
/// empty or its first entry has no name.
pub open spec fn first_artist(artists: Seq<Json>) -> Seq<char> {
    if artists.len() > 0 {
        text_or(field(artists[0], "name"@), unknown())
    } else {
        unknown()
    }
}

/// Reads a string field, or gives the default.
fn read_text_or(o: Option<&Json>, default: &str) -> (r: String)
    ensures
        r@ == text_or(deref_opt(o), default@),
{
    match read_string(o) {
        Some(s) => s,
        None => String::from_str(default),
    }
}

/// Reads a string field, or gives the empty string.
fn read_text_or_empty(o: Option<&Json>) -> (r: String)
    ensures
        r@ == text_or_empty(deref_opt(o)),
{
    match read_string(o) {
        Some(s) => s,
        None => String::new(),
    }
}

/// The name of the first artist of a list, or "unknown".
fn read_first_artist(artists: &Vec<Json>) -> (r: String)
    ensures
        r@ == first_artist(artists@),
{
    if artists.len() > 0 {
        read_text_or(artists[0].get("name"), "unknown")
    } else {
        String::from_str("unknown")
    }
}


/// Search type codes of the web API.
#[derive(Debug, Clone, Copy, PartialEq, Eq, Structural)]
pub enum SearchType {
    Songs,
    Albums,
    Artists,
    Playlists,
}

/// The numeric code that the web API expects for a search type.
pub open spec fn search_type_code(t: SearchType) -> Seq<char> {
    match t {
        SearchType::Songs => seq!['1'],
        SearchType::Albums => seq!['1', '0'],
        SearchType::Artists => seq!['1', '0', '0'],
        SearchType::Playlists => seq!['1', '0', '0', '0'],
    }
}

impl SearchType {
    /// The code as it is sent in the `type` parameter of a search.
    pub fn as_str(&self) -> (r: &'static str)
        ensures
            r@ == search_type_code(*self),
    {
        match self {
            SearchType::Songs => {
                let s = "1";
                proof {
                    reveal_strlit("1");
                }
                assert(s@ =~= seq!['1']);
                s
            },
            SearchType::Albums => {
                let s = "10";
                proof {
                    reveal_strlit("10");
                }
                assert(s@ =~= seq!['1', '0']);
                s
            },
            SearchType::Artists => {
                let s = "100";
                proof {
                    reveal_strlit("100");
                }
                assert(s@ =~= seq!['1', '0', '0']);
                s
            },
            SearchType::Playlists => {
                let s = "1000";
                proof {
                    reveal_strlit("1000");
                }
                assert(s@ =~= seq!['1', '0', '0', '0']);
                s
            },
        }
    }
}

/// The status of a response: `MissingField` where its `code` is not an
/// integer, `Status` where the code is not 200.
pub open spec fn code_ok(root: Json) -> Result<(), ModelError> {
    match as_i64(field(root, "code"@)) {
        None => Err(ModelError::MissingField),
        Some(c) => if c == 200 {
            Ok(())
        } else {
            Err(ModelError::Status)
        },
    }
}

/// Checks the status code of a response.
fn check_code(root: &Json) -> (r: Result<(), ModelError>)
    ensures
        r == code_ok(*root),
{
    match read_i64(root.get("code")) {
        None => Err(ModelError::MissingField),
        Some(c) => if c == 200 {
            Ok(())
        } else {
            Err(ModelError::Status)
        },
    }
}

/// The outcome of parsing a response text: `InvalidJson` where it is not
/// JSON, otherwise what the parser makes of the JSON value.
pub open spec fn from_text<T>(text: Seq<char>, f: spec_fn(Json) -> Result<T, ModelError>) -> Result<
    T,
    ModelError,
> {
    match crate::json::json_of_text(text) {
        None => Err(ModelError::InvalidJson),
        Some(root) => f(root),
    }
}

/// Lyrics of a song: the original lines and the translated lines.
#[derive(Debug, Clone)]
pub struct Lyrics {
    pub lyric: Vec<String>,
    pub tlyric: Vec<String>,
}

/// Lyrics as their lines of characters.
pub struct LyricsView {
    pub lyric: Seq<Seq<char>>,
    pub tlyric: Seq<Seq<char>>,
}

impl View for Lyrics {
    type V = LyricsView;

    open spec fn view(&self) -> LyricsView {
        LyricsView {
            lyric: self.lyric@.map_values(|l: String| l@),
            tlyric: self.tlyric@.map_values(|l: String| l@),
        }
    }
}

/// The lyrics of a lyric response: the non-empty lines of `lrc.lyric` and of
/// `tlyric.lyric`.
pub open spec fn lyric_spec(root: Json) -> Result<LyricsView, ModelError> {
    match code_ok(root) {
        Err(e) => Err(e),
        Ok(_) => match (
            as_text(field_of(field(root, "lrc"@), "lyric"@)),
            as_text(field_of(field(root, "tlyric"@), "lyric"@)),
        ) {
            (Some(l), Some(t)) => Ok(
                LyricsView { lyric: crate::text::nonempty_lines(l), tlyric: crate::text::nonempty_lines(t) },
            ),
            _ => Err(ModelError::MissingField),
        },
    }
}

/// A result with its value taken by its view.
pub open spec fn result_view<T: View>(r: Result<T, ModelError>) -> Result<T::V, ModelError> {
    match r {
        Ok(v) => Ok(v@),
        Err(e) => Err(e),
    }
}

/// The lyrics of a parsed lyric response.
pub fn lyric_from_json(root: &Json) -> (r: Result<Lyrics, ModelError>)
    ensures
        result_view(r) == lyric_spec(*root),
{
    check_code(root)?;
    let lrc = match read_string(get_of(root.get("lrc"), "lyric")) {
        Some(s) => s,
        None => return Err(ModelError::MissingField),
    };
    let lyric = crate::text::split_nonempty_lines(lrc.as_str());
    let tlrc = match read_string(get_of(root.get("tlyric"), "lyric")) {
        Some(s) => s,
        None => return Err(ModelError::MissingField),
    };
    let tlyric = crate::text::split_nonempty_lines(tlrc.as_str());
    Ok(Lyrics { lyric, tlyric })
}

/// Parses a lyric response.
pub fn to_lyric(json: String) -> (r: Result<Lyrics, ModelError>)
    ensures
        result_view(r) == from_text(json@, |j: Json| lyric_spec(j)),
{
    match crate::json::parse_json(json.as_str()) {
        None => Err(ModelError::InvalidJson),
        Some(root) => lyric_from_json(&root),
    }
}

/// A singer.
#[derive(Debug, Clone)]
pub struct SingerInfo {
    pub id: u64,
    pub name: String,
    pub pic_url: String,
}

/// A playable address of a song.
#[derive(Debug, Clone)]
pub struct SongUrl {
    pub id: u64,
    pub url: String,
    pub rate: u32,
}

/// A song address as plain values.
pub struct SongUrlView {
    pub id: u64,
    pub url: Seq<char>,
    pub rate: u32,
}

impl View for SongUrl {
    type V = SongUrlView;

    open spec fn view(&self) -> SongUrlView {
        SongUrlView { id: self.id, url: self.url@, rate: self.rate }
    }
}

/// Whether an entry of a song address response has an address: a non-empty
/// `url` string.
pub open spec fn has_url(v: Json) -> bool {
    text_or_empty(field(v, "url"@)).len() > 0
}

/// The address of an entry that has one; `None` where `id` or `br` is missing.
pub open spec fn song_url_of(v: Json) -> Option<SongUrlView> {
    match (as_u64(field(v, "id"@)), as_u32(field(v, "br"@))) {
        (Some(id), Some(rate)) => Some(SongUrlView { id, url: text_or_empty(field(v, "url"@)), rate }),
        _ => None,
    }
}

/// The addresses of the entries `data[..n]` that have one, in order; `None`
/// where such an entry lacks `id` or `br`.
pub open spec fn song_urls_upto(data: Seq<Json>, n: int) -> Option<Seq<SongUrlView>>
    decreases n,
{
    if n <= 0 {
        Some(seq![])
    } else {
        match song_urls_upto(data, n - 1) {
            None => None,
            Some(prev) => if has_url(data[n - 1]) {
                match song_url_of(data[n - 1]) {
                    Some(u) => Some(prev.push(u)),
                    None => None,
                }
            } else {
                Some(prev)
            },
        }
    }
}

/// Once an entry lacks its `id` or `br`, no longer prefix has addresses.
proof fn lemma_song_urls_none_stays(data: Seq<Json>, i: int, j: int)
    requires
        0 <= i <= j,
        song_urls_upto(data, i) is None,
    ensures
        song_urls_upto(data, j) is None,
    decreases j - i,
{
    if i < j {
        lemma_song_urls_none_stays(data, i, j - 1);
    }
}

/// The addresses of a song address response: the entries of `data` with a
/// non-empty `url`, in order.
pub open spec fn song_url_spec(root: Json) -> Result<Seq<SongUrlView>, ModelError> {
    match code_ok(root) {
        Err(e) => Err(e),
        Ok(_) => match as_array(field(root, "data"@)) {
            None => Err(ModelError::MissingField),
            Some(data) => match song_urls_upto(data, data.len() as int) {
                Some(urls) => Ok(urls),
                None => Err(ModelError::MissingField),
            },
        },
    }
}

/// A result holding a vector, with the elements taken by their views.
pub open spec fn vec_result_view<T: View>(r: Result<Vec<T>, ModelError>) -> Result<
    Seq<T::V>,
    ModelError,
> {
    match r {
        Ok(v) => Ok(v@.map_values(|x: T| x@)),
        Err(e) => Err(e),
    }
}

/// The addresses of a parsed song address response.
pub fn song_url_from_json(root: &Json) -> (r: Result<Vec<SongUrl>, ModelError>)
    ensures
        vec_result_view(r) == song_url_spec(*root),
{
    check_code(root)?;
    let data = match read_array(root.get("data")) {
        Some(a) => a,
        None => return Err(ModelError::MissingField),
    };
    let mut urls: Vec<SongUrl> = Vec::new();
    let n = data.len();
    let mut i: usize = 0;
    while i < n
        invariant
            n == data@.len(),
            i <= n,
            song_urls_upto(data@, i as int) == Some(urls@.map_values(|x: SongUrl| x@)),
            code_ok(*root) == Ok::<(), ModelError>(()),
            as_array(field(*root, "data"@)) == Some(data@),
        decreases n - i,
    {
        let v = &data[i];
        let url = read_text_or(v.get("url"), "");
        proof {
            reveal_strlit("");
        }
        if url.as_str().unicode_len() > 0 {
            let id = match read_u64(v.get("id")) {
                Some(x) => x,
                None => {
                    proof {
                        lemma_song_urls_none_stays(data@, i + 1, n as int);
                    }
                    return Err(ModelError::MissingField);
                },
            };
            let rate = match read_u32(v.get("br")) {
                Some(x) => x,
                None => {
                    proof {
                        lemma_song_urls_none_stays(data@, i + 1, n as int);
                    }
                    return Err(ModelError::MissingField);
                },
            };
            let ghost old_urls = urls@;
            urls.push(SongUrl { id, url, rate });
            assert(urls@.map_values(|x: SongUrl| x@) =~= old_urls.map_values(|x: SongUrl| x@).push(
                song_url_of(data@[i as int])->0,
            ));
        }
        i = i + 1;
    }
    Ok(urls)
}

/// Parses a song address response.
pub fn to_song_url(json: String) -> (r: Result<Vec<SongUrl>, ModelError>)
    ensures
        vec_result_view(r) == from_text(json@, |j: Json| song_url_spec(j)),
{
    match crate::json::parse_json(json.as_str()) {
        None => Err(ModelError::InvalidJson),
        Some(root) => song_url_from_json(&root),
    }
}

/// Whether a song can be played, and under which terms.
#[derive(Debug, Clone, Copy, PartialEq, Eq, Structural)]
pub enum SongCopyright {
    Free,
    VipOnly,
    Payment,
    VipOnlyHighRate,
    Unavailable,
    Unknown,
}

/// The terms that a fee code of the service stands for.
pub open spec fn copyright_of_fee(fee: i32) -> SongCopyright {
    if fee == 0 {
        SongCopyright::Free
    } else if fee == 1 {
        SongCopyright::VipOnly
    } else if fee == 4 {
        SongCopyright::Payment
    } else if fee == 8 {
        SongCopyright::VipOnlyHighRate
    } else {
        SongCopyright::Unknown
    }
}

/// The terms of a privilege entry: unavailable where its status `st` is
/// negative, otherwise those of its `fee`.
pub open spec fn copyright_of_privilege(v: Json) -> Result<SongCopyright, ModelError> {
    match (as_i32(field(v, "st"@)), as_i32(field(v, "fee"@))) {
        (Some(st), Some(fee)) => Ok(
            if st < 0 {
                SongCopyright::Unavailable
            } else {
                copyright_of_fee(fee)
            },
        ),
        _ => Err(ModelError::MissingField),
    }
}

impl SongCopyright {
    fn from_fee(fee: i32) -> (r: Self)
        ensures
            r == copyright_of_fee(fee),
    {
        match fee {
            0 => Self::Free,
            1 => Self::VipOnly,
            4 => Self::Payment,
            8 => Self::VipOnlyHighRate,
            _ => Self::Unknown,
        }
    }

    /// The terms of a privilege entry of a playlist response.
    pub fn from_privilege(v: &Json) -> (r: Result<Self, ModelError>)
        ensures
            r == copyright_of_privilege(*v),
    {
        let st = match read_i32(v.get("st")) {
            Some(x) => x,
            None => return Err(ModelError::MissingField),
        };
        let fee = match read_i32(v.get("fee")) {
            Some(x) => x,
            None => return Err(ModelError::MissingField),
        };
        let res = if st < 0 {
            Self::Unavailable
        } else {
            Self::from_fee(fee)
        };
        Ok(res)
    }

    /// Whether the song can be played at all: every terms but `Unavailable`.
    pub fn playable(&self) -> (r: bool)
        ensures
            r == (*self != SongCopyright::Unavailable),
    {
        *self != Self::Unavailable
    }
}

/// A song of the service.
#[derive(Debug, Clone)]
pub struct SongInfo {
    pub id: u64,
    pub name: String,
    pub singer: String,
    pub album: String,
    pub album_id: u64,
    pub pic_url: String,
    pub duration: u64,
    pub song_url: String,
    pub copyright: SongCopyright,
}

/// A song as plain values.
pub struct SongInfoView {
    pub id: u64,
    pub name: Seq<char>,
    pub singer: Seq<char>,
    pub album: Seq<char>,
    pub album_id: u64,
    pub pic_url: Seq<char>,
    pub duration: u64,
    pub song_url: Seq<char>,
    pub copyright: SongCopyright,
}

impl View for SongInfo {
    type V = SongInfoView;

    open spec fn view(&self) -> SongInfoView {
        SongInfoView {
            id: self.id,
            name: self.name@,
            singer: self.singer@,
            album: self.album@,
            album_id: self.album_id,
            pic_url: self.pic_url@,
            duration: self.duration,
            song_url: self.song_url@,
            copyright: self.copyright,
        }
    }
}

impl PartialEq for SongInfo {
    fn eq(&self, other: &Self) -> (r: bool) {
        self.id == other.id
    }
}

impl vstd::std_specs::cmp::PartialEqSpecImpl for SongInfo {
    open spec fn obeys_eq_spec() -> bool {
        true
    }

    open spec fn eq_spec(&self, other: &Self) -> bool {
        self.id == other.id
    }
}

impl Default for SongInfo {
    fn default() -> (r: Self)
        ensures
            r@ == (SongInfoView {
                id: 0,
                name: seq![],
                singer: seq![],
                album: seq![],
                album_id: 0,
                pic_url: seq![],
                duration: 0,
                song_url: seq![],
                copyright: SongCopyright::Unknown,
            }),
    {
        SongInfo {
            id: 0,
            name: String::new(),
            singer: String::new(),
            album: String::new(),
            album_id: 0,
            pic_url: String::new(),
            duration: 0,
            song_url: String::new(),
            copyright: SongCopyright::Unknown,
        }
    }
}

/// Which response a list is parsed from.
#[derive(Debug, Clone, Copy, PartialEq, Eq, Structural)]
pub enum Parse {
    Usl,
    Ucd,
    Rmd,
    Rmds,
    Search,
    SearchAlbum,
    LikeAlbum,
    Sd,
    Album,
    Top,
    Singer,
    SingerSongs,
    Radio,
    Intelligence,
    PersonalFm,
}

/// A song laid out the common way: `id` on the entry; `name`, the artist
/// list, the album object and the duration on `base` (the entry itself, or
/// an object inside it); the album object taken from `album_src`. The album
/// id is required unless a default is given.
pub open spec fn song_std(
    entry: Json,
    base: Option<Json>,
    album_src: Option<Json>,
    artists_key: Seq<char>,
    album_key: Seq<char>,
    duration_key: Seq<char>,
    album_id_default: Option<u64>,
) -> Option<SongInfoView> {
    let album = field_of(album_src, album_key);
    let album_id = match as_u64(field_of(album, "id"@)) {
        Some(a) => Some(a),
        None => album_id_default,
    };
    match (
        as_u64(field(entry, "id"@)),
        as_text(field_of(base, "name"@)),
        as_array(field_of(base, artists_key)),
        album_id,
        as_u64(field_of(base, duration_key)),
    ) {
        (Some(id), Some(name), Some(artists), Some(album_id), Some(duration)) => Some(
            SongInfoView {
                id,
                name,
                singer: first_artist(artists),
                album: text_or(field_of(album, "name"@), unknown()),
                album_id,
                pic_url: text_or_empty(field_of(album, "picUrl"@)),
                duration,
                song_url: seq![],
                copyright: SongCopyright::Unknown,
            },
        ),
        _ => None,
    }
}

/// A song of the user's cloud disk.
pub open spec fn song_ucd(v: Json) -> Option<SongInfoView> {
    match (
        as_u64(field(v, "songId"@)),
        as_text(field(v, "songName"@)),
        as_u64(field_of(field(v, "simpleSong"@), "dt"@)),
    ) {
        (Some(id), Some(name), Some(duration)) => Some(
            SongInfoView {
                id,
                name,
                singer: text_or(field(v, "artist"@), unknown()),
                album: text_or(field(v, "album"@), unknown()),
                album_id: 0,
                pic_url: text_or_empty(field_of(field_of(field(v, "simpleSong"@), "al"@), "picUrl"@)),
                duration,
                song_url: seq![],
                copyright: SongCopyright::Unknown,
            },
        ),
        _ => None,
    }
}

/// A hot song of a singer; the singer's name is required at the top level.
pub open spec fn song_singer(root: Json, v: Json) -> Option<SongInfoView> {
    match (
        as_u64(field(v, "id"@)),
        as_text(field(v, "name"@)),
        as_text(field_of(field(root, "artist"@), "name"@)),
        as_u64(field_of(field(v, "al"@), "id"@)),
        as_u64(field(v, "dt"@)),
    ) {
        (Some(id), Some(name), Some(singer), Some(album_id), Some(duration)) => Some(
            SongInfoView {
                id,
                name,
                singer,
                album: text_or(field_of(field(v, "al"@), "name"@), unknown()),
                album_id,
                pic_url: text_or_empty(field_of(field(v, "al"@), "picUrl"@)),
                duration,
                song_url: seq![],
                copyright: SongCopyright::Unknown,
            },
        ),
        _ => None,
    }
}

/// The title of a radio program: its issue number, counted down from the
/// number of programs.
pub open spec fn radio_issue(num: nat) -> Seq<char> {
    "第 "@ + crate::text::decimal(num) + " 期"@
}

/// A program of a radio station; `num` is its issue number.
pub open spec fn song_radio(v: Json, num: nat) -> Option<SongInfoView> {
    match (
        as_u64(field(v, "mainTrackId"@)),
        as_text(field(v, "name"@)),
        as_u64(field(v, "createTime"@)),
        as_text(field(v, "coverUrl"@)),
        as_u64(field(v, "duration"@)),
    ) {
        (Some(id), Some(name), Some(created), Some(cover), Some(duration)) => Some(
            SongInfoView {
                id,
                name,
                singer: radio_issue(num),
                album: decimal(created as nat),
                album_id: 0,
                pic_url: cover,
                duration,
                song_url: seq![],
                copyright: SongCopyright::Unknown,
            },
        ),
        _ => None,
    }
}

/// A song entry of a response of the given kind; `num` is the issue number
/// of a radio program.
pub open spec fn song_of(parse: Parse, root: Json, v: Json, num: nat) -> Option<SongInfoView> {
    match parse {
        Parse::Usl | Parse::SingerSongs => song_std(
            v,
            Some(v),
            Some(v),
            "ar"@,
            "al"@,
            "dt"@,
            None,
        ),
        Parse::Rmd | Parse::Rmds | Parse::Search | Parse::PersonalFm => song_std(
            v,
            Some(v),
            Some(v),
            "artists"@,
            "album"@,
            "duration"@,
            None,
        ),
        Parse::Album => song_std(v, Some(v), Some(root), "ar"@, "album"@, "dt"@, None),
        Parse::Intelligence => song_std(
            v,
            field(v, "songInfo"@),
            field(v, "songInfo"@),
            "ar"@,
            "al"@,
            "dt"@,
            None,
        ),
        Parse::Ucd => song_ucd(v),
        Parse::Singer => song_singer(root, v),
        Parse::Radio => song_radio(v, num),
        _ => None,
    }
}

/// The array of song entries of a response of the given kind; `None` where
/// it is missing; an empty list for kinds that hold no songs.
pub open spec fn song_array(parse: Parse, root: Json) -> Option<Seq<Json>> {
    match parse {
        Parse::Usl => match as_array(field(root, "songs"@)) {
            Some(a) => if a.len() > 0 {
                Some(a)
            } else {
                as_array(field_of(field(root, "playlist"@), "tracks"@))
            },
            None => as_array(field_of(field(root, "playlist"@), "tracks"@)),
        },
        Parse::Ucd | Parse::Rmd | Parse::Intelligence | Parse::PersonalFm => as_array(
            field(root, "data"@),
        ),
        Parse::Rmds => as_array(field_of(field(root, "data"@), "dailySongs"@)),
        Parse::Search => as_array(field_of(field(root, "result"@), "songs"@)),
        Parse::Album | Parse::SingerSongs => as_array(field(root, "songs"@)),
        Parse::Singer => as_array(field(root, "hotSongs"@)),
        Parse::Radio => as_array(field(root, "programs"@)),
        _ => Some(seq![]),
    }
}

/// Whether every entry of the array is a song.
pub open spec fn all_songs(parse: Parse, root: Json, a: Seq<Json>) -> bool {
    forall|i: int| 0 <= i < a.len() ==> (#[trigger] song_of(parse, root, a[i], (a.len() - i) as nat)) is Some
}

/// The songs of the array, entry by entry.
pub open spec fn songs_of(parse: Parse, root: Json, a: Seq<Json>) -> Seq<SongInfoView> {
    Seq::new(a.len(), |i: int| song_of(parse, root, a[i], (a.len() - i) as nat)->0)
}

/// The songs of a response of the given kind: every entry of its song array
/// made a song, in order; `MissingField` where the array is missing or an
/// entry lacks a required field.
pub open spec fn song_info_spec(root: Json, parse: Parse) -> Result<Seq<SongInfoView>, ModelError> {
    match code_ok(root) {
        Err(e) => Err(e),
        Ok(_) => match song_array(parse, root) {
            None => Err(ModelError::MissingField),
            Some(a) => if all_songs(parse, root, a) {
                Ok(songs_of(parse, root, a))
            } else {
                Err(ModelError::MissingField)
            },
        },
    }
}

/// Reads a song laid out the common way.
fn read_song_std(
    entry: &Json,
    base: Option<&Json>,
    album_src: Option<&Json>,
    artists_key: &str,
    album_key: &str,
    duration_key: &str,
    album_id_default: Option<u64>,
) -> (r: Option<SongInfo>)
    ensures
        match r {
            Some(s) => song_std(
                *entry,
                deref_opt(base),
                deref_opt(album_src),
                artists_key@,
                album_key@,
                duration_key@,
                album_id_default,
            ) == Some(s@),
            None => song_std(
                *entry,
                deref_opt(base),
                deref_opt(album_src),
                artists_key@,
                album_key@,
                duration_key@,
                album_id_default,
            ) is None,
        },
{
    let album = get_of(album_src, album_key);
    let id = read_u64(entry.get("id"))?;
    let name = read_string(get_of(base, "name"))?;
    let artists = read_array(get_of(base, artists_key))?;
    let album_id = match read_u64(get_of(album, "id")) {
        Some(a) => a,
        None => album_id_default?,
    };
    let duration = read_u64(get_of(base, duration_key))?;
    let singer = read_first_artist(artists);
    let album_name = read_text_or(get_of(album, "name"), "unknown");
    let pic_url = read_text_or(get_of(album, "picUrl"), "");
    proof {
        reveal_strlit("");
        assert(""@ =~= Seq::<char>::empty());
    }
    Some(
        SongInfo {
            id,
            name,
            singer,
            album: album_name,
            album_id,
            pic_url,
            duration,
            song_url: String::new(),
            copyright: SongCopyright::Unknown,
        },
    )
}

/// Reads a song of the user's cloud disk.
fn read_song_ucd(v: &Json) -> (r: Option<SongInfo>)
    ensures
        match r {
            Some(s) => song_ucd(*v) == Some(s@),
            None => song_ucd(*v) is None,
        },
{
    let id = read_u64(v.get("songId"))?;
    let name = read_string(v.get("songName"))?;
    let simple = v.get("simpleSong");
    let duration = read_u64(get_of(simple, "dt"))?;
    Some(
        SongInfo {
            id,
            name,
            singer: read_text_or(v.get("artist"), "unknown"),
            album: read_text_or(v.get("album"), "unknown"),
            album_id: 0,
            pic_url: read_text_or_empty(get_of(get_of(simple, "al"), "picUrl")),
            duration,
            song_url: String::new(),
            copyright: SongCopyright::Unknown,
        },
    )
}

/// Reads a hot song of a singer.
fn read_song_singer(root: &Json, v: &Json) -> (r: Option<SongInfo>)
    ensures
        match r {
            Some(s) => song_singer(*root, *v) == Some(s@),
            None => song_singer(*root, *v) is None,
        },
{
    let id = read_u64(v.get("id"))?;
    let name = read_string(v.get("name"))?;
    let singer = read_string(get_of(root.get("artist"), "name"))?;
    let al = v.get("al");
    let album_id = read_u64(get_of(al, "id"))?;
    let duration = read_u64(v.get("dt"))?;
    Some(
        SongInfo {
            id,
            name,
            singer,
            album: read_text_or(get_of(al, "name"), "unknown"),
            album_id,
            pic_url: read_text_or_empty(get_of(al, "picUrl")),
            duration,
            song_url: String::new(),
            copyright: SongCopyright::Unknown,
        },
    )
}

/// Reads a program of a radio station with its issue number.
fn read_song_radio(v: &Json, num: usize) -> (r: Option<SongInfo>)
    ensures
        match r {
            Some(s) => song_radio(*v, num as nat) == Some(s@),
            None => song_radio(*v, num as nat) is None,
        },
{
    let id = read_u64(v.get("mainTrackId"))?;
    let name = read_string(v.get("name"))?;
    let created = read_u64(v.get("createTime"))?;
    let cover = read_string(v.get("coverUrl"))?;
    let duration = read_u64(v.get("duration"))?;
    let mut singer = String::from_str("第 ");
    push_decimal(&mut singer, num as u64);
    singer.append(" 期");
    let album = crate::text::to_decimal(created);
    Some(
        SongInfo {
            id,
            name,
            singer,
            album,
            album_id: 0,
            pic_url: cover,
            duration,
            song_url: String::new(),
            copyright: SongCopyright::Unknown,
        },
    )
}

/// Reads a song entry of a response of the given kind.
fn read_song_of(parse: Parse, root: &Json, v: &Json, num: usize) -> (r: Option<SongInfo>)
    ensures
        match r {
            Some(s) => song_of(parse, *root, *v, num as nat) == Some(s@),
            None => song_of(parse, *root, *v, num as nat) is None,
        },
{
    match parse {
        Parse::Usl | Parse::SingerSongs => read_song_std(v, Some(v), Some(v), "ar", "al", "dt", None),
        Parse::Rmd | Parse::Rmds | Parse::Search | Parse::PersonalFm => read_song_std(
            v,
            Some(v),
            Some(v),
            "artists",
            "album",
            "duration",
            None,
        ),
        Parse::Album => read_song_std(v, Some(v), Some(root), "ar", "album", "dt", None),
        Parse::Intelligence => {
            let info = v.get("songInfo");
            read_song_std(v, info, info, "ar", "al", "dt", None)
        },
        Parse::Ucd => read_song_ucd(v),
        Parse::Singer => read_song_singer(root, v),
        Parse::Radio => read_song_radio(v, num),
        _ => None,
    }
}

/// Whether responses of this kind hold songs.
pub open spec fn holds_songs(parse: Parse) -> bool {
    !(parse is SearchAlbum || parse is LikeAlbum || parse is Sd || parse is Top)
}

/// Finds the array of song entries of a response of the given kind.
fn read_song_array(parse: Parse, root: &Json) -> (r: Option<&Vec<Json>>)
    requires
        holds_songs(parse),
    ensures
        match r {
            Some(a) => song_array(parse, *root) == Some(a@),
            None => song_array(parse, *root) is None,
        },
{
    match parse {
        Parse::Usl => {
            match read_array(root.get("songs")) {
                Some(a) => if a.len() > 0 {
                    Some(a)
                } else {
                    read_array(get_of(root.get("playlist"), "tracks"))
                },
                None => read_array(get_of(root.get("playlist"), "tracks")),
            }
        },
        Parse::Ucd | Parse::Rmd | Parse::Intelligence | Parse::PersonalFm => read_array(
            root.get("data"),
        ),
        Parse::Rmds => read_array(get_of(root.get("data"), "dailySongs")),
        Parse::Search => read_array(get_of(root.get("result"), "songs")),
        Parse::Album | Parse::SingerSongs => read_array(root.get("songs")),
        Parse::Singer => read_array(root.get("hotSongs")),
        Parse::Radio => read_array(root.get("programs")),
        _ => None,
    }
}

/// The songs of a parsed response of the given kind.
pub fn song_info_from_json(root: &Json, parse: Parse) -> (r: Result<Vec<SongInfo>, ModelError>)
    ensures
        vec_result_view(r) == song_info_spec(*root, parse),
{
    check_code(root)?;
    let has_songs = match parse {
        Parse::SearchAlbum | Parse::LikeAlbum | Parse::Sd | Parse::Top => false,
        _ => true,
    };
    if !has_songs {
        let empty: Vec<SongInfo> = Vec::new();
        assert(empty@.map_values(|x: SongInfo| x@) =~= songs_of(parse, *root, seq![]));
        return Ok(empty);
    }
    let a = match read_song_array(parse, root) {
        Some(a) => a,
        None => return Err(ModelError::MissingField),
    };
    let n = a.len();
    let mut songs: Vec<SongInfo> = Vec::new();
    let mut i: usize = 0;
    while i < n
        invariant
            n == a@.len(),
            i <= n,
            code_ok(*root) == Ok::<(), ModelError>(()),
            song_array(parse, *root) == Some(a@),
            holds_songs(parse),
            forall|j: int|
                0 <= j < i ==> (#[trigger] song_of(parse, *root, a@[j], (a@.len() - j) as nat)) is Some,
            songs@.map_values(|x: SongInfo| x@) =~= songs_of(parse, *root, a@).take(i as int),
        decreases n - i,
    {
        match read_song_of(parse, root, &a[i], n - i) {
            Some(song) => {
                let ghost old_songs = songs@;
                assert(song_of(parse, *root, a@[i as int], (a@.len() - i) as nat) == Some(song@));
                assert(songs_of(parse, *root, a@)[i as int] == song@);
                let ghost sv = song@;
                songs.push(song);
                assert(songs@.map_values(|x: SongInfo| x@) =~= old_songs.map_values(
                    |x: SongInfo| x@,
                ).push(sv));
                assert(songs_of(parse, *root, a@).take(i + 1) =~= songs_of(parse, *root, a@).take(
                    i as int,
                ).push(sv));
            },
            None => {
                assert(song_of(parse, *root, a@[i as int], (a@.len() - i) as nat) is None);
                assert(!all_songs(parse, *root, a@));
                return Err(ModelError::MissingField);
            },
        }
        i = i + 1;
    }
    assert(songs_of(parse, *root, a@).take(n as int) =~= songs_of(parse, *root, a@));
    Ok(songs)
}

/// Parses a song list response of the given kind.
pub fn to_song_info(json: String, parse: Parse) -> (r: Result<Vec<SongInfo>, ModelError>)
    ensures
        vec_result_view(r) == from_text(json@, |j: Json| song_info_spec(j, parse)),
{
    match crate::json::parse_json(json.as_str()) {
        None => Err(ModelError::InvalidJson),
        Some(root) => song_info_from_json(&root, parse),
    }
}

/// A playlist, album, artist or radio station in a list.
#[derive(Debug, Clone)]
pub struct SongList {
    pub id: u64,
    pub name: String,
    pub cover_img_url: String,
    pub author: String,
}

/// A list entry as plain values.
pub struct SongListView {
    pub id: u64,
    pub name: Seq<char>,
    pub cover_img_url: Seq<char>,
    pub author: Seq<char>,
}

impl View for SongList {
    type V = SongListView;

    open spec fn view(&self) -> SongListView {
        SongListView {
            id: self.id,
            name: self.name@,
            cover_img_url: self.cover_img_url@,
            author: self.author@,
        }
    }
}

/// How the entries of a list response are laid out.
#[derive(Debug, Clone, Copy, PartialEq, Eq, Structural)]
pub enum ListLayout {
    /// `coverImgUrl` and `creator.nickname`, both required
    Playlist,
    /// `picUrl` (may be missing) and `creator.nickname` (required)
    Recommended,
    /// `picUrl` and `artist.name`, both required
    Album,
    /// `picUrl` and the name of the first of `artists`, both required
    LikedAlbum,
    /// `picUrl` and `dj.nickname`, both required
    RadioStation,
    /// `picUrl` and `artist.name`, both may be missing
    SearchedAlbum,
    /// `picUrl` (may be missing) and no author
    SearchedArtist,
    /// `coverImgUrl` and `creator.nickname`, both may be missing
    SearchedPlaylist,
}

/// The author of a liked album: the name of the first of its artists, the
/// empty text where it has none.
pub open spec fn liked_album_author(artists: Option<Seq<Json>>) -> Option<Seq<char>> {
    match artists {
        None => None,
        Some(a) => if a.len() == 0 {
            Some(seq![])
        } else {
            as_text(field(a[0], "name"@))
        },
    }
}

/// The cover and author of a list entry laid out the given way.
pub open spec fn cover_and_author(layout: ListLayout, v: Json) -> Option<(Seq<char>, Seq<char>)> {
    let pic = as_text(field(v, "picUrl"@));
    let cover = as_text(field(v, "coverImgUrl"@));
    let creator = as_text(field_of(field(v, "creator"@), "nickname"@));
    let artist = as_text(field_of(field(v, "artist"@), "name"@));
    match layout {
        ListLayout::Playlist => match (cover, creator) {
            (Some(c), Some(a)) => Some((c, a)),
            _ => None,
        },
        ListLayout::Recommended => match creator {
            Some(a) => Some((text_or_empty(field(v, "picUrl"@)), a)),
            None => None,
        },
        ListLayout::Album => match (pic, artist) {
            (Some(c), Some(a)) => Some((c, a)),
            _ => None,
        },
        ListLayout::LikedAlbum => match (pic, liked_album_author(as_array(field(v, "artists"@)))) {
            (Some(c), Some(a)) => Some((c, a)),
            _ => None,
        },
        ListLayout::RadioStation => match (
            pic,
            as_text(field_of(field(v, "dj"@), "nickname"@)),
        ) {
            (Some(c), Some(a)) => Some((c, a)),
            _ => None,
        },
        ListLayout::SearchedAlbum => Some(
            (
                text_or_empty(field(v, "picUrl"@)),
                text_or(field_of(field(v, "artist"@), "name"@), unknown()),
            ),
        ),
        ListLayout::SearchedArtist => Some((text_or_empty(field(v, "picUrl"@)), seq![])),
        ListLayout::SearchedPlaylist => Some(
            (
                text_or_empty(field(v, "coverImgUrl"@)),
                text_or(field_of(field(v, "creator"@), "nickname"@), unknown()),
            ),
        ),
    }
}

/// A list entry laid out the given way; `id` and `name` are always required.
pub open spec fn song_list_of(layout: ListLayout, v: Json) -> Option<SongListView> {
    match (as_u64(field(v, "id"@)), as_text(field(v, "name"@)), cover_and_author(layout, v)) {
        (Some(id), Some(name), Some((cover, author))) => Some(
            SongListView { id, name, cover_img_url: cover, author },
        ),
        _ => None,
    }
}

/// The entries of an array laid out the given way, where every entry is one.
pub open spec fn song_lists_of(layout: ListLayout, a: Seq<Json>) -> Option<Seq<SongListView>> {
    if forall|i: int| 0 <= i < a.len() ==> (#[trigger] song_list_of(layout, a[i])) is Some {
        Some(Seq::new(a.len(), |i: int| song_list_of(layout, a[i])->0))
    } else {
        None
    }
}

/// Reads the cover and author of a list entry.
fn read_cover_and_author(layout: ListLayout, v: &Json) -> (r: Option<(String, String)>)
    ensures
        match r {
            Some((c, a)) => cover_and_author(layout, *v) == Some((c@, a@)),
            None => cover_and_author(layout, *v) is None,
        },
{
    match layout {
        ListLayout::Playlist => {
            let c = read_string(v.get("coverImgUrl"))?;
            let a = read_string(get_of(v.get("creator"), "nickname"))?;
            Some((c, a))
        },
        ListLayout::Recommended => {
            let c = read_text_or_empty(v.get("picUrl"));
            let a = read_string(get_of(v.get("creator"), "nickname"))?;
            Some((c, a))
        },
        ListLayout::Album => {
            let c = read_string(v.get("picUrl"))?;
            let a = read_string(get_of(v.get("artist"), "name"))?;
            Some((c, a))
        },
        ListLayout::LikedAlbum => {
            let c = read_string(v.get("picUrl"))?;
            let artists = read_array(v.get("artists"))?;
            let a = if artists.len() == 0 {
                String::new()
            } else {
                read_string(artists[0].get("name"))?
            };
            Some((c, a))
        },
        ListLayout::RadioStation => {
            let c = read_string(v.get("picUrl"))?;
            let a = read_string(get_of(v.get("dj"), "nickname"))?;
            Some((c, a))
        },
        ListLayout::SearchedAlbum => {
            let c = read_text_or_empty(v.get("picUrl"));
            let a = read_text_or(get_of(v.get("artist"), "name"), "unknown");
            Some((c, a))
        },
        ListLayout::SearchedArtist => {
            let c = read_text_or_empty(v.get("picUrl"));
            Some((c, String::new()))
        },
        ListLayout::SearchedPlaylist => {
            let c = read_text_or_empty(v.get("coverImgUrl"));
            let a = read_text_or(get_of(v.get("creator"), "nickname"), "unknown");
            Some((c, a))
        },
    }
}

/// Reads a list entry laid out the given way.
fn read_song_list(layout: ListLayout, v: &Json) -> (r: Option<SongList>)
    ensures
        match r {
            Some(l) => song_list_of(layout, *v) == Some(l@),
            None => song_list_of(layout, *v) is None,
        },
{
    let id = read_u64(v.get("id"))?;
    let name = read_string(v.get("name"))?;
    let (cover, author) = read_cover_and_author(layout, v)?;
    Some(SongList { id, name, cover_img_url: cover, author })
}

/// Reads every entry of an array laid out the given way.
fn read_song_lists(layout: ListLayout, a: &Vec<Json>) -> (r: Option<Vec<SongList>>)
    ensures
        match r {
            Some(l) => song_lists_of(layout, a@) == Some(l@.map_values(|x: SongList| x@)),
            None => song_lists_of(layout, a@) is None,
        },
{
    let n = a.len();
    let mut lists: Vec<SongList> = Vec::new();
    let mut i: usize = 0;
    while i < n
        invariant
            n == a@.len(),
            i <= n,
            forall|j: int| 0 <= j < i ==> (#[trigger] song_list_of(layout, a@[j])) is Some,
            lists@.map_values(|x: SongList| x@) =~= Seq::new(
                i as nat,
                |j: int| song_list_of(layout, a@[j])->0,
            ),
        decreases n - i,
    {
        match read_song_list(layout, &a[i]) {
            Some(l) => {
                let ghost old_lists = lists@;
                let ghost lv = l@;
                lists.push(l);
                assert(lists@.map_values(|x: SongList| x@) =~= old_lists.map_values(
                    |x: SongList| x@,
                ).push(lv));
            },
            None => {
                assert(song_list_of(layout, a@[i as int]) is None);
                return None;
            },
        }
        i = i + 1;
    }
    Some(lists)
}

/// The layout and the array of entries of a list response of the given
/// kind; `None` for kinds that hold no lists.
pub open spec fn list_layout(parse: Parse) -> Option<ListLayout> {
    match parse {
        Parse::Usl | Parse::Top | Parse::Search => Some(ListLayout::Playlist),
        Parse::Rmd => Some(ListLayout::Recommended),
        Parse::Album | Parse::SearchAlbum => Some(ListLayout::Album),
        Parse::LikeAlbum => Some(ListLayout::LikedAlbum),
        Parse::Radio => Some(ListLayout::RadioStation),
        _ => None,
    }
}

/// The array of list entries of a response of the given kind.
pub open spec fn list_array(parse: Parse, root: Json) -> Option<Seq<Json>> {
    match parse {
        Parse::Usl => as_array(field(root, "playlist"@)),
        Parse::Rmd => as_array(field(root, "recommend"@)),
        Parse::Album => as_array(field(root, "albums"@)),
        Parse::Top => as_array(field(root, "playlists"@)),
        Parse::Search => as_array(field_of(field(root, "result"@), "playlists"@)),
        Parse::SearchAlbum => as_array(field_of(field(root, "result"@), "albums"@)),
        Parse::LikeAlbum => as_array(field(root, "data"@)),
        Parse::Radio => as_array(field(root, "djRadios"@)),
        _ => None,
    }
}

/// The status of a list response: `MissingField` where it has no `code`,
/// `Status` where the code is not the integer 200.
pub open spec fn list_code_ok(root: Json) -> Result<(), ModelError> {
    match field(root, "code"@) {
        None => Err(ModelError::MissingField),
        Some(c) => if as_i64(Some(c)) == Some(200i64) {
            Ok(())
        } else {
            Err(ModelError::Status)
        },
    }
}

/// The entries of a list response of the given kind, in order; an empty
/// list for kinds that hold no lists.
pub open spec fn song_list_spec(root: Json, parse: Parse) -> Result<Seq<SongListView>, ModelError> {
    match list_code_ok(root) {
        Err(e) => Err(e),
        Ok(_) => match list_layout(parse) {
            None => Ok(seq![]),
            Some(layout) => match list_array(parse, root) {
                None => Err(ModelError::MissingField),
                Some(a) => match song_lists_of(layout, a) {
                    Some(l) => Ok(l),
                    None => Err(ModelError::MissingField),
                },
            },
        },
    }
}

/// Finds the array of list entries of a response of the given kind.
fn read_list_array(parse: Parse, root: &Json) -> (r: Option<&Vec<Json>>)
    ensures
        match r {
            Some(a) => list_array(parse, *root) == Some(a@),
            None => list_array(parse, *root) is None,
        },
{
    match parse {
        Parse::Usl => read_array(root.get("playlist")),
        Parse::Rmd => read_array(root.get("recommend")),
        Parse::Album => read_array(root.get("albums")),
        Parse::Top => read_array(root.get("playlists")),
        Parse::Search => read_array(get_of(root.get("result"), "playlists")),
        Parse::SearchAlbum => read_array(get_of(root.get("result"), "albums")),
        Parse::LikeAlbum => read_array(root.get("data")),
        Parse::Radio => read_array(root.get("djRadios")),
        _ => None,
    }
}

/// The entries of a parsed list response of the given kind.
pub fn song_list_from_json(root: &Json, parse: Parse) -> (r: Result<Vec<SongList>, ModelError>)
    ensures
        vec_result_view(r) == song_list_spec(*root, parse),
{
    let code = match root.get("code") {
        Some(c) => c,
        None => return Err(ModelError::MissingField),
    };
    match read_i64(Some(code)) {
        Some(c) => if c != 200 {
            return Err(ModelError::Status);
        },
        None => return Err(ModelError::Status),
    }
    let layout = match parse {
        Parse::Usl | Parse::Top | Parse::Search => ListLayout::Playlist,
        Parse::Rmd => ListLayout::Recommended,
        Parse::Album | Parse::SearchAlbum => ListLayout::Album,
        Parse::LikeAlbum => ListLayout::LikedAlbum,
        Parse::Radio => ListLayout::RadioStation,
        _ => {
            let empty: Vec<SongList> = Vec::new();
            assert(empty@.map_values(|x: SongList| x@) =~= Seq::<SongListView>::empty());
            return Ok(empty);
        },
    };
    let a = match read_list_array(parse, root) {
        Some(a) => a,
        None => return Err(ModelError::MissingField),
    };
    match read_song_lists(layout, a) {
        Some(l) => Ok(l),
        None => Err(ModelError::MissingField),
    }
}

/// Parses a list response of the given kind.
pub fn to_song_list(json: String, parse: Parse) -> (r: Result<Vec<SongList>, ModelError>)
    ensures
        vec_result_view(r) == from_text(json@, |j: Json| song_list_spec(j, parse)),
{
    match crate::json::parse_json(json.as_str()) {
        None => Err(ModelError::InvalidJson),
        Some(root) => song_list_from_json(&root, parse),
    }
}

/// A playlist with its songs.
#[derive(Debug, Clone)]
pub struct PlayListDetail {
    pub id: u64,
    pub name: String,
    pub cover_img_url: String,
    pub description: String,
    pub create_time: u64,
    pub track_update_time: u64,
    pub creator_id: u64,
    pub creator_nickname: String,
    pub creator_avatar_url: String,
    pub track_count: u64,
    pub subscribed: bool,
    pub songs: Vec<SongInfo>,
}

/// A playlist with its songs, as plain values.
pub struct PlayListDetailView {
    pub id: u64,
    pub name: Seq<char>,
    pub cover_img_url: Seq<char>,
    pub description: Seq<char>,
    pub create_time: u64,
    pub track_update_time: u64,
    pub creator_id: u64,
    pub creator_nickname: Seq<char>,
    pub creator_avatar_url: Seq<char>,
    pub track_count: u64,
    pub subscribed: bool,
    pub songs: Seq<SongInfoView>,
}

impl View for PlayListDetail {
    type V = PlayListDetailView;

    open spec fn view(&self) -> PlayListDetailView {
        PlayListDetailView {
            id: self.id,
            name: self.name@,
            cover_img_url: self.cover_img_url@,
            description: self.description@,
            create_time: self.create_time,
            track_update_time: self.track_update_time,
            creator_id: self.creator_id,
            creator_nickname: self.creator_nickname@,
            creator_avatar_url: self.creator_avatar_url@,
            track_count: self.track_count,
            subscribed: self.subscribed,
            songs: self.songs@.map_values(|x: SongInfo| x@),
        }
    }
}

/// A track of a playlist with its privilege entry: laid out like a song of a
/// user list, its terms taken from the privilege.
pub open spec fn mix_song(v: Json, p: Json) -> Option<SongInfoView> {
    match (song_std(v, Some(v), Some(v), "ar"@, "al"@, "dt"@, None), copyright_of_privilege(p)) {
        (Some(s), Ok(c)) => Some(SongInfoView { copyright: c, ..s }),
        _ => None,
    }
}

/// The tracks of a playlist response, paired with the privileges as far as
/// both lists go.
pub open spec fn mix_songs(tracks: Seq<Json>, privileges: Seq<Json>) -> Option<Seq<SongInfoView>> {
    let n = if tracks.len() <= privileges.len() {
        tracks.len()
    } else {
        privileges.len()
    };
    if forall|i: int| 0 <= i < n ==> (#[trigger] mix_song(tracks[i], privileges[i])) is Some {
        Some(Seq::new(n, |i: int| mix_song(tracks[i], privileges[i])->0))
    } else {
        None
    }
}

/// The tracks of a playlist response: `songs` where it is a non-empty array,
/// otherwise `playlist.tracks`.
pub open spec fn mix_tracks(root: Json) -> Option<Seq<Json>> {
    song_array(Parse::Usl, root)
}

/// The playlist of a playlist detail response.
pub open spec fn mix_detail_spec(root: Json) -> Result<PlayListDetailView, ModelError> {
    let pl = field(root, "playlist"@);
    let creator = field_of(pl, "creator"@);
    match code_ok(root) {
        Err(e) => Err(e),
        Ok(_) => match (mix_tracks(root), as_array(field(root, "privileges"@))) {
            (Some(tracks), Some(privileges)) => match mix_songs(tracks, privileges) {
                None => Err(ModelError::MissingField),
                Some(songs) => match (
                    as_u64(field_of(pl, "id"@)),
                    as_text(field_of(pl, "name"@)),
                    as_text(field_of(pl, "coverImgUrl"@)),
                    as_u64(field_of(pl, "createTime"@)),
                    as_u64(field_of(pl, "trackUpdateTime"@)),
                ) {
                    (Some(id), Some(name), Some(cover), Some(created), Some(updated)) => Ok(
                        PlayListDetailView {
                            id,
                            name,
                            cover_img_url: cover,
                            description: text_or_empty(field_of(pl, "description"@)),
                            create_time: created,
                            track_update_time: updated,
                            creator_id: match as_u64(field_of(creator, "userId"@)) {
                                Some(u) => u,
                                None => 0,
                            },
                            creator_nickname: text_or_empty(field_of(creator, "nickname"@)),
                            creator_avatar_url: text_or_empty(field_of(creator, "avatarUrl"@)),
                            track_count: match as_u64(field_of(pl, "trackCount"@)) {
                                Some(c) => c,
                                None => songs.len() as u64,
                            },
                            subscribed: match as_bool(field_of(pl, "subscribed"@)) {
                                Some(b) => b,
                                None => false,
                            },
                            songs,
                        },
                    ),
                    _ => Err(ModelError::MissingField),
                },
            },
            _ => Err(ModelError::MissingField),
        },
    }
}

/// The playlist of a parsed playlist detail response.
pub fn to_mix_detail(json: &Json) -> (r: Result<PlayListDetail, ModelError>)
    ensures
        result_view(r) == mix_detail_spec(*json),
{
    let value = json;
    check_code(value)?;
    let tracks = match read_song_array(Parse::Usl, value) {
        Some(a) => a,
        None => return Err(ModelError::MissingField),
    };
    let privileges = match read_array(value.get("privileges")) {
        Some(a) => a,
        None => return Err(ModelError::MissingField),
    };
    let n = if tracks.len() <= privileges.len() {
        tracks.len()
    } else {
        privileges.len()
    };
    let mut songs: Vec<SongInfo> = Vec::new();
    let mut i: usize = 0;
    while i < n
        invariant
            n <= tracks@.len(),
            n <= privileges@.len(),
            n == tracks@.len() || n == privileges@.len(),
            i <= n,
            code_ok(*json) == Ok::<(), ModelError>(()),
            mix_tracks(*json) == Some(tracks@),
            as_array(field(*json, "privileges"@)) == Some(privileges@),
            forall|j: int| 0 <= j < i ==> (#[trigger] mix_song(tracks@[j], privileges@[j])) is Some,
            songs@.map_values(|x: SongInfo| x@) =~= Seq::new(
                i as nat,
                |j: int| mix_song(tracks@[j], privileges@[j])->0,
            ),
        decreases n - i,
    {
        let v = &tracks[i];
        let song = match read_song_std(v, Some(v), Some(v), "ar", "al", "dt", None) {
            Some(s) => s,
            None => {
                assert(mix_song(tracks@[i as int], privileges@[i as int]) is None);
                return Err(ModelError::MissingField);
            },
        };
        let copyright = match SongCopyright::from_privilege(&privileges[i]) {
            Ok(c) => c,
            Err(e) => {
                assert(mix_song(tracks@[i as int], privileges@[i as int]) is None);
                return Err(ModelError::MissingField);
            },
        };
        let ghost old_songs = songs@;
        let song = SongInfo { copyright, ..song };
        let ghost sv = song@;
        assert(mix_song(tracks@[i as int], privileges@[i as int]) == Some(sv));
        songs.push(song);
        assert(songs@.map_values(|x: SongInfo| x@) =~= old_songs.map_values(|x: SongInfo| x@).push(
            sv,
        ));
        i = i + 1;
    }
    assert(mix_songs(tracks@, privileges@) == Some(songs@.map_values(|x: SongInfo| x@)));
    let pl = value.get("playlist");
    let creator = get_of(pl, "creator");
    let id = match read_u64(get_of(pl, "id")) {
        Some(x) => x,
        None => return Err(ModelError::MissingField),
    };
    let name = match read_string(get_of(pl, "name")) {
        Some(x) => x,
        None => return Err(ModelError::MissingField),
    };
    let cover_img_url = match read_string(get_of(pl, "coverImgUrl")) {
        Some(x) => x,
        None => return Err(ModelError::MissingField),
    };
    let create_time = match read_u64(get_of(pl, "createTime")) {
        Some(x) => x,
        None => return Err(ModelError::MissingField),
    };
    let track_update_time = match read_u64(get_of(pl, "trackUpdateTime")) {
        Some(x) => x,
        None => return Err(ModelError::MissingField),
    };
    let track_count = match read_u64(get_of(pl, "trackCount")) {
        Some(c) => c,
        None => songs.len() as u64,
    };
    Ok(
        PlayListDetail {
            id,
            name,
            cover_img_url,
            description: read_text_or_empty(get_of(pl, "description")),
            create_time,
            track_update_time,
            creator_id: match read_u64(get_of(creator, "userId")) {
                Some(u) => u,
                None => 0,
            },
            creator_nickname: read_text_or_empty(get_of(creator, "nickname")),
            creator_avatar_url: read_text_or_empty(get_of(creator, "avatarUrl")),
            track_count,
            subscribed: match read_bool(get_of(pl, "subscribed")) {
                Some(b) => b,
                None => false,
            },
            songs,
        },
    )
}

/// The ids of a liked-songs response: every entry of `ids` read as `u64`.
pub open spec fn song_id_list_spec(root: Json) -> Result<Seq<u64>, ModelError> {
    match code_ok(root) {
        Err(e) => Err(e),
        Ok(_) => match as_array(field(root, "ids"@)) {
            None => Err(ModelError::MissingField),
            Some(a) => if forall|i: int| 0 <= i < a.len() ==> (#[trigger] as_u64(Some(a[i]))) is Some {
                Ok(Seq::new(a.len(), |i: int| as_u64(Some(a[i]))->0))
            } else {
                Err(ModelError::MissingField)
            },
        },
    }
}

/// The ids of a parsed liked-songs response.
pub fn song_id_list_from_json(root: &Json) -> (r: Result<Vec<u64>, ModelError>)
    ensures
        match r {
            Ok(v) => song_id_list_spec(*root) == Ok::<Seq<u64>, ModelError>(v@),
            Err(e) => song_id_list_spec(*root) == Err::<Seq<u64>, ModelError>(e),
        },
{
    check_code(root)?;
    let a = match read_array(root.get("ids")) {
        Some(a) => a,
        None => return Err(ModelError::MissingField),
    };
    let n = a.len();
    let mut ids: Vec<u64> = Vec::new();
    let mut i: usize = 0;
    while i < n
        invariant
            n == a@.len(),
            i <= n,
            code_ok(*root) == Ok::<(), ModelError>(()),
            as_array(field(*root, "ids"@)) == Some(a@),
            forall|j: int| 0 <= j < i ==> (#[trigger] as_u64(Some(a@[j]))) is Some,
            ids@ =~= Seq::new(i as nat, |j: int| as_u64(Some(a@[j]))->0),
        decreases n - i,
    {
        match read_u64(Some(&a[i])) {
            Some(id) => ids.push(id),
            None => {
                assert(as_u64(Some(a@[i as int])) is None);
                return Err(ModelError::MissingField);
            },
        }
        i = i + 1;
    }
    Ok(ids)
}

/// Parses a liked-songs response.
pub fn to_song_id_list(json: String) -> (r: Result<Vec<u64>, ModelError>)
    ensures
        match r {
            Ok(v) => from_text(json@, |j: Json| song_id_list_spec(j)) == Ok::<Seq<u64>, ModelError>(v@),
            Err(e) => from_text(json@, |j: Json| song_id_list_spec(j)) == Err::<Seq<u64>, ModelError>(e),
        },
{
    match crate::json::parse_json(json.as_str()) {
        None => Err(ModelError::InvalidJson),
        Some(root) => song_id_list_from_json(&root),
    }
}

/// A status message of the service.
#[derive(Debug)]
pub struct Msg {
    pub code: i32,
    pub msg: String,
}

/// A status message as plain values.
pub struct MsgView {
    pub code: i32,
    pub msg: Seq<char>,
}

impl View for Msg {
    type V = MsgView;

    open spec fn view(&self) -> MsgView {
        MsgView { code: self.code, msg: self.msg@ }
    }
}

/// The message of a status response whose text is in the field `key`: code
/// 200 with no text on success, otherwise the code with that text.
pub open spec fn msg_spec(root: Json, key: Seq<char>) -> Result<MsgView, ModelError> {
    match as_i32(field(root, "code"@)) {
        None => Err(ModelError::MissingField),
        Some(code) => if code == 200 {
            Ok(MsgView { code: 200, msg: seq![] })
        } else {
            match as_text(field(root, key)) {
                Some(m) => Ok(MsgView { code, msg: m }),
                None => Err(ModelError::MissingField),
            }
        },
    }
}

/// The message of a parsed status response with its text in `key`.
fn msg_from_json(root: &Json, key: &str) -> (r: Result<Msg, ModelError>)
    ensures
        result_view(r) == msg_spec(*root, key@),
{
    let code = match read_i32(root.get("code")) {
        Some(c) => c,
        None => return Err(ModelError::MissingField),
    };
    if code == 200 {
        return Ok(Msg { code: 200, msg: String::new() });
    }
    match read_string(root.get(key)) {
        Some(msg) => Ok(Msg { code, msg }),
        None => Err(ModelError::MissingField),
    }
}

/// Parses a status response whose text is in `msg`.
pub fn to_msg(json: String) -> (r: Result<Msg, ModelError>)
    ensures
        result_view(r) == from_text(json@, |j: Json| msg_spec(j, "msg"@)),
{
    match crate::json::parse_json(json.as_str()) {
        None => Err(ModelError::InvalidJson),
        Some(root) => msg_from_json(&root, "msg"),
    }
}

/// Parses a status response whose text is in `message`.
pub fn to_message(json: String) -> (r: Result<Msg, ModelError>)
    ensures
        result_view(r) == from_text(json@, |j: Json| msg_spec(j, "message"@)),
{
    match crate::json::parse_json(json.as_str()) {
        None => Err(ModelError::InvalidJson),
        Some(root) => msg_from_json(&root, "message"),
    }
}

/// The account of a signed-in user, or the reason of a failed sign-in.
#[derive(Debug, Clone)]
pub struct LoginInfo {
    pub code: i32,
    pub uid: u64,
    pub nickname: String,
    pub avatar_url: String,
    pub vip_type: i32,
    pub msg: String,
}

/// An account as plain values.
pub struct LoginInfoView {
    pub code: i32,
    pub uid: u64,
    pub nickname: Seq<char>,
    pub avatar_url: Seq<char>,
    pub vip_type: i32,
    pub msg: Seq<char>,
}

impl View for LoginInfo {
    type V = LoginInfoView;

    open spec fn view(&self) -> LoginInfoView {
        LoginInfoView {
            code: self.code,
            uid: self.uid,
            nickname: self.nickname@,
            avatar_url: self.avatar_url@,
            vip_type: self.vip_type,
            msg: self.msg@,
        }
    }
}

impl Default for LoginInfo {
    fn default() -> (r: Self)
        ensures
            r@ == (LoginInfoView {
                code: 0,
                uid: 0,
                nickname: seq![],
                avatar_url: seq![],
                vip_type: 0,
                msg: seq![],
            }),
    {
        LoginInfo {
            code: 0,
            uid: 0,
            nickname: String::new(),
            avatar_url: String::new(),
            vip_type: 0,
            msg: String::new(),
        }
    }
}

/// The account of an account response: on code 200 the `profile`'s id,
/// nickname, avatar and VIP type; otherwise the code and the `msg`.
pub open spec fn login_info_spec(root: Json) -> Result<LoginInfoView, ModelError> {
    let profile = field(root, "profile"@);
    match as_i32(field(root, "code"@)) {
        None => Err(ModelError::MissingField),
        Some(code) => if code == 200 {
            match (
                as_u64(field_of(profile, "userId"@)),
                as_text(field_of(profile, "nickname"@)),
                as_text(field_of(profile, "avatarUrl"@)),
                as_i32(field_of(profile, "vipType"@)),
            ) {
                (Some(uid), Some(nickname), Some(avatar_url), Some(vip_type)) => Ok(
                    LoginInfoView { code, uid, nickname, avatar_url, vip_type, msg: seq![] },
                ),
                _ => Err(ModelError::MissingField),
            }
        } else {
            match as_text(field(root, "msg"@)) {
                Some(m) => Ok(
                    LoginInfoView {
                        code,
                        uid: 0,
                        nickname: seq![],
                        avatar_url: seq![],
                        vip_type: 0,
                        msg: m,
                    },
                ),
                None => Err(ModelError::MissingField),
            }
        },
    }
}

/// The account of a parsed account response.
pub fn login_info_from_json(root: &Json) -> (r: Result<LoginInfo, ModelError>)
    ensures
        result_view(r) == login_info_spec(*root),
{
    let code = match read_i32(root.get("code")) {
        Some(c) => c,
        None => return Err(ModelError::MissingField),
    };
    if code == 200 {
        let profile = root.get("profile");
        let uid = match read_u64(get_of(profile, "userId")) {
            Some(x) => x,
            None => return Err(ModelError::MissingField),
        };
        let nickname = match read_string(get_of(profile, "nickname")) {
            Some(x) => x,
            None => return Err(ModelError::MissingField),
        };
        let avatar_url = match read_string(get_of(profile, "avatarUrl")) {
            Some(x) => x,
            None => return Err(ModelError::MissingField),
        };
        let vip_type = match read_i32(get_of(profile, "vipType")) {
            Some(x) => x,
            None => return Err(ModelError::MissingField),
        };
        return Ok(LoginInfo { code, uid, nickname, avatar_url, vip_type, msg: String::new() });
    }
    match read_string(root.get("msg")) {
        Some(msg) => Ok(
            LoginInfo {
                code,
                uid: 0,
                nickname: String::new(),
                avatar_url: String::new(),
                vip_type: 0,
                msg,
            },
        ),
        None => Err(ModelError::MissingField),
    }
}

/// Parses an account response.
pub fn to_login_info(json: String) -> (r: Result<LoginInfo, ModelError>)
    ensures
        result_view(r) == from_text(json@, |j: Json| login_info_spec(j)),
{
    match crate::json::parse_json(json.as_str()) {
        None => Err(ModelError::InvalidJson),
        Some(root) => login_info_from_json(&root),
    }
}

/// What a banner leads to.
#[derive(Debug, Clone, Copy, PartialEq, Eq, Structural)]
pub enum TargetType {
    Song,
    Album,
    Unknown,
}

/// The target that a target type code stands for: 1 a song, 10 an album.
pub open spec fn target_of_code(t: i32) -> TargetType {
    if t == 1 {
        TargetType::Song
    } else if t == 10 {
        TargetType::Album
    } else {
        TargetType::Unknown
    }
}

impl From<i32> for TargetType {
    fn from(t: i32) -> (r: Self) {
        match t {
            1 => Self::Song,
            10 => Self::Album,
            _ => Self::Unknown,
        }
    }
}

impl vstd::std_specs::convert::FromSpecImpl<i32> for TargetType {
    open spec fn obeys_from_spec() -> bool {
        true
    }

    open spec fn from_spec(t: i32) -> Self {
        target_of_code(t)
    }
}

/// A banner of the home page.
#[derive(Debug, Clone)]
pub struct BannersInfo {
    pub pic: String,
    pub target_id: u64,
    pub target_type: TargetType,
    pub type_title: String,
}

/// A banner as plain values.
pub struct BannersInfoView {
    pub pic: Seq<char>,
    pub target_id: u64,
    pub target_type: TargetType,
    pub type_title: Seq<char>,
}

impl View for BannersInfo {
    type V = BannersInfoView;

    open spec fn view(&self) -> BannersInfoView {
        BannersInfoView {
            pic: self.pic@,
            target_id: self.target_id,
            target_type: self.target_type,
            type_title: self.type_title@,
        }
    }
}

/// A banner entry: image, target id and target type required, title
/// optional.
pub open spec fn banner_of(v: Json) -> Option<BannersInfoView> {
    match (
        as_text(field(v, "imageUrl"@)),
        as_u64(field(v, "targetId"@)),
        as_i32(field(v, "targetType"@)),
    ) {
        (Some(pic), Some(target_id), Some(t)) => Some(
            BannersInfoView {
                pic,
                target_id,
                target_type: target_of_code(t),
                type_title: text_or_empty(field(v, "typeTitle"@)),
            },
        ),
        _ => None,
    }
}

/// The status of a response whose code is read as `i32`.
pub open spec fn code32_ok(root: Json) -> Result<(), ModelError> {
    match as_i32(field(root, "code"@)) {
        None => Err(ModelError::MissingField),
        Some(c) => if c == 200 {
            Ok(())
        } else {
            Err(ModelError::Status)
        },
    }
}

/// Checks a status code read as `i32`.
fn check_code32(root: &Json) -> (r: Result<(), ModelError>)
    ensures
        r == code32_ok(*root),
{
    match read_i32(root.get("code")) {
        None => Err(ModelError::MissingField),
        Some(c) => if c == 200 {
            Ok(())
        } else {
            Err(ModelError::Status)
        },
    }
}

/// The banners of a banner response, in order.
pub open spec fn banners_spec(root: Json) -> Result<Seq<BannersInfoView>, ModelError> {
    match code32_ok(root) {
        Err(e) => Err(e),
        Ok(_) => match as_array(field(root, "banners"@)) {
            None => Err(ModelError::MissingField),
            Some(a) => if forall|i: int| 0 <= i < a.len() ==> (#[trigger] banner_of(a[i])) is Some {
                Ok(Seq::new(a.len(), |i: int| banner_of(a[i])->0))
            } else {
                Err(ModelError::MissingField)
            },
        },
    }
}

/// The banners of a parsed banner response.
pub fn banners_from_json(root: &Json) -> (r: Result<Vec<BannersInfo>, ModelError>)
    ensures
        vec_result_view(r) == banners_spec(*root),
{
    check_code32(root)?;
    let a = match read_array(root.get("banners")) {
        Some(a) => a,
        None => return Err(ModelError::MissingField),
    };
    let n = a.len();
    let mut banners: Vec<BannersInfo> = Vec::new();
    let mut i: usize = 0;
    while i < n
        invariant
            n == a@.len(),
            i <= n,
            code32_ok(*root) == Ok::<(), ModelError>(()),
            as_array(field(*root, "banners"@)) == Some(a@),
            forall|j: int| 0 <= j < i ==> (#[trigger] banner_of(a@[j])) is Some,
            banners@.map_values(|x: BannersInfo| x@) =~= Seq::new(
                i as nat,
                |j: int| banner_of(a@[j])->0,
            ),
        decreases n - i,
    {
        let v = &a[i];
        let pic = match read_string(v.get("imageUrl")) {
            Some(x) => x,
            None => {
                assert(banner_of(a@[i as int]) is None);
                return Err(ModelError::MissingField);
            },
        };
        let target_id = match read_u64(v.get("targetId")) {
            Some(x) => x,
            None => {
                assert(banner_of(a@[i as int]) is None);
                return Err(ModelError::MissingField);
            },
        };
        let t = match read_i32(v.get("targetType")) {
            Some(x) => x,
            None => {
                assert(banner_of(a@[i as int]) is None);
                return Err(ModelError::MissingField);
            },
        };
        let bi = BannersInfo {
            pic,
            target_id,
            target_type: TargetType::from(t),
            type_title: read_text_or_empty(v.get("typeTitle")),
        };
        let ghost old_banners = banners@;
        let ghost bv = bi@;
        banners.push(bi);
        assert(banners@.map_values(|x: BannersInfo| x@) =~= old_banners.map_values(
            |x: BannersInfo| x@,
        ).push(bv));
        i = i + 1;
    }
    Ok(banners)
}

/// Parses a banner response.
pub fn to_banners_info(json: String) -> (r: Result<Vec<BannersInfo>, ModelError>)
    ensures
        vec_result_view(r) == from_text(json@, |j: Json| banners_spec(j)),
{
    match crate::json::parse_json(json.as_str()) {
        None => Err(ModelError::InvalidJson),
        Some(root) => banners_from_json(&root),
    }
}

/// The key of a QR sign-in response.
pub open spec fn unikey_spec(root: Json) -> Result<Seq<char>, ModelError> {
    match code32_ok(root) {
        Err(e) => Err(e),
        Ok(_) => match as_text(field(root, "unikey"@)) {
            Some(k) => Ok(k),
            None => Err(ModelError::MissingField),
        },
    }
}

/// The key of a parsed QR sign-in response.
pub fn unikey_from_json(root: &Json) -> (r: Result<String, ModelError>)
    ensures
        result_view(r) == unikey_spec(*root),
{
    check_code32(root)?;
    match read_string(root.get("unikey")) {
        Some(k) => Ok(k),
        None => Err(ModelError::MissingField),
    }
}

/// Parses a QR sign-in response.
pub fn to_unikey(json: String) -> (r: Result<String, ModelError>)
    ensures
        result_view(r) == from_text(json@, |j: Json| unikey_spec(j)),
{
    match crate::json::parse_json(json.as_str()) {
        None => Err(ModelError::InvalidJson),
        Some(root) => unikey_from_json(&root),
    }
}

/// A chart of the service.
#[derive(Debug, Clone)]
pub struct TopList {
    pub id: u64,
    pub name: String,
    pub update: String,
    pub description: String,
    pub cover: String,
}

/// A chart as plain values.
pub struct TopListView {
    pub id: u64,
    pub name: Seq<char>,
    pub update: Seq<char>,
    pub description: Seq<char>,
    pub cover: Seq<char>,
}

impl View for TopList {
    type V = TopListView;

    open spec fn view(&self) -> TopListView {
        TopListView {
            id: self.id,
            name: self.name@,
            update: self.update@,
            description: self.description@,
            cover: self.cover@,
        }
    }
}

/// A chart entry: id and name required, the rest optional.
pub open spec fn toplist_of(v: Json) -> Option<TopListView> {
    match (as_u64(field(v, "id"@)), as_text(field(v, "name"@))) {
        (Some(id), Some(name)) => Some(
            TopListView {
                id,
                name,
                update: text_or_empty(field(v, "updateFrequency"@)),
                description: text_or_empty(field(v, "description"@)),
                cover: text_or_empty(field(v, "coverImgUrl"@)),
            },
        ),
        _ => None,
    }
}

/// The charts of a chart response, in order.
pub open spec fn toplist_spec(root: Json) -> Result<Seq<TopListView>, ModelError> {
    match code32_ok(root) {
        Err(e) => Err(e),
        Ok(_) => match as_array(field(root, "list"@)) {
            None => Err(ModelError::MissingField),
            Some(a) => if forall|i: int| 0 <= i < a.len() ==> (#[trigger] toplist_of(a[i])) is Some {
                Ok(Seq::new(a.len(), |i: int| toplist_of(a[i])->0))
            } else {
                Err(ModelError::MissingField)
            },
        },
    }
}

/// The charts of a parsed chart response.
pub fn toplist_from_json(root: &Json) -> (r: Result<Vec<TopList>, ModelError>)
    ensures
        vec_result_view(r) == toplist_spec(*root),
{
    check_code32(root)?;
    let a = match read_array(root.get("list")) {
        Some(a) => a,
        None => return Err(ModelError::MissingField),
    };
    let n = a.len();
    let mut toplist: Vec<TopList> = Vec::new();
    let mut i: usize = 0;
    while i < n
        invariant
            n == a@.len(),
            i <= n,
            code32_ok(*root) == Ok::<(), ModelError>(()),
            as_array(field(*root, "list"@)) == Some(a@),
            forall|j: int| 0 <= j < i ==> (#[trigger] toplist_of(a@[j])) is Some,
            toplist@.map_values(|x: TopList| x@) =~= Seq::new(
                i as nat,
                |j: int| toplist_of(a@[j])->0,
            ),
        decreases n - i,
    {
        let t = &a[i];
        let id = match read_u64(t.get("id")) {
            Some(x) => x,
            None => {
                assert(toplist_of(a@[i as int]) is None);
                return Err(ModelError::MissingField);
            },
        };
        let name = match read_string(t.get("name")) {
            Some(x) => x,
            None => {
                assert(toplist_of(a@[i as int]) is None);
                return Err(ModelError::MissingField);
            },
        };
        let entry = TopList {
            id,
            name,
            update: read_text_or_empty(t.get("updateFrequency")),
            description: read_text_or_empty(t.get("description")),
            cover: read_text_or_empty(t.get("coverImgUrl")),
        };
        let ghost old_list = toplist@;
        let ghost ev = entry@;
        toplist.push(entry);
        assert(toplist@.map_values(|x: TopList| x@) =~= old_list.map_values(|x: TopList| x@).push(
            ev,
        ));
        i = i + 1;
    }
    Ok(toplist)
}

/// Parses a chart response.
pub fn to_toplist(json: String) -> (r: Result<Vec<TopList>, ModelError>)
    ensures
        vec_result_view(r) == from_text(json@, |j: Json| toplist_spec(j)),
{
    match crate::json::parse_json(json.as_str()) {
        None => Err(ModelError::InvalidJson),
        Some(root) => toplist_from_json(&root),
    }
}

/// HTTP methods of the web API.
#[derive(Debug, Clone, Copy, PartialEq, Eq, Structural)]
pub enum Method {
    Post,
    Get,
}

/// Search results with their counts.
#[derive(Debug, Clone)]
pub struct SearchResponse {
    pub songs: Vec<SongInfo>,
    pub albums: Vec<SongList>,
    pub playlists: Vec<SongList>,
    pub song_count: u32,
    pub album_count: u32,
    pub playlist_count: u32,
}

/// Search results as plain values.
pub struct SearchResponseView {
    pub songs: Seq<SongInfoView>,
    pub albums: Seq<SongListView>,
    pub playlists: Seq<SongListView>,
    pub song_count: u32,
    pub album_count: u32,
    pub playlist_count: u32,
}

impl View for SearchResponse {
    type V = SearchResponseView;

    open spec fn view(&self) -> SearchResponseView {
        SearchResponseView {
            songs: self.songs@.map_values(|x: SongInfo| x@),
            albums: self.albums@.map_values(|x: SongList| x@),
            playlists: self.playlists@.map_values(|x: SongList| x@),
            song_count: self.song_count,
            album_count: self.album_count,
            playlist_count: self.playlist_count,
        }
    }
}

/// Empty search results.
pub open spec fn empty_search() -> SearchResponseView {
    SearchResponseView {
        songs: seq![],
        albums: seq![],
        playlists: seq![],
        song_count: 0,
        album_count: 0,
        playlist_count: 0,
    }
}

impl Default for SearchResponse {
    fn default() -> (r: Self)
        ensures
            r@ == empty_search(),
    {
        let r = SearchResponse {
            songs: Vec::new(),
            albums: Vec::new(),
            playlists: Vec::new(),
            song_count: 0,
            album_count: 0,
            playlist_count: 0,
        };
        assert(r@.songs =~= Seq::<SongInfoView>::empty());
        assert(r@.albums =~= Seq::<SongListView>::empty());
        assert(r@.playlists =~= Seq::<SongListView>::empty());
        r
    }
}

/// A song of the search results: laid out like a song of a user list, with
/// album id 0 where it is missing.
pub open spec fn searched_song(v: Json) -> Option<SongInfoView> {
    song_std(v, Some(v), Some(v), "ar"@, "al"@, "dt"@, Some(0u64))
}

/// The searched songs of an array, where every entry is one.
pub open spec fn searched_songs(a: Seq<Json>) -> Option<Seq<SongInfoView>> {
    if forall|i: int| 0 <= i < a.len() ==> (#[trigger] searched_song(a[i])) is Some {
        Some(Seq::new(a.len(), |i: int| searched_song(a[i])->0))
    } else {
        None
    }
}

/// An array of the `result` object, or the empty array where it is missing.
pub open spec fn result_array(root: Json, key: Seq<char>) -> Seq<Json> {
    match as_array(field_of(field(root, "result"@), key)) {
        Some(a) => a,
        None => seq![],
    }
}

/// A count of the `result` object, or 0 where it is missing.
pub open spec fn result_count(root: Json, key: Seq<char>) -> u32 {
    match as_u32(field_of(field(root, "result"@), key)) {
        Some(c) => c,
        None => 0,
    }
}

/// The results of a search response for the searched type: songs, albums,
/// artists (kept with the albums) or playlists, with the matching count.
pub open spec fn search_spec(root: Json, t: SearchType) -> Result<SearchResponseView, ModelError> {
    match code_ok(root) {
        Err(e) => Err(e),
        Ok(_) => match t {
            SearchType::Songs => match searched_songs(result_array(root, "songs"@)) {
                Some(songs) => Ok(
                    SearchResponseView {
                        songs,
                        song_count: result_count(root, "songCount"@),
                        ..empty_search()
                    },
                ),
                None => Err(ModelError::MissingField),
            },
            SearchType::Albums => match song_lists_of(
                ListLayout::SearchedAlbum,
                result_array(root, "albums"@),
            ) {
                Some(albums) => Ok(
                    SearchResponseView {
                        albums,
                        album_count: result_count(root, "albumCount"@),
                        ..empty_search()
                    },
                ),
                None => Err(ModelError::MissingField),
            },
            SearchType::Artists => match song_lists_of(
                ListLayout::SearchedArtist,
                result_array(root, "artists"@),
            ) {
                Some(albums) => Ok(
                    SearchResponseView {
                        albums,
                        album_count: result_count(root, "artistCount"@),
                        ..empty_search()
                    },
                ),
                None => Err(ModelError::MissingField),
            },
            SearchType::Playlists => match song_lists_of(
                ListLayout::SearchedPlaylist,
                result_array(root, "playlists"@),
            ) {
                Some(playlists) => Ok(
                    SearchResponseView {
                        playlists,
                        playlist_count: result_count(root, "playlistCount"@),
                        ..empty_search()
                    },
                ),
                None => Err(ModelError::MissingField),
            },
        },
    }
}

/// Reads an array of the `result` object, or the empty array.
fn read_result_array<'a>(root: &'a Json, key: &str, empty: &'a Vec<Json>) -> (r: &'a Vec<Json>)
    requires
        empty@.len() == 0,
    ensures
        r@ == result_array(*root, key@),
{
    match read_array(get_of(root.get("result"), key)) {
        Some(a) => a,
        None => {
            assert(empty@ =~= Seq::<Json>::empty());
            empty
        },
    }
}

/// Reads a count of the `result` object, or 0.
fn read_result_count(root: &Json, key: &str) -> (r: u32)
    ensures
        r == result_count(*root, key@),
{
    match read_u32(get_of(root.get("result"), key)) {
        Some(c) => c,
        None => 0,
    }
}

/// Reads the searched songs of an array.
fn read_searched_songs(a: &Vec<Json>) -> (r: Option<Vec<SongInfo>>)
    ensures
        match r {
            Some(l) => searched_songs(a@) == Some(l@.map_values(|x: SongInfo| x@)),
            None => searched_songs(a@) is None,
        },
{
    let n = a.len();
    let mut songs: Vec<SongInfo> = Vec::new();
    let mut i: usize = 0;
    while i < n
        invariant
            n == a@.len(),
            i <= n,
            forall|j: int| 0 <= j < i ==> (#[trigger] searched_song(a@[j])) is Some,
            songs@.map_values(|x: SongInfo| x@) =~= Seq::new(
                i as nat,
                |j: int| searched_song(a@[j])->0,
            ),
        decreases n - i,
    {
        let v = &a[i];
        match read_song_std(v, Some(v), Some(v), "ar", "al", "dt", Some(0)) {
            Some(song) => {
                let ghost old_songs = songs@;
                let ghost sv = song@;
                songs.push(song);
                assert(songs@.map_values(|x: SongInfo| x@) =~= old_songs.map_values(
                    |x: SongInfo| x@,
                ).push(sv));
            },
            None => {
                assert(searched_song(a@[i as int]) is None);
                return None;
            },
        }
        i = i + 1;
    }
    Some(songs)
}

/// The results of a parsed search response for the searched type.
pub fn search_response_from_json(root: &Json, search_type: SearchType) -> (r: Result<
    SearchResponse,
    ModelError,
>)
    ensures
        result_view(r) == search_spec(*root, search_type),
{
    check_code(root)?;
    let empty_vec: Vec<Json> = Vec::new();
    let mut response = SearchResponse::default();
    match search_type {
        SearchType::Songs => {
            let songs_array = read_result_array(root, "songs", &empty_vec);
            response.song_count = read_result_count(root, "songCount");
            match read_searched_songs(songs_array) {
                Some(songs) => response.songs = songs,
                None => return Err(ModelError::MissingField),
            }
        },
        SearchType::Albums => {
            let albums_array = read_result_array(root, "albums", &empty_vec);
            response.album_count = read_result_count(root, "albumCount");
            match read_song_lists(ListLayout::SearchedAlbum, albums_array) {
                Some(albums) => response.albums = albums,
                None => return Err(ModelError::MissingField),
            }
        },
        SearchType::Artists => {
            // Artists are returned as a list, kept with the albums
            let artists_array = read_result_array(root, "artists", &empty_vec);
            response.album_count = read_result_count(root, "artistCount");
            match read_song_lists(ListLayout::SearchedArtist, artists_array) {
                Some(albums) => response.albums = albums,
                None => return Err(ModelError::MissingField),
            }
        },
        SearchType::Playlists => {
            let playlists_array = read_result_array(root, "playlists", &empty_vec);
            response.playlist_count = read_result_count(root, "playlistCount");
            match read_song_lists(ListLayout::SearchedPlaylist, playlists_array) {
                Some(playlists) => response.playlists = playlists,
                None => return Err(ModelError::MissingField),
            }
        },
    }
    Ok(response)
}

/// Parses a search response for the searched type.
pub fn to_search_response(json: String, search_type: SearchType) -> (r: Result<
    SearchResponse,
    ModelError,
>)
    ensures
        result_view(r) == from_text(json@, |j: Json| search_spec(j, search_type)),
{
    match crate::json::parse_json(json.as_str()) {
        None => Err(ModelError::InvalidJson),
        Some(root) => search_response_from_json(&root, search_type),
    }
}

/// A string at a path, or a default where it is missing or not a string.
pub open spec fn string_or(o: Option<Json>, default: Seq<char>) -> Seq<char> {
    match o {
        Some(Json::Str(t)) => t@,
        _ => default,
    }
}

/// What a song of an album response takes from the response: its id, name,
/// duration and singer (the first of its artists) from its own entry, and
/// its album (name, id, picture) from the response's top-level `album`
/// object.
pub open spec fn takes_top_level_album(root: Json, entry: Json, song: SongInfoView) -> bool {
    let album = field(root, "album"@);
    let artists = as_array(field(entry, "ar"@));
    &&& Some(song.id) == as_u64(field(entry, "id"@))
    &&& Some(song.name) == as_text(field(entry, "name"@))
    &&& Some(song.duration) == as_u64(field(entry, "dt"@))
    &&& artists is Some
    &&& song.singer == (if artists->0.len() > 0 {
        string_or(field(artists->0[0], "name"@), "unknown"@)
    } else {
        "unknown"@
    })
    &&& Some(song.album_id) == as_u64(field_of(album, "id"@))
    &&& song.album == string_or(field_of(album, "name"@), "unknown"@)
    &&& song.pic_url == string_or(field_of(album, "picUrl"@), seq![])
}

/// The songs of an album response are the entries of its `songs` array, in
/// order, and each takes its album name, album id and picture from the
/// response's top-level `album` object, not from its own entry.
pub proof fn lemma_album_songs_take_top_level_album(root: Json)
    ensures
        match song_info_spec(root, Parse::Album) {
            Ok(songs) => {
                let entries = as_array(field(root, "songs"@))->0;
                &&& as_array(field(root, "songs"@)) is Some
                &&& songs.len() == entries.len()
                &&& forall|i: int|
                    #![trigger songs[i]]
                    0 <= i < songs.len() ==> takes_top_level_album(root, entries[i], songs[i])
            },
            Err(_) => true,
        },
{
    if let Ok(songs) = song_info_spec(root, Parse::Album) {
        let a = song_array(Parse::Album, root)->0;
        assert forall|i: int| 0 <= i < songs.len() implies takes_top_level_album(root, a[i], songs[i]) by {
            assert(song_of(Parse::Album, root, a[i], (a.len() - i) as nat) is Some);
        }
    }
}

/// Every chart of a chart response is an entry of its `list` array, in
/// order: its update text is the entry's `updateFrequency` and its
/// description the entry's `description` (each empty where missing).
pub proof fn lemma_chart_texts_come_from_their_fields(root: Json)
    ensures
        match toplist_spec(root) {
            Ok(lists) => {
            let entries = as_array(field(root, "list"@))->0;
            &&& as_array(field(root, "list"@)) is Some
            &&& lists.len() == entries.len()
            &&& forall|i: int|
                #![trigger lists[i]]
                0 <= i < lists.len() ==> lists[i].update == string_or(
                    field(entries[i], "updateFrequency"@),
                    seq![],
                ) && lists[i].description == string_or(field(entries[i], "description"@), seq![])
                    && lists[i].cover == string_or(field(entries[i], "coverImgUrl"@), seq![])
                    && Some(lists[i].id) == as_u64(field(entries[i], "id"@))
            },
            Err(_) => true,
        },
{
    if let Ok(lists) = toplist_spec(root) {
        let a = as_array(field(root, "list"@))->0;
        assert forall|i: int| 0 <= i < lists.len() implies lists[i].update == string_or(
            field(a[i], "updateFrequency"@),
            seq![],
        ) && lists[i].description == string_or(field(a[i], "description"@), seq![])
            && lists[i].cover == string_or(field(a[i], "coverImgUrl"@), seq![])
            && Some(lists[i].id) == as_u64(field(a[i], "id"@)) by {
            assert(toplist_of(a[i]) is Some);
        }
    }
}

/// The lists of a top-lists response are the entries of its `playlists`
/// array, in order, each with its required `coverImgUrl` as cover and its
/// creator's nickname as author; a status-200 response with an entry
/// whose `coverImgUrl` is missing is refused as `MissingField`.
pub proof fn lemma_top_lists_take_cover_img_url(root: Json)
    ensures
        match song_list_spec(root, Parse::Top) {
            Ok(lists) => {
            let entries = as_array(field(root, "playlists"@))->0;
            &&& as_array(field(root, "playlists"@)) is Some
            &&& lists.len() == entries.len()
            &&& forall|i: int|
                #![trigger lists[i]]
                0 <= i < lists.len() ==> Some(lists[i].cover_img_url) == as_text(
                    field(entries[i], "coverImgUrl"@),
                ) && Some(lists[i].author) == as_text(
                    field_of(field(entries[i], "creator"@), "nickname"@),
                )
            },
            Err(_) => true,
        },
        (as_i64(field(root, "code"@)) == Some(200i64) && as_array(field(root, "playlists"@)) is Some
            && exists|i: int|
            0 <= i < as_array(field(root, "playlists"@))->0.len() && as_text(
                field(#[trigger] as_array(field(root, "playlists"@))->0[i], "coverImgUrl"@),
            ) is None) ==> song_list_spec(root, Parse::Top) == Err::<Seq<SongListView>, ModelError>(
            ModelError::MissingField,
        ),
{
    if let Ok(lists) = song_list_spec(root, Parse::Top) {
        let a = as_array(field(root, "playlists"@))->0;
        assert forall|i: int| 0 <= i < lists.len() implies Some(lists[i].cover_img_url) == as_text(
            field(a[i], "coverImgUrl"@),
        ) && Some(lists[i].author) == as_text(field_of(field(a[i], "creator"@), "nickname"@)) by {
            assert(song_list_of(ListLayout::Playlist, a[i]) is Some);
        }
    }
    if as_i64(field(root, "code"@)) == Some(200i64) && as_array(field(root, "playlists"@)) is Some {
        let a = as_array(field(root, "playlists"@))->0;
        if exists|i: int| 0 <= i < a.len() && as_text(field(#[trigger] a[i], "coverImgUrl"@)) is None {
            let i = choose|i: int| 0 <= i < a.len() && as_text(field(#[trigger] a[i], "coverImgUrl"@)) is None;
            assert(song_list_of(ListLayout::Playlist, a[i]) is None);
        }
    }
}

/// The count of a search response is the count of the searched kind in
/// its `result` object (0 where missing): `songCount` for songs,
/// `albumCount` for albums, `artistCount` for artists (kept with the
/// albums), `playlistCount` for playlists; the other counts are 0.
pub proof fn lemma_search_counts(root: Json, t: SearchType)
    ensures
        match search_spec(root, t) {
            Ok(r) => {
            let count = |k: Seq<char>|
                match field_of(field(root, "result"@), k) {
                    Some(Json::Number(JsonNumber::PosInt(u))) => if u <= u32::MAX {
                        u as u32
                    } else {
                        0u32
                    },
                    Some(Json::Number(JsonNumber::NegInt(n))) => if 0 <= n <= u32::MAX {
                        n as u32
                    } else {
                        0u32
                    },
                    _ => 0u32,
                };
            &&& t == SearchType::Songs ==> r.song_count == count("songCount"@) && r.album_count == 0
                && r.playlist_count == 0
            &&& t == SearchType::Albums ==> r.album_count == count("albumCount"@) && r.song_count == 0
                && r.playlist_count == 0
            &&& t == SearchType::Artists ==> r.album_count == count("artistCount"@) && r.song_count
                == 0 && r.playlist_count == 0
            &&& t == SearchType::Playlists ==> r.playlist_count == count("playlistCount"@)
                && r.song_count == 0 && r.album_count == 0
            },
            Err(_) => true,
        },
{
}

} // verus!
