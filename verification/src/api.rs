//! Requests to the streaming service's web API: the address and user agent
//! of a request, the CSRF token taken from the session cookies, the track
//! ids of a playlist and how the missing ones are fetched in batches, and
//! the addresses of QR logins and resized images.

use vstd::prelude::*;
use vstd::std_specs::hash::*;
use vstd::string::*;
use vstd::utf8::encode_utf8;

use std::collections::HashSet;

use crate::json::{
    as_array, as_i64, as_u64, field, field_of, path2, read_array, read_i64, read_u64, Json,
};
use crate::model::{
    search_type_code, Method, ModelError, Msg, PlayListDetail, SearchType, SongInfo, SongInfoView,
};
use crate::crypto::{eapi_body, linuxapi_body, paddable, weapi_body, Crypto};
use crate::strings::{str_equal, string_push};
use crate::text::{concat_str, decimal, piece_at, push_decimal, push_str, to_decimal};

verus! {

broadcast use vstd::std_specs::hash::group_hash_axioms;

/// Songs asked for in one song detail request.
pub const DETAIL_BATCH: usize = 500;

/// How the body of a request is encrypted.
#[derive(Debug, Clone, Copy, PartialEq, Eq, Structural)]
pub enum CryptoApi {
    Weapi,
    LinuxApi,
    Eapi,
}

/// The address of the web site that the API lives on.
pub open spec fn base_url() -> Seq<char> {
    "https://music.163.com"@
}

/// The user agent that requests of the Linux client send.
pub open spec fn linux_user_agent() -> Seq<char> {
    "Mozilla/5.0 (X11; Linux x86_64) AppleWebKit/537.36 (KHTML, like Gecko) Chrome/60.0.3112.90 Safari/537.36"@
}

/// Number of user agents to choose from.
pub const USER_AGENT_COUNT: usize = 14;

/// The user agents that requests pretend to come from: mobile ones first
/// (0 to 6), then desktop browsers.
pub open spec fn user_agent_text(i: int) -> Seq<char> {
    if i == 0 {
        "Mozilla/5.0 (iPhone; CPU iPhone OS 9_1 like Mac OS X) AppleWebKit/601.1.46 (KHTML, like Gecko) Version/9.0 Mobile/13B143 Safari/601.1"@
    } else if i == 1 {
        "Mozilla/5.0 (iPhone; CPU iPhone OS 9_1 like Mac OS X) AppleWebKit/601.1.46 (KHTML, like Gecko) Version/9.0 Mobile/13B143 Safari/601.1"@
    } else if i == 2 {
        "Mozilla/5.0 (Linux; Android 5.0; SM-G900P Build/LRX21T) AppleWebKit/537.36 (KHTML, like Gecko) Chrome/59.0.3071.115 Mobile Safari/537.36"@
    } else if i == 3 {
        "Mozilla/5.0 (Linux; Android 6.0; Nexus 5 Build/MRA58N) AppleWebKit/537.36 (KHTML, like Gecko) Chrome/59.0.3071.115 Mobile Safari/537.36"@
    } else if i == 4 {
        "Mozilla/5.0 (Linux; Android 5.1.1; Nexus 6 Build/LYZ28E) AppleWebKit/537.36 (KHTML, like Gecko) Chrome/59.0.3071.115 Mobile Safari/537.36"@
    } else if i == 5 {
        "Mozilla/5.0 (iPhone; CPU iPhone OS 10_3_2 like Mac OS X) AppleWebKit/603.2.4 (KHTML, like Gecko) Mobile/14F89;GameHelper"@
    } else if i == 6 {
        "Mozilla/5.0 (iPhone; CPU iPhone OS 10_0 like Mac OS X) AppleWebKit/602.1.38 (KHTML, like Gecko) Version/10.0 Mobile/14A300 Safari/602.1"@
    } else if i == 7 {
        "Mozilla/5.0 (iPad; CPU OS 10_0 like Mac OS X) AppleWebKit/602.1.38 (KHTML, like Gecko) Version/10.0 Mobile/14A300 Safari/602.1"@
    } else if i == 8 {
        "Mozilla/5.0 (Macintosh; Intel Mac OS X 10.12; rv:46.0) Gecko/20100101 Firefox/46.0"@
    } else if i == 9 {
        "Mozilla/5.0 (Macintosh; Intel Mac OS X 10_12_5) AppleWebKit/537.36 (KHTML, like Gecko) Chrome/59.0.3071.115 Safari/537.36"@
    } else if i == 10 {
        "Mozilla/5.0 (Macintosh; Intel Mac OS X 10_12_5) AppleWebKit/603.2.4 (KHTML, like Gecko) Version/10.1.1 Safari/603.2.4"@
    } else if i == 11 {
        "Mozilla/5.0 (Windows NT 10.0; Win64; x64; rv:46.0) Gecko/20100101 Firefox/46.0"@
    } else if i == 12 {
        "Mozilla/5.0 (Windows NT 10.0; Win64; x64) AppleWebKit/537.36 (KHTML, like Gecko) Chrome/51.0.2704.103 Safari/537.36"@
    } else {
        "Mozilla/5.0 (Windows NT 10.0; Win64; x64) AppleWebKit/537.36 (KHTML, like Gecko) Chrome/42.0.2311.135 Safari/537.36 Edge/13.1058"@
    }
}

/// The user agent at a position of the list.
pub fn user_agent(i: usize) -> (r: &'static str)
    requires
        i < USER_AGENT_COUNT,
    ensures
        r@ == user_agent_text(i as int),
{
    if i == 0 {
        "Mozilla/5.0 (iPhone; CPU iPhone OS 9_1 like Mac OS X) AppleWebKit/601.1.46 (KHTML, like Gecko) Version/9.0 Mobile/13B143 Safari/601.1"
    } else if i == 1 {
        "Mozilla/5.0 (iPhone; CPU iPhone OS 9_1 like Mac OS X) AppleWebKit/601.1.46 (KHTML, like Gecko) Version/9.0 Mobile/13B143 Safari/601.1"
    } else if i == 2 {
        "Mozilla/5.0 (Linux; Android 5.0; SM-G900P Build/LRX21T) AppleWebKit/537.36 (KHTML, like Gecko) Chrome/59.0.3071.115 Mobile Safari/537.36"
    } else if i == 3 {
        "Mozilla/5.0 (Linux; Android 6.0; Nexus 5 Build/MRA58N) AppleWebKit/537.36 (KHTML, like Gecko) Chrome/59.0.3071.115 Mobile Safari/537.36"
    } else if i == 4 {
        "Mozilla/5.0 (Linux; Android 5.1.1; Nexus 6 Build/LYZ28E) AppleWebKit/537.36 (KHTML, like Gecko) Chrome/59.0.3071.115 Mobile Safari/537.36"
    } else if i == 5 {
        "Mozilla/5.0 (iPhone; CPU iPhone OS 10_3_2 like Mac OS X) AppleWebKit/603.2.4 (KHTML, like Gecko) Mobile/14F89;GameHelper"
    } else if i == 6 {
        "Mozilla/5.0 (iPhone; CPU iPhone OS 10_0 like Mac OS X) AppleWebKit/602.1.38 (KHTML, like Gecko) Version/10.0 Mobile/14A300 Safari/602.1"
    } else if i == 7 {
        "Mozilla/5.0 (iPad; CPU OS 10_0 like Mac OS X) AppleWebKit/602.1.38 (KHTML, like Gecko) Version/10.0 Mobile/14A300 Safari/602.1"
    } else if i == 8 {
        "Mozilla/5.0 (Macintosh; Intel Mac OS X 10.12; rv:46.0) Gecko/20100101 Firefox/46.0"
    } else if i == 9 {
        "Mozilla/5.0 (Macintosh; Intel Mac OS X 10_12_5) AppleWebKit/537.36 (KHTML, like Gecko) Chrome/59.0.3071.115 Safari/537.36"
    } else if i == 10 {
        "Mozilla/5.0 (Macintosh; Intel Mac OS X 10_12_5) AppleWebKit/603.2.4 (KHTML, like Gecko) Version/10.1.1 Safari/603.2.4"
    } else if i == 11 {
        "Mozilla/5.0 (Windows NT 10.0; Win64; x64; rv:46.0) Gecko/20100101 Firefox/46.0"
    } else if i == 12 {
        "Mozilla/5.0 (Windows NT 10.0; Win64; x64) AppleWebKit/537.36 (KHTML, like Gecko) Chrome/51.0.2704.103 Safari/537.36"
    } else {
        "Mozilla/5.0 (Windows NT 10.0; Win64; x64) AppleWebKit/537.36 (KHTML, like Gecko) Chrome/42.0.2311.135 Safari/537.36 Edge/13.1058"
    }
}

/// `rand::random::<u16>()`: a random number. Nothing is promised of it
/// beyond its type.
#[verifier::external_body]
fn random_u16() -> (r: u16) {
    rand::random::<u16>()
}

/// The list position that a requested kind of user agent and a random
/// number pick: a mobile one (0 to 6) for "mobile", a desktop one (8 to 12)
/// for "pc", any one for an empty request; none for a user agent given
/// in full.
pub open spec fn agent_index(ua: Seq<char>, random: u16) -> Option<int> {
    if ua == "mobile"@ {
        Some((random % 7) as int)
    } else if ua == "pc"@ {
        Some(random % 5 + 8)
    } else if ua.len() > 0 {
        None
    } else {
        Some((random % 14) as int)
    }
}

/// The user agent that a request sends, given the random number drawn for
/// it: a user agent given in full is sent as it is.
pub fn user_agent_for(ua: &str, random: u16) -> (r: String)
    ensures
        agent_index(ua@, random) matches Some(i) ==> r@ == user_agent_text(i),
        agent_index(ua@, random) is None ==> r@ == ua@,
{
    proof {
        reveal_strlit("mobile");
        reveal_strlit("pc");
    }
    let index = if str_equal(ua, "mobile") {
        random % 7
    } else if str_equal(ua, "pc") {
        random % 5 + 8
    } else if ua.unicode_len() > 0 {
        return ua.to_owned();
    } else {
        random % 14
    };
    user_agent(index as usize).to_owned()
}

/// Chooses the user agent of a request: a random mobile or desktop one
/// for "mobile" or "pc", a random one for an empty request, the given one
/// otherwise.
pub fn choose_user_agent(ua: &str) -> (r: String)
    ensures
        ua@ == "mobile"@ ==> exists|i: int| 0 <= i < 7 && r@ == #[trigger] user_agent_text(i),
        ua@ == "pc"@ ==> exists|i: int| 8 <= i < 13 && r@ == #[trigger] user_agent_text(i),
        ua@.len() == 0 ==> exists|i: int| 0 <= i < 14 && r@ == #[trigger] user_agent_text(i),
        ua@ != "mobile"@ && ua@ != "pc"@ && ua@.len() > 0 ==> r@ == ua@,
{
    proof {
        reveal_strlit("mobile");
        reveal_strlit("pc");
    }
    let random = random_u16();
    let r = user_agent_for(ua, random);
    proof {
        if ua@ == "pc"@ {
            let i = (random % 5 + 8) as int;
            assert(agent_index(ua@, random) == Some(i));
            assert(8 <= i < 13);
            assert(r@ == user_agent_text(i));
        }
    }
    r
}

/// The user agent that a request with a given encryption sends: the Linux
/// client's for its API, a chosen one otherwise.
pub fn request_user_agent(crypto: CryptoApi, ua: &str) -> (r: String)
    ensures
        crypto == CryptoApi::LinuxApi ==> r@ == linux_user_agent(),
        crypto != CryptoApi::LinuxApi && ua@ != "mobile"@ && ua@ != "pc"@ && ua@.len() > 0 ==> r@
            == ua@,
        crypto != CryptoApi::LinuxApi && ua@.len() == 0 ==> exists|i: int|
            0 <= i < 14 && r@ == #[trigger] user_agent_text(i),
{
    match crypto {
        CryptoApi::LinuxApi => "Mozilla/5.0 (X11; Linux x86_64) AppleWebKit/537.36 (KHTML, like Gecko) Chrome/60.0.3112.90 Safari/537.36".to_owned(),
        _ => choose_user_agent(ua),
    }
}

/// The address a request goes to: the API path on the web site, with the
/// CSRF token as query where it is appended; an encrypted player request
/// (`Eapi`) goes to its path as given.
pub open spec fn request_url_of(
    path: Seq<char>,
    csrf: Seq<char>,
    append_csrf: bool,
    crypto: CryptoApi,
) -> Seq<char> {
    if crypto == CryptoApi::Eapi {
        path
    } else if append_csrf {
        base_url() + path + "?csrf_token="@ + csrf
    } else {
        base_url() + path
    }
}

/// The address a request goes to.
pub fn request_url(path: &str, csrf: &str, append_csrf: bool, crypto: CryptoApi) -> (r: String)
    ensures
        r@ == request_url_of(path@, csrf@, append_csrf, crypto),
{
    if crypto == CryptoApi::Eapi {
        return path.to_owned();
    }
    let mut url = concat_str("https://music.163.com", path);
    if append_csrf {
        push_str(&mut url, "?csrf_token=");
        push_str(&mut url, csrf);
    }
    proof {
        assert(url@ =~= request_url_of(path@, csrf@, append_csrf, crypto));
    }
    url
}

/// The first capture of the named group where the regular expression
/// `pattern` (as the `regex` crate reads it) matches `text`, searched from
/// the left; none where it does not match or is no valid expression.
pub uninterp spec fn regex_capture(pattern: Seq<char>, text: Seq<char>, group: Seq<char>) -> Option<
    Seq<char>,
>;

/// The expression that finds the CSRF token in a cookie header.
pub open spec fn csrf_pattern() -> Seq<char> {
    "_csrf=(?P<csrf>[^(;|$)]+)"@
}

/// A character that the token class of the CSRF expression takes: any but
/// `(`, `;`, `|`, `$` and `)`.
pub open spec fn csrf_char(c: char) -> bool {
    c != '(' && c != ';' && c != '|' && c != '$' && c != ')'
}

/// Whether the CSRF expression can match starting at position `i`:
/// `_csrf=` followed by at least one token character.
pub open spec fn csrf_at(t: Seq<char>, i: int) -> bool {
    0 <= i && i + 7 <= t.len() && t.subrange(i, i + 6) == "_csrf="@ && csrf_char(t[i + 6])
}

/// The end of the run of token characters from position `k`.
pub open spec fn run_end(t: Seq<char>, k: int) -> int
    decreases t.len() - k,
{
    if 0 <= k < t.len() && csrf_char(t[k]) {
        run_end(t, k + 1)
    } else {
        k
    }
}

/// The `csrf` group of the CSRF expression's leftmost match: the longest
/// run of token characters after the first `_csrf=` that has one.
pub open spec fn csrf_capture(t: Seq<char>) -> Option<Seq<char>> {
    if exists|i: int| csrf_at(t, i) {
        let i = choose|i: int| csrf_at(t, i) && forall|j: int| 0 <= j < i ==> !csrf_at(t, j);
        Some(t.subrange(i + 6, run_end(t, i + 6)))
    } else {
        None
    }
}

/// `regex::Regex::new(pattern)` and `Regex::captures(text)`, then the named
/// group: the text of the group in the leftmost match. For any expression
/// the contract names the result. For the CSRF expression it states it:
/// the expression is the literal `_csrf=` and then a greedy run of one or
/// more characters outside the class (a negated class takes every other
/// character, line breaks too), and the leftmost match is the one that
/// starts first.
#[verifier::external_body]
fn regex_named_capture(pattern: &str, text: &str, group: &str) -> (r: Option<String>)
    ensures
        match r {
            Some(s) => regex_capture(pattern@, text@, group@) == Some(s@),
            None => regex_capture(pattern@, text@, group@) is None,
        },
        (pattern@ == csrf_pattern() && group@ == "csrf"@) ==> match r {
            Some(s) => csrf_capture(text@) == Some(s@),
            None => csrf_capture(text@) is None,
        },
{
    let re = regex::Regex::new(pattern).ok()?;
    re.captures(text).and_then(|c| c.name(group).map(|m| m.as_str().to_string()))
}

/// The CSRF token that requests carry.
#[derive(Debug)]
pub struct CsrfToken {
    pub value: String,
}

impl CsrfToken {
    pub fn new() -> (r: Self)
        ensures
            r.value@.len() == 0,
    {
        CsrfToken { value: String::new() }
    }

    /// Sets the token.
    pub fn set_csrf(&mut self, csrf: String)
        ensures
            final(self).value@ == csrf@,
    {
        self.value = csrf;
    }

    /// Takes the token found in the cookies, if one was found; otherwise
    /// the token stays.
    pub fn apply_capture(&mut self, captured: Option<String>)
        ensures
            captured matches Some(c) ==> final(self).value@ == c@,
            captured is None ==> final(self).value@ == old(self).value@,
    {
        if let Some(c) = captured {
            self.value = c;
        }
    }

    /// Extracts the CSRF token from a cookie header.
    pub fn set_csrf_from_cookies(&mut self, cookies_str: &str)
        ensures
            regex_capture(csrf_pattern(), cookies_str@, "csrf"@) matches Some(c) ==> final(self).value@ == c,
            regex_capture(csrf_pattern(), cookies_str@, "csrf"@) is None ==> final(self).value@
                == old(self).value@,
            csrf_capture(cookies_str@) matches Some(c) ==> final(self).value@ == c,
            csrf_capture(cookies_str@) is None ==> final(self).value@ == old(self).value@,
    {
        let captured = regex_named_capture("_csrf=(?P<csrf>[^(;|$)]+)", cookies_str, "csrf");
        self.apply_capture(captured);
    }
}

/// The ids of the entries of a track id list that have one, in order.
pub open spec fn ids_in(a: Seq<Json>) -> Seq<u64>
    decreases a.len(),
{
    if a.len() == 0 {
        Seq::empty()
    } else {
        match as_u64(field(a.last(), "id"@)) {
            Some(id) => ids_in(a.drop_last()).push(id),
            None => ids_in(a.drop_last()),
        }
    }
}

/// The track ids of a playlist response: refused unless its code (zero
/// where it has none) is 200; the ids of the entries of
/// `playlist.trackIds` that have one, none where the list is missing.
pub open spec fn track_ids_spec(root: Json) -> Result<Seq<u64>, ModelError> {
    let code = match as_i64(field(root, "code"@)) {
        Some(c) => c,
        None => 0,
    };
    if code != 200 {
        Err(ModelError::Status)
    } else {
        match as_array(path2(root, "playlist"@, "trackIds"@)) {
            Some(a) => Ok(ids_in(a)),
            None => Ok(Seq::empty()),
        }
    }
}

/// Reads the track ids of a parsed playlist response.
pub fn track_ids_from_json(root: &Json) -> (r: Result<Vec<u64>, ModelError>)
    ensures
        match r {
            Ok(v) => track_ids_spec(*root) == Ok::<Seq<u64>, ModelError>(v@),
            Err(e) => track_ids_spec(*root) == Err::<Seq<u64>, ModelError>(e),
        },
{
    let code = match read_i64(root.get("code")) {
        Some(c) => c,
        None => 0,
    };
    if code != 200 {
        return Err(ModelError::Status);
    }
    let list = match root.get("playlist") {
        Some(p) => p.get("trackIds"),
        None => None,
    };
    let mut ids: Vec<u64> = Vec::new();
    match read_array(list) {
        None => {},
        Some(a) => {
            let mut i: usize = 0;
            while i < a.len()
                invariant
                    i <= a@.len(),
                    ids@ == ids_in(a@.take(i as int)),
                decreases a.len() - i,
            {
                assert(a@.take(i + 1).drop_last() =~= a@.take(i as int));
                match read_u64(a[i].get("id")) {
                    Some(id) => ids.push(id),
                    None => {},
                }
                i = i + 1;
            }
            assert(a@.take(a@.len() as int) =~= a@);
        },
    }
    Ok(ids)
}

/// The track ids that a playlist's loaded songs lack, in order.
pub open spec fn missing_ids(track_ids: Seq<u64>, have: Set<u64>) -> Seq<u64> {
    track_ids.filter(|id: u64| !have.contains(id))
}

/// The ids of a list of songs.
pub open spec fn song_ids(songs: Seq<SongInfoView>) -> Set<u64> {
    songs.map_values(|s: SongInfoView| s.id).to_set()
}

/// The track ids whose songs are not among the loaded ones.
pub fn remaining_track_ids(track_ids: &Vec<u64>, songs: &Vec<SongInfo>) -> (r: Vec<u64>)
    ensures
        r@ == missing_ids(track_ids@, song_ids(songs@.map_values(|s: SongInfo| s@))),
{
    let ghost have_ids = songs@.map_values(|s: SongInfo| s@).map_values(|s: SongInfoView| s.id);
    let mut have: HashSet<u64> = HashSet::new();
    let mut i: usize = 0;
    while i < songs.len()
        invariant
            i <= songs@.len(),
            have_ids == songs@.map_values(|s: SongInfo| s@).map_values(|s: SongInfoView| s.id),
            have@ == have_ids.take(i as int).to_set(),
        decreases songs.len() - i,
    {
        have.insert(songs[i].id);
        proof {
            assert(have_ids.take(i + 1) =~= have_ids.take(i as int).push(songs@[i as int].id));
            have_ids.take(i as int).lemma_push_to_set_commute(songs@[i as int].id);
        }
        i = i + 1;
    }
    assert(have_ids.take(songs@.len() as int) =~= have_ids);
    let ghost hs = have@;
    let mut out: Vec<u64> = Vec::new();
    let mut k: usize = 0;
    while k < track_ids.len()
        invariant
            k <= track_ids@.len(),
            have@ == hs,
            out@ == missing_ids(track_ids@.take(k as int), hs),
        decreases track_ids.len() - k,
    {
        let id = track_ids[k];
        proof {
            assert(track_ids@.take(k + 1).drop_last() =~= track_ids@.take(k as int));
            reveal(Seq::filter);
        }
        if !have.contains(&id) {
            out.push(id);
        }
        k = k + 1;
    }
    assert(track_ids@.take(track_ids@.len() as int) =~= track_ids@);
    out
}

/// What completing a playlist's songs asks for next.
#[derive(Debug)]
pub enum DetailStep {
    /// Fetch the track ids of the playlist with this id.
    FetchTrackIds(u64),
    /// Fetch the songs with these ids.
    FetchSongs(Vec<u64>),
    /// The playlist is complete.
    Done,
}

/// A playlist whose songs are being completed: when it has more tracks
/// than came with it, its track ids are fetched and the songs it lacks are
/// asked for in batches; each batch that arrives is added to its songs (a
/// batch that failed adds nothing).
#[derive(Debug)]
pub struct DetailLoader {
    pub detail: PlayListDetail,
    /// The batches of missing song ids.
    pub chunks: Vec<Vec<u64>>,
    /// The next batch to ask for.
    pub next: usize,
}

/// Batches of ids as plain values.
pub open spec fn chunk_views(c: Seq<Vec<u64>>) -> Seq<Seq<u64>> {
    c.map_values(|v: Vec<u64>| v@)
}

/// A copy of a list of ids.
fn copy_ids(v: &Vec<u64>) -> (r: Vec<u64>)
    ensures
        r@ == v@,
{
    let mut out: Vec<u64> = Vec::new();
    let mut i: usize = 0;
    while i < v.len()
        invariant
            i <= v@.len(),
            out@ == v@.take(i as int),
        decreases v.len() - i,
    {
        out.push(v[i]);
        assert(v@.take(i + 1) =~= v@.take(i as int).push(v@[i as int]));
        i = i + 1;
    }
    assert(v@.take(v@.len() as int) =~= v@);
    out
}

impl DetailLoader {
    /// The next batch lies within the batches.
    pub open spec fn wf(&self) -> bool {
        self.next <= self.chunks@.len()
    }

    /// The batches not asked for yet, in order.
    pub open spec fn remaining(&self) -> Seq<Seq<u64>> {
        chunk_views(self.chunks@).skip(self.next as int)
    }

    /// Starts with a loaded playlist: its track ids are fetched when it has
    /// more tracks than songs, else it is complete.
    pub fn start(detail: PlayListDetail) -> (r: (DetailLoader, DetailStep))
        ensures
            r.0.wf(),
            r.0.detail == detail,
            r.0.remaining().len() == 0,
            detail.track_count > detail.songs@.len() ==> (r.1 matches DetailStep::FetchTrackIds(id)
                && id == detail.id),
            detail.track_count <= detail.songs@.len() ==> (r.1 is Done),
    {
        let more = detail.track_count > detail.songs.len() as u64;
        let id = detail.id;
        let loader = DetailLoader { detail, chunks: Vec::new(), next: 0 };
        if more {
            (loader, DetailStep::FetchTrackIds(id))
        } else {
            (loader, DetailStep::Done)
        }
    }

    fn next_step(&mut self) -> (r: DetailStep)
        requires
            old(self).wf(),
        ensures
            final(self).wf(),
            final(self).detail == old(self).detail,
            old(self).remaining().len() == 0 ==> (r is Done) && final(self).remaining().len() == 0,
            old(self).remaining().len() > 0 ==> (r matches DetailStep::FetchSongs(c) && c@ == old(
                self,
            ).remaining()[0]) && final(self).remaining() == old(self).remaining().drop_first(),
    {
        if self.next < self.chunks.len() {
            let c = copy_ids(&self.chunks[self.next]);
            self.next = self.next + 1;
            assert(old(self).remaining()[0] == chunk_views(self.chunks@)[old(self).next as int]);
            assert(self.remaining() =~= old(self).remaining().drop_first());
            DetailStep::FetchSongs(c)
        } else {
            DetailStep::Done
        }
    }

    /// The track ids arrived: the ids of the songs the playlist lacks are
    /// cut into batches, and the first batch is asked for.
    pub fn track_ids_loaded(&mut self, track_ids: &Vec<u64>) -> (r: DetailStep)
        requires
            old(self).wf(),
        ensures
            final(self).wf(),
            final(self).detail == old(self).detail,
            ({
                let cs = chunks_of(
                    missing_ids(track_ids@, song_ids(old(self).detail.songs@.map_values(|s: SongInfo| s@))),
                    DETAIL_BATCH as nat,
                );
                &&& cs.len() == 0 ==> (r is Done) && final(self).remaining().len() == 0
                &&& cs.len() > 0 ==> (r matches DetailStep::FetchSongs(c) && c@ == cs[0])
                    && final(self).remaining() == cs.drop_first()
            }),
    {
        let ids = remaining_track_ids(track_ids, &self.detail.songs);
        self.chunks = id_chunks(&ids, DETAIL_BATCH);
        self.next = 0;
        assert(self.remaining() =~= chunk_views(self.chunks@));
        self.next_step()
    }

    /// A batch of songs arrived (`None`: it failed): its songs are added
    /// after the others, and the next batch is asked for.
    pub fn songs_loaded(&mut self, songs: Option<Vec<SongInfo>>) -> (r: DetailStep)
        requires
            old(self).wf(),
        ensures
            final(self).wf(),
            final(self).detail.songs@ == old(self).detail.songs@ + match songs {
                Some(v) => v@,
                None => Seq::<SongInfo>::empty(),
            },
            final(self).detail == (PlayListDetail { songs: final(self).detail.songs, ..old(self).detail }),
            old(self).remaining().len() == 0 ==> (r is Done) && final(self).remaining().len() == 0,
            old(self).remaining().len() > 0 ==> (r matches DetailStep::FetchSongs(c) && c@ == old(
                self,
            ).remaining()[0]) && final(self).remaining() == old(self).remaining().drop_first(),
    {
        match songs {
            Some(v) => {
                let mut v = v;
                self.detail.songs.append(&mut v);
            },
            None => {},
        }
        self.next_step()
    }
}

/// A list cut into pieces of `n`, the last one possibly shorter.
pub open spec fn chunks_of(s: Seq<u64>, n: nat) -> Seq<Seq<u64>>
    decreases s.len(),
{
    if s.len() == 0 || n == 0 {
        Seq::empty()
    } else if s.len() <= n {
        seq![s]
    } else {
        seq![s.take(n as int)] + chunks_of(s.skip(n as int), n)
    }
}

/// The batches in which missing songs are asked for.
pub fn id_chunks(ids: &Vec<u64>, size: usize) -> (r: Vec<Vec<u64>>)
    requires
        size > 0,
    ensures
        r@.map_values(|c: Vec<u64>| c@) == chunks_of(ids@, size as nat),
    decreases ids@.len(),
{
    let mut out: Vec<Vec<u64>> = Vec::new();
    let mut start: usize = 0;
    assert(ids@.skip(0) =~= ids@);
    assert(out@.map_values(|c: Vec<u64>| c@) + chunks_of(ids@, size as nat) =~= chunks_of(
        ids@,
        size as nat,
    ));
    while start < ids.len()
        invariant
            size > 0,
            start <= ids@.len(),
            out@.map_values(|c: Vec<u64>| c@) + chunks_of(ids@.skip(start as int), size as nat)
                == chunks_of(ids@, size as nat),
        decreases ids@.len() - start,
    {
        let end = if ids.len() - start <= size {
            ids.len()
        } else {
            start + size
        };
        let mut chunk: Vec<u64> = Vec::new();
        let mut j: usize = start;
        while j < end
            invariant
                start <= j <= end,
                end <= ids@.len(),
                chunk@ == ids@.subrange(start as int, j as int),
            decreases end - j,
        {
            chunk.push(ids[j]);
            assert(ids@.subrange(start as int, j + 1) =~= ids@.subrange(start as int, j as int).push(
                ids@[j as int],
            ));
            j = j + 1;
        }
        proof {
            let rest = ids@.skip(start as int);
            let before = out@.map_values(|c: Vec<u64>| c@);
            if rest.len() <= size {
                assert(chunk@ =~= rest);
                assert(ids@.skip(end as int).len() == 0);
                assert(chunks_of(ids@.skip(end as int), size as nat) =~= Seq::<Seq<u64>>::empty());
                assert(before.push(chunk@) + chunks_of(ids@.skip(end as int), size as nat) =~= before
                    + chunks_of(rest, size as nat));
            } else {
                assert(chunk@ =~= rest.take(size as int));
                assert(rest.skip(size as int) =~= ids@.skip(end as int));
                assert(before.push(chunk@) + chunks_of(ids@.skip(end as int), size as nat) =~= before
                    + chunks_of(rest, size as nat));
            }
        }
        let ghost before = out@;
        out.push(chunk);
        assert(out@.map_values(|c: Vec<u64>| c@) =~= before.map_values(|c: Vec<u64>| c@).push(
            chunk@,
        ));
        start = end;
    }
    assert(ids@.skip(ids@.len() as int).len() == 0);
    assert(chunks_of(ids@.skip(start as int), size as nat) =~= Seq::<Seq<u64>>::empty());
    assert(out@.map_values(|c: Vec<u64>| c@) + Seq::<Seq<u64>>::empty() =~= out@.map_values(
        |c: Vec<u64>| c@,
    ));
    out
}

/// The pieces of a cut list, put back together, give the list.
pub proof fn lemma_chunks_flatten(s: Seq<u64>, n: nat)
    requires
        n > 0,
    ensures
        chunks_of(s, n).flatten() == s,
        forall|i: int| 0 <= i < chunks_of(s, n).len() ==> 0 < (#[trigger] chunks_of(s, n)[i]).len() <= n,
    decreases s.len(),
{
    if s.len() == 0 {
        assert(chunks_of(s, n).flatten() =~= s);
    } else if s.len() <= n {
        reveal_with_fuel(Seq::<_>::flatten, 2);
        assert(seq![s].drop_first() =~= Seq::<Seq<u64>>::empty());
        assert(seq![s].flatten() =~= s + Seq::<u64>::empty());
        assert(s + Seq::<u64>::empty() =~= s);
    } else {
        lemma_chunks_flatten(s.skip(n as int), n);
        let rest = chunks_of(s.skip(n as int), n);
        assert((seq![s.take(n as int)] + rest).flatten() == s.take(n as int) + rest.flatten()) by {
            vstd::seq_lib::lemma_flatten_concat(seq![s.take(n as int)], rest);
            reveal_with_fuel(Seq::<_>::flatten, 2);
            assert(seq![s.take(n as int)].drop_first() =~= Seq::<Seq<u64>>::empty());
            assert(seq![s.take(n as int)].flatten() =~= s.take(n as int) + Seq::<u64>::empty());
            assert(s.take(n as int) + Seq::<u64>::empty() =~= s.take(n as int));
        }
        assert(s.take(n as int) + s.skip(n as int) =~= s);
        assert forall|i: int| 0 <= i < chunks_of(s, n).len() implies 0 < (#[trigger] chunks_of(
            s,
            n,
        )[i]).len() <= n by {
            if i > 0 {
                assert(chunks_of(s, n)[i] == rest[i - 1]);
            }
        }
    }
}

/// The path that subscribes to a playlist or drops the subscription.
pub fn subscribe_path(subscribe: bool) -> (r: &'static str)
    ensures
        subscribe ==> r@ == "/weapi/playlist/subscribe"@,
        !subscribe ==> r@ == "/weapi/playlist/unsubscribe"@,
{
    if subscribe {
        "/weapi/playlist/subscribe"
    } else {
        "/weapi/playlist/unsubscribe"
    }
}

/// What a subscription answer means: success on code 200, otherwise an
/// error that names the action and carries the service's message.
pub fn subscribe_result(subscribe: bool, msg: &Msg) -> (r: Result<(), String>)
    ensures
        msg.code == 200 ==> r is Ok,
        msg.code != 200 ==> (r matches Err(e) && e@ == "Failed to "@ + (if subscribe {
            "subscribe"@
        } else {
            "unsubscribe"@
        }) + " playlist: "@ + msg.msg@),
{
    if msg.code == 200 {
        return Ok(());
    }
    let mut e = concat_str("Failed to ", if subscribe {
        "subscribe"
    } else {
        "unsubscribe"
    });
    push_str(&mut e, " playlist: ");
    push_str(&mut e, msg.msg.as_str());
    Err(e)
}

/// The address that a QR login code encodes.
pub fn qr_login_url(unikey: &str) -> (r: String)
    ensures
        r@ == "https://music.163.com/login?codekey="@ + unikey@,
{
    concat_str("https://music.163.com/login?codekey=", unikey)
}

/// The address of an image scaled by the service to a size.
pub fn image_url(url: &str, width: u16, height: u16) -> (r: String)
    ensures
        r@ == url@ + "?param="@ + decimal(width as nat) + "y"@ + decimal(height as nat),
{
    proof {
        reveal_strlit("y");
    }
    let mut s = concat_str(url, "?param=");
    push_decimal(&mut s, width as u64);
    push_str(&mut s, "y");
    push_decimal(&mut s, height as u64);
    s
}


/// A request to the web API: how it is sent, where, with which form
/// parameters, with which encryption, asking for which kind of user agent,
/// and whether the CSRF token goes into the address.
#[derive(Debug)]
pub struct ApiRequest {
    pub method: Method,
    pub path: String,
    pub params: Vec<(String, String)>,
    pub crypto: CryptoApi,
    pub ua: String,
    pub append_csrf: bool,
}

/// A request as plain values.
pub struct ApiRequestView {
    pub method: Method,
    pub path: Seq<char>,
    pub params: Seq<(Seq<char>, Seq<char>)>,
    pub crypto: CryptoApi,
    pub ua: Seq<char>,
    pub append_csrf: bool,
}

pub open spec fn param_view(p: (String, String)) -> (Seq<char>, Seq<char>) {
    (p.0@, p.1@)
}

impl View for ApiRequest {
    type V = ApiRequestView;

    open spec fn view(&self) -> ApiRequestView {
        ApiRequestView {
            method: self.method,
            path: self.path@,
            params: self.params@.map_values(|p: (String, String)| param_view(p)),
            crypto: self.crypto,
            ua: self.ua@,
            append_csrf: self.append_csrf,
        }
    }
}

/// The common request: posted, weapi encrypted, any user agent, CSRF
/// token in the address.
pub open spec fn weapi_post(path: Seq<char>, params: Seq<(Seq<char>, Seq<char>)>) -> ApiRequestView {
    ApiRequestView {
        method: Method::Post,
        path,
        params,
        crypto: CryptoApi::Weapi,
        ua: Seq::empty(),
        append_csrf: true,
    }
}

fn param(k: &str, v: &str) -> (r: (String, String))
    ensures
        param_view(r) == (k@, v@),
{
    (k.to_owned(), v.to_owned())
}

fn weapi_request(path: &str, params: Vec<(String, String)>) -> (r: ApiRequest)
    ensures
        r@ == weapi_post(path@, params@.map_values(|p: (String, String)| param_view(p))),
{
    let r = ApiRequest {
        method: Method::Post,
        path: path.to_owned(),
        params,
        crypto: CryptoApi::Weapi,
        ua: String::new(),
        append_csrf: true,
    };
    assert(r@.ua =~= Seq::<char>::empty());
    r
}

/// The text of a list of ids as a JSON array.
pub open spec fn ids_json_of(ids: Seq<u64>) -> Seq<char>
    decreases ids.len(),
{
    if ids.len() == 0 {
        "[]"@
    } else if ids.len() == 1 {
        "["@ + decimal(ids[0] as nat) + "]"@
    } else {
        ids_json_of(ids.drop_last()).drop_last() + ","@ + decimal(ids.last() as nat) + "]"@
    }
}

/// The text of a list of ids as a JSON array of objects with an `id`.
pub open spec fn id_objects_json_of(ids: Seq<u64>) -> Seq<char>
    decreases ids.len(),
{
    if ids.len() == 0 {
        "[]"@
    } else if ids.len() == 1 {
        "[{\"id\":"@ + decimal(ids[0] as nat) + "}]"@
    } else {
        id_objects_json_of(ids.drop_last()).drop_last() + ",{\"id\":"@ + decimal(ids.last() as nat)
            + "}]"@
    }
}

/// `serde_json::to_string` of a list of ids: `[1,2,3]`.
pub fn ids_json(ids: &[u64]) -> (r: String)
    ensures
        r@ == ids_json_of(ids@),
{
    proof {
        reveal_strlit("[]");
        reveal_strlit("[");
        reveal_strlit("]");
        reveal_strlit(",");
    }
    if ids.len() == 0 {
        return "[]".to_owned();
    }
    let mut s = "[".to_owned();
    push_decimal(&mut s, ids[0]);
    push_str(&mut s, "]");
    assert(ids@.take(1) =~= seq![ids@[0]]);
    let mut i: usize = 1;
    while i < ids.len()
        invariant
            1 <= i <= ids@.len(),
            s@ == ids_json_of(ids@.take(i as int)),
        decreases ids.len() - i,
    {
        assert(ids@.take(i + 1).drop_last() =~= ids@.take(i as int));
        let mut t = String::new();
        let ghost before = s@;
        let n = s.as_str().unicode_len();
        assert(n >= 1) by {
            lemma_ids_json_nonempty(ids@.take(i as int));
        }
        let mut k: usize = 0;
        while k < n - 1
            invariant
                n == s@.len(),
                n >= 1,
                k <= n - 1,
                t@ == s@.take(k as int),
            decreases n - 1 - k,
        {
            crate::strings::string_push(&mut t, s.as_str().get_char(k));
            assert(s@.take(k + 1) =~= s@.take(k as int).push(s@[k as int]));
            k = k + 1;
        }
        assert(t@ =~= before.drop_last());
        push_str(&mut t, ",");
        push_decimal(&mut t, ids[i]);
        push_str(&mut t, "]");
        s = t;
        i = i + 1;
    }
    assert(ids@.take(ids@.len() as int) =~= ids@);
    s
}

proof fn lemma_ids_json_nonempty(ids: Seq<u64>)
    ensures
        ids_json_of(ids).len() >= 1,
    decreases ids.len(),
{
    reveal_strlit("[]");
    reveal_strlit("]");
    if ids.len() > 1 {
        lemma_ids_json_nonempty(ids.drop_last());
    }
}

/// `serde_json::to_string` of a list of `{"id": ..}` objects.
pub fn id_objects_json(ids: &[u64]) -> (r: String)
    ensures
        r@ == id_objects_json_of(ids@),
{
    proof {
        reveal_strlit("[]");
        reveal_strlit("[{\"id\":");
        reveal_strlit("}]");
        reveal_strlit(",{\"id\":");
    }
    if ids.len() == 0 {
        return "[]".to_owned();
    }
    let mut s = "[{\"id\":".to_owned();
    push_decimal(&mut s, ids[0]);
    push_str(&mut s, "}]");
    assert(ids@.take(1) =~= seq![ids@[0]]);
    let mut i: usize = 1;
    while i < ids.len()
        invariant
            1 <= i <= ids@.len(),
            s@ == id_objects_json_of(ids@.take(i as int)),
        decreases ids.len() - i,
    {
        assert(ids@.take(i + 1).drop_last() =~= ids@.take(i as int));
        let mut t = String::new();
        let ghost before = s@;
        let n = s.as_str().unicode_len();
        assert(n >= 1) by {
            lemma_id_objects_json_nonempty(ids@.take(i as int));
        }
        let mut k: usize = 0;
        while k < n - 1
            invariant
                n == s@.len(),
                n >= 1,
                k <= n - 1,
                t@ == s@.take(k as int),
            decreases n - 1 - k,
        {
            crate::strings::string_push(&mut t, s.as_str().get_char(k));
            assert(s@.take(k + 1) =~= s@.take(k as int).push(s@[k as int]));
            k = k + 1;
        }
        assert(t@ =~= before.drop_last());
        push_str(&mut t, ",{\"id\":");
        push_decimal(&mut t, ids[i]);
        push_str(&mut t, "}]");
        s = t;
        i = i + 1;
    }
    assert(ids@.take(ids@.len() as int) =~= ids@);
    s
}

proof fn lemma_id_objects_json_nonempty(ids: Seq<u64>)
    ensures
        id_objects_json_of(ids).len() >= 1,
    decreases ids.len(),
{
    reveal_strlit("[]");
    reveal_strlit("}]");
    if ids.len() > 1 {
        lemma_id_objects_json_nonempty(ids.drop_last());
    }
}

/// The text of a boolean, as `bool::to_string` writes it.
pub open spec fn bool_text(b: bool) -> Seq<char> {
    if b {
        "true"@
    } else {
        "false"@
    }
}

fn bool_string(b: bool) -> (r: String)
    ensures
        r@ == bool_text(b),
{
    if b {
        "true".to_owned()
    } else {
        "false".to_owned()
    }
}

/// Asks for a QR login key.
pub fn login_qr_create_request() -> (r: ApiRequest)
    ensures
        r@ == weapi_post("/weapi/login/qrcode/unikey"@, seq![("type"@, "1"@)]),
{
    let mut params: Vec<(String, String)> = Vec::new();
    params.push(param("type", "1"));
    let r = weapi_request("/weapi/login/qrcode/unikey", params);
    assert(r@.params =~= seq![("type"@, "1"@)]);
    r
}

/// Asks about the state of a QR login key.
pub fn login_qr_check_request(key: &str) -> (r: ApiRequest)
    ensures
        r@ == weapi_post("/weapi/login/qrcode/client/login"@, seq![("type"@, "1"@), ("key"@, key@)]),
{
    let mut params: Vec<(String, String)> = Vec::new();
    params.push(param("type", "1"));
    params.push(param("key", key));
    let r = weapi_request("/weapi/login/qrcode/client/login", params);
    assert(r@.params =~= seq![("type"@, "1"@), ("key"@, key@)]);
    r
}

/// Asks for the account of the session.
pub fn login_status_request() -> (r: ApiRequest)
    ensures
        r@ == weapi_post("/api/nuser/account/get"@, Seq::empty()),
{
    let r = weapi_request("/api/nuser/account/get", Vec::new());
    assert(r@.params =~= Seq::<(Seq<char>, Seq<char>)>::empty());
    r
}

/// Ends the session, as the desktop client does.
pub fn logout_request() -> (r: ApiRequest)
    ensures
        r@ == (ApiRequestView {
            ua: "pc"@,
            ..weapi_post("https://music.163.com/weapi/logout"@, Seq::empty())
        }),
{
    let mut r = weapi_request("https://music.163.com/weapi/logout", Vec::new());
    r.ua = "pc".to_owned();
    assert(r@.params =~= Seq::<(Seq<char>, Seq<char>)>::empty());
    r
}

/// Asks for the ids of the songs a user likes.
pub fn user_song_id_list_request(uid: u64) -> (r: ApiRequest)
    ensures
        r@ == weapi_post("/weapi/song/like/get"@, seq![("uid"@, decimal(uid as nat))]),
{
    let mut params: Vec<(String, String)> = Vec::new();
    params.push(("uid".to_owned(), to_decimal(uid)));
    let r = weapi_request("/weapi/song/like/get", params);
    assert(r@.params =~= seq![("uid"@, decimal(uid as nat))]);
    r
}

/// Asks for a page of a user's playlists.
pub fn user_song_list_request(uid: u64, offset: u16, limit: u16) -> (r: ApiRequest)
    ensures
        r@ == weapi_post(
            "/weapi/user/playlist"@,
            seq![
                ("uid"@, decimal(uid as nat)),
                ("offset"@, decimal(offset as nat)),
                ("limit"@, decimal(limit as nat)),
            ],
        ),
{
    let mut params: Vec<(String, String)> = Vec::new();
    params.push(("uid".to_owned(), to_decimal(uid)));
    params.push(("offset".to_owned(), to_decimal(offset as u64)));
    params.push(("limit".to_owned(), to_decimal(limit as u64)));
    let r = weapi_request("/weapi/user/playlist", params);
    assert(r@.params =~= seq![
        ("uid"@, decimal(uid as nat)),
        ("offset"@, decimal(offset as nat)),
        ("limit"@, decimal(limit as nat)),
    ]);
    r
}

/// Asks for the songs of the user's cloud disk.
pub fn user_cloud_disk_request() -> (r: ApiRequest)
    ensures
        r@ == weapi_post("/weapi/v1/cloud/get"@, seq![("offset"@, "0"@), ("limit"@, "10000"@)]),
{
    let mut params: Vec<(String, String)> = Vec::new();
    params.push(param("offset", "0"));
    params.push(param("limit", "10000"));
    let r = weapi_request("/weapi/v1/cloud/get", params);
    assert(r@.params =~= seq![("offset"@, "0"@), ("limit"@, "10000"@)]);
    r
}

/// Asks for a playlist with up to a thousand of its songs.
pub fn song_list_detail_request(songlist_id: u64, csrf_token: &str) -> (r: ApiRequest)
    ensures
        r@ == weapi_post(
            "/weapi/v6/playlist/detail"@,
            seq![
                ("id"@, decimal(songlist_id as nat)),
                ("offset"@, "0"@),
                ("total"@, "true"@),
                ("limit"@, "1000"@),
                ("n"@, "1000"@),
                ("csrf_token"@, csrf_token@),
            ],
        ),
{
    let mut params: Vec<(String, String)> = Vec::new();
    params.push(("id".to_owned(), to_decimal(songlist_id)));
    params.push(param("offset", "0"));
    params.push(param("total", "true"));
    params.push(param("limit", "1000"));
    params.push(param("n", "1000"));
    params.push(param("csrf_token", csrf_token));
    let r = weapi_request("/weapi/v6/playlist/detail", params);
    assert(r@.params =~= seq![
        ("id"@, decimal(songlist_id as nat)),
        ("offset"@, "0"@),
        ("total"@, "true"@),
        ("limit"@, "1000"@),
        ("n"@, "1000"@),
        ("csrf_token"@, csrf_token@),
    ]);
    r
}

/// Asks for the ids of all tracks of a playlist (and no songs).
pub fn playlist_track_ids_request(playlist_id: u64, csrf_token: &str) -> (r: ApiRequest)
    ensures
        r@ == weapi_post(
            "/weapi/v6/playlist/detail"@,
            seq![
                ("id"@, decimal(playlist_id as nat)),
                ("n"@, "0"@),
                ("s"@, "0"@),
                ("csrf_token"@, csrf_token@),
            ],
        ),
{
    let mut params: Vec<(String, String)> = Vec::new();
    params.push(("id".to_owned(), to_decimal(playlist_id)));
    params.push(param("n", "0"));
    params.push(param("s", "0"));
    params.push(param("csrf_token", csrf_token));
    let r = weapi_request("/weapi/v6/playlist/detail", params);
    assert(r@.params =~= seq![
        ("id"@, decimal(playlist_id as nat)),
        ("n"@, "0"@),
        ("s"@, "0"@),
        ("csrf_token"@, csrf_token@),
    ]);
    r
}

/// Asks for the stream addresses of songs at a bit rate; this request goes
/// to the player interface with eapi encryption.
pub fn songs_url_request(ids: &[u64], br: &str) -> (r: ApiRequest)
    ensures
        r@ == (ApiRequestView {
            crypto: CryptoApi::Eapi,
            ..weapi_post(
                "https://interface3.music.163.com/eapi/song/enhance/player/url"@,
                seq![("ids"@, ids_json_of(ids@)), ("br"@, br@)],
            )
        }),
{
    let mut params: Vec<(String, String)> = Vec::new();
    params.push(("ids".to_owned(), ids_json(ids)));
    params.push(param("br", br));
    let mut r = weapi_request("https://interface3.music.163.com/eapi/song/enhance/player/url", params);
    r.crypto = CryptoApi::Eapi;
    assert(r@.params =~= seq![("ids"@, ids_json_of(ids@)), ("br"@, br@)]);
    r
}

/// Asks for the playlists recommended to the account.
pub fn recommend_resource_request() -> (r: ApiRequest)
    ensures
        r@ == weapi_post("/weapi/v1/discovery/recommend/resource"@, Seq::empty()),
{
    let r = weapi_request("/weapi/v1/discovery/recommend/resource", Vec::new());
    assert(r@.params =~= Seq::<(Seq<char>, Seq<char>)>::empty());
    r
}

/// Asks for the songs recommended for the day (the service takes the
/// `total` flag as written).
pub fn recommend_songs_request() -> (r: ApiRequest)
    ensures
        r@ == weapi_post("/weapi/v2/discovery/recommend/songs"@, seq![("total"@, "ture"@)]),
{
    let mut params: Vec<(String, String)> = Vec::new();
    params.push(param("total", "ture"));
    let r = weapi_request("/weapi/v2/discovery/recommend/songs", params);
    assert(r@.params =~= seq![("total"@, "ture"@)]);
    r
}

/// Asks for a page of the playlists of a category in an order.
pub fn top_song_list_request(cat: &str, order: &str, offset: u16, limit: u16) -> (r: ApiRequest)
    ensures
        r@ == weapi_post(
            "/weapi/playlist/list"@,
            seq![
                ("cat"@, cat@),
                ("order"@, order@),
                ("total"@, "true"@),
                ("offset"@, decimal(offset as nat)),
                ("limit"@, decimal(limit as nat)),
            ],
        ),
{
    let mut params: Vec<(String, String)> = Vec::new();
    params.push(param("cat", cat));
    params.push(param("order", order));
    params.push(param("total", "true"));
    params.push(("offset".to_owned(), to_decimal(offset as u64)));
    params.push(("limit".to_owned(), to_decimal(limit as u64)));
    let r = weapi_request("/weapi/playlist/list", params);
    assert(r@.params =~= seq![
        ("cat"@, cat@),
        ("order"@, order@),
        ("total"@, "true"@),
        ("offset"@, decimal(offset as nat)),
        ("limit"@, decimal(limit as nat)),
    ]);
    r
}

/// Asks for the charts.
pub fn toplist_request() -> (r: ApiRequest)
    ensures
        r@ == weapi_post("/api/toplist"@, Seq::empty()),
{
    let r = weapi_request("/api/toplist", Vec::new());
    assert(r@.params =~= Seq::<(Seq<char>, Seq<char>)>::empty());
    r
}

/// Asks for the details of songs.
pub fn song_detail_request(ids: &[u64]) -> (r: ApiRequest)
    ensures
        r@ == weapi_post("/weapi/v3/song/detail"@, seq![("c"@, id_objects_json_of(ids@))]),
{
    let mut params: Vec<(String, String)> = Vec::new();
    params.push(("c".to_owned(), id_objects_json(ids)));
    let r = weapi_request("/weapi/v3/song/detail", params);
    assert(r@.params =~= seq![("c"@, id_objects_json_of(ids@))]);
    r
}

/// Asks for a song's lyrics in every form the service has (plain,
/// translated, word timed, karaoke, romanized).
pub fn song_lyric_request(music_id: u64, csrf_token: &str) -> (r: ApiRequest)
    ensures
        r@ == weapi_post(
            "/weapi/song/lyric"@,
            seq![
                ("id"@, decimal(music_id as nat)),
                ("lv"@, "-1"@),
                ("tv"@, "-1"@),
                ("yv"@, "-1"@),
                ("kv"@, "-1"@),
                ("rv"@, "-1"@),
                ("csrf_token"@, csrf_token@),
            ],
        ),
{
    let mut params: Vec<(String, String)> = Vec::new();
    params.push(("id".to_owned(), to_decimal(music_id)));
    params.push(param("lv", "-1"));
    params.push(param("tv", "-1"));
    params.push(param("yv", "-1"));
    params.push(param("kv", "-1"));
    params.push(param("rv", "-1"));
    params.push(param("csrf_token", csrf_token));
    let r = weapi_request("/weapi/song/lyric", params);
    assert(r@.params =~= seq![
        ("id"@, decimal(music_id as nat)),
        ("lv"@, "-1"@),
        ("tv"@, "-1"@),
        ("yv"@, "-1"@),
        ("kv"@, "-1"@),
        ("rv"@, "-1"@),
        ("csrf_token"@, csrf_token@),
    ]);
    r
}

/// Likes or unlikes a song.
pub fn like_song_request(track_id: u64, like: bool, csrf_token: &str) -> (r: ApiRequest)
    ensures
        r@ == weapi_post(
            "/weapi/radio/like"@,
            seq![
                ("alg"@, "itembased"@),
                ("trackId"@, decimal(track_id as nat)),
                ("like"@, bool_text(like)),
                ("time"@, "3"@),
                ("csrf_token"@, csrf_token@),
            ],
        ),
{
    let mut params: Vec<(String, String)> = Vec::new();
    params.push(param("alg", "itembased"));
    params.push(("trackId".to_owned(), to_decimal(track_id)));
    params.push(("like".to_owned(), bool_string(like)));
    params.push(param("time", "3"));
    params.push(param("csrf_token", csrf_token));
    let r = weapi_request("/weapi/radio/like", params);
    assert(r@.params =~= seq![
        ("alg"@, "itembased"@),
        ("trackId"@, decimal(track_id as nat)),
        ("like"@, bool_text(like)),
        ("time"@, "3"@),
        ("csrf_token"@, csrf_token@),
    ]);
    r
}

/// Asks for the banners of the desktop client.
pub fn banners_request() -> (r: ApiRequest)
    ensures
        r@ == weapi_post("/weapi/v2/banner/get"@, seq![("clientType"@, "pc"@)]),
{
    let mut params: Vec<(String, String)> = Vec::new();
    params.push(param("clientType", "pc"));
    let r = weapi_request("/weapi/v2/banner/get", params);
    assert(r@.params =~= seq![("clientType"@, "pc"@)]);
    r
}

/// Subscribes to a playlist or drops the subscription.
pub fn playlist_subscribe_request(subscribe: bool, playlist_id: u64) -> (r: ApiRequest)
    ensures
        r@ == weapi_post(
            if subscribe {
                "/weapi/playlist/subscribe"@
            } else {
                "/weapi/playlist/unsubscribe"@
            },
            seq![("id"@, decimal(playlist_id as nat))],
        ),
{
    let mut params: Vec<(String, String)> = Vec::new();
    params.push(("id".to_owned(), to_decimal(playlist_id)));
    let r = weapi_request(subscribe_path(subscribe), params);
    assert(r@.params =~= seq![("id"@, decimal(playlist_id as nat))]);
    r
}

/// Asks the personal radio for songs.
pub fn personal_fm_request() -> (r: ApiRequest)
    ensures
        r@ == weapi_post("/api/v1/radio/get"@, Seq::empty()),
{
    let r = weapi_request("/api/v1/radio/get", Vec::new());
    assert(r@.params =~= Seq::<(Seq<char>, Seq<char>)>::empty());
    r
}

/// Searches songs, albums, artists or playlists.
pub fn search_request(keywords: &str, search_type: SearchType, limit: u32, offset: u32) -> (r:
    ApiRequest)
    ensures
        r@ == weapi_post(
            "/weapi/cloudsearch/get/web"@,
            seq![
                ("s"@, keywords@),
                ("type"@, search_type_code(search_type)),
                ("limit"@, decimal(limit as nat)),
                ("offset"@, decimal(offset as nat)),
                ("total"@, "true"@),
            ],
        ),
{
    let mut params: Vec<(String, String)> = Vec::new();
    params.push(param("s", keywords));
    params.push(param("type", search_type.as_str()));
    params.push(("limit".to_owned(), to_decimal(limit as u64)));
    params.push(("offset".to_owned(), to_decimal(offset as u64)));
    params.push(param("total", "true"));
    let r = weapi_request("/weapi/cloudsearch/get/web", params);
    assert(r@.params =~= seq![
        ("s"@, keywords@),
        ("type"@, search_type_code(search_type)),
        ("limit"@, decimal(limit as nat)),
        ("offset"@, decimal(offset as nat)),
        ("total"@, "true"@),
    ]);
    r
}

/// The position of the first parameter of a name.
pub open spec fn first_named(params: Seq<(Seq<char>, Seq<char>)>, k: Seq<char>) -> Option<int> {
    if exists|i: int| 0 <= i < params.len() && params[i].0 == k {
        Some(
            choose|i: int|
                0 <= i < params.len() && params[i].0 == k && forall|j: int|
                    0 <= j < i ==> (#[trigger] params[j]).0 != k,
        )
    } else {
        None
    }
}

/// The form parameters after setting one, as a map of names to values
/// takes it: the parameter of that name gets the value, otherwise it is
/// added at the end.
pub open spec fn with_param(
    params: Seq<(Seq<char>, Seq<char>)>,
    k: Seq<char>,
    v: Seq<char>,
) -> Seq<(Seq<char>, Seq<char>)> {
    match first_named(params, k) {
        Some(i) => params.update(i, (k, v)),
        None => params.push((k, v)),
    }
}

/// Sets a form parameter.
pub fn set_param(params: &mut Vec<(String, String)>, key: &str, value: &str)
    ensures
        final(params)@.map_values(|p: (String, String)| param_view(p)) == with_param(
            old(params)@.map_values(|p: (String, String)| param_view(p)),
            key@,
            value@,
        ),
{
    let ghost ps = params@.map_values(|p: (String, String)| param_view(p));
    let mut i: usize = 0;
    while i < params.len()
        invariant
            i <= params@.len(),
            ps == params@.map_values(|p: (String, String)| param_view(p)),
            params@ == old(params)@,
            forall|j: int| 0 <= j < i ==> (#[trigger] ps[j]).0 != key@,
        decreases params.len() - i,
    {
        if str_equal(params[i].0.as_str(), key) {
            proof {
                assert(ps[i as int] == param_view(params@[i as int]));
                assert(ps[i as int].0 == key@);
                let c = choose|c: int|
                    0 <= c < ps.len() && ps[c].0 == key@ && forall|j: int|
                        0 <= j < c ==> (#[trigger] ps[j]).0 != key@;
                if c < i {
                } else if c > i {
                    assert(ps[i as int].0 != key@);
                }
            }
            params.set(i, (key.to_owned(), value.to_owned()));
            assert(params@.map_values(|p: (String, String)| param_view(p)) =~= ps.update(
                i as int,
                (key@, value@),
            ));
            return;
        }
        i = i + 1;
    }
    proof {
        if exists|c: int| 0 <= c < ps.len() && ps[c].0 == key@ {
            let c = choose|c: int| 0 <= c < ps.len() && ps[c].0 == key@;
            assert(ps[c].0 != key@);
        }
    }
    params.push((key.to_owned(), value.to_owned()));
    assert(params@.map_values(|p: (String, String)| param_view(p)) =~= ps.push((key@, value@)));
}

/// A text with every occurrence of a (non-empty) pattern replaced, the
/// occurrences taken from the left without overlap.
pub open spec fn replace_all(s: Seq<char>, from: Seq<char>, to: Seq<char>) -> Seq<char>
    recommends
        from.len() > 0,
    decreases s.len(),
{
    if s.len() == 0 || from.len() == 0 {
        s
    } else if from.len() <= s.len() && s.take(from.len() as int) == from {
        to + replace_all(s.skip(from.len() as int), from, to)
    } else {
        seq![s[0]] + replace_all(s.drop_first(), from, to)
    }
}

/// Every occurrence of a pattern replaced, from the left, without overlap
/// (what `str::replace` does).
fn str_replace(s: &str, from: &str, to: &str) -> (r: String)
    requires
        from@.len() > 0,
    ensures
        r@ == replace_all(s@, from@, to@),
{
    let n = s.unicode_len();
    let m = from.unicode_len();
    let mut out = String::new();
    let mut i: usize = 0;
    assert(s@.skip(0) =~= s@);
    while i < n
        invariant
            n == s@.len(),
            m == from@.len(),
            m > 0,
            i <= n,
            out@ + replace_all(s@.skip(i as int), from@, to@) == replace_all(s@, from@, to@),
        decreases n - i,
    {
        let ghost rest = s@.skip(i as int);
        let ghost before = out@;
        if m <= n - i && piece_at(s, from, i) {
            proof {
                assert(rest.take(m as int) =~= s@.subrange(i as int, i + m));
                assert(rest.skip(m as int) =~= s@.skip(i + m));
            }
            push_str(&mut out, to);
            proof {
                assert(out@ + replace_all(s@.skip(i + m), from@, to@) =~= before + (to@ + replace_all(
                    rest.skip(m as int),
                    from@,
                    to@,
                )));
            }
            i = i + m;
        } else {
            proof {
                if m <= n - i {
                    assert(rest.take(m as int) =~= s@.subrange(i as int, i + m));
                }
                assert(rest.drop_first() =~= s@.skip(i + 1));
                assert(rest[0] == s@[i as int]);
            }
            let c = s.get_char(i);
            string_push(&mut out, c);
            proof {
                assert(out@ + replace_all(s@.skip(i + 1), from@, to@) =~= before + (seq![c] + replace_all(
                    rest.drop_first(),
                    from@,
                    to@,
                )));
            }
            i = i + 1;
        }
    }
    assert(s@.skip(n as int) =~= Seq::<char>::empty());
    assert(out@ + Seq::<char>::empty() =~= out@);
    out
}

/// The text that the Linux client's API encrypts: the request's address
/// (its `weapi` turned into `api`) and its parameters.
pub open spec fn linux_data(url: Seq<char>, params_json: Seq<char>) -> Seq<char> {
    "{\"method\":\"linuxapi\",\"url\":\""@ + replace_all(url, "weapi"@, "api"@)
        + "\",\"params\":"@ + params_json + "}"@
}

/// The address whose requests eapi signs.
pub open spec fn eapi_url() -> Seq<char> {
    "/api/song/enhance/player/url"@
}

/// The parameters that are encrypted: weapi and eapi add the session's
/// CSRF token.
pub open spec fn sent_params(req: ApiRequestView, csrf: Seq<char>) -> Seq<(Seq<char>, Seq<char>)> {
    if req.crypto == CryptoApi::LinuxApi {
        req.params
    } else {
        with_param(req.params, "csrf_token"@, csrf)
    }
}

fn clone_params(params: &Vec<(String, String)>) -> (r: Vec<(String, String)>)
    ensures
        r@.map_values(|p: (String, String)| param_view(p)) == params@.map_values(
            |p: (String, String)| param_view(p),
        ),
{
    let mut out: Vec<(String, String)> = Vec::new();
    let mut i: usize = 0;
    while i < params.len()
        invariant
            i <= params@.len(),
            out@.map_values(|p: (String, String)| param_view(p)) == params@.take(i as int).map_values(
                |p: (String, String)| param_view(p),
            ),
        decreases params.len() - i,
    {
        let p = (params[i].0.clone(), params[i].1.clone());
        let ghost before = out@;
        out.push(p);
        assert(out@.map_values(|p: (String, String)| param_view(p)) =~= before.map_values(
            |p: (String, String)| param_view(p),
        ).push(param_view(p)));
        assert(params@.take(i + 1).map_values(|p: (String, String)| param_view(p)) =~= params@.take(
            i as int,
        ).map_values(|p: (String, String)| param_view(p)).push(param_view(params@[i as int])));
        i = i + 1;
    }
    assert(params@.take(params@.len() as int) =~= params@);
    out
}

/// The body of a posted request, given the CSRF token of the session:
/// weapi encrypts the JSON text of the parameters with a random secret,
/// eapi signs it for the player's address, linuxapi encrypts a wrapper of
/// the address and the parameters. Nothing where the text is too long to be
/// encrypted (longer than a quarter of the address space).
pub fn post_body(req: &ApiRequest, csrf: &str) -> (r: Option<String>)
    ensures
        ({
            let json = json_object_of(sent_params(req@, csrf@));
            match req.crypto {
                CryptoApi::Weapi => if encode_utf8(json).len() <= usize::MAX / 4 {
                    r matches Some(b) && exists|secret: Seq<u8>|
                        secret.len() == 16 && b@ == weapi_body(json, secret)
                } else {
                    r is None
                },
                CryptoApi::Eapi => if encode_utf8(eapi_url()).len() + encode_utf8(json).len()
                    <= usize::MAX / 4 {
                    r matches Some(b) && b@ == eapi_body(eapi_url(), json)
                } else {
                    r is None
                },
                CryptoApi::LinuxApi => {
                    let data = linux_data(
                        request_url_of(req@.path, csrf@, req.append_csrf, CryptoApi::LinuxApi),
                        json,
                    );
                    if paddable(encode_utf8(data).len()) {
                        r matches Some(b) && b@ == linuxapi_body(data)
                    } else {
                        r is None
                    }
                },
            }
        }),
{
    match req.crypto {
        CryptoApi::Weapi => {
            let mut params = clone_params(&req.params);
            set_param(&mut params, "csrf_token", csrf);
            let json = params_json(&params);
            let text = json.as_str();
            let n = text.as_bytes().len();
            assert(n == text.spec_bytes().len());
            if n > usize::MAX / 4 {
                return None;
            }
            Some(Crypto::weapi(text))
        },
        CryptoApi::Eapi => {
            let mut params = clone_params(&req.params);
            set_param(&mut params, "csrf_token", csrf);
            let json = params_json(&params);
            let text = json.as_str();
            let url = "/api/song/enhance/player/url";
            let n = text.as_bytes().len();
            let u = url.as_bytes().len();
            assert(n == text.spec_bytes().len());
            assert(u == url.spec_bytes().len());
            if n > usize::MAX / 4 || u > usize::MAX / 4 - n {
                return None;
            }
            Some(Crypto::eapi(url, text))
        },
        CryptoApi::LinuxApi => {
            let json = params_json(&req.params);
            let url = request_url(req.path.as_str(), csrf, req.append_csrf, CryptoApi::LinuxApi);
            proof {
                reveal_strlit("weapi");
            }
            let api_url = str_replace(url.as_str(), "weapi", "api");
            let mut data = "{\"method\":\"linuxapi\",\"url\":\"".to_owned();
            push_str(&mut data, api_url.as_str());
            push_str(&mut data, "\",\"params\":");
            push_str(&mut data, json.as_str());
            push_str(&mut data, "}");
            assert(data@ =~= linux_data(
                request_url_of(req@.path, csrf@, req.append_csrf, CryptoApi::LinuxApi),
                json@,
            ));
            let d = data.as_str();
            let n = d.as_bytes().len();
            assert(n == d.spec_bytes().len());
            if n > usize::MAX - 16 {
                return None;
            }
            Some(Crypto::linuxapi(d))
        },
    }
}

/// The JSON object text of string parameters, as `serde_json` writes a map
/// of them.
pub uninterp spec fn json_object_of(params: Seq<(Seq<char>, Seq<char>)>) -> Seq<char>;

/// `serde_json::to_string` of a `serde_json::Map` of string values built
/// from the parameters. The contract claims only that the text is a
/// function of the parameters.
#[verifier::external_body]
pub(crate) fn params_json(params: &Vec<(String, String)>) -> (r: String)
    ensures
        r@ == json_object_of(params@.map_values(|p: (String, String)| param_view(p))),
{
    let map: serde_json::Map<String, serde_json::Value> = params
        .iter()
        .map(|(k, v)| (k.clone(), serde_json::Value::String(v.clone())))
        .collect();
    serde_json::to_string(&map).unwrap_or_default()
}

} // verus!
