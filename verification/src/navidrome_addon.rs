//! The Navidrome add-on: settings from the environment, connection reports,
//! request addresses, and reading songs and artists out of Subsonic XML.
use vstd::prelude::*;
use crate::clients::listenbrainz::opt_view;
use crate::clients::navidrome::{md5_compute, md5_digest, utf8_bytes};
use crate::environment::{env_setting, Environment};
use crate::lidarr_addon::{percent_encoded, url_encode};
use crate::models::{hex_of, push_hex};
use crate::text::{
    chars_of, decimal, join, lemma_concat, matches_at, occurs_at, owned, parse_u32,
    parse_unsigned, push_all, push_decimal, push_str_chars, string_of, sub_chars, u64_to_string,
};

verus! {

/// Navidrome connection report.
#[derive(Debug, Clone)]
pub struct NavidromeInfo {
    pub enabled: bool,
    pub connected: bool,
    pub url: String,
    pub error: Option<String>,
}

/// A track read from Navidrome.
#[derive(Debug, Clone)]
pub struct SimpleTrack {
    pub id: String,
    pub title: String,
    pub artist: String,
    pub album: String,
    pub duration: u32,
    pub year: Option<u32>,
    pub genre: Option<String>,
}

/// An artist read from Navidrome.
#[derive(Debug, Clone)]
pub struct SimpleArtist {
    pub id: String,
    pub name: String,
    pub album_count: Option<u32>,
}

/// Library counts read from Navidrome.
#[derive(Debug, Clone)]
pub struct SimpleLibraryStats {
    pub artists: u32,
    pub albums: u32,
    pub songs: u32,
    pub source: String,
}

/// The Navidrome add-on's settings; it is enabled when the address, user
/// and password are all set.
pub struct NavidromeAddon {
    pub url: String,
    pub username: String,
    pub password: String,
    pub enabled: bool,
}

/// How a probe of a server went.
pub enum ProbeOutcome {
    /// The server answered; `status` is the text of its HTTP status.
    Answered { success: bool, status: String },
    /// The request failed with this error text.
    Unreachable(String),
}

/// The salt of the add-on's token.
pub open spec fn addon_salt() -> Seq<char> {
    "randomsalt"@
}

/// The query that authenticates the add-on's requests.
pub open spec fn addon_auth_query(a: NavidromeAddon) -> Seq<char> {
    "u="@ + a.username@ + "&t="@ + hex_of(md5_digest(utf8_bytes(a.password@ + addon_salt())))
        + "&s="@ + addon_salt() + "&v=1.16.1&c=StepheyBot-Music"@
}

/// The first position at or after `q` holding `c`, or the length of `s`.
pub open spec fn next_index(s: Seq<char>, c: char, q: int) -> int
    decreases s.len() - q,
{
    if q < 0 || q >= s.len() {
        s.len() as int
    } else if s[q] == c {
        q
    } else {
        next_index(s, c, q + 1)
    }
}

/// Whether a `<song ...>` tag (at least one character before its `>`)
/// starts at `p`.
pub open spec fn song_at(s: Seq<char>, p: int) -> bool {
    occurs_at(s, "<song"@, p) && p + 5 < next_index(s, '>', p + 5) < s.len()
}

/// The `<song ...>` tags of `s` from position `p` on, left to right and
/// without overlap (what the pattern `<song[^>]+>` finds).
pub open spec fn song_tags_from(s: Seq<char>, p: int) -> Seq<Seq<char>>
    decreases s.len() - p,
{
    if p < 0 || p >= s.len() {
        Seq::empty()
    } else if song_at(s, p) {
        let e = next_index(s, '>', p + 5);
        seq![s.subrange(p, e + 1)] + song_tags_from(s, e + 1)
    } else {
        song_tags_from(s, p + 1)
    }
}

/// Whether `key` (a name, `=` and `"`) starts at `i` and a closing `"` follows.
pub open spec fn attr_match_at(s: Seq<char>, key: Seq<char>, i: int) -> bool {
    occurs_at(s, key, i) && next_index(s, '"', i + key.len()) < s.len()
}

/// The quoted value after the first match of `key` at or after `p`.
pub open spec fn attr_value_from(s: Seq<char>, key: Seq<char>, p: int) -> Option<Seq<char>>
    decreases s.len() - p,
{
    if p < 0 || p >= s.len() {
        None
    } else if attr_match_at(s, key, p) {
        Some(s.subrange(p + key.len(), next_index(s, '"', p + key.len())))
    } else {
        attr_value_from(s, key, p + 1)
    }
}

/// The value of the first `name="value"` in `s` (what the pattern
/// `name="([^"]*)"` captures, the name taken literally).
pub open spec fn attribute_value(s: Seq<char>, name: Seq<char>) -> Option<Seq<char>> {
    attr_value_from(s, name + seq!['=', '"'], 0)
}

/// A number attribute, where present and a valid `u32`.
pub open spec fn number_attribute(s: Seq<char>, name: Seq<char>) -> Option<nat> {
    match attribute_value(s, name) {
        Some(v) => parse_unsigned(v, u32::MAX as nat),
        None => None,
    }
}

/// The track that the `k`-th song tag describes: missing fields get their
/// defaults (`unknown_<k>`, `Unknown Title`, ..., duration 0).
pub open spec fn track_of(t: SimpleTrack, tag: Seq<char>, k: nat) -> bool {
    &&& t.id@ == match attribute_value(tag, "id"@) {
        Some(v) => v,
        None => "unknown_"@ + decimal(k),
    }
    &&& t.title@ == attribute_value(tag, "title"@).unwrap_or("Unknown Title"@)
    &&& t.artist@ == attribute_value(tag, "artist"@).unwrap_or("Unknown Artist"@)
    &&& t.album@ == attribute_value(tag, "album"@).unwrap_or("Unknown Album"@)
    &&& t.duration == number_attribute(tag, "duration"@).unwrap_or(0)
    &&& t.year == match number_attribute(tag, "year"@) {
        Some(y) => Some(y as u32),
        None => None,
    }
    &&& opt_view(t.genre) == attribute_value(tag, "genre"@)
}

/// A random track takes each field from the song tag's attribute of that
/// name: `id`, `title`, `artist`, `album`, `duration`, `year` and `genre`,
/// with their defaults where the tag has no such attribute.
pub proof fn random_track_fields_come_from_their_attributes(t: SimpleTrack, tag: Seq<char>, k: nat)
    requires
        track_of(t, tag, k),
    ensures
        attribute_value(tag, "id"@) matches Some(v) ==> t.id@ == v,
        attribute_value(tag, "title"@) matches Some(v) ==> t.title@ == v,
        attribute_value(tag, "title"@) is None ==> t.title@ == "Unknown Title"@,
        attribute_value(tag, "artist"@) matches Some(v) ==> t.artist@ == v,
        attribute_value(tag, "artist"@) is None ==> t.artist@ == "Unknown Artist"@,
        attribute_value(tag, "album"@) matches Some(v) ==> t.album@ == v,
        attribute_value(tag, "album"@) is None ==> t.album@ == "Unknown Album"@,
        attribute_value(tag, "genre"@) matches Some(v) ==> (t.genre matches Some(x) && x@ == v),
        attribute_value(tag, "genre"@) is None ==> t.genre is None,
        attribute_value(tag, "duration"@) is None ==> t.duration == 0,
        attribute_value(tag, "year"@) is None ==> t.year is None,
{
}

/// How many tracks are read: the songs found, at most `limit` of them.
pub open spec fn tracks_taken(found: nat, limit: nat) -> nat {
    if found < limit {
        found
    } else {
        limit
    }
}

/// The number of non-overlapping occurrences of `pat` from `p` on, left to
/// right (std `str::matches(..).count()`).
pub open spec fn occurrences_from(s: Seq<char>, pat: Seq<char>, p: int) -> nat
    decreases s.len() - p,
{
    if p < 0 || p + pat.len() > s.len() || pat.len() == 0 {
        0
    } else if occurs_at(s, pat, p) {
        1 + occurrences_from(s, pat, p + pat.len())
    } else {
        occurrences_from(s, pat, p + 1)
    }
}

fn next_index_exec(s: &[char], c: char, q: usize) -> (r: usize)
    ensures
        r == next_index(s@, c, q as int),
        q <= s@.len() ==> q <= r <= s@.len(),
        q > s@.len() ==> r == s@.len(),
{
    if q >= s.len() {
        return s.len();
    }
    let mut i = q;
    while i < s.len() && s[i] != c
        invariant
            q <= i <= s@.len(),
            next_index(s@, c, q as int) == next_index(s@, c, i as int),
        decreases s@.len() - i,
    {
        i = i + 1;
    }
    i
}

/// The first song tag at or after `p`: its start and the position of its `>`.
fn next_song(s: &[char], p: usize) -> (r: Option<(usize, usize)>)
    requires
        p <= s@.len(),
    ensures
        match r {
            Some((i, e)) => p <= i && i + 5 < e && e < s@.len() && song_tags_from(s@, p as int)
                == seq![s@.subrange(i as int, e + 1)] + song_tags_from(s@, e + 1),
            None => song_tags_from(s@, p as int) == Seq::<Seq<char>>::empty(),
        },
{
    let pat = chars_of("<song");
    proof {
        reveal_strlit("<song");
    }
    let mut i = p;
    while i < s.len()
        invariant
            p <= i <= s@.len(),
            pat@ == "<song"@,
            pat@.len() == 5,
            song_tags_from(s@, p as int) == song_tags_from(s@, i as int),
        decreases s@.len() - i,
    {
        if matches_at(s, &pat, i) {
            assert(i + pat@.len() <= s@.len());
            assert(pat@.len() == 5);
            assert(s@.len() == s.len());
            let e = next_index_exec(s, '>', i + 5);
            if i + 5 < e && e < s.len() {
                return Some((i, e));
            }
        }
        i = i + 1;
    }
    None
}

/// The quoted value after the first `key` in `s`.
fn attribute_in(s: &[char], key: &[char]) -> (r: Option<Vec<char>>)
    ensures
        match attr_value_from(s@, key@, 0) {
            Some(v) => (r matches Some(w) && w@ == v),
            None => r is None,
        },
{
    let mut i: usize = 0;
    while i < s.len()
        invariant
            i <= s@.len(),
            attr_value_from(s@, key@, 0) == attr_value_from(s@, key@, i as int),
        decreases s@.len() - i,
    {
        if matches_at(s, key, i) {
            let e = next_index_exec(s, '"', i + key.len());
            if e < s.len() {
                return Some(sub_chars(s, i + key.len(), e));
            }
        }
        i = i + 1;
    }
    None
}

/// The pattern an attribute is read with: its name (as a regular
/// expression), `="`, the value, `"`.
pub open spec fn attribute_pattern(name: Seq<char>) -> Seq<char> {
    name + "=\"([^\"]*)\""@
}

/// The value of the attribute `attr_name` in an XML fragment: the first
/// group of the first match of `attribute_pattern(attr_name)`; none where
/// the pattern does not compile or does not match.
pub fn extract_attribute(xml: &str, attr_name: &str) -> (r: Option<String>)
    ensures
        match regex_captures_result(attribute_pattern(attr_name@), xml@) {
            Some(c) => if c.len() > 0 {
                opt_view(r) == group_at(c[0], 1)
            } else {
                r is None
            },
            None => r is None,
        },
{
    let tail = "=\"([^\"]*)\"";
    proof {
        lemma_concat(attr_name, tail, "", "", "");
    }
    let pattern = join(&[attr_name, tail]);
    match regex_captures(pattern.as_str(), xml) {
        Some(c) => {
            if c.len() == 0 {
                return None;
            }
            let g = &c[0];
            assert(groups_view(g@) == captures_view(c@)[0]);
            if 1 < g.len() {
                match &g[1] {
                    Some(t) => Some(owned(t.as_str())),
                    None => None,
                }
            } else {
                None
            }
        },
        None => None,
    }
}

fn text_or(v: Option<Vec<char>>, default: &str) -> (r: String)
    ensures
        r@ == match v {
            Some(w) => w@,
            None => default@,
        },
{
    match v {
        Some(w) => string_of(&w),
        None => owned(default),
    }
}

fn number_or_none(v: Option<Vec<char>>) -> (r: Option<u32>)
    ensures
        match v {
            Some(w) => match parse_unsigned(w@, u32::MAX as nat) {
                Some(n) => r == Some(n as u32),
                None => r is None,
            },
            None => r is None,
        },
{
    match v {
        Some(w) => parse_u32(&w),
        None => None,
    }
}

fn key_of(name: &str) -> (r: Vec<char>)
    ensures
        r@ == name@ + seq!['=', '"'],
{
    let mut key = chars_of(name);
    key.push('=');
    key.push('"');
    assert(key@ =~= name@ + seq!['=', '"']);
    key
}

/// The track described by a song tag, the `k`-th read.
fn track_from_tag(tag: &[char], k: usize) -> (t: SimpleTrack)
    ensures
        track_of(t, tag@, k as nat),
{
    let id = match attribute_in(tag, &key_of("id")) {
        Some(w) => string_of(&w),
        None => {
            let mut v: Vec<char> = Vec::new();
            push_str_chars(&mut v, "unknown_");
            push_decimal(&mut v, k as u64);
            proof {
                reveal_strlit("unknown_");
            }
            string_of(&v)
        },
    };
    let title = text_or(attribute_in(tag, &key_of("title")), "Unknown Title");
    let artist = text_or(attribute_in(tag, &key_of("artist")), "Unknown Artist");
    let album = text_or(attribute_in(tag, &key_of("album")), "Unknown Album");
    let duration = match number_or_none(attribute_in(tag, &key_of("duration"))) {
        Some(d) => d,
        None => 0,
    };
    let year = number_or_none(attribute_in(tag, &key_of("year")));
    let genre = match attribute_in(tag, &key_of("genre")) {
        Some(w) => Some(string_of(&w)),
        None => None,
    };
    SimpleTrack { id, title, artist, album, duration, year, genre }
}

/// The tracks of a `getRandomSongs` answer: one per song tag, in order, at
/// most `limit` of them.
pub fn parse_random_tracks(text: &str, limit: u32) -> (r: Vec<SimpleTrack>)
    ensures
        r@.len() == tracks_taken(song_tags_from(text@, 0).len(), limit as nat),
        forall|k: int|
            0 <= k < r@.len() ==> track_of(#[trigger] r@[k], song_tags_from(text@, 0)[k], k as nat),
{
    let s = chars_of(text);
    let ghost all = song_tags_from(s@, 0);
    let mut tracks: Vec<SimpleTrack> = Vec::new();
    let mut p: usize = 0;
    let ghost mut seen: Seq<Seq<char>> = Seq::empty();
    loop
        invariant
            p <= s@.len(),
            s@.len() == s.len(),
            s@ == text@,
            all == song_tags_from(s@, 0),
            all == seen + song_tags_from(s@, p as int),
            tracks@.len() == seen.len(),
            tracks@.len() <= limit,
            forall|k: int| 0 <= k < tracks@.len() ==> track_of(#[trigger] tracks@[k], all[k], k as nat),
        ensures
            tracks@.len() == tracks_taken(all.len(), limit as nat),
            forall|k: int| 0 <= k < tracks@.len() ==> track_of(#[trigger] tracks@[k], all[k], k as nat),
        decreases s@.len() - p,
    {
        if tracks.len() >= limit as usize {
            assert(all.len() >= seen.len());
            break;
        }
        match next_song(&s, p) {
            None => {
                assert(all =~= seen);
                break;
            },
            Some((i, e)) => {
                let tag = sub_chars(&s, i, e + 1);
                let k = tracks.len();
                let t = track_from_tag(&tag, k);
                let ghost before = tracks@;
                tracks.push(t);
                proof {
                    let rest = song_tags_from(s@, e + 1);
                    assert(all == seen + (seq![tag@] + rest));
                    assert(seen + (seq![tag@] + rest) =~= seen.push(tag@) + rest);
                    assert(all[k as int] == tag@);
                    seen = seen.push(tag@);
                    assert forall|j: int| 0 <= j < tracks@.len() implies track_of(
                        #[trigger] tracks@[j],
                        all[j],
                        j as nat,
                    ) by {
                        if j < k {
                            assert(tracks@[j] == before[j]);
                        }
                    }
                }
                p = e + 1;
            },
        }
    }
    tracks
}

/// The number of `<artist` tags in a text.
fn count_artist_tags(s: &[char]) -> (n: usize)
    ensures
        n == occurrences_from(s@, "<artist"@, 0),
{
    let pat = chars_of("<artist");
    proof {
        reveal_strlit("<artist");
    }
    let mut i: usize = 0;
    let mut n: usize = 0;
    while i <= s.len() && s.len() - i >= 7
        invariant
            i <= s@.len(),
            pat@ == "<artist"@,
            pat@.len() == 7,
            n + occurrences_from(s@, pat@, i as int) == occurrences_from(s@, pat@, 0),
            n <= i,
        decreases s@.len() - i,
    {
        if matches_at(s, &pat, i) {
            n = n + 1;
            i = i + 7;
        } else {
            i = i + 1;
        }
    }
    assert(occurrences_from(s@, pat@, i as int) == 0);
    n
}

/// Library counts from a `getArtists` answer: the number of `<artist` tags,
/// with three albums and thirty songs estimated per artist.
pub fn library_stats_from(text: &str) -> (r: SimpleLibraryStats)
    requires
        occurrences_from(text@, "<artist"@, 0) * 30 <= u32::MAX,
    ensures
        r.artists == occurrences_from(text@, "<artist"@, 0),
        r.albums == r.artists * 3,
        r.songs == r.artists * 30,
        r.source@ == "navidrome"@,
{
    let s = chars_of(text);
    let n = count_artist_tags(&s) as u32;
    SimpleLibraryStats { artists: n, albums: n * 3, songs: n * 30, source: owned("navidrome") }
}

/// The report of an add-on connection probe.
pub open spec fn probe_report(
    enabled: bool,
    url: Seq<char>,
    probe: Option<ProbeOutcome>,
    not_configured: Seq<char>,
    info_enabled: bool,
    info_connected: bool,
    info_url: Seq<char>,
    info_error: Option<Seq<char>>,
) -> bool {
    if !enabled {
        !info_enabled && !info_connected && info_url.len() == 0 && info_error == Some(not_configured)
    } else {
        info_enabled && match probe {
            Some(ProbeOutcome::Answered { success, status }) => info_url == url && if success {
                info_connected && info_error is None
            } else {
                !info_connected && info_error == Some("HTTP "@ + status@)
            },
            Some(ProbeOutcome::Unreachable(e)) => info_url == url && !info_connected && info_error
                == Some(e@),
            None => false,
        }
    }
}

/// The error text of a failed probe, and whether it connected.
pub fn probe_result(probe: &ProbeOutcome) -> (r: (bool, Option<String>))
    ensures
        match probe {
            ProbeOutcome::Answered { success, status } => if *success {
                r.0 && r.1 is None
            } else {
                !r.0 && (r.1 matches Some(t) && t@ == "HTTP "@ + status@)
            },
            ProbeOutcome::Unreachable(e) => !r.0 && (r.1 matches Some(t) && t@ == e@),
        },
{
    match probe {
        ProbeOutcome::Answered { success, status } => if *success {
            (true, None)
        } else {
            let st = status.as_str();
            proof {
                lemma_concat("HTTP ", st, "", "", "");
            }
            (false, Some(join(&["HTTP ", st])))
        },
        ProbeOutcome::Unreachable(e) => (false, Some(owned(e.as_str()))),
    }
}

impl NavidromeAddon {
    /// The settings from the environment: `STEPHEYBOT__NAVIDROME__URL` or
    /// `NAVIDROME_URL`, `STEPHEYBOT__NAVIDROME__ADMIN_USER` or
    /// `NAVIDROME_USERNAME`, `STEPHEYBOT__NAVIDROME__ADMIN_PASSWORD` or
    /// `NAVIDROME_PASSWORD`; enabled when all three are non-empty.
    pub fn from_env(env: &Environment) -> (r: Self)
        ensures
            r.url@ == env_setting(env.vars@, "STEPHEYBOT__NAVIDROME__URL"@, "NAVIDROME_URL"@),
            r.username@ == env_setting(
                env.vars@,
                "STEPHEYBOT__NAVIDROME__ADMIN_USER"@,
                "NAVIDROME_USERNAME"@,
            ),
            r.password@ == env_setting(
                env.vars@,
                "STEPHEYBOT__NAVIDROME__ADMIN_PASSWORD"@,
                "NAVIDROME_PASSWORD"@,
            ),
            r.enabled == (r.url@.len() > 0 && r.username@.len() > 0 && r.password@.len() > 0),
    {
        let url = env.setting("STEPHEYBOT__NAVIDROME__URL", "NAVIDROME_URL");
        let username = env.setting("STEPHEYBOT__NAVIDROME__ADMIN_USER", "NAVIDROME_USERNAME");
        let password = env.setting("STEPHEYBOT__NAVIDROME__ADMIN_PASSWORD", "NAVIDROME_PASSWORD");
        let enabled = !url.as_str().is_empty() && !username.as_str().is_empty()
            && !password.as_str().is_empty();
        NavidromeAddon { url, username, password, enabled }
    }

    /// The connection report: a disabled add-on is not probed and reports
    /// that it is not configured; an enabled one reports how its probe went.
    pub fn connection_info(&self, probe: Option<&ProbeOutcome>) -> (r: NavidromeInfo)
        requires
            self.enabled ==> probe is Some,
        ensures
            probe_report(
                self.enabled,
                self.url@,
                match probe {
                    Some(p) => Some(*p),
                    None => None,
                },
                "Navidrome not configured"@,
                r.enabled,
                r.connected,
                r.url@,
                opt_view(r.error),
            ),
    {
        if !self.enabled {
            return NavidromeInfo {
                enabled: false,
                connected: false,
                url: String::new(),
                error: Some(owned("Navidrome not configured")),
            };
        }
        match probe {
            Some(p) => {
                let (connected, error) = probe_result(p);
                NavidromeInfo { enabled: true, connected, url: owned(self.url.as_str()), error }
            },
            None => NavidromeInfo {
                enabled: true,
                connected: false,
                url: owned(self.url.as_str()),
                error: None,
            },
        }
    }

    /// The authentication query of the add-on's requests.
    pub fn auth_query(&self) -> (r: String)
        ensures
            r@ == addon_auth_query(*self),
    {
        let salt = "randomsalt";
        let pw = self.password.as_str();
        proof {
            lemma_concat(pw, salt, "", "", "");
        }
        let input = join(&[pw, salt]);
        let digest = md5_compute(input.as_str().as_bytes());
        let mut t: Vec<char> = Vec::new();
        push_hex(&mut t, &digest, 0, 16);
        proof {
            assert(digest@.subrange(0, 16) =~= digest@);
        }
        let token = string_of(&t);
        let mut v: Vec<char> = Vec::new();
        push_str_chars(&mut v, "u=");
        push_str_chars(&mut v, self.username.as_str());
        push_str_chars(&mut v, "&t=");
        push_str_chars(&mut v, token.as_str());
        push_str_chars(&mut v, "&s=");
        push_str_chars(&mut v, salt);
        push_str_chars(&mut v, "&v=1.16.1&c=StepheyBot-Music");
        assert(v@ =~= addon_auth_query(*self));
        string_of(&v)
    }

    /// The address that lists the artists.
    pub fn artists_url(&self) -> (r: String)
        ensures
            r@ == self.url@ + "/rest/getArtists?"@ + addon_auth_query(*self),
    {
        let q = self.auth_query();
        let u = self.url.as_str();
        let qs = q.as_str();
        proof {
            lemma_concat(u, "/rest/getArtists?", qs, "", "");
        }
        join(&[u, "/rest/getArtists?", qs])
    }

    /// The address that asks for `limit` random songs.
    pub fn random_songs_url(&self, limit: u32) -> (r: String)
        ensures
            r@ == self.url@ + "/rest/getRandomSongs?"@ + addon_auth_query(*self) + "&size="@
                + decimal(limit as nat),
    {
        let q = self.auth_query();
        let d = u64_to_string(limit as u64);
        let u = self.url.as_str();
        let qs = q.as_str();
        let ds = d.as_str();
        proof {
            lemma_concat(u, "/rest/getRandomSongs?", qs, "&size=", ds);
        }
        join(&[u, "/rest/getRandomSongs?", qs, "&size=", ds])
    }

    /// The address a track is streamed from.
    pub fn track_stream_url(&self, track_id: &str) -> (r: String)
        ensures
            r@ == self.url@ + "/rest/stream?"@ + addon_auth_query(*self) + "&id="@ + track_id@,
    {
        let q = self.auth_query();
        let u = self.url.as_str();
        let qs = q.as_str();
        proof {
            lemma_concat(u, "/rest/stream?", qs, "&id=", track_id);
        }
        join(&[u, "/rest/stream?", qs, "&id=", track_id])
    }

    /// The address that searches the library for `query` (percent-encoded).
    pub fn search_songs_url(&self, query: &str) -> (r: String)
        ensures
            r@ == self.url@ + "/rest/search3?"@ + addon_auth_query(*self) + "&query="@ + percent_encoded(
                utf8_bytes(query@),
            ),
    {
        let q = self.auth_query();
        let e = url_encode(query);
        let u = self.url.as_str();
        let qs = q.as_str();
        let es = e.as_str();
        proof {
            lemma_concat(u, "/rest/search3?", qs, "&query=", es);
        }
        join(&[u, "/rest/search3?", qs, "&query=", es])
    }
}

// ---------------------------------------------------------------------------
// Songs found by a library search
// ---------------------------------------------------------------------------

/// What `regex::Regex::new(pattern)` and then `captures_iter(text)` give:
/// `None` where the pattern does not compile, else for each match in order
/// the text of each capture group (group 0 first), `None` for a group that
/// took no part in the match.
pub uninterp spec fn regex_captures_result(pattern: Seq<char>, text: Seq<char>) -> Option<
    Seq<Seq<Option<Seq<char>>>>,
>;

/// The texts of the groups of one match.
pub open spec fn groups_view(g: Seq<Option<String>>) -> Seq<Option<Seq<char>>> {
    Seq::new(g.len(), |j: int| opt_view(g[j]))
}

/// The texts of the groups of each match.
pub open spec fn captures_view(v: Seq<Vec<Option<String>>>) -> Seq<Seq<Option<Seq<char>>>> {
    Seq::new(v.len(), |i: int| groups_view(v[i]@))
}

/// `regex::Regex::new` then `Regex::captures_iter`, each match read as the
/// texts of its groups: the contract names the result; the
/// regular-expression semantics are not restated.
#[verifier::external_body]
fn regex_captures(pattern: &str, text: &str) -> (r: Option<Vec<Vec<Option<String>>>>)
    ensures
        match regex_captures_result(pattern@, text@) {
            Some(c) => (r matches Some(v) && captures_view(v@) == c),
            None => r is None,
        },
{
    match regex::Regex::new(pattern) {
        Ok(re) => Some(
            re.captures_iter(text).map(|c| c.iter().map(|m| m.map(|m| m.as_str().to_string())).collect()).collect(),
        ),
        Err(_) => None,
    }
}

/// The pattern a `<song .../>` element of a search answer is read with: its
/// id, title, artist, album and duration attributes in that order, then an
/// optional year and an optional genre.
pub open spec fn song_pattern() -> Seq<char> {
    "<song[^>]*id=\"([^\"]*)\"[^>]*title=\"([^\"]*)\"[^>]*artist=\"([^\"]*)\"[^>]*album=\"([^\"]*)\"[^>]*duration=\"([^\"]*)\"[^>]*(?:year=\"([^\"]*)\")?[^>]*(?:genre=\"([^\"]*)\")?[^>]*/?>"@
}

/// A track found by a library search.
#[derive(Debug, Clone)]
pub struct LibraryTrack {
    pub id: String,
    pub title: String,
    pub artist: String,
    pub album: String,
    pub duration: u32,
    pub year: Option<u32>,
    pub genre: String,
    pub stream_url: String,
    pub navidrome_id: String,
}

/// Group `k` of a match, where it took part.
pub open spec fn group_at(g: Seq<Option<Seq<char>>>, k: int) -> Option<Seq<char>> {
    if 0 <= k < g.len() {
        g[k]
    } else {
        None
    }
}

/// Group `k` of a match, or `d`.
pub open spec fn group_or(g: Seq<Option<Seq<char>>>, k: int, d: Seq<char>) -> Seq<char> {
    match group_at(g, k) {
        Some(t) => t,
        None => d,
    }
}

/// The track read from the groups of one match: the defaults stand in for
/// missing groups, a duration that is not a `u32` reads as 0 and a year
/// that is not one is left out.
pub open spec fn library_track_of(t: LibraryTrack, g: Seq<Option<Seq<char>>>) -> bool {
    let id = group_or(g, 1, "unknown"@);
    &&& t.id@ == id
    &&& t.title@ == group_or(g, 2, "Unknown Title"@)
    &&& t.artist@ == group_or(g, 3, "Unknown Artist"@)
    &&& t.album@ == group_or(g, 4, "Unknown Album"@)
    &&& t.duration as nat == match parse_unsigned(group_or(g, 5, "0"@), u32::MAX as nat) {
        Some(v) => v,
        None => 0,
    }
    &&& t.year == match group_at(g, 6) {
        Some(y) => match parse_unsigned(y, u32::MAX as nat) {
            Some(v) => Some(v as u32),
            None => None,
        },
        None => None,
    }
    &&& t.genre@ == group_or(g, 7, "Unknown"@)
    &&& t.stream_url@ == "/api/v1/stream/"@ + id
    &&& t.navidrome_id@ == id
}

/// A track read from a match takes each field from its own group of the
/// song pattern: the id from group 1, the title from 2, the artist from 3,
/// the album from 4 and the genre from 7, each with its default where the
/// group took no part; its stream address and Navidrome id follow its id.
pub proof fn library_track_fields_come_from_their_groups(t: LibraryTrack, g: Seq<Option<Seq<char>>>)
    requires
        library_track_of(t, g),
    ensures
        (g.len() > 1 && g[1] is Some) ==> t.id@ == g[1]->0,
        !(g.len() > 1 && g[1] is Some) ==> t.id@ == "unknown"@,
        (g.len() > 2 && g[2] is Some) ==> t.title@ == g[2]->0,
        !(g.len() > 2 && g[2] is Some) ==> t.title@ == "Unknown Title"@,
        (g.len() > 3 && g[3] is Some) ==> t.artist@ == g[3]->0,
        !(g.len() > 3 && g[3] is Some) ==> t.artist@ == "Unknown Artist"@,
        (g.len() > 4 && g[4] is Some) ==> t.album@ == g[4]->0,
        !(g.len() > 4 && g[4] is Some) ==> t.album@ == "Unknown Album"@,
        (g.len() > 7 && g[7] is Some) ==> t.genre@ == g[7]->0,
        !(g.len() > 7 && g[7] is Some) ==> t.genre@ == "Unknown"@,
        (g.len() > 5 && g[5] is Some && parse_unsigned(g[5]->0, u32::MAX as nat) is Some) ==> t.duration
            == parse_unsigned(g[5]->0, u32::MAX as nat)->0,
        !(g.len() > 6 && g[6] is Some) ==> t.year is None,
        t.stream_url@ == "/api/v1/stream/"@ + t.id@,
        t.navidrome_id@ == t.id@,
{
}

fn group_text(g: &Vec<Option<String>>, k: usize, d: &str) -> (r: String)
    ensures
        r@ == group_or(groups_view(g@), k as int, d@),
{
    if k < g.len() {
        match &g[k] {
            Some(t) => owned(t.as_str()),
            None => owned(d),
        }
    } else {
        owned(d)
    }
}

fn library_track(g: &Vec<Option<String>>) -> (t: LibraryTrack)
    ensures
        library_track_of(t, groups_view(g@)),
{
    let ghost gv = groups_view(g@);
    let id = group_text(g, 1, "unknown");
    let dur_text = group_text(g, 5, "0");
    let duration = match parse_u32(&chars_of(dur_text.as_str())) {
        Some(v) => v,
        None => 0,
    };
    let year = if 6 < g.len() {
        match &g[6] {
            Some(y) => parse_u32(&chars_of(y.as_str())),
            None => None,
        }
    } else {
        None
    };
    assert(6 < g@.len() ==> gv[6] == opt_view(g@[6]));
    let is = id.as_str();
    proof {
        lemma_concat("/api/v1/stream/", is, "", "", "");
    }
    LibraryTrack {
        stream_url: join(&["/api/v1/stream/", is]),
        navidrome_id: owned(is),
        title: group_text(g, 2, "Unknown Title"),
        artist: group_text(g, 3, "Unknown Artist"),
        album: group_text(g, 4, "Unknown Album"),
        duration,
        year,
        genre: group_text(g, 7, "Unknown"),
        id,
    }
}

/// The tracks read from the matches of a library search, one per match, in order.
pub fn library_tracks(captures: &Vec<Vec<Option<String>>>) -> (r: Vec<LibraryTrack>)
    ensures
        r@.len() == captures@.len(),
        forall|k: int| 0 <= k < r@.len() ==> library_track_of(#[trigger] r@[k], captures_view(captures@)[k]),
{
    let mut out: Vec<LibraryTrack> = Vec::new();
    let mut i: usize = 0;
    while i < captures.len()
        invariant
            i <= captures@.len(),
            out@.len() == i,
            forall|k: int| 0 <= k < i ==> library_track_of(#[trigger] out@[k], captures_view(captures@)[k]),
        decreases captures@.len() - i,
    {
        let t = library_track(&captures[i]);
        out.push(t);
        i = i + 1;
    }
    out
}

/// The tracks of a library search answer: every `<song .../>` element that
/// `song_pattern` matches, read as `library_tracks` reads it; none where the
/// pattern does not compile.
pub fn search_answer_tracks(xml: &str) -> (r: Vec<LibraryTrack>)
    ensures
        match regex_captures_result(song_pattern(), xml@) {
            Some(c) => r@.len() == c.len() && forall|k: int|
                0 <= k < r@.len() ==> library_track_of(#[trigger] r@[k], c[k]),
            None => r@.len() == 0,
        },
{
    let pattern = "<song[^>]*id=\"([^\"]*)\"[^>]*title=\"([^\"]*)\"[^>]*artist=\"([^\"]*)\"[^>]*album=\"([^\"]*)\"[^>]*duration=\"([^\"]*)\"[^>]*(?:year=\"([^\"]*)\")?[^>]*(?:genre=\"([^\"]*)\")?[^>]*/?>";
    match regex_captures(pattern, xml) {
        Some(c) => library_tracks(&c),
        None => Vec::new(),
    }
}

/// The add-on as the environment configures it.
pub fn create_navidrome_addon(env: &Environment) -> (r: NavidromeAddon)
    ensures
        r.url@ == env_setting(env.vars@, "STEPHEYBOT__NAVIDROME__URL"@, "NAVIDROME_URL"@),
        r.username@ == env_setting(
            env.vars@,
            "STEPHEYBOT__NAVIDROME__ADMIN_USER"@,
            "NAVIDROME_USERNAME"@,
        ),
        r.password@ == env_setting(
            env.vars@,
            "STEPHEYBOT__NAVIDROME__ADMIN_PASSWORD"@,
            "NAVIDROME_PASSWORD"@,
        ),
        r.enabled == (r.url@.len() > 0 && r.username@.len() > 0 && r.password@.len() > 0),
{
    NavidromeAddon::from_env(env)
}

/// Whether the environment configures Navidrome: address, user and password
/// all set.
pub fn is_navidrome_configured(env: &Environment) -> (r: bool)
    ensures
        r == (env_setting(env.vars@, "STEPHEYBOT__NAVIDROME__URL"@, "NAVIDROME_URL"@).len() > 0
            && env_setting(
            env.vars@,
            "STEPHEYBOT__NAVIDROME__ADMIN_USER"@,
            "NAVIDROME_USERNAME"@,
        ).len() > 0 && env_setting(
            env.vars@,
            "STEPHEYBOT__NAVIDROME__ADMIN_PASSWORD"@,
            "NAVIDROME_PASSWORD"@,
        ).len() > 0),
{
    create_navidrome_addon(env).enabled
}

} // verus!
