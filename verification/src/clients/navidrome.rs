//! Navidrome (Subsonic API): records, token authentication, request
//! addresses and parameters, and the checks made on its answers.
use vstd::prelude::*;
use crate::models::{hex_of, push_hex, random_uuid_bytes};
use crate::text::{
    chars_eq, chars_of, decimal, ends_with, join, lemma_concat, owned, pair_texts, push_pair,
    string_of, u64_to_string,
};

verus! {

/// The envelope of every Subsonic answer.
#[derive(Debug)]
pub struct SubsonicResponse<T> {
    pub subsonic_response: SubsonicResponseInner<T>,
}

#[derive(Debug)]
pub struct SubsonicResponseInner<T> {
    pub status: String,
    pub version: String,
    pub error: Option<SubsonicError>,
    pub data: Option<T>,
}

#[derive(Debug)]
pub struct SubsonicError {
    pub code: u32,
    pub message: String,
}

/// A Navidrome user.
#[derive(Debug, Clone)]
pub struct NavidromeUser {
    pub username: String,
    pub email: Option<String>,
    pub scrobbling_enabled: Option<bool>,
    pub admin_role: Option<bool>,
    pub settings_role: Option<bool>,
    pub stream_role: Option<bool>,
    pub jukebox_role: Option<bool>,
    pub download_role: Option<bool>,
    pub upload_role: Option<bool>,
    pub playlist_role: Option<bool>,
    pub cover_art_role: Option<bool>,
    pub comment_role: Option<bool>,
    pub podcast_role: Option<bool>,
    pub share_role: Option<bool>,
    pub video_conversion_role: Option<bool>,
    pub music_folder_id: Option<String>,
    pub max_bit_rate: Option<u32>,
    pub avatar_last_changed: Option<String>,
}

#[derive(Debug, Clone)]
pub struct SimilarArtist {
    pub id: String,
    pub name: String,
}

#[derive(Debug, Clone)]
pub struct DiscTitle {
    pub disc: u32,
    pub title: String,
}

/// A play of a song (`time` in Unix milliseconds).
#[derive(Debug, Clone)]
pub struct ScrobbleEntry {
    pub id: String,
    pub time: u64,
    pub submission: Option<bool>,
}

#[derive(Debug)]
pub struct UsersResponse {
    pub users: Users,
}

#[derive(Debug)]
pub struct Users {
    pub user: Vec<NavidromeUser>,
}

/// What the library keeps of a Navidrome connection: the address (ending in
/// `/`), the account, and the salt and token that authenticate each request.
pub struct NavidromeClient {
    pub base_url: String,
    pub username: String,
    pub password: String,
    pub salt: String,
    pub token: String,
    pub rate_limit_delay_ms: u64,
}

/// Why a Subsonic call failed.
pub enum SubsonicFailure {
    /// The answer's status was not `ok`; the server gave this code and message.
    Api(u32, String),
    /// The answer's status was not `ok` and it gave no error.
    Unknown,
    /// A rating outside 0 to 5 was asked for.
    RatingOutOfRange,
}

/// What to do with an existing playlist of the same name.
pub enum PlaylistPlan {
    /// Replace the songs of the playlist at this position: remove the
    /// entries at these indices and add the new songs.
    Update { index: usize, remove: Vec<u32> },
    /// No playlist has the name: create one.
    Create,
}

/// MD5 of `data` (the 16 bytes of the digest).
pub uninterp spec fn md5_digest(data: Seq<u8>) -> Seq<u8>;

/// The md5 crate's `compute`: the 16-byte digest of `data`.
#[verifier::external_body]
pub(crate) fn md5_compute(data: &[u8]) -> (r: Vec<u8>)
    ensures
        r@ == md5_digest(data@),
        r@.len() == 16,
{
    md5::compute(data).0.to_vec()
}

/// The address that the url crate gives for `address` with `pairs` appended
/// as `application/x-www-form-urlencoded` query pairs; `None` where it does
/// not parse.
pub uninterp spec fn url_with_pairs(address: Seq<char>, pairs: Seq<(Seq<char>, Seq<char>)>) -> Option<
    Seq<char>,
>;

/// url's `Url::parse` of `address`, then `query_pairs_mut().extend_pairs`
/// with `pairs`, as text. What the text is, is left to the name.
#[verifier::external_body]
fn url_with_query(address: &str, pairs: &Vec<(String, String)>) -> (r: Option<String>)
    ensures
        match url_with_pairs(address@, pair_texts(pairs@)) {
            Some(u) => (r matches Some(s) && s@ == u),
            None => r is None,
        },
{
    match url::Url::parse(address) {
        Ok(mut u) => {
            u.query_pairs_mut().extend_pairs(pairs.iter());
            Some(u.to_string())
        },
        Err(_) => None,
    }
}

/// The texts of the UTF-8 bytes of `s`.
pub open spec fn utf8_bytes(s: Seq<char>) -> Seq<u8> {
    vstd::utf8::encode_utf8(s)
}

/// The authentication token of a password and salt: the lowercase hex MD5 of
/// the password followed by the salt.
pub open spec fn subsonic_token(password: Seq<char>, salt: Seq<char>) -> Seq<char> {
    hex_of(md5_digest(utf8_bytes(password + salt)))
}

/// The address with a `/` at its end (added where missing).
pub open spec fn with_slash(s: Seq<char>) -> Seq<char> {
    if ends_with(s, seq!['/']) {
        s
    } else {
        s.push('/')
    }
}

/// The parameters every request carries: user, token, salt, API version,
/// client name and format.
pub open spec fn auth_pairs(c: NavidromeClient) -> Seq<(Seq<char>, Seq<char>)> {
    seq![
        ("u"@, c.username@),
        ("t"@, c.token@),
        ("s"@, c.salt@),
        ("v"@, "1.16.1"@),
        ("c"@, "StepheyBot-Music"@),
        ("f"@, "json"@),
    ]
}

/// A parameter where the value is given, nothing otherwise.
pub open spec fn opt_pair(k: Seq<char>, v: Option<Seq<char>>) -> Seq<(Seq<char>, Seq<char>)> {
    match v {
        Some(x) => seq![(k, x)],
        None => Seq::empty(),
    }
}

/// A numeric parameter where the value is given.
pub open spec fn opt_num_pair(k: Seq<char>, v: Option<u32>) -> Seq<(Seq<char>, Seq<char>)> {
    match v {
        Some(n) => seq![(k, decimal(n as nat))],
        None => Seq::empty(),
    }
}

/// A boolean parameter where the value is given.
pub open spec fn opt_flag_pair(k: Seq<char>, v: Option<bool>) -> Seq<(Seq<char>, Seq<char>)> {
    match v {
        Some(b) => seq![(k, if b { "true"@ } else { "false"@ })],
        None => Seq::empty(),
    }
}

/// The text of an optional string slice.
pub open spec fn opt_text(o: Option<&str>) -> Option<Seq<char>> {
    match o {
        Some(s) => Some(s@),
        None => None,
    }
}

fn push_opt(v: &mut Vec<(String, String)>, k: &str, val: Option<&str>)
    ensures
        pair_texts(final(v)@) == pair_texts(old(v)@) + opt_pair(k@, opt_text(val)),
{
    match val {
        Some(x) => push_pair(v, k, x),
        None => {
            assert(pair_texts(v@) =~= pair_texts(v@) + opt_pair(k@, opt_text(val)));
        },
    }
}

fn push_opt_num(v: &mut Vec<(String, String)>, k: &str, val: Option<u32>)
    ensures
        pair_texts(final(v)@) == pair_texts(old(v)@) + opt_num_pair(k@, val),
{
    match val {
        Some(n) => {
            let d = u64_to_string(n as u64);
            push_pair(v, k, d.as_str());
        },
        None => {
            assert(pair_texts(v@) =~= pair_texts(v@) + opt_num_pair(k@, val));
        },
    }
}

fn push_opt_flag(v: &mut Vec<(String, String)>, k: &str, val: Option<bool>)
    ensures
        pair_texts(final(v)@) == pair_texts(old(v)@) + opt_flag_pair(k@, val),
{
    match val {
        Some(b) => push_pair(
            v,
            k,
            if b {
                "true"
            } else {
                "false"
            },
        ),
        None => {
            assert(pair_texts(v@) =~= pair_texts(v@) + opt_flag_pair(k@, val));
        },
    }
}

/// The lowercase hex text of 16 random bytes: the salt of a new client.
pub open spec fn is_salt(s: Seq<char>) -> bool {
    exists|b: Seq<u8>| b.len() == 16 && s == hex_of(b)
}

impl NavidromeClient {
    /// A client for the server at `base_url` with a fresh random salt: the
    /// hex digits of a version 4 UUID.
    pub fn new(base_url: &str, username: &str, password: &str) -> (r: Self)
        ensures
            is_salt(r.salt@),
            r.base_url@ == with_slash(base_url@),
            r.username@ == username@,
            r.password@ == password@,
            r.token@ == subsonic_token(password@, r.salt@),
            r.rate_limit_delay_ms == 100,
    {
        let b = random_uuid_bytes();
        let mut v: Vec<char> = Vec::new();
        push_hex(&mut v, &b, 0, 16);
        proof {
            assert(b@.subrange(0, 16) =~= b@);
            assert(v@ =~= hex_of(b@));
        }
        let salt = string_of(&v);
        Self::with_salt(base_url, username, password, salt.as_str())
    }

    /// A client for the server at `base_url` that authenticates with `salt`.
    pub fn with_salt(base_url: &str, username: &str, password: &str, salt: &str) -> (r: Self)
        ensures
            r.base_url@ == with_slash(base_url@),
            r.username@ == username@,
            r.password@ == password@,
            r.salt@ == salt@,
            r.token@ == subsonic_token(password@, salt@),
            r.rate_limit_delay_ms == 100,
    {
        proof {
            lemma_concat(password, salt, "", "", "");
        }
        let input = join(&[password, salt]);
        let digest = md5_compute(input.as_str().as_bytes());
        let mut t: Vec<char> = Vec::new();
        push_hex(&mut t, &digest, 0, 16);
        proof {
            assert(digest@.subrange(0, 16) =~= digest@);
            assert(t@ =~= subsonic_token(password@, salt@));
        }
        let mut base = chars_of(base_url);
        let n = base.len();
        let slashed = n > 0 && base[n - 1] == '/';
        proof {
            if slashed {
                assert(base_url@.subrange(n - 1, n as int) =~= seq!['/']);
            } else if n > 0 {
                assert(base_url@.subrange(n - 1, n as int)[0] != '/');
            }
        }
        if !slashed {
            base.push('/');
        }
        NavidromeClient {
            base_url: string_of(&base),
            username: owned(username),
            password: owned(password),
            salt: owned(salt),
            token: string_of(&t),
            rate_limit_delay_ms: 100,
        }
    }

    /// The address of an API method: `<base>rest/<method>`.
    pub fn method_address(&self, method: &str) -> (r: String)
        ensures
            r@ == self.base_url@ + "rest/"@ + method@,
    {
        let b = self.base_url.as_str();
        proof {
            lemma_concat(b, "rest/", method, "", "");
        }
        join(&[b, "rest/", method])
    }

    /// The query pairs of a request: authentication first, then `params`.
    pub fn request_pairs(&self, params: &Vec<(String, String)>) -> (r: Vec<(String, String)>)
        ensures
            pair_texts(r@) == auth_pairs(*self) + pair_texts(params@),
    {
        let mut v: Vec<(String, String)> = Vec::new();
        push_pair(&mut v, "u", self.username.as_str());
        push_pair(&mut v, "t", self.token.as_str());
        push_pair(&mut v, "s", self.salt.as_str());
        push_pair(&mut v, "v", "1.16.1");
        push_pair(&mut v, "c", "StepheyBot-Music");
        push_pair(&mut v, "f", "json");
        let ghost auth = pair_texts(v@);
        assert(auth =~= auth_pairs(*self));
        let mut i: usize = 0;
        while i < params.len()
            invariant
                i <= params@.len(),
                pair_texts(v@) == auth + pair_texts(params@.subrange(0, i as int)),
            decreases params@.len() - i,
        {
            push_pair(&mut v, params[i].0.as_str(), params[i].1.as_str());
            proof {
                assert(pair_texts(params@.subrange(0, i + 1)) =~= pair_texts(
                    params@.subrange(0, i as int),
                ).push((params@[i as int].0@, params@[i as int].1@)));
            }
            i = i + 1;
        }
        assert(params@.subrange(0, params@.len() as int) =~= params@);
        v
    }

    /// The full address of a request: the method's address with the
    /// authentication and `params` as query pairs. `None` where the address
    /// does not parse.
    pub fn request_url(&self, method: &str, params: &Vec<(String, String)>) -> (r: Option<String>)
        ensures
            match url_with_pairs(
                self.base_url@ + "rest/"@ + method@,
                auth_pairs(*self) + pair_texts(params@),
            ) {
                Some(u) => (r matches Some(s) && s@ == u),
                None => r is None,
            },
    {
        let address = self.method_address(method);
        let pairs = self.request_pairs(params);
        url_with_query(address.as_str(), &pairs)
    }
}

/// Checks the status of a Subsonic answer: `ok`, or the error it gave.
pub fn check_subsonic_status(status: &str, error: &Option<SubsonicError>) -> (r: Result<(), SubsonicFailure>)
    ensures
        status@ == "ok"@ ==> r is Ok,
        status@ != "ok"@ ==> match error {
            Some(e) => (r matches Err(SubsonicFailure::Api(c, m)) && c == e.code && m@ == e.message@),
            None => (r matches Err(SubsonicFailure::Unknown)),
        },
{
    let s = chars_of(status);
    let ok = chars_of("ok");
    if chars_eq(&s, &ok) {
        return Ok(());
    }
    match error {
        Some(e) => Err(SubsonicFailure::Api(e.code, owned(e.message.as_str()))),
        None => Err(SubsonicFailure::Unknown),
    }
}

/// Parameters of an album list.
pub fn album_list_params(album_type: Option<&str>, size: Option<u32>, offset: Option<u32>) -> (r: Vec<
    (String, String),
>)
    ensures
        pair_texts(r@) == opt_pair("type"@, opt_text(album_type)) + opt_num_pair("size"@, size)
            + opt_num_pair("offset"@, offset),
{
    let mut v: Vec<(String, String)> = Vec::new();
    push_opt(&mut v, "type", album_type);
    push_opt_num(&mut v, "size", size);
    push_opt_num(&mut v, "offset", offset);
    v
}

/// Parameters of a random song list.
pub fn random_songs_params(
    size: Option<u32>,
    genre: Option<&str>,
    from_year: Option<u32>,
    to_year: Option<u32>,
) -> (r: Vec<(String, String)>)
    ensures
        pair_texts(r@) == opt_num_pair("size"@, size) + opt_pair("genre"@, opt_text(genre))
            + opt_num_pair("fromYear"@, from_year) + opt_num_pair("toYear"@, to_year),
{
    let mut v: Vec<(String, String)> = Vec::new();
    push_opt_num(&mut v, "size", size);
    push_opt(&mut v, "genre", genre);
    push_opt_num(&mut v, "fromYear", from_year);
    push_opt_num(&mut v, "toYear", to_year);
    v
}

/// Parameters of a search.
pub fn search_params(
    query: &str,
    artist_count: Option<u32>,
    album_count: Option<u32>,
    song_count: Option<u32>,
) -> (r: Vec<(String, String)>)
    ensures
        pair_texts(r@) == seq![("query"@, query@)] + opt_num_pair("artistCount"@, artist_count)
            + opt_num_pair("albumCount"@, album_count) + opt_num_pair("songCount"@, song_count),
{
    let mut v: Vec<(String, String)> = Vec::new();
    push_pair(&mut v, "query", query);
    push_opt_num(&mut v, "artistCount", artist_count);
    push_opt_num(&mut v, "albumCount", album_count);
    push_opt_num(&mut v, "songCount", song_count);
    v
}

/// Parameters naming what to star or unstar.
pub fn star_params(song_id: Option<&str>, album_id: Option<&str>, artist_id: Option<&str>) -> (r: Vec<
    (String, String),
>)
    ensures
        pair_texts(r@) == opt_pair("id"@, opt_text(song_id)) + opt_pair(
            "albumId"@,
            opt_text(album_id),
        ) + opt_pair("artistId"@, opt_text(artist_id)),
{
    let mut v: Vec<(String, String)> = Vec::new();
    push_opt(&mut v, "id", song_id);
    push_opt(&mut v, "albumId", album_id);
    push_opt(&mut v, "artistId", artist_id);
    v
}

/// Parameters of a scrobble.
pub fn scrobble_params(song_id: &str, time: Option<u64>, submission: Option<bool>) -> (r: Vec<
    (String, String),
>)
    ensures
        pair_texts(r@) == seq![("id"@, song_id@)] + match time {
            Some(t) => seq![("time"@, decimal(t as nat))],
            None => Seq::empty(),
        } + opt_flag_pair("submission"@, submission),
{
    let mut v: Vec<(String, String)> = Vec::new();
    push_pair(&mut v, "id", song_id);
    if let Some(t) = time {
        let d = u64_to_string(t);
        push_pair(&mut v, "time", d.as_str());
    }
    push_opt_flag(&mut v, "submission", submission);
    assert(pair_texts(v@) =~= seq![("id"@, song_id@)] + match time {
        Some(t) => seq![("time"@, decimal(t as nat))],
        None => Seq::empty(),
    } + opt_flag_pair("submission"@, submission));
    v
}

/// Parameters of a rating: refused unless the rating is 0 to 5.
pub fn rating_params(song_id: &str, rating: u32) -> (r: Result<Vec<(String, String)>, SubsonicFailure>)
    ensures
        rating > 5 ==> (r matches Err(SubsonicFailure::RatingOutOfRange)),
        rating <= 5 ==> (r matches Ok(v) && pair_texts(v@) == seq![
            ("id"@, song_id@),
            ("rating"@, decimal(rating as nat)),
        ]),
{
    if rating > 5 {
        return Err(SubsonicFailure::RatingOutOfRange);
    }
    let mut v: Vec<(String, String)> = Vec::new();
    push_pair(&mut v, "id", song_id);
    let d = u64_to_string(rating as u64);
    push_pair(&mut v, "rating", d.as_str());
    Ok(v)
}

/// The `name`, then one `songId` per song, of a new playlist.
pub fn create_playlist_params(name: &str, song_ids: &Vec<String>) -> (r: Vec<(String, String)>)
    ensures
        pair_texts(r@) == seq![("name"@, name@)] + song_ids@.map_values(
            |s: String| ("songId"@, s@),
        ),
{
    let mut v: Vec<(String, String)> = Vec::new();
    push_pair(&mut v, "name", name);
    let mut i: usize = 0;
    while i < song_ids.len()
        invariant
            i <= song_ids@.len(),
            pair_texts(v@) == seq![("name"@, name@)] + song_ids@.subrange(0, i as int).map_values(
                |s: String| ("songId"@, s@),
            ),
        decreases song_ids@.len() - i,
    {
        push_pair(&mut v, "songId", song_ids[i].as_str());
        proof {
            assert(song_ids@.subrange(0, i + 1).map_values(|s: String| ("songId"@, s@))
                =~= song_ids@.subrange(0, i as int).map_values(|s: String| ("songId"@, s@)).push(
                ("songId"@, song_ids@[i as int]@),
            ));
        }
        i = i + 1;
    }
    assert(song_ids@.subrange(0, song_ids@.len() as int) =~= song_ids@);
    v
}

/// The parameters of a playlist update: the playlist, the optional new
/// name, comment and visibility, the songs to add and the indices to remove.
pub fn update_playlist_params(
    playlist_id: &str,
    name: Option<&str>,
    comment: Option<&str>,
    public: Option<bool>,
    song_ids_to_add: &Vec<String>,
    song_indices_to_remove: &Vec<u32>,
) -> (r: Vec<(String, String)>)
    ensures
        pair_texts(r@) == seq![("playlistId"@, playlist_id@)] + opt_pair("name"@, opt_text(name))
            + opt_pair("comment"@, opt_text(comment)) + opt_flag_pair("public"@, public)
            + song_ids_to_add@.map_values(|s: String| ("songIdToAdd"@, s@))
            + song_indices_to_remove@.map_values(|n: u32| ("songIndexToRemove"@, decimal(n as nat))),
{
    let mut v: Vec<(String, String)> = Vec::new();
    push_pair(&mut v, "playlistId", playlist_id);
    push_opt(&mut v, "name", name);
    push_opt(&mut v, "comment", comment);
    push_opt_flag(&mut v, "public", public);
    let ghost head = pair_texts(v@);
    let mut i: usize = 0;
    while i < song_ids_to_add.len()
        invariant
            i <= song_ids_to_add@.len(),
            pair_texts(v@) == head + song_ids_to_add@.subrange(0, i as int).map_values(
                |s: String| ("songIdToAdd"@, s@),
            ),
        decreases song_ids_to_add@.len() - i,
    {
        push_pair(&mut v, "songIdToAdd", song_ids_to_add[i].as_str());
        proof {
            assert(song_ids_to_add@.subrange(0, i + 1).map_values(|s: String| ("songIdToAdd"@, s@))
                =~= song_ids_to_add@.subrange(0, i as int).map_values(
                |s: String| ("songIdToAdd"@, s@),
            ).push(("songIdToAdd"@, song_ids_to_add@[i as int]@)));
        }
        i = i + 1;
    }
    assert(song_ids_to_add@.subrange(0, song_ids_to_add@.len() as int) =~= song_ids_to_add@);
    let ghost mid = pair_texts(v@);
    let mut k: usize = 0;
    while k < song_indices_to_remove.len()
        invariant
            k <= song_indices_to_remove@.len(),
            pair_texts(v@) == mid + song_indices_to_remove@.subrange(0, k as int).map_values(
                |n: u32| ("songIndexToRemove"@, decimal(n as nat)),
            ),
        decreases song_indices_to_remove@.len() - k,
    {
        let d = u64_to_string(song_indices_to_remove[k] as u64);
        push_pair(&mut v, "songIndexToRemove", d.as_str());
        proof {
            assert(song_indices_to_remove@.subrange(0, k + 1).map_values(
                |n: u32| ("songIndexToRemove"@, decimal(n as nat)),
            ) =~= song_indices_to_remove@.subrange(0, k as int).map_values(
                |n: u32| ("songIndexToRemove"@, decimal(n as nat)),
            ).push(("songIndexToRemove"@, decimal(song_indices_to_remove@[k as int] as nat))));
        }
        k = k + 1;
    }
    assert(song_indices_to_remove@.subrange(0, song_indices_to_remove@.len() as int)
        =~= song_indices_to_remove@);
    v
}

/// The first user, by position, with this user name.
pub fn find_user(users: &Vec<NavidromeUser>, username: &str) -> (r: Option<usize>)
    ensures
        match r {
            Some(i) => i < users@.len() && users@[i as int].username@ == username@ && forall|j: int|
                0 <= j < i ==> #[trigger] users@[j].username@ != username@,
            None => forall|j: int| 0 <= j < users@.len() ==> #[trigger] users@[j].username@ != username@,
        },
{
    let u = chars_of(username);
    let mut i: usize = 0;
    while i < users.len()
        invariant
            i <= users@.len(),
            u@ == username@,
            forall|j: int| 0 <= j < i ==> #[trigger] users@[j].username@ != username@,
        decreases users@.len() - i,
    {
        let c = chars_of(users[i].username.as_str());
        if chars_eq(&c, &u) {
            return Some(i);
        }
        i = i + 1;
    }
    None
}

/// Whether to update or create the playlist `name`, given the names and song
/// counts of the existing playlists: the first playlist of that name is
/// emptied (every index below its song count, none where it has no count)
/// and refilled; with none of that name, a new one is made.
pub fn playlist_plan(playlists: &Vec<(String, Option<u32>)>, name: &str) -> (r: PlaylistPlan)
    ensures
        match r {
            PlaylistPlan::Update { index, remove } => index < playlists@.len()
                && playlists@[index as int].0@ == name@ && (forall|j: int|
                0 <= j < index ==> #[trigger] playlists@[j].0@ != name@) && remove@.len()
                == playlists@[index as int].1.unwrap_or(0) && (forall|k: int|
                0 <= k < remove@.len() ==> #[trigger] remove@[k] == k),
            PlaylistPlan::Create => forall|j: int|
                0 <= j < playlists@.len() ==> #[trigger] playlists@[j].0@ != name@,
        },
{
    let nm = chars_of(name);
    let mut i: usize = 0;
    while i < playlists.len()
        invariant
            i <= playlists@.len(),
            nm@ == name@,
            forall|j: int| 0 <= j < i ==> #[trigger] playlists@[j].0@ != name@,
        decreases playlists@.len() - i,
    {
        let c = chars_of(playlists[i].0.as_str());
        if chars_eq(&c, &nm) {
            let count: u32 = match playlists[i].1 {
                Some(n) => n,
                None => 0,
            };
            let mut remove: Vec<u32> = Vec::new();
            let mut k: u32 = 0;
            while k < count
                invariant
                    k <= count,
                    remove@.len() == k,
                    forall|m: int| 0 <= m < remove@.len() ==> #[trigger] remove@[m] == m,
                decreases count - k,
            {
                remove.push(k);
                k = k + 1;
            }
            return PlaylistPlan::Update { index: i, remove };
        }
        i = i + 1;
    }
    PlaylistPlan::Create
}

} // verus!
