//! ListenBrainz: listen records, listening statistics, endpoint addresses and
//! the rules for submitting listens.
use vstd::prelude::*;
use vstd::arithmetic::div_mod::{
    lemma_div_pos_is_pos, lemma_fundamental_div_mod, lemma_fundamental_div_mod_converse, lemma_mod_pos_bound,
};
use vstd::arithmetic::mul::{
    lemma_mul_inequality, lemma_mul_inequality_converse, lemma_mul_is_commutative, lemma_mul_is_distributive_add_other_way,
    lemma_mul_strict_inequality_converse,
};
use crate::text::{concat, decimal, join, lemma_concat, owned, strip_trailing, trim_end_char, u64_to_string};

verus! {

/// What the library keeps of a ListenBrainz connection.
pub struct ListenBrainzClient {
    pub base_url: String,
    pub user_token: Option<String>,
}

/// A listen, as submitted to ListenBrainz.
#[derive(Debug, Clone)]
pub struct Listen {
    pub track_metadata: TrackMetadata,
    pub listened_at: Option<i64>,
    pub recording_msid: Option<String>,
}

#[derive(Debug, Clone)]
pub struct TrackMetadata {
    pub artist_name: String,
    pub track_name: String,
    pub release_name: Option<String>,
    pub additional_info: Option<AdditionalInfo>,
}

#[derive(Debug, Clone)]
pub struct AdditionalInfo {
    pub duration_ms: Option<u64>,
    pub recording_mbid: Option<String>,
    pub artist_mbid: Option<String>,
    pub release_mbid: Option<String>,
}

/// A user's listening statistics.
#[derive(Debug, Clone)]
pub struct ListeningStats {
    pub total_listen_count: u64,
    pub artists: Vec<ArtistStats>,
    pub releases: Vec<ReleaseStats>,
    pub recordings: Vec<RecordingStats>,
}

#[derive(Debug, Clone)]
pub struct ArtistStats {
    pub artist_name: String,
    pub artist_mbid: Option<String>,
    pub listen_count: u64,
}

#[derive(Debug, Clone)]
pub struct ReleaseStats {
    pub release_name: String,
    pub release_mbid: Option<String>,
    pub artist_name: String,
    pub listen_count: u64,
}

#[derive(Debug, Clone)]
pub struct RecordingStats {
    pub track_name: String,
    pub recording_mbid: Option<String>,
    pub artist_name: String,
    pub listen_count: u64,
}

/// Why a submission cannot be made.
pub enum SubmitError {
    /// Submitting needs a user token and the client has none.
    TokenRequired,
}

/// The text of an optional string.
pub open spec fn opt_view(o: Option<String>) -> Option<Seq<char>> {
    match o {
        Some(s) => Some(s@),
        None => None,
    }
}

/// The text of an optional string slice.
pub open spec fn opt_str_view(o: Option<&str>) -> Option<Seq<char>> {
    match o {
        Some(s) => Some(s@),
        None => None,
    }
}

fn opt_owned(o: Option<&str>) -> (r: Option<String>)
    ensures
        opt_view(r) == opt_str_view(o),
{
    match o {
        Some(s) => Some(owned(s)),
        None => None,
    }
}

impl ListeningStats {
    /// Statistics with nothing in them.
    pub fn empty() -> (r: Self)
        ensures
            r.total_listen_count == 0,
            r.artists@.len() == 0,
            r.releases@.len() == 0,
            r.recordings@.len() == 0,
    {
        ListeningStats {
            total_listen_count: 0,
            artists: Vec::new(),
            releases: Vec::new(),
            recordings: Vec::new(),
        }
    }
}

impl ListenBrainzClient {
    /// A client for the service at `base_url` (trailing slashes dropped).
    pub fn new(base_url: &str, user_token: Option<&str>) -> (r: Self)
        ensures
            r.base_url@ == strip_trailing(base_url@, '/'),
            opt_view(r.user_token) == opt_str_view(user_token),
    {
        ListenBrainzClient { base_url: trim_end_char(base_url, '/'), user_token: opt_owned(user_token) }
    }

    /// The endpoint probed by a health check.
    pub fn health_url(&self) -> (r: String)
        ensures
            r@ == self.base_url@ + "/1/status/get-dump-info"@,
    {
        let b = self.base_url.as_str();
        proof {
            lemma_concat(b, "/1/status/get-dump-info", "", "", "");
        }
        join(&[b, "/1/status/get-dump-info"])
    }

    /// The endpoint listens are submitted to (also "playing now").
    pub fn submit_listens_url(&self) -> (r: String)
        ensures
            r@ == self.base_url@ + "/1/submit-listens"@,
    {
        let b = self.base_url.as_str();
        proof {
            lemma_concat(b, "/1/submit-listens", "", "", "");
        }
        join(&[b, "/1/submit-listens"])
    }

    /// The artist statistics of a user, over `range` where given.
    pub fn user_stats_url(&self, user_name: &str, range: Option<&str>) -> (r: String)
        ensures
            r@ == self.base_url@ + "/1/stats/user/"@ + user_name@ + "/artists"@ + match range {
                Some(g) => "?range="@ + g@,
                None => Seq::<char>::empty(),
            },
    {
        let b = self.base_url.as_str();
        proof {
            lemma_concat(b, "/1/stats/user/", user_name, "/artists", "");
        }
        let base = join(&[b, "/1/stats/user/", user_name, "/artists"]);
        match range {
            Some(g) => {
                let s = base.as_str();
                proof {
                    lemma_concat(s, "?range=", g, "", "");
                    assert(s@ + "?range="@ + g@ =~= s@ + ("?range="@ + g@));
                }
                join(&[s, "?range=", g])
            },
            None => {
                assert(base@ + Seq::<char>::empty() =~= base@);
                base
            },
        }
    }

    /// The recording recommendations of a user.
    pub fn recommendations_url(&self, user_name: &str) -> (r: String)
        ensures
            r@ == self.base_url@ + "/1/cf/recommendation/user/"@ + user_name@ + "/recording"@,
    {
        let b = self.base_url.as_str();
        proof {
            lemma_concat(b, "/1/cf/recommendation/user/", user_name, "/recording", "");
        }
        join(&[b, "/1/cf/recommendation/user/", user_name, "/recording"])
    }

    /// The users whose listening resembles that of `user_name`.
    pub fn similar_users_url(&self, user_name: &str) -> (r: String)
        ensures
            r@ == self.base_url@ + "/1/user/"@ + user_name@ + "/similar-users"@,
    {
        let b = self.base_url.as_str();
        proof {
            lemma_concat(b, "/1/user/", user_name, "/similar-users", "");
        }
        join(&[b, "/1/user/", user_name, "/similar-users"])
    }

    /// The recent listens of a user, at most `count` where given.
    pub fn recent_listens_url(&self, user_name: &str, count: Option<u32>) -> (r: String)
        ensures
            r@ == self.base_url@ + "/1/user/"@ + user_name@ + "/listens"@ + match count {
                Some(n) => "?count="@ + decimal(n as nat),
                None => Seq::<char>::empty(),
            },
    {
        let b = self.base_url.as_str();
        proof {
            lemma_concat(b, "/1/user/", user_name, "/listens", "");
        }
        let base = join(&[b, "/1/user/", user_name, "/listens"]);
        match count {
            Some(n) => {
                let digits = u64_to_string(n as u64);
                let s = base.as_str();
                let d = digits.as_str();
                proof {
                    lemma_concat(s, "?count=", d, "", "");
                    assert(s@ + "?count="@ + d@ =~= s@ + ("?count="@ + d@));
                }
                join(&[s, "?count=", d])
            },
            None => {
                assert(base@ + Seq::<char>::empty() =~= base@);
                base
            },
        }
    }

    /// The `Authorization` header value for calls that need the user token.
    pub fn authorization(&self) -> (r: Option<String>)
        ensures
            match self.user_token {
                Some(t) => (r matches Some(h) && h@ == "Token "@ + t@),
                None => r is None,
            },
    {
        match &self.user_token {
            Some(t) => {
                let ts = t.as_str();
                proof {
                    lemma_concat("Token ", ts, "", "", "");
                }
                Some(join(&["Token ", ts]))
            },
            None => None,
        }
    }

    /// Whether and how `count` listens are submitted: nothing is sent for
    /// none (`Ok(None)`); otherwise the token is required, and the header to
    /// send is returned.
    pub fn submission_header(&self, count: usize) -> (r: Result<Option<String>, SubmitError>)
        ensures
            count == 0 ==> (r matches Ok(None)),
            count > 0 && self.user_token is None ==> (r matches Err(SubmitError::TokenRequired)),
            count > 0 && self.user_token is Some ==> (r matches Ok(Some(h)) && h@ == "Token "@
                + self.user_token->0@),
    {
        if count == 0 {
            return Ok(None);
        }
        match self.authorization() {
            Some(h) => Ok(Some(h)),
            None => Err(SubmitError::TokenRequired),
        }
    }

    /// A listen made from a play: the artist, track and album names, the
    /// duration, and the time it was played (Unix seconds).
    pub fn create_listen_from_play(
        &self,
        artist: &str,
        track: &str,
        album: Option<&str>,
        duration_ms: Option<u64>,
        played_at: i64,
    ) -> (r: Listen)
        ensures
            r.track_metadata.artist_name@ == artist@,
            r.track_metadata.track_name@ == track@,
            opt_view(r.track_metadata.release_name) == opt_str_view(album),
            (r.track_metadata.additional_info matches Some(info) && info.duration_ms == duration_ms
                && info.recording_mbid is None && info.artist_mbid is None && info.release_mbid is None),
            r.listened_at == Some(played_at),
            r.recording_msid is None,
    {
        Listen {
            track_metadata: TrackMetadata {
                artist_name: owned(artist),
                track_name: owned(track),
                release_name: opt_owned(album),
                additional_info: Some(
                    AdditionalInfo {
                        duration_ms,
                        recording_mbid: None,
                        artist_mbid: None,
                        release_mbid: None,
                    },
                ),
            },
            listened_at: Some(played_at),
            recording_msid: None,
        }
    }
}

/// The number of batches of at most `size` that `len` items make.
pub open spec fn batch_count(len: nat, size: nat) -> nat
    recommends
        size > 0,
{
    if len % size == 0 {
        len / size
    } else {
        len / size + 1
    }
}

/// The end of batch `k`: `size` items after its start, or the end of the items.
pub open spec fn batch_end(k: int, len: nat, size: nat) -> int {
    if (k + 1) * size <= len {
        (k + 1) * size
    } else {
        len as int
    }
}

/// The positions `[start, end)` of the batches in which `len` items are sent,
/// `batch_size` at a time (std `slice::chunks`): each batch but the last is
/// full, and together they cover every item once, in order.
pub fn batch_bounds(len: usize, batch_size: usize) -> (r: Vec<(usize, usize)>)
    requires
        batch_size > 0,
    ensures
        r@.len() == batch_count(len as nat, batch_size as nat),
        forall|k: int|
            0 <= k < r@.len() ==> #[trigger] r@[k].0 == k * batch_size && r@[k].1 == batch_end(
                k,
                len as nat,
                batch_size as nat,
            ),
{
    let mut v: Vec<(usize, usize)> = Vec::new();
    let mut start: usize = 0;
    assert(v@.len() * batch_size == 0) by (nonlinear_arith)
        requires
            v@.len() == 0,
    ;
    while start < len
        invariant
            batch_size > 0,
            start <= len,
            start == if v@.len() * batch_size <= len {
                v@.len() * batch_size
            } else {
                len as int
            },
            v@.len() > 0 ==> (v@.len() - 1) * batch_size < len,
            forall|k: int|
                0 <= k < v@.len() ==> #[trigger] v@[k].0 == k * batch_size && v@[k].1 == batch_end(
                    k,
                    len as nat,
                    batch_size as nat,
                ),
        decreases len - start,
    {
        let ghost k = v@.len() as int;
        assert(start == k * batch_size);
        let end = if len - start >= batch_size {
            start + batch_size
        } else {
            len
        };
        proof {
            lemma_mul_is_distributive_add_other_way(batch_size as int, k, 1);
            assert(end == batch_end(k, len as nat, batch_size as nat));
        }
        let ghost before = v@;
        v.push((start, end));
        start = end;
        proof {
            assert(v@.len() == k + 1);
            assert forall|j: int| 0 <= j < v@.len() implies #[trigger] v@[j].0 == j * batch_size
                && v@[j].1 == batch_end(j, len as nat, batch_size as nat) by {
                if j < k {
                    assert(v@[j] == before[j]);
                }
            }
        }
    }
    proof {
        let n = v@.len() as int;
        if n == 0 {
            assert(len == 0);
            assert(batch_count(0, batch_size as nat) == 0) by (nonlinear_arith)
                requires
                    batch_size > 0,
            ;
        } else {
            lemma_batch_count_last(len as nat, batch_size as nat, (n - 1) as nat);
            lemma_mul_is_distributive_add_other_way(batch_size as int, n - 1, 1);
        }
    }
    v
}

proof fn lemma_batch_count_last(len: nat, size: nat, k: nat)
    requires
        size > 0,
        k * size < len,
        len <= (k + 1) * size,
    ensures
        k + 1 == batch_count(len, size),
{
    let q = len / size;
    let r = len % size;
    lemma_fundamental_div_mod(len as int, size as int);
    lemma_mul_is_commutative(size as int, q as int);
    lemma_mul_is_distributive_add_other_way(size as int, k as int, 1);
    lemma_mul_is_distributive_add_other_way(size as int, q as int, 1);
    if r == 0 {
        lemma_mul_strict_inequality_converse(k as int, q as int, size as int);
        lemma_mul_inequality_converse(q as int, (k + 1) as int, size as int);
    } else {
        lemma_mul_strict_inequality_converse(k as int, (q + 1) as int, size as int);
        lemma_mul_strict_inequality_converse(q as int, (k + 1) as int, size as int);
    }
}

/// Sending `len` items `size` at a time puts every item in exactly one
/// batch: item `i` goes in batch `i / size`, and in no other.
pub proof fn every_item_in_one_batch(len: nat, size: nat, i: int)
    requires
        size > 0,
        0 <= i < len,
    ensures
        i / (size as int) < batch_count(len, size),
        (i / (size as int)) * size <= i < batch_end(i / (size as int), len, size),
        forall|k: int|
            0 <= k && k * size <= i < #[trigger] batch_end(k, len, size) ==> k == i / (size as int),
{
    let d = size as int;
    let q = i / d;
    let r = i % d;
    lemma_fundamental_div_mod(i, d);
    lemma_mod_pos_bound(i, d);
    lemma_div_pos_is_pos(i, d);
    lemma_mul_is_commutative(d, q);
    lemma_mul_is_distributive_add_other_way(d, q, 1);
    let big_q = (len as int) / d;
    let big_r = (len as int) % d;
    lemma_fundamental_div_mod(len as int, d);
    lemma_mod_pos_bound(len as int, d);
    lemma_mul_is_commutative(d, big_q);
    lemma_mul_is_distributive_add_other_way(d, big_q, 1);
    if q >= batch_count(len, size) {
        if big_r == 0 {
            lemma_mul_inequality(big_q, q, d);
        } else {
            lemma_mul_inequality(big_q + 1, q, d);
        }
    }
    assert forall|k: int| 0 <= k && k * size <= i < #[trigger] batch_end(k, len, size) implies k == q by {
        lemma_mul_is_distributive_add_other_way(d, k, 1);
        lemma_mul_is_commutative(d, k);
        lemma_fundamental_div_mod_converse(i, d, k, i - k * d);
    }
}

} // verus!
