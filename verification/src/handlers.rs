//! The decisions of the web service's handlers: reading download requests,
//! what each outcome of a request answers, recommendation labels, uptime
//! text and the endpoint list shown at start-up.
use vstd::prelude::*;
use crate::lidarr_addon::{AddArtistBody, LidarrAddon};
use crate::navidrome_addon::SimpleLibraryStats;
use crate::entities::{fresh_id, DownloadRequest};
use crate::clients::listenbrainz::opt_view;
use crate::text::{
    chars_eq, chars_of, contains_seq, decimal, find_from, first_occurrence_from, join, lemma_concat,
    occurs_at, owned, push_decimal, push_signed_decimal, push_str_chars, signed_decimal, starts_with,
    starts_with_chars, string_of, sub_chars, u64_to_string, push_string, texts,
};

verus! {

// ---------------------------------------------------------------------------
// Uptime
// ---------------------------------------------------------------------------

/// A number of seconds as `Xd Xh Xm Xs`, leaving out leading zero units.
pub open spec fn uptime_text(s: nat) -> Seq<char> {
    let days = s / 86400;
    let hours = (s % 86400) / 3600;
    let minutes = (s % 3600) / 60;
    let secs = s % 60;
    if days > 0 {
        decimal(days) + "d "@ + decimal(hours) + "h "@ + decimal(minutes) + "m "@ + decimal(secs) + "s"@
    } else if hours > 0 {
        decimal(hours) + "h "@ + decimal(minutes) + "m "@ + decimal(secs) + "s"@
    } else if minutes > 0 {
        decimal(minutes) + "m "@ + decimal(secs) + "s"@
    } else {
        decimal(secs) + "s"@
    }
}

/// Format a duration in seconds as days, hours, minutes and seconds.
pub fn format_duration(seconds: u64) -> (r: String)
    ensures
        r@ == uptime_text(seconds as nat),
{
    let days = seconds / 86400;
    let hours = (seconds % 86400) / 3600;
    let minutes = (seconds % 3600) / 60;
    let secs = seconds % 60;
    let mut v: Vec<char> = Vec::new();
    if days > 0 {
        push_decimal(&mut v, days);
        push_str_chars(&mut v, "d ");
        push_decimal(&mut v, hours);
        push_str_chars(&mut v, "h ");
        push_decimal(&mut v, minutes);
        push_str_chars(&mut v, "m ");
    } else if hours > 0 {
        push_decimal(&mut v, hours);
        push_str_chars(&mut v, "h ");
        push_decimal(&mut v, minutes);
        push_str_chars(&mut v, "m ");
    } else if minutes > 0 {
        push_decimal(&mut v, minutes);
        push_str_chars(&mut v, "m ");
    }
    push_decimal(&mut v, secs);
    push_str_chars(&mut v, "s");
    assert(v@ =~= uptime_text(seconds as nat));
    string_of(&v)
}

// ---------------------------------------------------------------------------
// Recommendations
// ---------------------------------------------------------------------------

/// How the `i`-th recommendation (from 0) is labelled.
pub struct RecommendationLabel {
    pub id: String,
    pub kind: &'static str,
    pub reason: &'static str,
}

/// The kinds recommendations cycle through.
pub open spec fn recommendation_kinds() -> Seq<Seq<char>> {
    seq!["collaborative"@, "content"@, "popular"@]
}

/// The reasons recommendations cycle through.
pub open spec fn recommendation_reasons() -> Seq<Seq<char>> {
    seq![
        "Based on your listening history and similar users"@,
        "Similar musical characteristics to your favorites"@,
        "Trending in your music community"@,
        "Discovered through advanced AI analysis"@,
        "Perfect match for your current mood"@,
        "Recommended by music experts"@,
    ]
}

/// The label of the `i`-th recommendation: `rec_<i+1>`, and the kind and
/// reason taken in turn.
pub fn recommendation_label(i: usize) -> (r: RecommendationLabel)
    requires
        i < usize::MAX,
    ensures
        r.id@ == "rec_"@ + decimal((i + 1) as nat),
        r.kind@ == recommendation_kinds()[(i % 3) as int],
        r.reason@ == recommendation_reasons()[(i % 6) as int],
{
    let kinds = ["collaborative", "content", "popular"];
    let reasons = [
        "Based on your listening history and similar users",
        "Similar musical characteristics to your favorites",
        "Trending in your music community",
        "Discovered through advanced AI analysis",
        "Perfect match for your current mood",
        "Recommended by music experts",
    ];
    let n = u64_to_string((i + 1) as u64);
    let ns = n.as_str();
    proof {
        lemma_concat("rec_", ns, "", "", "");
    }
    let kind = kinds[i % 3];
    let reason = reasons[i % 6];
    proof {
        assert(kinds@.map_values(|s: &str| s@) =~= recommendation_kinds());
        assert(kinds@.map_values(|s: &str| s@)[(i % 3) as int] == kinds@[(i % 3) as int]@);
        assert(reasons@.map_values(|s: &str| s@) =~= recommendation_reasons());
        assert(reasons@.map_values(|s: &str| s@)[(i % 6) as int] == reasons@[(i % 6) as int]@);
    }
    RecommendationLabel { id: join(&["rec_", ns]), kind, reason }
}

// ---------------------------------------------------------------------------
// Download requests
// ---------------------------------------------------------------------------

/// The fields of a download request, as sent (each where it is a string,
/// or a boolean for the bypass flag).
pub struct DownloadPayload {
    pub title: Option<String>,
    pub artist: Option<String>,
    pub album: Option<String>,
    pub external_id: Option<String>,
    pub source: Option<String>,
    pub bypass_monitoring: Option<bool>,
}

/// A download request read with its defaults, and how it is served.
pub struct DownloadRequestInfo {
    pub title: String,
    pub artist: String,
    pub album: Option<String>,
    pub external_id: String,
    pub source: String,
    /// Queue it directly (a magnet link, or monitoring bypassed) rather than
    /// through artist monitoring.
    pub direct: bool,
    /// The magnet link inside the external id (from its first `magnet:`), or
    /// the whole id.
    pub magnet_url: String,
}

/// The text of an optional string, or `d`.
pub open spec fn or_text(o: Option<String>, d: Seq<char>) -> Seq<char> {
    match o {
        Some(s) => s@,
        None => d,
    }
}

/// The magnet link inside an external id.
pub open spec fn magnet_in(id: Seq<char>) -> Seq<char> {
    if contains_seq(id, "magnet:"@) {
        let i = choose|i: int| first_occurrence_from(id, "magnet:"@, 0, i);
        id.subrange(i, id.len() as int)
    } else {
        id
    }
}

/// A download request read with its defaults.
pub open spec fn request_info(p: DownloadPayload, r: DownloadRequestInfo) -> bool {
    let id = or_text(p.external_id, ""@);
    &&& r.title@ == or_text(p.title, "Unknown"@)
    &&& r.artist@ == or_text(p.artist, "Unknown"@)
    &&& match p.album {
        Some(a) => (r.album matches Some(x) && x@ == a@),
        None => r.album is None,
    }
    &&& r.external_id@ == id
    &&& r.source@ == or_text(p.source, "unknown"@)
    &&& r.direct == (starts_with(id, "magnet:"@) || p.bypass_monitoring.unwrap_or(false))
    &&& r.magnet_url@ == magnet_in(id)
}

/// A download request is served directly exactly when it asks to bypass
/// monitoring or its external id is a magnet link: any request with
/// `bypass_monitoring: true` is direct whatever its id, and without that
/// flag only an id starting with `magnet:` is. The defaults of a request
/// read are `Unknown` for title and artist, `unknown` for the source.
pub proof fn direct_exactly_on_bypass_or_magnet(p: DownloadPayload, r: DownloadRequestInfo)
    requires
        request_info(p, r),
    ensures
        p.bypass_monitoring == Some(true) ==> r.direct,
        p.bypass_monitoring != Some(true) ==> (r.direct <==> match p.external_id {
            Some(id) => id@.len() >= 7 && id@.take(7) == "magnet:"@,
            None => false,
        }),
        p.title matches Some(t) ==> r.title@ == t@,
        p.title is None ==> r.title@ == "Unknown"@,
        p.artist matches Some(a) ==> r.artist@ == a@,
        p.artist is None ==> r.artist@ == "Unknown"@,
        p.source is None ==> r.source@ == "unknown"@,
        p.external_id matches Some(id) ==> (id@.len() >= 7 && id@.take(7) == "magnet:"@ ==> r.magnet_url@
            == id@),
{
    reveal_strlit("");
    reveal_strlit("magnet:");
    if let Some(id) = p.external_id {
        if id@.len() >= 7 && id@.take(7) == "magnet:"@ {
            assert(id@.subrange(0, 7) =~= id@.take(7));
            assert(occurs_at(id@, "magnet:"@, 0));
            assert(first_occurrence_from(id@, "magnet:"@, 0, 0));
            let i = choose|i: int| first_occurrence_from(id@, "magnet:"@, 0, i);
            lemma_first_unique(id@, "magnet:"@, i, 0);
            assert(id@.subrange(0, id@.len() as int) =~= id@);
        }
    } else {
        assert(""@.len() == 0);
    }
}

fn or_text_exec(o: &Option<String>, d: &str) -> (r: String)
    ensures
        r@ == or_text(*o, d@),
{
    match o {
        Some(s) => owned(s.as_str()),
        None => owned(d),
    }
}

proof fn lemma_first_unique(s: Seq<char>, pat: Seq<char>, i: int, j: int)
    requires
        first_occurrence_from(s, pat, 0, i),
        first_occurrence_from(s, pat, 0, j),
    ensures
        i == j,
{
    if i < j {
        assert(!occurs_at(s, pat, i));
    } else if j < i {
        assert(!occurs_at(s, pat, j));
    }
}

/// Reads a download request: the defaults `Unknown` (title, artist), ``
/// (external id), `unknown` (source) and no bypass; whether it is served
/// directly; and the magnet link it carries.
pub fn read_download_request(p: &DownloadPayload) -> (r: DownloadRequestInfo)
    ensures
        request_info(*p, r),
{
    proof {
        reveal_strlit("");
        reveal_strlit("magnet:");
        assert(""@ =~= Seq::<char>::empty());
    }
    let title = or_text_exec(&p.title, "Unknown");
    let artist = or_text_exec(&p.artist, "Unknown");
    let album = match &p.album {
        Some(a) => Some(owned(a.as_str())),
        None => None,
    };
    let external_id = or_text_exec(&p.external_id, "");
    let source = or_text_exec(&p.source, "unknown");
    let id = chars_of(external_id.as_str());
    let key = chars_of("magnet:");
    let bypass = match p.bypass_monitoring {
        Some(b) => b,
        None => false,
    };
    let direct = starts_with_chars(&id, &key) || bypass;
    let magnet_url = match find_from(&id, &key, 0) {
        Some(i) => {
            proof {
                assert(occurs_at(id@, key@, i as int));
                let c = choose|c: int| first_occurrence_from(id@, "magnet:"@, 0, c);
                lemma_first_unique(id@, key@, i as int, c);
            }
            let tail = sub_chars(&id, i, id.len());
            string_of(&tail)
        },
        None => {
            assert(!contains_seq(id@, key@));
            owned(external_id.as_str())
        },
    };
    DownloadRequestInfo { title, artist, album, external_id, source, direct, magnet_url }
}

/// The download request handed to the downloader on the direct path: made
/// at `now` by `system`, queued, for the request's artist, title and album,
/// downloading the magnet link the request carries.
pub fn direct_download_request(info: &DownloadRequestInfo, now: i64) -> (r: DownloadRequest)
    ensures
        fresh_id(r.id@),
        r.user_id@ == "system"@,
        r.artist_name@ == info.artist@,
        r.track_title@ == info.title@,
        opt_view(r.album_title) == opt_view(info.album),
        r.status@ == "queued"@,
        (r.magnet_url matches Some(m) && m@ == info.magnet_url@),
        r.torrent_hash is None,
        r.requested_at == now,
        r.source_url is None && r.download_path is None && r.file_size is None,
        r.progress_permille is None && r.download_speed is None && r.upload_speed is None,
        r.seeds is None && r.peers is None && r.error_message is None,
        r.started_at is None && r.completed_at is None && r.processed_at is None,
        r.track_id is None,
{
    let mut request = DownloadRequest::new_with_magnet(
        owned("system"),
        owned(info.artist.as_str()),
        owned(info.title.as_str()),
        owned(info.magnet_url.as_str()),
        None,
        now,
    );
    request.album_title = match &info.album {
        Some(a) => Some(owned(a.as_str())),
        None => None,
    };
    request
}

/// What the service answers about a download request.
pub struct DownloadReply {
    pub success: bool,
    pub message: String,
    pub artist_added: bool,
    pub status: String,
    pub warning: Option<String>,
}

/// How putting the artist under monitoring went.
pub enum MonitorOutcome {
    /// The artist was found and added.
    Added,
    /// The artist was found but adding it failed.
    AddFailed,
    /// The artist was found but adding it timed out.
    AddTimedOut,
    /// The search found no artist.
    ArtistNotFound,
    /// The search failed.
    SearchFailed,
    /// The search timed out.
    SearchTimedOut,
}

/// The note and warning of each outcome where the download is queued
/// without monitoring.
pub open spec fn outcome_note(o: MonitorOutcome) -> (Seq<char>, Seq<char>) {
    match o {
        MonitorOutcome::Added => (Seq::empty(), Seq::empty()),
        MonitorOutcome::AddFailed => (
            "artist monitoring failed"@,
            "Artist monitoring failed but download is queued"@,
        ),
        MonitorOutcome::AddTimedOut => (
            "monitoring timeout"@,
            "Artist monitoring timed out but download is queued"@,
        ),
        MonitorOutcome::ArtistNotFound => (
            "artist not found"@,
            "Artist not found in database but download is queued"@,
        ),
        MonitorOutcome::SearchFailed => (
            "search failed"@,
            "Artist search failed but download is queued"@,
        ),
        MonitorOutcome::SearchTimedOut => (
            "search timeout"@,
            "Artist search timed out but download is queued"@,
        ),
    }
}

/// The answer to a request served through monitoring: every outcome counts
/// as a success; only an added artist is monitored.
pub fn monitoring_reply(title: &str, artist: &str, outcome: MonitorOutcome) -> (r: DownloadReply)
    ensures
        r.success,
        outcome is Added ==> r.artist_added && r.status@ == "monitoring"@ && r.warning is None
            && r.message@ == "Download request submitted for "@ + title@ + " by "@ + artist@,
        !(outcome is Added) ==> !r.artist_added && r.status@ == "queued_without_monitoring"@
            && (r.warning matches Some(w) && w@ == outcome_note(outcome).1) && r.message@
            == "Download queued for "@ + title@ + " by "@ + artist@ + " ("@ + outcome_note(
            outcome,
        ).0 + ")"@,
{
    if let MonitorOutcome::Added = outcome {
        proof {
            lemma_concat("Download request submitted for ", title, " by ", artist, "");
        }
        return DownloadReply {
            success: true,
            message: join(&["Download request submitted for ", title, " by ", artist]),
            artist_added: true,
            status: owned("monitoring"),
            warning: None,
        };
    }
    let (note, warning): (&str, &str) = match outcome {
        MonitorOutcome::AddFailed => (
            "artist monitoring failed",
            "Artist monitoring failed but download is queued",
        ),
        MonitorOutcome::AddTimedOut => (
            "monitoring timeout",
            "Artist monitoring timed out but download is queued",
        ),
        MonitorOutcome::ArtistNotFound => (
            "artist not found",
            "Artist not found in database but download is queued",
        ),
        MonitorOutcome::SearchFailed => ("search failed", "Artist search failed but download is queued"),
        _ => ("search timeout", "Artist search timed out but download is queued"),
    };
    proof {
        lemma_concat("Download queued for ", title, " by ", artist, " (");
    }
    let head = join(&["Download queued for ", title, " by ", artist, " ("]);
    let h = head.as_str();
    proof {
        lemma_concat(h, note, ")", "", "");
    }
    DownloadReply {
        success: true,
        message: join(&[h, note, ")"]),
        artist_added: false,
        status: owned("queued_without_monitoring"),
        warning: Some(owned(warning)),
    }
}

/// The answer to a request served directly: queued, or the error that
/// stopped it.
pub fn direct_reply(title: &str, artist: &str, queued: Result<(), &str>) -> (r: DownloadReply)
    ensures
        !r.artist_added,
        r.warning is None,
        queued is Ok ==> r.success && r.status@ == "queued"@ && r.message@ == "Download queued for "@
            + title@ + " by "@ + artist@ + " (direct download)"@,
        queued matches Err(e) ==> !r.success && r.status@ == "failed"@ && r.message@
            == "Failed to queue download: "@ + e@,
{
    match queued {
        Ok(()) => {
            proof {
                lemma_concat("Download queued for ", title, " by ", artist, " (direct download)");
            }
            DownloadReply {
                success: true,
                message: join(&["Download queued for ", title, " by ", artist, " (direct download)"]),
                artist_added: false,
                status: owned("queued"),
                warning: None,
            }
        },
        Err(e) => {
            proof {
                lemma_concat("Failed to queue download: ", e, "", "", "");
            }
            DownloadReply {
                success: false,
                message: join(&["Failed to queue download: ", e]),
                artist_added: false,
                status: owned("failed"),
                warning: None,
            }
        },
    }
}

// ---------------------------------------------------------------------------
// Downloads of MusicBrainz entities
// ---------------------------------------------------------------------------

/// What is done for a kind of MusicBrainz entity.
pub enum EntityAction {
    /// An artist: put it under monitoring.
    Monitor,
    /// An album or a track: look for downloadable releases.
    FindReleases,
    /// Anything else is refused.
    Unsupported,
}

/// The action for an entity kind (`track` where none is given).
pub fn entity_action(kind: Option<&str>) -> (r: EntityAction)
    ensures
        match kind {
            None => r is FindReleases,
            Some(k) => if k@ == "artist"@ {
                r is Monitor
            } else if k@ == "album"@ || k@ == "track"@ {
                r is FindReleases
            } else {
                r is Unsupported
            },
        },
{
    match kind {
        None => EntityAction::FindReleases,
        Some(k) => {
            let c = chars_of(k);
            if chars_eq(&c, &chars_of("artist")) {
                EntityAction::Monitor
            } else if chars_eq(&c, &chars_of("album")) || chars_eq(&c, &chars_of("track")) {
                EntityAction::FindReleases
            } else {
                EntityAction::Unsupported
            }
        },
    }
}

/// The tracking id of an entity download requested at `now` (Unix seconds).
pub fn entity_request_id(mbid: &str, now: i64) -> (r: String)
    ensures
        r@ == "mb_"@ + mbid@ + "_"@ + signed_decimal(now as int),
{
    let mut v: Vec<char> = Vec::new();
    push_str_chars(&mut v, "mb_");
    push_str_chars(&mut v, mbid);
    push_str_chars(&mut v, "_");
    push_signed_decimal(&mut v, now);
    string_of(&v)
}

// ---------------------------------------------------------------------------
// Adding an artist to Lidarr
// ---------------------------------------------------------------------------

/// The fields of a request to add an artist to Lidarr.
pub struct AddArtistRequest {
    pub foreign_artist_id: Option<String>,
    pub artist_name: Option<String>,
    pub quality_profile_id: Option<u64>,
    pub metadata_profile_id: Option<u64>,
    pub root_folder_path: Option<String>,
}

/// A profile id as sent: its low 32 bits, 1 where none is given.
pub open spec fn profile_id(v: Option<u64>) -> u32 {
    match v {
        Some(n) => (n % 0x1_0000_0000) as u32,
        None => 1,
    }
}

fn profile_id_exec(v: Option<u64>) -> (r: u32)
    ensures
        r == profile_id(v),
{
    match v {
        Some(n) => (n % 0x1_0000_0000) as u32,
        None => 1,
    }
}

/// The body that adds the requested artist: refused when Lidarr is not
/// configured or the request names no artist id; the name defaults to
/// `Unknown Artist`, the profiles to 1 and the root folder to `/music`.
pub fn add_artist_request_body(addon: &LidarrAddon, req: &AddArtistRequest) -> (r: Result<AddArtistBody, String>)
    ensures
        !addon.enabled ==> (r matches Err(e) && e@ == "Lidarr not configured"@),
        addon.enabled && or_text(req.foreign_artist_id, Seq::empty()).len() == 0 ==> (r matches Err(
            e,
        ) && e@ == "Missing foreignArtistId in request"@),
        addon.enabled && or_text(req.foreign_artist_id, Seq::empty()).len() > 0 ==> (r matches Ok(b)
            && b.foreign_artist_id@ == or_text(req.foreign_artist_id, Seq::empty()) && b.artist_name@
            == or_text(req.artist_name, "Unknown Artist"@) && b.quality_profile_id == profile_id(
            req.quality_profile_id,
        ) && b.metadata_profile_id == profile_id(req.metadata_profile_id) && b.root_folder_path@
            == or_text(req.root_folder_path, "/music"@) && b.monitored && b.search_for_missing_albums),
{
    if !addon.enabled {
        return Err(owned("Lidarr not configured"));
    }
    proof {
        reveal_strlit("");
        assert(""@ =~= Seq::<char>::empty());
    }
    let id = or_text_exec(&req.foreign_artist_id, "");
    if id.as_str().is_empty() {
        return Err(owned("Missing foreignArtistId in request"));
    }
    let name = or_text_exec(&req.artist_name, "Unknown Artist");
    let root = or_text_exec(&req.root_folder_path, "/music");
    Ok(
        addon.add_artist_body(
            id.as_str(),
            name.as_str(),
            profile_id_exec(req.quality_profile_id),
            profile_id_exec(req.metadata_profile_id),
            root.as_str(),
        ),
    )
}

// ---------------------------------------------------------------------------
// Start-up
// ---------------------------------------------------------------------------

/// The endpoints listed at start-up, each a label and a path.
pub open spec fn endpoint_lines(port: Seq<char>) -> Seq<Seq<char>> {
    let url = |path: Seq<char>| "http://127.0.0.1:"@ + port + path;
    seq![
        "📋 Available API endpoints:"@,
        "   Health Check:     "@ + url("/api/health"@),
        "   Version Info:     "@ + url("/api/version"@),
        "   User Auth:        "@ + url("/api/v1/auth/login"@),
        "   User Profile:     "@ + url("/api/v1/user/profile"@),
        "   User Preferences: "@ + url("/api/v1/user/preferences"@),
        "   User Dashboard:   "@ + url("/api/v1/user/dashboard"@),
        "   Library Stats:    "@ + url("/api/v1/library/stats"@),
        "   Playlists:        "@ + url("/api/v1/playlists"@),
        "   Recommendations:  "@ + url("/api/v1/recommendations"@),
        "   Integrations:     "@ + url("/api/v1/integrations/status"@),
        Seq::empty(),
        "🧪 Test the API with:"@,
        "   curl "@ + url("/api/health"@),
        "   curl "@ + url("/api/version"@),
        "   curl "@ + url("/api/v1/library/stats"@),
    ]
}

fn push_endpoint(v: &mut Vec<String>, label: &str, port: &str, path: &str)
    ensures
        texts(final(v)@) == texts(old(v)@).push(label@ + ("http://127.0.0.1:"@ + port@ + path@)),
{
    proof {
        lemma_concat(label, "http://127.0.0.1:", port, path, "");
        assert(label@ + "http://127.0.0.1:"@ + port@ + path@ =~= label@ + ("http://127.0.0.1:"@ + port@
            + path@));
    }
    let line = join(&[label, "http://127.0.0.1:", port, path]);
    push_string(v, line.as_str());
}

/// The lines listing the API's endpoints and a few commands to try them, for
/// a server on `port`.
pub fn available_endpoints(port: u16) -> (r: Vec<String>)
    ensures
        texts(r@) == endpoint_lines(decimal(port as nat)),
{
    let p = u64_to_string(port as u64);
    let ps = p.as_str();
    let mut v: Vec<String> = Vec::new();
    push_string(&mut v, "📋 Available API endpoints:");
    push_endpoint(&mut v, "   Health Check:     ", ps, "/api/health");
    push_endpoint(&mut v, "   Version Info:     ", ps, "/api/version");
    push_endpoint(&mut v, "   User Auth:        ", ps, "/api/v1/auth/login");
    push_endpoint(&mut v, "   User Profile:     ", ps, "/api/v1/user/profile");
    push_endpoint(&mut v, "   User Preferences: ", ps, "/api/v1/user/preferences");
    push_endpoint(&mut v, "   User Dashboard:   ", ps, "/api/v1/user/dashboard");
    push_endpoint(&mut v, "   Library Stats:    ", ps, "/api/v1/library/stats");
    push_endpoint(&mut v, "   Playlists:        ", ps, "/api/v1/playlists");
    push_endpoint(&mut v, "   Recommendations:  ", ps, "/api/v1/recommendations");
    push_endpoint(&mut v, "   Integrations:     ", ps, "/api/v1/integrations/status");
    proof {
        reveal_strlit("");
        assert(""@ =~= Seq::<char>::empty());
    }
    push_string(&mut v, "");
    push_string(&mut v, "🧪 Test the API with:");
    push_endpoint(&mut v, "   curl ", ps, "/api/health");
    push_endpoint(&mut v, "   curl ", ps, "/api/version");
    push_endpoint(&mut v, "   curl ", ps, "/api/v1/library/stats");
    assert(texts(v@) =~= endpoint_lines(decimal(port as nat)));
    v
}

// ---------------------------------------------------------------------------
// Unknown paths and proxied streams
// ---------------------------------------------------------------------------

/// What a request for an unknown path is answered with.
pub enum FallbackReply {
    /// A JSON 404 for a path under `/api/`, with this message.
    ApiNotFound(String),
    /// The web front end, for any other path.
    Frontend,
}

/// The answer to a request for `path`, which no route serves.
pub fn fallback_reply(path: &str) -> (r: FallbackReply)
    ensures
        starts_with(path@, "/api/"@) ==> (r matches FallbackReply::ApiNotFound(m) && m@
            == "API endpoint "@ + path@ + " not found"@),
        !starts_with(path@, "/api/"@) ==> r is Frontend,
{
    let p = chars_of(path);
    let prefix = chars_of("/api/");
    if starts_with_chars(&p, &prefix) {
        proof {
            lemma_concat("API endpoint ", path, " not found", "", "");
        }
        FallbackReply::ApiNotFound(join(&["API endpoint ", path, " not found"]))
    } else {
        FallbackReply::Frontend
    }
}

/// Whether a header of a streamed track is passed on to the client.
pub fn forwarded_header(name: &str) -> (r: bool)
    ensures
        r == (name@ == "content-type"@ || name@ == "content-length"@ || name@ == "accept-ranges"@),
{
    let n = chars_of(name);
    chars_eq(&n, &chars_of("content-type")) || chars_eq(&n, &chars_of("content-length")) || chars_eq(
        &n,
        &chars_of("accept-ranges"),
    )
}

// ---------------------------------------------------------------------------
// Library counts and the quick mix
// ---------------------------------------------------------------------------

/// The library counts shown by the library statistics endpoint.
pub struct LibraryCounts {
    pub total_tracks: u64,
    pub total_albums: u64,
    pub total_artists: u64,
    pub source: String,
    /// Whether the counts are the stand-in figures shown when Navidrome
    /// could not be asked.
    pub mock: bool,
}

/// The counts from Navidrome's statistics, or the stand-in figures (1250
/// tracks, 89 albums, 67 artists) where there are none.
pub fn library_counts(stats: Option<&SimpleLibraryStats>) -> (r: LibraryCounts)
    ensures
        match stats {
            Some(st) => r.total_tracks == st.songs && r.total_albums == st.albums && r.total_artists
                == st.artists && r.source@ == "navidrome"@ && !r.mock,
            None => r.total_tracks == 1250 && r.total_albums == 89 && r.total_artists == 67 && r.source@
                == "mock"@ && r.mock,
        },
{
    match stats {
        Some(st) => LibraryCounts {
            total_tracks: st.songs as u64,
            total_albums: st.albums as u64,
            total_artists: st.artists as u64,
            source: owned("navidrome"),
            mock: false,
        },
        None => LibraryCounts {
            total_tracks: 1250,
            total_albums: 89,
            total_artists: 67,
            source: owned("mock"),
            mock: true,
        },
    }
}

/// A track of a generated playlist.
pub struct MixTrack {
    pub id: String,
    pub title: String,
    pub artist: String,
    pub album: String,
    pub duration: u64,
    pub year: u32,
}

fn mix_track(id: &str, title: &str, artist: &str, album: &str, duration: u64, year: u32) -> (t: MixTrack)
    ensures
        t.id@ == id@ && t.title@ == title@ && t.artist@ == artist@ && t.album@ == album@ && t.duration
            == duration && t.year == year,
{
    MixTrack { id: owned(id), title: owned(title), artist: owned(artist), album: owned(album), duration, year }
}

/// The tracks of the generated "Quick Mix" playlist.
pub fn quick_mix_tracks() -> (r: Vec<MixTrack>)
    ensures
        r@.len() == 3,
        r@[0].id@ == "track_pl_1"@ && r@[0].title@ == "Synthwave Sunrise"@ && r@[0].artist@ == "RetroFuture"@
            && r@[0].album@ == "Dawn Protocol"@ && r@[0].duration == 234 && r@[0].year == 2023,
        r@[1].id@ == "track_pl_2"@ && r@[1].title@ == "Neon Velocity"@ && r@[1].artist@ == "SpeedCode"@
            && r@[1].album@ == "Fast Lane"@ && r@[1].duration == 198 && r@[1].year == 2024,
        r@[2].id@ == "track_pl_3"@ && r@[2].title@ == "Digital Dreams"@ && r@[2].artist@ == "CyberMind"@
            && r@[2].album@ == "Virtual Reality"@ && r@[2].duration == 267 && r@[2].year == 2023,
{
    let mut v: Vec<MixTrack> = Vec::new();
    v.push(mix_track("track_pl_1", "Synthwave Sunrise", "RetroFuture", "Dawn Protocol", 234, 2023));
    v.push(mix_track("track_pl_2", "Neon Velocity", "SpeedCode", "Fast Lane", 198, 2024));
    v.push(mix_track("track_pl_3", "Digital Dreams", "CyberMind", "Virtual Reality", 267, 2023));
    v
}

/// The sum of the durations of `tracks`.
pub open spec fn durations_sum(tracks: Seq<MixTrack>) -> nat
    decreases tracks.len(),
{
    if tracks.len() == 0 {
        0
    } else {
        durations_sum(tracks.drop_last()) + tracks.last().duration as nat
    }
}

/// The length of a playlist: the sum of its tracks' durations.
pub fn total_duration(tracks: &Vec<MixTrack>) -> (r: u64)
    requires
        durations_sum(tracks@) <= u64::MAX,
    ensures
        r == durations_sum(tracks@),
{
    let mut total: u64 = 0;
    let mut i: usize = 0;
    while i < tracks.len()
        invariant
            i <= tracks@.len(),
            total == durations_sum(tracks@.take(i as int)),
            durations_sum(tracks@) <= u64::MAX,
        decreases tracks@.len() - i,
    {
        proof {
            assert(tracks@.take(i + 1).drop_last() =~= tracks@.take(i as int));
            lemma_durations_sum_prefix(tracks@, i + 1);
        }
        total = total + tracks[i].duration;
        i = i + 1;
    }
    assert(tracks@.take(i as int) =~= tracks@);
    total
}

proof fn lemma_durations_sum_prefix(tracks: Seq<MixTrack>, n: int)
    requires
        0 <= n <= tracks.len(),
    ensures
        durations_sum(tracks.take(n)) <= durations_sum(tracks),
    decreases tracks.len() - n,
{
    if n < tracks.len() {
        lemma_durations_sum_prefix(tracks, n + 1);
        assert(tracks.take(n + 1).drop_last() =~= tracks.take(n));
    } else {
        assert(tracks.take(n) =~= tracks);
    }
}

// ---------------------------------------------------------------------------
// Putting the artist of a download under monitoring
// ---------------------------------------------------------------------------

/// An artist that a Lidarr lookup found.
pub struct LidarrCandidate {
    pub foreign_artist_id: Option<String>,
    pub artist_name: Option<String>,
}

/// How the lookup of the download's artist went.
pub enum ArtistSearch {
    /// It took too long.
    TimedOut,
    /// It failed.
    Failed,
    /// It answered with these artists, best first.
    Found(Vec<LidarrCandidate>),
}

/// What follows the lookup.
pub enum MonitorStep {
    /// Nothing is added; the download is answered with this outcome.
    Report(MonitorOutcome),
    /// Add the first artist found, with this request.
    Add(AddArtistRequest),
}

/// The step after the lookup: report a timed-out or failed lookup, or an
/// artist not found; else add the first artist found, with the default
/// profiles and folder.
pub fn after_artist_search(search: ArtistSearch) -> (r: MonitorStep)
    ensures
        match search {
            ArtistSearch::TimedOut => r matches MonitorStep::Report(o) && o is SearchTimedOut,
            ArtistSearch::Failed => r matches MonitorStep::Report(o) && o is SearchFailed,
            ArtistSearch::Found(v) => if v@.len() == 0 {
                r matches MonitorStep::Report(o) && o is ArtistNotFound
            } else {
                r matches MonitorStep::Add(req) && opt_view(req.foreign_artist_id) == opt_view(
                    v@[0].foreign_artist_id,
                ) && opt_view(req.artist_name) == opt_view(v@[0].artist_name)
                    && req.quality_profile_id is None && req.metadata_profile_id is None
                    && req.root_folder_path is None
            },
        },
{
    match search {
        ArtistSearch::TimedOut => MonitorStep::Report(MonitorOutcome::SearchTimedOut),
        ArtistSearch::Failed => MonitorStep::Report(MonitorOutcome::SearchFailed),
        ArtistSearch::Found(v) => {
            if v.len() == 0 {
                MonitorStep::Report(MonitorOutcome::ArtistNotFound)
            } else {
                let first = &v[0];
                MonitorStep::Add(
                    AddArtistRequest {
                        foreign_artist_id: match &first.foreign_artist_id {
                            Some(f) => Some(owned(f.as_str())),
                            None => None,
                        },
                        artist_name: match &first.artist_name {
                            Some(n) => Some(owned(n.as_str())),
                            None => None,
                        },
                        quality_profile_id: None,
                        metadata_profile_id: None,
                        root_folder_path: None,
                    },
                )
            }
        },
    }
}

/// How adding the artist went.
pub enum AddAttempt {
    /// The add request could not be made (Lidarr is not configured, or the
    /// artist has no id).
    Refused,
    /// Lidarr took too long.
    TimedOut,
    /// Lidarr refused it.
    Failed,
    /// The artist is monitored now.
    Added,
}

/// The outcome of monitoring after an add attempt.
pub fn after_add(attempt: AddAttempt) -> (r: MonitorOutcome)
    ensures
        match attempt {
            AddAttempt::Refused => r is AddFailed,
            AddAttempt::TimedOut => r is AddTimedOut,
            AddAttempt::Failed => r is AddFailed,
            AddAttempt::Added => r is Added,
        },
{
    match attempt {
        AddAttempt::Refused => MonitorOutcome::AddFailed,
        AddAttempt::TimedOut => MonitorOutcome::AddTimedOut,
        AddAttempt::Failed => MonitorOutcome::AddFailed,
        AddAttempt::Added => MonitorOutcome::Added,
    }
}

} // verus!
