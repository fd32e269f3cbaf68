//! The Lidarr add-on: settings from the environment, connection reports,
//! request addresses, the body that adds an artist, and library totals.
use vstd::prelude::*;
use crate::clients::listenbrainz::opt_view;
use crate::clients::navidrome::utf8_bytes;
use crate::environment::{env_setting, Environment};
use crate::navidrome_addon::{probe_report, probe_result, ProbeOutcome};
use crate::text::{join, lemma_concat, owned};

verus! {

/// Lidarr connection report.
#[derive(Debug, Clone)]
pub struct LidarrInfo {
    pub enabled: bool,
    pub connected: bool,
    pub url: String,
    pub error: Option<String>,
}

/// A link of a Lidarr artist.
#[derive(Debug, Clone)]
pub struct LidarrLink {
    pub url: String,
    pub name: String,
}

/// An image of a Lidarr artist.
#[derive(Debug, Clone)]
pub struct LidarrImage {
    pub url: String,
    pub cover_type: String,
}

/// Lidarr's system status.
#[derive(Debug, Clone)]
pub struct LidarrSystemStatus {
    pub version: String,
    pub build_time: String,
    pub is_debug: bool,
    pub is_production: bool,
    pub is_admin: bool,
    pub is_user_interactive: bool,
    pub startup_path: String,
    pub app_data: String,
    pub os_name: String,
    pub os_version: String,
    pub is_mono_runtime: bool,
    pub is_mono: bool,
    pub is_linux: bool,
    pub is_osx: bool,
    pub is_windows: bool,
    pub is_docker: bool,
    pub mode: String,
    pub branch: String,
    pub authentication: String,
    pub sqlite_version: String,
    pub url_base: Option<String>,
    pub runtime_version: String,
    pub runtime_name: String,
    pub start_time: String,
}

/// The Lidarr add-on's settings; it is enabled when the address and the API
/// key are both set.
pub struct LidarrAddon {
    pub url: String,
    pub api_key: String,
    pub enabled: bool,
}

/// The body that adds an artist to monitoring (it also asks Lidarr to
/// search for the artist's missing albums).
pub struct AddArtistBody {
    pub foreign_artist_id: String,
    pub artist_name: String,
    pub quality_profile_id: u32,
    pub metadata_profile_id: u32,
    pub root_folder_path: String,
    pub monitored: bool,
    pub search_for_missing_albums: bool,
}

/// What the totals read of one artist: whether it is monitored, and its
/// statistics where it has them.
pub struct ArtistTally {
    pub monitored: Option<bool>,
    pub album_count: Option<u32>,
    pub track_file_count: Option<u32>,
    pub size_on_disk: Option<u64>,
}

/// Library totals over all artists.
pub struct LidarrTotals {
    pub total_artists: usize,
    pub monitored_artists: usize,
    pub total_albums: u32,
    pub total_tracks: u32,
    pub total_size: u64,
}

/// Percent-encoding of `bytes` as the urlencoding crate does it: ASCII
/// letters, digits and `-`, `.`, `_`, `~` are kept, every other byte becomes
/// `%` and two upper-case hex digits.
pub open spec fn percent_encoded(bytes: Seq<u8>) -> Seq<char>
    decreases bytes.len(),
{
    if bytes.len() == 0 {
        Seq::empty()
    } else {
        percent_encoded(bytes.drop_last()) + percent_byte(bytes.last())
    }
}

/// Whether a byte is kept as it is by percent-encoding.
pub open spec fn unreserved(b: u8) -> bool {
    (48 <= b <= 57) || (65 <= b <= 90) || (97 <= b <= 122) || b == 45 || b == 46 || b == 95 || b == 126
}

/// An upper-case hex digit.
pub open spec fn hex_upper(d: nat) -> char {
    if d < 10 {
        ((48 + d) as u8) as char
    } else {
        ((55 + d) as u8) as char
    }
}

/// The encoding of one byte.
pub open spec fn percent_byte(b: u8) -> Seq<char> {
    if unreserved(b) {
        seq![b as char]
    } else {
        seq!['%', hex_upper((b / 16) as nat), hex_upper((b % 16) as nat)]
    }
}

/// urlencoding's `encode`: the percent-encoding of the UTF-8 bytes of `s`.
#[verifier::external_body]
pub(crate) fn url_encode(s: &str) -> (r: String)
    ensures
        r@ == percent_encoded(utf8_bytes(s@)),
{
    urlencoding::encode(s).into_owned()
}

/// The sum of the album counts, track counts and sizes of the artists, and
/// the number of monitored ones.
pub open spec fn sum_albums(a: Seq<ArtistTally>) -> nat
    decreases a.len(),
{
    if a.len() == 0 {
        0
    } else {
        (sum_albums(a.drop_last()) + a.last().album_count.unwrap_or(0)) as nat
    }
}

pub open spec fn sum_tracks(a: Seq<ArtistTally>) -> nat
    decreases a.len(),
{
    if a.len() == 0 {
        0
    } else {
        (sum_tracks(a.drop_last()) + a.last().track_file_count.unwrap_or(0)) as nat
    }
}

pub open spec fn sum_sizes(a: Seq<ArtistTally>) -> nat
    decreases a.len(),
{
    if a.len() == 0 {
        0
    } else {
        (sum_sizes(a.drop_last()) + a.last().size_on_disk.unwrap_or(0)) as nat
    }
}

pub open spec fn count_monitored(a: Seq<ArtistTally>) -> nat
    decreases a.len(),
{
    if a.len() == 0 {
        0
    } else {
        count_monitored(a.drop_last()) + if a.last().monitored == Some(true) {
            1nat
        } else {
            0nat
        }
    }
}

proof fn lemma_sums_monotone(a: Seq<ArtistTally>, i: int)
    requires
        0 <= i <= a.len(),
    ensures
        sum_albums(a.subrange(0, i)) <= sum_albums(a),
        sum_tracks(a.subrange(0, i)) <= sum_tracks(a),
        sum_sizes(a.subrange(0, i)) <= sum_sizes(a),
    decreases a.len() - i,
{
    if i < a.len() {
        lemma_sums_monotone(a.drop_last(), i);
        assert(a.drop_last().subrange(0, i) =~= a.subrange(0, i));
    } else {
        assert(a.subrange(0, i) =~= a);
    }
}

/// Library totals: the number of artists and of monitored artists, and the
/// sums of album counts, track-file counts and sizes on disk where known.
pub fn lidarr_totals(artists: &Vec<ArtistTally>) -> (r: LidarrTotals)
    requires
        sum_albums(artists@) <= u32::MAX,
        sum_tracks(artists@) <= u32::MAX,
        sum_sizes(artists@) <= u64::MAX,
    ensures
        r.total_artists == artists@.len(),
        r.monitored_artists == count_monitored(artists@),
        r.total_albums == sum_albums(artists@),
        r.total_tracks == sum_tracks(artists@),
        r.total_size == sum_sizes(artists@),
{
    let mut monitored: usize = 0;
    let mut albums: u32 = 0;
    let mut tracks: u32 = 0;
    let mut size: u64 = 0;
    let mut i: usize = 0;
    while i < artists.len()
        invariant
            i <= artists@.len(),
            sum_albums(artists@) <= u32::MAX,
            sum_tracks(artists@) <= u32::MAX,
            sum_sizes(artists@) <= u64::MAX,
            monitored == count_monitored(artists@.subrange(0, i as int)),
            monitored <= i,
            albums == sum_albums(artists@.subrange(0, i as int)),
            tracks == sum_tracks(artists@.subrange(0, i as int)),
            size == sum_sizes(artists@.subrange(0, i as int)),
        decreases artists@.len() - i,
    {
        let ghost pre = artists@.subrange(0, i as int);
        let ghost next = artists@.subrange(0, i + 1);
        proof {
            assert(next.drop_last() =~= pre);
            lemma_sums_monotone(artists@, i + 1);
        }
        let a = &artists[i];
        if let Some(true) = a.monitored {
            monitored = monitored + 1;
        }
        albums = albums + match a.album_count {
            Some(n) => n,
            None => 0,
        };
        tracks = tracks + match a.track_file_count {
            Some(n) => n,
            None => 0,
        };
        size = size + match a.size_on_disk {
            Some(n) => n,
            None => 0,
        };
        i = i + 1;
    }
    assert(artists@.subrange(0, artists@.len() as int) =~= artists@);
    LidarrTotals {
        total_artists: artists.len(),
        monitored_artists: monitored,
        total_albums: albums,
        total_tracks: tracks,
        total_size: size,
    }
}

impl LidarrAddon {
    /// The settings from the environment: `STEPHEYBOT__LIDARR__URL` or
    /// `LIDARR_URL`, and `STEPHEYBOT__LIDARR__API_KEY` or `LIDARR_API_KEY`;
    /// enabled when both are non-empty.
    pub fn from_env(env: &Environment) -> (r: Self)
        ensures
            r.url@ == env_setting(env.vars@, "STEPHEYBOT__LIDARR__URL"@, "LIDARR_URL"@),
            r.api_key@ == env_setting(env.vars@, "STEPHEYBOT__LIDARR__API_KEY"@, "LIDARR_API_KEY"@),
            r.enabled == (r.url@.len() > 0 && r.api_key@.len() > 0),
    {
        let url = env.setting("STEPHEYBOT__LIDARR__URL", "LIDARR_URL");
        let api_key = env.setting("STEPHEYBOT__LIDARR__API_KEY", "LIDARR_API_KEY");
        let enabled = !url.as_str().is_empty() && !api_key.as_str().is_empty();
        LidarrAddon { url, api_key, enabled }
    }

    /// Every call of a disabled add-on fails with `Lidarr not configured`.
    pub fn require_enabled(&self) -> (r: Result<(), String>)
        ensures
            self.enabled ==> r is Ok,
            !self.enabled ==> (r matches Err(e) && e@ == "Lidarr not configured"@),
    {
        if self.enabled {
            Ok(())
        } else {
            Err(owned("Lidarr not configured"))
        }
    }

    /// The connection report: a disabled add-on is not probed and reports
    /// that it is not configured; an enabled one reports how its probe of
    /// the system status went.
    pub fn connection_info(&self, probe: Option<&ProbeOutcome>) -> (r: LidarrInfo)
        requires
            self.enabled ==> probe is Some,
        ensures
            probe_report(
                self.enabled,
                self.url@,
                match probe {
                    Some(p) => Some(*p),
                    None => None,
                },
                "Lidarr not configured"@,
                r.enabled,
                r.connected,
                r.url@,
                opt_view(r.error),
            ),
    {
        if !self.enabled {
            return LidarrInfo {
                enabled: false,
                connected: false,
                url: String::new(),
                error: Some(owned("Lidarr not configured")),
            };
        }
        match probe {
            Some(p) => {
                let (connected, error) = probe_result(p);
                LidarrInfo { enabled: true, connected, url: owned(self.url.as_str()), error }
            },
            None => LidarrInfo {
                enabled: true,
                connected: false,
                url: owned(self.url.as_str()),
                error: None,
            },
        }
    }

    /// The address of an API endpoint: `<url>/api/v1/<path>`.
    pub fn api_url(&self, path: &str) -> (r: String)
        ensures
            r@ == self.url@ + "/api/v1/"@ + path@,
    {
        let u = self.url.as_str();
        proof {
            lemma_concat(u, "/api/v1/", path, "", "");
        }
        join(&[u, "/api/v1/", path])
    }

    /// The address that looks artists up by name.
    pub fn search_url(&self, query: &str) -> (r: String)
        ensures
            r@ == self.url@ + "/api/v1/artist/lookup?term="@ + percent_encoded(utf8_bytes(query@)),
    {
        let q = url_encode(query);
        let u = self.url.as_str();
        let qs = q.as_str();
        proof {
            lemma_concat(u, "/api/v1/artist/lookup?term=", qs, "", "");
        }
        join(&[u, "/api/v1/artist/lookup?term=", qs])
    }

    /// The body that adds a found artist to monitoring.
    pub fn add_artist_body(
        &self,
        foreign_artist_id: &str,
        artist_name: &str,
        quality_profile_id: u32,
        metadata_profile_id: u32,
        root_folder_path: &str,
    ) -> (r: AddArtistBody)
        ensures
            r.foreign_artist_id@ == foreign_artist_id@,
            r.artist_name@ == artist_name@,
            r.quality_profile_id == quality_profile_id,
            r.metadata_profile_id == metadata_profile_id,
            r.root_folder_path@ == root_folder_path@,
            r.monitored,
            r.search_for_missing_albums,
    {
        AddArtistBody {
            foreign_artist_id: owned(foreign_artist_id),
            artist_name: owned(artist_name),
            quality_profile_id,
            metadata_profile_id,
            root_folder_path: owned(root_folder_path),
            monitored: true,
            search_for_missing_albums: true,
        }
    }
}

/// The quality profile, metadata profile and root folder that an artist is
/// added to Lidarr with.
pub struct LidarrSetup {
    pub quality_profile_id: u32,
    pub metadata_profile_id: u32,
    pub root_folder_path: String,
}

/// The setup read from Lidarr's lists: the id of the first quality profile,
/// the id of the first metadata profile and the path of the first root
/// folder (an id keeps its low 32 bits). The first list that has none of
/// them names the failure.
pub fn lidarr_setup(first_quality_id: Option<u64>, first_metadata_id: Option<u64>, first_root_path: Option<&str>) -> (r:
    Result<LidarrSetup, String>)
    ensures
        first_quality_id is None ==> (r matches Err(e) && e@ == "No quality profiles found"@),
        first_quality_id is Some && first_metadata_id is None ==> (r matches Err(e) && e@
            == "No metadata profiles found"@),
        first_quality_id is Some && first_metadata_id is Some && first_root_path is None ==> (r matches Err(e)
            && e@ == "No root folders found"@),
        (first_quality_id is Some && first_metadata_id is Some && first_root_path is Some) ==> (r matches Ok(
            setup,
        ) && setup.quality_profile_id == first_quality_id->0 as u32 && setup.metadata_profile_id
            == first_metadata_id->0 as u32 && setup.root_folder_path@ == first_root_path->0@),
{
    let q = match first_quality_id {
        Some(q) => q,
        None => return Err(owned("No quality profiles found")),
    };
    let m = match first_metadata_id {
        Some(m) => m,
        None => return Err(owned("No metadata profiles found")),
    };
    let p = match first_root_path {
        Some(p) => p,
        None => return Err(owned("No root folders found")),
    };
    Ok(LidarrSetup { quality_profile_id: q as u32, metadata_profile_id: m as u32, root_folder_path: owned(p) })
}

/// The add-on as the environment configures it.
pub fn create_lidarr_addon(env: &Environment) -> (r: LidarrAddon)
    ensures
        r.url@ == env_setting(env.vars@, "STEPHEYBOT__LIDARR__URL"@, "LIDARR_URL"@),
        r.api_key@ == env_setting(env.vars@, "STEPHEYBOT__LIDARR__API_KEY"@, "LIDARR_API_KEY"@),
        r.enabled == (r.url@.len() > 0 && r.api_key@.len() > 0),
{
    LidarrAddon::from_env(env)
}

/// Whether the environment configures Lidarr: address and API key both set.
pub fn is_lidarr_configured(env: &Environment) -> (r: bool)
    ensures
        r == (env_setting(env.vars@, "STEPHEYBOT__LIDARR__URL"@, "LIDARR_URL"@).len() > 0
            && env_setting(env.vars@, "STEPHEYBOT__LIDARR__API_KEY"@, "LIDARR_API_KEY"@).len() > 0),
{
    create_lidarr_addon(env).enabled
}

} // verus!
