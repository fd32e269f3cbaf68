//! Lidarr: artist records, endpoint addresses, commands, and the steps of
//! queueing a download.
use vstd::prelude::*;
use crate::text::{
    chars_eq, chars_of, decimal, join, lemma_concat, owned, strip_trailing, trim_end_char,
    u64_to_string,
};
use crate::clients::listenbrainz::{opt_str_view, opt_view};

verus! {

/// Text representation of a release.
#[derive(Debug, Clone)]
pub struct TextRepresentation {
    pub language: Option<String>,
    pub script: Option<String>,
}

/// An image of an artist or album.
#[derive(Debug, Clone)]
pub struct Image {
    pub cover_type: String,
    pub url: String,
    pub remote_url: Option<String>,
}

/// A link of an artist or album.
#[derive(Debug, Clone)]
pub struct Link {
    pub url: String,
    pub name: String,
}

/// A quality profile.
#[derive(Debug, Clone)]
pub struct QualityProfile {
    pub id: u32,
    pub name: String,
    pub upgrade_allowed: Option<bool>,
    pub cutoff: Option<u32>,
    pub items: Option<Vec<QualityItem>>,
}

/// A quality item in a profile.
#[derive(Debug, Clone)]
pub struct QualityItem {
    pub quality: Option<Quality>,
    pub allowed: Option<bool>,
}

/// A quality.
#[derive(Debug, Clone)]
pub struct Quality {
    pub id: u32,
    pub name: String,
}

/// An artist as Lidarr knows it: the fields the library reads and writes.
/// The statistics and the time of adding, which it never reads, stay with
/// the caller's copy of the record.
#[derive(Debug, Clone)]
pub struct Artist {
    pub id: Option<u32>,
    pub artist_name: String,
    pub foreign_artist_id: Option<String>,
    pub overview: Option<String>,
    pub disambiguation: Option<String>,
    pub artist_type: Option<String>,
    pub status: Option<String>,
    pub ended: Option<bool>,
    pub genres: Option<Vec<String>>,
    pub images: Option<Vec<Image>>,
    pub links: Option<Vec<Link>>,
    pub quality_profile_id: Option<u32>,
    pub metadata_profile_id: Option<u32>,
    pub monitored: Option<bool>,
    pub monitor_new_items: Option<String>,
    pub root_folder_path: Option<String>,
    pub folder_name: Option<String>,
    pub path: Option<String>,
}

/// A command Lidarr runs in the background.
pub enum LidarrCommand {
    /// Search releases of one artist.
    ArtistSearch(u32),
    /// Search one album.
    AlbumSearch(u32),
    /// Search every missing album.
    MissingAlbumSearch,
}

/// What the library keeps of a Lidarr connection.
pub struct LidarrClient {
    pub base_url: String,
    pub api_key: String,
}

/// The next step of queueing a download.
pub enum QueueStep {
    /// The search found no artist: nothing is queued.
    NotFound,
    /// Look for an artist already monitored under this MusicBrainz id.
    FindExisting(String),
    /// Add this artist to monitoring.
    Add(Artist),
    /// Search the releases of the artist with this id; then the download is queued.
    SearchReleases(u32),
}

/// The name of a command, as Lidarr expects it.
pub open spec fn command_name(c: LidarrCommand) -> Seq<char> {
    match c {
        LidarrCommand::ArtistSearch(_) => "ArtistSearch"@,
        LidarrCommand::AlbumSearch(_) => "AlbumSearch"@,
        LidarrCommand::MissingAlbumSearch => "MissingAlbumSearch"@,
    }
}

impl LidarrCommand {
    /// The `name` field of the command.
    pub fn name(&self) -> (r: &'static str)
        ensures
            r@ == command_name(*self),
    {
        match self {
            LidarrCommand::ArtistSearch(_) => "ArtistSearch",
            LidarrCommand::AlbumSearch(_) => "AlbumSearch",
            LidarrCommand::MissingAlbumSearch => "MissingAlbumSearch",
        }
    }
}

/// The artist record sent to put an artist under monitoring.
pub open spec fn monitoring_request(
    a: Artist,
    name: Seq<char>,
    mbid: Option<Seq<char>>,
    quality_profile_id: u32,
    root_folder: Seq<char>,
    monitor_new_items: bool,
) -> bool {
    &&& a.id is None
    &&& a.artist_name@ == name
    &&& opt_view(a.foreign_artist_id) == mbid
    &&& a.overview is None && a.disambiguation is None && a.artist_type is None
    &&& a.status is None && a.ended is None && a.genres is None && a.images is None
    &&& a.links is None
    &&& a.quality_profile_id == Some(quality_profile_id)
    &&& a.metadata_profile_id == Some(1u32)
    &&& a.monitored == Some(true)
    &&& (a.monitor_new_items matches Some(m) && m@ == (if monitor_new_items {
        "all"@
    } else {
        "none"@
    }))
    &&& (a.root_folder_path matches Some(p) && p@ == root_folder)
    &&& a.folder_name is None && a.path is None
}

fn opt_owned(o: Option<&str>) -> (r: Option<String>)
    ensures
        opt_view(r) == opt_str_view(o),
{
    match o {
        Some(s) => Some(owned(s)),
        None => None,
    }
}

impl LidarrClient {
    /// A client for the server at `base_url` (trailing slashes dropped).
    pub fn new(base_url: &str, api_key: &str) -> (r: Self)
        ensures
            r.base_url@ == strip_trailing(base_url@, '/'),
            r.api_key@ == api_key@,
    {
        LidarrClient { base_url: trim_end_char(base_url, '/'), api_key: owned(api_key) }
    }

    /// The address of an API endpoint: `<base>/api/v1/<path>`.
    pub fn api_url(&self, path: &str) -> (r: String)
        ensures
            r@ == self.base_url@ + "/api/v1/"@ + path@,
    {
        let b = self.base_url.as_str();
        proof {
            lemma_concat(b, "/api/v1/", path, "", "");
        }
        join(&[b, "/api/v1/", path])
    }

    /// The address of one artist.
    pub fn artist_url(&self, artist_id: u32) -> (r: String)
        ensures
            r@ == self.base_url@ + "/api/v1/artist/"@ + decimal(artist_id as nat),
    {
        let b = self.base_url.as_str();
        let d = u64_to_string(artist_id as u64);
        let ds = d.as_str();
        proof {
            lemma_concat(b, "/api/v1/artist/", ds, "", "");
        }
        join(&[b, "/api/v1/artist/", ds])
    }

    /// The header that authenticates a request.
    pub fn api_key_header(&self) -> (r: (String, String))
        ensures
            r.0@ == "X-Api-Key"@,
            r.1@ == self.api_key@,
    {
        (owned("X-Api-Key"), owned(self.api_key.as_str()))
    }

    /// A new artist record that asks Lidarr to monitor `name`.
    pub fn create_artist_for_monitoring(
        &self,
        name: &str,
        musicbrainz_id: Option<&str>,
        quality_profile_id: u32,
        root_folder: &str,
        monitor_new_items: bool,
    ) -> (r: Artist)
        ensures
            monitoring_request(
                r,
                name@,
                opt_str_view(musicbrainz_id),
                quality_profile_id,
                root_folder@,
                monitor_new_items,
            ),
    {
        Artist {
            id: None,
            artist_name: owned(name),
            foreign_artist_id: opt_owned(musicbrainz_id),
            overview: None,
            disambiguation: None,
            artist_type: None,
            status: None,
            ended: None,
            genres: None,
            images: None,
            links: None,
            quality_profile_id: Some(quality_profile_id),
            metadata_profile_id: Some(1),
            monitored: Some(true),
            monitor_new_items: Some(
                if monitor_new_items {
                    owned("all")
                } else {
                    owned("none")
                },
            ),
            root_folder_path: Some(owned(root_folder)),
            folder_name: None,
            path: None,
        }
    }

    /// The first step of queueing a download, given the artists a search
    /// found: none found, nothing to do; the first has a MusicBrainz id, look
    /// for it among the monitored artists; else add it.
    pub fn queue_first_step(&self, found: &Vec<Artist>) -> (r: QueueStep)
        ensures
            found@.len() == 0 ==> r is NotFound,
            found@.len() > 0 ==> match found@[0].foreign_artist_id {
                Some(m) => (r matches QueueStep::FindExisting(s) && s@ == m@),
                None => (r matches QueueStep::Add(a) && monitoring_request(
                    a,
                    found@[0].artist_name@,
                    None,
                    1,
                    "/music"@,
                    true,
                )),
            },
    {
        if found.len() == 0 {
            return QueueStep::NotFound;
        }
        let first = &found[0];
        match &first.foreign_artist_id {
            Some(m) => QueueStep::FindExisting(owned(m.as_str())),
            None => QueueStep::Add(
                self.create_artist_for_monitoring(first.artist_name.as_str(), None, 1, "/music", true),
            ),
        }
    }

    /// The step after looking for the artist among the monitored ones: search
    /// the releases of the one found (id 0 where it has none), else add the
    /// candidate with the default quality profile and root folder.
    pub fn queue_after_lookup(&self, candidate: &Artist, existing: Option<&Artist>) -> (r: QueueStep)
        ensures
            match existing {
                Some(e) => (r matches QueueStep::SearchReleases(id) && id == e.id.unwrap_or(0)),
                None => (r matches QueueStep::Add(a) && monitoring_request(
                    a,
                    candidate.artist_name@,
                    opt_view(candidate.foreign_artist_id),
                    1,
                    "/music"@,
                    true,
                )),
            },
    {
        match existing {
            Some(e) => QueueStep::SearchReleases(
                match e.id {
                    Some(i) => i,
                    None => 0,
                },
            ),
            None => {
                let mbid: Option<&str> = match &candidate.foreign_artist_id {
                    Some(m) => Some(m.as_str()),
                    None => None,
                };
                QueueStep::Add(
                    self.create_artist_for_monitoring(
                        candidate.artist_name.as_str(),
                        mbid,
                        1,
                        "/music",
                        true,
                    ),
                )
            },
        }
    }
}

/// The step after an artist was added: search its releases (id 0 where the
/// answer has none).
pub fn queue_after_add(added: &Artist) -> (r: QueueStep)
    ensures
        r matches QueueStep::SearchReleases(id) && id == added.id.unwrap_or(0),
{
    QueueStep::SearchReleases(
        match added.id {
            Some(i) => i,
            None => 0,
        },
    )
}

/// The first artist, by position, whose MusicBrainz id is `mbid`.
pub fn find_artist_by_mbid(artists: &Vec<Artist>, mbid: &str) -> (r: Option<usize>)
    ensures
        match r {
            Some(i) => i < artists@.len() && (artists@[i as int].foreign_artist_id matches Some(f)
                && f@ == mbid@) && forall|j: int|
                0 <= j < i ==> !(#[trigger] artists@[j].foreign_artist_id matches Some(f) && f@
                    == mbid@),
            None => forall|j: int|
                0 <= j < artists@.len() ==> !(#[trigger] artists@[j].foreign_artist_id matches Some(
                    f,
                ) && f@ == mbid@),
        },
{
    let m = chars_of(mbid);
    let mut i: usize = 0;
    while i < artists.len()
        invariant
            i <= artists@.len(),
            m@ == mbid@,
            forall|j: int|
                0 <= j < i ==> !(#[trigger] artists@[j].foreign_artist_id matches Some(f) && f@
                    == mbid@),
        decreases artists@.len() - i,
    {
        if let Some(f) = &artists[i].foreign_artist_id {
            let fc = chars_of(f.as_str());
            if chars_eq(&fc, &m) {
                return Some(i);
            }
        }
        i = i + 1;
    }
    None
}

} // verus!
