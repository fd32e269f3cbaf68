//! Catalogue records (users, artists, albums, tracks, playlists, ratings,
//! preferences, downloads) and the text they are shown with. Times are Unix
//! times in seconds; a constructor takes the current time as `now`.
use vstd::prelude::*;
use crate::clients::qbittorrent::{as_f64, bytes_text, f64_value, format_bytes};
use crate::clients::transmission::{status_name, TorrentInfo};
use crate::models::{duration_text, format_duration, generate_id, uuid_text};
use crate::storage::{file_extension, path_extension};
use crate::text::{
    chars_eq, chars_of, decimal, digit_char, digit_to_char, lowercase, owned, push_decimal,
    push_signed_decimal, push_str_chars, signed_decimal, string_of, to_lowercase, to_uppercase,
    uppercase,
};

verus! {

/// A user of the service.
#[derive(Debug, Clone)]
pub struct User {
    pub id: String,
    pub navidrome_id: String,
    pub username: String,
    pub display_name: Option<String>,
    pub email: Option<String>,
    pub is_admin: bool,
    pub is_active: bool,
    pub created_at: i64,
    pub updated_at: i64,
    pub last_seen_at: Option<i64>,
    pub listening_time_total: i64,
    pub track_count_total: i64,
}

/// The low 32 bits of a stored number, as a count of seconds.
pub open spec fn low_seconds(n: int) -> nat {
    (n % 0x1_0000_0000) as nat
}

fn low_seconds_exec(n: i64) -> (r: u32)
    ensures
        r == low_seconds(n as int),
{
    let m = (n as i128) % 0x1_0000_0000;
    let m = if m < 0 {
        m + 0x1_0000_0000
    } else {
        m
    };
    m as u32
}

/// A new random identifier (a version 4 UUID), described by its bytes.
pub open spec fn fresh_id(id: Seq<char>) -> bool {
    exists|b: Seq<u8>| b.len() == 16 && b[6] / 16 == 4 && b[8] / 64 == 2 && id == uuid_text(b)
}

impl User {
    /// A new active, non-admin user with a fresh id, created at `now`, not
    /// seen yet and with no listening yet.
    pub fn new(navidrome_id: String, username: String, now: i64) -> (r: Self)
        ensures
            fresh_id(r.id@),
            r.navidrome_id == navidrome_id,
            r.username == username,
            r.display_name is None && r.email is None,
            !r.is_admin && r.is_active,
            r.created_at == now && r.updated_at == now && r.last_seen_at is None,
            r.listening_time_total == 0 && r.track_count_total == 0,
    {
        User {
            id: generate_id(),
            navidrome_id,
            username,
            display_name: None,
            email: None,
            is_admin: false,
            is_active: true,
            created_at: now,
            updated_at: now,
            last_seen_at: None,
            listening_time_total: 0,
            track_count_total: 0,
        }
    }

    /// Whether the user is active.
    pub fn is_active(&self) -> (r: bool)
        ensures
            r == self.is_active,
    {
        self.is_active
    }

    /// The display name, or the user name where there is none.
    pub fn display_name(&self) -> (r: &str)
        ensures
            r@ == match self.display_name {
                Some(d) => d@,
                None => self.username@,
            },
    {
        match &self.display_name {
            Some(d) => d.as_str(),
            None => self.username.as_str(),
        }
    }

    /// The total listening time as `H:MM:SS` or `M:SS` (of its low 32 bits).
    pub fn formatted_listening_time(&self) -> (r: String)
        ensures
            r@ == duration_text(low_seconds(self.listening_time_total as int)),
    {
        format_duration(low_seconds_exec(self.listening_time_total))
    }
}

/// A music artist.
#[derive(Debug, Clone)]
pub struct Artist {
    pub id: String,
    pub name: String,
    pub sort_name: Option<String>,
    pub musicbrainz_id: Option<String>,
    pub biography: Option<String>,
    pub country: Option<String>,
    pub formed_year: Option<i32>,
    pub disbanded_year: Option<i32>,
    pub artist_type: Option<String>,
    pub gender: Option<String>,
    pub image_url: Option<String>,
    pub created_at: i64,
    pub updated_at: i64,
    pub play_count: i64,
    pub last_played_at: Option<i64>,
}

/// The years an artist was active, as shown.
pub open spec fn active_years_text(formed: Option<i32>, disbanded: Option<i32>) -> Seq<char> {
    match (formed, disbanded) {
        (Some(f), Some(d)) => signed_decimal(f as int) + seq!['-'] + signed_decimal(d as int),
        (Some(f), None) => signed_decimal(f as int) + "-present"@,
        (None, Some(d)) => "unknown-"@ + signed_decimal(d as int),
        (None, None) => "unknown"@,
    }
}

impl Artist {
    /// A new artist with a fresh id, created at `now`, never played, and
    /// nothing else known.
    pub fn new(name: String, now: i64) -> (r: Self)
        ensures
            fresh_id(r.id@),
            r.name == name,
            r.sort_name is None && r.musicbrainz_id is None && r.biography is None,
            r.country is None && r.formed_year is None && r.disbanded_year is None,
            r.artist_type is None && r.gender is None && r.image_url is None,
            r.created_at == now && r.updated_at == now,
            r.play_count == 0 && r.last_played_at is None,
    {
        Artist {
            id: generate_id(),
            name,
            sort_name: None,
            musicbrainz_id: None,
            biography: None,
            country: None,
            formed_year: None,
            disbanded_year: None,
            artist_type: None,
            gender: None,
            image_url: None,
            created_at: now,
            updated_at: now,
            play_count: 0,
            last_played_at: None,
        }
    }

    /// The name to sort by: the sort name, else the name.
    pub fn sort_name(&self) -> (r: &str)
        ensures
            r@ == match self.sort_name {
                Some(s) => s@,
                None => self.name@,
            },
    {
        match &self.sort_name {
            Some(s) => s.as_str(),
            None => self.name.as_str(),
        }
    }

    /// An artist is active until it has disbanded.
    pub fn is_active(&self) -> (r: bool)
        ensures
            r == self.disbanded_year is None,
    {
        self.disbanded_year.is_none()
    }

    /// The active years: `formed-disbanded`, `formed-present`,
    /// `unknown-disbanded` or `unknown`.
    pub fn active_years(&self) -> (r: String)
        ensures
            r@ == active_years_text(self.formed_year, self.disbanded_year),
    {
        let mut v: Vec<char> = Vec::new();
        match (self.formed_year, self.disbanded_year) {
            (Some(f), Some(d)) => {
                push_signed_decimal(&mut v, f as i64);
                v.push('-');
                push_signed_decimal(&mut v, d as i64);
            },
            (Some(f), None) => {
                push_signed_decimal(&mut v, f as i64);
                push_str_chars(&mut v, "-present");
            },
            (None, Some(d)) => {
                push_str_chars(&mut v, "unknown-");
                push_signed_decimal(&mut v, d as i64);
            },
            (None, None) => {
                push_str_chars(&mut v, "unknown");
            },
        }
        assert(v@ =~= active_years_text(self.formed_year, self.disbanded_year));
        string_of(&v)
    }
}

/// An album.
#[derive(Debug, Clone)]
pub struct Album {
    pub id: String,
    pub title: String,
    pub sort_title: Option<String>,
    pub artist_id: String,
    pub musicbrainz_id: Option<String>,
    pub release_date: Option<String>,
    pub release_year: Option<i32>,
    pub album_type: Option<String>,
    pub track_count: i32,
    pub duration: i32,
    pub genre: Option<String>,
    pub artwork_url: Option<String>,
    pub artwork_path: Option<String>,
    pub created_at: i64,
    pub updated_at: i64,
    pub play_count: i64,
    pub last_played_at: Option<i64>,
}

impl Album {
    /// A new album of `artist_id` with a fresh id, created at `now`, with no
    /// tracks, never played, and nothing else known.
    pub fn new(title: String, artist_id: String, now: i64) -> (r: Self)
        ensures
            fresh_id(r.id@),
            r.title == title,
            r.artist_id == artist_id,
            r.sort_title is None && r.musicbrainz_id is None && r.release_date is None,
            r.release_year is None && r.album_type is None && r.genre is None,
            r.artwork_url is None && r.artwork_path is None,
            r.track_count == 0 && r.duration == 0,
            r.created_at == now && r.updated_at == now,
            r.play_count == 0 && r.last_played_at is None,
    {
        Album {
            id: generate_id(),
            title,
            sort_title: None,
            artist_id,
            musicbrainz_id: None,
            release_date: None,
            release_year: None,
            album_type: None,
            track_count: 0,
            duration: 0,
            genre: None,
            artwork_url: None,
            artwork_path: None,
            created_at: now,
            updated_at: now,
            play_count: 0,
            last_played_at: None,
        }
    }

    /// The title to sort by: the sort title, else the title.
    pub fn sort_title(&self) -> (r: &str)
        ensures
            r@ == match self.sort_title {
                Some(s) => s@,
                None => self.title@,
            },
    {
        match &self.sort_title {
            Some(s) => s.as_str(),
            None => self.title.as_str(),
        }
    }

    /// The duration as `H:MM:SS` or `M:SS` (of its low 32 bits).
    pub fn formatted_duration(&self) -> (r: String)
        ensures
            r@ == duration_text(low_seconds(self.duration as int)),
    {
        format_duration(low_seconds_exec(self.duration as i64))
    }

    /// The album type, `album` where none is known.
    pub fn album_type(&self) -> (r: &str)
        ensures
            r@ == match self.album_type {
                Some(s) => s@,
                None => "album"@,
            },
    {
        match &self.album_type {
            Some(s) => s.as_str(),
            None => "album",
        }
    }
}

/// A track.
#[derive(Debug, Clone)]
pub struct Track {
    pub id: String,
    pub title: String,
    pub sort_title: Option<String>,
    pub artist_id: String,
    pub album_id: Option<String>,
    pub musicbrainz_id: Option<String>,
    pub track_number: Option<i32>,
    pub disc_number: i32,
    pub duration: Option<i32>,
    pub file_path: Option<String>,
    pub file_size: Option<i64>,
    pub bitrate: Option<i32>,
    pub sample_rate: Option<i32>,
    pub channels: Option<i32>,
    pub format: Option<String>,
    pub created_at: i64,
    pub updated_at: i64,
    pub play_count: i64,
    pub last_played_at: Option<i64>,
    pub love_count: i64,
}

/// How the audio quality of a track is described.
pub open spec fn quality_text(bitrate: Option<i32>, sample_rate: Option<i32>, format: Option<Seq<char>>) -> Seq<
    char,
> {
    match (bitrate, sample_rate, format) {
        (Some(b), Some(s), Some(f)) => signed_decimal(b as int) + " kbps, "@ + signed_decimal(s as int)
            + " Hz, "@ + uppercase(f),
        (Some(b), _, Some(f)) => signed_decimal(b as int) + " kbps, "@ + uppercase(f),
        (_, _, Some(f)) => uppercase(f),
        _ => "Unknown"@,
    }
}

/// `f / d` in tenths, rounded to nearest, ties to even (what `{:.1}` does
/// with an exact binary value).
pub open spec fn tenths(f: nat, d: nat) -> nat {
    let t = f * 10;
    let q = t / d;
    let r = t % d;
    if 2 * r > d || (2 * r == d && q % 2 == 1) {
        q + 1
    } else {
        q
    }
}

/// A value with one decimal.
pub open spec fn one_decimal(q: nat) -> Seq<char> {
    decimal(q / 10) + seq!['.', digit_char(q % 10)]
}

/// A file size as shown: bytes below 1024, else KB, MB or GB with one
/// decimal, computed as the floating-point code does.
pub open spec fn file_size_text(size: int) -> Seq<char> {
    if size < 1024 {
        signed_decimal(size) + " B"@
    } else if size < 1048576 {
        one_decimal(tenths(as_f64(size as nat), 1024)) + " KB"@
    } else if size < 1073741824 {
        one_decimal(tenths(as_f64(size as nat), 1048576)) + " MB"@
    } else {
        one_decimal(tenths(as_f64(size as nat), 1073741824)) + " GB"@
    }
}

fn push_one_decimal(v: &mut Vec<char>, f: u128, d: u128)
    requires
        1024 <= d <= 1073741824,
        f <= 0x10000000000000000,
        f < d * 1024 || d == 1073741824,
    ensures
        final(v)@ == old(v)@ + one_decimal(tenths(f as nat, d as nat)),
{
    let t = f * 10;
    let q0 = t / d;
    let rem = t % d;
    let q = if 2 * rem > d || (2 * rem == d && q0 % 2 == 1) {
        q0 + 1
    } else {
        q0
    };
    assert(q == tenths(f as nat, d as nat));
    proof {
        assert(q0 <= t) by (nonlinear_arith)
            requires
                q0 == t / d,
                d >= 1,
        ;
    }
    let whole = q / 10;
    let frac = q % 10;
    proof {
        assert(q0 <= 0x400000000000000) by (nonlinear_arith)
            requires
                q0 == t / d,
                t == f * 10,
                f <= 0x10000000000000000,
                d >= 1024,
        ;
        assert(whole <= q);
    }
    push_decimal(v, whole as u64);
    v.push('.');
    v.push(digit_to_char(frac as u64));
}

impl Track {
    /// A new track of `artist_id` with a fresh id, created at `now`, on disc
    /// 1, without a file, never played or loved, and nothing else known.
    pub fn new(title: String, artist_id: String, now: i64) -> (r: Self)
        ensures
            fresh_id(r.id@),
            r.title == title,
            r.artist_id == artist_id,
            r.sort_title is None && r.album_id is None && r.musicbrainz_id is None,
            r.track_number is None && r.disc_number == 1 && r.duration is None,
            r.file_path is None && r.file_size is None,
            r.bitrate is None && r.sample_rate is None && r.channels is None && r.format is None,
            r.created_at == now && r.updated_at == now,
            r.play_count == 0 && r.last_played_at is None && r.love_count == 0,
    {
        Track {
            id: generate_id(),
            title,
            sort_title: None,
            artist_id,
            album_id: None,
            musicbrainz_id: None,
            track_number: None,
            disc_number: 1,
            duration: None,
            file_path: None,
            file_size: None,
            bitrate: None,
            sample_rate: None,
            channels: None,
            format: None,
            created_at: now,
            updated_at: now,
            play_count: 0,
            last_played_at: None,
            love_count: 0,
        }
    }

    /// The title to sort by: the sort title, else the title.
    pub fn sort_title(&self) -> (r: &str)
        ensures
            r@ == match self.sort_title {
                Some(s) => s@,
                None => self.title@,
            },
    {
        match &self.sort_title {
            Some(s) => s.as_str(),
            None => self.title.as_str(),
        }
    }

    /// The duration, where known, as `H:MM:SS` or `M:SS`.
    pub fn formatted_duration(&self) -> (r: Option<String>)
        ensures
            match self.duration {
                Some(d) => (r matches Some(s) && s@ == duration_text(low_seconds(d as int))),
                None => r is None,
            },
    {
        match self.duration {
            Some(d) => Some(format_duration(low_seconds_exec(d as i64))),
            None => None,
        }
    }

    /// Whether the track has an audio file.
    pub fn has_file(&self) -> (r: bool)
        ensures
            r == self.file_path is Some,
    {
        self.file_path.is_some()
    }

    /// The audio quality: bitrate, sample rate and format where known.
    pub fn quality_description(&self) -> (r: String)
        ensures
            r@ == quality_text(
                self.bitrate,
                self.sample_rate,
                match self.format {
                    Some(f) => Some(f@),
                    None => None,
                },
            ),
    {
        let fmt = match &self.format {
            None => return owned("Unknown"),
            Some(f) => to_uppercase(&chars_of(f.as_str())),
        };
        let mut v: Vec<char> = Vec::new();
        match (self.bitrate, self.sample_rate) {
            (Some(b), Some(s)) => {
                push_signed_decimal(&mut v, b as i64);
                push_str_chars(&mut v, " kbps, ");
                push_signed_decimal(&mut v, s as i64);
                push_str_chars(&mut v, " Hz, ");
            },
            (Some(b), None) => {
                push_signed_decimal(&mut v, b as i64);
                push_str_chars(&mut v, " kbps, ");
            },
            _ => {},
        }
        let mut k: usize = 0;
        let ghost head = v@;
        while k < fmt.len()
            invariant
                k <= fmt@.len(),
                v@ == head + fmt@.subrange(0, k as int),
            decreases fmt@.len() - k,
        {
            v.push(fmt[k]);
            k = k + 1;
            assert(v@ =~= head + fmt@.subrange(0, k as int));
        }
        assert(fmt@.subrange(0, fmt@.len() as int) =~= fmt@);
        assert(v@ =~= quality_text(
            self.bitrate,
            self.sample_rate,
            match self.format {
                Some(f) => Some(f@),
                None => None,
            },
        ));
        string_of(&v)
    }

    /// The file size, where known, in B, KB, MB or GB.
    pub fn formatted_file_size(&self) -> (r: Option<String>)
        ensures
            match self.file_size {
                Some(s) => (r matches Some(t) && t@ == file_size_text(s as int)),
                None => r is None,
            },
    {
        let size = match self.file_size {
            Some(s) => s,
            None => return None,
        };
        let mut v: Vec<char> = Vec::new();
        if size < 1024 {
            push_signed_decimal(&mut v, size);
            push_str_chars(&mut v, " B");
        } else {
            let f = f64_value(size as u64);
            proof {
                if size < 1073741824 {
                    assert(as_f64(size as nat) == size);
                }
            }
            if size < 1048576 {
                push_one_decimal(&mut v, f, 1024);
                push_str_chars(&mut v, " KB");
            } else if size < 1073741824 {
                push_one_decimal(&mut v, f, 1048576);
                push_str_chars(&mut v, " MB");
            } else {
                push_one_decimal(&mut v, f, 1073741824);
                push_str_chars(&mut v, " GB");
            }
        }
        assert(v@ =~= file_size_text(size as int));
        Some(string_of(&v))
    }
}

/// A music genre.
#[derive(Debug, Clone)]
pub struct Genre {
    pub id: i64,
    pub name: String,
    pub parent_genre_id: Option<i64>,
    pub description: Option<String>,
    pub created_at: i64,
}

impl Genre {
    /// A new top-level genre without a description, created at `now`; the id
    /// is set when it is stored.
    pub fn new(name: String, now: i64) -> (r: Self)
        ensures
            r.id == 0,
            r.name == name,
            r.parent_genre_id is None && r.description is None,
            r.created_at == now,
    {
        Genre { id: 0, name, parent_genre_id: None, description: None, created_at: now }
    }
}

/// A playlist.
#[derive(Debug, Clone)]
pub struct Playlist {
    pub id: String,
    pub name: String,
    pub description: Option<String>,
    pub user_id: String,
    pub navidrome_id: Option<String>,
    pub is_public: bool,
    pub is_smart: bool,
    pub smart_criteria: Option<String>,
    pub track_count: i32,
    pub duration: i32,
    pub created_at: i64,
    pub updated_at: i64,
    pub last_played_at: Option<i64>,
    pub play_count: i64,
}

impl Playlist {
    /// A new, empty, private playlist with a fresh id, created at `now` and
    /// never played.
    pub fn new(name: String, user_id: String, now: i64) -> (r: Self)
        ensures
            fresh_id(r.id@),
            r.name == name,
            r.user_id == user_id,
            r.description is None && r.navidrome_id is None,
            !r.is_public && !r.is_smart && r.smart_criteria is None,
            r.track_count == 0 && r.duration == 0 && r.play_count == 0,
            r.created_at == now && r.updated_at == now && r.last_played_at is None,
    {
        Playlist {
            id: generate_id(),
            name,
            description: None,
            user_id,
            navidrome_id: None,
            is_public: false,
            is_smart: false,
            smart_criteria: None,
            track_count: 0,
            duration: 0,
            created_at: now,
            updated_at: now,
            last_played_at: None,
            play_count: 0,
        }
    }

    /// A new smart playlist filled by `criteria`, created at `now`.
    pub fn new_smart(name: String, user_id: String, criteria: String, now: i64) -> (r: Self)
        ensures
            fresh_id(r.id@),
            r.name == name,
            r.user_id == user_id,
            r.is_smart,
            r.smart_criteria == Some(criteria),
            r.description is None && r.navidrome_id is None,
            !r.is_public && r.track_count == 0 && r.duration == 0 && r.play_count == 0,
            r.created_at == now && r.updated_at == now && r.last_played_at is None,
    {
        let mut p = Playlist::new(name, user_id, now);
        p.is_smart = true;
        p.smart_criteria = Some(criteria);
        p
    }

    /// The duration as `H:MM:SS` or `M:SS` (of its low 32 bits).
    pub fn formatted_duration(&self) -> (r: String)
        ensures
            r@ == duration_text(low_seconds(self.duration as int)),
    {
        format_duration(low_seconds_exec(self.duration as i64))
    }

    /// `Smart Playlist` or `Playlist`.
    pub fn playlist_type(&self) -> (r: &str)
        ensures
            r@ == if self.is_smart {
                "Smart Playlist"@
            } else {
                "Playlist"@
            },
    {
        if self.is_smart {
            "Smart Playlist"
        } else {
            "Playlist"
        }
    }
}

/// How long a play lasted, where known, as `H:MM:SS` or `M:SS`.
pub fn formatted_play_duration(play_duration: Option<i32>) -> (r: Option<String>)
    ensures
        match play_duration {
            Some(d) => (r matches Some(s) && s@ == duration_text(low_seconds(d as int))),
            None => r is None,
        },
{
    match play_duration {
        Some(d) => Some(format_duration(low_seconds_exec(d as i64))),
        None => None,
    }
}

/// A track's place in a playlist.
#[derive(Debug, Clone)]
pub struct PlaylistTrack {
    pub id: i64,
    pub playlist_id: String,
    pub track_id: String,
    pub position: i32,
    pub added_at: i64,
    pub added_by_user_id: Option<String>,
}

impl PlaylistTrack {
    /// `track_id` at `position` of `playlist_id`, added at `now` by no one
    /// in particular; the id is set when it is stored.
    pub fn new(playlist_id: String, track_id: String, position: i32, now: i64) -> (r: Self)
        ensures
            r.id == 0,
            r.playlist_id == playlist_id,
            r.track_id == track_id,
            r.position == position,
            r.added_at == now,
            r.added_by_user_id is None,
    {
        PlaylistTrack { id: 0, playlist_id, track_id, position, added_at: now, added_by_user_id: None }
    }
}

/// A stored preference of a user.
#[derive(Debug, Clone)]
pub struct UserPreference {
    pub id: i64,
    pub user_id: String,
    pub preference_key: String,
    pub preference_value: String,
    pub preference_type: String,
    pub created_at: i64,
    pub updated_at: i64,
}

/// The truth value a preference text stands for, letter case aside.
pub open spec fn preference_flag(low: Seq<char>) -> Option<bool> {
    if low == "true"@ || low == "1"@ || low == "yes"@ || low == "on"@ {
        Some(true)
    } else if low == "false"@ || low == "0"@ || low == "no"@ || low == "off"@ {
        Some(false)
    } else {
        None
    }
}

impl UserPreference {
    /// A new preference of `user_id`, created at `now`; the id is set when it
    /// is stored.
    pub fn new(user_id: String, key: String, value: String, pref_type: String, now: i64) -> (r: Self)
        ensures
            r.id == 0,
            r.user_id == user_id,
            r.preference_key == key,
            r.preference_value == value,
            r.preference_type == pref_type,
            r.created_at == now && r.updated_at == now,
    {
        UserPreference {
            id: 0,
            user_id,
            preference_key: key,
            preference_value: value,
            preference_type: pref_type,
            created_at: now,
            updated_at: now,
        }
    }

    /// The preference read as a truth value.
    pub fn as_bool(&self) -> (r: Option<bool>)
        ensures
            r == preference_flag(lowercase(self.preference_value@)),
    {
        let low = to_lowercase(&chars_of(self.preference_value.as_str()));
        let is = |w: &str| -> (b: bool)
            ensures
                b == (low@ == w@),
        { chars_eq(&low, &chars_of(w)) };
        if is("true") || is("1") || is("yes") || is("on") {
            Some(true)
        } else if is("false") || is("0") || is("no") || is("off") {
            Some(false)
        } else {
            None
        }
    }
}

/// A user's rating of a track.
#[derive(Debug, Clone)]
pub struct UserTrackRating {
    pub id: i64,
    pub user_id: String,
    pub track_id: String,
    pub rating: Option<i32>,
    pub is_loved: bool,
    pub is_banned: bool,
    pub created_at: i64,
    pub updated_at: i64,
}

/// `n` copies of `c`.
pub open spec fn repeat_char(c: char, n: nat) -> Seq<char> {
    Seq::new(n, |i: int| c)
}

impl UserTrackRating {
    /// A new, unrated rating of `track_id` by `user_id`, neither loved nor
    /// banned, created at `now`; the id is set when it is stored.
    pub fn new(user_id: String, track_id: String, now: i64) -> (r: Self)
        ensures
            r.id == 0,
            r.user_id == user_id,
            r.track_id == track_id,
            r.rating is None && !r.is_loved && !r.is_banned,
            r.created_at == now && r.updated_at == now,
    {
        UserTrackRating {
            id: 0,
            user_id,
            track_id,
            rating: None,
            is_loved: false,
            is_banned: false,
            created_at: now,
            updated_at: now,
        }
    }

    /// Rates the track 1 to 5 stars; any other number is refused and leaves
    /// the rating as it was.
    pub fn set_rating(&mut self, rating: i32) -> (r: Result<(), String>)
        ensures
            (1 <= rating <= 5) ==> r is Ok && final(self).rating == Some(rating),
            !(1 <= rating <= 5) ==> (r matches Err(e) && e@ == "Rating must be between 1 and 5"@)
                && final(self).rating == old(self).rating,
            final(self).id == old(self).id,
            final(self).user_id == old(self).user_id,
            final(self).track_id == old(self).track_id,
            final(self).is_loved == old(self).is_loved,
            final(self).is_banned == old(self).is_banned,
            final(self).created_at == old(self).created_at,
            final(self).updated_at == old(self).updated_at,
    {
        if rating < 1 || rating > 5 {
            return Err(owned("Rating must be between 1 and 5"));
        }
        self.rating = Some(rating);
        Ok(())
    }

    /// The rating as five stars, filled up to the rating.
    pub fn rating_stars(&self) -> (r: String)
        requires
            self.rating matches Some(n) ==> 0 <= n <= 5,
        ensures
            r@ == match self.rating {
                Some(n) => repeat_char('★', n as nat) + repeat_char('☆', (5 - n) as nat),
                None => repeat_char('☆', 5),
            },
    {
        let n: usize = match self.rating {
            Some(k) => k as usize,
            None => 0,
        };
        let mut v: Vec<char> = Vec::new();
        let mut i: usize = 0;
        while i < 5
            invariant
                i <= 5,
                n <= 5,
                v@.len() == i,
                forall|j: int| 0 <= j < i ==> v@[j] == if j < n {
                    '★'
                } else {
                    '☆'
                },
            decreases 5 - i,
        {
            v.push(
                if i < n {
                    '★'
                } else {
                    '☆'
                },
            );
            i = i + 1;
        }
        proof {
            let expect = match self.rating {
                Some(k) => repeat_char('★', k as nat) + repeat_char('☆', (5 - k) as nat),
                None => repeat_char('☆', 5),
            };
            assert(v@ =~= expect);
        }
        string_of(&v)
    }
}

/// How a download request is described: artist, title and album.
pub fn full_description(artist_name: &str, track_title: &str, album_title: Option<&str>) -> (r: String)
    ensures
        r@ == artist_name@ + " - "@ + track_title@ + match album_title {
            Some(a) => " ("@ + a@ + ")"@,
            None => Seq::empty(),
        },
{
    let mut v: Vec<char> = Vec::new();
    push_str_chars(&mut v, artist_name);
    push_str_chars(&mut v, " - ");
    push_str_chars(&mut v, track_title);
    if let Some(a) = album_title {
        push_str_chars(&mut v, " (");
        push_str_chars(&mut v, a);
        push_str_chars(&mut v, ")");
    }
    assert(v@ =~= artist_name@ + " - "@ + track_title@ + match album_title {
        Some(a) => " ("@ + a@ + ")"@,
        None => Seq::empty(),
    });
    string_of(&v)
}

/// A download's size as shown, `Unknown` where not known.
pub fn formatted_download_size(file_size: Option<u64>) -> (r: String)
    ensures
        r@ == match file_size {
            Some(s) => bytes_text(s as nat),
            None => "Unknown"@,
        },
{
    match file_size {
        Some(s) => format_bytes(s),
        None => owned("Unknown"),
    }
}

/// A download speed as shown, per second.
pub fn formatted_download_speed(speed: Option<u64>) -> (r: String)
    ensures
        r@ == match speed {
            Some(s) => bytes_text(s as nat) + "/s"@,
            None => "0 B/s"@,
        },
{
    match speed {
        Some(s) => {
            let t = format_bytes(s);
            let mut v = chars_of(t.as_str());
            push_str_chars(&mut v, "/s");
            string_of(&v)
        },
        None => owned("0 B/s"),
    }
}

/// The states of a download request.
pub open spec fn request_failed(status: Seq<char>) -> bool {
    status == "failed"@ || status == "error"@
}

pub open spec fn request_in_progress(status: Seq<char>) -> bool {
    status == "downloading"@ || status == "seeding"@
}

pub open spec fn request_queued(status: Seq<char>) -> bool {
    status == "queued"@ || status == "pending"@
}

fn is_text(s: &str, w: &str) -> (r: bool)
    ensures
        r == (s@ == w@),
{
    chars_eq(&chars_of(s), &chars_of(w))
}

/// Whether a download request with this status failed.
pub fn download_failed(status: &str) -> (r: bool)
    ensures
        r == request_failed(status@),
{
    is_text(status, "failed") || is_text(status, "error")
}

/// Whether a download request with this status is under way.
pub fn download_in_progress(status: &str) -> (r: bool)
    ensures
        r == request_in_progress(status@),
{
    is_text(status, "downloading") || is_text(status, "seeding")
}

/// Whether a download request with this status waits.
pub fn download_queued(status: &str) -> (r: bool)
    ensures
        r == request_queued(status@),
{
    is_text(status, "queued") || is_text(status, "pending")
}

/// A request to download a track. Its progress is kept in thousandths
/// (`1000` is a whole) and its times as Unix seconds.
#[derive(Debug, Clone)]
pub struct DownloadRequest {
    pub id: String,
    pub user_id: String,
    pub artist_name: String,
    pub track_title: String,
    pub album_title: Option<String>,
    pub status: String,
    pub source_url: Option<String>,
    pub magnet_url: Option<String>,
    pub torrent_hash: Option<String>,
    pub download_path: Option<String>,
    pub file_size: Option<u64>,
    pub progress_permille: Option<u32>,
    pub download_speed: Option<u64>,
    pub upload_speed: Option<u64>,
    pub seeds: Option<i32>,
    pub peers: Option<i32>,
    pub error_message: Option<String>,
    pub requested_at: i64,
    pub started_at: Option<i64>,
    pub completed_at: Option<i64>,
    pub processed_at: Option<i64>,
    pub track_id: Option<String>,
}

/// A request just made at `now`: a fresh id, nothing downloaded, nothing
/// known of the transfer yet.
pub open spec fn untouched_request(r: DownloadRequest, now: int) -> bool {
    &&& fresh_id(r.id@)
    &&& r.album_title is None && r.source_url is None && r.download_path is None
    &&& r.file_size is None && r.progress_permille is None
    &&& r.download_speed is None && r.upload_speed is None
    &&& r.seeds is None && r.peers is None && r.error_message is None
    &&& r.requested_at == now
    &&& r.started_at is None && r.completed_at is None && r.processed_at is None
    &&& r.track_id is None
}

/// What a progress report from the torrent client leaves as it was.
pub open spec fn request_identity_kept(a: DownloadRequest, b: DownloadRequest) -> bool {
    &&& a.id == b.id && a.user_id == b.user_id
    &&& a.artist_name == b.artist_name && a.track_title == b.track_title
    &&& a.album_title == b.album_title && a.source_url == b.source_url
    &&& a.magnet_url == b.magnet_url && a.torrent_hash == b.torrent_hash
    &&& a.download_path == b.download_path
    &&& a.seeds == b.seeds && a.peers == b.peers && a.error_message == b.error_message
    &&& a.requested_at == b.requested_at && a.started_at == b.started_at
    &&& a.processed_at == b.processed_at && a.track_id == b.track_id
}

impl DownloadRequest {
    /// A pending request by `user_id` for `track_title` by `artist_name`,
    /// made at `now`.
    pub fn new(user_id: String, artist_name: String, track_title: String, now: i64) -> (r: Self)
        ensures
            untouched_request(r, now as int),
            r.user_id == user_id,
            r.artist_name == artist_name,
            r.track_title == track_title,
            r.status@ == "pending"@,
            r.magnet_url is None && r.torrent_hash is None,
    {
        DownloadRequest {
            id: generate_id(),
            user_id,
            artist_name,
            track_title,
            album_title: None,
            status: owned("pending"),
            source_url: None,
            magnet_url: None,
            torrent_hash: None,
            download_path: None,
            file_size: None,
            progress_permille: None,
            download_speed: None,
            upload_speed: None,
            seeds: None,
            peers: None,
            error_message: None,
            requested_at: now,
            started_at: None,
            completed_at: None,
            processed_at: None,
            track_id: None,
        }
    }

    /// A queued request that downloads `magnet_url`, made at `now`.
    pub fn new_with_magnet(
        user_id: String,
        artist_name: String,
        track_title: String,
        magnet_url: String,
        torrent_hash: Option<String>,
        now: i64,
    ) -> (r: Self)
        ensures
            untouched_request(r, now as int),
            r.user_id == user_id,
            r.artist_name == artist_name,
            r.track_title == track_title,
            r.status@ == "queued"@,
            r.magnet_url == Some(magnet_url),
            r.torrent_hash == torrent_hash,
    {
        let mut request = DownloadRequest::new(user_id, artist_name, track_title, now);
        request.magnet_url = Some(magnet_url);
        request.torrent_hash = torrent_hash;
        request.status = owned("queued");
        request
    }

    /// Whether the download finished: its status is `completed` and its
    /// progress a whole.
    pub fn is_completed(&self) -> (r: bool)
        ensures
            r == (self.status@ == "completed"@ && self.progress_permille.unwrap_or(0) >= 1000),
    {
        is_text(self.status.as_str(), "completed") && match self.progress_permille {
            Some(p) => p >= 1000,
            None => false,
        }
    }

    /// Whether the download failed.
    pub fn is_failed(&self) -> (r: bool)
        ensures
            r == request_failed(self.status@),
    {
        download_failed(self.status.as_str())
    }

    /// Whether the download is under way.
    pub fn is_in_progress(&self) -> (r: bool)
        ensures
            r == request_in_progress(self.status@),
    {
        download_in_progress(self.status.as_str())
    }

    /// Whether the download waits.
    pub fn is_queued(&self) -> (r: bool)
        ensures
            r == request_queued(self.status@),
    {
        download_queued(self.status.as_str())
    }

    /// The progress as a whole percentage, rounded half up (0 where none is
    /// known).
    pub fn progress_percentage(&self) -> (r: u32)
        ensures
            r == (self.progress_permille.unwrap_or(0) + 5) / 10,
    {
        let p: u64 = match self.progress_permille {
            Some(p) => p as u64,
            None => 0,
        };
        ((p + 5) / 10) as u32
    }

    /// The file size as shown, `Unknown` where none is known.
    pub fn formatted_file_size(&self) -> (r: String)
        ensures
            r@ == match self.file_size {
                Some(s) => bytes_text(s as nat),
                None => "Unknown"@,
            },
    {
        formatted_download_size(self.file_size)
    }

    /// The download speed as shown, per second.
    pub fn formatted_download_speed(&self) -> (r: String)
        ensures
            r@ == match self.download_speed {
                Some(s) => bytes_text(s as nat) + "/s"@,
                None => "0 B/s"@,
            },
    {
        formatted_download_speed(self.download_speed)
    }

    /// Artist, title and album, as the request is described.
    pub fn full_description(&self) -> (r: String)
        ensures
            r@ == self.artist_name@ + " - "@ + self.track_title@ + match self.album_title {
                Some(a) => " ("@ + a@ + ")"@,
                None => Seq::empty(),
            },
    {
        match &self.album_title {
            Some(a) => full_description(self.artist_name.as_str(), self.track_title.as_str(), Some(a.as_str())),
            None => full_description(self.artist_name.as_str(), self.track_title.as_str(), None),
        }
    }

    /// Takes in what the torrent client reports at `now`: progress, size,
    /// speeds and status; a download that reached a whole is marked
    /// completed at `now` unless it already was.
    pub fn update_from_torrent(&mut self, torrent: &TorrentInfo, now: i64)
        ensures
            request_identity_kept(*final(self), *old(self)),
            final(self).progress_permille == Some(torrent.progress_permille),
            final(self).file_size == Some(torrent.size),
            final(self).download_speed == Some(torrent.download_speed),
            final(self).upload_speed == Some(torrent.upload_speed),
            final(self).status@ == status_name(torrent.status),
            final(self).completed_at == if torrent.progress_permille >= 1000 && old(self).completed_at is None {
                Some(now)
            } else {
                old(self).completed_at
            },
    {
        self.progress_permille = Some(torrent.progress_permille);
        self.file_size = Some(torrent.size);
        self.download_speed = Some(torrent.download_speed);
        self.upload_speed = Some(torrent.upload_speed);
        self.status = owned(torrent.status_string());
        if torrent.progress_permille >= 1000 && self.completed_at.is_none() {
            self.completed_at = Some(now);
        }
    }
}

/// The extension of a downloaded file, in lower case.
pub fn file_extension_lower(file_name: &str) -> (r: Option<String>)
    ensures
        match file_extension(file_name@) {
            Some(e) => (r matches Some(s) && s@ == lowercase(e)),
            None => r is None,
        },
{
    match path_extension(file_name) {
        Some(e) => Some(string_of(&to_lowercase(&chars_of(e.as_str())))),
        None => None,
    }
}

} // verus!
