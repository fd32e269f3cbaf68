use stepheybot_music::clients::transmission::TorrentInfo;
use stepheybot_music::entities::{
    file_extension_lower, formatted_download_size, formatted_download_speed, formatted_play_duration, full_description,
    download_failed, download_in_progress, download_queued, Album, Artist, DownloadRequest, Genre, Playlist, PlaylistTrack, Track, User,
    UserPreference, UserTrackRating,
};

const NOW: i64 = 1_700_000_000;

fn track() -> Track {
    let mut t = Track::new("Title".to_string(), "a".to_string(), NOW);
    t.duration = Some(225);
    t.bitrate = Some(320);
    t.sample_rate = Some(44100);
    t.format = Some("flac".to_string());
    t
}

#[test]
fn artist_years_and_names() {
    let mut a = Artist::new("Band".to_string(), NOW);
    assert!(uuid::Uuid::parse_str(&a.id).is_ok());
    assert_eq!((a.created_at, a.updated_at, a.last_played_at), (NOW, NOW, None));
    assert_eq!(a.sort_name(), "Band");
    assert_eq!(a.active_years(), "unknown");
    a.formed_year = Some(1990);
    assert_eq!(a.active_years(), "1990-present");
    assert!(a.is_active());
    a.disbanded_year = Some(2001);
    assert_eq!(a.active_years(), "1990-2001");
    assert!(!a.is_active());
    a.formed_year = None;
    assert_eq!(a.active_years(), "unknown-2001");
}

#[test]
fn user_and_album_text() {
    let mut u = User::new("nd".to_string(), "bob".to_string(), NOW);
    assert_eq!((u.created_at, u.updated_at, u.last_seen_at), (NOW, NOW, None));
    assert_eq!(u.display_name(), "bob");
    u.display_name = Some("Bobby".to_string());
    assert_eq!(u.display_name(), "Bobby");
    u.listening_time_total = 3725;
    assert_eq!(u.formatted_listening_time(), "1:02:05");
    let mut album = Album::new("T".to_string(), "a".to_string(), NOW);
    assert!(uuid::Uuid::parse_str(&album.id).is_ok());
    assert_eq!((album.track_count, album.duration, album.created_at), (0, 0, NOW));
    album.duration = 61;
    assert_eq!(album.album_type(), "album");
    assert_eq!(album.formatted_duration(), "1:01");
    assert_eq!(album.sort_title(), "T");
}

#[test]
fn track_quality_and_sizes() {
    let mut t = track();
    assert_eq!((t.disc_number, t.created_at, t.updated_at, t.love_count), (1, NOW, NOW, 0));
    assert_eq!(t.quality_description(), "320 kbps, 44100 Hz, FLAC");
    t.sample_rate = None;
    assert_eq!(t.quality_description(), "320 kbps, FLAC");
    t.bitrate = None;
    assert_eq!(t.quality_description(), "FLAC");
    t.format = None;
    assert_eq!(t.quality_description(), "Unknown");
    assert_eq!(t.formatted_duration(), Some("3:45".to_string()));
    assert!(!t.has_file());
    for size in [0i64, 1023, 1024, 1536, 1587, 1048575, 1048576, 5_000_000, 1073741824, 123_456_789_012, i64::MAX] {
        t.file_size = Some(size);
        let expected = if size < 1024 {
            format!("{} B", size)
        } else if size < 1024 * 1024 {
            format!("{:.1} KB", size as f64 / 1024.0)
        } else if size < 1024 * 1024 * 1024 {
            format!("{:.1} MB", size as f64 / (1024.0 * 1024.0))
        } else {
            format!("{:.1} GB", size as f64 / (1024.0 * 1024.0 * 1024.0))
        };
        assert_eq!(t.formatted_file_size(), Some(expected), "size {}", size);
    }
    t.file_size = None;
    assert_eq!(t.formatted_file_size(), None);
}

#[test]
fn playlists_ratings_and_preferences() {
    let p = Playlist::new_smart("Mix".to_string(), "u".to_string(), "genre=rock".to_string(), NOW);
    assert_eq!(p.playlist_type(), "Smart Playlist");
    assert_eq!(p.created_at, NOW);
    assert_eq!(Playlist::new("P".to_string(), "u".to_string(), NOW).playlist_type(), "Playlist");
    let g = Genre::new("Jazz".to_string(), NOW);
    assert_eq!((g.id, g.name.as_str(), g.parent_genre_id, g.created_at), (0, "Jazz", None, NOW));
    let pt = PlaylistTrack::new("p".to_string(), "t".to_string(), 4, NOW);
    assert_eq!((pt.id, pt.position, pt.added_at, pt.added_by_user_id.is_none()), (0, 4, NOW, true));
    assert_eq!(formatted_play_duration(Some(59)), Some("0:59".to_string()));
    let mut r = UserTrackRating::new("u".to_string(), "t".to_string(), NOW);
    assert_eq!((r.id, r.is_loved, r.is_banned, r.created_at), (0, false, false, NOW));
    assert_eq!(r.rating_stars(), "☆☆☆☆☆");
    assert!(r.set_rating(3).is_ok());
    assert_eq!(r.rating_stars(), "★★★☆☆");
    assert_eq!(r.set_rating(6), Err("Rating must be between 1 and 5".to_string()));
    assert_eq!(r.rating, Some(3));
    let pref = |v: &str| UserPreference::new("u".to_string(), "k".to_string(), v.to_string(), "bool".to_string(), NOW);
    assert_eq!(pref("YES").as_bool(), Some(true));
    assert_eq!(pref("Off").as_bool(), Some(false));
    assert_eq!(pref("maybe").as_bool(), None);
}

#[test]
fn download_texts() {
    assert_eq!(full_description("A", "T", Some("Al")), "A - T (Al)");
    assert_eq!(full_description("A", "T", None), "A - T");
    assert_eq!(formatted_download_size(None), "Unknown");
    assert_eq!(formatted_download_size(Some(2048)), "2.00 KB");
    assert_eq!(formatted_download_speed(Some(1024 * 1024)), "1.00 MB/s");
    assert_eq!(formatted_download_speed(None), "0 B/s");
    assert!(download_failed("error") && !download_failed("queued"));
    assert!(download_in_progress("seeding"));
    assert!(download_queued("pending"));
    assert_eq!(file_extension_lower("Song.MP3"), Some("mp3".to_string()));
    assert_eq!(file_extension_lower("README"), None);
}

#[test]
fn download_request_lifecycle() {
    let r = DownloadRequest::new("u".to_string(), "A".to_string(), "T".to_string(), NOW);
    assert!(uuid::Uuid::parse_str(&r.id).is_ok());
    assert_eq!(r.status, "pending");
    assert!(r.is_queued() && !r.is_in_progress() && !r.is_failed() && !r.is_completed());
    assert_eq!(r.requested_at, NOW);
    assert_eq!(r.progress_percentage(), 0);
    assert_eq!(r.formatted_file_size(), "Unknown");
    assert_eq!(r.formatted_download_speed(), "0 B/s");
    assert_eq!(r.full_description(), "A - T");

    let mut m = DownloadRequest::new_with_magnet(
        "system".to_string(),
        "A".to_string(),
        "T".to_string(),
        "magnet:?xt=urn:btih:X".to_string(),
        None,
        NOW,
    );
    assert_eq!(m.status, "queued");
    assert_eq!(m.magnet_url.as_deref(), Some("magnet:?xt=urn:btih:X"));
    m.album_title = Some("Al".to_string());
    assert_eq!(m.full_description(), "A - T (Al)");

    let mut t = TorrentInfo {
        id: 1,
        name: "n".to_string(),
        size: 2048,
        progress_permille: 425,
        download_speed: 1024 * 1024,
        upload_speed: 7,
        status: 4,
        hash: "h".to_string(),
        download_dir: "/d".to_string(),
        error: String::new(),
        eta: 10,
        ratio_permille: 0,
    };
    m.update_from_torrent(&t, NOW + 5);
    assert_eq!(m.status, "downloading");
    assert!(m.is_in_progress());
    assert_eq!(m.progress_percentage(), 43);
    assert_eq!(m.formatted_file_size(), "2.00 KB");
    assert_eq!(m.formatted_download_speed(), "1.00 MB/s");
    assert_eq!(m.completed_at, None);
    t.progress_permille = 1000;
    t.status = 6;
    m.update_from_torrent(&t, NOW + 9);
    assert_eq!(m.completed_at, Some(NOW + 9));
    m.update_from_torrent(&t, NOW + 20);
    assert_eq!(m.completed_at, Some(NOW + 9));
    assert_eq!(m.progress_percentage(), 100);
    m.status = "completed".to_string();
    assert!(m.is_completed());
    m.status = "error".to_string();
    assert!(m.is_failed());
}
