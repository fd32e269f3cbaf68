use stepheybot_music::config::{validate_endpoints, ConfigError, LidarrConfig, ListenBrainzConfig, NavidromeConfig, ServerConfig};
use stepheybot_music::database::{is_busy_code, retry_step, RetryStep};
use stepheybot_music::environment::Environment;
use stepheybot_music::handlers::{
    add_artist_request_body, after_add, after_artist_search, available_endpoints, direct_download_request, direct_reply,
    entity_action, entity_request_id, fallback_reply, AddAttempt, ArtistSearch, LidarrCandidate, MonitorStep,
    format_duration, forwarded_header, library_counts, monitoring_reply, quick_mix_tracks, read_download_request,
    recommendation_label, total_duration, AddArtistRequest, DownloadPayload, EntityAction, FallbackReply,
    MonitorOutcome,
};
use stepheybot_music::lidarr_addon::{create_lidarr_addon, is_lidarr_configured, lidarr_setup, lidarr_totals, ArtistTally, LidarrAddon};
use stepheybot_music::navidrome_addon::{
    create_navidrome_addon, extract_attribute, is_navidrome_configured, library_stats_from, library_tracks,
    parse_random_tracks, search_answer_tracks, NavidromeAddon, ProbeOutcome, SimpleLibraryStats,
};
use stepheybot_music::search::{
    album_context_of, album_hit, artist_hits, distinct_sources, downloadable_releases, official_homepages, ArtistRelation, external_searches, musicbrainz_search_url,
    recording_hit, release_hits, runs_external_search, year_from_date, AlbumRecord, ArtistRecord, RecordingRecord,
    ReleaseRecord, SearchKind,
};
use stepheybot_music::storage::{
    create_storage_manager, is_audio_file, is_music_file_extension, is_partial_download_of, offload_destination,
    path_extension, StorageConfig, StorageManager,
};

fn env(pairs: &[(&str, &str)]) -> Environment {
    Environment { vars: pairs.iter().map(|(k, v)| (k.to_string(), v.to_string())).collect() }
}

#[test]
fn test_extract_attribute() {
    let xml = r#"<song id="Tqfet74Vd1rPK3O6AWRbAd" title="Ouch" artist="Kah-Lo" album="The Arrival" duration="201">"#;
    assert_eq!(extract_attribute(xml, "id"), Some("Tqfet74Vd1rPK3O6AWRbAd".to_string()));
    assert_eq!(extract_attribute(xml, "title"), Some("Ouch".to_string()));
    assert_eq!(extract_attribute(xml, "artist"), Some("Kah-Lo".to_string()));
    assert_eq!(extract_attribute(xml, "duration"), Some("201".to_string()));
    assert_eq!(extract_attribute(xml, "nonexistent"), None);
}

#[test]
fn attribute_needs_a_closing_quote() {
    assert_eq!(extract_attribute(r#"a="1" b="2"#, "b"), None);
    assert_eq!(extract_attribute(r#"x="" y="z""#, "x"), Some(String::new()));
    // The name is part of a regular expression: `.` stands for any character.
    assert_eq!(extract_attribute(r#"ab="1""#, "a."), Some("1".to_string()));
    assert_eq!(extract_attribute(r#"ab="1""#, "("), None);
}

#[test]
fn random_tracks_from_xml() {
    let xml = r#"<subsonic-response><randomSongs><song id="1" title="One" artist="A" album="X" duration="61" year="1999" genre="Rock"/><song title="Two" duration="oops"/><song></song><song id="3"/></randomSongs></subsonic-response>"#;
    let tracks = parse_random_tracks(xml, 10);
    assert_eq!(tracks.len(), 3);
    assert_eq!(tracks[0].id, "1");
    assert_eq!(tracks[0].duration, 61);
    assert_eq!(tracks[0].year, Some(1999));
    assert_eq!(tracks[0].genre.as_deref(), Some("Rock"));
    assert_eq!(tracks[1].id, "unknown_1");
    assert_eq!(tracks[1].artist, "Unknown Artist");
    assert_eq!(tracks[1].duration, 0);
    assert_eq!(tracks[2].id, "3");
    assert_eq!(tracks[2].title, "Unknown Title");
    assert_eq!(parse_random_tracks(xml, 2).len(), 2);
    assert!(parse_random_tracks(xml, 0).is_empty());
    assert!(parse_random_tracks("<a/>", 5).is_empty());
}

#[test]
fn library_counts_from_artist_tags() {
    let stats = library_stats_from(r#"<artists><artist id="1"/><artist id="2"/></artists>"#);
    assert_eq!(stats.artists, 3);
    assert_eq!(stats.albums, 9);
    assert_eq!(stats.songs, 90);
    assert_eq!(stats.source, "navidrome");
}

#[test]
fn navidrome_addon_test_addon_creation() {
    let addon = NavidromeAddon::from_env(&env(&[]));
    assert!(!addon.url.is_empty() || !addon.enabled);
}

#[test]
fn lidarr_addon_test_addon_creation() {
    let addon = LidarrAddon::from_env(&env(&[]));
    assert!(!addon.url.is_empty() || !addon.enabled);
}

#[test]
fn navidrome_addon_creation() {
    let addon = NavidromeAddon::from_env(&env(&[]));
    assert!(!addon.url.is_empty() || !addon.enabled);
    assert!(!is_navidrome_configured(&env(&[("NAVIDROME_URL", "http://n")])));
    let e = env(&[
        ("NAVIDROME_URL", "http://fallback"),
        ("STEPHEYBOT__NAVIDROME__URL", "http://n"),
        ("NAVIDROME_USERNAME", "u"),
        ("NAVIDROME_PASSWORD", "p"),
    ]);
    let addon = create_navidrome_addon(&e);
    assert_eq!(addon.url, "http://n");
    assert!(addon.enabled);
    assert!(is_navidrome_configured(&e));
    let info = addon.connection_info(Some(&ProbeOutcome::Answered { success: false, status: "404 Not Found".to_string() }));
    assert!(info.enabled && !info.connected);
    assert_eq!(info.error.as_deref(), Some("HTTP 404 Not Found"));
    let off = NavidromeAddon::from_env(&env(&[])).connection_info(None);
    assert_eq!(off.error.as_deref(), Some("Navidrome not configured"));
    let token = format!("{:x}", md5::compute("prandomsalt"));
    assert_eq!(
        addon.random_songs_url(7),
        format!("http://n/rest/getRandomSongs?u=u&t={}&s=randomsalt&v=1.16.1&c=StepheyBot-Music&size=7", token)
    );
}

#[test]
fn lidarr_addon_creation() {
    let addon = LidarrAddon::from_env(&env(&[]));
    assert!(!addon.url.is_empty() || !addon.enabled);
    let e = env(&[("LIDARR_URL", "http://l"), ("LIDARR_API_KEY", "k")]);
    assert!(is_lidarr_configured(&e));
    let addon = create_lidarr_addon(&e);
    assert_eq!(addon.search_url("Daft Punk & co"), "http://l/api/v1/artist/lookup?term=Daft%20Punk%20%26%20co");
    assert!(addon.require_enabled().is_ok());
    assert_eq!(LidarrAddon::from_env(&env(&[])).require_enabled().unwrap_err(), "Lidarr not configured");
}

#[test]
fn lidarr_library_totals() {
    let t = lidarr_totals(&vec![
        ArtistTally { monitored: Some(true), album_count: Some(2), track_file_count: Some(20), size_on_disk: Some(100) },
        ArtistTally { monitored: None, album_count: None, track_file_count: Some(1), size_on_disk: None },
        ArtistTally { monitored: Some(false), album_count: Some(3), track_file_count: None, size_on_disk: Some(5) },
    ]);
    assert_eq!((t.total_artists, t.monitored_artists), (3, 1));
    assert_eq!((t.total_albums, t.total_tracks, t.total_size), (5, 21, 105));
}

#[test]
fn storage_settings_and_files() {
    let d = StorageConfig::default();
    assert_eq!(d.hot_downloads_path, "/hot_downloads");
    assert_eq!(d.offload_delay_seconds, 300);
    let m = StorageManager::new(d.clone());
    assert!(m.monitor_enabled());
    let m = create_storage_manager(&env(&[
        ("STEPHEYBOT__STORAGE__AUTO_OFFLOAD", "no"),
        ("STEPHEYBOT__STORAGE__OFFLOAD_DELAY", "60"),
        ("STEPHEYBOT__PATHS__COLD_DOWNLOAD_PATH", "/cold/"),
    ]));
    assert!(m.settings().auto_offload);
    assert_eq!(m.settings().offload_delay_seconds, 60);
    assert_eq!(offload_destination(m.settings(), "a.mp3"), "/cold/a.mp3");
    assert_eq!(offload_destination(&d, "a.mp3"), "/cold_downloads/a.mp3");
    assert!(is_music_file_extension("song.FLAC"));
    assert!(is_music_file_extension("dir/song.opus"));
    assert!(!is_music_file_extension("notes.txt"));
    assert!(!is_music_file_extension(".mp3"));
    assert!(is_audio_file("x/y.M4A"));
    assert!(!is_audio_file("x/y.wma"));
    assert_eq!(path_extension("a/b.tar.gz/"), Some("gz".to_string()));
    assert_eq!(path_extension("a/.."), None);
    assert_eq!(path_extension("a/b."), Some(String::new()));
    assert!(is_partial_download_of("song.mp3.part", "song.mp3"));
    assert!(!is_partial_download_of("song.mp3", "song.mp3"));
}

#[test]
fn database_retry_rule() {
    assert!(matches!(retry_step(1, true), RetryStep::RetryAfter(100)));
    assert!(matches!(retry_step(2, true), RetryStep::RetryAfter(200)));
    assert!(matches!(retry_step(3, true), RetryStep::GiveUp));
    assert!(matches!(retry_step(1, false), RetryStep::GiveUp));
    assert!(is_busy_code(Some("5")));
    assert!(!is_busy_code(Some("6")));
    assert!(!is_busy_code(None));
}

#[test]
fn test_config_validation() {
    let server = ServerConfig { address: "0.0.0.0".to_string(), port: 8080, enable_admin_api: true, request_timeout: 30 };
    let navidrome = NavidromeConfig {
        url: "http://localhost:4533".to_string(),
        username: "admin".to_string(),
        password: "password".to_string(),
        timeout: 30,
        verify_ssl: true,
    };
    let listenbrainz = ListenBrainzConfig { url: "https://api.listenbrainz.org".to_string(), token: None, timeout: 30, rate_limit: 60 };
    let lidarr = LidarrConfig {
        url: "http://localhost:8686".to_string(),
        api_key: "test_key".to_string(),
        timeout: 30,
        enable_downloads: true,
        quality_profile_id: 1,
    };
    assert!(validate_endpoints(&server, &navidrome, &listenbrainz, &lidarr).is_ok());
    let zero = ServerConfig { port: 0, ..server.clone() };
    assert!(matches!(validate_endpoints(&zero, &navidrome, &listenbrainz, &lidarr), Err(ConfigError::ZeroPort)));
    let bad = NavidromeConfig { url: "not-a-url".to_string(), ..navidrome.clone() };
    assert!(matches!(validate_endpoints(&server, &bad, &listenbrainz, &lidarr), Err(ConfigError::InvalidNavidromeUrl)));
}

#[test]
fn search_hits_from_records() {
    let artist = |name: Option<&str>| ArtistRecord {
        name: name.map(|s| s.to_string()),
        id: Some("a1".to_string()),
        disambiguation: None,
        country: Some("GB".to_string()),
        life_span_begin: Some("1985-03".to_string()),
        artist_type: Some("Group".to_string()),
        tag_names: Some(vec!["rock".to_string(), "pop".to_string(), "indie".to_string(), "jazz".to_string()]),
        alias_names: None,
        homepages: vec!["h1".to_string(), "h2".to_string(), "h3".to_string()],
        score: Some(90),
    };
    let hits = artist_hits(&vec![artist(Some("A")), artist(None), artist(Some("B")), artist(Some("C")), artist(Some("D")), artist(Some("E"))]);
    assert_eq!(hits.len(), 4);
    assert_eq!(hits[0].id, "musicbrainz_artist_a1");
    assert_eq!(hits[0].album, "Group (GB)");
    assert_eq!(hits[0].year, Some(1985));
    assert_eq!(hits[0].genre, "rock, pop, indie");
    assert_eq!(hits[0].external_urls, vec!["h1".to_string(), "h2".to_string()]);
    assert_eq!(hits[3].name, "D");
    let album = album_hit(&AlbumRecord {
        title: Some("T".to_string()),
        id: Some("r".to_string()),
        primary_type: None,
        secondary_types: Some(vec!["Live".to_string(), "Compilation".to_string()]),
        first_artist_name: None,
        first_release_date: Some("".to_string()),
        score: None,
    })
    .unwrap();
    assert_eq!(album.genre, "Album (Live, Compilation)");
    assert_eq!(album.artist, "Unknown Artist");
    assert_eq!(album.year, None);
    let rec = recording_hit(&RecordingRecord {
        title: Some("S".to_string()),
        id: Some("x".to_string()),
        first_artist_name: Some("P".to_string()),
        length_ms: Some(215_999),
        first_release_title: None,
        first_release_date: Some("2001-02-03".to_string()),
        score: Some(1),
        isrcs: None,
        tag_names: None,
    })
    .unwrap();
    assert_eq!((rec.duration, rec.year, rec.album.as_str(), rec.genre.as_str()), (Some(215), Some(2001), "Single", "Recording"));
    assert_eq!(year_from_date("abcd-01"), None);
    assert_eq!(album_context_of("", "", "Person"), "Person");
    assert_eq!(album_context_of("the band", "US", "Group"), "the band");
}

#[test]
fn lidarr_releases_filtered_by_query() {
    let rel = |title: &str, artist: &str| ReleaseRecord {
        title: Some(title.to_string()),
        artist_name: Some(artist.to_string()),
        quality: Some("FLAC".to_string()),
        album_title: Some(title.to_string()),
        size: Some(5 * 1024 * 1024 + 7),
        seeders: None,
        leechers: Some(2),
        magnet_url: None,
        indexer: None,
        guid: Some("g".to_string()),
    };
    let mut all: Vec<ReleaseRecord> = (0..12).map(|i| rel(&format!("Album {}", i), "Daft PUNK")).collect();
    all.insert(0, rel("Other", "Someone"));
    let hits = release_hits(&all, "punk");
    assert_eq!(hits.len(), 10);
    assert_eq!(hits[0].album, "Album 0");
    assert_eq!(hits[0].title, "Album 0 [FLAC]");
    assert_eq!(hits[0].size_mb, 5);
    assert_eq!(hits[0].id, "lidarr_g");
    assert_eq!(release_hits(&all, "other").len(), 1);
}

#[test]
fn search_plan_and_addresses() {
    assert_eq!(external_searches("track"), vec![SearchKind::Recording]);
    assert_eq!(external_searches("anything"), vec![SearchKind::Artist, SearchKind::Album]);
    assert!(runs_external_search("global") && runs_external_search("external"));
    assert!(!runs_external_search("local"));
    assert_eq!(
        musicbrainz_search_url(SearchKind::Artist, "Björk"),
        "https://musicbrainz.org/ws/2/artist?query=artist%3ABj%C3%B6rk&limit=10&fmt=json&inc=aliases+tags+ratings+url-rels+artist-rels"
    );
    let s = distinct_sources(&vec!["local".to_string(), "lidarr".to_string(), "local".to_string()]);
    assert_eq!(s, vec!["local".to_string(), "lidarr".to_string()]);
}

#[test]
fn download_requests() {
    let p = DownloadPayload {
        title: None,
        artist: Some("Artist".to_string()),
        album: None,
        external_id: Some("lidarr:magnet:?xt=urn:btih:abc".to_string()),
        source: None,
        bypass_monitoring: None,
    };
    let info = read_download_request(&p);
    assert_eq!(info.title, "Unknown");
    assert_eq!(info.source, "unknown");
    assert!(!info.direct);
    assert_eq!(info.magnet_url, "magnet:?xt=urn:btih:abc");
    let direct = DownloadPayload { external_id: Some("magnet:?x".to_string()), ..p };
    assert!(read_download_request(&direct).direct);
    let r = monitoring_reply("T", "A", MonitorOutcome::SearchTimedOut);
    assert!(r.success && !r.artist_added);
    assert_eq!(r.message, "Download queued for T by A (search timeout)");
    assert_eq!(r.status, "queued_without_monitoring");
    let r = monitoring_reply("T", "A", MonitorOutcome::Added);
    assert_eq!(r.message, "Download request submitted for T by A");
    assert_eq!(r.status, "monitoring");
    assert_eq!(direct_reply("T", "A", Err("disk full")).message, "Failed to queue download: disk full");
    assert_eq!(direct_reply("T", "A", Ok(())).message, "Download queued for T by A (direct download)");
    assert!(matches!(entity_action(Some("artist")), EntityAction::Monitor));
    assert!(matches!(entity_action(None), EntityAction::FindReleases));
    assert!(matches!(entity_action(Some("video")), EntityAction::Unsupported));
    assert_eq!(entity_request_id("m", 1700000000), "mb_m_1700000000");
}

#[test]
fn add_artist_requests() {
    let on = create_lidarr_addon(&env(&[("LIDARR_URL", "http://l"), ("LIDARR_API_KEY", "k")]));
    let req = AddArtistRequest {
        foreign_artist_id: Some("mbid".to_string()),
        artist_name: None,
        quality_profile_id: Some((1u64 << 32) + 4),
        metadata_profile_id: None,
        root_folder_path: None,
    };
    let body = add_artist_request_body(&on, &req).ok().unwrap();
    assert_eq!(body.artist_name, "Unknown Artist");
    assert_eq!(body.quality_profile_id, 4);
    assert_eq!(body.metadata_profile_id, 1);
    assert_eq!(body.root_folder_path, "/music");
    let missing = AddArtistRequest { foreign_artist_id: None, ..req };
    assert_eq!(add_artist_request_body(&on, &missing).err().unwrap(), "Missing foreignArtistId in request");
}

#[test]
fn uptime_and_labels() {
    assert_eq!(format_duration(59), "59s");
    assert_eq!(format_duration(61), "1m 1s");
    assert_eq!(format_duration(3601), "1h 0m 1s");
    assert_eq!(format_duration(90061), "1d 1h 1m 1s");
    let l = recommendation_label(4);
    assert_eq!(l.id, "rec_5");
    assert_eq!(l.kind, "content");
    assert_eq!(l.reason, "Perfect match for your current mood");
    let lines = available_endpoints(8080);
    assert_eq!(lines[1], "   Health Check:     http://127.0.0.1:8080/api/health");
    assert_eq!(lines.len(), 16);
}

#[test]
fn downloadable_releases_for_an_entity() {
    let rel = |title: &str, artist: &str, guid: Option<&str>| ReleaseRecord {
        title: Some(title.to_string()),
        artist_name: Some(artist.to_string()),
        quality: None,
        album_title: None,
        size: Some(3 * 1024 * 1024 + 5),
        seeders: Some(9),
        leechers: None,
        magnet_url: Some("magnet:?xt=urn:btih:X".to_string()),
        indexer: Some("Idx".to_string()),
        guid: guid.map(|g| g.to_string()),
    };
    let mut all = vec![rel("Unrelated", "Someone", Some("a")), rel("Discovery", "Other", None)];
    for i in 0..6 {
        all.push(rel(&format!("Live {}", i), "DAFT Punk", Some("g")));
    }
    let found = downloadable_releases(&all, "discovery", "daft punk");
    assert_eq!(found.len(), 5);
    assert_eq!(found[0].title, "Discovery");
    assert_eq!(found[0].id, "");
    assert_eq!(found[0].quality, "Unknown");
    assert_eq!(found[0].size_mb, 3);
    assert_eq!(found[0].seeders, 9);
    assert_eq!(found[0].indexer, "Idx");
    assert_eq!(found[0].magnet_url.as_deref(), Some("magnet:?xt=urn:btih:X"));
    assert_eq!(found[1].title, "Live 0");
    assert_eq!(found[4].title, "Live 3");
    assert!(downloadable_releases(&all, "nothing", "nobody").is_empty());
}

#[test]
fn lidarr_setup_from_first_entries() {
    let setup = lidarr_setup(Some(4), Some((1u64 << 32) + 7), Some("/music")).unwrap();
    assert_eq!(setup.quality_profile_id, 4);
    assert_eq!(setup.metadata_profile_id, 7);
    assert_eq!(setup.root_folder_path, "/music");
    assert_eq!(lidarr_setup(None, Some(1), Some("/m")).err().unwrap(), "No quality profiles found");
    assert_eq!(lidarr_setup(Some(1), None, None).err().unwrap(), "No metadata profiles found");
    assert_eq!(lidarr_setup(Some(1), Some(2), None).err().unwrap(), "No root folders found");
}

#[test]
fn navidrome_stream_and_search_addresses() {
    let e = env(&[
        ("STEPHEYBOT__NAVIDROME__URL", "http://n"),
        ("NAVIDROME_USERNAME", "u"),
        ("NAVIDROME_PASSWORD", "p"),
    ]);
    let addon = create_navidrome_addon(&e);
    let token = format!("{:x}", md5::compute("prandomsalt"));
    let auth = format!("u=u&t={}&s=randomsalt&v=1.16.1&c=StepheyBot-Music", token);
    assert_eq!(addon.track_stream_url("t1"), format!("http://n/rest/stream?{}&id=t1", auth));
    assert_eq!(addon.search_songs_url("a b&c"), format!("http://n/rest/search3?{}&query=a%20b%26c", auth));
}

#[test]
fn library_search_tracks_from_song_elements() {
    let xml = r#"<searchResult3><song id="s1" title="One" artist="A" album="B" duration="201" year="1999" genre="Pop"/><song id="s2" title="Two" artist="C" album="D" duration="x"/></searchResult3>"#;
    let tracks = search_answer_tracks(xml);
    assert_eq!(tracks.len(), 2);
    assert_eq!(tracks[0].id, "s1");
    assert_eq!(tracks[0].title, "One");
    assert_eq!(tracks[0].duration, 201);
    // The greedy `[^>]*` before the optional year and genre groups leaves them empty.
    assert_eq!(tracks[0].year, None);
    assert_eq!(tracks[0].genre, "Unknown");
    assert_eq!(tracks[0].stream_url, "/api/v1/stream/s1");
    assert_eq!(tracks[1].duration, 0);
    assert_eq!(tracks[1].year, None);
    assert_eq!(tracks[1].genre, "Unknown");
    assert!(search_answer_tracks("<nothing/>").is_empty());
    let groups = vec![vec![Some("whole".to_string()), None]];
    let t = library_tracks(&groups);
    assert_eq!(t[0].id, "unknown");
    assert_eq!(t[0].title, "Unknown Title");
    assert_eq!(t[0].artist, "Unknown Artist");
    assert_eq!(t[0].album, "Unknown Album");
    assert_eq!(t[0].navidrome_id, "unknown");
    let full: Vec<Option<String>> =
        ["m", "i", "T", "A", "L", "+42", "1999", "Jazz"].iter().map(|x| Some(x.to_string())).collect();
    let t = library_tracks(&vec![full]);
    assert_eq!((t[0].duration, t[0].year, t[0].genre.as_str()), (42, Some(1999), "Jazz"));
}

#[test]
fn unknown_paths_and_stream_headers() {
    match fallback_reply("/api/v9/x") {
        FallbackReply::ApiNotFound(m) => assert_eq!(m, "API endpoint /api/v9/x not found"),
        FallbackReply::Frontend => panic!("an API path gets a JSON 404"),
    }
    assert!(matches!(fallback_reply("/library"), FallbackReply::Frontend));
    assert!(matches!(fallback_reply("/api"), FallbackReply::Frontend));
    assert!(forwarded_header("content-type"));
    assert!(forwarded_header("accept-ranges"));
    assert!(!forwarded_header("set-cookie"));
}

#[test]
fn library_counts_and_quick_mix() {
    let stats = SimpleLibraryStats { artists: 2, albums: 6, songs: 60, source: "navidrome".to_string() };
    let c = library_counts(Some(&stats));
    assert_eq!((c.total_tracks, c.total_albums, c.total_artists, c.mock), (60, 6, 2, false));
    let m = library_counts(None);
    assert_eq!((m.total_tracks, m.total_albums, m.total_artists, m.source.as_str()), (1250, 89, 67, "mock"));
    let mix = quick_mix_tracks();
    assert_eq!(mix.len(), 3);
    assert_eq!(mix[1].title, "Neon Velocity");
    assert_eq!(total_duration(&mix), 699);
}

#[test]
fn direct_download_builds_the_request_record() {
    let info = read_download_request(&DownloadPayload {
        title: Some("Song".to_string()),
        artist: None,
        album: Some("Record".to_string()),
        external_id: Some("lidarr:magnet:?xt=urn:btih:ABC".to_string()),
        source: None,
        bypass_monitoring: Some(true),
    });
    let r = direct_download_request(&info, 1_700_000_000);
    assert!(uuid::Uuid::parse_str(&r.id).is_ok());
    assert_eq!(r.user_id, "system");
    assert_eq!(r.status, "queued");
    assert_eq!(r.artist_name, "Unknown");
    assert_eq!(r.track_title, "Song");
    assert_eq!(r.album_title.as_deref(), Some("Record"));
    assert_eq!(r.magnet_url.as_deref(), Some("magnet:?xt=urn:btih:ABC"));
    assert_eq!(r.torrent_hash, None);
    assert_eq!(r.requested_at, 1_700_000_000);
}

#[test]
fn monitoring_steps() {
    assert!(matches!(after_artist_search(ArtistSearch::TimedOut), MonitorStep::Report(MonitorOutcome::SearchTimedOut)));
    assert!(matches!(after_artist_search(ArtistSearch::Failed), MonitorStep::Report(MonitorOutcome::SearchFailed)));
    assert!(matches!(after_artist_search(ArtistSearch::Found(vec![])), MonitorStep::Report(MonitorOutcome::ArtistNotFound)));
    let found = vec![
        LidarrCandidate { foreign_artist_id: Some("mb1".to_string()), artist_name: Some("First".to_string()) },
        LidarrCandidate { foreign_artist_id: Some("mb2".to_string()), artist_name: Some("Second".to_string()) },
    ];
    match after_artist_search(ArtistSearch::Found(found)) {
        MonitorStep::Add(req) => {
            assert_eq!(req.foreign_artist_id.as_deref(), Some("mb1"));
            assert_eq!(req.artist_name.as_deref(), Some("First"));
            assert!(req.quality_profile_id.is_none() && req.metadata_profile_id.is_none() && req.root_folder_path.is_none());
        }
        MonitorStep::Report(_) => panic!("the first artist found is added"),
    }
    assert!(matches!(after_add(AddAttempt::Refused), MonitorOutcome::AddFailed));
    assert!(matches!(after_add(AddAttempt::TimedOut), MonitorOutcome::AddTimedOut));
    assert!(matches!(after_add(AddAttempt::Failed), MonitorOutcome::AddFailed));
    assert!(matches!(after_add(AddAttempt::Added), MonitorOutcome::Added));
}

#[test]
fn artist_homepages_from_relations() {
    let rel = |t: Option<&str>, u: Option<&str>| ArtistRelation {
        relation_type: t.map(|s| s.to_string()),
        url_resource: u.map(|s| s.to_string()),
    };
    let rels = vec![
        rel(Some("wikidata"), Some("https://w")),
        rel(Some("official homepage"), Some("https://a")),
        rel(Some("official homepage"), None),
        rel(None, Some("https://x")),
        rel(Some("official homepage"), Some("https://b")),
    ];
    assert_eq!(official_homepages(&rels), vec!["https://a".to_string(), "https://b".to_string()]);
    assert!(official_homepages(&vec![]).is_empty());
}
