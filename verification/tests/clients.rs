use stepheybot_music::clients::retry::should_retry;
use chrono::Datelike;
use stepheybot_music::clients::lidarr::{find_artist_by_mbid, queue_after_add, LidarrClient, LidarrCommand, QueueStep};
use stepheybot_music::clients::listenbrainz::{batch_bounds, ListenBrainzClient, SubmitError};
use stepheybot_music::clients::musicbrainz::{
    front_cover_index, lookup_outcome, CalendarDate, CoverArtImage, Genre, Lookup, MusicBrainzClient, Tag,
};
use stepheybot_music::clients::navidrome::{
    check_subsonic_status, create_playlist_params, playlist_plan, rating_params, NavidromeClient, PlaylistPlan,
    SubsonicError, SubsonicFailure,
};
use stepheybot_music::clients::qbittorrent::{extract_hash_from_magnet, format_bytes, tracked_torrent_id_for};
use stepheybot_music::clients::transmission::{
    check_rpc_result, torrent_hash_from_reply, TorrentInfo, torrent_is_downloading, torrent_is_seeding, torrent_status_string,
    RpcFailure, RpcStep, TransmissionClient,
};

fn ymd(d: Option<chrono::NaiveDate>) -> Option<CalendarDate> {
    d.map(|d| CalendarDate { year: d.year(), month: d.month(), day: d.day() })
}

#[test]
fn test_extract_hash_from_magnet() {
    let magnet = "magnet:?xt=urn:btih:ABCD1234567890ABCDEF1234567890ABCDEF12&dn=test";
    let hash = extract_hash_from_magnet(magnet);
    assert_eq!(hash, Some("ABCD1234567890ABCDEF1234567890ABCDEF12".to_string()));
}

#[test]
fn magnet_hash_is_upper_cased_and_long_enough() {
    let magnet = "magnet:?dn=x&xt=urn:btih:abcdef0123456789abcdef0123456789abcdef01";
    assert_eq!(
        extract_hash_from_magnet(magnet),
        Some("ABCDEF0123456789ABCDEF0123456789ABCDEF01".to_string())
    );
    assert_eq!(extract_hash_from_magnet("magnet:?xt=urn:btih:short&dn=x"), None);
    assert_eq!(extract_hash_from_magnet("not a magnet"), None);
    assert_eq!(tracked_torrent_id_for("nothing", 1700000000), "unknown_1700000000");
}

#[test]
fn test_format_bytes() {
    assert_eq!(format_bytes(1024), "1.00 KB");
    assert_eq!(format_bytes(1024 * 1024), "1.00 MB");
    assert_eq!(format_bytes(1024 * 1024 * 1024), "1.00 GB");
}

#[test]
fn format_bytes_matches_float_formatting() {
    let samples = [
        0u64, 1, 512, 1023, 1152, 1536, 1600, 5000, 123456789, 1u64 << 40, (1u64 << 40) * 3 + 17,
        u64::MAX, u64::MAX - 1023, (1u64 << 53) + 1, 999_999_999_999,
    ];
    for b in samples {
        let mut size = b as f64;
        let mut unit = 0;
        let units = ["B", "KB", "MB", "GB", "TB"];
        while size >= 1024.0 && unit < 4 {
            size /= 1024.0;
            unit += 1;
        }
        assert_eq!(format_bytes(b), format!("{:.2} {}", size, units[unit]), "bytes {}", b);
    }
    assert_eq!(format_bytes(512), "512.00 B");
    assert_eq!(format_bytes(1152), "1.12 KB");
}

#[test]
fn test_torrent_status_string() {
    let mut torrent = TorrentInfo {
        id: 1,
        name: "test".to_string(),
        size: 1000,
        progress_permille: 500,
        download_speed: 100,
        upload_speed: 10,
        status: 4,
        hash: "abc123".to_string(),
        download_dir: "/downloads".to_string(),
        error: "".to_string(),
        eta: 3600,
        ratio_permille: 500,
    };

    assert_eq!(torrent.status_string(), "downloading");
    assert!(torrent.is_downloading());
    assert!(!torrent.is_completed());

    torrent.status = 6;
    torrent.progress_permille = 1000;
    assert_eq!(torrent.status_string(), "seeding");
    assert!(!torrent.is_downloading());
    assert!(torrent.is_completed());
    assert!(torrent.is_seeding());
}

#[test]
fn torrent_status_names() {
    assert_eq!(torrent_status_string(4), "downloading");
    assert!(torrent_is_downloading(4));
    assert_eq!(torrent_status_string(6), "seeding");
    assert!(!torrent_is_downloading(6));
    assert!(torrent_is_seeding(6));
    assert_eq!(torrent_status_string(0), "stopped");
    assert_eq!(torrent_status_string(42), "unknown");
}

#[test]
fn transmission_session_handshake() {
    let mut client = TransmissionClient::new(
        "http://localhost:9091///".to_string(),
        "u".to_string(),
        "p".to_string(),
    );
    assert_eq!(client.base_url, "http://localhost:9091");
    assert_eq!(client.rpc_url(), "http://localhost:9091/transmission/rpc");
    assert!(matches!(client.on_rpc_status(409, Some("abc"), 0), RpcStep::Retry { retries: 1 }));
    assert_eq!(client.session_id.as_deref(), Some("abc"));
    assert!(matches!(client.on_rpc_status(409, Some("def"), 2), RpcStep::Fail(RpcFailure::TooManySessionRetries)));
    assert!(matches!(client.on_rpc_status(409, None, 0), RpcStep::Fail(RpcFailure::Http(409))));
    assert!(matches!(client.on_rpc_status(200, None, 0), RpcStep::ReadBody));
    assert!(check_rpc_result("success").is_ok());
    assert!(matches!(check_rpc_result("duplicate"), Err(RpcFailure::Rpc(m)) if m == "duplicate"));
    assert_eq!(torrent_hash_from_reply(Some(Some("aa")), Some(Some("bb"))), Some("aa".to_string()));
    assert_eq!(torrent_hash_from_reply(None, Some(None)), Some("unknown".to_string()));
    assert_eq!(torrent_hash_from_reply(None, None), None);
}

#[test]
fn lidarr_test_client_creation() {
    let client = LidarrClient::new("http://localhost:8686", "test_api_key");
    assert_eq!(client.base_url, "http://localhost:8686");
    assert_eq!(client.api_key, "test_api_key");
}

#[test]
fn test_create_artist_for_monitoring() {
    let client = LidarrClient::new("http://localhost:8686", "test_key");

    let artist = client.create_artist_for_monitoring("Test Artist", Some("test-mbid"), 1, "/music", true);

    assert_eq!(artist.artist_name, "Test Artist");
    assert_eq!(artist.foreign_artist_id, Some("test-mbid".to_string()));
    assert_eq!(artist.quality_profile_id, Some(1));
    assert_eq!(artist.monitored, Some(true));
}

#[test]
fn lidarr_queue_steps() {
    let client = LidarrClient::new("http://lidarr/", "k");
    assert_eq!(client.base_url, "http://lidarr");
    assert_eq!(client.artist_url(7), "http://lidarr/api/v1/artist/7");
    assert!(matches!(client.queue_first_step(&vec![]), QueueStep::NotFound));
    let found = vec![client.create_artist_for_monitoring("A", Some("m-1"), 3, "/x", false)];
    assert!(matches!(client.queue_first_step(&found), QueueStep::FindExisting(m) if m == "m-1"));
    assert_eq!(find_artist_by_mbid(&found, "m-1"), Some(0));
    assert_eq!(find_artist_by_mbid(&found, "m-2"), None);
    match client.queue_after_lookup(&found[0], None) {
        QueueStep::Add(a) => {
            assert_eq!(a.root_folder_path.as_deref(), Some("/music"));
            assert_eq!(a.monitor_new_items.as_deref(), Some("all"));
        }
        _ => panic!("expected an add"),
    }
    assert!(matches!(queue_after_add(&found[0]), QueueStep::SearchReleases(0)));
    assert_eq!(LidarrCommand::MissingAlbumSearch.name(), "MissingAlbumSearch");
}

#[test]
fn listenbrainz_test_client_creation() {
    let client = ListenBrainzClient::new("https://api.listenbrainz.org", Some("test_token"));
    assert_eq!(client.base_url, "https://api.listenbrainz.org");
    assert!(client.user_token.is_some());
}

#[test]
fn test_create_listen_from_play() {
    let client = ListenBrainzClient::new("https://api.listenbrainz.org", None);
    let now = chrono::Utc::now();

    let listen = client.create_listen_from_play("Test Artist", "Test Track", Some("Test Album"), Some(180000), now.timestamp());

    assert_eq!(listen.track_metadata.artist_name, "Test Artist");
    assert_eq!(listen.track_metadata.track_name, "Test Track");
    assert_eq!(listen.track_metadata.release_name, Some("Test Album".to_string()));
    assert_eq!(listen.listened_at, Some(now.timestamp()));
}

#[test]
fn listenbrainz_addresses_and_batches() {
    let client = ListenBrainzClient::new("https://lb.example/", Some("tok"));
    assert_eq!(client.user_stats_url("bob", Some("week")), "https://lb.example/1/stats/user/bob/artists?range=week");
    assert_eq!(client.recent_listens_url("bob", Some(25)), "https://lb.example/1/user/bob/listens?count=25");
    assert_eq!(client.submission_header(0).ok(), Some(None));
    assert_eq!(client.submission_header(3).ok(), Some(Some("Token tok".to_string())));
    let anonymous = ListenBrainzClient::new("https://lb.example", None);
    assert!(matches!(anonymous.submission_header(1), Err(SubmitError::TokenRequired)));
    assert_eq!(batch_bounds(7, 3), vec![(0, 3), (3, 6), (6, 7)]);
    assert_eq!(batch_bounds(6, 3), vec![(0, 3), (3, 6)]);
    assert!(batch_bounds(0, 5).is_empty());
}

#[test]
fn musicbrainz_test_client_creation() {
    let client = MusicBrainzClient::new("StepheyBot-Music/1.0");
    assert_eq!(client.base_url, "https://musicbrainz.org/ws/2");
    assert_eq!(client.user_agent, "StepheyBot-Music/1.0");
}

#[test]
fn test_parse_release_date() {
    let client = MusicBrainzClient::new("Test/1.0");

    assert_eq!(client.parse_release_date("2023"), ymd(chrono::NaiveDate::from_ymd_opt(2023, 1, 1)));
    assert_eq!(client.parse_release_date("2023-05"), ymd(chrono::NaiveDate::from_ymd_opt(2023, 5, 1)));
    assert_eq!(client.parse_release_date("2023-05-15"), ymd(chrono::NaiveDate::from_ymd_opt(2023, 5, 15)));
    assert_eq!(client.parse_release_date("invalid"), None);
}

#[test]
fn release_dates_that_do_not_exist() {
    let client = MusicBrainzClient::new("Test/1.0");
    assert_eq!(client.parse_release_date("2023-13"), None);
    assert_eq!(client.parse_release_date("2023-02-29"), None);
    assert_eq!(
        client.parse_release_date("2024-02-29"),
        Some(CalendarDate { year: 2024, month: 2, day: 29 })
    );
    assert_eq!(client.parse_release_date("+202"), Some(CalendarDate { year: 202, month: 1, day: 1 }));
}

#[test]
fn test_extract_artist_genres() {
    let client = MusicBrainzClient::new("Test/1.0");
    let genres = Some(vec![
        Genre { id: "1".to_string(), name: "Rock".to_string(), count: Some(10) },
        Genre { id: "2".to_string(), name: "Pop".to_string(), count: Some(5) },
    ]);
    let tags = Some(vec![Tag { name: "alternative rock".to_string(), count: Some(8) }]);

    let genres = client.extract_artist_genres(&genres, &tags);
    assert!(genres.contains(&"Rock".to_string()));
    assert!(genres.contains(&"Pop".to_string()));
    assert!(genres.contains(&"alternative rock".to_string()));
}

#[test]
fn genres_keep_only_frequent_tags() {
    let client = MusicBrainzClient::new("Test/1.0");
    let tags = Some(vec![
        Tag { name: "a".to_string(), count: Some(5) },
        Tag { name: "b".to_string(), count: None },
        Tag { name: "c".to_string(), count: Some(6) },
    ]);
    assert_eq!(client.extract_artist_genres(&None, &tags), vec!["c".to_string()]);
}

#[test]
fn musicbrainz_requests_and_answers() {
    let client = MusicBrainzClient::new("T/1");
    assert_eq!(client.entity_url("artist", "x"), "https://musicbrainz.org/ws/2/artist/x");
    let params = client.lookup_params(Some(&["artist-rels", "url-rels"]));
    assert_eq!(params[1], ("inc".to_string(), "artist-rels+url-rels".to_string()));
    assert_eq!(client.rate_limit_wait(Some(300)), 700);
    assert_eq!(client.rate_limit_wait(None), 0);
    assert!(matches!(lookup_outcome(404), Lookup::Missing));
    assert!(matches!(lookup_outcome(503), Lookup::Failed(503)));
    let image = |front: Option<bool>, url: &str| CoverArtImage {
        id: "i".to_string(),
        image: url.to_string(),
        thumbnails: None,
        front,
        back: None,
        types: None,
        comment: None,
        approved: None,
        edit: None,
    };
    assert_eq!(front_cover_index(&vec![image(None, "a"), image(Some(true), "b")]), Some(1));
    assert_eq!(front_cover_index(&vec![image(Some(false), "a")]), Some(0));
    assert_eq!(front_cover_index(&vec![]), None);
}

#[test]
fn navidrome_test_client_creation() {
    let client = NavidromeClient::new("http://localhost:4533", "admin", "password");
    assert_eq!(client.username, "admin");
    assert!(!client.salt.is_empty());
    assert!(!client.token.is_empty());
}

#[test]
fn navidrome_token_is_md5_of_password_and_salt() {
    let client = NavidromeClient::with_salt("http://nd", "admin", "password", "c19b2d");
    assert_eq!(client.base_url, "http://nd/");
    assert_eq!(client.token, format!("{:x}", md5::compute("passwordc19b2d")));
    let fresh = NavidromeClient::new("http://nd/", "admin", "pw");
    assert_eq!(fresh.salt.len(), 32);
    assert_eq!(fresh.token, format!("{:x}", md5::compute(format!("pw{}", fresh.salt))));
}

#[test]
fn test_url_construction() {
    let client = NavidromeClient::with_salt("http://localhost:4533", "admin", "pw", "s1");
    let url = client.request_url("ping", &vec![]).unwrap();
    assert!(url.contains("u=admin"));
    assert!(url.contains("f=json"));
    assert!(url.starts_with("http://localhost:4533/rest/ping?"));
}

#[test]
fn navidrome_answers_and_parameters() {
    assert!(check_subsonic_status("ok", &None).is_ok());
    let failed = check_subsonic_status("failed", &Some(SubsonicError { code: 40, message: "bad".to_string() }));
    assert!(matches!(failed, Err(SubsonicFailure::Api(40, m)) if m == "bad"));
    assert!(matches!(check_subsonic_status("failed", &None), Err(SubsonicFailure::Unknown)));
    assert!(matches!(rating_params("s", 6), Err(SubsonicFailure::RatingOutOfRange)));
    assert_eq!(rating_params("s", 5).ok().unwrap()[1].1, "5");
    let p = create_playlist_params("mix", &vec!["a".to_string(), "b".to_string()]);
    assert_eq!(p.len(), 3);
    assert_eq!(p[2], ("songId".to_string(), "b".to_string()));
    match playlist_plan(&vec![("x".to_string(), Some(1)), ("mix".to_string(), Some(3))], "mix") {
        PlaylistPlan::Update { index, remove } => {
            assert_eq!(index, 1);
            assert_eq!(remove, vec![0, 1, 2]);
        }
        PlaylistPlan::Create => panic!("expected an update"),
    }
    assert!(matches!(playlist_plan(&vec![], "mix"), PlaylistPlan::Create));
}

#[test]
fn retries_stop_after_the_allowed_number() {
    let tries = (1..).take_while(|&failed| should_retry(failed, 3)).count() + 1;
    assert_eq!(tries, 4);
    assert!(should_retry(1, 3));
    assert!(should_retry(3, 3));
    assert!(!should_retry(4, 3));
    assert!(!should_retry(1, 0));
}
