//! Configuration sections, their default values, and the validation of the
//! server port and service URLs.
use vstd::prelude::*;
use crate::text::owned;

verus! {

/// HTTP server settings.
#[derive(Debug, Clone)]
pub struct ServerConfig {
    pub address: String,
    pub port: u16,
    pub enable_admin_api: bool,
    pub request_timeout: u64,
}

/// Database settings.
#[derive(Debug, Clone)]
pub struct DatabaseConfig {
    pub url: String,
    pub max_connections: u32,
    pub connection_timeout: u64,
}

/// Navidrome integration settings.
#[derive(Debug, Clone)]
pub struct NavidromeConfig {
    pub url: String,
    pub username: String,
    pub password: String,
    pub timeout: u64,
    pub verify_ssl: bool,
}

/// ListenBrainz integration settings.
#[derive(Debug, Clone)]
pub struct ListenBrainzConfig {
    pub url: String,
    pub token: Option<String>,
    pub timeout: u64,
    pub rate_limit: u32,
}

/// Lidarr integration settings.
#[derive(Debug, Clone)]
pub struct LidarrConfig {
    pub url: String,
    pub api_key: String,
    pub timeout: u64,
    pub enable_downloads: bool,
    pub quality_profile_id: u32,
}

/// File system paths.
#[derive(Debug, Clone)]
pub struct PathsConfig {
    pub music_path: String,
    pub download_path: String,
    pub cache_path: String,
    pub database_path: String,
    pub log_path: String,
}

/// Background task settings (intervals in seconds).
#[derive(Debug, Clone)]
pub struct TasksConfig {
    pub sync_interval: u64,
    pub recommendation_interval: u64,
    pub library_scan_interval: u64,
    pub cleanup_interval: u64,
    pub enable_background_tasks: bool,
}

/// Logging settings.
#[derive(Debug, Clone)]
pub struct LoggingConfig {
    pub level: String,
    pub json: bool,
    pub file: bool,
    pub rotation_size: u64,
    pub retention: u32,
}

pub fn default_server_address() -> (r: String)
    ensures
        r@ == "0.0.0.0"@,
{
    owned("0.0.0.0")
}

pub fn default_server_port() -> (r: u16)
    ensures
        r == 8080,
{
    8080
}

pub fn default_true() -> (r: bool)
    ensures
        r,
{
    true
}

pub fn default_false() -> (r: bool)
    ensures
        !r,
{
    false
}

pub fn default_request_timeout() -> (r: u64)
    ensures
        r == 30,
{
    30
}

pub fn default_database_url() -> (r: String)
    ensures
        r@ == "sqlite:data/stepheybot-music.db"@,
{
    owned("sqlite:data/stepheybot-music.db")
}

pub fn default_max_connections() -> (r: u32)
    ensures
        r == 10,
{
    10
}

pub fn default_db_timeout() -> (r: u64)
    ensures
        r == 30,
{
    30
}

pub fn default_api_timeout() -> (r: u64)
    ensures
        r == 30,
{
    30
}

pub fn default_listenbrainz_url() -> (r: String)
    ensures
        r@ == "https://api.listenbrainz.org"@,
{
    owned("https://api.listenbrainz.org")
}

pub fn default_listenbrainz_rate_limit() -> (r: u32)
    ensures
        r == 60,
{
    60
}

pub fn default_quality_profile() -> (r: u32)
    ensures
        r == 1,
{
    1
}

pub fn default_musicbrainz_user_agent() -> (r: String)
    ensures
        r@ == "StepheyBot-Music/1.0 (https://stepheybot.dev)"@,
{
    owned("StepheyBot-Music/1.0 (https://stepheybot.dev)")
}

pub fn default_cache_path() -> (r: String)
    ensures
        r@ == "data/cache"@,
{
    owned("data/cache")
}

pub fn default_db_path() -> (r: String)
    ensures
        r@ == "data/stepheybot-music.db"@,
{
    owned("data/stepheybot-music.db")
}

pub fn default_log_path() -> (r: String)
    ensures
        r@ == "data/logs"@,
{
    owned("data/logs")
}

pub fn default_sync_interval() -> (r: u64)
    ensures
        r == 3600,
{
    3600
}

pub fn default_recommendation_interval() -> (r: u64)
    ensures
        r == 86400,
{
    86400
}

pub fn default_library_scan_interval() -> (r: u64)
    ensures
        r == 1800,
{
    1800
}

pub fn default_cleanup_interval() -> (r: u64)
    ensures
        r == 43200,
{
    43200
}

pub fn default_recommendations_count() -> (r: u32)
    ensures
        r == 50,
{
    50
}

pub fn default_min_listening_history() -> (r: u32)
    ensures
        r == 10,
{
    10
}

pub fn default_log_level() -> (r: String)
    ensures
        r@ == "info"@,
{
    owned("info")
}

pub fn default_log_rotation_size() -> (r: u64)
    ensures
        r == 100,
{
    100
}

pub fn default_log_retention() -> (r: u32)
    ensures
        r == 7,
{
    7
}

/// Whether `url::Url::parse` accepts the text as an absolute URL.
pub uninterp spec fn url_parses(s: Seq<char>) -> bool;

/// `url::Url::parse(s).is_ok()`: the contract names the result; the WHATWG URL
/// grammar is not restated.
#[verifier::external_body]
pub(crate) fn is_parsable_url(s: &str) -> (r: bool)
    ensures
        r == url_parses(s@),
{
    url::Url::parse(s).is_ok()
}

/// Why a configuration is refused.
#[derive(Debug, Clone, Copy, PartialEq, Eq, Structural)]
pub enum ConfigError {
    ZeroPort,
    InvalidNavidromeUrl,
    InvalidListenBrainzUrl,
    InvalidLidarrUrl,
}

impl ConfigError {
    /// The message that reports the refusal.
    pub fn message(&self) -> (r: String)
        ensures
            r@ == match *self {
                ConfigError::ZeroPort => "Server port cannot be 0"@,
                ConfigError::InvalidNavidromeUrl => "Invalid Navidrome URL"@,
                ConfigError::InvalidListenBrainzUrl => "Invalid ListenBrainz URL"@,
                ConfigError::InvalidLidarrUrl => "Invalid Lidarr URL"@,
            },
    {
        match self {
            ConfigError::ZeroPort => owned("Server port cannot be 0"),
            ConfigError::InvalidNavidromeUrl => owned("Invalid Navidrome URL"),
            ConfigError::InvalidListenBrainzUrl => owned("Invalid ListenBrainz URL"),
            ConfigError::InvalidLidarrUrl => owned("Invalid Lidarr URL"),
        }
    }
}

/// The first check that refuses the settings, in the order port, Navidrome URL,
/// ListenBrainz URL, Lidarr URL.
pub open spec fn endpoint_verdict(
    port: u16,
    navidrome_url: Seq<char>,
    listenbrainz_url: Seq<char>,
    lidarr_url: Seq<char>,
) -> Result<(), ConfigError> {
    if port == 0 {
        Err(ConfigError::ZeroPort)
    } else if !url_parses(navidrome_url) {
        Err(ConfigError::InvalidNavidromeUrl)
    } else if !url_parses(listenbrainz_url) {
        Err(ConfigError::InvalidListenBrainzUrl)
    } else if !url_parses(lidarr_url) {
        Err(ConfigError::InvalidLidarrUrl)
    } else {
        Ok(())
    }
}

/// Validates the server port and the three service URLs (the first part of
/// validating a configuration; directories and weights are checked after it).
pub fn validate_endpoints(
    server: &ServerConfig,
    navidrome: &NavidromeConfig,
    listenbrainz: &ListenBrainzConfig,
    lidarr: &LidarrConfig,
) -> (r: Result<(), ConfigError>)
    ensures
        r == endpoint_verdict(server.port, navidrome.url@, listenbrainz.url@, lidarr.url@),
{
    if server.port == 0 {
        return Err(ConfigError::ZeroPort);
    }
    if !is_parsable_url(navidrome.url.as_str()) {
        return Err(ConfigError::InvalidNavidromeUrl);
    }
    if !is_parsable_url(listenbrainz.url.as_str()) {
        return Err(ConfigError::InvalidListenBrainzUrl);
    }
    if !is_parsable_url(lidarr.url.as_str()) {
        return Err(ConfigError::InvalidLidarrUrl);
    }
    Ok(())
}

} // verus!
