//! User accounts, profiles, roles and the validation rules for user data.
use vstd::prelude::*;
use crate::text::{chars_eq, chars_of, owned, string_of, utf8_len};

verus! {

/// Core user account linked to Keycloak SSO.
#[derive(Debug, Clone)]
pub struct User {
    pub id: i64,
    pub keycloak_id: String,
    pub username: String,
    pub email: String,
    pub display_name: Option<String>,
    pub created_at: i64,
    pub last_active: i64,
    pub is_active: bool,
    pub preferences_json: String,
}

/// Seconds in `days` days.
pub open spec fn days_in_seconds(days: int) -> int {
    days * 24 * 60 * 60
}

impl User {
    /// Display name, or the username where there is none.
    pub fn display_name_or_username(&self) -> (r: &str)
        ensures
            r@ == match self.display_name {
                Some(d) => d@,
                None => self.username@,
            },
    {
        match &self.display_name {
            Some(d) => d.as_str(),
            None => self.username.as_str(),
        }
    }

    /// Whether the user was active within the `days` days before `now` (a Unix time).
    pub fn is_recently_active(&self, days: i64, now: i64) -> (r: bool)
        requires
            i64::MIN <= days_in_seconds(days as int) <= i64::MAX,
            i64::MIN <= now - days_in_seconds(days as int) <= i64::MAX,
        ensures
            r == (self.last_active > now - days_in_seconds(days as int)),
    {
        let threshold = now - (days * 24 * 60 * 60);
        self.last_active > threshold
    }
}

/// User profile information and privacy settings.
#[derive(Debug, Clone)]
pub struct UserProfile {
    pub user_id: i64,
    pub bio: Option<String>,
    pub avatar_url: Option<String>,
    pub location: Option<String>,
    pub website: Option<String>,
    pub privacy_level: i32,
    pub share_listening_history: bool,
    pub share_playlists: bool,
    pub updated_at: i64,
}

/// Privacy levels for user profiles; stored as 0, 1 and 2.
#[derive(Debug, Clone, Copy, PartialEq, Eq, Structural)]
pub enum PrivacyLevel {
    Private,
    Friends,
    Public,
}

/// The stored number of a privacy level.
pub open spec fn privacy_code(level: PrivacyLevel) -> i32 {
    match level {
        PrivacyLevel::Private => 0,
        PrivacyLevel::Friends => 1,
        PrivacyLevel::Public => 2,
    }
}

/// The privacy level a stored number stands for; unknown numbers read as private.
pub open spec fn privacy_from_code(code: i32) -> PrivacyLevel {
    if code == 1 {
        PrivacyLevel::Friends
    } else if code == 2 {
        PrivacyLevel::Public
    } else {
        PrivacyLevel::Private
    }
}

impl UserProfile {
    /// Get privacy level as enum.
    pub fn privacy_level(&self) -> (r: PrivacyLevel)
        ensures
            r == privacy_from_code(self.privacy_level),
    {
        match self.privacy_level {
            0 => PrivacyLevel::Private,
            1 => PrivacyLevel::Friends,
            2 => PrivacyLevel::Public,
            _ => PrivacyLevel::Private,
        }
    }

    /// Set privacy level from enum.
    pub fn set_privacy_level(&mut self, level: PrivacyLevel)
        ensures
            final(self).privacy_level == privacy_code(level),
            final(self).user_id == old(self).user_id,
            final(self).bio == old(self).bio,
            final(self).avatar_url == old(self).avatar_url,
            final(self).location == old(self).location,
            final(self).website == old(self).website,
            final(self).share_listening_history == old(self).share_listening_history,
            final(self).share_playlists == old(self).share_playlists,
            final(self).updated_at == old(self).updated_at,
    {
        self.privacy_level = match level {
            PrivacyLevel::Private => 0,
            PrivacyLevel::Friends => 1,
            PrivacyLevel::Public => 2,
        };
    }
}

/// Reading back a privacy level that was set gives that level.
pub proof fn privacy_level_round_trip(level: PrivacyLevel)
    ensures
        privacy_from_code(privacy_code(level)) == level,
{
}

/// Discovery mode for recommendations.
#[derive(Debug, Clone, Copy, PartialEq, Eq, Structural)]
pub enum DiscoveryMode {
    Conservative,
    Balanced,
    Adventurous,
}

/// Music repeat modes.
#[derive(Debug, Clone, Copy, PartialEq, Eq, Structural)]
pub enum RepeatMode {
    Off,
    Track,
    Playlist,
}

/// A user's playback and interface preferences. The crossfade is kept in
/// whole milliseconds.
#[derive(Debug, Clone)]
pub struct UserPreferences {
    pub theme: Option<String>,
    pub language: Option<String>,
    pub timezone: Option<String>,
    pub email_notifications: bool,
    pub scrobble_enabled: bool,
    pub auto_recommendations: bool,
    pub discovery_mode: DiscoveryMode,
    pub volume_normalization: bool,
    pub crossfade_ms: Option<u32>,
    pub repeat_mode: RepeatMode,
    pub shuffle_enabled: bool,
}

impl Default for UserPreferences {
    /// The neon theme in English, notifications, scrobbling, recommendations
    /// and volume normalization on, a balanced discovery mode, a two-second
    /// crossfade, no repeat and no shuffle.
    fn default() -> (r: Self)
        ensures
            r.theme matches Some(t) && t@ == "neon"@,
            r.language matches Some(l) && l@ == "en"@,
            r.timezone is None,
            r.email_notifications && r.scrobble_enabled && r.auto_recommendations,
            r.discovery_mode == DiscoveryMode::Balanced,
            r.volume_normalization,
            r.crossfade_ms == Some(2000u32),
            r.repeat_mode == RepeatMode::Off,
            !r.shuffle_enabled,
    {
        UserPreferences {
            theme: Some(owned("neon")),
            language: Some(owned("en")),
            timezone: None,
            email_notifications: true,
            scrobble_enabled: true,
            auto_recommendations: true,
            discovery_mode: DiscoveryMode::Balanced,
            volume_normalization: true,
            crossfade_ms: Some(2000),
            repeat_mode: RepeatMode::Off,
            shuffle_enabled: false,
        }
    }
}

/// External service integration (ListenBrainz, Spotify, ...).
#[derive(Debug, Clone)]
pub struct UserIntegration {
    pub id: i64,
    pub user_id: i64,
    pub service_name: String,
    pub service_user_id: Option<String>,
    pub api_token_encrypted: Option<String>,
    pub refresh_token_encrypted: Option<String>,
    pub enabled: bool,
    pub last_sync: Option<i64>,
    pub sync_settings_json: String,
    pub created_at: i64,
}

impl UserIntegration {
    /// Whether the integration is overdue for sync at `now` (a Unix time): never
    /// synced, or last synced more than `max_hours` hours before `now`.
    pub fn is_sync_overdue(&self, max_hours: i64, now: i64) -> (r: bool)
        requires
            i64::MIN <= max_hours * 3600 <= i64::MAX,
            i64::MIN <= now - max_hours * 3600 <= i64::MAX,
        ensures
            r == match self.last_sync {
                Some(t) => t < now - max_hours * 3600,
                None => true,
            },
    {
        match self.last_sync {
            Some(last_sync) => {
                let threshold = now - (max_hours * 60 * 60);
                last_sync < threshold
            },
            None => true,
        }
    }
}

/// Sync settings for external integrations.
#[derive(Debug, Clone)]
pub struct SyncSettings {
    pub auto_sync: bool,
    pub sync_interval_hours: i32,
    pub sync_playlists: bool,
    pub sync_favorites: bool,
    pub sync_listening_history: bool,
    pub max_tracks_per_sync: Option<i32>,
}

impl Default for SyncSettings {
    fn default() -> (r: Self)
        ensures
            r.auto_sync && r.sync_interval_hours == 24 && r.sync_playlists && r.sync_favorites
                && r.sync_listening_history && r.max_tracks_per_sync == Some(1000i32),
    {
        SyncSettings {
            auto_sync: true,
            sync_interval_hours: 24,
            sync_playlists: true,
            sync_favorites: true,
            sync_listening_history: true,
            max_tracks_per_sync: Some(1000),
        }
    }
}

/// Complete user profile with statistics.
#[derive(Debug, Clone)]
pub struct UserProfileWithStats {
    pub id: i64,
    pub keycloak_id: String,
    pub username: String,
    pub email: String,
    pub display_name: Option<String>,
    pub created_at: i64,
    pub last_active: i64,
    pub is_active: bool,
    pub bio: Option<String>,
    pub avatar_url: Option<String>,
    pub location: Option<String>,
    pub website: Option<String>,
    pub privacy_level: i32,
    pub share_listening_history: bool,
    pub share_playlists: bool,
    pub playlist_count: i64,
    pub favorite_count: i64,
    pub total_listens: i64,
    pub following_count: i64,
    pub follower_count: i64,
}

/// User creation request from Keycloak.
#[derive(Debug, Clone)]
pub struct CreateUserRequest {
    pub keycloak_id: String,
    pub username: String,
    pub email: String,
    pub display_name: Option<String>,
}

/// User update request.
#[derive(Debug, Clone)]
pub struct UpdateUserRequest {
    pub display_name: Option<String>,
    pub bio: Option<String>,
    pub location: Option<String>,
    pub website: Option<String>,
    pub privacy_level: Option<PrivacyLevel>,
    pub share_listening_history: Option<bool>,
    pub share_playlists: Option<bool>,
}

/// Authenticated user information from a JWT token.
#[derive(Debug, Clone)]
pub struct AuthenticatedUser {
    pub id: i64,
    pub keycloak_id: String,
    pub username: String,
    pub email: String,
    pub display_name: Option<String>,
    pub roles: Vec<String>,
    pub is_active: bool,
}

/// The role names of a user, as plain text.
pub open spec fn role_names(roles: Seq<String>) -> Seq<Seq<char>> {
    roles.map_values(|r: String| r@)
}

/// Whether `roles` holds the role `role`.
pub open spec fn holds_role(roles: Seq<String>, role: Seq<char>) -> bool {
    role_names(roles).contains(role)
}

/// Administrators hold `admin` or `stepheybot-admin`.
pub open spec fn is_admin_roles(roles: Seq<String>) -> bool {
    holds_role(roles, "admin"@) || holds_role(roles, "stepheybot-admin"@)
}

/// User managers are administrators or hold `user-manager`.
pub open spec fn can_manage_users_roles(roles: Seq<String>) -> bool {
    is_admin_roles(roles) || holds_role(roles, "user-manager"@)
}

impl AuthenticatedUser {
    /// Check if user has a specific role.
    pub fn has_role(&self, role: &str) -> (r: bool)
        ensures
            r == holds_role(self.roles@, role@),
    {
        let want = chars_of(role);
        let mut i: usize = 0;
        while i < self.roles.len()
            invariant
                i <= self.roles@.len(),
                want@ == role@,
                forall|j: int| 0 <= j < i ==> self.roles@[j]@ != role@,
            decreases self.roles@.len() - i,
        {
            let have = chars_of(self.roles[i].as_str());
            if chars_eq(&have, &want) {
                assert(role_names(self.roles@)[i as int] == role@);
                return true;
            }
            i = i + 1;
        }
        assert(!role_names(self.roles@).contains(role@)) by {
            if role_names(self.roles@).contains(role@) {
                let k = choose|k: int|
                    0 <= k < role_names(self.roles@).len() && role_names(self.roles@)[k] == role@;
                assert(self.roles@[k]@ == role@);
            }
        }
        false
    }

    /// Check if user is admin.
    pub fn is_admin(&self) -> (r: bool)
        ensures
            r == is_admin_roles(self.roles@),
    {
        self.has_role("admin") || self.has_role("stepheybot-admin")
    }

    /// Check if user can manage other users.
    pub fn can_manage_users(&self) -> (r: bool)
        ensures
            r == can_manage_users_roles(self.roles@),
    {
        self.is_admin() || self.has_role("user-manager")
    }
}

/// Whoever may administer may manage users.
pub proof fn admins_manage_users(roles: Seq<String>)
    requires
        is_admin_roles(roles),
    ensures
        can_manage_users_roles(roles),
{
}

/// User role enumeration.
#[derive(Debug, Clone, Copy, PartialEq, Eq, Structural)]
pub enum UserRole {
    Admin,
    User,
    Guest,
}

/// The rank of a role: `Admin` above `User` above `Guest`.
pub open spec fn privilege(role: UserRole) -> int {
    match role {
        UserRole::Admin => 2,
        UserRole::User => 1,
        UserRole::Guest => 0,
    }
}

/// The roles of equal or higher privilege than `role`: the role itself,
/// then the roles above it, up to `Admin`.
pub open spec fn allowed_roles(role: UserRole) -> Seq<UserRole> {
    match role {
        UserRole::Admin => seq![UserRole::Admin],
        UserRole::User => seq![UserRole::User, UserRole::Admin],
        UserRole::Guest => seq![UserRole::Guest, UserRole::User, UserRole::Admin],
    }
}

impl UserRole {
    /// Get all roles that have equal or higher privileges.
    pub fn get_allowed_roles(&self) -> (r: Vec<UserRole>)
        ensures
            r@ == allowed_roles(*self),
    {
        let mut v: Vec<UserRole> = Vec::new();
        match self {
            UserRole::Admin => {
                v.push(UserRole::Admin);
            },
            UserRole::User => {
                v.push(UserRole::User);
                v.push(UserRole::Admin);
            },
            UserRole::Guest => {
                v.push(UserRole::Guest);
                v.push(UserRole::User);
                v.push(UserRole::Admin);
            },
        }
        assert(v@ =~= allowed_roles(*self));
        v
    }
}

/// A role allows exactly the roles of equal or higher privilege.
pub proof fn allowed_roles_are_at_least_as_privileged(role: UserRole, other: UserRole)
    ensures
        allowed_roles(role).contains(other) <==> privilege(other) >= privilege(role),
{
    let a = allowed_roles(role);
    if privilege(other) >= privilege(role) {
        match (role, other) {
            (UserRole::Admin, _) => assert(a[0] == other),
            (UserRole::User, UserRole::User) => assert(a[0] == other),
            (UserRole::User, _) => assert(a[1] == other),
            (UserRole::Guest, UserRole::Guest) => assert(a[0] == other),
            (UserRole::Guest, UserRole::User) => assert(a[1] == other),
            (UserRole::Guest, UserRole::Admin) => assert(a[2] == other),
        }
    }
}

/// User search parameters.
#[derive(Debug, Clone)]
pub struct UserSearchQuery {
    pub query: Option<String>,
    pub privacy_level: Option<PrivacyLevel>,
    pub is_active: Option<bool>,
    pub has_playlists: Option<bool>,
    pub limit: Option<i64>,
    pub offset: Option<i64>,
}

/// User search result.
#[derive(Debug, Clone)]
pub struct UserSearchResult {
    pub users: Vec<UserProfileWithStats>,
    pub total_count: i64,
    pub has_more: bool,
}

/// User activity summary.
#[derive(Debug, Clone)]
pub struct UserActivity {
    pub user_id: i64,
    pub recent_listens: i64,
    pub recent_favorites: i64,
    pub recent_playlists: i64,
    pub recent_follows: i64,
    pub listening_streak_days: i64,
    pub total_listening_time: i64,
    pub favorite_genres: Vec<String>,
    pub favorite_artists: Vec<String>,
}

/// Artist statistics.
#[derive(Debug, Clone)]
pub struct ArtistStats {
    pub artist: String,
    pub listen_count: i64,
    pub total_time: i64,
    pub favorite_tracks: i64,
}

/// Activity entry for a user feed; `metadata` holds key/value pairs.
#[derive(Debug, Clone)]
pub struct ActivityEntry {
    pub activity_type: ActivityType,
    pub timestamp: i64,
    pub description: String,
    pub metadata: Vec<(String, String)>,
}

/// Types of user activities.
#[derive(Debug, Clone, Copy, PartialEq, Eq, Structural)]
pub enum ActivityType {
    TrackPlayed,
    TrackFavorited,
    PlaylistCreated,
    PlaylistShared,
    UserFollowed,
    IntegrationConnected,
    RecommendationAccepted,
}

/// Error types for user operations (storage and JSON failures are reported by
/// the service layer that owns those resources).
#[derive(Debug, Clone)]
pub enum UserError {
    NotFound(String),
    UsernameExists(String),
    EmailExists(String),
    InvalidEmail(String),
    InvalidUsername(String),
    Unauthorized,
    Authentication(String),
    Validation(String),
}

// ---------------------------------------------------------------------------
// Validation rules for user data
// ---------------------------------------------------------------------------

/// What `regex::Regex::new(pattern)` followed by `is_match(text)` gives:
/// `None` where the pattern does not compile, else whether `text` matches.
pub uninterp spec fn regex_match_result(pattern: Seq<char>, text: Seq<char>) -> Option<bool>;

/// `regex::Regex::new` then `Regex::is_match`: the contract names the result;
/// the regular-expression semantics are not restated.
#[verifier::external_body]
pub(crate) fn regex_is_match(pattern: &str, text: &str) -> (r: Option<bool>)
    ensures
        r == regex_match_result(pattern@, text@),
{
    match regex::Regex::new(pattern) {
        Ok(re) => Some(re.is_match(text)),
        Err(_) => None,
    }
}

/// Letters, digits, `_` and `-` only.
pub open spec fn username_pattern() -> Seq<char> {
    "^[a-zA-Z0-9_-]+$"@
}

/// A local part, `@`, a domain and a top-level domain of two letters or more.
pub open spec fn email_pattern() -> Seq<char> {
    "^[a-zA-Z0-9._%+-]+@[a-zA-Z0-9.-]+\\.[a-zA-Z]{2,}$"@
}

/// `http://` or `https://` followed by a host and path without whitespace.
pub open spec fn website_pattern() -> Seq<char> {
    "^https?://[^\\s/$.?#].[^\\s]*$"@
}

/// What `validate_username` returns for `u`.
pub open spec fn username_verdict(u: Seq<char>) -> Result<(), Seq<char>> {
    if u.len() == 0 {
        Err("Username cannot be empty"@)
    } else if utf8_len(u) < 3 {
        Err("Username must be at least 3 characters"@)
    } else if utf8_len(u) > 30 {
        Err("Username must be at most 30 characters"@)
    } else if regex_match_result(username_pattern(), u) != Some(true) {
        Err("Username can only contain letters, numbers, underscores, and hyphens"@)
    } else {
        Ok(())
    }
}

/// Validate username format.
pub fn validate_username(username: &str) -> (r: Result<(), UserError>)
    ensures
        match username_verdict(username@) {
            Ok(()) => r is Ok,
            Err(msg) => r matches Err(UserError::InvalidUsername(m)) && m@ == msg,
        },
{
    if username.is_empty() {
        return Err(UserError::InvalidUsername(string_of(&chars_of("Username cannot be empty"))));
    }
    let n = username.as_bytes().len();
    if n < 3 {
        return Err(
            UserError::InvalidUsername(string_of(&chars_of("Username must be at least 3 characters"))),
        );
    }
    if n > 30 {
        return Err(
            UserError::InvalidUsername(string_of(&chars_of("Username must be at most 30 characters"))),
        );
    }
    let matched = regex_is_match("^[a-zA-Z0-9_-]+$", username);
    match matched {
        Some(true) => Ok(()),
        _ => Err(
            UserError::InvalidUsername(
                string_of(
                    &chars_of("Username can only contain letters, numbers, underscores, and hyphens"),
                ),
            ),
        ),
    }
}

/// What `validate_email` returns for `e`.
pub open spec fn email_verdict(e: Seq<char>) -> Result<(), Seq<char>> {
    if e.len() == 0 {
        Err("Email cannot be empty"@)
    } else if regex_match_result(email_pattern(), e) != Some(true) {
        Err("Invalid email format"@)
    } else {
        Ok(())
    }
}

/// Validate email format.
pub fn validate_email(email: &str) -> (r: Result<(), UserError>)
    ensures
        match email_verdict(email@) {
            Ok(()) => r is Ok,
            Err(msg) => r matches Err(UserError::InvalidEmail(m)) && m@ == msg,
        },
{
    if email.is_empty() {
        return Err(UserError::InvalidEmail(string_of(&chars_of("Email cannot be empty"))));
    }
    match regex_is_match("^[a-zA-Z0-9._%+-]+@[a-zA-Z0-9.-]+\\.[a-zA-Z]{2,}$", email) {
        Some(true) => Ok(()),
        _ => Err(UserError::InvalidEmail(string_of(&chars_of("Invalid email format")))),
    }
}

/// Validate display name: at most 50 bytes.
pub fn validate_display_name(display_name: &str) -> (r: Result<(), UserError>)
    ensures
        utf8_len(display_name@) > 50 ==> (r matches Err(UserError::Validation(m)) && m@
            == "Display name must be at most 50 characters"@),
        utf8_len(display_name@) <= 50 ==> r is Ok,
{
    if display_name.as_bytes().len() > 50 {
        return Err(
            UserError::Validation(string_of(&chars_of("Display name must be at most 50 characters"))),
        );
    }
    Ok(())
}

/// Validate bio length: at most 500 bytes.
pub fn validate_bio(bio: &str) -> (r: Result<(), UserError>)
    ensures
        utf8_len(bio@) > 500 ==> (r matches Err(UserError::Validation(m)) && m@
            == "Bio must be at most 500 characters"@),
        utf8_len(bio@) <= 500 ==> r is Ok,
{
    if bio.as_bytes().len() > 500 {
        return Err(UserError::Validation(string_of(&chars_of("Bio must be at most 500 characters"))));
    }
    Ok(())
}

/// Validate website URL; an empty website is accepted.
pub fn validate_website(website: &str) -> (r: Result<(), UserError>)
    ensures
        website@.len() == 0 ==> r is Ok,
        website@.len() > 0 && regex_match_result(website_pattern(), website@) == Some(true)
            ==> r is Ok,
        website@.len() > 0 && regex_match_result(website_pattern(), website@) != Some(true)
            ==> (r matches Err(UserError::Validation(m)) && m@ == "Invalid website URL format"@),
{
    if website.is_empty() {
        return Ok(());
    }
    match regex_is_match("^https?://[^\\s/$.?#].[^\\s]*$", website) {
        Some(true) => Ok(()),
        _ => Err(UserError::Validation(string_of(&chars_of("Invalid website URL format")))),
    }
}

} // verus!
