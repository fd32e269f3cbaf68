use stepheybot_music::api::{check_admin, check_admin_delete, check_follow, get_enabled_features, lookup_failure, update_failure, ErrorResponse};
use stepheybot_music::auth::{
    can_access_user_data, extract_bearer_token, test_token_claims, token_outcome, AuthConfig, AuthErrorResponse, JwtAlgorithm,
};
use stepheybot_music::models::{format_duration, generate_id, is_valid_email, parse_duration, sanitize_filename};
use stepheybot_music::user::{
    validate_email, validate_username, AuthenticatedUser, DiscoveryMode, PrivacyLevel, RepeatMode, UserError, UserPreferences,
    UserProfile, UserRole,
};

fn user(id: i64, name: &str, roles: &[&str]) -> AuthenticatedUser {
    AuthenticatedUser {
        id,
        keycloak_id: name.to_string(),
        username: name.to_string(),
        email: format!("{}@test.com", name),
        display_name: None,
        roles: roles.iter().map(|r| r.to_string()).collect(),
        is_active: true,
    }
}

#[test]
fn test_generate_id() {
    let id = generate_id();
    assert!(uuid::Uuid::parse_str(&id).is_ok());
    assert_eq!(id.len(), 36);
    assert_eq!(&id[14..15], "4");
    assert_ne!(generate_id(), generate_id());
}

#[test]
fn test_format_duration() {
    assert_eq!(format_duration(65), "1:05");
    assert_eq!(format_duration(3665), "1:01:05");
    assert_eq!(format_duration(30), "0:30");
}

#[test]
fn test_parse_duration() {
    assert_eq!(parse_duration("1:05"), Some(65));
    assert_eq!(parse_duration("1:01:05"), Some(3665));
    assert_eq!(parse_duration("0:30"), Some(30));
    assert_eq!(parse_duration("invalid"), None);
}

#[test]
fn duration_text_reads_back() {
    for s in [0u32, 59, 60, 61, 3599, 3600, 3661, 86399, 360000] {
        assert_eq!(parse_duration(&format_duration(s)), Some(s));
    }
}

#[test]
fn test_is_valid_email() {
    assert!(is_valid_email("test@example.com"));
    assert!(!is_valid_email("invalid"));
    assert!(!is_valid_email("@example.com"));
}

#[test]
fn test_sanitize_filename() {
    assert_eq!(sanitize_filename("Artist / Album"), "Artist _ Album");
    assert_eq!(sanitize_filename("Track: Title"), "Track_ Title");
}

#[test]
fn sanitize_filename_replaces_every_forbidden_character() {
    assert_eq!(sanitize_filename("a<b>c:d\"e/f\\g|h?i*j"), "a_b_c_d_e_f_g_h_i_j");
    assert_eq!(sanitize_filename("  padded  "), "padded");
}

#[test]
fn sanitizing_twice_changes_nothing() {
    for name in ["  Artist / Album: Live?  ", "plain", " \t", "a\u{1}b", "x|y*z"] {
        let once = sanitize_filename(name);
        assert_eq!(sanitize_filename(&once), once);
        assert!(!once.chars().any(|c| "/\\:*?\"<>|".contains(c) || c.is_control()));
    }
}

#[test]
fn test_user_preferences_default() {
    let prefs = UserPreferences::default();
    assert_eq!(prefs.theme, Some("neon".to_string()));
    assert!(prefs.scrobble_enabled);
    assert!(prefs.auto_recommendations);
}

#[test]
fn user_preferences_default_in_full() {
    let prefs = UserPreferences::default();
    assert_eq!(prefs.language.as_deref(), Some("en"));
    assert!(prefs.timezone.is_none());
    assert!(prefs.email_notifications && prefs.volume_normalization && !prefs.shuffle_enabled);
    assert_eq!(prefs.discovery_mode, DiscoveryMode::Balanced);
    assert_eq!(prefs.repeat_mode, RepeatMode::Off);
    assert_eq!(prefs.crossfade_ms, Some(2000));
}

#[test]
fn test_privacy_level_conversion() {
    let mut profile = UserProfile {
        user_id: 1,
        bio: None,
        avatar_url: None,
        location: None,
        website: None,
        privacy_level: 1,
        share_listening_history: false,
        share_playlists: true,
        updated_at: 0,
    };

    assert!(matches!(profile.privacy_level(), PrivacyLevel::Friends));

    profile.set_privacy_level(PrivacyLevel::Public);
    assert_eq!(profile.privacy_level, 2);
}

#[test]
fn privacy_level_round_trip_on_each_level() {
    let mut profile = UserProfile {
        user_id: 7,
        bio: None,
        avatar_url: None,
        location: None,
        website: None,
        privacy_level: 0,
        share_listening_history: true,
        share_playlists: true,
        updated_at: 5,
    };
    for level in [PrivacyLevel::Private, PrivacyLevel::Friends, PrivacyLevel::Public] {
        profile.set_privacy_level(level);
        assert_eq!(profile.privacy_level(), level);
    }
    profile.privacy_level = 9;
    assert_eq!(profile.privacy_level(), PrivacyLevel::Private);
}

#[test]
fn test_username_validation() {
    assert!(validate_username("valid_user123").is_ok());
    assert!(validate_username("ab").is_err()); // Too short
    assert!(validate_username("user@example").is_err()); // Invalid character
    assert!(validate_username("").is_err()); // Empty
}

#[test]
fn test_email_validation() {
    assert!(validate_email("user@example.com").is_ok());
    assert!(validate_email("invalid-email").is_err());
    assert!(validate_email("").is_err());
}

#[test]
fn test_authenticated_user_roles() {
    let user = AuthenticatedUser {
        id: 1,
        keycloak_id: "test".to_string(),
        username: "testuser".to_string(),
        email: "test@example.com".to_string(),
        display_name: None,
        roles: vec!["admin".to_string(), "user".to_string()],
        is_active: true,
    };

    assert!(user.has_role("admin"));
    assert!(user.has_role("user"));
    assert!(!user.has_role("guest"));
    assert!(user.is_admin());
    assert!(user.can_manage_users());
}

#[test]
fn allowed_roles_are_the_role_and_those_above_it() {
    assert_eq!(UserRole::Admin.get_allowed_roles(), vec![UserRole::Admin]);
    assert_eq!(UserRole::User.get_allowed_roles(), vec![UserRole::User, UserRole::Admin]);
    assert_eq!(UserRole::Guest.get_allowed_roles(), vec![UserRole::Guest, UserRole::User, UserRole::Admin]);
    for role in [UserRole::Admin, UserRole::User, UserRole::Guest] {
        let allowed = role.get_allowed_roles();
        assert!(allowed.contains(&role));
        assert!(allowed.contains(&UserRole::Admin));
    }
}

#[test]
fn test_can_access_user_data() {
    let admin_user = AuthenticatedUser {
        id: 1,
        keycloak_id: "admin".to_string(),
        username: "admin".to_string(),
        email: "admin@test.com".to_string(),
        display_name: None,
        roles: vec!["admin".to_string()],
        is_active: true,
    };

    let regular_user = AuthenticatedUser {
        id: 2,
        keycloak_id: "user".to_string(),
        username: "user".to_string(),
        email: "user@test.com".to_string(),
        display_name: None,
        roles: vec!["user".to_string()],
        is_active: true,
    };

    assert!(can_access_user_data(&admin_user, 1));
    assert!(can_access_user_data(&admin_user, 2));
    assert!(can_access_user_data(&admin_user, 999));

    assert!(can_access_user_data(&regular_user, 2));
    assert!(!can_access_user_data(&regular_user, 1));
    assert!(!can_access_user_data(&regular_user, 999));
}

#[test]
fn test_auth_config_creation() {
    let config = AuthConfig::new(
        "http://localhost:8080/realms/test".to_string(),
        "test-client".to_string(),
        "secret".to_string(),
    );

    assert_eq!(config.keycloak_client_id, "test-client");
    assert_eq!(config.jwt_algorithm, JwtAlgorithm::RS256);
}

#[test]
fn test_development_config() {
    let config = AuthConfig::development("dev-secret".to_string());
    assert_eq!(config.jwt_algorithm, JwtAlgorithm::HS256);
    assert_eq!(config.keycloak_client_id, "stepheybot-music");
}

#[test]
fn test_bearer_token_extraction() {
    let token = extract_bearer_token(Some("Bearer test-token-123"));
    assert_eq!(token, Some("test-token-123".to_string()));

    let token = extract_bearer_token(Some("Invalid token"));
    assert_eq!(token, None);
}

#[test]
fn bearer_token_needs_the_header() {
    assert_eq!(extract_bearer_token(None), None);
    assert_eq!(extract_bearer_token(Some("Bearer ")), Some(String::new()));
}

#[test]
fn auth_error_bodies() {
    let e = AuthErrorResponse::invalid_token();
    assert_eq!(e.error, "Invalid Token");
    let e = AuthErrorResponse::inactive_user();
    assert_eq!(e.error, "Account Inactive");
}

#[test]
fn test_enabled_features() {
    let features = get_enabled_features();
    assert!(!features.is_empty());
    assert!(features.contains(&"user-profiles".to_string()));
    assert!(features.contains(&"music-library".to_string()));
    assert_eq!(features, vec!["user-profiles", "music-library", "playlists"]);
}

#[test]
fn api_error_bodies() {
    let e = ErrorResponse::not_found("User: bob");
    assert!(!e.success);
    assert_eq!(e.code, "RESOURCE_NOT_FOUND");
    assert_eq!(e.message, "Resource not found: User: bob");
    assert_eq!(ErrorResponse::unauthorized().code, "AUTH_REQUIRED");
    assert_eq!(ErrorResponse::forbidden().code, "INSUFFICIENT_PERMISSIONS");
    assert_eq!(ErrorResponse::validation_error("bad").message, "bad");
    assert_eq!(ErrorResponse::internal_error().code, "INTERNAL_ERROR");
}

#[test]
fn user_endpoint_checks() {
    let admin = user(1, "root", &["admin"]);
    let plain = user(2, "bob", &["user"]);
    assert!(check_follow(2, 3).is_ok());
    let (status, body) = check_follow(2, 2).unwrap_err();
    assert_eq!(status, 400);
    assert_eq!(body.message, "Cannot follow yourself");
    assert!(check_admin(&admin).is_ok());
    assert_eq!(check_admin(&plain).unwrap_err().0, 403);
    assert!(check_admin_delete(&admin, 2).is_ok());
    let (status, body) = check_admin_delete(&admin, 1).unwrap_err();
    assert_eq!(status, 400);
    assert_eq!(body.message, "Cannot delete your own account");
    assert_eq!(check_admin_delete(&plain, 1).unwrap_err().0, 403);
    let (status, body) = update_failure(&UserError::Validation("too long".to_string()));
    assert_eq!((status, body.message.as_str()), (400, "too long"));
    assert_eq!(update_failure(&UserError::Unauthorized).0, 500);
    let (status, body) = lookup_failure(&UserError::NotFound("x".to_string()), "User ID: 5");
    assert_eq!((status, body.message.as_str()), (404, "Resource not found: User ID: 5"));
    assert_eq!(lookup_failure(&UserError::Unauthorized, "User ID: 5").0, 500);
}

#[test]
fn token_decoding_outcome() {
    match token_outcome(Err("ExpiredSignature".to_string())) {
        Err(UserError::Authentication(m)) => assert_eq!(m, "Invalid token: ExpiredSignature"),
        _ => panic!("a failed decode is an authentication failure"),
    }
    let claims = test_token_claims("id", "name", "e@x.y", vec!["user".to_string()], 100);
    let kept = token_outcome(Ok(claims)).ok().unwrap();
    assert_eq!(kept.sub, "id");
    assert_eq!(kept.exp, 3700);
}
