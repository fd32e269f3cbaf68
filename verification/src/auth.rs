//! Authentication and authorization rules: Keycloak claims, token settings,
//! bearer-token extraction, and the decisions of the access middleware.
use vstd::prelude::*;
use crate::text::{chars_of, join, lemma_concat, owned, slice_skip, starts_with, starts_with_chars, string_of, texts};
use crate::user::{is_admin_roles, holds_role, AuthenticatedUser, UserError};

verus! {

/// JWT claims issued by Keycloak.
#[derive(Debug)]
pub struct KeycloakClaims {
    pub sub: String,
    pub preferred_username: String,
    pub email: String,
    pub name: Option<String>,
    pub given_name: Option<String>,
    pub family_name: Option<String>,
    pub realm_access: RealmAccess,
    pub resource_access: Option<ResourceAccess>,
    pub exp: usize,
    pub iat: usize,
    pub iss: String,
    pub aud: Vec<String>,
}

/// Realm roles of a token.
#[derive(Debug)]
pub struct RealmAccess {
    pub roles: Vec<String>,
}

/// Client roles of a token, for the `stepheybot-music` client.
#[derive(Debug)]
pub struct ResourceAccess {
    pub stepheybot_music: Option<ClientAccess>,
}

/// Roles granted by one client.
#[derive(Debug)]
pub struct ClientAccess {
    pub roles: Vec<String>,
}

/// JWT signing algorithms.
#[derive(Debug, Clone, Copy, PartialEq, Eq, Structural)]
pub enum JwtAlgorithm {
    HS256,
    HS384,
    HS512,
    ES256,
    ES384,
    RS256,
    RS384,
    RS512,
    PS256,
    PS384,
    PS512,
    EdDSA,
}

/// What a token is checked against: accepted algorithms, clock leeway in
/// seconds, and the accepted audiences and issuers (`None`: not restricted).
#[derive(Debug, Clone)]
pub struct TokenValidation {
    pub algorithms: Vec<JwtAlgorithm>,
    pub leeway: u64,
    pub audience: Option<Vec<String>>,
    pub issuer: Option<Vec<String>>,
}

/// Authentication configuration.
#[derive(Debug, Clone)]
pub struct AuthConfig {
    pub keycloak_realm_url: String,
    pub keycloak_client_id: String,
    pub jwt_secret: String,
    pub jwt_algorithm: JwtAlgorithm,
    pub token_validation: TokenValidation,
}

fn single(s: &str) -> (r: Vec<String>)
    ensures
        texts(r@) == seq![s@],
{
    let mut v: Vec<String> = Vec::new();
    v.push(owned(s));
    assert(texts(v@) =~= seq![s@]);
    v
}

impl AuthConfig {
    /// Create a new authentication configuration for Keycloak (RS256 tokens whose
    /// audience is the client and whose issuer is the realm).
    pub fn new(keycloak_realm_url: String, keycloak_client_id: String, jwt_secret: String) -> (r:
        Self)
        ensures
            r.keycloak_realm_url@ == keycloak_realm_url@,
            r.keycloak_client_id@ == keycloak_client_id@,
            r.jwt_secret@ == jwt_secret@,
            r.jwt_algorithm == JwtAlgorithm::RS256,
            r.token_validation.algorithms@ == seq![JwtAlgorithm::RS256],
            r.token_validation.leeway == 60,
            r.token_validation.audience matches Some(a) && texts(a@) == seq![keycloak_client_id@],
            r.token_validation.issuer matches Some(i) && texts(i@) == seq![keycloak_realm_url@],
    {
        let mut algorithms: Vec<JwtAlgorithm> = Vec::new();
        algorithms.push(JwtAlgorithm::RS256);
        let audience = single(keycloak_client_id.as_str());
        let issuer = single(keycloak_realm_url.as_str());
        AuthConfig {
            keycloak_realm_url,
            keycloak_client_id,
            jwt_secret,
            jwt_algorithm: JwtAlgorithm::RS256,
            token_validation: TokenValidation {
                algorithms,
                leeway: 60,
                audience: Some(audience),
                issuer: Some(issuer),
            },
        }
    }

    /// Create configuration for development/testing with HS256.
    pub fn development(jwt_secret: String) -> (r: Self)
        ensures
            r.keycloak_realm_url@ == "http://localhost:8080/realms/stepheybot"@,
            r.keycloak_client_id@ == "stepheybot-music"@,
            r.jwt_secret@ == jwt_secret@,
            r.jwt_algorithm == JwtAlgorithm::HS256,
            r.token_validation.algorithms@ == seq![JwtAlgorithm::HS256],
            r.token_validation.leeway == 60,
            r.token_validation.audience matches Some(a) && texts(a@) == seq!["stepheybot-music"@],
            r.token_validation.issuer is None,
    {
        let mut algorithms: Vec<JwtAlgorithm> = Vec::new();
        algorithms.push(JwtAlgorithm::HS256);
        let audience = single("stepheybot-music");
        AuthConfig {
            keycloak_realm_url: owned("http://localhost:8080/realms/stepheybot"),
            keycloak_client_id: owned("stepheybot-music"),
            jwt_secret,
            jwt_algorithm: JwtAlgorithm::HS256,
            token_validation: TokenValidation {
                algorithms,
                leeway: 60,
                audience: Some(audience),
                issuer: None,
            },
        }
    }
}

/// Algorithms for which a decoding key is built from the shared secret.
pub open spec fn algorithm_supported(alg: JwtAlgorithm) -> bool {
    alg == JwtAlgorithm::HS256 || alg == JwtAlgorithm::RS256
}

/// Whether the authentication service can be built for `alg`; any other
/// algorithm is refused as unsupported.
pub fn supports_algorithm(alg: JwtAlgorithm) -> (r: bool)
    ensures
        r == algorithm_supported(alg),
{
    match alg {
        JwtAlgorithm::HS256 => true,
        JwtAlgorithm::RS256 => true,
        _ => false,
    }
}

/// Realm roles followed by the roles of the `stepheybot-music` client.
pub open spec fn token_roles(claims: KeycloakClaims) -> Seq<Seq<char>> {
    texts(claims.realm_access.roles@) + match claims.resource_access {
        Some(ra) => match ra.stepheybot_music {
            Some(ca) => texts(ca.roles@),
            None => Seq::<Seq<char>>::empty(),
        },
        None => Seq::<Seq<char>>::empty(),
    }
}

fn copy_strings(v: &Vec<String>, out: &mut Vec<String>)
    ensures
        texts(final(out)@) == texts(old(out)@) + texts(v@),
{
    let ghost start = texts(out@);
    let mut i: usize = 0;
    while i < v.len()
        invariant
            i <= v@.len(),
            texts(out@) == start + texts(v@.subrange(0, i as int)),
        decreases v@.len() - i,
    {
        let ghost before = out@;
        let item = owned(v[i].as_str());
        out.push(item);
        i = i + 1;
        assert(out@ == before.push(item));
        assert(texts(out@) =~= texts(before).push(item@));
        assert(texts(v@.subrange(0, i as int)) =~= texts(v@.subrange(0, i - 1 as int)).push(
            v@[i - 1]@,
        ));
        assert(texts(out@) =~= start + texts(v@.subrange(0, i as int)));
    }
    assert(v@.subrange(0, v@.len() as int) =~= v@);
}

/// The roles a token grants: realm roles, then the client's roles.
pub fn roles_from_claims(claims: &KeycloakClaims) -> (r: Vec<String>)
    ensures
        texts(r@) == token_roles(*claims),
{
    let mut roles: Vec<String> = Vec::new();
    copy_strings(&claims.realm_access.roles, &mut roles);
    if let Some(resource_access) = &claims.resource_access {
        if let Some(client_access) = &resource_access.stepheybot_music {
            copy_strings(&client_access.roles, &mut roles);
        }
    }
    assert(texts(roles@) =~= token_roles(*claims));
    roles
}

/// The authenticated user for validated `claims` and the stored account
/// `(user_id, stored display name, active flag)`: the token's name is
/// preferred over the stored display name.
pub fn authenticated_user_from_claims(
    claims: &KeycloakClaims,
    user_id: i64,
    stored_display_name: Option<String>,
    is_active: bool,
) -> (r: AuthenticatedUser)
    ensures
        r.id == user_id,
        r.keycloak_id@ == claims.sub@,
        r.username@ == claims.preferred_username@,
        r.email@ == claims.email@,
        match claims.name {
            Some(n) => r.display_name matches Some(d) && d@ == n@,
            None => r.display_name == stored_display_name,
        },
        texts(r.roles@) == token_roles(*claims),
        r.is_active == is_active,
{
    let display_name = match &claims.name {
        Some(n) => Some(owned(n.as_str())),
        None => stored_display_name,
    };
    AuthenticatedUser {
        id: user_id,
        keycloak_id: owned(claims.sub.as_str()),
        username: owned(claims.preferred_username.as_str()),
        email: owned(claims.email.as_str()),
        display_name,
        roles: roles_from_claims(claims),
        is_active,
    }
}

/// What token validation makes of the decoding of a token: its claims, or
/// the authentication failure `Invalid token: <why decoding failed>`. The
/// user is then built from the claims by `authenticated_user_from_claims`.
pub fn token_outcome(decoded: Result<KeycloakClaims, String>) -> (r: Result<KeycloakClaims, UserError>)
    ensures
        match decoded {
            Ok(c) => r matches Ok(d) && d == c,
            Err(e) => r matches Err(UserError::Authentication(m)) && m@ == "Invalid token: "@ + e@,
        },
{
    match decoded {
        Ok(c) => Ok(c),
        Err(e) => {
            let es = e.as_str();
            proof {
                lemma_concat("Invalid token: ", es, "", "", "");
            }
            Err(UserError::Authentication(join(&["Invalid token: ", es])))
        },
    }
}

/// The token of an `Authorization: Bearer <token>` header, if the header is
/// present and starts with `Bearer `.
pub open spec fn bearer_token(header: Option<Seq<char>>) -> Option<Seq<char>> {
    match header {
        Some(h) => if starts_with(h, "Bearer "@) {
            Some(h.skip(7))
        } else {
            None
        },
        None => None,
    }
}

/// Extract the bearer token from the value of an `Authorization` header
/// (`None` where the header is absent or not visible ASCII).
pub fn extract_bearer_token(header: Option<&str>) -> (r: Option<String>)
    ensures
        match bearer_token(
            match header {
                Some(h) => Some(h@),
                None => None,
            },
        ) {
            Some(t) => r matches Some(s) && s@ == t,
            None => r is None,
        },
{
    match header {
        Some(h) => {
            let cs = chars_of(h);
            let prefix = chars_of("Bearer ");
            proof {
                reveal_strlit("Bearer ");
            }
            if starts_with_chars(&cs, &prefix) {
                let rest = slice_skip(&cs, 7);
                Some(string_of(rest))
            } else {
                None
            }
        },
        None => None,
    }
}

/// Why a request is refused.
#[derive(Debug, Clone, Copy, PartialEq, Eq, Structural)]
pub enum AccessDenied {
    /// No (valid) credentials: HTTP 401.
    Unauthorized,
    /// Credentials without the needed rights: HTTP 403.
    Forbidden,
}

impl AccessDenied {
    /// The HTTP status code of the refusal.
    pub fn status_code(&self) -> (r: u16)
        ensures
            r == match *self {
                AccessDenied::Unauthorized => 401u16,
                AccessDenied::Forbidden => 403u16,
            },
    {
        match self {
            AccessDenied::Unauthorized => 401,
            AccessDenied::Forbidden => 403,
        }
    }
}

/// The decision of the authentication middleware once the token has been
/// looked for and, if found, validated: `validated` is `None` where no token was
/// present or validation failed, else the user it names.
pub fn authentication_decision(validated: Option<&AuthenticatedUser>) -> (r: Result<(), AccessDenied>)
    ensures
        match validated {
            None => r == Err::<(), AccessDenied>(AccessDenied::Unauthorized),
            Some(u) => if u.is_active {
                r is Ok
            } else {
                r == Err::<(), AccessDenied>(AccessDenied::Forbidden)
            },
        },
{
    match validated {
        None => Err(AccessDenied::Unauthorized),
        Some(u) => if u.is_active {
            Ok(())
        } else {
            Err(AccessDenied::Forbidden)
        },
    }
}

/// The decision of the admin-only middleware for the request's user.
pub fn require_admin_decision(user: Option<&AuthenticatedUser>) -> (r: Result<(), AccessDenied>)
    ensures
        match user {
            None => r == Err::<(), AccessDenied>(AccessDenied::Unauthorized),
            Some(u) => if is_admin_roles(u.roles@) {
                r is Ok
            } else {
                r == Err::<(), AccessDenied>(AccessDenied::Forbidden)
            },
        },
{
    match user {
        None => Err(AccessDenied::Unauthorized),
        Some(u) => if u.is_admin() {
            Ok(())
        } else {
            Err(AccessDenied::Forbidden)
        },
    }
}

/// The decision of the user-only middleware: holders of `user` and admins pass.
pub fn require_user_decision(user: Option<&AuthenticatedUser>) -> (r: Result<(), AccessDenied>)
    ensures
        match user {
            None => r == Err::<(), AccessDenied>(AccessDenied::Unauthorized),
            Some(u) => if holds_role(u.roles@, "user"@) || is_admin_roles(u.roles@) {
                r is Ok
            } else {
                r == Err::<(), AccessDenied>(AccessDenied::Forbidden)
            },
        },
{
    match user {
        None => Err(AccessDenied::Unauthorized),
        Some(u) => if !u.has_role("user") && !u.is_admin() {
            Err(AccessDenied::Forbidden)
        } else {
            Ok(())
        },
    }
}

/// Whether the optional-authentication middleware attaches the validated user
/// to the request: only an active one.
pub fn optional_auth_attaches(validated: Option<&AuthenticatedUser>) -> (r: bool)
    ensures
        r == (validated matches Some(u) && u.is_active),
{
    match validated {
        Some(u) => u.is_active,
        None => false,
    }
}

/// Whether `current` may access the data of user `target_user_id`: admins may
/// access anyone's, others only their own.
pub open spec fn may_access(current: AuthenticatedUser, target_user_id: i64) -> bool {
    is_admin_roles(current.roles@) || current.id == target_user_id
}

/// Check if current user can access another user's data.
pub fn can_access_user_data(current_user: &AuthenticatedUser, target_user_id: i64) -> (r: bool)
    ensures
        r == may_access(*current_user, target_user_id),
{
    if current_user.is_admin() {
        return true;
    }
    current_user.id == target_user_id
}

/// Every user may access their own data.
pub proof fn own_data_is_accessible(current: AuthenticatedUser)
    ensures
        may_access(current, current.id),
{
}

/// An administrator may access the data of any user.
pub proof fn admins_access_any_user(current: AuthenticatedUser, target_user_id: i64)
    requires
        is_admin_roles(current.roles@),
    ensures
        may_access(current, target_user_id),
{
}

/// A user who is no administrator may access no one's data but their own.
pub proof fn others_access_only_their_own(current: AuthenticatedUser, target_user_id: i64)
    requires
        !is_admin_roles(current.roles@),
    ensures
        may_access(current, target_user_id) <==> current.id == target_user_id,
{
}

/// Authentication error responses.
#[derive(Debug, Clone)]
pub struct AuthErrorResponse {
    pub error: String,
    pub message: String,
    pub code: String,
}

impl AuthErrorResponse {
    pub fn unauthorized() -> (r: Self)
        ensures
            r.error@ == "Unauthorized"@,
            r.message@ == "Authentication required"@,
            r.code@ == "AUTH_REQUIRED"@,
    {
        AuthErrorResponse {
            error: owned("Unauthorized"),
            message: owned("Authentication required"),
            code: owned("AUTH_REQUIRED"),
        }
    }

    pub fn forbidden() -> (r: Self)
        ensures
            r.error@ == "Forbidden"@,
            r.message@ == "Insufficient permissions"@,
            r.code@ == "INSUFFICIENT_PERMISSIONS"@,
    {
        AuthErrorResponse {
            error: owned("Forbidden"),
            message: owned("Insufficient permissions"),
            code: owned("INSUFFICIENT_PERMISSIONS"),
        }
    }

    pub fn invalid_token() -> (r: Self)
        ensures
            r.error@ == "Invalid Token"@,
            r.message@ == "The provided authentication token is invalid"@,
            r.code@ == "INVALID_TOKEN"@,
    {
        AuthErrorResponse {
            error: owned("Invalid Token"),
            message: owned("The provided authentication token is invalid"),
            code: owned("INVALID_TOKEN"),
        }
    }

    pub fn inactive_user() -> (r: Self)
        ensures
            r.error@ == "Account Inactive"@,
            r.message@ == "Your account has been deactivated"@,
            r.code@ == "ACCOUNT_INACTIVE"@,
    {
        AuthErrorResponse {
            error: owned("Account Inactive"),
            message: owned("Your account has been deactivated"),
            code: owned("ACCOUNT_INACTIVE"),
        }
    }
}

/// 401 with the "authentication required" body.
pub fn unauthorized_response() -> (r: (u16, AuthErrorResponse))
    ensures
        r.0 == 401,
        r.1.code@ == "AUTH_REQUIRED"@,
        r.1.error@ == "Unauthorized"@,
        r.1.message@ == "Authentication required"@,
{
    (401, AuthErrorResponse::unauthorized())
}

/// 403 with the "insufficient permissions" body.
pub fn forbidden_response() -> (r: (u16, AuthErrorResponse))
    ensures
        r.0 == 403,
        r.1.code@ == "INSUFFICIENT_PERMISSIONS"@,
        r.1.error@ == "Forbidden"@,
        r.1.message@ == "Insufficient permissions"@,
{
    (403, AuthErrorResponse::forbidden())
}

/// 401 with the "invalid token" body.
pub fn invalid_token_response() -> (r: (u16, AuthErrorResponse))
    ensures
        r.0 == 401,
        r.1.code@ == "INVALID_TOKEN"@,
        r.1.error@ == "Invalid Token"@,
        r.1.message@ == "The provided authentication token is invalid"@,
{
    (401, AuthErrorResponse::invalid_token())
}

/// 403 with the "account inactive" body.
pub fn inactive_user_response() -> (r: (u16, AuthErrorResponse))
    ensures
        r.0 == 403,
        r.1.code@ == "ACCOUNT_INACTIVE"@,
        r.1.error@ == "Account Inactive"@,
        r.1.message@ == "Your account has been deactivated"@,
{
    (403, AuthErrorResponse::inactive_user())
}

/// The claims of a test token issued at `now` (seconds since the Unix epoch),
/// valid for one hour, for the development realm and client.
pub fn test_token_claims(
    user_id: &str,
    username: &str,
    email: &str,
    roles: Vec<String>,
    now: usize,
) -> (r: KeycloakClaims)
    requires
        now + 3600 <= usize::MAX,
    ensures
        r.sub@ == user_id@,
        r.preferred_username@ == username@,
        r.email@ == email@,
        r.name matches Some(n) && n@ == username@,
        r.given_name matches Some(n) && n@ == username@,
        r.family_name is None,
        r.realm_access.roles@ == roles@,
        r.resource_access is None,
        r.exp == now + 3600,
        r.iat == now,
        r.iss@ == "http://localhost:8080/realms/stepheybot"@,
        texts(r.aud@) == seq!["stepheybot-music"@],
{
    KeycloakClaims {
        sub: owned(user_id),
        preferred_username: owned(username),
        email: owned(email),
        name: Some(owned(username)),
        given_name: Some(owned(username)),
        family_name: None,
        realm_access: RealmAccess { roles },
        resource_access: None,
        exp: now + 3600,
        iat: now,
        iss: owned("http://localhost:8080/realms/stepheybot"),
        aud: single("stepheybot-music"),
    }
}

} // verus!
