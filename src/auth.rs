use vstd::prelude::*;
use crate::config::ApiConfig;
use crate::error::ApiError;

verus! {

/// How long an issued token stays valid: one week, in seconds.
pub const TOKEN_LIFETIME_SECS: u64 = 604800;

/// Credentials offered at login.
pub struct LoginRequest {
    pub username: String,
    pub password: String,
}

/// An issued token and when it expires (seconds since the Unix epoch).
pub struct LoginResponse {
    pub token: String,
    pub expires_at: u64,
}

/// What a token asserts: who it was issued to and when it expires.
pub struct Claims {
    pub sub: String,
    pub exp: u64,
}

/// Whether the credentials are the configured administrator's.
pub fn check_credentials(config: &ApiConfig, request: &LoginRequest) -> (r: bool)
    ensures
        r == (request.username@ == config.admin_user@ && request.password@ == config.admin_password@),
{
    request.username == config.admin_user && request.password == config.admin_password
}

/// The claims of a login at time `now`: for the configured administrator, a token for that
/// user that expires one week later; any other credentials are unauthorized.
pub fn claims_for_login(config: &ApiConfig, request: &LoginRequest, now: u64) -> (r: Result<Claims, ApiError>)
    ensures
        !(request.username@ == config.admin_user@ && request.password@ == config.admin_password@)
            ==> r matches Err(ApiError::Unauthorized),
        request.username@ == config.admin_user@ && request.password@ == config.admin_password@
            && now + TOKEN_LIFETIME_SECS <= u64::MAX ==> (r matches Ok(c) && c.sub@ == request.username@
            && c.exp == now + TOKEN_LIFETIME_SECS),
        request.username@ == config.admin_user@ && request.password@ == config.admin_password@
            && now + TOKEN_LIFETIME_SECS > u64::MAX ==> r matches Err(ApiError::Internal(_)),
{
    if !check_credentials(config, request) {
        return Err(ApiError::Unauthorized);
    }
    if now > u64::MAX - TOKEN_LIFETIME_SECS {
        return Err(ApiError::Internal(String::from_str("invalid timestamp")));
    }
    Ok(Claims { sub: request.username.clone(), exp: now + TOKEN_LIFETIME_SECS })
}

/// The scheme prefix of an `Authorization` header that carries a token.
pub open spec fn bearer_prefix() -> Seq<char> {
    "Bearer "@
}

/// The token of an `Authorization` header of the form `Bearer <token>`, if it has that form.
pub fn bearer_token(header: &str) -> (r: Option<String>)
    ensures
        (header@.len() >= 7 && header@.subrange(0, 7) == bearer_prefix()) <==> r is Some,
        r matches Some(t) ==> t@ == header@.subrange(7, header@.len() as int),
{
    let prefix = "Bearer ";
    proof {
        reveal_strlit("Bearer ");
        assert(bearer_prefix().len() == 7);
    }
    let n = header.unicode_len();
    if n < 7 {
        return None;
    }
    let mut i: usize = 0;
    while i < 7
        invariant
            0 <= i <= 7 <= n,
            n == header@.len(),
            prefix@ == bearer_prefix(),
            bearer_prefix().len() == 7,
            header@.subrange(0, i as int) == bearer_prefix().subrange(0, i as int),
        decreases 7 - i,
    {
        if header.get_char(i) != prefix.get_char(i) {
            proof {
                assert(header@.subrange(0, 7)[i as int] != bearer_prefix()[i as int]);
            }
            return None;
        }
        proof {
            assert(header@.subrange(0, i + 1) =~= header@.subrange(0, i as int).push(header@[i as int]));
            assert(bearer_prefix().subrange(0, i + 1) =~= bearer_prefix().subrange(0, i as int).push(bearer_prefix()[i as int]));
        }
        i = i + 1;
    }
    proof {
        assert(bearer_prefix().subrange(0, 7) =~= bearer_prefix());
    }
    Some(String::from_str(header.substring_char(7, n)))
}

/// Proof that a request carried the expected static token.
pub struct Auth;

impl Auth {
    /// Accepts a request whose `Authorization` header is exactly `Bearer <expected_token>`.
    pub fn authorize(header: Option<&str>, expected_token: &str) -> (r: Result<Auth, ApiError>)
        ensures
            r is Ok <==> (header matches Some(h) && h@ == bearer_prefix() + expected_token@),
            r matches Err(e) ==> e is Unauthorized,
    {
        let wanted = String::from_str("Bearer ").concat(expected_token);
        proof {
            reveal_strlit("Bearer ");
        }
        match header {
            Some(h) => {
                if String::from_str(h) == wanted {
                    Ok(Auth)
                } else {
                    Err(ApiError::Unauthorized)
                }
            },
            None => Err(ApiError::Unauthorized),
        }
    }
}

} // verus!
