use treat_dispenser_api::auth::{bearer_token, check_credentials, claims_for_login, Auth, LoginRequest, TOKEN_LIFETIME_SECS};
use treat_dispenser_api::config::ApiConfig;
use treat_dispenser_api::error::ApiError;

fn api() -> ApiConfig {
    ApiConfig {
        listen_address: "0.0.0.0:3500".to_string(),
        admin_user: "admin".to_string(),
        admin_password: "password".to_string(),
    }
}

fn login(user: &str, password: &str) -> LoginRequest {
    LoginRequest { username: user.to_string(), password: password.to_string() }
}

#[test]
fn credentials_must_match() {
    assert!(check_credentials(&api(), &login("admin", "password")));
    assert!(!check_credentials(&api(), &login("admin", "Password")));
    assert!(!check_credentials(&api(), &login("root", "password")));
}

#[test]
fn login_claims_expire_after_a_week() {
    let claims = claims_for_login(&api(), &login("admin", "password"), 1_000).ok().unwrap();
    assert_eq!(claims.sub, "admin");
    assert_eq!(claims.exp, 1_000 + 7 * 24 * 3600);
    assert_eq!(TOKEN_LIFETIME_SECS, 604800);
    assert!(matches!(claims_for_login(&api(), &login("admin", "nope"), 1_000), Err(ApiError::Unauthorized)));
    assert!(matches!(claims_for_login(&api(), &login("admin", "password"), u64::MAX), Err(ApiError::Internal(_))));
}

#[test]
fn bearer_header_parsing() {
    assert_eq!(bearer_token("Bearer abc.def"), Some("abc.def".to_string()));
    assert_eq!(bearer_token("Bearer "), Some(String::new()));
    assert_eq!(bearer_token("Basic abc"), None);
    assert_eq!(bearer_token("Bearer"), None);
    assert_eq!(bearer_token("bearer abc"), None);
}

#[test]
fn static_token_authorization() {
    assert!(Auth::authorize(Some("Bearer SECRET-REDACTED"), "SECRET-REDACTED").is_ok());
    assert!(matches!(Auth::authorize(Some("Bearer other"), "SECRET-REDACTED"), Err(ApiError::Unauthorized)));
    assert!(matches!(Auth::authorize(None, "SECRET-REDACTED"), Err(ApiError::Unauthorized)));
}
