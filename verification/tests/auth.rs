use api_transit::api::auth_api::{login, LoginRequest};
use api_transit::db::entities::api_tokens;
use api_transit::error::AppError;
use api_transit::middleware::auth::{extract_bearer, AdminAuth, TokenAuth};
use api_transit::timestamp::Timestamp;

#[test]
fn bearer_token_is_extracted() {
    assert_eq!(extract_bearer(Some(b"Bearer abc")).as_deref(), Some("abc"));
    assert_eq!(extract_bearer(Some(b"Bearer ")).as_deref(), Some(""));
    assert_eq!(extract_bearer(Some(b"Basic abc")), None);
    assert_eq!(extract_bearer(Some(b"bearer abc")), None);
    assert_eq!(extract_bearer(Some(&[66, 101, 97, 114, 101, 114, 32, 200])), None);
    assert_eq!(extract_bearer(None), None);
}

#[test]
fn admin_auth_requires_the_secret() {
    assert!(AdminAuth::check(Some(b"Bearer s3cret"), "s3cret").is_ok());
    let e = AdminAuth::check(Some(b"Bearer wrong"), "s3cret").unwrap_err();
    assert_eq!((e.status, e.code, e.message), (401, "UNAUTHORIZED", "Invalid admin secret"));
    let e = AdminAuth::check(None, "s3cret").unwrap_err();
    assert_eq!((e.status, e.code, e.message), (401, "UNAUTHORIZED", "Missing Authorization header"));
}

#[test]
fn token_auth_decisions() {
    assert_eq!(TokenAuth::bearer(Some(b"Bearer t")).unwrap(), "t");
    let e = TokenAuth::bearer(Some(b"Token t")).unwrap_err();
    assert_eq!(e.message, "Missing Authorization header");
    let t = api_tokens::Model {
        id: 42,
        token_hash: "h".to_string(),
        label: "l".to_string(),
        expires_at: None,
        enabled: true,
        rpm_limit: None,
        tpm_limit: None,
        created_at: Timestamp { secs: 0, nanos: 0 },
        updated_at: Timestamp { secs: 0, nanos: 0 },
    };
    assert_eq!(TokenAuth::accept(Ok(t)).unwrap(), 42);
    let e = TokenAuth::accept(Err(AppError::Unauthorized)).unwrap_err();
    assert_eq!((e.status, e.message), (401, "Invalid or expired token"));
}

#[test]
fn login_returns_the_secret() {
    let secret = "adm".to_string();
    assert_eq!(login(&LoginRequest { password: "adm".to_string() }, &secret).unwrap().token, "adm");
    assert!(matches!(login(&LoginRequest { password: "x".to_string() }, &secret), Err(AppError::Unauthorized)));
}
