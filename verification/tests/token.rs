use api_transit::db::entities::api_tokens;
use api_transit::error::AppError;
use api_transit::service::token::{
    apply_token_update, check_token_at, create, delete, disable_token_at, generate_token, get,
    hash_token, new_token, validate, CreateTokenDto, TokenDto, UpdateTokenDto,
};
use api_transit::timestamp::Timestamp;

fn ts(secs: i64) -> Timestamp {
    Timestamp { secs, nanos: 0 }
}

const RAW: &str = "at_0123456789abcdef0123456789abcdef";

fn token(expires_at: Option<Timestamp>) -> api_tokens::Model {
    api_tokens::Model {
        id: 3,
        token_hash: hash_token(RAW),
        label: "l".to_string(),
        expires_at,
        enabled: true,
        rpm_limit: Some(10),
        tpm_limit: None,
        created_at: ts(1),
        updated_at: ts(1),
    }
}

#[test]
fn hash_is_sha256_lowercase_hex() {
    assert_eq!(hash_token("abc"), "ba7816bf8f01cfea414140de5dae2223b00361a396177a9cb410ff61f20015ad");
    assert_eq!(hash_token(""), "e3b0c44298fc1c149afbf4c8996fb92427ae41e4649b934ca495991b7852b855");
}

#[test]
fn generated_tokens_have_the_documented_form() {
    let t = generate_token();
    assert_eq!(t.len(), 35);
    assert!(t.starts_with("at_"));
    let body = &t[3..];
    assert!(body.chars().all(|c| c.is_ascii_digit() || ('a'..='f').contains(&c)));
    assert_eq!(&body[12..13], "4");
    assert!("89ab".contains(&body[16..17]));
    assert_ne!(generate_token(), t);
}

#[test]
fn unknown_token_is_unauthorized() {
    assert!(matches!(check_token_at(RAW, None, ts(10)), Err(AppError::Unauthorized)));
    assert!(matches!(validate(RAW, None), Err(AppError::Unauthorized)));
}

#[test]
fn expiry_is_checked_against_the_time() {
    assert_eq!(check_token_at(RAW, Some(token(None)), ts(10)).unwrap().id, 3);
    assert!(check_token_at(RAW, Some(token(Some(ts(10)))), ts(10)).is_ok());
    assert!(matches!(check_token_at(RAW, Some(token(Some(ts(9)))), ts(10)), Err(AppError::Unauthorized)));
    let later = Timestamp { secs: 10, nanos: 5 };
    assert!(matches!(check_token_at(RAW, Some(token(Some(ts(10)))), later), Err(AppError::Unauthorized)));
    assert!(validate(RAW, Some(token(None))).is_ok());
    assert!(validate(RAW, Some(token(Some(ts(0))))).is_err());
}

#[test]
fn wrong_raw_token_and_disabled_token_are_refused() {
    assert!(matches!(check_token_at("at_other", Some(token(None)), ts(10)), Err(AppError::Unauthorized)));
    let mut disabled = token(None);
    disabled.enabled = false;
    assert!(matches!(check_token_at(RAW, Some(disabled), ts(10)), Err(AppError::Unauthorized)));
}

#[test]
fn created_token_round_trips_until_deleted() {
    let (n, raw) = create(CreateTokenDto { label: "bot".to_string(), expires_at: None, rpm_limit: None, tpm_limit: None });
    let stored = api_tokens::Model {
        id: 7,
        token_hash: n.token_hash.clone(),
        label: n.label.clone(),
        expires_at: n.expires_at,
        enabled: n.enabled,
        rpm_limit: n.rpm_limit,
        tpm_limit: n.tpm_limit,
        created_at: n.created_at,
        updated_at: n.updated_at,
    };
    let back = validate(&raw, Some(stored.clone())).unwrap();
    assert_eq!(back.id, 7);
    assert_eq!(back.token_hash, stored.token_hash);
    let deleted = delete(stored);
    assert!(!deleted.enabled);
    assert!(matches!(validate(&raw, Some(deleted)), Err(AppError::Unauthorized)));
}

#[test]
fn create_stores_the_hash_of_the_returned_token() {
    let (m, raw) = create(CreateTokenDto { label: "bot".to_string(), expires_at: None, rpm_limit: Some(5), tpm_limit: None });
    assert_eq!(m.token_hash, hash_token(&raw));
    assert!(raw.starts_with("at_"));
    assert!(m.enabled);
    assert_eq!(m.label, "bot");
    assert_eq!(m.rpm_limit, Some(5));
    assert_eq!(m.created_at, m.updated_at);
    let n = new_token(CreateTokenDto { label: "x".to_string(), expires_at: Some(ts(4)), rpm_limit: None, tpm_limit: Some(2) }, "hh".to_string(), ts(3));
    assert_eq!(n.token_hash, "hh");
    assert_eq!(n.expires_at, Some(ts(4)));
    assert_eq!(n.created_at, ts(3));
}

#[test]
fn update_applies_only_given_fields() {
    let empty = UpdateTokenDto { label: None, enabled: None, expires_at: None, rpm_limit: None, tpm_limit: None };
    let m = apply_token_update(token(None), empty, ts(7));
    assert_eq!(m.label, "l");
    assert_eq!(m.rpm_limit, Some(10));
    assert_eq!(m.updated_at, ts(7));
    let d = UpdateTokenDto { label: Some("new".to_string()), enabled: Some(false), expires_at: Some(ts(99)), rpm_limit: None, tpm_limit: Some(4) };
    let m = apply_token_update(token(None), d, ts(8));
    assert_eq!(m.label, "new");
    assert!(!m.enabled);
    assert_eq!(m.expires_at, Some(ts(99)));
    assert_eq!(m.rpm_limit, Some(10));
    assert_eq!(m.tpm_limit, Some(4));
    assert_eq!(m.token_hash, hash_token(RAW));
}

#[test]
fn delete_disables() {
    let m = disable_token_at(token(None), ts(5));
    assert!(!m.enabled);
    assert_eq!(m.updated_at, ts(5));
    assert!(!delete(token(None)).enabled);
}

#[test]
fn get_and_public_view() {
    assert!(matches!(get(None, 8), Err(AppError::TokenNotFound { id: 8 })));
    let dto = TokenDto::from(token(None));
    assert_eq!(dto.id, 3);
    assert_eq!(dto.label, "l");
}
