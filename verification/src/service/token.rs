use vstd::prelude::*;

use sha2::Digest;

use crate::db::entities::api_tokens::{Model, NewModel};
use crate::error::AppError;
use crate::service::value_or;
use crate::text::{concat2, str_equal};
use crate::timestamp::{now, Timestamp};

verus! {

// ---------------------------------------------------------------------------
// Hashing (sha2 + hex)
// ---------------------------------------------------------------------------

/// What `<sha2::Sha256 as Digest>::digest` returns for `data`.
pub uninterp spec fn sha256_of(data: Seq<u8>) -> Seq<u8>;

/// SHA-256 with `sha2::Sha256::digest`. Claims: the 32-byte digest is the
/// named result for the input bytes.
#[verifier::external_body]
fn sha256_digest(data: &[u8]) -> (r: Vec<u8>)
    ensures
        r@ == sha256_of(data@),
        r@.len() == 32,
{
    sha2::Sha256::digest(data).to_vec()
}

/// Lowercase hexadecimal digit for a value below 16.
pub open spec fn hex_digit(v: int) -> char {
    if v < 10 {
        (v + 48) as char
    } else {
        (v - 10 + 97) as char
    }
}

/// Lowercase hex encoding: two digits per byte, high nibble first.
pub open spec fn hex_lower(data: Seq<u8>) -> Seq<char> {
    Seq::new(
        2 * data.len(),
        |i: int|
            if i % 2 == 0 {
                hex_digit(data[i / 2] as int / 16)
            } else {
                hex_digit(data[i / 2] as int % 16)
            },
    )
}

/// `hex::encode`. Claims: the result is the lowercase hex encoding of the
/// bytes, two digits per byte, high nibble first (the crate maps each nibble
/// through the table `0123456789abcdef`).
#[verifier::external_body]
fn hex_encode(data: &[u8]) -> (r: String)
    ensures
        r@ == hex_lower(data@),
{
    hex::encode(data)
}

/// The stored hash of a raw token: SHA-256 of its UTF-8 bytes, in lowercase hex.
pub open spec fn token_hash_of(raw: Seq<char>) -> Seq<char> {
    hex_lower(sha256_of(vstd::utf8::encode_utf8(raw)))
}

/// Hash a raw token using SHA-256, returning a lowercase hex string.
pub fn hash_token(raw: &str) -> (h: String)
    ensures
        h@ == token_hash_of(raw@),
        h@.len() == 64,
{
    let digest = sha256_digest(raw.as_bytes());
    hex_encode(digest.as_slice())
}

// ---------------------------------------------------------------------------
// Token generation (uuid)
// ---------------------------------------------------------------------------

/// A lowercase hexadecimal digit.
pub open spec fn is_hex_lower_char(c: char) -> bool {
    ('0' <= c && c <= '9') || ('a' <= c && c <= 'f')
}

/// The simple (32 lowercase hex digits, no dashes) form of a version-4 UUID:
/// the version digit is '4' and the variant digit is one of '8', '9', 'a', 'b'.
pub open spec fn is_uuid_v4_simple(s: Seq<char>) -> bool {
    &&& s.len() == 32
    &&& forall|i: int| 0 <= i < 32 ==> is_hex_lower_char(#[trigger] s[i])
    &&& s[12] == '4'
    &&& (s[16] == '8' || s[16] == '9' || s[16] == 'a' || s[16] == 'b')
}

/// `uuid::Uuid::new_v4()` in its simple form. Claims only what every random
/// version-4 UUID satisfies: 32 lowercase hex digits with the version and
/// variant digits of RFC 9562; the other digits are random.
#[verifier::external_body]
fn uuid_v4_simple() -> (s: String)
    ensures
        is_uuid_v4_simple(s@),
{
    uuid::Uuid::new_v4().simple().to_string()
}

/// A raw API token: `at_` followed by the simple form of a version-4 UUID.
pub open spec fn is_raw_token(s: Seq<char>) -> bool {
    s.len() == 35 && s.take(3) == "at_"@ && is_uuid_v4_simple(s.skip(3))
}

/// Generate a cryptographically-random API token string
/// (`at_<uuid_v4_without_dashes>`).
pub fn generate_token() -> (t: String)
    ensures
        is_raw_token(t@),
{
    let u = uuid_v4_simple();
    let t = concat2("at_", u.as_str());
    proof {
        reveal_strlit("at_");
        assert(t@.take(3) =~= "at_"@);
        assert(t@.skip(3) =~= u@);
    }
    t
}

// ---------------------------------------------------------------------------
// DTOs
// ---------------------------------------------------------------------------

/// DTO for creating a new token.
#[derive(Clone, Debug)]
pub struct CreateTokenDto {
    pub label: String,
    pub expires_at: Option<Timestamp>,
    pub rpm_limit: Option<i32>,
    pub tpm_limit: Option<i32>,
}

/// DTO for updating an existing token (all fields optional).
#[derive(Clone, Debug)]
pub struct UpdateTokenDto {
    pub label: Option<String>,
    pub enabled: Option<bool>,
    pub expires_at: Option<Timestamp>,
    pub rpm_limit: Option<i32>,
    pub tpm_limit: Option<i32>,
}

/// Public view of a token (never exposes the raw token or its hash).
#[derive(Clone, Debug)]
pub struct TokenDto {
    pub id: i64,
    pub label: String,
    pub expires_at: Option<Timestamp>,
    pub enabled: bool,
    pub rpm_limit: Option<i32>,
    pub tpm_limit: Option<i32>,
    pub created_at: Timestamp,
    pub updated_at: Timestamp,
}

pub open spec fn token_dto_of(m: Model) -> TokenDto {
    TokenDto {
        id: m.id,
        label: m.label,
        expires_at: m.expires_at,
        enabled: m.enabled,
        rpm_limit: m.rpm_limit,
        tpm_limit: m.tpm_limit,
        created_at: m.created_at,
        updated_at: m.updated_at,
    }
}

impl From<Model> for TokenDto {
    fn from(m: Model) -> (r: TokenDto) {
        TokenDto {
            id: m.id,
            label: m.label,
            expires_at: m.expires_at,
            enabled: m.enabled,
            rpm_limit: m.rpm_limit,
            tpm_limit: m.tpm_limit,
            created_at: m.created_at,
            updated_at: m.updated_at,
        }
    }
}

impl vstd::std_specs::convert::FromSpecImpl<Model> for TokenDto {
    open spec fn obeys_from_spec() -> bool {
        true
    }

    open spec fn from_spec(m: Model) -> TokenDto {
        token_dto_of(m)
    }
}

// ---------------------------------------------------------------------------
// Validation
// ---------------------------------------------------------------------------

/// The expiry of `token` does not lie before `t`.
pub open spec fn unexpired_at(token: Model, t: Timestamp) -> bool {
    match token.expires_at {
        Some(e) => !e.precedes(t),
        None => true,
    }
}

/// The stored token `token` accepts the presented raw token `raw` at time
/// `t`: its hash is the hash of `raw`, it is enabled, and its expiry (if
/// any) does not lie before `t`.
pub open spec fn token_accepted_at(token: Model, raw: Seq<char>, t: Timestamp) -> bool {
    &&& token.token_hash@ == token_hash_of(raw)
    &&& token.enabled
    &&& unexpired_at(token, t)
}

/// The answer to presenting `raw` at time `t` when the lookup by its hash
/// gave `found`: the stored token when it accepts `raw` at `t`, otherwise
/// `Unauthorized`.
pub open spec fn token_decision(raw: Seq<char>, found: Option<Model>, t: Timestamp) -> Result<Model, AppError> {
    match found {
        Some(tok) => if token_accepted_at(tok, raw, t) {
            Ok(tok)
        } else {
            Err(AppError::Unauthorized)
        },
        None => Err(AppError::Unauthorized),
    }
}

/// An instant the clock (`chrono::Utc::now`) can report.
pub open spec fn clock_instant(t: Timestamp) -> bool {
    -9_000_000_000_000 < t.secs < 9_000_000_000_000
}

/// Decide the presented raw token `raw` at time `t`, given the stored token
/// looked up by its hash (`None` when there is none): the token is returned
/// when it accepts `raw` at `t`; unknown, disabled and expired tokens are
/// `Unauthorized`.
pub fn check_token_at(raw: &str, found: Option<Model>, t: Timestamp) -> (r: Result<Model, AppError>)
    ensures
        found is None ==> r == Err::<Model, AppError>(AppError::Unauthorized),
        found matches Some(tok) ==> (if token_accepted_at(tok, raw@, t) {
            r == Ok::<Model, AppError>(tok)
        } else {
            r == Err::<Model, AppError>(AppError::Unauthorized)
        }),
        r == token_decision(raw@, found, t),
{
    let token = match found {
        Some(tok) => tok,
        None => {
            return Err(AppError::Unauthorized);
        },
    };
    let presented = hash_token(raw);
    if !str_equal(token.token_hash.as_str(), presented.as_str()) || !token.enabled {
        return Err(AppError::Unauthorized);
    }
    if let Some(expires_at) = token.expires_at {
        if expires_at.is_before(&t) {
            return Err(AppError::Unauthorized);
        }
    }
    Ok(token)
}

/// Validate the presented raw token `raw` against the current time, given
/// the stored token looked up by its hash (`None` when there is none). The
/// answer is the decision at one instant read from the clock; which instant
/// that is rests on the system clock, so no clause names it.
pub fn validate(raw: &str, found: Option<Model>) -> (r: Result<Model, AppError>)
    ensures
        found is None ==> r == Err::<Model, AppError>(AppError::Unauthorized),
        found matches Some(tok) ==> (r == Ok::<Model, AppError>(tok) || r == Err::<Model, AppError>(AppError::Unauthorized)),
        found matches Some(tok) ==> (r is Ok ==> tok.token_hash@ == token_hash_of(raw@) && tok.enabled),
        found matches Some(tok) ==> (tok.token_hash@ == token_hash_of(raw@) && tok.enabled && tok.expires_at is None
            ==> r == Ok::<Model, AppError>(tok)),
        exists|t: Timestamp| clock_instant(t) && r == #[trigger] token_decision(raw@, found, t),
{
    let t = now();
    let r = check_token_at(raw, found, t);
    assert(clock_instant(t) && r == token_decision(raw@, found, t));
    r
}

// ---------------------------------------------------------------------------
// Records written by create / update / delete
// ---------------------------------------------------------------------------

/// The token record stored for `dto`, with hash `token_hash`, at time `t`:
/// enabled, limits and expiry as given.
pub fn new_token(dto: CreateTokenDto, token_hash: String, t: Timestamp) -> (m: NewModel)
    ensures
        m == (NewModel {
            token_hash,
            label: dto.label,
            expires_at: dto.expires_at,
            enabled: true,
            rpm_limit: dto.rpm_limit,
            tpm_limit: dto.tpm_limit,
            created_at: t,
            updated_at: t,
        }),
{
    NewModel {
        token_hash,
        label: dto.label,
        expires_at: dto.expires_at,
        enabled: true,
        rpm_limit: dto.rpm_limit,
        tpm_limit: dto.tpm_limit,
        created_at: t,
        updated_at: t,
    }
}

/// Create a new token. Returns the record to store and the raw token; the
/// raw token is only available here, the record holds its hash.
pub fn create(dto: CreateTokenDto) -> (r: (NewModel, String))
    ensures
        is_raw_token(r.1@),
        r.0.token_hash@ == token_hash_of(r.1@),
        r.0.label == dto.label,
        r.0.expires_at == dto.expires_at,
        r.0.enabled,
        r.0.rpm_limit == dto.rpm_limit,
        r.0.tpm_limit == dto.tpm_limit,
        r.0.created_at == r.0.updated_at,
{
    let raw_token = generate_token();
    let token_hash = hash_token(raw_token.as_str());
    let model = new_token(dto, token_hash, now());
    (model, raw_token)
}

/// The token `existing` after the update `dto` at time `t`.
pub open spec fn token_updated(existing: Model, dto: UpdateTokenDto, t: Timestamp) -> Model {
    Model {
        label: value_or(dto.label, existing.label),
        enabled: value_or(dto.enabled, existing.enabled),
        expires_at: if dto.expires_at is Some { dto.expires_at } else { existing.expires_at },
        rpm_limit: if dto.rpm_limit is Some { dto.rpm_limit } else { existing.rpm_limit },
        tpm_limit: if dto.tpm_limit is Some { dto.tpm_limit } else { existing.tpm_limit },
        updated_at: t,
        ..existing
    }
}

/// `existing` after applying `dto` at time `t`: each field the DTO gives
/// replaces the stored one, the others are kept; the update time is `t`.
pub fn apply_token_update(existing: Model, dto: UpdateTokenDto, t: Timestamp) -> (m: Model)
    ensures
        m == token_updated(existing, dto, t),
        m.id == existing.id,
        m.token_hash == existing.token_hash,
        m.created_at == existing.created_at,
        m.label == value_or(dto.label, existing.label),
        m.enabled == value_or(dto.enabled, existing.enabled),
        dto.expires_at is Some ==> m.expires_at == dto.expires_at,
        dto.expires_at is None ==> m.expires_at == existing.expires_at,
        dto.rpm_limit is Some ==> m.rpm_limit == dto.rpm_limit,
        dto.rpm_limit is None ==> m.rpm_limit == existing.rpm_limit,
        dto.tpm_limit is Some ==> m.tpm_limit == dto.tpm_limit,
        dto.tpm_limit is None ==> m.tpm_limit == existing.tpm_limit,
        m.updated_at == t,
{
    let mut m = existing;
    if let Some(label) = dto.label {
        m.label = label;
    }
    if let Some(enabled) = dto.enabled {
        m.enabled = enabled;
    }
    if let Some(expires_at) = dto.expires_at {
        m.expires_at = Some(expires_at);
    }
    if let Some(rpm) = dto.rpm_limit {
        m.rpm_limit = Some(rpm);
    }
    if let Some(tpm) = dto.tpm_limit {
        m.tpm_limit = Some(tpm);
    }
    m.updated_at = t;
    m
}

/// Update mutable fields of an existing token, stamped with the current time.
pub fn update(existing: Model, dto: UpdateTokenDto) -> (m: Model)
    ensures
        m == token_updated(existing, dto, m.updated_at),
        m.id == existing.id,
        m.token_hash == existing.token_hash,
        m.created_at == existing.created_at,
        m.label == value_or(dto.label, existing.label),
        m.enabled == value_or(dto.enabled, existing.enabled),
        dto.expires_at is Some ==> m.expires_at == dto.expires_at,
        dto.expires_at is None ==> m.expires_at == existing.expires_at,
        dto.rpm_limit is Some ==> m.rpm_limit == dto.rpm_limit,
        dto.rpm_limit is None ==> m.rpm_limit == existing.rpm_limit,
        dto.tpm_limit is Some ==> m.tpm_limit == dto.tpm_limit,
        dto.tpm_limit is None ==> m.tpm_limit == existing.tpm_limit,
{
    apply_token_update(existing, dto, now())
}

/// Soft delete at time `t`: the token is disabled, nothing else changes but
/// the update time.
pub fn disable_token_at(existing: Model, t: Timestamp) -> (m: Model)
    ensures
        m == (Model { enabled: false, updated_at: t, ..existing }),
{
    Model { enabled: false, updated_at: t, ..existing }
}

/// Disable a token (soft delete), stamped with the current time.
pub fn delete(existing: Model) -> (m: Model)
    ensures
        m == (Model { enabled: false, updated_at: m.updated_at, ..existing }),
{
    disable_token_at(existing, now())
}


/// The token looked up by `id`: the stored one, or `TokenNotFound`.
pub fn get(found: Option<Model>, id: i64) -> (r: Result<Model, AppError>)
    ensures
        found matches Some(m) ==> r == Ok::<Model, AppError>(m),
        found is None ==> r == Err::<Model, AppError>(AppError::TokenNotFound { id }),
{
    match found {
        Some(m) => Ok(m),
        None => Err(AppError::TokenNotFound { id }),
    }
}


// ---------------------------------------------------------------------------
// Laws of tokens
// ---------------------------------------------------------------------------

/// Law of token updates: an update that gives no field changes nothing but
/// the update time; an update keeps the id, the hash and the creation time;
/// applying the same update twice is applying it once.
pub proof fn law_token_update(existing: Model, dto: UpdateTokenDto, t1: Timestamp, t2: Timestamp)
    ensures
        dto.label is None && dto.enabled is None && dto.expires_at is None && dto.rpm_limit is None
            && dto.tpm_limit is None ==> token_updated(existing, dto, t1) == (Model { updated_at: t1, ..existing }),
        token_updated(existing, dto, t1).id == existing.id,
        token_updated(existing, dto, t1).token_hash == existing.token_hash,
        token_updated(existing, dto, t1).created_at == existing.created_at,
        token_updated(token_updated(existing, dto, t1), dto, t2) == token_updated(existing, dto, t2),
{
}

/// Law of token expiry: a token without expiry is unexpired at every time;
/// a token accepted at some time is accepted at every earlier time.
pub proof fn law_token_expiry(token: Model, raw: Seq<char>, earlier: Timestamp, later: Timestamp)
    requires
        earlier.precedes(later),
    ensures
        token.expires_at is None ==> unexpired_at(token, earlier) && unexpired_at(token, later),
        token_accepted_at(token, raw, later) ==> token_accepted_at(token, raw, earlier),
{
}

/// The row the store holds for the new token `n` once it has the id `id`.
pub open spec fn stored_token(n: NewModel, id: i64) -> Model {
    Model {
        id,
        token_hash: n.token_hash,
        label: n.label,
        expires_at: n.expires_at,
        enabled: n.enabled,
        rpm_limit: n.rpm_limit,
        tpm_limit: n.tpm_limit,
        created_at: n.created_at,
        updated_at: n.updated_at,
    }
}

/// Law of the token round trip: the record `create` hands out for a raw
/// token (its hash, enabled), once stored under any id, accepts that raw
/// token at every time its expiry (if any) has not passed; so validating the
/// raw token against the stored row gives the row back.
pub proof fn law_token_round_trip(n: NewModel, raw: Seq<char>, id: i64, t: Timestamp)
    requires
        n.token_hash@ == token_hash_of(raw),
        n.enabled,
        n.expires_at matches Some(e) ==> !e.precedes(t),
    ensures
        token_accepted_at(stored_token(n, id), raw, t),
{
}

/// Law of deleted tokens: a token disabled by `delete` (at any time) accepts
/// no raw token at any time, so every later validation is `Unauthorized`.
pub proof fn law_deleted_token_refused(existing: Model, deleted_at: Timestamp, raw: Seq<char>, t: Timestamp)
    ensures
        !token_accepted_at(Model { enabled: false, updated_at: deleted_at, ..existing }, raw, t),
{
}

/// Law of token updates, field by field: every field the DTO gives
/// replaces the stored one, every field it leaves out is kept, and id, hash
/// and creation time never change.
pub proof fn law_token_update_fields(existing: Model, dto: UpdateTokenDto, t: Timestamp)
    ensures
        dto.label matches Some(l) ==> token_updated(existing, dto, t).label == l,
        dto.label is None ==> token_updated(existing, dto, t).label == existing.label,
        dto.enabled matches Some(e) ==> token_updated(existing, dto, t).enabled == e,
        dto.enabled is None ==> token_updated(existing, dto, t).enabled == existing.enabled,
        dto.expires_at is Some ==> token_updated(existing, dto, t).expires_at == dto.expires_at,
        dto.expires_at is None ==> token_updated(existing, dto, t).expires_at == existing.expires_at,
        dto.rpm_limit is Some ==> token_updated(existing, dto, t).rpm_limit == dto.rpm_limit,
        dto.rpm_limit is None ==> token_updated(existing, dto, t).rpm_limit == existing.rpm_limit,
        dto.tpm_limit is Some ==> token_updated(existing, dto, t).tpm_limit == dto.tpm_limit,
        dto.tpm_limit is None ==> token_updated(existing, dto, t).tpm_limit == existing.tpm_limit,
        token_updated(existing, dto, t).id == existing.id,
        token_updated(existing, dto, t).token_hash == existing.token_hash,
        token_updated(existing, dto, t).created_at == existing.created_at,
        token_updated(existing, dto, t).updated_at == t,
{
}

/// Law of token decisions: a presented token is accepted at time `t` only
/// when the stored hash is the hash of the raw token, the token is enabled,
/// and its expiry (if any) does not lie before `t`; a token whose expiry
/// lies before `t` is refused at `t`, whatever else holds of it.
pub proof fn law_token_decision(raw: Seq<char>, tok: Model, t: Timestamp)
    ensures
        token_decision(raw, Some(tok), t) is Ok ==> tok.token_hash@ == token_hash_of(raw) && tok.enabled
            && (tok.expires_at is None || !tok.expires_at->0.precedes(t)),
        tok.expires_at matches Some(e) && e.precedes(t)
            ==> token_decision(raw, Some(tok), t) == Err::<Model, AppError>(AppError::Unauthorized),
        token_decision(raw, None, t) == Err::<Model, AppError>(AppError::Unauthorized),
{
}

} // verus!
