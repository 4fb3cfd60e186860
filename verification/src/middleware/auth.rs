use vstd::prelude::*;

use crate::db::entities::api_tokens;
use crate::error::AppError;
use crate::text::{chars_of, has_prefix, is_prefix_of, str_equal, string_of};

verus! {

/// A request refused by an authentication layer: the status, error code and
/// message of the JSON error answered to the client.
#[derive(Clone, Debug)]
pub struct AuthRejection {
    pub status: u16,
    pub code: &'static str,
    pub message: &'static str,
}

/// A header value byte that `HeaderValue::to_str` accepts (visible ASCII or tab).
pub open spec fn is_visible_ascii(b: u8) -> bool {
    (b >= 32 && b < 127) || b == 9
}

/// The raw bytes of an optional header value.
pub open spec fn header_bytes(h: Option<&[u8]>) -> Option<Seq<u8>> {
    match h {
        Some(v) => Some(v@),
        None => None,
    }
}

/// The characters of an ASCII byte string.
pub open spec fn ascii_text(v: Seq<u8>) -> Seq<char> {
    v.map_values(|b: u8| b as char)
}

/// The token carried by an `Authorization` header value: the text after
/// `Bearer `, when the value is visible ASCII and starts with it.
pub open spec fn bearer_of(header: Option<Seq<u8>>) -> Option<Seq<char>> {
    match header {
        Some(v) => if (forall|i: int| 0 <= i < v.len() ==> is_visible_ascii(#[trigger] v[i]))
            && is_prefix_of("Bearer "@, ascii_text(v)) {
            Some(ascii_text(v).skip("Bearer "@.len() as int))
        } else {
            None
        },
        None => None,
    }
}

/// The bearer token of the `Authorization` header (its first value, as raw
/// bytes; `None` when the request has none).
pub fn extract_bearer(authorization: Option<&[u8]>) -> (r: Option<String>)
    ensures
        r matches Some(s) ==> bearer_of(header_bytes(authorization)) == Some(s@),
        r is None ==> bearer_of(header_bytes(authorization)) is None,
{
    if authorization.is_none() {
        return None;
    }
    let v: &[u8] = authorization.unwrap();
    assert(header_bytes(authorization) == Some(v@));
    let mut text: Vec<char> = Vec::new();
    let mut i: usize = 0;
    while i < v.len()
        invariant
            i <= v@.len(),
            forall|j: int| 0 <= j < i ==> is_visible_ascii(#[trigger] v@[j]),
            header_bytes(authorization) == Some(v@),
            text@ == ascii_text(v@.take(i as int)),
        decreases v.len() - i,
    {
        let b = v[i];
        if !((b >= 32 && b < 127) || b == 9) {
            assert(!is_visible_ascii(v@[i as int]));
            return None;
        }
        text.push(b as char);
        assert(ascii_text(v@.take(i as int)).push(b as char) =~= ascii_text(v@.take(i + 1)));
        i = i + 1;
    }
    assert(v@.take(v@.len() as int) =~= v@);
    let prefix = chars_of("Bearer ");
    if !has_prefix(text.as_slice(), prefix.as_slice()) {
        return None;
    }
    let mut out: Vec<char> = Vec::new();
    let mut k: usize = prefix.len();
    while k < text.len()
        invariant
            prefix@.len() <= k <= text@.len(),
            out@ == text@.subrange(prefix@.len() as int, k as int),
        decreases text.len() - k,
    {
        out.push(text[k]);
        k = k + 1;
    }
    assert(out@ =~= text@.skip(prefix@.len() as int));
    Some(string_of(out.as_slice()))
}

fn missing_header() -> (r: AuthRejection)
    ensures
        r.status == 401,
        r.code@ == "UNAUTHORIZED"@,
        r.message@ == "Missing Authorization header"@,
{
    AuthRejection { status: 401, code: "UNAUTHORIZED", message: "Missing Authorization header" }
}

/// Validates `Authorization: Bearer <token>` for the proxy scope.
pub struct TokenAuth;

impl TokenAuth {
    /// The presented token, or the rejection for a missing one.
    pub fn bearer(authorization: Option<&[u8]>) -> (r: Result<String, AuthRejection>)
        ensures
            r matches Ok(s) ==> bearer_of(header_bytes(authorization)) == Some(s@),
            r matches Err(e) ==> bearer_of(header_bytes(authorization)) is None && e.status == 401
                && e.code@ == "UNAUTHORIZED"@ && e.message@ == "Missing Authorization header"@,
    {
        match extract_bearer(authorization) {
            Some(t) => Ok(t),
            None => Err(missing_header()),
        }
    }

    /// Accepts or refuses a request after token validation: the token id to record, or
    /// the rejection for an invalid or expired token.
    pub fn accept(validation: Result<api_tokens::Model, AppError>) -> (r: Result<i64, AuthRejection>)
        ensures
            validation matches Ok(t) ==> r == Ok::<i64, AuthRejection>(t.id),
            validation is Err ==> (r matches Err(e) && e.status == 401 && e.code@ == "UNAUTHORIZED"@
                && e.message@ == "Invalid or expired token"@),
    {
        match validation {
            Ok(token) => Ok(token.id),
            Err(_) => Err(AuthRejection { status: 401, code: "UNAUTHORIZED", message: "Invalid or expired token" }),
        }
    }
}

/// Validates `Authorization: Bearer <ADMIN_SECRET>` for the admin scope.
pub struct AdminAuth;

impl AdminAuth {
    /// Admits the request when its bearer token is the admin secret.
    pub fn check(authorization: Option<&[u8]>, admin_secret: &str) -> (r: Result<(), AuthRejection>)
        ensures
            r is Ok <==> bearer_of(header_bytes(authorization)) == Some(admin_secret@),
            r matches Err(e) ==> e.status == 401 && e.code@ == "UNAUTHORIZED"@
                && e.message@ == (if bearer_of(header_bytes(authorization)) is None {
                    "Missing Authorization header"@
                } else {
                    "Invalid admin secret"@
                }),
    {
        let provided = match extract_bearer(authorization) {
            Some(t) => t,
            None => {
                return Err(missing_header());
            },
        };
        if !str_equal(provided.as_str(), admin_secret) {
            return Err(AuthRejection { status: 401, code: "UNAUTHORIZED", message: "Invalid admin secret" });
        }
        Ok(())
    }
}

} // verus!
