use vstd::prelude::*;

use crate::db::entities::upstreams;
use crate::error::AppError;
use vstd::utf8::encode_utf8;
use crate::text::{copy_bytes, chars_equal, chars_of, concat2, push_str_chars, str_equal, string_of};

verus! {

// ---------------------------------------------------------------------------
// Header syntax (the rules of the `http` crate behind `reqwest::header`)
// ---------------------------------------------------------------------------

/// A character allowed in a header name (RFC 7230 token character).
pub open spec fn is_token_char(c: char) -> bool {
    ||| c == '!' || c == '#' || c == '$' || c == '%' || c == '&' || c == '\''
    ||| c == '*' || c == '+' || c == '-' || c == '.' || c == '^' || c == '_'
    ||| c == '`' || c == '|' || c == '~'
    ||| ('0' <= c && c <= '9') || ('a' <= c && c <= 'z') || ('A' <= c && c <= 'Z')
}

/// ASCII lowercase of one character.
pub open spec fn lower_char(c: char) -> char {
    if 'A' <= c && c <= 'Z' {
        ((c as u32) + 32) as char
    } else {
        c
    }
}

/// ASCII lowercase of a string.
pub open spec fn lower(s: Seq<char>) -> Seq<char> {
    s.map_values(|c: char| lower_char(c))
}

/// The canonical (lowercase) header name for `s`, as `HeaderName::from_str`
/// parses it: `None` unless `s` has 1 to 65535 characters, all token characters.
pub open spec fn header_name_of(s: Seq<char>) -> Option<Seq<char>> {
    if 1 <= s.len() <= 65535 && forall|i: int| 0 <= i < s.len() ==> is_token_char(#[trigger] s[i]) {
        Some(lower(s))
    } else {
        None
    }
}

/// A byte allowed in a header value (`HeaderValue::from_bytes` / `from_str`):
/// tab, or 32..=255 except DEL.
pub open spec fn is_value_byte(b: u8) -> bool {
    (b >= 32 && b != 127) || b == 9
}

/// Every byte of `v` is allowed in a header value.
pub open spec fn is_header_value(v: Seq<u8>) -> bool {
    forall|i: int| 0 <= i < v.len() ==> is_value_byte(#[trigger] v[i])
}

fn is_token_char_exec(c: char) -> (b: bool)
    ensures
        b == is_token_char(c),
{
    c == '!' || c == '#' || c == '$' || c == '%' || c == '&' || c == '\'' || c == '*' || c == '+'
        || c == '-' || c == '.' || c == '^' || c == '_' || c == '`' || c == '|' || c == '~' || (
    '0' <= c && c <= '9') || ('a' <= c && c <= 'z') || ('A' <= c && c <= 'Z')
}

fn lower_char_exec(c: char) -> (r: char)
    ensures
        r == lower_char(c),
{
    if 'A' <= c && c <= 'Z' {
        let u: u32 = (c as u32) + 32;
        let b: u8 = u as u8;
        b as char
    } else {
        c
    }
}

/// The canonical header name for `name`, or `None` when it is not a valid
/// header name.
pub fn header_name_canonical(name: &str) -> (r: Option<String>)
    ensures
        r matches Some(s) ==> header_name_of(name@) == Some(s@),
        r is None ==> header_name_of(name@) is None,
{
    let v = chars_of(name);
    if v.len() == 0 || v.len() > 65535 {
        return None;
    }
    let mut out: Vec<char> = Vec::new();
    let mut i: usize = 0;
    while i < v.len()
        invariant
            i <= v@.len(),
            v@ == name@,
            forall|j: int| 0 <= j < i ==> is_token_char(#[trigger] v@[j]),
            out@ == lower(v@.take(i as int)),
        decreases v.len() - i,
    {
        if !is_token_char_exec(v[i]) {
            return None;
        }
        out.push(lower_char_exec(v[i]));
        assert(lower(v@.take(i as int)).push(lower_char(v@[i as int])) =~= lower(v@.take(i + 1)));
        i = i + 1;
    }
    assert(v@.take(v@.len() as int) =~= v@);
    Some(string_of(out.as_slice()))
}

/// Whether `v` is a valid header value.
pub fn header_value_ok(v: &[u8]) -> (b: bool)
    ensures
        b == is_header_value(v@),
{
    let mut i: usize = 0;
    while i < v.len()
        invariant
            i <= v@.len(),
            forall|j: int| 0 <= j < i ==> is_value_byte(#[trigger] v@[j]),
        decreases v.len() - i,
    {
        let b = v[i];
        if !((b >= 32 && b != 127) || b == 9) {
            return false;
        }
        i = i + 1;
    }
    true
}

// ---------------------------------------------------------------------------
// Header maps
// ---------------------------------------------------------------------------

/// A header map as a list of (name, value) entries.
pub type HeaderList = Vec<(String, Vec<u8>)>;

/// The entries of a header list as plain values.
pub open spec fn headers_view(hs: Seq<(String, Vec<u8>)>) -> Seq<(Seq<char>, Seq<u8>)> {
    hs.map_values(|p: (String, Vec<u8>)| (p.0@, p.1@))
}

/// Inserting into a header map: an entry with the same name gets the new
/// value in place; otherwise the entry is appended.
pub open spec fn header_insert(hs: Seq<(Seq<char>, Seq<u8>)>, n: Seq<char>, v: Seq<u8>) -> Seq<(Seq<char>, Seq<u8>)>
    decreases hs.len(),
{
    if hs.len() == 0 {
        seq![(n, v)]
    } else if hs[0].0 == n {
        hs.update(0, (n, v))
    } else {
        seq![hs[0]] + header_insert(hs.drop_first(), n, v)
    }
}

/// No two entries share a name.
pub open spec fn names_distinct(hs: Seq<(Seq<char>, Seq<u8>)>) -> bool {
    forall|i: int, j: int| 0 <= i < hs.len() && 0 <= j < hs.len() && i != j ==> #[trigger] hs[i].0 != #[trigger] hs[j].0
}

/// Some entry carries the name `n`.
pub open spec fn has_name(hs: Seq<(Seq<char>, Seq<u8>)>, n: Seq<char>) -> bool {
    exists|i: int| 0 <= i < hs.len() && #[trigger] hs[i].0 == n
}

proof fn lemma_header_insert_at(hs: Seq<(Seq<char>, Seq<u8>)>, n: Seq<char>, v: Seq<u8>, i: int)
    requires
        0 <= i < hs.len(),
        hs[i].0 == n,
        forall|j: int| 0 <= j < i ==> #[trigger] hs[j].0 != n,
    ensures
        header_insert(hs, n, v) == hs.update(i, (n, v)),
    decreases hs.len(),
{
    if i > 0 {
        lemma_header_insert_at(hs.drop_first(), n, v, i - 1);
        assert(seq![hs[0]] + hs.drop_first().update(i - 1, (n, v)) =~= hs.update(i, (n, v)));
    }
}

proof fn lemma_header_insert_new(hs: Seq<(Seq<char>, Seq<u8>)>, n: Seq<char>, v: Seq<u8>)
    requires
        forall|j: int| 0 <= j < hs.len() ==> #[trigger] hs[j].0 != n,
    ensures
        header_insert(hs, n, v) == hs.push((n, v)),
    decreases hs.len(),
{
    if hs.len() > 0 {
        lemma_header_insert_new(hs.drop_first(), n, v);
        assert(seq![hs[0]] + hs.drop_first().push((n, v)) =~= hs.push((n, v)));
    }
}

/// After an insert the list holds the inserted entry.
pub proof fn lemma_header_insert_contains(hs: Seq<(Seq<char>, Seq<u8>)>, n: Seq<char>, v: Seq<u8>)
    ensures
        header_insert(hs, n, v).contains((n, v)),
    decreases hs.len(),
{
    let r = header_insert(hs, n, v);
    if hs.len() == 0 || hs[0].0 == n {
        assert(r[0] == (n, v));
    } else {
        lemma_header_insert_contains(hs.drop_first(), n, v);
        let rr = header_insert(hs.drop_first(), n, v);
        let k = choose|k: int| 0 <= k < rr.len() && rr[k] == (n, v);
        assert(r[k + 1] == (n, v));
    }
}

/// An insert under another name keeps every entry of the list.
pub proof fn lemma_header_insert_keeps(
    hs: Seq<(Seq<char>, Seq<u8>)>,
    n: Seq<char>,
    v: Seq<u8>,
    e: (Seq<char>, Seq<u8>),
)
    requires
        hs.contains(e),
        e.0 != n,
    ensures
        header_insert(hs, n, v).contains(e),
    decreases hs.len(),
{
    let r = header_insert(hs, n, v);
    let i = choose|i: int| 0 <= i < hs.len() && hs[i] == e;
    if hs[0].0 == n {
        assert(i != 0);
        assert(r[i] == e);
    } else if i == 0 {
        assert(r[0] == e);
    } else {
        assert(hs.drop_first()[i - 1] == e);
        lemma_header_insert_keeps(hs.drop_first(), n, v, e);
        let rr = header_insert(hs.drop_first(), n, v);
        let k = choose|k: int| 0 <= k < rr.len() && rr[k] == e;
        assert(r[k + 1] == e);
    }
}

/// Insert `(name, value)` into the header list with map semantics.
pub fn insert_header(hs: &mut HeaderList, name: String, value: Vec<u8>)
    ensures
        headers_view(final(hs)@) == header_insert(headers_view(old(hs)@), name@, value@),
{
    let ghost before = headers_view(hs@);
    let mut i: usize = 0;
    while i < hs.len()
        invariant
            i <= hs@.len(),
            hs@ == old(hs)@,
            before == headers_view(hs@),
            forall|j: int| 0 <= j < i ==> #[trigger] before[j].0 != name@,
        decreases hs.len() - i,
    {
        if str_equal(hs[i].0.as_str(), name.as_str()) {
            proof {
                lemma_header_insert_at(before, name@, value@, i as int);
            }
            hs.set(i, (name, value));
            assert(headers_view(hs@) =~= before.update(i as int, (name@, value@)));
            return;
        }
        i = i + 1;
    }
    proof {
        lemma_header_insert_new(before, name@, value@);
    }
    hs.push((name, value));
    assert(headers_view(hs@) =~= before.push((name@, value@)));
}

// ---------------------------------------------------------------------------
// Extra headers from a JSON object (serde_json)
// ---------------------------------------------------------------------------

/// The entries of the JSON object that `serde_json::from_str` parses from
/// `text`, in the map's iteration order, each value kept when it is a JSON
/// string; `None` when `text` is not a JSON object.
pub uninterp spec fn json_object_entries(text: Seq<char>) -> Option<Seq<(Seq<char>, Option<Seq<char>>)>>;

/// Parses `text` as a JSON object with `serde_json::from_str::<Map<String, Value>>`.
/// Claims: the result is the named result for `text`.
#[verifier::external_body]
fn parse_json_object(text: &str) -> (r: Option<Vec<(String, Option<String>)>>)
    ensures
        r.deep_view() == json_object_entries(text@),
{
    match serde_json::from_str::<serde_json::Map<String, serde_json::Value>>(text) {
        Ok(map) => Some(
            map.into_iter().map(|(k, v)| match v {
                serde_json::Value::String(s) => (k, Some(s)),
                _ => (k, None),
            }).collect(),
        ),
        Err(_) => None,
    }
}


// ---------------------------------------------------------------------------
// The request sent to the upstream
// ---------------------------------------------------------------------------

/// `s` without its trailing slashes (all of them).
pub open spec fn trim_trailing_slashes(s: Seq<char>) -> Seq<char>
    decreases s.len(),
{
    if s.len() > 0 && s.last() == '/' {
        trim_trailing_slashes(s.drop_last())
    } else {
        s
    }
}

/// The URL a request for `path` and `query` is sent to on an upstream with
/// base URL `base`: the base without trailing slashes, the path, and `?query`
/// when the query is not empty.
pub open spec fn target_url_of(base: Seq<char>, path: Seq<char>, query: Seq<char>) -> Seq<char> {
    if query.len() == 0 {
        trim_trailing_slashes(base) + path
    } else {
        trim_trailing_slashes(base) + path + seq!['?'] + query
    }
}

/// Hop-by-hop headers, which are never copied from the incoming request.
pub open spec fn is_hop_by_hop(n: Seq<char>) -> bool {
    ||| n == "connection"@
    ||| n == "keep-alive"@
    ||| n == "proxy-authenticate"@
    ||| n == "proxy-authorization"@
    ||| n == "te"@
    ||| n == "trailers"@
    ||| n == "transfer-encoding"@
    ||| n == "upgrade"@
    ||| n == "host"@
}

/// Effect of one incoming header: copied (under its canonical name) unless
/// its name is invalid, hop-by-hop or `authorization`, or its value invalid.
pub open spec fn incoming_step(
    acc: Seq<(Seq<char>, Seq<u8>)>,
    name: Seq<char>,
    value: Seq<u8>,
) -> Seq<(Seq<char>, Seq<u8>)> {
    match header_name_of(name) {
        Some(n) => if is_hop_by_hop(n) || n == "authorization"@ || !is_header_value(value) {
            acc
        } else {
            header_insert(acc, n, value)
        },
        None => acc,
    }
}

/// The headers copied from the incoming request, in order.
pub open spec fn copied_headers(incoming: Seq<(Seq<char>, Seq<u8>)>) -> Seq<(Seq<char>, Seq<u8>)>
    decreases incoming.len(),
{
    if incoming.len() == 0 {
        Seq::empty()
    } else {
        incoming_step(
            copied_headers(incoming.drop_last()),
            incoming.last().0,
            incoming.last().1,
        )
    }
}

/// Effect of one configured extra header: inserted when its name is valid
/// and its value is a JSON string that is a valid header value.
pub open spec fn extra_step(
    acc: Seq<(Seq<char>, Seq<u8>)>,
    key: Seq<char>,
    value: Option<Seq<char>>,
) -> Seq<(Seq<char>, Seq<u8>)> {
    match (header_name_of(key), value) {
        (Some(n), Some(v)) => if is_header_value(encode_utf8(v)) {
            header_insert(acc, n, encode_utf8(v))
        } else {
            acc
        },
        _ => acc,
    }
}

/// `acc` with the extra header entries applied in order.
pub open spec fn with_extra_headers(
    acc: Seq<(Seq<char>, Seq<u8>)>,
    entries: Seq<(Seq<char>, Option<Seq<char>>)>,
) -> Seq<(Seq<char>, Seq<u8>)>
    decreases entries.len(),
{
    if entries.len() == 0 {
        acc
    } else {
        extra_step(with_extra_headers(acc, entries.drop_last()), entries.last().0, entries.last().1)
    }
}

/// The `Authorization` value sent for an upstream api key.
pub open spec fn bearer_value(key: Seq<char>) -> Seq<u8> {
    encode_utf8("Bearer "@ + key)
}

/// The headers after the api key: `Authorization: Bearer <key>` when the
/// upstream has a key; `None` when that value is not a valid header value.
pub open spec fn with_api_key(acc: Seq<(Seq<char>, Seq<u8>)>, key: Option<String>) -> Option<Seq<(Seq<char>, Seq<u8>)>> {
    match key {
        Some(k) => if is_header_value(bearer_value(k@)) {
            Some(header_insert(acc, "authorization"@, bearer_value(k@)))
        } else {
            None
        },
        None => Some(acc),
    }
}

/// The headers sent to `up` for a request with the `incoming` headers:
/// copied headers, then the api key, then the configured extra headers
/// (ignored when they are not a JSON object); `None` when the api key is not
/// a valid header value.
pub open spec fn forward_headers(up: upstreams::Model, incoming: Seq<(Seq<char>, Seq<u8>)>) -> Option<Seq<(Seq<char>, Seq<u8>)>> {
    match with_api_key(copied_headers(incoming), up.api_key) {
        Some(h) => Some(
            match up.extra_headers {
                Some(j) => match json_object_entries(j@) {
                    Some(es) => with_extra_headers(h, es),
                    None => h,
                },
                None => h,
            },
        ),
        None => None,
    }
}

/// The message of the error for an api key that is not a valid header value.
pub open spec fn invalid_api_key_message() -> Seq<char> {
    "upstream api_key contains invalid header characters"@
}

/// Everything needed to send a request to an upstream.
#[derive(Clone, Debug)]
pub struct ForwardRequest {
    /// Target URL.
    pub url: String,
    /// Headers to send, by canonical name.
    pub headers: HeaderList,
    /// Timeout of the whole request, in seconds.
    pub timeout_secs: u64,
}

/// The URL a request is forwarded to.
pub fn target_url(base_url: &str, path: &str, query: &str) -> (r: String)
    ensures
        r@ == target_url_of(base_url@, path@, query@),
{
    let b = chars_of(base_url);
    let mut n: usize = b.len();
    assert(b@.take(n as int) =~= b@);
    while n > 0 && b[n - 1] == '/'
        invariant
            n <= b@.len(),
            b@ == base_url@,
            trim_trailing_slashes(b@.take(n as int)) == trim_trailing_slashes(base_url@),
        decreases n,
    {
        assert(b@.take(n as int).drop_last() =~= b@.take(n - 1));
        n = n - 1;
    }
    assert(trim_trailing_slashes(b@.take(n as int)) == b@.take(n as int));
    let mut out: Vec<char> = Vec::new();
    let mut i: usize = 0;
    while i < n
        invariant
            i <= n <= b@.len(),
            out@ == b@.take(i as int),
        decreases n - i,
    {
        out.push(b[i]);
        assert(b@.take(i as int).push(b@[i as int]) =~= b@.take(i + 1));
        i = i + 1;
    }
    push_str_chars(&mut out, path);
    if !query.is_empty() {
        out.push('?');
        push_str_chars(&mut out, query);
    }
    assert(out@ =~= target_url_of(base_url@, path@, query@));
    string_of(out.as_slice())
}


/// Whether `n` is one of the hop-by-hop header names.
pub fn is_hop_by_hop_name(n: &str) -> (b: bool)
    ensures
        b == is_hop_by_hop(n@),
{
    str_equal(n, "connection") || str_equal(n, "keep-alive") || str_equal(n, "proxy-authenticate")
        || str_equal(n, "proxy-authorization") || str_equal(n, "te") || str_equal(n, "trailers")
        || str_equal(n, "transfer-encoding") || str_equal(n, "upgrade") || str_equal(n, "host")
}

/// The headers copied from the incoming request.
pub fn copy_incoming_headers(incoming: &HeaderList) -> (r: HeaderList)
    ensures
        headers_view(r@) == copied_headers(headers_view(incoming@)),
{
    let ghost inc = headers_view(incoming@);
    let mut out: HeaderList = Vec::new();
    let mut i: usize = 0;
    assert(headers_view(out@) =~= copied_headers(inc.take(0)));
    while i < incoming.len()
        invariant
            i <= incoming@.len(),
            inc == headers_view(incoming@),
            headers_view(out@) == copied_headers(inc.take(i as int)),
        decreases incoming.len() - i,
    {
        let ghost prev = headers_view(out@);
        assert(inc.take(i + 1).drop_last() =~= inc.take(i as int));
        assert(inc.take(i + 1).last() == (incoming@[i as int].0@, incoming@[i as int].1@));
        let name = &incoming[i].0;
        let value = &incoming[i].1;
        match header_name_canonical(name.as_str()) {
            Some(n) => {
                if !is_hop_by_hop_name(n.as_str()) && !str_equal(n.as_str(), "authorization")
                    && header_value_ok(value.as_slice()) {
                    insert_header(&mut out, n, copy_bytes(value.as_slice()));
                }
            },
            None => {},
        }
        i = i + 1;
    }
    assert(inc.take(incoming@.len() as int) =~= inc);
    out
}

/// Applies the configured extra header entries in order.
pub fn apply_extra_headers(out: &mut HeaderList, entries: &Vec<(String, Option<String>)>)
    ensures
        headers_view(final(out)@) == with_extra_headers(headers_view(old(out)@), entries.deep_view()),
{
    let ghost es = entries.deep_view();
    let ghost start = headers_view(out@);
    let mut i: usize = 0;
    assert(es.take(0) =~= Seq::<(Seq<char>, Option<Seq<char>>)>::empty());
    while i < entries.len()
        invariant
            i <= entries@.len(),
            es == entries.deep_view(),
            es.len() == entries@.len(),
            headers_view(out@) == with_extra_headers(start, es.take(i as int)),
        decreases entries.len() - i,
    {
        assert(es.take(i + 1).drop_last() =~= es.take(i as int));
        assert(es[i as int] == entries@[i as int].deep_view());
        let key = &entries[i].0;
        match header_name_canonical(key.as_str()) {
            Some(n) => {
                match &entries[i].1 {
                    Some(v) => {
                        let bytes = v.as_str().as_bytes();
                        if header_value_ok(bytes) {
                            insert_header(out, n, copy_bytes(bytes));
                        }
                    },
                    None => {},
                }
            },
            None => {},
        }
        i = i + 1;
    }
    assert(es.take(entries@.len() as int) =~= es);
}

/// The request to send to `upstream` for `path`, `query` and the incoming
/// headers: target URL, headers (copied, then api key, then extra headers)
/// and timeout. Fails with an internal error when the api key cannot be
/// sent as a header value.
pub fn plan_forward(
    upstream: &upstreams::Model,
    path: &str,
    query: &str,
    incoming_headers: &HeaderList,
) -> (r: Result<ForwardRequest, AppError>)
    ensures
        forward_headers(*upstream, headers_view(incoming_headers@)) is None
            ==> (r matches Err(AppError::Internal(m)) && m@ == invalid_api_key_message()),
        forward_headers(*upstream, headers_view(incoming_headers@)) matches Some(h) ==> (r matches Ok(req)
            && req.url@ == target_url_of(upstream.base_url@, path@, query@)
            && headers_view(req.headers@) == h
            && req.timeout_secs == upstream.timeout_secs as u64),
{
    let url = target_url(upstream.base_url.as_str(), path, query);
    let mut headers = copy_incoming_headers(incoming_headers);
    match &upstream.api_key {
        Some(api_key) => {
            let value = concat2("Bearer ", api_key.as_str());
            let bytes = value.as_str().as_bytes();
            if !header_value_ok(bytes) {
                return Err(AppError::Internal("upstream api_key contains invalid header characters".to_string()));
            }
            insert_header(&mut headers, "authorization".to_string(), copy_bytes(bytes));
        },
        None => {},
    }
    match &upstream.extra_headers {
        Some(extra_json) => {
            match parse_json_object(extra_json.as_str()) {
                Some(entries) => {
                    apply_extra_headers(&mut headers, &entries);
                },
                None => {},
            }
        },
        None => {},
    }
    let timeout_secs: u64 = upstream.timeout_secs as u64;
    Ok(ForwardRequest { url, headers, timeout_secs })
}


// ---------------------------------------------------------------------------
// Laws of the forwarded headers
// ---------------------------------------------------------------------------

/// Inserting a header adds exactly its name to the names present and keeps
/// names distinct.
pub proof fn lemma_header_insert_names(hs: Seq<(Seq<char>, Seq<u8>)>, n: Seq<char>, v: Seq<u8>)
    ensures
        forall|m: Seq<char>| #[trigger] has_name(header_insert(hs, n, v), m) <==> (has_name(hs, m) || m == n),
        names_distinct(hs) ==> names_distinct(header_insert(hs, n, v)),
    decreases hs.len(),
{
    let r = header_insert(hs, n, v);
    if hs.len() == 0 {
        assert(r[0].0 == n);
    } else if hs[0].0 == n {
        assert forall|m: Seq<char>| has_name(r, m) <==> (has_name(hs, m) || m == n) by {
            if has_name(hs, m) {
                let i = choose|i: int| 0 <= i < hs.len() && #[trigger] hs[i].0 == m;
                assert(r[i].0 == m);
            }
            if m == n {
                assert(r[0].0 == m);
            }
            if has_name(r, m) {
                let i = choose|i: int| 0 <= i < r.len() && #[trigger] r[i].0 == m;
                if i != 0 {
                    assert(hs[i].0 == m);
                }
            }
        }
    } else {
        let rest = hs.drop_first();
        lemma_header_insert_names(rest, n, v);
        let rr = header_insert(rest, n, v);
        assert(r == seq![hs[0]] + rr);
        assert forall|m: Seq<char>| has_name(r, m) <==> (has_name(hs, m) || m == n) by {
            if has_name(hs, m) {
                let i = choose|i: int| 0 <= i < hs.len() && #[trigger] hs[i].0 == m;
                if i == 0 {
                    assert(r[0].0 == m);
                } else {
                    assert(rest[i - 1].0 == m);
                    assert(has_name(rest, m));
                    assert(has_name(rr, m));
                    let k = choose|k: int| 0 <= k < rr.len() && #[trigger] rr[k].0 == m;
                    assert(r[k + 1].0 == m);
                }
            }
            if m == n {
                assert(has_name(rr, m));
                let k = choose|k: int| 0 <= k < rr.len() && #[trigger] rr[k].0 == m;
                assert(r[k + 1].0 == m);
            }
            if has_name(r, m) {
                let i = choose|i: int| 0 <= i < r.len() && #[trigger] r[i].0 == m;
                if i == 0 {
                    assert(hs[0].0 == m);
                } else {
                    assert(rr[i - 1].0 == m);
                    assert(has_name(rr, m));
                    if has_name(rest, m) {
                        let k = choose|k: int| 0 <= k < rest.len() && #[trigger] rest[k].0 == m;
                        assert(hs[k + 1].0 == m);
                    }
                }
            }
        }
        if names_distinct(hs) {
            assert(names_distinct(rest)) by {
                assert forall|i: int, j: int| 0 <= i < rest.len() && 0 <= j < rest.len() && i != j
                    implies #[trigger] rest[i].0 != #[trigger] rest[j].0 by {
                    assert(hs[i + 1].0 != hs[j + 1].0);
                }
            }
            assert(!has_name(rest, hs[0].0)) by {
                if has_name(rest, hs[0].0) {
                    let k = choose|k: int| 0 <= k < rest.len() && #[trigger] rest[k].0 == hs[0].0;
                    assert(hs[k + 1].0 == hs[0].0);
                }
            }
            assert(!has_name(rr, hs[0].0));
            assert forall|i: int, j: int| 0 <= i < r.len() && 0 <= j < r.len() && i != j
                implies #[trigger] r[i].0 != #[trigger] r[j].0 by {
                if i == 0 {
                    if r[j].0 == hs[0].0 {
                        assert(rr[j - 1].0 == hs[0].0);
                    }
                } else if j == 0 {
                    if r[i].0 == hs[0].0 {
                        assert(rr[i - 1].0 == hs[0].0);
                    }
                } else {
                    assert(rr[i - 1].0 != rr[j - 1].0);
                }
            }
        }
    }
}

/// Every name among the headers copied from the incoming request is a valid
/// canonical name that is neither hop-by-hop nor `authorization`, and no name
/// occurs twice.
pub proof fn lemma_copied_headers(incoming: Seq<(Seq<char>, Seq<u8>)>)
    ensures
        names_distinct(copied_headers(incoming)),
        forall|m: Seq<char>| has_name(copied_headers(incoming), m)
            ==> !is_hop_by_hop(m) && m != "authorization"@,
    decreases incoming.len(),
{
    if incoming.len() > 0 {
        let prev = copied_headers(incoming.drop_last());
        lemma_copied_headers(incoming.drop_last());
        let (name, value) = incoming.last();
        match header_name_of(name) {
            Some(n) => {
                if !(is_hop_by_hop(n) || n == "authorization"@ || !is_header_value(value)) {
                    lemma_header_insert_names(prev, n, value);
                }
            },
            None => {},
        }
    }
}

/// Law of forwarding: when the upstream configures no extra headers, the
/// headers sent to it have distinct names, never include a hop-by-hop
/// header, and include `authorization` exactly when the upstream has an api
/// key, with the value `Bearer <key>`: a client's own `Authorization` header
/// is never passed on.
pub proof fn law_forwarded_headers(up: upstreams::Model, incoming: Seq<(Seq<char>, Seq<u8>)>)
    requires
        up.extra_headers is None,
        forward_headers(up, incoming) is Some,
    ensures
        names_distinct(forward_headers(up, incoming)->0),
        forall|m: Seq<char>| has_name(forward_headers(up, incoming)->0, m) ==> !is_hop_by_hop(m),
        has_name(forward_headers(up, incoming)->0, "authorization"@) <==> up.api_key is Some,
        up.api_key matches Some(k) ==> forward_headers(up, incoming)->0.contains(("authorization"@, bearer_value(k@))),
{
    let c = copied_headers(incoming);
    lemma_copied_headers(incoming);
    reveal_strlit("authorization");
    assert(!is_hop_by_hop("authorization"@)) by {
        reveal_strlit("connection");
        reveal_strlit("keep-alive");
        reveal_strlit("proxy-authenticate");
        reveal_strlit("proxy-authorization");
        reveal_strlit("te");
        reveal_strlit("trailers");
        reveal_strlit("transfer-encoding");
        reveal_strlit("upgrade");
        reveal_strlit("host");
        assert("authorization"@[0] != "connection"@[0]);
        assert("authorization"@[0] != "keep-alive"@[0]);
        assert("authorization"@[0] != "proxy-authenticate"@[0]);
        assert("authorization"@[0] != "proxy-authorization"@[0]);
        assert("authorization"@[0] != "te"@[0]);
        assert("authorization"@[0] != "trailers"@[0]);
        assert("authorization"@[0] != "transfer-encoding"@[0]);
        assert("authorization"@[0] != "upgrade"@[0]);
        assert("authorization"@[0] != "host"@[0]);
    }
    match up.api_key {
        Some(k) => {
            let h = header_insert(c, "authorization"@, bearer_value(k@));
            lemma_header_insert_names(c, "authorization"@, bearer_value(k@));
            lemma_header_insert_new(c, "authorization"@, bearer_value(k@));
            assert(h.last() == ("authorization"@, bearer_value(k@)));
            assert(h[h.len() - 1] == ("authorization"@, bearer_value(k@)));
        },
        None => {
            assert(!has_name(c, "authorization"@));
        },
    }
}


/// Applying extra header entries keeps the names of a header list distinct.
proof fn lemma_extra_headers_distinct(
    acc: Seq<(Seq<char>, Seq<u8>)>,
    entries: Seq<(Seq<char>, Option<Seq<char>>)>,
)
    requires
        names_distinct(acc),
    ensures
        names_distinct(with_extra_headers(acc, entries)),
    decreases entries.len(),
{
    if entries.len() > 0 {
        lemma_extra_headers_distinct(acc, entries.drop_last());
        let prev = with_extra_headers(acc, entries.drop_last());
        let (key, value) = entries.last();
        match (header_name_of(key), value) {
            (Some(n), Some(v)) => {
                if is_header_value(encode_utf8(v)) {
                    lemma_header_insert_names(prev, n, encode_utf8(v));
                }
            },
            _ => {},
        }
    }
}

/// Law of forwarded header names: whatever the upstream configures (api key,
/// extra headers), the headers sent to it carry each name at most once.
pub proof fn law_forwarded_names_distinct(up: upstreams::Model, incoming: Seq<(Seq<char>, Seq<u8>)>)
    requires
        forward_headers(up, incoming) is Some,
    ensures
        names_distinct(forward_headers(up, incoming)->0),
{
    lemma_copied_headers(incoming);
    let c = copied_headers(incoming);
    match up.api_key {
        Some(k) => {
            lemma_header_insert_names(c, "authorization"@, bearer_value(k@));
        },
        None => {},
    }
    let h = with_api_key(c, up.api_key)->0;
    match up.extra_headers {
        Some(j) => match json_object_entries(j@) {
            Some(es) => {
                lemma_extra_headers_distinct(h, es);
            },
            None => {},
        },
        None => {},
    }
}

} // verus!
