use vstd::prelude::*;

use std::sync::atomic::AtomicUsize;

use crate::db::entities::{route_rules, upstreams};
use crate::error::AppError;
use crate::service::upstream::{get, select, select_allows, total_weight};
use crate::proxy::forward::{
    has_name, lemma_header_insert_contains, lemma_header_insert_keeps, lemma_header_insert_names, names_distinct,
    header_insert, header_name_canonical, header_name_of, header_value_ok, headers_view,
    insert_header, is_header_value, HeaderList,
};
use crate::proxy::rewrite::{rewrite, rule_applies};
use crate::text::{copy_bytes, str_equal};

verus! {

/// Where a request for `inbound` goes: the first applying rule's path and
/// pinned upstream, or the inbound path itself with no pin.
pub open spec fn route_of(rules: Seq<route_rules::Model>, inbound: Seq<char>) -> (Seq<char>, Option<i64>)
    decreases rules.len(),
{
    if rules.len() == 0 {
        (inbound, None)
    } else {
        match rule_applies(rules[0], inbound) {
            Some(p) => (p, rules[0].upstream_id),
            None => route_of(rules.drop_first(), inbound),
        }
    }
}

proof fn lemma_route_of_first(rules: Seq<route_rules::Model>, inbound: Seq<char>, i: int)
    requires
        0 <= i < rules.len(),
        forall|j: int| 0 <= j < i ==> rule_applies(#[trigger] rules[j], inbound) is None,
        rule_applies(rules[i], inbound) is Some,
    ensures
        route_of(rules, inbound) == (rule_applies(rules[i], inbound)->0, rules[i].upstream_id),
    decreases i,
{
    if i > 0 {
        assert(rule_applies(rules[0], inbound) is None);
        lemma_route_of_first(rules.drop_first(), inbound, i - 1);
    }
}

proof fn lemma_route_of_none(rules: Seq<route_rules::Model>, inbound: Seq<char>)
    requires
        forall|j: int| 0 <= j < rules.len() ==> rule_applies(#[trigger] rules[j], inbound) is None,
    ensures
        route_of(rules, inbound) == (inbound, None::<i64>),
    decreases rules.len(),
{
    if rules.len() > 0 {
        assert(rule_applies(rules[0], inbound) is None);
        lemma_route_of_none(rules.drop_first(), inbound);
    }
}

/// Route a request path through the enabled rules (priority descending):
/// the target path and the pinned upstream, if any.
pub fn plan_route(rules: &[route_rules::Model], inbound_path: &String) -> (r: (String, Option<i64>))
    ensures
        (r.0@, r.1) == route_of(rules@, inbound_path@),
{
    match rewrite(rules, inbound_path.as_str()) {
        Some(res) => {
            proof {
                let i = choose|i: int|
                    0 <= i < rules@.len()
                    && (forall|j: int| 0 <= j < i ==> rule_applies(#[trigger] rules@[j], inbound_path@) is None)
                    && rule_applies(rules@[i], inbound_path@) == Some(res.path@)
                    && res.upstream_id == rules@[i].upstream_id;
                lemma_route_of_first(rules@, inbound_path@, i);
            }
            (res.path, res.upstream_id)
        },
        None => {
            proof {
                lemma_route_of_none(rules@, inbound_path@);
            }
            (inbound_path.clone(), None)
        },
    }
}

/// The upstream a routed request goes to. A rule that pins an upstream id
/// sends it to that upstream's row (`found`), whatever its health, and to
/// `UpstreamNotFound` with that id when there is no such row; otherwise the
/// upstream is chosen by balancing over `available` (the enabled and healthy
/// upstreams by priority), which is not consulted for a pinned request.
pub fn route_upstream(
    pinned_id: Option<i64>,
    found: Option<upstreams::Model>,
    available: Vec<upstreams::Model>,
    lb_counter: &AtomicUsize,
) -> (r: Result<upstreams::Model, AppError>)
    requires
        pinned_id is None && available@.len() > 0 && available@[0].lb_strategy@ == "weighted"@
            ==> total_weight(available@) <= i32::MAX,
    ensures
        pinned_id is Some && found is None
            ==> r == Err::<upstreams::Model, AppError>(AppError::UpstreamNotFound { id: pinned_id->0 }),
        pinned_id is Some && found is Some ==> r == Ok::<upstreams::Model, AppError>(found->0),
        pinned_id is None ==> select_allows(None, available@, r),
{
    match pinned_id {
        Some(id) => get(found, id),
        None => select(None, available, lb_counter),
    }
}

/// The status answered downstream for an upstream status: the same code
/// when it is a valid status code (100..=999), 500 otherwise.
pub fn response_status(upstream_status: u16) -> (s: u16)
    ensures
        s == (if 100 <= upstream_status && upstream_status < 1000 { upstream_status } else { 500 }),
{
    if 100 <= upstream_status && upstream_status < 1000 {
        upstream_status
    } else {
        500
    }
}

/// Upstream response headers that are never passed downstream.
pub open spec fn is_skipped_response_header(n: Seq<char>) -> bool {
    ||| n == "transfer-encoding"@
    ||| n == "connection"@
    ||| n == "keep-alive"@
    ||| n == "content-length"@
}

/// Effect of one upstream response header on the downstream response.
pub open spec fn response_step(
    acc: Seq<(Seq<char>, Seq<u8>)>,
    name: Seq<char>,
    value: Seq<u8>,
) -> Seq<(Seq<char>, Seq<u8>)> {
    match header_name_of(name) {
        Some(n) => if is_skipped_response_header(n) || !is_header_value(value) {
            acc
        } else {
            header_insert(acc, n, value)
        },
        None => acc,
    }
}

/// The headers passed downstream from the upstream response, in order.
pub open spec fn passed_response_headers(hs: Seq<(Seq<char>, Seq<u8>)>) -> Seq<(Seq<char>, Seq<u8>)>
    decreases hs.len(),
{
    if hs.len() == 0 {
        Seq::empty()
    } else {
        response_step(passed_response_headers(hs.drop_last()), hs.last().0, hs.last().1)
    }
}

/// The upstream response headers to pass downstream: all but the
/// framing headers, each valid one inserted under its canonical name.
pub fn response_headers(upstream_headers: &HeaderList) -> (r: HeaderList)
    ensures
        headers_view(r@) == passed_response_headers(headers_view(upstream_headers@)),
{
    let ghost inc = headers_view(upstream_headers@);
    let mut out: HeaderList = Vec::new();
    let mut i: usize = 0;
    assert(headers_view(out@) =~= passed_response_headers(inc.take(0)));
    while i < upstream_headers.len()
        invariant
            i <= upstream_headers@.len(),
            inc == headers_view(upstream_headers@),
            headers_view(out@) == passed_response_headers(inc.take(i as int)),
        decreases upstream_headers.len() - i,
    {
        assert(inc.take(i + 1).drop_last() =~= inc.take(i as int));
        let name = &upstream_headers[i].0;
        let value = &upstream_headers[i].1;
        match header_name_canonical(name.as_str()) {
            Some(n) => {
                let skipped = str_equal(n.as_str(), "transfer-encoding") || str_equal(n.as_str(), "connection")
                    || str_equal(n.as_str(), "keep-alive") || str_equal(n.as_str(), "content-length");
                if !skipped && header_value_ok(value.as_slice()) {
                    insert_header(&mut out, n, copy_bytes(value.as_slice()));
                }
            },
            None => {},
        }
        i = i + 1;
    }
    assert(inc.take(upstream_headers@.len() as int) =~= inc);
    out
}


/// Law of the downstream response: the headers passed on from the upstream
/// response have distinct names and never include the framing headers
/// `transfer-encoding`, `connection`, `keep-alive` or `content-length`.
pub proof fn law_response_headers(upstream_headers: Seq<(Seq<char>, Seq<u8>)>)
    ensures
        names_distinct(passed_response_headers(upstream_headers)),
        forall|m: Seq<char>| has_name(passed_response_headers(upstream_headers), m)
            ==> !is_skipped_response_header(m),
    decreases upstream_headers.len(),
{
    if upstream_headers.len() > 0 {
        let prev = passed_response_headers(upstream_headers.drop_last());
        law_response_headers(upstream_headers.drop_last());
        let (name, value) = upstream_headers.last();
        match header_name_of(name) {
            Some(n) => {
                if !(is_skipped_response_header(n) || !is_header_value(value)) {
                    lemma_header_insert_names(prev, n, value);
                }
            },
            None => {},
        }
    }
}

/// The entry `e` is a valid header under the canonical name `n`.
pub open spec fn valid_header_as(e: (Seq<char>, Seq<u8>), n: Seq<char>) -> bool {
    header_name_of(e.0) == Some(n) && is_header_value(e.1)
}

/// Law of relayed response headers: every valid upstream response header
/// whose canonical name is not a framing header reaches the client, with
/// the value of its last valid occurrence.
pub proof fn law_response_headers_relayed(hs: Seq<(Seq<char>, Seq<u8>)>, i: int, n: Seq<char>)
    requires
        0 <= i < hs.len(),
        valid_header_as(hs[i], n),
        !is_skipped_response_header(n),
        forall|j: int| i < j < hs.len() ==> !valid_header_as(#[trigger] hs[j], n),
    ensures
        passed_response_headers(hs).contains((n, hs[i].1)),
    decreases hs.len(),
{
    let prev = hs.drop_last();
    let acc = passed_response_headers(prev);
    if i == hs.len() - 1 {
        lemma_header_insert_contains(acc, n, hs[i].1);
    } else {
        assert forall|j: int| i < j < prev.len() implies !valid_header_as(#[trigger] prev[j], n) by {
            assert(prev[j] == hs[j]);
        }
        assert(prev[i] == hs[i]);
        law_response_headers_relayed(prev, i, n);
        let (name, value) = hs.last();
        assert(!valid_header_as(hs[hs.len() - 1], n));
        match header_name_of(name) {
            Some(m) => {
                if !(is_skipped_response_header(m) || !is_header_value(value)) {
                    lemma_header_insert_keeps(acc, m, value, (n, hs[i].1));
                }
            },
            None => {},
        }
    }
}

} // verus!
