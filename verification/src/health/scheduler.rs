use vstd::prelude::*;

use crate::db::entities::{health_records, upstreams};
use crate::text::{concat2};
use crate::timestamp::{now, Timestamp};

verus! {

/// The upstreams a health round probes: the enabled ones, in the given order.
pub open spec fn enabled_only(ups: Seq<upstreams::Model>) -> Seq<upstreams::Model> {
    ups.filter(|u: upstreams::Model| u.enabled)
}

/// Selects the upstreams to probe in one health round (disabled upstreams
/// are skipped).
pub fn upstreams_to_check(all: Vec<upstreams::Model>) -> (r: Vec<upstreams::Model>)
    ensures
        r@ == enabled_only(all@),
{
    let mut r: Vec<upstreams::Model> = Vec::new();
    let mut i: usize = 0;
    while i < all.len()
        invariant
            i <= all@.len(),
            r@ == enabled_only(all@.take(i as int)),
        decreases all.len() - i,
    {
        reveal_with_fuel(Seq::filter, 1);
        assert(all@.take(i + 1).drop_last() =~= all@.take(i as int));
        if all[i].enabled {
            r.push(all[i].duplicate());
        }
        i = i + 1;
    }
    assert(all@.take(all@.len() as int) =~= all@);
    r
}

/// The verdict of one probe: a network failure is reported with its
/// message; a response with a 5xx status is a failure; any other response
/// (4xx included) means the upstream is reachable.
pub open spec fn probe_verdict(response: Result<(u16, Seq<char>), Seq<char>>) -> Result<(), Seq<char>> {
    match response {
        Ok((status, text)) => if 500 <= status && status < 600 {
            Err("upstream returned server error: "@ + text)
        } else {
            Ok(())
        },
        Err(e) => Err(e),
    }
}

/// Judges a probe from what came back: `Ok((status, status_text))` for a
/// response (the text is the status as displayed, e.g. `503 Service
/// Unavailable`), `Err(message)` for a request that failed.
pub fn probe_outcome(response: Result<(u16, String), String>) -> (r: Result<(), String>)
    ensures
        (match r {
            Ok(()) => Ok::<(), Seq<char>>(()),
            Err(m) => Err::<(), Seq<char>>(m@),
        }) == probe_verdict(match response {
            Ok((s, t)) => Ok::<(u16, Seq<char>), Seq<char>>((s, t@)),
            Err(e) => Err::<(u16, Seq<char>), Seq<char>>(e@),
        }),
{
    match response {
        Ok((status, text)) => {
            if 500 <= status && status < 600 {
                Err(concat2("upstream returned server error: ", text.as_str()))
            } else {
                Ok(())
            }
        },
        Err(e) => Err(e),
    }
}

/// The health record for a probe of `upstream_id` at time `t`: successful
/// probes record their latency, failed ones their error message.
pub fn health_record_at(
    upstream_id: i64,
    outcome: &Result<(), String>,
    latency_ms: i64,
    t: Timestamp,
) -> (r: health_records::NewModel)
    ensures
        r.upstream_id == upstream_id,
        r.checked_at == t,
        r.success == outcome is Ok,
        r.latency_ms == (if outcome is Ok { Some(latency_ms) } else { None::<i64> }),
        r.error_message == (match outcome {
            Ok(()) => None::<String>,
            Err(e) => Some(*e),
        }),
{
    let (success, error_message) = match outcome {
        Ok(()) => (true, None),
        Err(e) => (false, Some(e.clone())),
    };
    health_records::NewModel {
        upstream_id,
        checked_at: t,
        success,
        latency_ms: if success { Some(latency_ms) } else { None },
        error_message,
    }
}

/// The health record for a probe of `upstream_id` that just finished.
pub fn health_record(upstream_id: i64, outcome: &Result<(), String>, latency_ms: i64) -> (r: health_records::NewModel)
    ensures
        r.upstream_id == upstream_id,
        r.success == outcome is Ok,
        r.latency_ms == (if outcome is Ok { Some(latency_ms) } else { None::<i64> }),
        r.error_message == (match outcome {
            Ok(()) => None::<String>,
            Err(e) => Some(*e),
        }),
{
    health_record_at(upstream_id, outcome, latency_ms, now())
}

} // verus!
