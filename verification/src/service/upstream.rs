use vstd::prelude::*;

use std::sync::atomic::{AtomicUsize, Ordering};

use crate::db::entities::upstreams::{Model, NewModel};
use crate::error::AppError;
use crate::text::{copy_opt_string, str_equal};
use crate::timestamp::{now, Timestamp};
use crate::service::value_or;

verus! {

/// DTO for creating or updating an upstream.
#[derive(Clone, Debug)]
pub struct UpsertUpstreamDto {
    pub name: String,
    pub base_url: String,
    pub api_key: Option<String>,
    pub extra_headers: Option<String>,
    pub timeout_secs: Option<i32>,
    pub weight: Option<i32>,
    pub priority: Option<i32>,
    pub lb_strategy: Option<String>,
    pub enabled: Option<bool>,
}

/// Public view of an upstream: everything but the api key and the extra headers.
#[derive(Clone, Debug)]
pub struct UpstreamDto {
    pub id: i64,
    pub name: String,
    pub base_url: String,
    pub timeout_secs: i32,
    pub weight: i32,
    pub priority: i32,
    pub lb_strategy: String,
    pub enabled: bool,
    pub is_healthy: bool,
    pub created_at: Timestamp,
    pub updated_at: Timestamp,
}

pub open spec fn dto_of(m: Model) -> UpstreamDto {
    UpstreamDto {
        id: m.id,
        name: m.name,
        base_url: m.base_url,
        timeout_secs: m.timeout_secs,
        weight: m.weight,
        priority: m.priority,
        lb_strategy: m.lb_strategy,
        enabled: m.enabled,
        is_healthy: m.is_healthy,
        created_at: m.created_at,
        updated_at: m.updated_at,
    }
}

impl From<Model> for UpstreamDto {
    fn from(m: Model) -> (r: UpstreamDto) {
        UpstreamDto {
            id: m.id,
            name: m.name,
            base_url: m.base_url,
            timeout_secs: m.timeout_secs,
            weight: m.weight,
            priority: m.priority,
            lb_strategy: m.lb_strategy,
            enabled: m.enabled,
            is_healthy: m.is_healthy,
            created_at: m.created_at,
            updated_at: m.updated_at,
        }
    }
}

impl vstd::std_specs::convert::FromSpecImpl<Model> for UpstreamDto {
    open spec fn obeys_from_spec() -> bool {
        true
    }

    open spec fn from_spec(m: Model) -> UpstreamDto {
        dto_of(m)
    }
}

// ---------------------------------------------------------------------------
// Records written by create / update / delete / health marking
// ---------------------------------------------------------------------------

/// The strategy named by the DTO, `round_robin` when it names none.
pub open spec fn strategy_or_default(s: Option<String>) -> Seq<char> {
    match s {
        Some(v) => v@,
        None => "round_robin"@,
    }
}

/// The new upstream record for `dto`, stamped with `t`: defaults are a
/// 30 s timeout, weight 1, priority 0, `round_robin`, enabled; a new
/// upstream starts healthy.
pub fn new_upstream(dto: UpsertUpstreamDto, t: Timestamp) -> (m: NewModel)
    ensures
        m.name == dto.name,
        m.base_url == dto.base_url,
        m.api_key == dto.api_key,
        m.extra_headers == dto.extra_headers,
        m.timeout_secs == value_or(dto.timeout_secs, 30),
        m.weight == value_or(dto.weight, 1),
        m.priority == value_or(dto.priority, 0),
        m.lb_strategy@ == strategy_or_default(dto.lb_strategy),
        m.enabled == value_or(dto.enabled, true),
        m.is_healthy,
        m.created_at == t,
        m.updated_at == t,
{
    let lb_strategy = match dto.lb_strategy {
        Some(v) => v,
        None => "round_robin".to_string(),
    };
    NewModel {
        name: dto.name,
        base_url: dto.base_url,
        api_key: dto.api_key,
        extra_headers: dto.extra_headers,
        timeout_secs: match dto.timeout_secs { Some(v) => v, None => 30 },
        weight: match dto.weight { Some(v) => v, None => 1 },
        priority: match dto.priority { Some(v) => v, None => 0 },
        lb_strategy,
        enabled: match dto.enabled { Some(v) => v, None => true },
        is_healthy: true,
        created_at: t,
        updated_at: t,
    }
}

/// Create a new upstream record, stamped with the current time.
pub fn create(dto: UpsertUpstreamDto) -> (m: NewModel)
    ensures
        m.name == dto.name,
        m.base_url == dto.base_url,
        m.api_key == dto.api_key,
        m.extra_headers == dto.extra_headers,
        m.timeout_secs == value_or(dto.timeout_secs, 30),
        m.weight == value_or(dto.weight, 1),
        m.priority == value_or(dto.priority, 0),
        m.lb_strategy@ == strategy_or_default(dto.lb_strategy),
        m.enabled == value_or(dto.enabled, true),
        m.is_healthy,
        m.created_at == m.updated_at,
{
    new_upstream(dto, now())
}

/// `existing` after applying `dto` at time `t`: every field of the DTO
/// replaces the stored one (absent numbers and strategy fall back to their
/// defaults), `enabled` changes only when the DTO gives it; id, health and
/// creation time are kept.
pub fn apply_update(existing: Model, dto: UpsertUpstreamDto, t: Timestamp) -> (m: Model)
    ensures
        m.id == existing.id,
        m.name == dto.name,
        m.base_url == dto.base_url,
        m.api_key == dto.api_key,
        m.extra_headers == dto.extra_headers,
        m.timeout_secs == value_or(dto.timeout_secs, 30),
        m.weight == value_or(dto.weight, 1),
        m.priority == value_or(dto.priority, 0),
        m.lb_strategy@ == strategy_or_default(dto.lb_strategy),
        m.enabled == value_or(dto.enabled, existing.enabled),
        m.is_healthy == existing.is_healthy,
        m.created_at == existing.created_at,
        m.updated_at == t,
{
    let lb_strategy = match dto.lb_strategy {
        Some(v) => v,
        None => "round_robin".to_string(),
    };
    Model {
        id: existing.id,
        name: dto.name,
        base_url: dto.base_url,
        api_key: dto.api_key,
        extra_headers: dto.extra_headers,
        timeout_secs: match dto.timeout_secs { Some(v) => v, None => 30 },
        weight: match dto.weight { Some(v) => v, None => 1 },
        priority: match dto.priority { Some(v) => v, None => 0 },
        lb_strategy,
        enabled: match dto.enabled { Some(v) => v, None => existing.enabled },
        is_healthy: existing.is_healthy,
        created_at: existing.created_at,
        updated_at: t,
    }
}

/// Update an existing upstream, stamped with the current time.
pub fn update(existing: Model, dto: UpsertUpstreamDto) -> (m: Model)
    ensures
        m.id == existing.id,
        m.name == dto.name,
        m.base_url == dto.base_url,
        m.api_key == dto.api_key,
        m.extra_headers == dto.extra_headers,
        m.timeout_secs == value_or(dto.timeout_secs, 30),
        m.weight == value_or(dto.weight, 1),
        m.priority == value_or(dto.priority, 0),
        m.lb_strategy@ == strategy_or_default(dto.lb_strategy),
        m.enabled == value_or(dto.enabled, existing.enabled),
        m.is_healthy == existing.is_healthy,
        m.created_at == existing.created_at,
{
    apply_update(existing, dto, now())
}

/// Soft delete at time `t`: the upstream is disabled, nothing else changes
/// but the update time.
pub fn disable_at(existing: Model, t: Timestamp) -> (m: Model)
    ensures
        m == (Model { enabled: false, updated_at: t, ..existing }),
{
    Model { enabled: false, updated_at: t, ..existing }
}

/// Soft delete: disable the upstream instead of removing it.
pub fn delete(existing: Model) -> (m: Model)
    ensures
        m == (Model { enabled: false, updated_at: m.updated_at, ..existing }),
{
    disable_at(existing, now())
}

/// The health flag set to `healthy` at time `t`; nothing else changes but
/// the update time.
pub fn with_health_at(existing: Model, healthy: bool, t: Timestamp) -> (m: Model)
    ensures
        m == (Model { is_healthy: healthy, updated_at: t, ..existing }),
{
    Model { is_healthy: healthy, updated_at: t, ..existing }
}

/// Update the health flag on an upstream (called by the health scheduler).
pub fn mark_health(existing: Model, healthy: bool) -> (m: Model)
    ensures
        m == (Model { is_healthy: healthy, updated_at: m.updated_at, ..existing }),
{
    with_health_at(existing, healthy, now())
}


// ---------------------------------------------------------------------------
// Load balancing
// ---------------------------------------------------------------------------

/// An upstream may serve traffic: enabled and healthy.
pub open spec fn is_usable(u: Model) -> bool {
    u.enabled && u.is_healthy
}

/// A pinned upstream is given and may serve traffic.
pub open spec fn pinned_usable(p: Option<Model>) -> bool {
    match p {
        Some(u) => is_usable(u),
        None => false,
    }
}

/// Weight used by weighted balancing: the configured weight, at least 1.
pub open spec fn effective_weight(u: Model) -> int {
    if u.weight < 1 {
        1
    } else {
        u.weight as int
    }
}

/// Sum of the effective weights of the first `n` upstreams.
pub open spec fn weight_prefix(ups: Seq<Model>, n: int) -> int
    decreases n,
{
    if n <= 0 {
        0
    } else {
        weight_prefix(ups, n - 1) + effective_weight(ups[n - 1])
    }
}

/// Sum of the effective weights of all upstreams.
pub open spec fn total_weight(ups: Seq<Model>) -> int {
    weight_prefix(ups, ups.len() as int)
}

/// The slot that `r` falls into when the upstreams from index `i` on are
/// laid out as consecutive intervals of their effective weights.
pub open spec fn slot_from(ups: Seq<Model>, i: int, r: int) -> Option<int>
    decreases ups.len() - i,
{
    if i < 0 || i >= ups.len() {
        None
    } else if r < effective_weight(ups[i]) {
        Some(i)
    } else {
        slot_from(ups, i + 1, r - effective_weight(ups[i]))
    }
}

/// Index chosen by weighted balancing for the draw `r` (0 when `r` falls
/// past the last interval).
pub open spec fn weighted_index(ups: Seq<Model>, r: int) -> int {
    match slot_from(ups, 0, r) {
        Some(i) => i,
        None => 0,
    }
}

/// The upstream weighted balancing picks for the random draw `d`.
pub open spec fn weighted_choice(ups: Seq<Model>, d: u32) -> Model {
    ups[weighted_index(ups, d as int % total_weight(ups))]
}

/// The upstream round-robin balancing picks for the counter value `k`.
pub open spec fn round_robin_choice(ups: Seq<Model>, k: usize) -> Model {
    ups[k as int % ups.len() as int]
}

/// The prefix sums of effective weights grow with the index.
pub proof fn lemma_weight_prefix_monotone(ups: Seq<Model>, a: int, b: int)
    requires
        0 <= a <= b <= ups.len(),
    ensures
        weight_prefix(ups, a) + (b - a) <= weight_prefix(ups, b),
    decreases b - a,
{
    if a < b {
        lemma_weight_prefix_monotone(ups, a, b - 1);
    }
}

/// Whether the effective weights of `ups` add up to at most `i32::MAX`,
/// the range in which weighted selection computes its total.
pub fn total_weight_fits(ups: &[Model]) -> (b: bool)
    ensures
        b == (total_weight(ups@) <= i32::MAX),
{
    let mut sum: i64 = 0;
    let mut i: usize = 0;
    while i < ups.len()
        invariant
            i <= ups@.len(),
            sum == weight_prefix(ups@, i as int),
            sum <= i32::MAX,
        decreases ups.len() - i,
    {
        let w: i64 = if ups[i].weight < 1 { 1 } else { ups[i].weight as i64 };
        sum = sum + w;
        if sum > 2147483647i64 {
            proof {
                lemma_weight_prefix_monotone(ups@, i + 1, ups@.len() as int);
            }
            return false;
        }
        i = i + 1;
    }
    true
}

/// A random draw from `rand::random::<u32>`. Nothing is promised of the
/// value: any `u32` may come back.
#[verifier::external_body]
fn random_u32() -> (r: u32) {
    rand::random::<u32>()
}

/// Weighted choice for the draw `draw`: the draw is reduced modulo the total
/// effective weight, and the upstream whose interval holds it is chosen.
pub fn pick_weighted(upstreams: &[Model], draw: u32) -> (r: Result<Model, AppError>)
    requires
        upstreams@.len() > 0,
        total_weight(upstreams@) <= i32::MAX,
    ensures
        r == Ok::<Model, AppError>(weighted_choice(upstreams@, draw)),
{
    let ghost ups = upstreams@;
    let mut total: i32 = 0;
    let mut i: usize = 0;
    while i < upstreams.len()
        invariant
            i <= ups.len(),
            ups == upstreams@,
            total == weight_prefix(ups, i as int),
            total_weight(ups) <= i32::MAX,
        decreases upstreams.len() - i,
    {
        proof {
            lemma_weight_prefix_monotone(ups, i + 1, ups.len() as int);
        }
        let w: i32 = if upstreams[i].weight < 1 { 1 } else { upstreams[i].weight };
        total = total + w;
        i = i + 1;
    }
    proof {
        lemma_weight_prefix_monotone(ups, 0, ups.len() as int);
    }
    let mut rng_val: u32 = draw % (total as u32);
    let ghost r0 = rng_val as int;
    assert(r0 == draw as int % total_weight(ups));
    let mut k: usize = 0;
    while k < upstreams.len()
        invariant
            k <= ups.len(),
            ups == upstreams@,
            rng_val >= 0,
            slot_from(ups, 0, r0) == slot_from(ups, k as int, rng_val as int),
            r0 == draw as int % total_weight(ups),
        decreases upstreams.len() - k,
    {
        let w: u32 = if upstreams[k].weight < 1 { 1 } else { upstreams[k].weight as u32 };
        assert(w == effective_weight(ups[k as int]));
        if rng_val < w {
            assert(slot_from(ups, k as int, rng_val as int) == Some(k as int));
            assert(weighted_index(ups, draw as int % total_weight(ups)) == k);
            return Ok(upstreams[k].duplicate());
        }
        rng_val = rng_val - w;
        k = k + 1;
    }
    Ok(upstreams[0].duplicate())
}

/// Weighted selection with a fresh random draw.
fn select_weighted(upstreams: &[Model]) -> (r: Result<Model, AppError>)
    requires
        upstreams@.len() > 0,
        total_weight(upstreams@) <= i32::MAX,
    ensures
        exists|d: u32| r == Ok::<Model, AppError>(#[trigger] weighted_choice(upstreams@, d)),
{
    let d = random_u32();
    pick_weighted(upstreams, d)
}

/// Round-robin choice for the counter value `tick`.
pub fn round_robin_pick(upstreams: &[Model], tick: usize) -> (r: Model)
    requires
        upstreams@.len() > 0,
    ensures
        r == round_robin_choice(upstreams@, tick),
{
    let idx = tick % upstreams.len();
    upstreams[idx].duplicate()
}

/// Takes the next value of the shared round-robin counter (wrapping add).
/// The value handed back is the counter before the increment; every worker
/// shares the counter and vstd states no value for `AtomicUsize::fetch_add`,
/// so no clause promises which value comes back.
fn next_tick(counter: &AtomicUsize) -> usize {
    counter.fetch_add(1, Ordering::Relaxed)
}

/// What selection may answer for the pinned row `preferred` (if any) and the
/// enabled and healthy upstreams `available` (by priority): a usable pin is
/// taken as is; otherwise `NoAvailableUpstream` when nothing is available,
/// else by the strategy of the first entry: `weighted` answers the weighted
/// choice for some draw, `failover` the first entry, anything else the
/// round-robin choice for some counter value.
pub open spec fn select_allows(preferred: Option<Model>, available: Seq<Model>, r: Result<Model, AppError>) -> bool {
    &&& pinned_usable(preferred) ==> r == Ok::<Model, AppError>(preferred->0)
    &&& !pinned_usable(preferred) && available.len() == 0
        ==> r == Err::<Model, AppError>(AppError::NoAvailableUpstream)
    &&& !pinned_usable(preferred) && available.len() > 0 && available[0].lb_strategy@ == "weighted"@
        ==> exists|d: u32| r == Ok::<Model, AppError>(#[trigger] weighted_choice(available, d))
    &&& !pinned_usable(preferred) && available.len() > 0 && available[0].lb_strategy@ == "failover"@
        ==> r == Ok::<Model, AppError>(available[0])
    &&& !pinned_usable(preferred) && available.len() > 0 && available[0].lb_strategy@ != "weighted"@
        && available[0].lb_strategy@ != "failover"@
        ==> exists|k: usize| r == Ok::<Model, AppError>(#[trigger] round_robin_choice(available, k))
}

/// Select an upstream. A pinned upstream that is enabled and healthy is
/// taken as is; otherwise the choice is made among `available` (the enabled
/// and healthy upstreams, by priority) with the strategy of its first entry:
/// `weighted` (random draw over effective weights), `failover` (the first
/// one), anything else round-robin over the shared counter.
pub fn select(
    preferred: Option<Model>,
    available: Vec<Model>,
    lb_counter: &AtomicUsize,
) -> (r: Result<Model, AppError>)
    requires
        !pinned_usable(preferred) && available@.len() > 0
            && available@[0].lb_strategy@ == "weighted"@ ==> total_weight(available@) <= i32::MAX,
    ensures
        select_allows(preferred, available@, r),
{
    proof {
        reveal_strlit("weighted");
        reveal_strlit("failover");
        assert("weighted"@[0] != "failover"@[0]);
    }
    if let Some(up) = preferred {
        if up.enabled && up.is_healthy {
            return Ok(up);
        }
    }
    if available.len() == 0 {
        return Err(AppError::NoAvailableUpstream);
    }
    if str_equal(available[0].lb_strategy.as_str(), "weighted") {
        select_weighted(available.as_slice())
    } else if str_equal(available[0].lb_strategy.as_str(), "failover") {
        Ok(available[0].duplicate())
    } else {
        let tick = next_tick(lb_counter);
        let chosen = round_robin_pick(available.as_slice(), tick);
        let res: Result<Model, AppError> = Ok(chosen);
        assert(res == Ok::<Model, AppError>(round_robin_choice(available@, tick)));
        res
    }
}


/// The pinned row a request carries: the looked-up row when an id is pinned,
/// nothing otherwise.
pub open spec fn pinned_row(preferred_id: Option<i64>, found: Option<Model>) -> Option<Model> {
    if preferred_id is Some {
        found
    } else {
        None
    }
}

/// Select an upstream for a request that may pin one by id, given the row
/// looked up for that id (`found`) and the enabled and healthy upstreams by
/// priority (`available`). A pinned id without a row is `UpstreamNotFound`
/// with that id, with no fallback; otherwise the choice is that of `select`
/// with the pinned row.
pub fn select_with_pin(
    preferred_id: Option<i64>,
    found: Option<Model>,
    available: Vec<Model>,
    lb_counter: &AtomicUsize,
) -> (r: Result<Model, AppError>)
    requires
        (preferred_id is None || found is Some) && !pinned_usable(pinned_row(preferred_id, found))
            && available@.len() > 0 && available@[0].lb_strategy@ == "weighted"@
            ==> total_weight(available@) <= i32::MAX,
    ensures
        preferred_id is Some && found is None
            ==> r == Err::<Model, AppError>(AppError::UpstreamNotFound { id: preferred_id->0 }),
        preferred_id is None || found is Some ==> select_allows(pinned_row(preferred_id, found), available@, r),
{
    let preferred = match preferred_id {
        Some(id) => match get(found, id) {
            Ok(m) => Some(m),
            Err(e) => {
                return Err(e);
            },
        },
        None => None,
    };
    select(preferred, available, lb_counter)
}

/// The upstream looked up by `id`: the stored one, or `UpstreamNotFound`.
pub fn get(found: Option<Model>, id: i64) -> (r: Result<Model, AppError>)
    ensures
        found matches Some(m) ==> r == Ok::<Model, AppError>(m),
        found is None ==> r == Err::<Model, AppError>(AppError::UpstreamNotFound { id }),
{
    match found {
        Some(m) => Ok(m),
        None => Err(AppError::UpstreamNotFound { id }),
    }
}


// ---------------------------------------------------------------------------
// Laws of load balancing
// ---------------------------------------------------------------------------

/// The slot of a draw among the upstreams from index `k` on is the one whose
/// interval (relative to the weights before `k`) holds it.
proof fn lemma_slot_from_interval(ups: Seq<Model>, k: int, r: int, i: int)
    requires
        0 <= k <= ups.len(),
        r >= 0,
    ensures
        slot_from(ups, k, r) == Some(i) <==> (k <= i < ups.len()
            && weight_prefix(ups, i) - weight_prefix(ups, k) <= r
            && r < weight_prefix(ups, i + 1) - weight_prefix(ups, k)),
    decreases ups.len() - k,
{
    if k < ups.len() {
        let w = effective_weight(ups[k]);
        assert(weight_prefix(ups, k + 1) == weight_prefix(ups, k) + w);
        if r < w {
            if k + 1 <= i <= ups.len() {
                lemma_weight_prefix_monotone(ups, k + 1, i);
            }
        } else {
            lemma_slot_from_interval(ups, k + 1, r - w, i);
        }
    }
}

/// Law of weighted balancing: the draws `0 .. total` are split into
/// consecutive intervals, one per upstream in order, each as long as the
/// upstream's effective weight (its weight, at least 1); a draw picks the
/// upstream whose interval holds it. So every upstream is chosen, and
/// chosen with a share of draws proportional to its effective weight.
pub proof fn law_weighted_intervals(ups: Seq<Model>, r: int, i: int)
    requires
        0 <= r < total_weight(ups),
    ensures
        weighted_index(ups, r) == i <==> (0 <= i < ups.len()
            && weight_prefix(ups, i) <= r < weight_prefix(ups, i + 1)),
        0 <= weighted_index(ups, r) < ups.len(),
{
    let n = ups.len() as int;
    lemma_slot_from_interval(ups, 0, r, i);
    // Some interval holds r: find it.
    assert(exists|j: int| 0 <= j < n && #[trigger] weight_prefix(ups, j) <= r < weight_prefix(ups, j + 1)) by {
        lemma_interval_exists(ups, r, n);
    }
    let j = choose|j: int| 0 <= j < n && #[trigger] weight_prefix(ups, j) <= r < weight_prefix(ups, j + 1);
    lemma_slot_from_interval(ups, 0, r, j);
    assert(slot_from(ups, 0, r) == Some(j));
}

proof fn lemma_interval_exists(ups: Seq<Model>, r: int, n: int)
    requires
        0 <= n <= ups.len(),
        0 <= r < weight_prefix(ups, n),
    ensures
        exists|j: int| 0 <= j < n && #[trigger] weight_prefix(ups, j) <= r < weight_prefix(ups, j + 1),
    decreases n,
{
    if r < weight_prefix(ups, n - 1) {
        lemma_interval_exists(ups, r, n - 1);
        let j = choose|j: int| 0 <= j < n - 1 && #[trigger] weight_prefix(ups, j) <= r < weight_prefix(ups, j + 1);
        assert(0 <= j < n && weight_prefix(ups, j) <= r < weight_prefix(ups, j + 1));
    } else {
        assert(0 <= n - 1 < n && weight_prefix(ups, n - 1) <= r < weight_prefix(ups, n));
    }
}

/// Law of round-robin balancing: consecutive counter values pick
/// consecutive upstreams, wrapping around after the last; `len` counter
/// steps later the same upstream is picked again. (The counter wraps at
/// `usize::MAX`, where neither holds.)
pub proof fn law_round_robin_rotates(ups: Seq<Model>, k: usize)
    requires
        ups.len() > 0,
        k < usize::MAX,
    ensures
        (k + 1) as int % ups.len() as int == (k as int % ups.len() as int + 1) % ups.len() as int,
        k + ups.len() <= usize::MAX ==> round_robin_choice(ups, (k + ups.len()) as usize) == round_robin_choice(ups, k),
{
    let n = ups.len() as int;
    vstd::arithmetic::div_mod::lemma_add_mod_noop(k as int, 1, n);
    vstd::arithmetic::div_mod::lemma_mod_bound(k as int, n);
    if n > 1 {
        vstd::arithmetic::div_mod::lemma_small_mod(1, n as nat);
    } else {
        vstd::arithmetic::div_mod::lemma_mod_bound((k + 1) as int, n);
        vstd::arithmetic::div_mod::lemma_mod_bound(k as int % n + 1, n);
    }
    vstd::arithmetic::div_mod::lemma_mod_multiples_vanish(1, k as int, n);
    assert(n * 1 + k as int == k as int + n);
}

/// The list position round-robin balancing uses at counter value `k` over
/// `n` upstreams.
pub open spec fn rr_slot(k: int, n: int) -> int {
    k % n
}

/// The shared counter's value `j` steps after `k` (it wraps at `usize::MAX`).
pub open spec fn tick_after(k: usize, j: int) -> int {
    (k + j) % (usize::MAX as int + 1)
}

/// Some of the `n` counter values from `k` on picks position `i`.
pub open spec fn slot_reached(k: usize, n: int, i: int) -> bool {
    exists|j: int| 0 <= j < n && #[trigger] rr_slot(tick_after(k, j), n) == i
}

proof fn lemma_tick_slot(k: usize, n: int, j: int)
    requires
        0 < n,
        0 <= j < n,
        k + n <= usize::MAX as int + 1 || (usize::MAX as int + 1) % n == 0,
    ensures
        rr_slot(tick_after(k, j), n) == rr_slot(k + j, n),
        0 <= tick_after(k, j) <= usize::MAX,
{
    let m = usize::MAX as int + 1;
    vstd::arithmetic::div_mod::lemma_mod_bound(k + j, m);
    if k + n <= m {
        vstd::arithmetic::div_mod::lemma_small_mod((k + j) as nat, m as nat);
    } else {
        let q = m / n;
        vstd::arithmetic::div_mod::lemma_fundamental_div_mod(m, n);
        assert(m == n * q);
        assert(q > 0) by (nonlinear_arith)
            requires
                m == n * q,
                m > 0,
                n > 0,
        ;
        vstd::arithmetic::div_mod::lemma_mod_mod(k + j, n, q);
    }
}

/// Law of round-robin coverage: `len` consecutive values of the shared
/// counter pick `len` distinct positions, so every upstream of the list is
/// picked exactly once, each pick being the upstream at its position. This
/// holds for every run that does not wrap the counter, and for every run at
/// all when the list length divides 2^BITS (the counter then wraps onto the
/// same positions).
pub proof fn law_round_robin_covers(ups: Seq<Model>, k: usize)
    requires
        ups.len() > 0,
        k + ups.len() <= usize::MAX as int + 1 || (usize::MAX as int + 1) % (ups.len() as int) == 0,
    ensures
        forall|j1: int, j2: int| 0 <= j1 < j2 < ups.len()
            ==> #[trigger] rr_slot(tick_after(k, j1), ups.len() as int)
                != #[trigger] rr_slot(tick_after(k, j2), ups.len() as int),
        forall|i: int| 0 <= i < ups.len() ==> #[trigger] slot_reached(k, ups.len() as int, i),
        forall|j: int| 0 <= j < ups.len()
            ==> round_robin_choice(ups, tick_after(k, j) as usize) == ups[#[trigger] rr_slot(tick_after(k, j), ups.len() as int)],
{
    let n = ups.len() as int;
    assert forall|j1: int, j2: int| 0 <= j1 < j2 < n
        implies #[trigger] rr_slot(tick_after(k, j1), n) != #[trigger] rr_slot(tick_after(k, j2), n) by {
        lemma_tick_slot(k, n, j1);
        lemma_tick_slot(k, n, j2);
        vstd::arithmetic::div_mod::lemma_mod_equivalence(k + j2, k + j1, n);
        assert((k + j2) - (k + j1) == j2 - j1);
        vstd::arithmetic::div_mod::lemma_small_mod((j2 - j1) as nat, n as nat);
    }
    assert forall|i: int| 0 <= i < n implies #[trigger] slot_reached(k, n, i) by {
        let j = (i - k) % n;
        vstd::arithmetic::div_mod::lemma_mod_bound(i - k, n);
        vstd::arithmetic::div_mod::lemma_add_mod_noop_right(k as int, i - k, n);
        assert(k + (i - k) == i);
        vstd::arithmetic::div_mod::lemma_small_mod(i as nat, n as nat);
        lemma_tick_slot(k, n, j);
        assert(rr_slot(tick_after(k, j), n) == i);
    }
    assert forall|j: int| 0 <= j < n implies round_robin_choice(ups, tick_after(k, j) as usize)
        == ups[#[trigger] rr_slot(tick_after(k, j), n)] by {
        lemma_tick_slot(k, n, j);
    }
}

/// Law of pinned selection: a usable pinned upstream is the only answer; a
/// pinned upstream that is not usable changes nothing, and selection answers
/// as if nothing were pinned.
pub proof fn law_pinned_selection(up: Model, available: Seq<Model>, r: Result<Model, AppError>)
    ensures
        is_usable(up) ==> (select_allows(Some(up), available, r) <==> r == Ok::<Model, AppError>(up)),
        !is_usable(up) ==> (select_allows(Some(up), available, r) <==> select_allows(None, available, r)),
{
}

/// Every balanced choice is one of the candidates: weighted and round-robin
/// selection pick an element of the list they are given.
pub proof fn law_choice_is_candidate(ups: Seq<Model>, d: u32, k: usize)
    requires
        ups.len() > 0,
    ensures
        exists|i: int| 0 <= i < ups.len() && ups[i] == weighted_choice(ups, d),
        exists|i: int| 0 <= i < ups.len() && ups[i] == round_robin_choice(ups, k),
{
    let n = ups.len() as int;
    lemma_weight_prefix_monotone(ups, 0, n);
    let t = total_weight(ups);
    vstd::arithmetic::div_mod::lemma_mod_bound(d as int, t);
    law_weighted_intervals(ups, d as int % t, 0);
    let wi = weighted_index(ups, d as int % t);
    assert(ups[wi] == weighted_choice(ups, d));
    vstd::arithmetic::div_mod::lemma_mod_bound(k as int, n);
    let ri = k as int % n;
    assert(ups[ri] == round_robin_choice(ups, k));
}

} // verus!
