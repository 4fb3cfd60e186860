use std::sync::atomic::{AtomicUsize, Ordering};

use api_transit::db::entities::upstreams;
use api_transit::error::AppError;
use api_transit::service::upstream::{
    apply_update, create, delete, disable_at, get, new_upstream, pick_weighted, round_robin_pick,
    select, select_with_pin, total_weight_fits, with_health_at, UpsertUpstreamDto, UpstreamDto,
};
use api_transit::timestamp::Timestamp;

fn ts(secs: i64) -> Timestamp {
    Timestamp { secs, nanos: 0 }
}

fn up(id: i64, weight: i32, strategy: &str, enabled: bool, healthy: bool) -> upstreams::Model {
    upstreams::Model {
        id,
        name: format!("u{}", id),
        base_url: format!("http://u{}.test", id),
        api_key: None,
        extra_headers: None,
        timeout_secs: 30,
        weight,
        priority: 0,
        lb_strategy: strategy.to_string(),
        enabled,
        is_healthy: healthy,
        created_at: ts(1),
        updated_at: ts(1),
    }
}

fn dto() -> UpsertUpstreamDto {
    UpsertUpstreamDto {
        name: "n".to_string(),
        base_url: "http://b".to_string(),
        api_key: Some("k".to_string()),
        extra_headers: None,
        timeout_secs: None,
        weight: None,
        priority: None,
        lb_strategy: None,
        enabled: None,
    }
}

#[test]
fn pinned_healthy_upstream_is_taken() {
    let counter = AtomicUsize::new(0);
    let r = select(Some(up(9, 1, "failover", true, true)), vec![up(1, 1, "failover", true, true)], &counter).unwrap();
    assert_eq!(r.id, 9);
}

#[test]
fn pinned_unhealthy_upstream_falls_back() {
    let counter = AtomicUsize::new(0);
    let r = select(Some(up(9, 1, "failover", true, false)), vec![up(1, 1, "failover", true, true)], &counter).unwrap();
    assert_eq!(r.id, 1);
}

#[test]
fn missing_pinned_row_is_not_found_without_fallback() {
    let counter = AtomicUsize::new(0);
    let r = select_with_pin(Some(42), None, vec![up(1, 1, "round_robin", true, true)], &counter);
    assert!(matches!(r, Err(AppError::UpstreamNotFound { id: 42 })));
    // The weighted total of the others plays no part for a missing pin.
    let heavy = vec![up(1, i32::MAX, "weighted", true, true), up(2, i32::MAX, "weighted", true, true)];
    let r = select_with_pin(Some(42), None, heavy, &counter);
    assert!(matches!(r, Err(AppError::UpstreamNotFound { id: 42 })));
    assert_eq!(counter.load(Ordering::Relaxed), 0);
}

#[test]
fn select_with_pin_uses_a_usable_pin_or_balances() {
    let counter = AtomicUsize::new(0);
    let avail = vec![up(1, 1, "failover", true, true)];
    let r = select_with_pin(Some(9), Some(up(9, 1, "failover", true, true)), avail.clone(), &counter).unwrap();
    assert_eq!(r.id, 9);
    let r = select_with_pin(Some(9), Some(up(9, 1, "failover", false, true)), avail.clone(), &counter).unwrap();
    assert_eq!(r.id, 1);
    let r = select_with_pin(None, Some(up(9, 1, "failover", true, true)), avail, &counter).unwrap();
    assert_eq!(r.id, 1);
}

#[test]
fn no_available_upstream_is_an_error() {
    let counter = AtomicUsize::new(0);
    let r = select(None, vec![], &counter);
    assert!(matches!(r, Err(AppError::NoAvailableUpstream)));
}

#[test]
fn failover_takes_the_first() {
    let counter = AtomicUsize::new(0);
    let r = select(None, vec![up(3, 1, "failover", true, true), up(4, 1, "failover", true, true)], &counter).unwrap();
    assert_eq!(r.id, 3);
    assert_eq!(counter.load(Ordering::Relaxed), 0);
}

#[test]
fn round_robin_cycles_through_the_list() {
    let counter = AtomicUsize::new(0);
    let list = || vec![up(1, 1, "round_robin", true, true), up(2, 1, "round_robin", true, true), up(3, 1, "x", true, true)];
    let ids: Vec<i64> = (0..4).map(|_| select(None, list(), &counter).unwrap().id).collect();
    assert_eq!(ids, vec![1, 2, 3, 1]);
    assert_eq!(counter.load(Ordering::Relaxed), 4);
}

#[test]
fn round_robin_pick_uses_the_counter_modulo_len() {
    let list = vec![up(1, 1, "round_robin", true, true), up(2, 1, "round_robin", true, true)];
    assert_eq!(round_robin_pick(&list, 7).id, 2);
    assert_eq!(round_robin_pick(&list, 8).id, 1);
}

#[test]
fn round_robin_covers_every_upstream_once() {
    let list: Vec<_> = (1..=3).map(|i| up(i, 1, "round_robin", true, true)).collect();
    let mut ids: Vec<i64> = (5usize..8).map(|k| round_robin_pick(&list, k).id).collect();
    assert_eq!(ids, vec![3, 1, 2]);
    ids.sort();
    assert_eq!(ids, vec![1, 2, 3]);
}

#[test]
fn round_robin_covers_across_the_counter_wrap() {
    let list: Vec<_> = (1..=2).map(|i| up(i, 1, "round_robin", true, true)).collect();
    let counter = AtomicUsize::new(usize::MAX);
    let a = round_robin_pick(&list, counter.fetch_add(1, Ordering::Relaxed)).id;
    let b = round_robin_pick(&list, counter.fetch_add(1, Ordering::Relaxed)).id;
    assert_eq!((a, b), (2, 1));
}

#[test]
fn weighted_pick_follows_the_intervals() {
    // effective weights 3, 1 (weight 0 counts as 1), 2: total 6
    let list = vec![up(1, 3, "weighted", true, true), up(2, 0, "weighted", true, true), up(3, 2, "weighted", true, true)];
    let ids: Vec<i64> = (0..8u32).map(|d| pick_weighted(&list, d).unwrap().id).collect();
    assert_eq!(ids, vec![1, 1, 1, 2, 3, 3, 1, 1]);
}

#[test]
fn weighted_select_picks_a_candidate() {
    let counter = AtomicUsize::new(0);
    let list = vec![up(1, 3, "weighted", true, true), up(2, 5, "weighted", true, true)];
    for _ in 0..20 {
        let r = select(None, list.clone(), &counter).unwrap();
        assert!(r.id == 1 || r.id == 2);
    }
}

#[test]
fn total_weight_fits_detects_overflow() {
    let fits = vec![up(1, i32::MAX - 1, "weighted", true, true), up(2, -4, "weighted", true, true)];
    assert!(total_weight_fits(&fits));
    let too_much = vec![up(1, i32::MAX, "weighted", true, true), up(2, 1, "weighted", true, true)];
    assert!(!total_weight_fits(&too_much));
}

#[test]
fn create_applies_defaults() {
    let m = new_upstream(dto(), ts(5));
    assert_eq!(m.timeout_secs, 30);
    assert_eq!(m.weight, 1);
    assert_eq!(m.priority, 0);
    assert_eq!(m.lb_strategy, "round_robin");
    assert!(m.enabled);
    assert!(m.is_healthy);
    assert_eq!(m.created_at, ts(5));
    assert_eq!(m.updated_at, ts(5));
    let c = create(dto());
    assert_eq!(c.created_at, c.updated_at);
}

#[test]
fn update_keeps_enabled_unless_given() {
    let existing = up(4, 7, "weighted", false, false);
    let m = apply_update(existing.clone(), dto(), ts(9));
    assert_eq!(m.id, 4);
    assert!(!m.enabled);
    assert!(!m.is_healthy);
    assert_eq!(m.weight, 1);
    assert_eq!(m.lb_strategy, "round_robin");
    assert_eq!(m.api_key.as_deref(), Some("k"));
    assert_eq!(m.updated_at, ts(9));
    assert_eq!(m.created_at, ts(1));
    let mut d = dto();
    d.enabled = Some(true);
    d.lb_strategy = Some("failover".to_string());
    let m2 = apply_update(existing, d, ts(9));
    assert!(m2.enabled);
    assert_eq!(m2.lb_strategy, "failover");
}

#[test]
fn soft_delete_and_health_marking() {
    let m = disable_at(up(4, 7, "weighted", true, true), ts(3));
    assert!(!m.enabled);
    assert!(m.is_healthy);
    assert_eq!(m.updated_at, ts(3));
    let h = with_health_at(m, false, ts(4));
    assert!(!h.is_healthy);
    assert!(!h.enabled);
    assert_eq!(h.updated_at, ts(4));
    let d = delete(up(5, 1, "x", true, true));
    assert!(!d.enabled);
}

#[test]
fn get_reports_missing_upstream() {
    assert!(matches!(get(None, 12), Err(AppError::UpstreamNotFound { id: 12 })));
    assert_eq!(get(Some(up(12, 1, "x", true, true)), 12).unwrap().id, 12);
}

#[test]
fn public_view_hides_the_api_key() {
    let mut m = up(1, 1, "x", true, true);
    m.api_key = Some("secret".to_string());
    let dto: UpstreamDto = UpstreamDto::from(m);
    assert_eq!(dto.id, 1);
    assert_eq!(dto.name, "u1");
}
