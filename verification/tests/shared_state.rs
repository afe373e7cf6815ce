use std::sync::atomic::Ordering;
use std::time::{Duration, Instant};
use telemt::proxy::{
    AuthProbeSaturationState, AuthProbeState, ClientIp, DesyncDedupRotationState,
    ProxySharedState, RelayIdleCandidateMeta, RelayIdleCandidateRegistry,
};

#[test]
fn new_state_has_empty_tables() {
    let shared = ProxySharedState::new();
    assert_eq!(shared.auth_probe.len(), 0);
    assert_eq!(shared.desync_dedup.len(), 0);
    assert_eq!(shared.desync_dedup_previous.len(), 0);
}

#[test]
fn new_state_has_no_saturation_and_no_emit_time() {
    let shared = ProxySharedState::new();
    assert!(shared.auth_probe_saturation.lock().unwrap().is_none());
    assert!(shared.desync_full_cache_last_emit_at.lock().unwrap().is_none());
}

#[test]
fn new_state_has_no_rotation_started() {
    let shared = ProxySharedState::new();
    let rotation = shared.desync_dedup_rotation_state.lock().unwrap();
    assert!(rotation.current_started_at.is_none());
}

#[test]
fn new_state_has_empty_registry_and_zero_mark_seq() {
    let shared = ProxySharedState::new();
    {
        let registry = shared.relay_idle_registry.lock().unwrap();
        assert!(registry.by_conn_id.is_empty());
        assert!(registry.ordered.is_empty());
        assert_eq!(registry.pressure_event_seq, 0);
        assert_eq!(registry.pressure_consumed_seq, 0);
    }
    assert_eq!(shared.relay_idle_mark_seq.load(Ordering::Relaxed), 0);
}

#[test]
fn two_instances_do_not_share_state() {
    let first = ProxySharedState::new();
    let second = ProxySharedState::new();
    let now = Instant::now();

    first.desync_dedup.insert(0xAAAA_BBBB_CCCC_DDDD, now);
    first.auth_probe.insert(
        ClientIp::V4([192, 0, 2, 1]),
        AuthProbeState { fail_streak: 3, blocked_until: now + Duration::from_millis(10), last_seen: now },
    );
    *first.auth_probe_saturation.lock().unwrap() = Some(AuthProbeSaturationState {
        fail_streak: 5,
        blocked_until: now,
        last_seen: now,
    });
    first.relay_idle_mark_seq.store(42, Ordering::Relaxed);

    assert_eq!(first.desync_dedup.len(), 1);
    assert_eq!(first.auth_probe.len(), 1);
    assert_eq!(second.desync_dedup.len(), 0);
    assert_eq!(second.auth_probe.len(), 0);
    assert!(second.auth_probe_saturation.lock().unwrap().is_none());
    assert_eq!(second.relay_idle_mark_seq.load(Ordering::Relaxed), 0);
}

#[test]
fn auth_probe_table_keeps_v4_and_v6_clients_apart() {
    let shared = ProxySharedState::new();
    let now = Instant::now();
    let v4 = ClientIp::V4([10, 0, 0, 1]);
    let mut v6_octets = [0u8; 16];
    v6_octets[10] = 0xff;
    v6_octets[11] = 0xff;
    v6_octets[12] = 10;
    v6_octets[15] = 1;
    let v6 = ClientIp::V6(v6_octets);
    shared.auth_probe.insert(v4, AuthProbeState { fail_streak: 1, blocked_until: now, last_seen: now });
    shared.auth_probe.insert(v6, AuthProbeState { fail_streak: 2, blocked_until: now, last_seen: now });
    assert_eq!(shared.auth_probe.len(), 2);
    assert_eq!(shared.auth_probe.get(&v4).unwrap().fail_streak, 1);
    assert_eq!(shared.auth_probe.get(&v6).unwrap().fail_streak, 2);
}

#[test]
fn default_rotation_state_has_not_started() {
    let rotation = DesyncDedupRotationState::default();
    assert!(rotation.current_started_at.is_none());
}

#[test]
fn default_registry_is_empty() {
    let registry = RelayIdleCandidateRegistry::default();
    assert!(registry.by_conn_id.is_empty());
    assert!(registry.ordered.is_empty());
    assert_eq!(registry.pressure_event_seq, 0);
    assert_eq!(registry.pressure_consumed_seq, 0);
}

#[test]
fn registry_reset_by_default_after_entries() {
    let shared = ProxySharedState::new();
    {
        let mut registry = shared.relay_idle_registry.lock().unwrap();
        registry.by_conn_id.insert(999, RelayIdleCandidateMeta { mark_order_seq: 1, mark_pressure_seq: 0 });
        registry.ordered.insert((1, 999));
        registry.pressure_event_seq = 7;
        *registry = Default::default();
    }
    let registry = shared.relay_idle_registry.lock().unwrap();
    assert!(registry.by_conn_id.is_empty());
    assert!(registry.ordered.is_empty());
    assert_eq!(registry.pressure_event_seq, 0);
}

#[test]
fn copied_probe_state_keeps_its_fields() {
    let now = Instant::now();
    let later = now + Duration::from_secs(7);
    let state = AuthProbeState { fail_streak: 4, blocked_until: later, last_seen: now };
    let copy = state;
    assert_eq!(copy.fail_streak, 4);
    assert_eq!(copy.blocked_until, later);
    assert_eq!(copy.last_seen, now);
}

#[test]
fn new_state_locks_are_free_and_unpoisoned() {
    let shared = ProxySharedState::new();
    assert!(!shared.auth_probe_saturation.is_poisoned());
    assert!(!shared.desync_full_cache_last_emit_at.is_poisoned());
    assert!(!shared.desync_dedup_rotation_state.is_poisoned());
    assert!(!shared.relay_idle_registry.is_poisoned());
    assert!(shared.auth_probe_saturation.try_lock().is_ok());
    assert!(shared.desync_full_cache_last_emit_at.try_lock().is_ok());
    assert!(shared.desync_dedup_rotation_state.try_lock().is_ok());
    assert!(shared.relay_idle_registry.try_lock().is_ok());
}

fn require_send_sync<T: Send + Sync>() {}

#[test]
fn shared_state_is_send_and_sync() {
    require_send_sync::<std::sync::Arc<ProxySharedState>>();
    require_send_sync::<ProxySharedState>();
}
