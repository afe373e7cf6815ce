//! Per-process (or per-test) shared proxy state for handshake throttling and
//! middle-relay dedup, so that several isolated proxy instances can coexist.

use dashmap::DashMap;
use std::collections::hash_map::RandomState;
use std::collections::{BTreeSet, HashMap};
use std::sync::atomic::AtomicU64;
use std::sync::{Arc, Mutex};
use std::time::Instant;
use vstd::prelude::*;

use crate::foreign::{
    auth_probe_keys_at_start, counter_at_start, dedup_keys_at_start, emit_time_held_at_start,
    new_auth_probe_table, new_counter, new_dedup_table, new_emit_time_slot, new_random_state,
    new_registry_slot, new_rotation_slot, new_saturation_slot, registry_at_start,
    rotation_started_at_start, saturation_held_at_start, saturation_lock_free_at_start,
    emit_time_lock_free_at_start, rotation_lock_free_at_start, registry_lock_free_at_start,
};

verus! {

/// A client address, by which the auth-probe table is keyed: the octets of an
/// IPv4 or of an IPv6 address.
#[derive(Clone, Copy, Debug, PartialEq, Eq, Hash)]
pub enum ClientIp {
    V4([u8; 4]),
    V6([u8; 16]),
}

/// Tracked per client IP for pre-authentication handshake throttling.
#[derive(Clone, Copy)]
pub struct AuthProbeState {
    pub fail_streak: u32,
    pub blocked_until: Instant,
    pub last_seen: Instant,
}

/// Global saturation bucket when the per-IP auth-probe map is under pressure.
#[derive(Clone, Copy)]
pub struct AuthProbeSaturationState {
    pub fail_streak: u32,
    pub blocked_until: Instant,
    pub last_seen: Instant,
}

/// When the current desync dedup generation started, if one has.
pub struct DesyncDedupRotationState {
    pub current_started_at: Option<Instant>,
}

impl Default for DesyncDedupRotationState {
    /// No generation has started.
    fn default() -> (state: Self)
        ensures
            state.current_started_at is None,
    {
        DesyncDedupRotationState { current_started_at: None }
    }
}

/// Where a relay connection stands among the idle candidates.
#[derive(Clone, Copy)]
pub struct RelayIdleCandidateMeta {
    pub mark_order_seq: u64,
    pub mark_pressure_seq: u64,
}

/// Idle relay connections that may be closed under pressure: each candidate
/// by connection id, and the same candidates ordered by `(mark_order_seq,
/// conn_id)` so that the oldest mark comes first.
pub struct RelayIdleCandidateRegistry {
    pub by_conn_id: HashMap<u64, RelayIdleCandidateMeta>,
    pub ordered: BTreeSet<(u64, u64)>,
    pub pressure_event_seq: u64,
    pub pressure_consumed_seq: u64,
}

impl View for RelayIdleCandidateRegistry {
    /// Candidates by id with their `(mark_order_seq, mark_pressure_seq)`, the
    /// ordered index, and the two pressure counters.
    type V = (Map<u64, (u64, u64)>, Set<(u64, u64)>, u64, u64);

    open spec fn view(&self) -> Self::V {
        (
            self.by_conn_id@.map_values(
                |meta: RelayIdleCandidateMeta| (meta.mark_order_seq, meta.mark_pressure_seq),
            ),
            self.ordered@,
            self.pressure_event_seq,
            self.pressure_consumed_seq,
        )
    }
}

impl RelayIdleCandidateRegistry {
    /// The ordered index holds exactly one entry `(mark_order_seq, conn_id)` for
    /// each candidate, and nothing else.
    pub open spec fn wf(&self) -> bool {
        let (by_id, ordered, _, _) = self@;
        &&& forall|id: u64| #[trigger]
            by_id.contains_key(id) ==> ordered.contains((by_id[id].0, id))
        &&& forall|entry: (u64, u64)| #[trigger]
            ordered.contains(entry) ==> by_id.contains_key(entry.1) && by_id[entry.1].0
                == entry.0
    }
}

impl Default for RelayIdleCandidateRegistry {
    /// No candidate, no pressure event yet.
    fn default() -> (registry: Self)
        ensures
            registry@ == (Map::<u64, (u64, u64)>::empty(), Set::<(u64, u64)>::empty(), 0u64, 0u64),
            registry.wf(),
    {
        let registry = RelayIdleCandidateRegistry {
            by_conn_id: HashMap::new(),
            ordered: BTreeSet::new(),
            pressure_event_seq: 0,
            pressure_consumed_seq: 0,
        };
        assert(registry@.0 =~= Map::<u64, (u64, u64)>::empty());
        registry
    }
}

/// Mutable cross-connection state injected into handshake and middle-relay paths.
pub struct ProxySharedState {
    pub auth_probe: DashMap<ClientIp, AuthProbeState>,
    pub auth_probe_saturation: Mutex<Option<AuthProbeSaturationState>>,
    pub auth_probe_eviction_hasher: RandomState,
    pub desync_dedup: DashMap<u64, Instant>,
    pub desync_dedup_previous: DashMap<u64, Instant>,
    pub desync_hasher: RandomState,
    pub desync_full_cache_last_emit_at: Mutex<Option<Instant>>,
    pub desync_dedup_rotation_state: Mutex<DesyncDedupRotationState>,
    pub relay_idle_registry: Mutex<RelayIdleCandidateRegistry>,
    pub relay_idle_mark_seq: AtomicU64,
}

impl ProxySharedState {
    /// The state as `new` builds it: every table empty, no saturation bucket,
    /// no full-cache emit time, no dedup generation started, an empty
    /// idle-candidate registry with both pressure counters at zero, the idle
    /// mark counter at zero, and each of the four locks unlocked and not
    /// poisoned.
    pub open spec fn is_fresh(&self) -> bool {
        &&& auth_probe_keys_at_start(self.auth_probe) == Set::<ClientIp>::empty()
        &&& !saturation_held_at_start(self.auth_probe_saturation)
        &&& dedup_keys_at_start(self.desync_dedup) == Set::<u64>::empty()
        &&& dedup_keys_at_start(self.desync_dedup_previous) == Set::<u64>::empty()
        &&& !emit_time_held_at_start(self.desync_full_cache_last_emit_at)
        &&& !rotation_started_at_start(self.desync_dedup_rotation_state)
        &&& registry_at_start(self.relay_idle_registry) == (
            Map::<u64, (u64, u64)>::empty(),
            Set::<(u64, u64)>::empty(),
            0u64,
            0u64,
        )
        &&& counter_at_start(self.relay_idle_mark_seq) == 0
        &&& saturation_lock_free_at_start(self.auth_probe_saturation)
        &&& emit_time_lock_free_at_start(self.desync_full_cache_last_emit_at)
        &&& rotation_lock_free_at_start(self.desync_dedup_rotation_state)
        &&& registry_lock_free_at_start(self.relay_idle_registry)
    }

    /// Builds a fresh isolated state (a production server uses one `Arc` for
    /// the whole runtime).
    pub fn new() -> (shared: Arc<Self>)
        ensures
            shared.is_fresh(),
    {
        Arc::new(
            Self {
                auth_probe: new_auth_probe_table(),
                auth_probe_saturation: new_saturation_slot(None),
                auth_probe_eviction_hasher: new_random_state(),
                desync_dedup: new_dedup_table(),
                desync_dedup_previous: new_dedup_table(),
                desync_hasher: new_random_state(),
                desync_full_cache_last_emit_at: new_emit_time_slot(None),
                desync_dedup_rotation_state: new_rotation_slot(
                    DesyncDedupRotationState::default(),
                ),
                relay_idle_registry: new_registry_slot(RelayIdleCandidateRegistry::default()),
                relay_idle_mark_seq: new_counter(0),
            },
        )
    }
}

} // verus!
