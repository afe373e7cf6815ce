//! Declarations of the std and dashmap types that the shared state holds, and
//! the calls that make them. Each contract here is believed, not proved.

use dashmap::DashMap;
use std::collections::hash_map::RandomState;
use std::sync::atomic::AtomicU64;
use std::sync::Mutex;
use std::time::Instant;
use vstd::prelude::*;

use crate::proxy::shared_state::{
    AuthProbeSaturationState, AuthProbeState, ClientIp, DesyncDedupRotationState,
    RelayIdleCandidateRegistry,
};

verus! {

/// `std::time::Instant`: a point in time, carried through as an opaque value.
#[verifier::external_type_specification]
#[verifier::external_body]
pub struct ExInstant(Instant);

/// `std::sync::Mutex`: a lock around one value, opaque to the verifier.
#[verifier::external_type_specification]
#[verifier::external_body]
#[verifier::reject_recursive_types(T)]
pub struct ExMutex<T: ?Sized>(Mutex<T>);

/// `dashmap::DashMap`: a sharded concurrent hash map, opaque to the verifier.
#[verifier::external_type_specification]
#[verifier::external_body]
#[verifier::reject_recursive_types(K)]
#[verifier::reject_recursive_types(V)]
#[verifier::reject_recursive_types(S)]
pub struct ExDashMap<K, V, S>(DashMap<K, V, S>);

/// The client addresses that an auth-probe table held when it was made.
/// A `DashMap` is written through shared references, so this names the table
/// as it was built and nothing after a later write.
pub uninterp spec fn auth_probe_keys_at_start(table: DashMap<ClientIp, AuthProbeState>) -> Set<ClientIp>;

/// The keys that a desync dedup table held when it was made (as above, the
/// table as built).
pub uninterp spec fn dedup_keys_at_start(table: DashMap<u64, Instant>) -> Set<u64>;

/// Whether the saturation lock was made holding a saturation bucket.
pub uninterp spec fn saturation_held_at_start(slot: Mutex<Option<AuthProbeSaturationState>>) -> bool;

/// Whether the last-emit lock was made holding a time.
pub uninterp spec fn emit_time_held_at_start(slot: Mutex<Option<Instant>>) -> bool;

/// Whether the rotation lock was made holding a started rotation.
pub uninterp spec fn rotation_started_at_start(slot: Mutex<DesyncDedupRotationState>) -> bool;

/// The view of the registry that the registry lock was made with.
pub uninterp spec fn registry_at_start(slot: Mutex<RelayIdleCandidateRegistry>) -> (
    Map<u64, (u64, u64)>,
    Set<(u64, u64)>,
    u64,
    u64,
);

/// Whether the saturation lock was made unlocked and not poisoned.
pub uninterp spec fn saturation_lock_free_at_start(slot: Mutex<Option<AuthProbeSaturationState>>) -> bool;

/// Whether the last-emit lock was made unlocked and not poisoned.
pub uninterp spec fn emit_time_lock_free_at_start(slot: Mutex<Option<Instant>>) -> bool;

/// Whether the rotation lock was made unlocked and not poisoned.
pub uninterp spec fn rotation_lock_free_at_start(slot: Mutex<DesyncDedupRotationState>) -> bool;

/// Whether the registry lock was made unlocked and not poisoned.
pub uninterp spec fn registry_lock_free_at_start(slot: Mutex<RelayIdleCandidateRegistry>) -> bool;

/// The value that an atomic counter was made with.
pub uninterp spec fn counter_at_start(counter: AtomicU64) -> u64;

/// Calls `DashMap::new` for the auth-probe table. Per dashmap's source, `new`
/// builds every shard as an empty `HashMap`, so the table starts with no key.
#[verifier::external_body]
pub(crate) fn new_auth_probe_table() -> (table: DashMap<ClientIp, AuthProbeState>)
    ensures
        auth_probe_keys_at_start(table) == Set::<ClientIp>::empty(),
{
    DashMap::new()
}

/// Calls `DashMap::new` for a desync dedup table; as above, it starts with no
/// key.
#[verifier::external_body]
pub(crate) fn new_dedup_table() -> (table: DashMap<u64, Instant>)
    ensures
        dedup_keys_at_start(table) == Set::<u64>::empty(),
{
    DashMap::new()
}

/// Calls `Mutex::new` on the saturation bucket: per std's documentation the
/// lock is made unlocked and holds the value it was given; a lock that no
/// thread has held is not poisoned.
#[verifier::external_body]
pub(crate) fn new_saturation_slot(value: Option<AuthProbeSaturationState>) -> (slot: Mutex<
    Option<AuthProbeSaturationState>,
>)
    ensures
        saturation_held_at_start(slot) == value.is_some(),
        saturation_lock_free_at_start(slot),
{
    Mutex::new(value)
}

/// Calls `Mutex::new` on the last full-cache emit time; the lock is made
/// unlocked, unpoisoned, and holds the value it was given.
#[verifier::external_body]
pub(crate) fn new_emit_time_slot(value: Option<Instant>) -> (slot: Mutex<Option<Instant>>)
    ensures
        emit_time_held_at_start(slot) == value.is_some(),
        emit_time_lock_free_at_start(slot),
{
    Mutex::new(value)
}

/// Calls `Mutex::new` on the dedup rotation state; the lock is made unlocked,
/// unpoisoned, and holds the value it was given.
#[verifier::external_body]
pub(crate) fn new_rotation_slot(value: DesyncDedupRotationState) -> (slot: Mutex<
    DesyncDedupRotationState,
>)
    ensures
        rotation_started_at_start(slot) == value.current_started_at.is_some(),
        rotation_lock_free_at_start(slot),
{
    Mutex::new(value)
}

/// Calls `Mutex::new` on the relay idle-candidate registry; the lock is made
/// unlocked, unpoisoned, and holds the value it was given.
#[verifier::external_body]
pub(crate) fn new_registry_slot(value: RelayIdleCandidateRegistry) -> (slot: Mutex<
    RelayIdleCandidateRegistry,
>)
    ensures
        registry_at_start(slot) == value@,
        registry_lock_free_at_start(slot),
{
    Mutex::new(value)
}

/// Calls `AtomicU64::new`: per std's documentation the atomic then holds the
/// value it was given.
#[verifier::external_body]
pub(crate) fn new_counter(value: u64) -> (counter: AtomicU64)
    ensures
        counter_at_start(counter) == value,
{
    AtomicU64::new(value)
}

/// Calls `RandomState::new`, which seeds a hasher from process randomness:
/// nothing is stated of the result.
#[verifier::external_body]
pub(crate) fn new_random_state() -> RandomState {
    RandomState::new()
}

} // verus!
