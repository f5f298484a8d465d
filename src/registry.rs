//! A model of the waiter registry shared by all calls, and of how calls move
//! through it: a call registers its slot if no slot is registered for its key
//! and call shape (then it owns the computation) or else waits as a follower;
//! an owner removes its entry on every way out (value, error or panic).
//!
//! The invariant proved here ties the registry to the calls: an entry is held
//! by exactly the one call that owns it. At most one computation is in flight
//! per key and call shape, calls of different shapes never meet, and a call
//! that has returned holds no entry.

use std::collections::HashMap;
use std::hash::Hash;
use vstd::prelude::*;
use vstd::std_specs::hash::{builds_valid_hashers, obeys_key_model};

verus! {

broadcast use vstd::std_specs::hash::group_hash_axioms;

/// Whether a key type hashes and compares as a model key does, so that a
/// segment's map behaves as its view says.
pub open spec fn keys_behave<K>() -> bool {
    obeys_key_model::<K>() && builds_valid_hashers::<std::hash::RandomState>()
}

/// A registration in a map of entries: `w` goes under `k` unless an entry is
/// there already, which then stays as it is.
pub open spec fn registered<K, W>(m: Map<K, W>, k: K, w: W) -> Map<K, W> {
    if m.contains_key(k) {
        m
    } else {
        m.insert(k, w)
    }
}

/// The segment of the registry that holds the keys of hash `hash`, out of
/// `num_segments` segments.
pub fn segment_index(hash: u64, num_segments: usize) -> (r: usize)
    requires
        num_segments > 0,
    ensures
        r == hash as int % num_segments as int,
        r < num_segments,
{
    (hash % num_segments as u64) as usize
}

/// One segment of the registry of in-flight waiters: the slots registered
/// under keys whose hash falls in it. Each segment is locked on its own.
pub struct WaiterSegment<K, W> {
    slots: HashMap<K, W>,
}

impl<K, W> View for WaiterSegment<K, W> {
    type V = Map<K, W>;

    closed spec fn view(&self) -> Map<K, W> {
        self.slots@
    }
}

impl<K: Eq + Hash, W: Clone> WaiterSegment<K, W> {
    /// An empty segment.
    pub fn new() -> (r: Self)
        ensures
            r@ == Map::<K, W>::empty(),
    {
        WaiterSegment { slots: HashMap::new() }
    }

    /// Registers `waiter` under `key` unless a waiter is registered there
    /// already; in that case the segment is unchanged and a handle to the
    /// registered waiter is returned.
    pub fn insert_if_not_present(&mut self, key: K, waiter: W) -> (r: Option<W>)
        ensures
            keys_behave::<K>() ==> final(self)@ == registered(old(self)@, key, waiter),
            keys_behave::<K>() ==> match r {
                Some(w) => old(self)@.contains_key(key) && cloned(old(self)@[key], w),
                None => !old(self)@.contains_key(key),
            },
    {
        match self.slots.get(&key) {
            Some(existing) => Some(existing.clone()),
            None => {
                self.slots.insert(key, waiter);
                None
            },
        }
    }

    /// Removes the waiter registered under `key`, if any.
    pub fn remove(&mut self, key: &K)
        ensures
            keys_behave::<K>() ==> final(self)@ == old(self)@.remove(*key),
    {
        self.slots.remove(key);
    }
}

/// A registry key: the cache key and the call-shape tag.
pub struct RegKey {
    pub key: int,
    pub tag: int,
}

/// Where one call stands.
pub enum CallPhase {
    /// Not registered: it is about to register, or waits as a follower.
    Pending,
    /// It registered its slot under this key and runs the computation.
    Owner(RegKey),
    /// It has returned to its caller (or unwound).
    Returned,
}

/// The registry, and each call's phase by call id.
pub struct RegistryState {
    pub entries: Map<RegKey, nat>,
    pub calls: Map<nat, CallPhase>,
}

/// The registry invariant: an entry is held by a call that owns it under that
/// key, and every owner holds the entry of its key.
pub open spec fn registry_inv(s: RegistryState) -> bool {
    &&& forall|k: RegKey| #[trigger]
        s.entries.contains_key(k) ==> s.calls.contains_key(s.entries[k]) && s.calls[s.entries[k]]
            == CallPhase::Owner(k)
    &&& forall|c: nat| #[trigger]
        s.calls.contains_key(c) && s.calls[c] is Owner ==> s.entries.contains_key(
            s.calls[c]->Owner_0,
        ) && s.entries[s.calls[c]->Owner_0] == c
}

/// The state before any call.
pub open spec fn registry_empty() -> RegistryState {
    RegistryState { entries: Map::empty(), calls: Map::empty() }
}

/// A new call `c` starts, pending.
pub open spec fn start_call(s: RegistryState, c: nat) -> RegistryState {
    RegistryState { entries: s.entries, calls: s.calls.insert(c, CallPhase::Pending) }
}

/// Pending call `c` tries to register under `k`: it becomes the owner if no
/// entry is there, and otherwise stays pending (it waits on the entry's slot).
/// The registry's side of this is `registered`, as in `WaiterSegment`.
pub open spec fn try_register(s: RegistryState, c: nat, k: RegKey) -> RegistryState {
    RegistryState {
        entries: registered(s.entries, k, c),
        calls: if s.entries.contains_key(k) {
            s.calls
        } else {
            s.calls.insert(c, CallPhase::Owner(k))
        },
    }
}

/// Owner `c` finishes, whatever its closure did: it removes its entry (as
/// `WaiterSegment::remove` does) and returns.
pub open spec fn owner_finish(s: RegistryState, c: nat) -> RegistryState {
    let k = s.calls[c]->Owner_0;
    RegistryState { entries: s.entries.remove(k), calls: s.calls.insert(c, CallPhase::Returned) }
}

/// Pending call `c` returns as a follower, with the outcome it read.
pub open spec fn follower_return(s: RegistryState, c: nat) -> RegistryState {
    RegistryState { entries: s.entries, calls: s.calls.insert(c, CallPhase::Returned) }
}

/// The invariant holds before any call.
pub proof fn lemma_registry_empty_inv()
    ensures
        registry_inv(registry_empty()),
{
}

/// Starting a fresh call keeps the invariant.
pub proof fn lemma_start_call_inv(s: RegistryState, c: nat)
    requires
        registry_inv(s),
        !s.calls.contains_key(c),
    ensures
        registry_inv(start_call(s, c)),
{
    let t = start_call(s, c);
    assert forall|k: RegKey| #[trigger] t.entries.contains_key(k) implies t.calls.contains_key(
        t.entries[k],
    ) && t.calls[t.entries[k]] == CallPhase::Owner(k) by {
        assert(s.calls.contains_key(s.entries[k]));
    }
}

/// Registration keeps the invariant.
pub proof fn lemma_try_register_inv(s: RegistryState, c: nat, k: RegKey)
    requires
        registry_inv(s),
        s.calls.contains_key(c),
        s.calls[c] is Pending,
    ensures
        registry_inv(try_register(s, c, k)),
{
    let t = try_register(s, c, k);
    if !s.entries.contains_key(k) {
        assert forall|j: RegKey| #[trigger] t.entries.contains_key(j) implies t.calls.contains_key(
            t.entries[j],
        ) && t.calls[t.entries[j]] == CallPhase::Owner(j) by {
            if j != k {
                assert(s.calls[s.entries[j]] == CallPhase::Owner(j));
            }
        }
        assert forall|d: nat| #[trigger]
            t.calls.contains_key(d) && t.calls[d] is Owner implies t.entries.contains_key(
            t.calls[d]->Owner_0,
        ) && t.entries[t.calls[d]->Owner_0] == d by {
            if d != c {
                assert(s.calls[d] is Owner);
                assert(s.entries[s.calls[d]->Owner_0] == d);
            }
        }
    }
}

/// An owner's finish keeps the invariant.
pub proof fn lemma_owner_finish_inv(s: RegistryState, c: nat)
    requires
        registry_inv(s),
        s.calls.contains_key(c),
        s.calls[c] is Owner,
    ensures
        registry_inv(owner_finish(s, c)),
{
    let k = s.calls[c]->Owner_0;
    let t = owner_finish(s, c);
    assert forall|j: RegKey| #[trigger] t.entries.contains_key(j) implies t.calls.contains_key(
        t.entries[j],
    ) && t.calls[t.entries[j]] == CallPhase::Owner(j) by {
        assert(s.calls[s.entries[j]] == CallPhase::Owner(j));
    }
    assert forall|d: nat| #[trigger]
        t.calls.contains_key(d) && t.calls[d] is Owner implies t.entries.contains_key(
        t.calls[d]->Owner_0,
    ) && t.entries[t.calls[d]->Owner_0] == d by {
        assert(s.calls[d] is Owner);
        assert(s.entries[s.calls[d]->Owner_0] == d);
    }
}

/// A follower's return keeps the invariant.
pub proof fn lemma_follower_return_inv(s: RegistryState, c: nat)
    requires
        registry_inv(s),
        s.calls.contains_key(c),
        s.calls[c] is Pending,
    ensures
        registry_inv(follower_return(s, c)),
{
    let t = follower_return(s, c);
    assert forall|j: RegKey| #[trigger] t.entries.contains_key(j) implies t.calls.contains_key(
        t.entries[j],
    ) && t.calls[t.entries[j]] == CallPhase::Owner(j) by {
        assert(s.calls[s.entries[j]] == CallPhase::Owner(j));
    }
    assert forall|d: nat| #[trigger]
        t.calls.contains_key(d) && t.calls[d] is Owner implies t.entries.contains_key(
        t.calls[d]->Owner_0,
    ) && t.entries[t.calls[d]->Owner_0] == d by {
        assert(s.calls[d] is Owner);
    }
}

/// At most one computation is in flight per key and call shape: two owners of
/// the same registry key are the same call.
pub proof fn lemma_at_most_one_owner(s: RegistryState, c1: nat, c2: nat, k: RegKey)
    requires
        registry_inv(s),
        s.calls.contains_key(c1),
        s.calls.contains_key(c2),
        s.calls[c1] == CallPhase::Owner(k),
        s.calls[c2] == CallPhase::Owner(k),
    ensures
        c1 == c2,
{
    assert(s.entries[s.calls[c1]->Owner_0] == c1);
    assert(s.entries[s.calls[c2]->Owner_0] == c2);
}

/// A pending call that finds no entry under its key becomes its owner, and one
/// that finds an entry stays pending: so a later caller runs the closure again
/// once the previous owner has finished, whatever that owner's closure did.
pub proof fn lemma_register_after_finish(s: RegistryState, owner: nat, c: nat)
    requires
        registry_inv(s),
        s.calls.contains_key(owner),
        s.calls[owner] is Owner,
        s.calls.contains_key(c),
        s.calls[c] is Pending,
    ensures
        ({
            let k = s.calls[owner]->Owner_0;
            let t = try_register(owner_finish(s, owner), c, k);
            t.calls[c] == CallPhase::Owner(k) && t.entries[k] == c
        }),
{
}

/// Calls of different shapes never meet: registering under one tag neither
/// sees nor changes the entry of the same key under another tag.
pub proof fn lemma_call_shape_isolation(s: RegistryState, c: nat, key: int, tag: int, other: int)
    requires
        tag != other,
    ensures
        ({
            let k = RegKey { key, tag };
            let j = RegKey { key, tag: other };
            let t = try_register(s, c, k);
            &&& t.entries.contains_key(j) == s.entries.contains_key(j)
            &&& s.entries.contains_key(j) ==> t.entries[j] == s.entries[j]
            &&& (!s.entries.contains_key(k) ==> t.calls[c] == CallPhase::Owner(k))
        }),
{
}

/// An owner leaves no entry behind: once it has finished, no entry is held
/// under its key, and no entry anywhere names it.
pub proof fn lemma_no_leaked_entry(s: RegistryState, c: nat)
    requires
        registry_inv(s),
        s.calls.contains_key(c),
        s.calls[c] is Owner,
    ensures
        ({
            let t = owner_finish(s, c);
            &&& !t.entries.contains_key(s.calls[c]->Owner_0)
            &&& forall|k: RegKey| t.entries.contains_key(k) ==> t.entries[k] != c
        }),
{
    let t = owner_finish(s, c);
    assert forall|k: RegKey| t.entries.contains_key(k) implies t.entries[k] != c by {
        assert(s.calls[s.entries[k]] == CallPhase::Owner(k));
    }
}

/// A call that has returned holds no entry.
pub proof fn lemma_returned_holds_nothing(s: RegistryState, c: nat, k: RegKey)
    requires
        registry_inv(s),
        s.calls.contains_key(c),
        s.calls[c] is Returned,
        s.entries.contains_key(k),
    ensures
        s.entries[k] != c,
{
    assert(s.calls[s.entries[k]] == CallPhase::Owner(k));
}

} // verus!
