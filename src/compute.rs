//! The compute protocol: a read-modify-write of one cache entry, decided by a
//! caller's closure from the entry's current value, with at most one decision
//! in flight per key.
//!
//! Here the registry serves only as a per-key exclusion: a follower waits for
//! the owner to finish and then tries to register again, since the entry may
//! have changed meanwhile.

use std::sync::Arc;
use vstd::prelude::*;

use crate::init::ProtocolFault;
use crate::waiter::WaiterValue;

verus! {

/// The narrow access to the cache's storage that the compute protocol needs.
/// Every change it makes to the cache goes through these three methods.
pub trait GetOrInsert<K, V> {
    /// The current value for the key, recording the access in the cache's
    /// policies.
    fn get_entry(&self, key: &Arc<K>, hash: u64) -> Option<V>;

    /// Inserts a value for the key.
    fn insert(&self, key: Arc<K>, hash: u64, value: V);

    /// Removes the value for the key, and returns it if there was one.
    fn remove(&self, key: &Arc<K>, hash: u64) -> Option<V>;
}

/// What a compute closure decides.
pub enum Op<V> {
    /// Leave the entry as it is.
    Nop,
    /// Insert or replace the entry's value.
    Put(V),
    /// Remove the entry.
    Remove,
}

/// What a compute call hands back.
pub enum ComputeResult<V, E> {
    Inserted(V),
    Updated(V),
    Removed(V),
    Nop(Option<V>),
    EvalErr(E),
}

/// What the owner knew of the entry before its closure ran.
pub struct ComputeSnapshot<V> {
    /// Whether the entry existed.
    pub entry_existed: bool,
    /// The value that a `Nop` outcome carries: the current value where the
    /// caller asked for it, else `None`.
    pub nop_value: Option<V>,
}

/// What a follower of a compute call does after waiting on a slot.
#[derive(PartialEq, Eq, Structural, Clone, Copy, Debug)]
pub enum ComputeFollowerStep {
    /// The owner has finished: try to register again.
    Retry,
    /// Stop: the protocol cannot go on.
    Fatal(ProtocolFault),
}

/// Decides what a follower of a compute call does after waiting on another
/// caller's slot: any finished state means "try again".
pub fn follow_compute<V, C>(observed: &WaiterValue<V, C>) -> (r: ComputeFollowerStep)
    ensures
        observed is Computing ==> r == ComputeFollowerStep::Fatal(ProtocolFault::UnexpectedState),
        !(observed is Computing) ==> r == ComputeFollowerStep::Retry,
{
    match observed {
        WaiterValue::Computing => ComputeFollowerStep::Fatal(ProtocolFault::UnexpectedState),
        _ => ComputeFollowerStep::Retry,
    }
}

/// Whether `snap` is the snapshot of the current value `current`: it records
/// whether the entry existed, and a copy of its value where `allow_nop` asks.
pub open spec fn snapshot_of<V: Clone>(
    current: Option<V>,
    allow_nop: bool,
    snap: ComputeSnapshot<V>,
) -> bool {
    &&& snap.entry_existed == current.is_some()
    &&& match current {
        Some(v) => if allow_nop {
            snap.nop_value matches Some(x) && cloned(v, x)
        } else {
            snap.nop_value is None
        },
        None => snap.nop_value is None,
    }
}

/// The snapshot taken of the current value `current`, keeping a copy of the
/// value only where `allow_nop` asks for it.
pub fn take_snapshot<V: Clone>(current: &Option<V>, allow_nop: bool) -> (r: ComputeSnapshot<V>)
    ensures
        snapshot_of(*current, allow_nop, r),
{
    let nop_value = if allow_nop {
        match current {
            Some(v) => Some(v.clone()),
            None => None,
        }
    } else {
        None
    };
    ComputeSnapshot { entry_existed: current.is_some(), nop_value }
}

/// The outcome of a compute call, from the snapshot, the converted output of
/// the closure, and what the cache's `remove` returned (read only for `Remove`).
pub open spec fn compute_outcome<V, E>(
    snap: ComputeSnapshot<V>,
    converted: Result<Op<V>, E>,
    removed: Option<V>,
) -> ComputeResult<V, E> {
    match converted {
        Ok(Op::Nop) => ComputeResult::Nop(snap.nop_value),
        Ok(Op::Put(v)) => if snap.entry_existed {
            ComputeResult::Updated(v)
        } else {
            ComputeResult::Inserted(v)
        },
        Ok(Op::Remove) => match removed {
            Some(p) => ComputeResult::Removed(p),
            None => ComputeResult::Nop(None),
        },
        Err(e) => ComputeResult::EvalErr(e),
    }
}

/// Classifies a compute call from the snapshot, the converted output of the
/// closure, and what the cache's `remove` returned.
pub fn classify<V, E>(
    snap: ComputeSnapshot<V>,
    converted: Result<Op<V>, E>,
    removed: Option<V>,
) -> (r: ComputeResult<V, E>)
    ensures
        r == compute_outcome(snap, converted, removed),
{
    match converted {
        Ok(Op::Nop) => ComputeResult::Nop(snap.nop_value),
        Ok(Op::Put(v)) => {
            if snap.entry_existed {
                ComputeResult::Updated(v)
            } else {
                ComputeResult::Inserted(v)
            }
        },
        Ok(Op::Remove) => match removed {
            Some(p) => ComputeResult::Removed(p),
            None => ComputeResult::Nop(None),
        },
        Err(e) => ComputeResult::EvalErr(e),
    }
}


/// The write to the cache that a compute call makes once its closure decided.
pub enum CacheWrite<V> {
    /// Insert this value for the key.
    Insert(V),
    /// Remove the key's value.
    Remove,
    /// Leave the cache alone.
    Keep,
}

/// The write that the converted closure output `converted` asks for: a `Put`
/// inserts a copy of its value, a `Remove` removes, and a `Nop` or an error
/// writes nothing.
pub fn write_for<V: Clone, E>(converted: &Result<Op<V>, E>) -> (r: CacheWrite<V>)
    ensures
        *converted matches Ok(Op::Put(v)) ==> (r matches CacheWrite::Insert(x) && cloned(v, x)),
        *converted matches Ok(Op::Remove) ==> r is Remove,
        !(*converted matches Ok(Op::Put(_))) && !(*converted matches Ok(Op::Remove)) ==> r is Keep,
{
    match converted {
        Ok(Op::Put(v)) => CacheWrite::Insert(v.clone()),
        Ok(Op::Remove) => CacheWrite::Remove,
        _ => CacheWrite::Keep,
    }
}

/// The owner's first step: reads the entry through the cache, under the call's
/// key and hash, and takes the snapshot. Returns the entry for the closure and
/// the snapshot.
pub fn begin_compute<K, V: Clone, C: GetOrInsert<K, V>>(
    cache: &C,
    key: &Arc<K>,
    hash: u64,
    allow_nop: bool,
) -> (r: (Option<V>, ComputeSnapshot<V>))
    ensures
        call_ensures(C::get_entry, (cache, key, hash), r.0),
        snapshot_of(r.0, allow_nop, r.1),
{
    let current = cache.get_entry(key, hash);
    let snap = take_snapshot(&current, allow_nop);
    (current, snap)
}

/// The owner's last step: makes the write that `write_for` gives through the
/// cache, under the call's key and hash, and classifies the call. A `Put`
/// inserts a copy of its value; a `Remove` removes the entry, and the outcome
/// then depends on what the cache removed; `Nop` and an error make no call.
pub fn apply_op<K, V: Clone, E, C: GetOrInsert<K, V>>(
    cache: &C,
    key: &Arc<K>,
    hash: u64,
    snap: ComputeSnapshot<V>,
    converted: Result<Op<V>, E>,
) -> (r: ComputeResult<V, E>)
    ensures
        converted matches Ok(Op::Put(v)) ==> r == compute_outcome(snap, converted, None) && exists|
            k: Arc<K>,
            x: V,
        | cloned(*key, k) && cloned(v, x) && call_ensures(C::insert, (cache, k, hash, x), ()),
        converted matches Ok(Op::Remove) ==> exists|p: Option<V>|
            call_ensures(C::remove, (cache, key, hash), p) && r == compute_outcome(
                snap,
                converted,
                p,
            ),
        !(converted matches Ok(Op::Put(_))) && !(converted matches Ok(Op::Remove)) ==> r
            == compute_outcome(snap, converted, None),
{
    let write = write_for(&converted);
    match write {
        CacheWrite::Insert(x) => {
            cache.insert(key.clone(), hash, x);
            classify(snap, converted, None)
        },
        CacheWrite::Remove => {
            let removed = cache.remove(key, hash);
            classify(snap, converted, removed)
        },
        CacheWrite::Keep => classify(snap, converted, None),
    }
}

/// Conversion for an upsert: the closure's value is always put.
pub fn post_init_for_upsert_with<V>(value: V) -> (r: Result<Op<V>, ()>)
    ensures
        r == Ok::<Op<V>, ()>(Op::Put(value)),
{
    Ok(Op::Put(value))
}

/// Conversion for an infallible compute: the closure's decision as it is.
pub fn post_init_for_compute_with<V>(op: Op<V>) -> (r: Result<Op<V>, ()>)
    ensures
        r == Ok::<Op<V>, ()>(op),
{
    Ok(op)
}

/// Conversion for a fallible compute: the closure's result as it is.
pub fn post_init_for_try_compute_with<V, E>(op: Result<Op<V>, E>) -> (r: Result<Op<V>, E>)
    ensures
        r == op,
{
    op
}


/// How a compute call is classified against the entry it found: a `Put` on an
/// empty entry inserts and on an existing one updates; a `Remove` of an existing
/// value reports that value and of an absent one is a no-op; a `Nop` where the
/// caller asked for the current value carries a copy of it.
pub proof fn lemma_compute_classification<V: Clone, E>(
    current: Option<V>,
    allow_nop: bool,
    snap: ComputeSnapshot<V>,
    v: V,
    removed: Option<V>,
)
    requires
        snapshot_of(current, allow_nop, snap),
    ensures
        current is None ==> compute_outcome(snap, Ok::<Op<V>, E>(Op::Put(v)), removed)
            == ComputeResult::<V, E>::Inserted(v),
        current is Some ==> compute_outcome(snap, Ok::<Op<V>, E>(Op::Put(v)), removed)
            == ComputeResult::<V, E>::Updated(v),
        removed matches Some(p) ==> compute_outcome(snap, Ok::<Op<V>, E>(Op::Remove), removed)
            == ComputeResult::<V, E>::Removed(p),
        removed is None ==> compute_outcome(snap, Ok::<Op<V>, E>(Op::Remove), removed)
            == ComputeResult::<V, E>::Nop(None),
        allow_nop && current is Some ==> (compute_outcome(
            snap,
            Ok::<Op<V>, E>(Op::Nop),
            removed,
        ) matches ComputeResult::Nop(Some(x)) && cloned(current->Some_0, x)),
        !allow_nop ==> compute_outcome(snap, Ok::<Op<V>, E>(Op::Nop), removed)
            == ComputeResult::<V, E>::Nop(None),
{
}

} // verus!
