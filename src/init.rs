//! The initializer protocol: "read the cached value, or compute and cache it",
//! with at most one computation in flight per key and call shape.
//!
//! The owner is the caller whose slot was registered; it runs the closure and
//! publishes the outcome in its slot. A follower found another caller's slot,
//! waited on its lock, and now decides from the state it observed.

use std::sync::Arc;
use vstd::prelude::*;

use crate::waiter::{WaiterValue, MAX_RETRIES};

verus! {

/// What an initializer call hands back. `C` is the error capsule.
pub enum InitResult<V, C> {
    /// This call ran the closure and cached its value.
    Initialized(V),
    /// The value came from the cache or from another caller's computation.
    ReadExisting(V),
    /// The closure's outcome was an error.
    InitErr(C),
}

/// A condition that the protocol treats as fatal.
#[derive(PartialEq, Eq, Structural, Clone, Copy, Debug)]
pub enum ProtocolFault {
    /// A follower observed a state that no finished owner leaves behind.
    UnexpectedState,
    /// Owners kept panicking; the field is the number of retries already made.
    TooManyRetries(usize),
}

/// What a follower of an initializer does after waiting on a slot.
pub enum FollowerStep<V, C> {
    /// Return this outcome to the caller.
    Return(InitResult<V, C>),
    /// Try to register again; the field is the new retry count.
    Retry(usize),
    /// Stop: the protocol cannot go on.
    Fatal(ProtocolFault),
}

/// What a follower that has made `retries` retries does on finding that the
/// owner's closure panicked: retry while the bound allows, else stop.
pub open spec fn step_on_panicked<V, C>(retries: usize) -> FollowerStep<V, C> {
    if retries < MAX_RETRIES {
        FollowerStep::Retry((retries + 1) as usize)
    } else {
        FollowerStep::Fatal(ProtocolFault::TooManyRetries(retries))
    }
}

/// What a follower that has made `retries` retries decides on observing `observed`,
/// up to the cloning of a value or a capsule.
pub open spec fn follower_step_matches<V: Clone, C: Clone>(
    observed: WaiterValue<V, C>,
    retries: usize,
    r: FollowerStep<V, C>,
) -> bool {
    match observed {
        WaiterValue::Ready(Ok(v)) => r matches FollowerStep::Return(InitResult::ReadExisting(x))
            && cloned(v, x),
        WaiterValue::Ready(Err(e)) => r matches FollowerStep::Return(InitResult::InitErr(x))
            && cloned(e, x),
        WaiterValue::InitClosurePanicked => r == step_on_panicked::<V, C>(retries),
        WaiterValue::Computing | WaiterValue::ReadyNone => r == FollowerStep::<V, C>::Fatal(
            ProtocolFault::UnexpectedState,
        ),
    }
}

/// Decides what a follower does after waiting on another caller's slot, having
/// already retried `retries` times.
pub fn follow_init<V: Clone, C: Clone>(observed: &WaiterValue<V, C>, retries: usize) -> (r:
    FollowerStep<V, C>)
    ensures
        follower_step_matches(*observed, retries, r),
{
    match observed {
        WaiterValue::Ready(Ok(v)) => FollowerStep::Return(InitResult::ReadExisting(v.clone())),
        WaiterValue::Ready(Err(e)) => FollowerStep::Return(InitResult::InitErr(e.clone())),
        WaiterValue::InitClosurePanicked => {
            if retries < MAX_RETRIES {
                FollowerStep::Retry(retries + 1)
            } else {
                FollowerStep::Fatal(ProtocolFault::TooManyRetries(retries))
            }
        },
        WaiterValue::Computing | WaiterValue::ReadyNone => FollowerStep::Fatal(
            ProtocolFault::UnexpectedState,
        ),
    }
}


/// How an owner finishes: the state it publishes in its slot, the value it
/// hands to the cache (if any), and what its own call returns. The owner then
/// removes its registry entry and releases its slot's lock.
pub struct InitCompletion<V, C> {
    pub publish: WaiterValue<V, C>,
    pub insert: Option<V>,
    pub result: InitResult<V, C>,
}

/// The owner's re-check of the cache, made before it runs the closure. A value
/// found there finishes the call; `None` means the closure must run.
pub fn complete_if_present<V: Clone, C>(existing: Option<V>) -> (r: Option<InitCompletion<V, C>>)
    ensures
        existing is None <==> r is None,
        existing matches Some(v) ==> (r matches Some(c) && c.insert is None && c.result
            == InitResult::<V, C>::ReadExisting(v) && (c.publish matches WaiterValue::Ready(Ok(x))
            && cloned(v, x))),
{
    match existing {
        Some(v) => Some(
            InitCompletion {
                publish: WaiterValue::Ready(Ok(v.clone())),
                insert: None,
                result: InitResult::ReadExisting(v),
            },
        ),
        None => None,
    }
}

/// Whether `c` is how an owner finishes on the converted closure output
/// `converted`, up to the cloning of a value or a capsule.
pub open spec fn completes_with<V: Clone, C: Clone>(
    converted: Result<V, C>,
    c: InitCompletion<V, C>,
) -> bool {
    match converted {
        Ok(v) => {
            &&& c.result == InitResult::<V, C>::Initialized(v)
            &&& (c.insert matches Some(x) && cloned(v, x))
            &&& (c.publish matches WaiterValue::Ready(Ok(y)) && cloned(v, y))
        },
        Err(e) => {
            &&& c.result == InitResult::<V, C>::InitErr(e)
            &&& c.insert is None
            &&& (c.publish matches WaiterValue::Ready(Err(y)) && cloned(e, y))
        },
    }
}

/// How the owner finishes once the closure has returned and its output has
/// been converted: a value is cached, published and returned; an error is
/// published and returned, and nothing is cached.
pub fn complete_with_outcome<V: Clone, C: Clone>(converted: Result<V, C>) -> (r: InitCompletion<
    V,
    C,
>)
    ensures
        completes_with(converted, r),
{
    match converted {
        Ok(v) => InitCompletion {
            publish: WaiterValue::Ready(Ok(v.clone())),
            insert: Some(v.clone()),
            result: InitResult::Initialized(v),
        },
        Err(e) => InitCompletion {
            publish: WaiterValue::Ready(Err(e.clone())),
            insert: None,
            result: InitResult::InitErr(e),
        },
    }
}

/// The state an owner publishes when its closure unwound: followers then retry
/// instead of waiting for an outcome that will never come.
pub fn complete_after_panic<V, C>() -> (r: WaiterValue<V, C>)
    ensures
        r is InitClosurePanicked,
{
    WaiterValue::InitClosurePanicked
}

/// The error of an optional initializer whose closure returned `None`.
#[derive(PartialEq, Eq, Structural, Clone, Copy, Debug)]
pub struct OptionallyNone;

/// Conversion for a plain initializer: every output is a value.
pub fn post_init_for_get_with<V>(value: V) -> (r: Result<V, ()>)
    ensures
        r == Ok::<V, ()>(value),
{
    Ok(value)
}

/// Conversion for an optional initializer: `None` becomes the `OptionallyNone` error.
pub fn post_init_for_optionally_get_with<V>(value: Option<V>) -> (r: Result<V, Arc<OptionallyNone>>)
    ensures
        value matches Some(v) ==> r == Ok::<V, Arc<OptionallyNone>>(v),
        value is None ==> (r matches Err(e) && *e == OptionallyNone),
{
    match value {
        Some(v) => Ok(v),
        None => Err(Arc::new(OptionallyNone)),
    }
}

/// Conversion for a fallible initializer: the closure's result as it is.
pub fn post_init_for_try_get_with<V, E>(result: Result<V, E>) -> (r: Result<V, E>)
    ensures
        r == result,
{
    result
}


/// The retry count of a follower after `n` findings in a row of a panicked
/// owner, starting with none; `None` once one of them was fatal.
pub open spec fn retries_after_panics<V, C>(n: nat) -> Option<usize>
    decreases n,
{
    if n == 0 {
        Some(0)
    } else {
        match retries_after_panics::<V, C>((n - 1) as nat) {
            Some(k) => match step_on_panicked::<V, C>(k) {
                FollowerStep::Retry(next) => Some(next),
                _ => None,
            },
            None => None,
        }
    }
}

/// A follower that keeps finding a panicked owner retries once for each of its
/// first `MAX_RETRIES` findings, and the finding after those is fatal: it never
/// loops for ever.
pub proof fn lemma_retry_bound<V, C>(n: nat)
    ensures
        n <= MAX_RETRIES ==> retries_after_panics::<V, C>(n) == Some(n as usize),
        n > MAX_RETRIES ==> retries_after_panics::<V, C>(n) is None,
        step_on_panicked::<V, C>(MAX_RETRIES) == FollowerStep::<V, C>::Fatal(
            ProtocolFault::TooManyRetries(MAX_RETRIES),
        ),
    decreases n,
{
    if n > 0 {
        lemma_retry_bound::<V, C>((n - 1) as nat);
    }
}

/// Every follower of an owner whose closure produced the value `v` returns that
/// value as read: a copy of the copy the owner published.
pub proof fn lemma_value_fan_out<V: Clone, C: Clone>(
    v: V,
    c: InitCompletion<V, C>,
    retries: usize,
    f: FollowerStep<V, C>,
)
    requires
        completes_with(Ok::<V, C>(v), c),
        follower_step_matches(c.publish, retries, f),
    ensures
        c.result == InitResult::<V, C>::Initialized(v),
        f matches FollowerStep::Return(InitResult::ReadExisting(x)) && exists|y: V|
            cloned(v, y) && cloned(y, x),
{
    let y = c.publish->Ready_0->Ok_0;
    assert(cloned(v, y));
}

/// Every follower of an owner whose closure produced the error `e` returns an
/// initialization error: a copy of the capsule the owner published.
pub proof fn lemma_error_fan_out<V: Clone, C: Clone>(
    e: C,
    c: InitCompletion<V, C>,
    retries: usize,
    f: FollowerStep<V, C>,
)
    requires
        completes_with(Err::<V, C>(e), c),
        follower_step_matches(c.publish, retries, f),
    ensures
        c.result == InitResult::<V, C>::InitErr(e),
        c.insert is None,
        f matches FollowerStep::Return(InitResult::InitErr(x)) && exists|y: C|
            cloned(e, y) && cloned(y, x),
{
    let y = c.publish->Ready_0->Err_0;
    assert(cloned(e, y));
}

/// After an owner's closure panics, a follower waiting on its slot is released
/// and, within the retry bound, tries again rather than returning an outcome.
pub proof fn lemma_panic_unblocks<V: Clone, C: Clone>(
    published: WaiterValue<V, C>,
    retries: usize,
    f: FollowerStep<V, C>,
)
    requires
        published is InitClosurePanicked,
        retries < MAX_RETRIES,
        follower_step_matches(published, retries, f),
    ensures
        f == FollowerStep::<V, C>::Retry((retries + 1) as usize),
{
}


/// A follower never reports that it initialized the value: only the owner,
/// which ran the closure, does.
pub proof fn lemma_followers_never_initialize<V: Clone, C: Clone>(
    observed: WaiterValue<V, C>,
    retries: usize,
    f: FollowerStep<V, C>,
)
    requires
        follower_step_matches(observed, retries, f),
    ensures
        !(f matches FollowerStep::Return(InitResult::Initialized(_))),
{
}

} // verus!
