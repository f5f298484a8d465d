//! The waiter slot shared by the owner of a computation and its followers, and
//! what a follower decides after it has waited on a slot.

use vstd::prelude::*;

verus! {

/// Largest number of retries a follower makes after finding that the owner's
/// closure panicked; one more such finding is a fatal condition.
pub const MAX_RETRIES: usize = 200;

/// The state of one pending computation. `C` is the shareable error capsule.
pub enum WaiterValue<V, C> {
    /// Set at creation; a follower never observes it while the locking
    /// discipline holds.
    Computing,
    /// The initializer finished with a value or an error.
    Ready(Result<V, C>),
    /// A compute call finished; its outcome is not handed through the slot.
    ReadyNone,
    /// The owner's closure unwound.
    InitClosurePanicked,
}

impl<V, C> WaiterValue<V, C> {
    /// A short name of the state, for diagnostics.
    pub fn state_name(&self) -> (r: &'static str)
        ensures
            self is Computing ==> r@ == "Computing"@,
            self is Ready ==> r@ == "Ready"@,
            self is ReadyNone ==> r@ == "ReadyNone"@,
            self is InitClosurePanicked ==> r@ == "InitFuturePanicked"@,
    {
        proof {
            reveal_strlit("Computing");
            reveal_strlit("Ready");
            reveal_strlit("ReadyNone");
            reveal_strlit("InitFuturePanicked");
        }
        match self {
            WaiterValue::Computing => "Computing",
            WaiterValue::Ready(_) => "Ready",
            WaiterValue::ReadyNone => "ReadyNone",
            WaiterValue::InitClosurePanicked => "InitFuturePanicked",
        }
    }
}

} // verus!
