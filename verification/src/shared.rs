//! The slot that holds the most recent successful reading.
//!
//! The slot itself is sequential. A caller that shares it between the polling
//! loop and request handlers puts it behind a lock and holds the lock for one
//! `set` or one `get` at a time, so that every access is a single atomic step.
//! The laws at the end of this file are stated over sequences of such steps.

use vstd::prelude::*;
use crate::reading::Reading;

verus! {

/// A single storage slot: empty until the first `set`, afterwards the reading
/// most recently stored.
pub struct SharedReading {
    slot: Option<Reading>,
}

/// One atomic access to the slot.
pub enum Access {
    /// A reader copies the current value out.
    Load,
    /// The writer stores a reading.
    Store(Reading),
}

/// The slot's content after one access.
pub open spec fn slot_after(slot: Option<Reading>, access: Access) -> Option<Reading> {
    match access {
        Access::Load => slot,
        Access::Store(r) => Some(r),
    }
}

/// The slot's content after the first `n` accesses of `trace`, in order.
pub open spec fn slot_after_prefix(slot: Option<Reading>, trace: Seq<Access>, n: nat) -> Option<
    Reading,
>
    decreases n,
{
    if n == 0 || n > trace.len() {
        slot
    } else {
        slot_after(slot_after_prefix(slot, trace, (n - 1) as nat), trace[n - 1])
    }
}

impl SharedReading {
    /// The content of the slot: `None` until a reading was stored.
    pub closed spec fn view(&self) -> Option<Reading> {
        self.slot
    }

    /// An empty slot.
    pub fn new() -> (cell: SharedReading)
        ensures
            cell@ == None::<Reading>,
    {
        SharedReading { slot: None }
    }

    /// Replaces the stored value whole.
    pub fn set(&mut self, reading: Reading)
        ensures
            final(self)@ == Some(reading),
            final(self)@ == slot_after(old(self)@, Access::Store(reading)),
    {
        self.slot = Some(reading);
    }

    /// A copy of the stored value, `None` before the first `set`.
    pub fn get(&self) -> (current: Option<Reading>)
        ensures
            current == self@,
            current == slot_after(self@, Access::Load),
    {
        self.slot
    }
}

/// A reader never sees half of a write. Take any interleaving of one `Store(r)`, at position `k`, with
/// any number of `Load`s. The `Load` at position `i` sees the slot as the
/// accesses before it left it: the prior value if it comes before the `Store`,
/// exactly `r` if it comes after, and never anything else.
pub proof fn lemma_no_torn_reads(
    prior: Option<Reading>,
    r: Reading,
    trace: Seq<Access>,
    k: nat,
    i: nat,
)
    requires
        k < trace.len(),
        trace[k as int] == Access::Store(r),
        forall|j: int| 0 <= j < trace.len() && j != k ==> trace[j] == Access::Load,
        i < trace.len(),
        i != k,
    ensures
        i < k ==> slot_after_prefix(prior, trace, i) == prior,
        i > k ==> slot_after_prefix(prior, trace, i) == Some(r),
        slot_after_prefix(prior, trace, i) == prior || slot_after_prefix(prior, trace, i) == Some(
            r,
        ),
    decreases i,
{
    if i > 0 {
        if i - 1 == k {
            assert(slot_after_prefix(prior, trace, i) == slot_after(
                slot_after_prefix(prior, trace, (i - 1) as nat),
                trace[i - 1],
            ));
        } else {
            lemma_no_torn_reads(prior, r, trace, k, (i - 1) as nat);
        }
    }
}

} // verus!
