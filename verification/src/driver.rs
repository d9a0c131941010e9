//! The animation driver's scheduling discipline.
//!
//! One recurring tick is requested against the host's per-frame callback
//! facility. The driver owns the single cancellation handle the host
//! returns; each tick consumes the fired request and immediately records
//! the handle of the next one, so from the moment the loop starts there is
//! exactly one outstanding request at every inspection point — no
//! duplication, no gap. Whether the frame itself rendered is no input to
//! the discipline: a failed upload is contained to its frame, and the next
//! tick is recorded all the same. Cancelling the pending request is the
//! sole shutdown path.

use vstd::prelude::*;

verus! {

/// Owner of the single outstanding frame-callback request.
#[derive(Clone, Copy, PartialEq, Eq, Structural, Debug)]
pub struct AnimationDriver {
    pub pending: Option<u64>,
}

/// A tick's effect: the fired request is gone, the freshly issued one is
/// the only thing outstanding.
pub open spec fn driver_ticked(d: AnimationDriver, next: u64) -> AnimationDriver {
    AnimationDriver { pending: Some(next) }
}

/// The driver after a run of ticks with the given freshly issued handles.
pub open spec fn driver_after_ticks(d: AnimationDriver, next_handles: Seq<u64>) -> AnimationDriver
    decreases next_handles.len(),
{
    if next_handles.len() == 0 {
        d
    } else {
        driver_ticked(driver_after_ticks(d, next_handles.drop_last()), next_handles.last())
    }
}

impl AnimationDriver {
    /// How many scheduling requests are outstanding.
    pub open spec fn outstanding(&self) -> nat {
        if self.pending is Some {
            1
        } else {
            0
        }
    }

    /// A driver with nothing scheduled yet.
    pub fn new() -> (d: AnimationDriver)
        ensures
            d.pending is None,
            d.outstanding() == 0,
    {
        AnimationDriver { pending: None }
    }

    /// Records the first request's handle and starts the loop.
    pub fn start(&mut self, handle: u64)
        requires
            old(self).pending is None,
        ensures
            final(self).pending == Some(handle),
            final(self).outstanding() == 1,
    {
        self.pending = Some(handle);
    }

    /// One tick: the pending request `fired`, and `next` was issued in its
    /// place before the tick returned.
    pub fn tick(&mut self, fired: u64, next: u64)
        requires
            old(self).pending == Some(fired),
        ensures
            *final(self) == driver_ticked(*old(self), next),
            final(self).outstanding() == 1,
    {
        self.pending = Some(next);
    }

    /// Cancels the pending request, handing its handle back to the host;
    /// this is the only shutdown path.
    pub fn cancel(&mut self) -> (h: Option<u64>)
        ensures
            final(self).pending is None,
            final(self).outstanding() == 0,
            h == old(self).pending,
    {
        let h = self.pending;
        self.pending = None;
        h
    }
}

/// After any number of ticks from a started driver, exactly one scheduling
/// request is outstanding at every inspection point along the run.
pub proof fn lemma_one_outstanding_after_ticks(d: AnimationDriver, next_handles: Seq<u64>)
    requires
        d.outstanding() == 1,
    ensures
        forall|k: int|
            0 <= k <= next_handles.len() ==> driver_after_ticks(
                d,
                #[trigger] next_handles.take(k),
            ).outstanding() == 1,
{
    assert forall|k: int|
        0 <= k <= next_handles.len() implies driver_after_ticks(
        d,
        #[trigger] next_handles.take(k),
    ).outstanding() == 1 by {
        if k == 0 {
            assert(next_handles.take(0) =~= Seq::<u64>::empty());
        } else {
            assert(next_handles.take(k).len() == k);
        }
    }
}

} // verus!
