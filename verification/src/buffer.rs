//! Request buffering and the in-flight cap.
//!
//! A buffer accepts requests into a FIFO queue while its inner service is
//! not ready and a worker drains them in order; construction fails when
//! that worker cannot be spawned.  The in-flight limit admits at most a
//! fixed number of concurrently outstanding requests and refuses the rest,
//! and it is proved that the count can never pass the cap.

use vstd::prelude::*;

use crate::bind::BoundService;
use crate::bind::Executor;

verus! {

/// The buffer's worker could not be spawned; callers report which proxy
/// side was affected.
#[derive(Clone, Copy, Debug, PartialEq, Eq, Structural)]
pub struct SpawnError;

/// The in-flight cap was reached; the request is refused.
#[derive(Clone, Copy, Debug, PartialEq, Eq, Structural)]
pub struct Overloaded;

/// An unbounded FIFO of request ids in front of a bound service.
#[derive(Clone, Debug)]
pub struct Buffer {
    pub inner: BoundService,
    /// Queued request ids, oldest first.
    pub queue: Vec<u64>,
}

impl Buffer {
    /// Puts a buffer in front of a service.  This spawns the draining
    /// worker on the executor, the one step that can fail.
    pub fn new(inner: BoundService, executor: &Executor) -> (r: Result<Buffer, SpawnError>)
        ensures
            (r is Ok) == executor.can_spawn,
            r matches Ok(b) ==> b.inner == inner && b.queue@.len() == 0,
    {
        if executor.can_spawn {
            Ok(Buffer { inner, queue: Vec::new() })
        } else {
            Err(SpawnError)
        }
    }

    /// Accepts one request; the queue is unbounded.
    pub fn enqueue(&mut self, req_id: u64)
        ensures
            final(self).inner == old(self).inner,
            final(self).queue@ == old(self).queue@ + seq![req_id],
    {
        self.queue.push(req_id);
    }

    /// Hands the oldest queued request to the worker: requests leave in
    /// exactly the order they were accepted.
    pub fn dequeue(&mut self) -> (r: Option<u64>)
        ensures
            final(self).inner == old(self).inner,
            old(self).queue@.len() == 0 ==> r is None && final(self).queue == old(self).queue,
            old(self).queue@.len() > 0 ==> r == Some(old(self).queue@[0]) && final(self).queue@
                == old(self).queue@.skip(1),
    {
        if self.queue.len() == 0 {
            None
        } else {
            let id = self.queue.remove(0);
            proof {
                assert(self.queue@ =~= old(self).queue@.skip(1));
            }
            Some(id)
        }
    }
}

/// Admits at most `max` concurrently outstanding requests.
#[derive(Clone, Debug)]
pub struct InFlightLimit {
    pub inner: Buffer,
    pub in_flight: usize,
    pub max: usize,
}

impl InFlightLimit {
    /// The count never passes the cap.
    pub open spec fn wf(self) -> bool {
        self.in_flight <= self.max
    }

    pub fn new(inner: Buffer, max: usize) -> (r: InFlightLimit)
        ensures
            r.inner == inner,
            r.in_flight == 0,
            r.max == max,
            r.wf(),
    {
        InFlightLimit { inner, in_flight: 0, max }
    }

    /// Admits one more request, or refuses it: admission succeeds exactly
    /// when the cap has room.
    pub fn try_start(&mut self) -> (r: Result<(), Overloaded>)
        requires
            old(self).wf(),
        ensures
            final(self).wf(),
            final(self).inner == old(self).inner,
            final(self).max == old(self).max,
            (r is Ok) == (old(self).in_flight < old(self).max),
            r is Ok ==> final(self).in_flight == old(self).in_flight + 1,
            r is Err ==> final(self).in_flight == old(self).in_flight && r == Err::<(),
                Overloaded,
            >(Overloaded),
    {
        if self.in_flight < self.max {
            self.in_flight = self.in_flight + 1;
            Ok(())
        } else {
            Err(Overloaded)
        }
    }

    /// One outstanding request finished.
    pub fn complete(&mut self)
        requires
            old(self).wf(),
            old(self).in_flight > 0,
        ensures
            final(self).wf(),
            final(self).inner == old(self).inner,
            final(self).max == old(self).max,
            final(self).in_flight == old(self).in_flight - 1,
    {
        self.in_flight = self.in_flight - 1;
    }
}

/// At any instant, the number of outstanding requests on one bound
/// service is at most its cap: admission refuses what would pass it, and
/// completion only lowers the count.
pub proof fn lemma_in_flight_bounded(s: InFlightLimit)
    requires
        s.wf(),
    ensures
        s.in_flight <= s.max,
{
}

} // verus!
