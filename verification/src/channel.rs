//! Models of the two bounded channels of the controller.
//!
//! [`BlockChannel`] is the outbound single-producer single-consumer channel
//! through which the pump delivers result blocks to the outer layer; its
//! bound is what turns a slow consumer into backpressure on the pump.
//! [`AbortChannel`] is the small signal channel behind the cancellation
//! handle: sends never block, and a redundant signal on a full channel is
//! dropped, which is acceptable because the pump only needs to observe one.
//!
//! These are the values the verified decision logic works on; the runtime
//! around the library realises them with its own asynchronous channels and
//! keeps them in step, one operation here per operation there.

use vstd::prelude::*;

verus! {

/// A finite batch of tabular result rows produced by interpreter execution,
/// reduced to the row values the controller moves around.
#[derive(Debug)]
pub struct DataBlock {
    pub values: Vec<i64>,
}

/// The bounded outbound channel: the blocks accepted and not yet consumed,
/// oldest first, never more than `capacity` of them.
pub struct BlockChannel {
    pub capacity: usize,
    pub queue: Vec<DataBlock>,
}

impl BlockChannel {
    /// The channel's invariant: it never holds more than its bound.
    pub open spec fn wf(&self) -> bool {
        self.queue@.len() <= self.capacity
    }

    /// A full channel accepts no further block until one is consumed.
    pub open spec fn is_full(&self) -> bool {
        self.queue@.len() >= self.capacity
    }

    /// A fresh empty channel with the given bound.
    pub fn bounded(capacity: usize) -> (r: BlockChannel)
        requires
            capacity >= 1,
        ensures
            r.capacity == capacity,
            r.queue@.len() == 0,
            r.wf(),
    {
        BlockChannel { capacity, queue: Vec::new() }
    }

    /// How many delivered blocks wait to be consumed.
    pub fn len(&self) -> (r: usize)
        ensures
            r == self.queue@.len(),
    {
        self.queue.len()
    }

    /// The consumer side: takes the oldest waiting block, if any. Consuming
    /// is what frees the channel for the next delivery.
    pub fn recv(&mut self) -> (r: Option<DataBlock>)
        ensures
            final(self).capacity == old(self).capacity,
            old(self).queue@.len() == 0 ==> r is None && *final(self) == *old(self),
            old(self).queue@.len() > 0 ==> {
                &&& r matches Some(b) && b == old(self).queue@[0]
                &&& final(self).queue@ == old(self).queue@.drop_first()
            },
            old(self).wf() ==> final(self).wf(),
    {
        if self.queue.len() == 0 {
            None
        } else {
            let b = self.queue.remove(0);
            assert(self.queue@ =~= old(self).queue@.drop_first());
            Some(b)
        }
    }
}

/// The bounded cancellation-signal channel attached to a query: `queued`
/// signals wait to be observed, never more than `capacity`.
#[derive(Clone, Copy, PartialEq, Eq, Structural, Debug)]
pub struct AbortChannel {
    pub capacity: usize,
    pub queued: usize,
}

impl AbortChannel {
    /// The channel's invariant: it never holds more than its bound.
    pub open spec fn wf(&self) -> bool {
        self.queued <= self.capacity
    }

    /// A fresh empty signal channel with the given bound.
    pub fn bounded(capacity: usize) -> (r: AbortChannel)
        requires
            capacity >= 1,
        ensures
            r.capacity == capacity,
            r.queued == 0,
            r.wf(),
    {
        AbortChannel { capacity, queued: 0 }
    }

    /// Requests cancellation: enqueues one signal without ever blocking the
    /// caller. On a full channel the redundant signal is dropped, so after
    /// any signal at least one remains queued until it is observed.
    pub fn signal(&mut self) -> (r: bool)
        requires
            old(self).wf(),
        ensures
            final(self).capacity == old(self).capacity,
            final(self).wf(),
            r == (old(self).queued < old(self).capacity),
            r ==> final(self).queued == old(self).queued + 1,
            !r ==> final(self).queued == old(self).queued,
            old(self).capacity >= 1 ==> final(self).queued >= 1,
    {
        if self.queued < self.capacity {
            self.queued = self.queued + 1;
            true
        } else {
            false
        }
    }

    /// The pump side of the race: observes one queued signal, if any, and
    /// consumes it.
    pub fn observe(&mut self) -> (r: bool)
        ensures
            final(self).capacity == old(self).capacity,
            r == (old(self).queued > 0),
            r ==> final(self).queued == old(self).queued - 1,
            !r ==> *final(self) == *old(self),
            old(self).wf() ==> final(self).wf(),
    {
        if self.queued > 0 {
            self.queued = self.queued - 1;
            true
        } else {
            false
        }
    }
}

} // verus!
