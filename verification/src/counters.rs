use vstd::prelude::*;

verus! {

/// The counters of one connection: the commands that were sent and still
/// await their reply, and the commands that were written to the socket's
/// buffer since it was last flushed.
#[derive(Clone, Copy, Debug, PartialEq, Eq, Structural)]
pub struct Counters {
    pub in_flight: usize,
    pub feed_count: usize,
}

/// The successor of a counter: counters wrap at the machine's word size.
pub open spec fn counter_succ(n: usize) -> usize {
    if n == usize::MAX {
        0
    } else {
        (n + 1) as usize
    }
}

/// The successor of a counter.
pub fn next_count(n: usize) -> (next: usize)
    ensures
        next == counter_succ(n),
{
    n.wrapping_add(1)
}

impl Counters {
    /// Counters of a connection on which nothing was written yet.
    pub fn new() -> (counters: Counters)
        ensures
            counters.in_flight == 0,
            counters.feed_count == 0,
    {
        Counters { in_flight: 0, feed_count: 0 }
    }

    /// Counts one more command that awaits its reply.
    pub fn incr_in_flight(&mut self)
        ensures
            final(self).in_flight == counter_succ(old(self).in_flight),
            final(self).feed_count == old(self).feed_count,
    {
        self.in_flight = next_count(self.in_flight);
    }

    /// Counts one more command that sits in the socket's buffer.
    pub fn incr_feed_count(&mut self)
        ensures
            final(self).feed_count == counter_succ(old(self).feed_count),
            final(self).in_flight == old(self).in_flight,
    {
        self.feed_count = next_count(self.feed_count);
    }

    /// Records that the socket's buffer was flushed.
    pub fn reset_feed_count(&mut self)
        ensures
            final(self).feed_count == 0,
            final(self).in_flight == old(self).in_flight,
    {
        self.feed_count = 0;
    }
}

} // verus!
