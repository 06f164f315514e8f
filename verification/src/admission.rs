//! Admission control: a bounded count of the connections being served.

use vstd::prelude::*;

verus! {

/// The connections being served, counted against a fixed limit. A connection is
/// admitted only while the count is below the limit; there is no queue.
#[derive(Debug)]
pub struct ConnectionSlots {
    active: i32,
    limit: i32,
}

impl ConnectionSlots {
    /// The number of connections that hold a slot.
    pub closed spec fn active_count(&self) -> int {
        self.active as int
    }

    /// The limit that the slots were made with.
    pub closed spec fn capacity(&self) -> int {
        self.limit as int
    }

    /// The count is never negative and never above the limit. A limit below
    /// zero admits nothing, so the count then stays at zero.
    pub open spec fn wf(&self) -> bool {
        0 <= self.active_count() && (self.active_count() <= self.capacity()
            || self.active_count() == 0)
    }

    #[verifier::type_invariant]
    closed spec fn within_limit(&self) -> bool {
        self.wf()
    }

    /// Whether a new connection would be turned away.
    pub open spec fn full(&self) -> bool {
        self.active_count() >= self.capacity()
    }

    /// Slots for at most `limit` connections, none of them taken.
    pub fn new(limit: i32) -> (slots: Self)
        ensures
            slots.wf(),
            slots.active_count() == 0,
            slots.capacity() == limit,
    {
        ConnectionSlots { active: 0, limit }
    }

    /// The number of connections that hold a slot.
    pub fn active(&self) -> (n: i32)
        ensures
            n == self.active_count(),
            self.wf(),
    {
        proof {
            use_type_invariant(self);
        }
        self.active
    }

    /// The limit that the slots were made with.
    pub fn limit(&self) -> (n: i32)
        ensures
            n == self.capacity(),
    {
        self.limit
    }

    /// Whether a new connection would be turned away.
    pub fn is_full(&self) -> (b: bool)
        ensures
            b == self.full(),
    {
        self.active >= self.limit
    }

    /// Takes a slot for a new connection if one is free, and says whether it
    /// did. A refusal leaves the count as it was.
    pub fn try_acquire(&mut self) -> (admitted: bool)
        ensures
            old(self).wf(),
            final(self).wf(),
            final(self).capacity() == old(self).capacity(),
            admitted == !old(self).full(),
            admitted ==> final(self).active_count() == old(self).active_count() + 1,
            !admitted ==> final(self).active_count() == old(self).active_count(),
    {
        proof {
            use_type_invariant(&*self);
        }
        if self.active >= self.limit {
            false
        } else {
            self.active = self.active + 1;
            true
        }
    }

    /// Gives back the slot of a connection that has ended. With no slot taken
    /// there is nothing to give back and the count stays at zero.
    pub fn release(&mut self)
        ensures
            old(self).wf(),
            final(self).wf(),
            final(self).capacity() == old(self).capacity(),
            old(self).active_count() > 0 ==> final(self).active_count() == old(
                self,
            ).active_count() - 1,
            old(self).active_count() == 0 ==> final(self).active_count() == 0,
    {
        proof {
            use_type_invariant(&*self);
        }
        if self.active > 0 {
            self.active = self.active - 1;
        }
    }
}

/// With a limit that is not negative, the count always lies between zero and
/// the limit.
pub proof fn count_stays_within_limit(slots: ConnectionSlots)
    requires
        slots.wf(),
        slots.capacity() >= 0,
    ensures
        0 <= slots.active_count() <= slots.capacity(),
{
}

} // verus!
