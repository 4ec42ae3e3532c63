//! The bounded count of notifications that are being worked on.

use vstd::prelude::*;

verus! {

/// Counts the notifications that were admitted to the fetch, decode and deliver
/// pipeline and have not been settled yet, and never lets that count pass its limit.
pub struct InFlight {
    limit: usize,
    count: usize,
}

impl InFlight {
    #[verifier::type_invariant]
    spec fn within_limit(self) -> bool {
        self.count <= self.limit
    }

    /// The largest number of notifications that may be in flight at once.
    pub closed spec fn capacity(self) -> nat {
        self.limit as nat
    }

    /// The number of notifications in flight.
    pub closed spec fn held(self) -> nat {
        self.count as nat
    }

    /// An empty counter with the given limit.
    pub fn new(limit: usize) -> (gate: Self)
        ensures
            gate.capacity() == limit,
            gate.held() == 0,
    {
        InFlight { limit, count: 0 }
    }

    pub fn limit(&self) -> (n: usize)
        ensures
            n == self.capacity(),
    {
        self.limit
    }

    /// The number of notifications in flight, which never passes the limit.
    pub fn in_flight(&self) -> (n: usize)
        ensures
            n == self.held(),
            self.held() <= self.capacity(),
    {
        proof {
            use_type_invariant(self);
        }
        self.count
    }

    /// How many more notifications may be admitted right now.
    pub fn available(&self) -> (n: usize)
        ensures
            n == self.capacity() - self.held(),
    {
        proof {
            use_type_invariant(self);
        }
        self.limit - self.count
    }

    /// Admits one notification if the limit allows it, and says whether it did.
    /// A notification that is refused here must be held back until a slot is released.
    pub fn try_acquire(&mut self) -> (admitted: bool)
        ensures
            final(self).capacity() == old(self).capacity(),
            admitted == (old(self).held() < old(self).capacity()),
            admitted ==> final(self).held() == old(self).held() + 1,
            !admitted ==> final(self).held() == old(self).held(),
    {
        proof {
            use_type_invariant(&*self);
        }
        if self.count < self.limit {
            self.count = self.count + 1;
            true
        } else {
            false
        }
    }

    /// Gives back the slot of a notification that reached its end, and says
    /// whether there was one to give back.
    pub fn release(&mut self) -> (released: bool)
        ensures
            final(self).capacity() == old(self).capacity(),
            released == (old(self).held() > 0),
            released ==> final(self).held() == old(self).held() - 1,
            !released ==> final(self).held() == 0,
    {
        proof {
            use_type_invariant(&*self);
        }
        if self.count > 0 {
            self.count = self.count - 1;
            true
        } else {
            false
        }
    }
}

} // verus!
