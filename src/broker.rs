use vstd::prelude::*;

verus! {

/// The bookkeeping of the window broker: requests for a new window, made off
/// the UI thread, each stamped with a ticket, and answered by the UI thread in
/// the order they were made. The ticket travels back with the window built for
/// it, so that each requester receives its own window and no other.
pub struct RequestQueue {
    next_ticket: u64,
    pending: Vec<u64>,
}

impl RequestQueue {
    /// The tickets of the requests that wait for a window, oldest first.
    pub closed spec fn pending(&self) -> Seq<u64> {
        self.pending@
    }

    /// The ticket that the next request receives.
    pub closed spec fn next_ticket(&self) -> u64 {
        self.next_ticket
    }

    /// Waiting tickets are strictly increasing and all below the next ticket,
    /// so no two requests share one.
    pub closed spec fn wf(&self) -> bool {
        &&& forall|i: int, j: int|
            0 <= i < j < self.pending@.len() ==> #[trigger] self.pending@[i]
                < #[trigger] self.pending@[j]
        &&& forall|i: int| 0 <= i < self.pending@.len() ==> #[trigger] self.pending@[i] < self.next_ticket
    }

    pub fn new() -> (r: Self)
        ensures
            r.wf(),
            r.pending() == Seq::<u64>::empty(),
            r.next_ticket() == 0,
    {
        RequestQueue { next_ticket: 0, pending: Vec::new() }
    }

    /// Records a request for a window and returns its ticket, distinct from
    /// every ticket handed out before; `None`, recording nothing, once the
    /// tickets are used up.
    pub fn submit(&mut self) -> (r: Option<u64>)
        requires
            old(self).wf(),
        ensures
            final(self).wf(),
            r is Some <==> old(self).next_ticket() < u64::MAX,
            r is Some ==> {
                &&& r->Some_0 == old(self).next_ticket()
                &&& final(self).next_ticket() == r->Some_0 + 1
                &&& final(self).pending() == old(self).pending().push(r->Some_0)
            },
            r is None ==> final(self).pending() == old(self).pending() && final(self).next_ticket()
                == old(self).next_ticket(),
    {
        if self.next_ticket < u64::MAX {
            let t = self.next_ticket;
            self.pending.push(t);
            self.next_ticket = t + 1;
            Some(t)
        } else {
            None
        }
    }

    /// Takes every waiting request, oldest first, leaving none behind.
    pub fn drain(&mut self) -> (r: Vec<u64>)
        requires
            old(self).wf(),
        ensures
            final(self).wf(),
            r@ == old(self).pending(),
            final(self).pending() == Seq::<u64>::empty(),
            final(self).next_ticket() == old(self).next_ticket(),
    {
        let mut r: Vec<u64> = Vec::new();
        std::mem::swap(&mut r, &mut self.pending);
        r
    }

    /// The tickets that a drain hands out are pairwise distinct.
    pub proof fn lemma_pending_distinct(&self)
        requires
            self.wf(),
        ensures
            forall|i: int, j: int|
                0 <= i < self.pending().len() && 0 <= j < self.pending().len() && i != j
                    ==> self.pending()[i] != self.pending()[j],
    {
        assert forall|i: int, j: int|
            0 <= i < self.pending().len() && 0 <= j < self.pending().len() && i != j implies self.pending()[i]
            != self.pending()[j] by {
            if i < j {
                assert(self.pending@[i] < self.pending@[j]);
            } else {
                assert(self.pending@[j] < self.pending@[i]);
            }
        }
    }
}

} // verus!
