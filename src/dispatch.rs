use vstd::prelude::*;
use crate::event::{Event, NativeInput, normalize, normalized};
use crate::model::WindowState;
use crate::table::{WindowTable, owns};

verus! {

/// One call of the guest's event handler: the window's correlation id and the
/// event.
#[derive(Clone, Copy, PartialEq, Eq, Structural, Debug)]
pub struct Dispatch {
    pub window_id: u64,
    pub event: Event,
}

/// The handler call that a native event on window `native_id` leads to, if any:
/// none for a window that the table does not own, nor for an event that is not
/// forwarded. The correlation id is the native window's identity.
pub open spec fn routed(windows: Map<u32, WindowState>, native_id: u64, input: NativeInput) -> Option<
    Dispatch,
> {
    if owns(windows, native_id) {
        match normalized(input) {
            Some(event) => Some(Dispatch { window_id: native_id, event }),
            None => None,
        }
    } else {
        None
    }
}

/// Decides which handler call, if any, a native event leads to.
pub fn route<W>(table: &WindowTable<W>, native_id: u64, input: NativeInput) -> (r: Option<Dispatch>)
    requires
        table.wf(),
    ensures
        r == routed(table.view(), native_id, input),
{
    match table.handle_of(native_id) {
        Some(_) => match normalize(input) {
            Some(event) => Some(Dispatch { window_id: native_id, event }),
            None => None,
        },
        None => None,
    }
}

/// Where a dispatcher is in its work.
#[derive(Clone, Copy, PartialEq, Eq, Structural, Debug)]
pub enum Phase {
    /// No handler call is running.
    Idle,
    /// A handler call is running and has not returned.
    InFlight,
    /// A handler call trapped or failed: the guest instance is finished.
    Faulted,
}

/// Serialises handler calls: events are queued in the order they were observed
/// and handed out one at a time, each only after the previous call returned.
pub struct Dispatcher {
    pending: Vec<Dispatch>,
    phase: Phase,
    observed: Ghost<Seq<Dispatch>>,
    delivered: Ghost<Seq<Dispatch>>,
}

impl Dispatcher {
    /// Every handler call ever observed, in order.
    pub closed spec fn observed(&self) -> Seq<Dispatch> {
        self.observed@
    }

    /// Every handler call handed out so far, in order.
    pub closed spec fn delivered(&self) -> Seq<Dispatch> {
        self.delivered@
    }

    /// The handler calls waiting their turn.
    pub closed spec fn pending(&self) -> Seq<Dispatch> {
        self.pending@
    }

    pub closed spec fn phase(&self) -> Phase {
        self.phase
    }

    pub closed spec fn wf(&self) -> bool {
        &&& self.delivered@ + self.pending@ == self.observed@
        &&& self.phase == Phase::InFlight ==> self.delivered@.len() > 0
    }

    /// A dispatcher that has observed nothing.
    pub fn new() -> (r: Self)
        ensures
            r.wf(),
            r.observed() == Seq::<Dispatch>::empty(),
            r.delivered() == Seq::<Dispatch>::empty(),
            r.pending() == Seq::<Dispatch>::empty(),
            r.phase() == Phase::Idle,
    {
        let r = Dispatcher {
            pending: Vec::new(),
            phase: Phase::Idle,
            observed: Ghost(Seq::empty()),
            delivered: Ghost(Seq::empty()),
        };
        assert(r.delivered@ + r.pending@ =~= r.observed@);
        r
    }

    /// Whether a handler call is waiting its turn.
    pub fn has_pending(&self) -> (r: bool)
        ensures
            r == (self.pending().len() > 0),
    {
        self.pending.len() > 0
    }

    /// Whether the guest instance is finished.
    pub fn is_faulted(&self) -> (r: bool)
        ensures
            r == (self.phase() == Phase::Faulted),
    {
        self.phase == Phase::Faulted
    }

    /// Observes a native event on window `native_id`, queueing the handler call
    /// it leads to, if any.
    pub fn observe<W>(&mut self, table: &WindowTable<W>, native_id: u64, input: NativeInput)
        requires
            old(self).wf(),
            table.wf(),
        ensures
            final(self).wf(),
            final(self).phase() == old(self).phase(),
            final(self).delivered() == old(self).delivered(),
            match routed(table.view(), native_id, input) {
                Some(d) => {
                    &&& final(self).observed() == old(self).observed().push(d)
                    &&& final(self).pending() == old(self).pending().push(d)
                },
                None => {
                    &&& final(self).observed() == old(self).observed()
                    &&& final(self).pending() == old(self).pending()
                },
            },
    {
        match route(table, native_id, input) {
            Some(d) => {
                self.pending.push(d);
                self.observed = Ghost(self.observed@.push(d));
                assert(self.delivered@ + self.pending@ =~= self.observed@);
            },
            None => {},
        }
    }

    /// Hands out the oldest waiting handler call, unless a call is running,
    /// the guest instance is finished, or nothing waits.
    pub fn begin(&mut self) -> (r: Option<Dispatch>)
        requires
            old(self).wf(),
        ensures
            final(self).wf(),
            final(self).observed() == old(self).observed(),
            r is Some <==> old(self).phase() == Phase::Idle && old(self).pending().len() > 0,
            r is Some ==> {
                &&& r->Some_0 == old(self).pending()[0]
                &&& final(self).pending() == old(self).pending().drop_first()
                &&& final(self).delivered() == old(self).delivered().push(r->Some_0)
                &&& final(self).phase() == Phase::InFlight
            },
            r is None ==> {
                &&& final(self).pending() == old(self).pending()
                &&& final(self).delivered() == old(self).delivered()
                &&& final(self).phase() == old(self).phase()
            },
    {
        if self.phase == Phase::Idle && self.pending.len() > 0 {
            let d = self.pending.remove(0);
            self.delivered = Ghost(self.delivered@.push(d));
            self.phase = Phase::InFlight;
            assert(self.delivered@ + self.pending@ =~= self.observed@) by {
                assert(old(self).pending@ =~= seq![d] + self.pending@);
                assert(old(self).delivered@ + old(self).pending@ == self.observed@);
            }
            Some(d)
        } else {
            None
        }
    }

    /// Records that the running handler call returned: successfully when `ok`,
    /// otherwise with a trap or an error, which finishes the guest instance.
    pub fn finish(&mut self, ok: bool)
        requires
            old(self).wf(),
            old(self).phase() == Phase::InFlight,
        ensures
            final(self).wf(),
            final(self).observed() == old(self).observed(),
            final(self).delivered() == old(self).delivered(),
            final(self).pending() == old(self).pending(),
            final(self).phase() == if ok {
                Phase::Idle
            } else {
                Phase::Faulted
            },
    {
        self.phase = if ok {
            Phase::Idle
        } else {
            Phase::Faulted
        };
    }

    /// Handler calls are handed out in the order their events were observed:
    /// what was delivered is always a prefix of what was observed, and the rest
    /// waits, in order, in the queue.
    pub proof fn lemma_delivered_in_order(&self)
        requires
            self.wf(),
        ensures
            self.delivered().len() <= self.observed().len(),
            forall|i: int|
                0 <= i < self.delivered().len() ==> #[trigger] self.delivered()[i]
                    == self.observed()[i],
            forall|i: int|
                0 <= i < self.pending().len() ==> #[trigger] self.pending()[i]
                    == self.observed()[self.delivered().len() + i],
    {
        assert forall|i: int| 0 <= i < self.delivered().len() implies #[trigger] self.delivered()[i]
            == self.observed()[i] by {
            assert((self.delivered@ + self.pending@)[i] == self.delivered@[i]);
        }
        assert forall|i: int| 0 <= i < self.pending().len() implies #[trigger] self.pending()[i]
            == self.observed()[self.delivered().len() + i] by {
            assert((self.delivered@ + self.pending@)[self.delivered@.len() + i] == self.pending@[i]);
        }
    }

    /// Once the queue is drained with no call running, every observed handler
    /// call was delivered exactly once, in order.
    pub proof fn lemma_drained_delivers_all(&self)
        requires
            self.wf(),
            self.pending().len() == 0,
        ensures
            self.delivered() == self.observed(),
    {
        assert(self.delivered@ + self.pending@ =~= self.delivered@);
    }
}

/// A close request on a window that the table owns reaches the guest as one
/// `Close` call carrying that window's correlation id; on a window that the
/// table does not own, it reaches the guest not at all.
pub proof fn lemma_close_routed(windows: Map<u32, WindowState>, native_id: u64)
    ensures
        owns(windows, native_id) ==> routed(windows, native_id, NativeInput::CloseRequested)
            == Some(Dispatch { window_id: native_id, event: Event::Close }),
        !owns(windows, native_id) ==> routed(windows, native_id, NativeInput::CloseRequested)
            is None,
{
}

/// No event of any kind on a window that the table does not own leads to a
/// handler call.
pub proof fn lemma_foreign_window_ignored(
    windows: Map<u32, WindowState>,
    native_id: u64,
    input: NativeInput,
)
    requires
        !owns(windows, native_id),
    ensures
        routed(windows, native_id, input) is None,
{
}

} // verus!
