use vstd::prelude::*;
use crate::model::{HostModel, HostOp, WindowState, model_wf, step};

verus! {

/// Why a windowing operation failed. Both are returned to the guest; neither
/// stops the host.
#[derive(Clone, Copy, PartialEq, Eq, Structural, Debug)]
pub enum TableError {
    /// The handle does not denote a live window of this table.
    InvalidHandle,
    /// No further handle can be issued.
    Exhausted,
}

/// One occupied entry: the native window object and what the host records of it.
pub struct Slot<W> {
    pub native_id: u64,
    pub visible: bool,
    pub window: W,
}

impl<W> Slot<W> {
    pub open spec fn state(&self) -> WindowState {
        WindowState { native_id: self.native_id, visible: self.visible }
    }
}

/// The resource table of windows: opaque `u32` handles to owned native window
/// objects. A handle is the index of its slot; handles are issued in increasing
/// order and never reused, so a stale handle can never alias a live window.
pub struct WindowTable<W> {
    slots: Vec<Option<Slot<W>>>,
    limit: u32,
}

impl<W> WindowTable<W> {
    /// The live windows by handle.
    pub closed spec fn view(&self) -> Map<u32, WindowState> {
        Map::new(
            |h: u32| (h as int) < self.slots@.len() && self.slots@[h as int] is Some,
            |h: u32| self.slots@[h as int]->Some_0.state(),
        )
    }

    /// The native window object stored under `h`.
    pub closed spec fn object(&self, h: u32) -> W {
        self.slots@[h as int]->Some_0.window
    }

    /// The number of handles issued so far; the next handle to issue.
    pub closed spec fn next_handle(&self) -> nat {
        self.slots@.len()
    }

    /// How many handles the table may issue over its lifetime.
    pub closed spec fn handle_limit(&self) -> nat {
        self.limit as nat
    }

    /// The abstract state of the table.
    pub open spec fn model(&self) -> HostModel {
        HostModel { windows: self.view(), next: self.next_handle(), limit: self.handle_limit() }
    }

    pub closed spec fn wf(&self) -> bool {
        self.slots@.len() <= self.limit
    }

    /// The model of a well-formed table is well formed.
    pub proof fn lemma_model_wf(&self)
        requires
            self.wf(),
        ensures
            model_wf(self.model()),
            self.model().windows == self.view(),
    {
    }

    /// An empty table that may issue every `u32` but the largest as a handle.
    pub fn new() -> (r: Self)
        ensures
            r.wf(),
            r.model() == crate::model::empty_model(u32::MAX as nat),
    {
        let r = WindowTable { slots: Vec::new(), limit: u32::MAX };
        assert(r.view() =~= Map::empty());
        r
    }

    /// An empty table that issues at most `limit` handles over its lifetime.
    pub fn with_limit(limit: u32) -> (r: Self)
        ensures
            r.wf(),
            r.model() == crate::model::empty_model(limit as nat),
    {
        let r = WindowTable { slots: Vec::new(), limit };
        assert(r.view() =~= Map::empty());
        r
    }

    /// The number of handles issued so far.
    pub fn issued(&self) -> (r: u32)
        requires
            self.wf(),
        ensures
            r as nat == self.model().next,
    {
        self.slots.len() as u32
    }

    /// Moves `window` into the table, hidden, and returns its new handle; fails
    /// with `Exhausted` when the table has issued all its handles.
    pub fn insert(&mut self, native_id: u64, window: W) -> (r: Result<u32, TableError>)
        requires
            old(self).wf(),
        ensures
            final(self).wf(),
            final(self).model() == step(old(self).model(), HostOp::New { native_id }),
            r is Ok <==> old(self).model().next < old(self).model().limit,
            r is Ok ==> r->Ok_0 as nat == old(self).model().next && final(self).object(r->Ok_0)
                == window,
            r is Err ==> r->Err_0 == TableError::Exhausted,
            forall|h: u32| #[trigger]
                old(self).view().contains_key(h) ==> final(self).object(h) == old(self).object(h),
    {
        if self.slots.len() < self.limit as usize {
            let h = self.slots.len() as u32;
            self.slots.push(Some(Slot { native_id, visible: false, window }));
            assert(self.view() =~= old(self).view().insert(
                h,
                WindowState { native_id, visible: false },
            ));
            Ok(h)
        } else {
            Err(TableError::Exhausted)
        }
    }

    /// The native window object under `h`, if `h` is live.
    pub fn get(&self, h: u32) -> (r: Option<&W>)
        ensures
            r is Some <==> self.view().contains_key(h),
            r is Some ==> *r->Some_0 == self.object(h),
    {
        if (h as usize) < self.slots.len() {
            match &self.slots[h as usize] {
                Some(slot) => Some(&slot.window),
                None => None,
            }
        } else {
            None
        }
    }

    /// The recorded state of the window under `h`, if `h` is live.
    pub fn state(&self, h: u32) -> (r: Option<WindowState>)
        ensures
            r is Some <==> self.view().contains_key(h),
            r is Some ==> r->Some_0 == self.view()[h],
    {
        if (h as usize) < self.slots.len() {
            match &self.slots[h as usize] {
                Some(slot) => Some(WindowState { native_id: slot.native_id, visible: slot.visible }),
                None => None,
            }
        } else {
            None
        }
    }

    /// Records that the window under `h` is to be shown or hidden; fails with
    /// `InvalidHandle`, changing nothing, when `h` is not live.
    pub fn set_visible(&mut self, h: u32, visible: bool) -> (r: Result<(), TableError>)
        requires
            old(self).wf(),
        ensures
            final(self).wf(),
            final(self).model() == step(old(self).model(), HostOp::SetVisible { handle: h, visible }),
            r is Ok <==> old(self).view().contains_key(h),
            r is Err ==> r->Err_0 == TableError::InvalidHandle,
            forall|g: u32| #[trigger]
                final(self).view().contains_key(g) ==> final(self).object(g) == old(self).object(g),
    {
        if (h as usize) < self.slots.len() {
            let i = h as usize;
            let taken = self.slots[i].take();
            match taken {
                Some(slot) => {
                    let native_id = slot.native_id;
                    self.slots[i] = Some(Slot { native_id, visible, window: slot.window });
                    assert(self.view() =~= old(self).view().insert(
                        h,
                        WindowState { native_id, visible },
                    ));
                    Ok(())
                },
                None => {
                    assert(self.slots@ =~= old(self).slots@);
                    Err(TableError::InvalidHandle)
                },
            }
        } else {
            Err(TableError::InvalidHandle)
        }
    }

    /// Removes the window under `h` from the table and hands it back, so that
    /// the caller releases it; fails with `InvalidHandle`, changing nothing,
    /// when `h` is not live.
    pub fn remove(&mut self, h: u32) -> (r: Result<W, TableError>)
        requires
            old(self).wf(),
        ensures
            final(self).wf(),
            final(self).model() == step(old(self).model(), HostOp::Drop { handle: h }),
            r is Ok <==> old(self).view().contains_key(h),
            r is Ok ==> r->Ok_0 == old(self).object(h),
            r is Err ==> r->Err_0 == TableError::InvalidHandle,
            forall|g: u32| #[trigger]
                final(self).view().contains_key(g) ==> final(self).object(g) == old(self).object(g),
    {
        if (h as usize) < self.slots.len() {
            let taken = self.slots[h as usize].take();
            assert(self.view() =~= old(self).view().remove(h));
            match taken {
                Some(slot) => Ok(slot.window),
                None => Err(TableError::InvalidHandle),
            }
        } else {
            assert(old(self).view().remove(h) =~= old(self).view());
            Err(TableError::InvalidHandle)
        }
    }

    /// The lowest live handle whose window has the native identity `native_id`.
    pub fn handle_of(&self, native_id: u64) -> (r: Option<u32>)
        requires
            self.wf(),
        ensures
            r is Some ==> self.view().contains_key(r->Some_0) && self.view()[r->Some_0].native_id
                == native_id,
            r is Some ==> forall|g: u32|
                #![trigger self.view().contains_key(g)]
                g < r->Some_0 && self.view().contains_key(g) ==> self.view()[g].native_id
                    != native_id,
            r is None <==> !owns(self.view(), native_id),
    {
        let mut i: usize = 0;
        while i < self.slots.len()
            invariant
                self.wf(),
                i <= self.slots@.len(),
                forall|g: u32|
                    #![trigger self.view().contains_key(g)]
                    (g as int) < i && self.view().contains_key(g) ==> self.view()[g].native_id
                        != native_id,
            decreases self.slots@.len() - i,
        {
            match &self.slots[i] {
                Some(slot) => {
                    if slot.native_id == native_id {
                        assert(self.view().contains_key(i as u32));
                        return Some(i as u32);
                    }
                },
                None => {},
            }
            i = i + 1;
        }
        assert forall|g: u32| #[trigger] self.view().contains_key(g) implies self.view()[g].native_id
            != native_id by {
            assert((g as int) < i);
        }
        None
    }
}

/// Whether a live window of `windows` has the native identity `native_id`.
pub open spec fn owns(windows: Map<u32, WindowState>, native_id: u64) -> bool {
    exists|h: u32| #[trigger] windows.contains_key(h) && windows[h].native_id == native_id
}

} // verus!
