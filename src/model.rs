use vstd::prelude::*;

verus! {

/// What the host records of one live window: the identity of the native
/// window object and the visibility that the guest last asked for.
#[derive(Clone, Copy, PartialEq, Eq, Structural, Debug)]
pub struct WindowState {
    pub native_id: u64,
    pub visible: bool,
}

/// A guest-visible operation of the windowing capability.
#[derive(Clone, Copy, PartialEq, Eq, Structural, Debug)]
pub enum HostOp {
    /// `new()`, completed with the freshly built native window `native_id`.
    New { native_id: u64 },
    /// `set-visible(handle, visible)`.
    SetVisible { handle: u32, visible: bool },
    /// `drop(handle)`.
    Drop { handle: u32 },
}

/// The abstract state of the windowing capability: the live windows by handle,
/// the next handle to issue, and how many handles may be issued at all.
pub struct HostModel {
    pub windows: Map<u32, WindowState>,
    pub next: nat,
    pub limit: nat,
}

/// Every live handle was issued, and the counter never passes the limit.
pub open spec fn model_wf(m: HostModel) -> bool {
    &&& m.next <= m.limit
    &&& m.limit <= u32::MAX
    &&& forall|h: u32| #[trigger] m.windows.contains_key(h) ==> (h as nat) < m.next
}

/// The state that follows `op`. Failing operations leave the state as it was.
pub open spec fn step(m: HostModel, op: HostOp) -> HostModel {
    match op {
        HostOp::New { native_id } => {
            if m.next < m.limit {
                HostModel {
                    windows: m.windows.insert(
                        m.next as u32,
                        WindowState { native_id, visible: false },
                    ),
                    next: m.next + 1,
                    limit: m.limit,
                }
            } else {
                m
            }
        },
        HostOp::SetVisible { handle, visible } => {
            if m.windows.contains_key(handle) {
                HostModel {
                    windows: m.windows.insert(
                        handle,
                        WindowState { native_id: m.windows[handle].native_id, visible },
                    ),
                    ..m
                }
            } else {
                m
            }
        },
        HostOp::Drop { handle } => HostModel { windows: m.windows.remove(handle), ..m },
    }
}

/// The state after running `ops` in order from `m`.
pub open spec fn replay(m: HostModel, ops: Seq<HostOp>) -> HostModel
    decreases ops.len(),
{
    if ops.len() == 0 {
        m
    } else {
        replay(step(m, ops[0]), ops.drop_first())
    }
}

/// Whether `op` succeeds in state `m`.
pub open spec fn succeeds(m: HostModel, op: HostOp) -> bool {
    match op {
        HostOp::New { .. } => m.next < m.limit,
        HostOp::SetVisible { handle, .. } => m.windows.contains_key(handle),
        HostOp::Drop { handle } => m.windows.contains_key(handle),
    }
}

/// The handle that a successful `New` returns in state `m`.
pub open spec fn issued_handle(m: HostModel) -> u32 {
    m.next as u32
}

/// A host with no windows and room for `limit` of them.
pub open spec fn empty_model(limit: nat) -> HostModel {
    HostModel { windows: Map::empty(), next: 0, limit }
}

/// Each operation keeps the model well formed.
pub proof fn lemma_step_wf(m: HostModel, op: HostOp)
    requires
        model_wf(m),
    ensures
        model_wf(step(m, op)),
        step(m, op).next >= m.next,
        step(m, op).limit == m.limit,
{
}

/// Any run of operations keeps the model well formed and never winds the
/// handle counter back.
pub proof fn lemma_replay_wf(m: HostModel, ops: Seq<HostOp>)
    requires
        model_wf(m),
    ensures
        model_wf(replay(m, ops)),
        replay(m, ops).next >= m.next,
        replay(m, ops).limit == m.limit,
    decreases ops.len(),
{
    if ops.len() > 0 {
        lemma_step_wf(m, ops[0]);
        lemma_replay_wf(step(m, ops[0]), ops.drop_first());
    }
}

/// Handles are pairwise distinct while live: in every state reached from an
/// empty host, the handle that `new()` hands out is not held by any live window,
/// and the new window is the only one under it.
pub proof fn lemma_new_handle_is_fresh(limit: nat, ops: Seq<HostOp>, native_id: u64)
    requires
        limit <= u32::MAX,
    ensures
        ({
            let m = replay(empty_model(limit), ops);
            succeeds(m, HostOp::New { native_id }) ==> {
                &&& !m.windows.contains_key(issued_handle(m))
                &&& step(m, HostOp::New { native_id }).windows
                    == m.windows.insert(
                    issued_handle(m),
                    WindowState { native_id, visible: false },
                )
            }
        }),
{
    lemma_replay_wf(empty_model(limit), ops);
}

/// A handle that was never issued, or that was dropped, stays invalid: no run
/// of later operations makes it live again, so `set-visible` and `drop` on it
/// keep failing.
pub proof fn lemma_stale_handle_stays_invalid(m: HostModel, ops: Seq<HostOp>, handle: u32)
    requires
        model_wf(m),
        !m.windows.contains_key(handle),
        (handle as nat) < m.next,
    ensures
        !replay(m, ops).windows.contains_key(handle),
        !succeeds(replay(m, ops), HostOp::SetVisible { handle, visible: true }),
        !succeeds(replay(m, ops), HostOp::SetVisible { handle, visible: false }),
        !succeeds(replay(m, ops), HostOp::Drop { handle }),
    decreases ops.len(),
{
    if ops.len() > 0 {
        lemma_step_wf(m, ops[0]);
        lemma_stale_handle_stays_invalid(step(m, ops[0]), ops.drop_first(), handle);
    }
}

/// Whether `ops` holds a request to show the window under `handle`.
pub open spec fn shows(ops: Seq<HostOp>, handle: u32) -> bool {
    exists|i: int|
        0 <= i < ops.len() && #[trigger] ops[i] == (HostOp::SetVisible { handle, visible: true })
}

/// A window is created hidden and stays hidden until `set-visible(true)` is
/// called on it: along a run that never shows `handle`, a window under it that
/// was hidden (or is created during the run) is hidden at the end.
pub proof fn lemma_hidden_until_shown(m: HostModel, ops: Seq<HostOp>, handle: u32)
    requires
        m.windows.contains_key(handle) ==> !m.windows[handle].visible,
        !shows(ops, handle),
    ensures
        replay(m, ops).windows.contains_key(handle) ==> !replay(m, ops).windows[handle].visible,
    decreases ops.len(),
{
    if ops.len() > 0 {
        let rest = ops.drop_first();
        assert(!shows(rest, handle)) by {
            if shows(rest, handle) {
                let i = choose|i: int|
                    0 <= i < rest.len() && #[trigger] rest[i] == (HostOp::SetVisible {
                        handle,
                        visible: true,
                    });
                assert(ops[i + 1] == rest[i]);
            }
        }
        assert(ops[0] != (HostOp::SetVisible { handle, visible: true }));
        lemma_hidden_until_shown(step(m, ops[0]), rest, handle);
    }
}

} // verus!
