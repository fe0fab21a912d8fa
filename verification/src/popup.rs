//! Lifecycle of the single popup surface: a two-state machine that reconciles
//! internally requested toggles with externally initiated closes, never reuses
//! a surface identifier, and ignores stale close notifications.

use vstd::prelude::*;

verus! {

/// Whether a popup surface is live, and under which identifier.
#[derive(Clone, Copy, Debug, PartialEq, Eq, Structural)]
pub enum PopupState {
    Closed,
    Open(u64),
}

/// Device-independent size constraints handed to the rendering layer when a
/// popup surface is created.
#[derive(Clone, Copy, Debug, PartialEq, Eq, Structural)]
pub struct SizeLimits {
    pub min_width: u32,
    pub max_width: u32,
    pub min_height: u32,
    pub max_height: u32,
}

/// The fixed constraints every popup surface is created with.
pub open spec fn spec_popup_size_limits() -> SizeLimits {
    SizeLimits { min_width: 100, max_width: 200, min_height: 200, max_height: 1080 }
}

/// The fixed constraints every popup surface is created with.
pub fn popup_size_limits() -> (r: SizeLimits)
    ensures
        r == spec_popup_size_limits(),
{
    SizeLimits { min_width: 100, max_width: 200, min_height: 200, max_height: 1080 }
}

/// What a toggle asks the rendering layer to do.
#[derive(Clone, Copy, Debug, PartialEq, Eq, Structural)]
pub enum PopupRequest {
    Create { id: u64, limits: SizeLimits },
    Destroy { id: u64 },
}

/// The popup state machine. Fresh identifiers are drawn from a counter that
/// only grows, so no identifier is ever issued twice; the ghost set of issued
/// identifiers is what that uniqueness is stated against.
pub struct PopupLifecycle {
    pub state: PopupState,
    pub next_id: u64,
    pub issued: Ghost<Set<u64>>,
}

impl PopupLifecycle {
    /// Every issued identifier, the live one included, lies below the counter.
    pub open spec fn wf(&self) -> bool {
        &&& (forall|i: u64| self.issued@.contains(i) ==> i < self.next_id)
        &&& (self.state matches PopupState::Open(id) ==> self.issued@.contains(id))
    }

    /// A lifecycle with no popup and no identifier issued yet.
    pub fn new() -> (r: PopupLifecycle)
        ensures
            r.wf(),
            r.state == PopupState::Closed,
            r.issued@ == Set::<u64>::empty(),
    {
        PopupLifecycle { state: PopupState::Closed, next_id: 0, issued: Ghost(Set::empty()) }
    }

    /// How one toggle relates the lifecycle before the call, the lifecycle
    /// after it and the request handed to the rendering layer. From `Closed`
    /// the popup opens under an identifier never issued before and its
    /// creation is requested with the fixed size constraints; from `Open` it
    /// closes and that surface's destruction is requested.
    pub open spec fn toggle_rel(pre: PopupLifecycle, post: PopupLifecycle, r: PopupRequest) -> bool {
        match pre.state {
            PopupState::Closed => {
                &&& post.state == PopupState::Open(pre.next_id)
                &&& r == (PopupRequest::Create { id: pre.next_id, limits: spec_popup_size_limits() })
                &&& !pre.issued@.contains(pre.next_id)
                &&& post.issued@ == pre.issued@.insert(pre.next_id)
                &&& post.next_id == pre.next_id + 1
            },
            PopupState::Open(id) => {
                &&& post.state == PopupState::Closed
                &&& r == (PopupRequest::Destroy { id })
                &&& post.issued@ == pre.issued@
                &&& post.next_id == pre.next_id
            },
        }
    }

    /// How an external close notification relates the lifecycle before and
    /// after it: only the live identifier closes the popup; a stale or
    /// duplicate one, or one arriving while closed, changes nothing.
    pub open spec fn external_close_rel(pre: PopupLifecycle, post: PopupLifecycle, id: u64) -> bool {
        &&& pre.state == PopupState::Open(id) ==> post.state == PopupState::Closed
        &&& pre.state != PopupState::Open(id) ==> post.state == pre.state
        &&& post.next_id == pre.next_id
        &&& post.issued@ == pre.issued@
    }

    /// Toggle the popup, as [`PopupLifecycle::toggle_rel`] states. The counter
    /// bound is a machine limit: opening draws a fresh identifier from a `u64`
    /// that must not wrap, while closing draws none and needs no bound.
    pub fn toggle(&mut self) -> (r: PopupRequest)
        requires
            old(self).wf(),
            old(self).state is Closed ==> old(self).next_id < u64::MAX,
        ensures
            final(self).wf(),
            PopupLifecycle::toggle_rel(*old(self), *final(self), r),
    {
        match self.state {
            PopupState::Closed => {
                let id = self.next_id;
                self.next_id = self.next_id + 1;
                self.state = PopupState::Open(id);
                proof {
                    self.issued@ = self.issued@.insert(id);
                }
                PopupRequest::Create { id, limits: popup_size_limits() }
            },
            PopupState::Open(id) => {
                self.state = PopupState::Closed;
                PopupRequest::Destroy { id }
            },
        }
    }

    /// From `Closed`, a toggle always opens the popup under an identifier
    /// distinct from every identifier issued earlier in the same run, records
    /// it as issued, and requests the surface's creation with the fixed size
    /// constraints.
    pub proof fn lemma_toggle_from_closed_fresh(
        pre: PopupLifecycle,
        post: PopupLifecycle,
        r: PopupRequest,
    )
        requires
            pre.wf(),
            pre.state is Closed,
            PopupLifecycle::toggle_rel(pre, post, r),
        ensures
            post.state == PopupState::Open(pre.next_id),
            r == (PopupRequest::Create { id: pre.next_id, limits: spec_popup_size_limits() }),
            forall|i: u64| pre.issued@.contains(i) ==> i != pre.next_id,
            post.issued@.contains(pre.next_id),
    {
    }

    /// Apply an externally initiated close notification, as
    /// [`PopupLifecycle::external_close_rel`] states. No destruction request is
    /// owed in any case — the surface is already gone.
    pub fn external_close(&mut self, id: u64)
        requires
            old(self).wf(),
        ensures
            final(self).wf(),
            PopupLifecycle::external_close_rel(*old(self), *final(self), id),
    {
        match self.state {
            PopupState::Open(live) => {
                if live == id {
                    self.state = PopupState::Closed;
                }
            },
            PopupState::Closed => {},
        }
    }
}

} // verus!
