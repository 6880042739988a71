//! The screencast service: the registry of sessions and the dispatch of
//! the three externally visible operations onto them.
//!
//! All session state transitions happen here, on the single cooperative
//! dispatch flow, so the registry is the single writer of every session.
//! Handles are issued from a counter and never reused; closing a session
//! removes its handle, so a closed session becomes unreachable.

use vstd::prelude::*;

use crate::response::PortalResponse;
use crate::screencast::select_response;
use crate::screencast::select_transition;
use crate::screencast::selection_targets;
use crate::screencast::outcome_shape;
use crate::screencast::start_ready;
use crate::screencast::start_response;
use crate::screencast::start_rollback;
use crate::screencast::start_streams_out;
use crate::screencast::start_transition;
use crate::screencast::NegotiationOutcome;
use crate::screencast::StartOutput;
use crate::session::close_actions;
use crate::session::new_session_view;
use crate::session::CloseAction;
use crate::session::Session;
use crate::session::SessionState;
use crate::session::SessionView;
use crate::sources::SelectSourcesOptions;
use crate::sources::SourceDescriptor;

verus! {

/// One registered session and its externally visible handle.
#[derive(Debug)]
pub struct SessionEntry {
    pub handle: u64,
    pub session: Session,
}

/// Mathematical model of a registry entry.
#[verifier::ext_equal]
pub struct EntryView {
    pub handle: u64,
    pub session: SessionView,
}

impl View for SessionEntry {
    type V = EntryView;

    open spec fn view(&self) -> EntryView {
        EntryView { handle: self.handle, session: self.session@ }
    }
}

/// The screencast service.
#[derive(Debug)]
pub struct ScreenCast {
    /// The next handle to issue; handles are never reused.
    pub next_handle: u64,
    /// The registered sessions, in registration order.
    pub sessions: Vec<SessionEntry>,
}

/// Mathematical model of the service.
#[verifier::ext_equal]
pub struct ScreenCastView {
    pub next_handle: u64,
    pub sessions: Seq<EntryView>,
}

impl View for ScreenCast {
    type V = ScreenCastView;

    open spec fn view(&self) -> ScreenCastView {
        ScreenCastView {
            next_handle: self.next_handle,
            sessions: self.sessions@.map_values(|e: SessionEntry| e@),
        }
    }
}

impl ScreenCastView {
    /// Every registered session is well formed, every handle was issued
    /// below the counter, and no two entries share a handle.
    pub open spec fn wf(self) -> bool {
        &&& forall|i: int|
            0 <= i < self.sessions.len() ==> (#[trigger] self.sessions[i]).session.wf()
        &&& forall|i: int|
            0 <= i < self.sessions.len() ==> (#[trigger] self.sessions[i]).handle
                < self.next_handle
        &&& forall|i: int, j: int|
            0 <= i < j < self.sessions.len() ==> self.sessions[i].handle
                != self.sessions[j].handle
    }
}

/// The position of the entry registered under a handle, if any.
pub open spec fn index_of_handle(s: Seq<EntryView>, h: u64) -> Option<int>
    decreases s.len(),
{
    if s.len() == 0 {
        None
    } else if s.first().handle == h {
        Some(0)
    } else {
        match index_of_handle(s.drop_first(), h) {
            Some(i) => Some(i + 1),
            None => None,
        }
    }
}

/// A linear scan that stops at the first hit finds exactly
/// `index_of_handle`.
proof fn lemma_index_of_handle_found(s: Seq<EntryView>, h: u64, i: int)
    requires
        0 <= i < s.len(),
        s[i].handle == h,
        forall|j: int| 0 <= j < i ==> s[j].handle != h,
    ensures
        index_of_handle(s, h) == Some(i),
    decreases s.len(),
{
    if i == 0 {
    } else {
        assert(s.first().handle != h);
        assert(s.drop_first()[i - 1] == s[i]);
        assert forall|j: int| 0 <= j < i - 1 implies s.drop_first()[j].handle != h by {
            assert(s.drop_first()[j] == s[j + 1]);
        }
        lemma_index_of_handle_found(s.drop_first(), h, i - 1);
    }
}

/// A handle no entry carries is not found.
proof fn lemma_index_of_handle_absent(s: Seq<EntryView>, h: u64)
    requires
        forall|j: int| 0 <= j < s.len() ==> s[j].handle != h,
    ensures
        index_of_handle(s, h) is None,
    decreases s.len(),
{
    if s.len() > 0 {
        assert forall|j: int| 0 <= j < s.drop_first().len() implies s.drop_first()[j].handle != h by {
            assert(s.drop_first()[j] == s[j + 1]);
        }
        lemma_index_of_handle_absent(s.drop_first(), h);
    }
}

/// Law: once an entry is removed from a registry without duplicate
/// handles, its handle is unreachable.
pub proof fn lemma_handle_unreachable_after_remove(v: ScreenCastView, i: int)
    requires
        v.wf(),
        0 <= i < v.sessions.len(),
    ensures
        index_of_handle(v.sessions.remove(i), v.sessions[i].handle) is None,
{
    let h = v.sessions[i].handle;
    let rest = v.sessions.remove(i);
    assert forall|j: int| 0 <= j < rest.len() implies rest[j].handle != h by {
        if j < i {
            assert(rest[j] == v.sessions[j]);
        } else {
            assert(rest[j] == v.sessions[j + 1]);
        }
    }
    lemma_index_of_handle_absent(rest, h);
}

impl ScreenCast {
    /// A service with no sessions registered.
    pub fn new() -> (s: ScreenCast)
        ensures
            s@.next_handle == 0,
            s@.sessions == Seq::<EntryView>::empty(),
            s@.wf(),
    {
        let s = ScreenCast { next_handle: 0, sessions: Vec::new() };
        proof {
            assert(s@.sessions =~= Seq::<EntryView>::empty());
        }
        s
    }

    /// Finds the registry position of a handle.
    fn find_index(&self, handle: u64) -> (r: Option<usize>)
        ensures
            match r {
                Some(i) => 0 <= i < self@.sessions.len() && self@.sessions[i as int].handle
                    == handle && index_of_handle(self@.sessions, handle) == Some(i as int),
                None => index_of_handle(self@.sessions, handle) is None,
            },
    {
        let mut i: usize = 0;
        while i < self.sessions.len()
            invariant
                i <= self.sessions.len(),
                forall|j: int| 0 <= j < i ==> self@.sessions[j].handle != handle,
            decreases self.sessions.len() - i,
        {
            proof {
                assert(self@.sessions[i as int] == self.sessions@[i as int]@);
            }
            if self.sessions[i].handle == handle {
                proof {
                    lemma_index_of_handle_found(self@.sessions, handle, i as int);
                }
                return Some(i);
            }
            i = i + 1;
        }
        proof {
            lemma_index_of_handle_absent(self@.sessions, handle);
        }
        None
    }

    /// Looks a handle up and reports the state of its session.
    pub fn lookup(&self, handle: u64) -> (r: Option<SessionState>)
        ensures
            r == match index_of_handle(self@.sessions, handle) {
                Some(i) => Some(self@.sessions[i].session.state),
                None => None::<SessionState>,
            },
    {
        match self.find_index(handle) {
            Some(i) => {
                proof {
                    assert(self@.sessions[i as int] == self.sessions@[i as int]@);
                }
                Some(self.sessions[i].session.state)
            },
            None => None,
        }
    }

    /// Registers a new session in state `New` and returns its handle at
    /// once; no negotiation happens here.
    pub fn create_session(&mut self) -> (r: (PortalResponse, u64))
        requires
            old(self)@.wf(),
            old(self)@.next_handle < u64::MAX,
        ensures
            r.0 == PortalResponse::Success,
            r.1 == old(self)@.next_handle,
            final(self)@.next_handle == old(self)@.next_handle + 1,
            final(self)@.sessions == old(self)@.sessions.push(
                EntryView { handle: old(self)@.next_handle, session: new_session_view() },
            ),
            final(self)@.wf(),
    {
        let handle = self.next_handle;
        self.next_handle = self.next_handle + 1;
        let session = Session::new();
        self.sessions.push(SessionEntry { handle, session });
        proof {
            let new_entry = EntryView { handle, session: new_session_view() };
            assert(self@.sessions =~= old(self)@.sessions.push(new_entry));
            let v = self@;
            assert forall|i: int| 0 <= i < v.sessions.len() implies (#[trigger] v.sessions[i]).session.wf()
                && v.sessions[i].handle < v.next_handle by {
                if i < v.sessions.len() - 1 {
                    assert(v.sessions[i] == old(self)@.sessions[i]);
                } else {
                    assert(v.sessions[i] == new_entry);
                }
            }
            assert forall|i: int, j: int| 0 <= i < j < v.sessions.len() implies v.sessions[i].handle
                != v.sessions[j].handle by {
                if j < v.sessions.len() - 1 {
                    assert(v.sessions[i] == old(self)@.sessions[i]);
                    assert(v.sessions[j] == old(self)@.sessions[j]);
                } else {
                    assert(v.sessions[i] == old(self)@.sessions[i]);
                    assert(v.sessions[i].handle < old(self)@.next_handle);
                    assert(v.sessions[j] == new_entry);
                }
            }
        }
        (PortalResponse::Success, handle)
    }

    /// Dispatches `SelectSources` to the session registered under the
    /// handle; an unknown handle is a state error.
    pub fn select_sources(
        &mut self,
        handle: u64,
        opts: SelectSourcesOptions,
        available: &Vec<SourceDescriptor>,
    ) -> (r: PortalResponse)
        requires
            old(self)@.wf(),
        ensures
            final(self)@.next_handle == old(self)@.next_handle,
            final(self)@.wf(),
            match index_of_handle(old(self)@.sessions, handle) {
                Some(i) => {
                    &&& final(self)@.sessions == old(self)@.sessions.update(
                        i,
                        EntryView {
                            handle,
                            session: select_transition(
                                old(self)@.sessions[i].session,
                                opts,
                                available@,
                            ),
                        },
                    )
                    &&& r == select_response(old(self)@.sessions[i].session, opts, available@)
                },
                None => final(self)@.sessions == old(self)@.sessions && r == PortalResponse::Other,
            },
    {
        match self.find_index(handle) {
            Some(i) => {
                proof {
                    assert(self@.sessions[i as int] == self.sessions@[i as int]@);
                }
                let entry = &mut self.sessions[i];
                let r = entry.session.select_sources(opts, available);
                proof {
                    let updated = EntryView {
                        handle,
                        session: select_transition(old(self)@.sessions[i as int].session, opts, available@),
                    };
                    assert(self.sessions@[i as int]@ == updated);
                    assert(self@.sessions =~= old(self)@.sessions.update(i as int, updated));
                    let v = self@;
                    assert forall|k: int| 0 <= k < v.sessions.len() implies (#[trigger] v.sessions[k]).session.wf()
                        && v.sessions[k].handle < v.next_handle by {
                        if k != i {
                            assert(v.sessions[k] == old(self)@.sessions[k]);
                        }
                    }
                    assert forall|k: int, l: int| 0 <= k < l < v.sessions.len() implies v.sessions[k].handle
                        != v.sessions[l].handle by {
                        assert(v.sessions[k].handle == old(self)@.sessions[k].handle);
                        assert(v.sessions[l].handle == old(self)@.sessions[l].handle);
                    }
                }
                r
            },
            None => PortalResponse::Other,
        }
    }

    /// Dispatches `Start` to the session registered under the handle;
    /// an unknown handle is a state error.
    pub fn start(&mut self, handle: u64, outcomes: &Vec<NegotiationOutcome>) -> (out: StartOutput)
        requires
            old(self)@.wf(),
            match index_of_handle(old(self)@.sessions, handle) {
                Some(i) => start_ready(old(self)@.sessions[i].session) ==> outcome_shape(
                    outcomes@,
                    selection_targets(old(self)@.sessions[i].session).len(),
                ),
                None => true,
            },
        ensures
            final(self)@.next_handle == old(self)@.next_handle,
            final(self)@.wf(),
            match index_of_handle(old(self)@.sessions, handle) {
                Some(i) => {
                    &&& final(self)@.sessions == old(self)@.sessions.update(
                        i,
                        EntryView {
                            handle,
                            session: start_transition(old(self)@.sessions[i].session, outcomes@),
                        },
                    )
                    &&& out.response == start_response(old(self)@.sessions[i].session, outcomes@)
                    &&& out.streams@ == start_streams_out(old(self)@.sessions[i].session, outcomes@)
                    &&& out.rollback@ == start_rollback(old(self)@.sessions[i].session, outcomes@)
                },
                None => final(self)@.sessions == old(self)@.sessions && out.response
                    == PortalResponse::Other && out.streams@ == Seq::<
                    crate::screencast::StreamProps,
                >::empty() && out.rollback@ == Seq::<u64>::empty(),
            },
    {
        match self.find_index(handle) {
            Some(i) => {
                proof {
                    assert(self@.sessions[i as int] == self.sessions@[i as int]@);
                }
                let entry = &mut self.sessions[i];
                let out = entry.session.start(outcomes);
                proof {
                    let updated = EntryView {
                        handle,
                        session: start_transition(old(self)@.sessions[i as int].session, outcomes@),
                    };
                    assert(self.sessions@[i as int]@ == updated);
                    assert(self@.sessions =~= old(self)@.sessions.update(i as int, updated));
                    let v = self@;
                    assert forall|k: int| 0 <= k < v.sessions.len() implies (#[trigger] v.sessions[k]).session.wf()
                        && v.sessions[k].handle < v.next_handle by {
                        if k != i {
                            assert(v.sessions[k] == old(self)@.sessions[k]);
                        }
                    }
                    assert forall|k: int, l: int| 0 <= k < l < v.sessions.len() implies v.sessions[k].handle
                        != v.sessions[l].handle by {
                        assert(v.sessions[k].handle == old(self)@.sessions[k].handle);
                        assert(v.sessions[l].handle == old(self)@.sessions[l].handle);
                    }
                }
                out
            },
            None => {
                let out = StartOutput {
                    response: PortalResponse::Other,
                    streams: Vec::new(),
                    rollback: Vec::new(),
                };
                proof {
                    assert(out.streams@ =~= Seq::<crate::screencast::StreamProps>::empty());
                    assert(out.rollback@ =~= Seq::<u64>::empty());
                }
                out
            },
        }
    }

    /// Closes the session registered under the handle and removes the
    /// handle, whether the close came from the caller, from peer
    /// disconnection, or from a capture-loop failure.  Idempotent: a
    /// handle already removed yields no effects.  The returned effects
    /// start with the `Closed` notification, so it is delivered before
    /// the handle becomes unreachable and before the streams stop.
    pub fn close_session(&mut self, handle: u64) -> (actions: Vec<CloseAction>)
        requires
            old(self)@.wf(),
        ensures
            final(self)@.next_handle == old(self)@.next_handle,
            final(self)@.wf(),
            match index_of_handle(old(self)@.sessions, handle) {
                Some(i) => final(self)@.sessions == old(self)@.sessions.remove(i) && actions@
                    == close_actions(old(self)@.sessions[i].session),
                None => final(self)@.sessions == old(self)@.sessions && actions@ == Seq::<
                    CloseAction,
                >::empty(),
            },
    {
        match self.find_index(handle) {
            Some(i) => {
                proof {
                    assert(self@.sessions[i as int] == self.sessions@[i as int]@);
                }
                let mut entry = self.sessions.remove(i);
                let actions = entry.session.close();
                proof {
                    assert(self@.sessions =~= old(self)@.sessions.remove(i as int));
                    let v = self@;
                    assert forall|k: int| 0 <= k < v.sessions.len() implies (#[trigger] v.sessions[k]).session.wf()
                        && v.sessions[k].handle < v.next_handle by {
                        if k < i {
                            assert(v.sessions[k] == old(self)@.sessions[k]);
                        } else {
                            assert(v.sessions[k] == old(self)@.sessions[k + 1]);
                        }
                    }
                    assert forall|k: int, l: int| 0 <= k < l < v.sessions.len() implies v.sessions[k].handle
                        != v.sessions[l].handle by {
                        let ko: int = if k < i {
                            k
                        } else {
                            k + 1
                        };
                        let lo: int = if l < i {
                            l
                        } else {
                            l + 1
                        };
                        assert(v.sessions[k] == old(self)@.sessions[ko]);
                        assert(v.sessions[l] == old(self)@.sessions[lo]);
                    }
                }
                actions
            },
            None => {
                let actions: Vec<CloseAction> = Vec::new();
                proof {
                    assert(actions@ =~= Seq::<CloseAction>::empty());
                }
                actions
            },
        }
    }
}

} // verus!
