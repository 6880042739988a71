//! The capture session and its close-once lifecycle.
//!
//! A session spans `SelectSources`, `Start` and `Close`.  Its close
//! notifier is a take-once value: however many times `close` is invoked,
//! the notification and its side effects happen exactly once, in a fixed
//! order — notify the caller, remove the externally visible handle, stop
//! every owned stream.  The verified `close` returns that ordered list of
//! effects; the unverified rim performs them against the transport.

use vstd::prelude::*;

use crate::sources::SelectionView;
use crate::sources::SourceSelection;

verus! {

/// Lifecycle of a session, from creation to its single close.
#[derive(Clone, Copy, Debug, PartialEq, Eq, Structural)]
pub enum SessionState {
    New,
    SourcesSelected,
    Started,
    Closed,
}

/// Lifecycle of one stream.
#[derive(Clone, Copy, Debug, PartialEq, Eq, Structural)]
pub enum StreamState {
    Negotiating,
    Active,
    Stopped,
    Failed,
}

/// One stream owned by a started session: the source it captures and
/// the streaming endpoint negotiated for it.
#[derive(Clone, Copy, Debug, PartialEq, Eq, Structural)]
pub struct Stream {
    pub source_id: u64,
    pub endpoint_id: u64,
    pub width: u32,
    pub height: u32,
    pub format: u32,
    pub state: StreamState,
}

/// One side effect of closing a session.  The effects of a close must be
/// performed in the order in which `Session::close` lists them.
#[derive(Clone, Copy, Debug, PartialEq, Eq, Structural)]
pub enum CloseAction {
    /// Emit the `Closed` notification to the caller.
    EmitClosed,
    /// Remove the session's externally visible handle.
    RemoveHandle,
    /// Send `Stop` to the capture loop of this endpoint and wait for it,
    /// with a bounded timeout, proceeding regardless.
    StopStream { endpoint_id: u64 },
}

/// A capture session.
#[derive(Debug)]
pub struct Session {
    pub state: SessionState,
    /// The take-once close notifier: present until the session closes.
    pub notifier_present: bool,
    /// The stored source selection, set by a successful `SelectSources`.
    pub selection: Option<SourceSelection>,
    /// The streams spawned by a successful `Start`.
    pub streams: Vec<Stream>,
    /// Opaque token allowing a later session to reuse this grant.
    pub restore_token: Option<u64>,
    /// Whether the caller asked the grant to be persisted.
    pub persist: bool,
    /// Whether a `Start` attempt has ever been admitted on this session.
    pub start_invoked: bool,
}

/// Mathematical model of a session.
#[verifier::ext_equal]
pub struct SessionView {
    pub state: SessionState,
    pub notifier_present: bool,
    pub selection: Option<SelectionView>,
    pub streams: Seq<Stream>,
    pub restore_token: Option<u64>,
    pub persist: bool,
    pub start_invoked: bool,
}

impl View for Session {
    type V = SessionView;

    open spec fn view(&self) -> SessionView {
        SessionView {
            state: self.state,
            notifier_present: self.notifier_present,
            selection: match self.selection {
                Some(sel) => Some(sel@),
                None => None,
            },
            streams: self.streams@,
            restore_token: self.restore_token,
            persist: self.persist,
            start_invoked: self.start_invoked,
        }
    }
}

impl SessionView {
    /// Structural invariant of every session the library hands out:
    /// a selection exists from `SourcesSelected` on, streams exist only
    /// while started, and the close notifier is present exactly until
    /// the session closes.
    pub open spec fn wf(self) -> bool {
        &&& (self.state is New ==> self.selection is None && self.streams.len() == 0
            && !self.start_invoked)
        &&& (self.state is SourcesSelected ==> self.selection is Some && self.streams.len() == 0)
        &&& (self.state is Started ==> self.selection is Some && self.start_invoked)
        &&& (self.state is Closed ==> self.streams.len() == 0)
        &&& (self.notifier_present <==> !(self.state is Closed))
        &&& (self.selection matches Some(sel) ==> sel.wf())
    }
}

/// The session a fresh `CreateSession` registers.
pub open spec fn new_session_view() -> SessionView {
    SessionView {
        state: SessionState::New,
        notifier_present: true,
        selection: None,
        streams: Seq::empty(),
        restore_token: None,
        persist: false,
        start_invoked: false,
    }
}

/// The session after a close: on the first close everything owned is
/// released and the restore token survives only a persisted grant;
/// any later close changes nothing.
pub open spec fn close_transition(s: SessionView) -> SessionView {
    if s.state is Closed {
        s
    } else {
        SessionView {
            state: SessionState::Closed,
            notifier_present: false,
            selection: None,
            streams: Seq::empty(),
            restore_token: if s.persist {
                s.restore_token
            } else {
                None
            },
            persist: s.persist,
            start_invoked: s.start_invoked,
        }
    }
}

/// The ordered side effects of a close: notify, then unpublish the
/// handle, then stop each owned stream in order — and nothing at all
/// on a session already closed.
pub open spec fn close_actions(s: SessionView) -> Seq<CloseAction> {
    if s.state is Closed {
        Seq::empty()
    } else {
        seq![CloseAction::EmitClosed, CloseAction::RemoveHandle]
            + s.streams.map_values(|st: Stream| CloseAction::StopStream { endpoint_id: st.endpoint_id })
    }
}

impl Session {
    /// Registers a fresh session with its close notifier still unconsumed.
    pub fn new() -> (s: Session)
        ensures
            s@ == new_session_view(),
            s@.wf(),
    {
        let s = Session {
            state: SessionState::New,
            notifier_present: true,
            selection: None,
            streams: Vec::new(),
            restore_token: None,
            persist: false,
            start_invoked: false,
        };
        proof {
            assert(s@ =~= new_session_view());
        }
        s
    }

    /// The constant interface version this session object reports.
    pub fn version(&self) -> (v: u32)
        ensures
            v == 1,
    {
        1
    }

    /// Closes the session.  Idempotent: only the first call consumes the
    /// notifier and yields effects; a second call is a no-op, not an error.
    pub fn close(&mut self) -> (actions: Vec<CloseAction>)
        requires
            old(self)@.wf(),
        ensures
            final(self)@ == close_transition(old(self)@),
            actions@ == close_actions(old(self)@),
            final(self)@.wf(),
    {
        if self.state == SessionState::Closed {
            let actions: Vec<CloseAction> = Vec::new();
            proof {
                assert(actions@ =~= close_actions(self@));
            }
            actions
        } else {
            let mut actions: Vec<CloseAction> = Vec::new();
            actions.push(CloseAction::EmitClosed);
            actions.push(CloseAction::RemoveHandle);
            let mut i: usize = 0;
            while i < self.streams.len()
                invariant
                    i <= self.streams.len(),
                    actions@ == seq![CloseAction::EmitClosed, CloseAction::RemoveHandle]
                        + self.streams@.subrange(0, i as int).map_values(
                            |st: Stream| CloseAction::StopStream { endpoint_id: st.endpoint_id },
                        ),
                decreases self.streams.len() - i,
            {
                let st = self.streams[i];
                actions.push(CloseAction::StopStream { endpoint_id: st.endpoint_id });
                proof {
                    assert(self.streams@.subrange(0, i + 1).drop_last()
                        =~= self.streams@.subrange(0, i as int));
                    assert(self.streams@.subrange(0, i + 1).map_values(
                        |st: Stream| CloseAction::StopStream { endpoint_id: st.endpoint_id },
                    ) =~= self.streams@.subrange(0, i as int).map_values(
                        |st: Stream| CloseAction::StopStream { endpoint_id: st.endpoint_id },
                    ).push(CloseAction::StopStream { endpoint_id: self.streams@[i as int].endpoint_id }));
                }
                i = i + 1;
            }
            proof {
                assert(self.streams@.subrange(0, self.streams@.len() as int) =~= self.streams@);
                assert(actions@ =~= close_actions(old(self)@));
            }
            self.state = SessionState::Closed;
            self.notifier_present = false;
            self.selection = None;
            self.streams = Vec::new();
            if !self.persist {
                self.restore_token = None;
            }
            proof {
                assert(self@ =~= close_transition(old(self)@));
            }
            actions
        }
    }
}

/// How many `EmitClosed` notifications a list of close effects carries.
pub open spec fn emit_count(actions: Seq<CloseAction>) -> nat
    decreases actions.len(),
{
    if actions.len() == 0 {
        0
    } else {
        emit_count(actions.drop_last()) + if actions.last() is EmitClosed {
            1nat
        } else {
            0nat
        }
    }
}

/// A list without any `EmitClosed` carries none.
proof fn lemma_emit_count_zero(actions: Seq<CloseAction>)
    requires
        forall|i: int| 0 <= i < actions.len() ==> !(actions[i] is EmitClosed),
    ensures
        emit_count(actions) == 0,
    decreases actions.len(),
{
    if actions.len() > 0 {
        lemma_emit_count_zero(actions.drop_last());
    }
}

/// Emit counts add up over concatenation.
proof fn lemma_emit_count_add(a: Seq<CloseAction>, b: Seq<CloseAction>)
    ensures
        emit_count(a + b) == emit_count(a) + emit_count(b),
    decreases b.len(),
{
    if b.len() == 0 {
        assert(a + b =~= a);
    } else {
        assert((a + b).drop_last() =~= a + b.drop_last());
        lemma_emit_count_add(a, b.drop_last());
    }
}

/// One close of a session that is not yet closed notifies exactly once.
proof fn lemma_close_actions_emit_once(s: SessionView)
    requires
        !(s.state is Closed),
    ensures
        emit_count(close_actions(s)) == 1,
{
    let head = seq![CloseAction::EmitClosed, CloseAction::RemoveHandle];
    let stops = s.streams.map_values(
        |st: Stream| CloseAction::StopStream { endpoint_id: st.endpoint_id },
    );
    let single = seq![CloseAction::EmitClosed];
    assert(single.drop_last() =~= Seq::<CloseAction>::empty());
    assert(emit_count(Seq::<CloseAction>::empty()) == 0);
    assert(single.last() is EmitClosed);
    assert(emit_count(single) == 1);
    assert(head.drop_last() =~= single);
    assert(!(head.last() is EmitClosed));
    assert(emit_count(head) == 1);
    lemma_emit_count_zero(stops);
    lemma_emit_count_add(head, stops);
}

/// The session after `n` successive closes.
pub open spec fn close_n_transition(s: SessionView, n: nat) -> SessionView
    decreases n,
{
    if n == 0 {
        s
    } else {
        close_n_transition(close_transition(s), (n - 1) as nat)
    }
}

/// The total number of close notifications emitted over `n` successive closes.
pub open spec fn close_n_emits(s: SessionView, n: nat) -> nat
    decreases n,
{
    if n == 0 {
        0
    } else {
        emit_count(close_actions(s)) + close_n_emits(close_transition(s), (n - 1) as nat)
    }
}

/// Law: however many times a live session is closed, the close notifier
/// and its side effects are triggered exactly once, and the session ends
/// up closed.
pub proof fn lemma_close_exactly_once(s: SessionView, n: nat)
    requires
        !(s.state is Closed),
        n >= 1,
    ensures
        close_n_emits(s, n) == 1,
        close_n_transition(s, n).state is Closed,
    decreases n,
{
    lemma_close_actions_emit_once(s);
    lemma_closed_session_emits_nothing(close_transition(s), (n - 1) as nat);
}

/// Law: a session already closed emits nothing, however often it is
/// closed again.
pub proof fn lemma_closed_session_emits_nothing(s: SessionView, n: nat)
    requires
        s.state is Closed,
    ensures
        close_n_emits(s, n) == 0,
        close_n_transition(s, n) == s,
    decreases n,
{
    if n > 0 {
        lemma_closed_session_emits_nothing(close_transition(s), (n - 1) as nat);
    }
}

} // verus!
