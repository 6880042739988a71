//! The in-flight request handle and its cancellation.
//!
//! Every method call gets a request handle the caller can close to
//! cancel it.  Exactly one response is ever delivered for a request: a
//! close before the underlying operation settles answers `Cancelled`, a
//! close after it settled but before the response went out answers
//! `Other`, and a close after the response was delivered answers
//! nothing more.

use vstd::prelude::*;

use crate::response::PortalResponse;

verus! {

/// Which capture operation the request belongs to.
#[derive(Clone, Copy, Debug, PartialEq, Eq, Structural)]
pub enum RequestKind {
    /// A one-shot still frame.
    Screenshot,
    /// A continuous video feed.
    Screencast,
}

/// Completion state of a request.
#[derive(Clone, Copy, Debug, PartialEq, Eq, Structural)]
pub enum RequestState {
    /// The call is in flight and no response has been delivered.
    Pending,
    /// The single response has been delivered.
    Responded,
    /// The handle was closed.
    Closed,
}

/// A handle for one in-flight call.
#[derive(Clone, Copy, Debug, PartialEq, Eq, Structural)]
pub struct Request {
    pub kind: RequestKind,
    pub state: RequestState,
    /// Whether the underlying operation already completed or failed
    /// independently of the caller.
    pub op_settled: bool,
}

/// The request after a close: closing is terminal, and a request that
/// was still pending will never be responded to normally.
pub open spec fn request_close_transition(r: Request) -> Request {
    match r.state {
        RequestState::Pending => Request { state: RequestState::Closed, ..r },
        RequestState::Responded => Request { state: RequestState::Closed, ..r },
        RequestState::Closed => r,
    }
}

/// What response a close delivers: the pending call answers `Cancelled`
/// while the operation is still in flight, `Other` once it completed or
/// failed independently, and nothing if its one response already went
/// out.
pub open spec fn request_close_response(r: Request) -> Option<PortalResponse> {
    match r.state {
        RequestState::Pending => {
            if r.op_settled {
                Some(PortalResponse::Other)
            } else {
                Some(PortalResponse::Cancelled)
            }
        },
        RequestState::Responded => None,
        RequestState::Closed => None,
    }
}

impl Request {
    /// A fresh handle for a call that was just invoked.
    pub fn new(kind: RequestKind) -> (r: Request)
        ensures
            r == (Request { kind, state: RequestState::Pending, op_settled: false }),
    {
        Request { kind, state: RequestState::Pending, op_settled: false }
    }

    /// Records that the underlying operation completed or failed on its
    /// own, before any response was delivered.
    pub fn settle(&mut self)
        ensures
            *final(self) == (Request { op_settled: true, ..*old(self) }),
    {
        self.op_settled = true;
    }

    /// Delivers the single normal response of the call.
    pub fn respond(&mut self)
        requires
            old(self).state is Pending,
        ensures
            *final(self) == (Request { state: RequestState::Responded, ..*old(self) }),
    {
        self.state = RequestState::Responded;
    }

    /// Closes the handle, cancelling the call as far as it has not been
    /// answered.  Returns the response the pending call must be given,
    /// if one is still owed.
    pub fn close(&mut self) -> (resp: Option<PortalResponse>)
        ensures
            *final(self) == request_close_transition(*old(self)),
            resp == request_close_response(*old(self)),
    {
        match self.state {
            RequestState::Pending => {
                self.state = RequestState::Closed;
                if self.op_settled {
                    Some(PortalResponse::Other)
                } else {
                    Some(PortalResponse::Cancelled)
                }
            },
            RequestState::Responded => {
                self.state = RequestState::Closed;
                None
            },
            RequestState::Closed => None,
        }
    }
}

/// Law: whatever is done to a request, at most one response is ever
/// delivered — once it is `Responded` or `Closed`, a close hands out
/// nothing further.
pub proof fn lemma_request_responds_at_most_once(r: Request)
    requires
        !(r.state is Pending),
    ensures
        request_close_response(r) is None,
        request_close_response(request_close_transition(r)) is None,
{
}

/// One registered request and its externally visible handle.
#[derive(Clone, Copy, Debug, PartialEq, Eq, Structural)]
pub struct RequestEntry {
    pub handle: u64,
    pub request: Request,
}

/// The registry of in-flight requests.  Handles are issued from a
/// counter and never reused; a request leaves the registry when it is
/// closed, so closing is idempotent.
#[derive(Debug)]
pub struct RequestRegistry {
    pub next_handle: u64,
    pub requests: Vec<RequestEntry>,
}

/// Every handle was issued below the counter and no two entries share
/// one.
pub open spec fn request_registry_wf(requests: Seq<RequestEntry>, next_handle: u64) -> bool {
    &&& forall|i: int|
        0 <= i < requests.len() ==> (#[trigger] requests[i]).handle < next_handle
    &&& forall|i: int, j: int|
        0 <= i < j < requests.len() ==> requests[i].handle != requests[j].handle
}

/// The position of the request registered under a handle, if any.
pub open spec fn request_index_of(s: Seq<RequestEntry>, h: u64) -> Option<int>
    decreases s.len(),
{
    if s.len() == 0 {
        None
    } else if s.first().handle == h {
        Some(0)
    } else {
        match request_index_of(s.drop_first(), h) {
            Some(i) => Some(i + 1),
            None => None,
        }
    }
}

/// A linear scan that stops at the first hit finds exactly
/// `request_index_of`.
proof fn lemma_request_index_found(s: Seq<RequestEntry>, h: u64, i: int)
    requires
        0 <= i < s.len(),
        s[i].handle == h,
        forall|j: int| 0 <= j < i ==> s[j].handle != h,
    ensures
        request_index_of(s, h) == Some(i),
    decreases s.len(),
{
    if i > 0 {
        assert(s.first().handle != h);
        assert(s.drop_first()[i - 1] == s[i]);
        assert forall|j: int| 0 <= j < i - 1 implies s.drop_first()[j].handle != h by {
            assert(s.drop_first()[j] == s[j + 1]);
        }
        lemma_request_index_found(s.drop_first(), h, i - 1);
    }
}

/// A handle no entry carries is not found.
proof fn lemma_request_index_absent(s: Seq<RequestEntry>, h: u64)
    requires
        forall|j: int| 0 <= j < s.len() ==> s[j].handle != h,
    ensures
        request_index_of(s, h) is None,
    decreases s.len(),
{
    if s.len() > 0 {
        assert forall|j: int| 0 <= j < s.drop_first().len() implies s.drop_first()[j].handle != h by {
            assert(s.drop_first()[j] == s[j + 1]);
        }
        lemma_request_index_absent(s.drop_first(), h);
    }
}

impl RequestRegistry {
    /// A registry with no requests in flight.
    pub fn new() -> (r: RequestRegistry)
        ensures
            r.next_handle == 0,
            r.requests@ == Seq::<RequestEntry>::empty(),
            request_registry_wf(r.requests@, r.next_handle),
    {
        let r = RequestRegistry { next_handle: 0, requests: Vec::new() };
        proof {
            assert(r.requests@ =~= Seq::<RequestEntry>::empty());
        }
        r
    }

    /// Finds the registry position of a handle.
    fn find_index(&self, handle: u64) -> (r: Option<usize>)
        ensures
            match r {
                Some(i) => 0 <= i < self.requests@.len() && self.requests@[i as int].handle
                    == handle && request_index_of(self.requests@, handle) == Some(i as int),
                None => request_index_of(self.requests@, handle) is None,
            },
    {
        let mut i: usize = 0;
        while i < self.requests.len()
            invariant
                i <= self.requests.len(),
                forall|j: int| 0 <= j < i ==> self.requests@[j].handle != handle,
            decreases self.requests.len() - i,
        {
            if self.requests[i].handle == handle {
                proof {
                    lemma_request_index_found(self.requests@, handle, i as int);
                }
                return Some(i);
            }
            i = i + 1;
        }
        proof {
            lemma_request_index_absent(self.requests@, handle);
        }
        None
    }

    /// Registers a fresh pending request for one invocation and returns
    /// its handle.
    pub fn register(&mut self, kind: RequestKind) -> (handle: u64)
        requires
            request_registry_wf(old(self).requests@, old(self).next_handle),
            old(self).next_handle < u64::MAX,
        ensures
            handle == old(self).next_handle,
            final(self).next_handle == old(self).next_handle + 1,
            final(self).requests@ == old(self).requests@.push(
                RequestEntry {
                    handle,
                    request: Request { kind, state: RequestState::Pending, op_settled: false },
                },
            ),
            request_registry_wf(final(self).requests@, final(self).next_handle),
    {
        let handle = self.next_handle;
        self.next_handle = self.next_handle + 1;
        let request = Request::new(kind);
        self.requests.push(RequestEntry { handle, request });
        proof {
            let rs = self.requests@;
            assert forall|i: int, j: int| 0 <= i < j < rs.len() implies rs[i].handle
                != rs[j].handle by {
                if j == rs.len() - 1 {
                    assert(rs[i] == old(self).requests@[i]);
                    assert(rs[i].handle < old(self).next_handle);
                }
            }
        }
        handle
    }

    /// Looks a handle up and reports the state of its request.
    pub fn lookup(&self, handle: u64) -> (r: Option<RequestState>)
        ensures
            r == match request_index_of(self.requests@, handle) {
                Some(i) => Some(self.requests@[i].request.state),
                None => None::<RequestState>,
            },
    {
        match self.find_index(handle) {
            Some(i) => Some(self.requests[i].request.state),
            None => None,
        }
    }

    /// Closes the request registered under the handle, removes the
    /// handle, and returns the response still owed to the pending call,
    /// if any.  Idempotent: a handle already removed yields nothing.
    pub fn close(&mut self, handle: u64) -> (resp: Option<PortalResponse>)
        requires
            request_registry_wf(old(self).requests@, old(self).next_handle),
        ensures
            final(self).next_handle == old(self).next_handle,
            request_registry_wf(final(self).requests@, final(self).next_handle),
            match request_index_of(old(self).requests@, handle) {
                Some(i) => final(self).requests@ == old(self).requests@.remove(i) && resp
                    == request_close_response(old(self).requests@[i].request),
                None => final(self).requests@ == old(self).requests@ && resp is None,
            },
    {
        match self.find_index(handle) {
            Some(i) => {
                let mut entry = self.requests.remove(i);
                let resp = entry.request.close();
                proof {
                    let rs = self.requests@;
                    assert forall|k: int| 0 <= k < rs.len() implies (#[trigger] rs[k]).handle
                        < self.next_handle by {
                        if k < i {
                            assert(rs[k] == old(self).requests@[k]);
                        } else {
                            assert(rs[k] == old(self).requests@[k + 1]);
                        }
                    }
                    assert forall|k: int, l: int| 0 <= k < l < rs.len() implies rs[k].handle
                        != rs[l].handle by {
                        let ko: int = if k < i {
                            k
                        } else {
                            k + 1
                        };
                        let lo: int = if l < i {
                            l
                        } else {
                            l + 1
                        };
                        assert(rs[k] == old(self).requests@[ko]);
                        assert(rs[l] == old(self).requests@[lo]);
                    }
                }
                resp
            },
            None => None,
        }
    }
}

} // verus!
