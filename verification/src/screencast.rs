//! The screencast state machine: source selection and start.
//!
//! A session moves `New -> SourcesSelected -> Started`, with `Closed`
//! reachable from anywhere.  `select_sources` validates the caller's
//! options, matches them against the compositor's capturable sources and
//! stores the selection; `start` walks the selection in order, taking one
//! negotiation outcome per source from the streaming transport, and on
//! the first failure rolls back every capture loop already spawned in the
//! same call, so that no partially started session is ever left behind.

use vstd::prelude::*;

use crate::response::PortalResponse;
use crate::session::Session;
use crate::session::SessionState;
use crate::session::SessionView;
use crate::session::Stream;
use crate::session::StreamState;
use crate::sources::cursor_mode_is_valid;
use crate::sources::cursor_mode_valid;
use crate::sources::collect_matching;
use crate::sources::matching_sources;
use crate::sources::SelectionView;
use crate::sources::SelectSourcesOptions;
use crate::sources::SourceDescriptor;
use crate::sources::SourceSelection;
use crate::sources::types_are_valid;
use crate::sources::types_valid;

verus! {

/// Why negotiating one source failed.
#[derive(Clone, Copy, Debug, PartialEq, Eq, Structural)]
pub enum FailureClass {
    /// The compositor denied or dropped the capture.
    Compositor,
    /// The streaming endpoint could not be set up.
    Negotiation,
    /// The user or the backend declined the source.
    Declined,
}

/// The negotiated properties of one streaming endpoint.
#[derive(Clone, Copy, Debug, PartialEq, Eq, Structural)]
pub struct StreamProps {
    pub endpoint_id: u64,
    pub width: u32,
    pub height: u32,
    pub format: u32,
}

/// What the stream negotiator answered for one source.
#[derive(Clone, Copy, Debug, PartialEq, Eq, Structural)]
pub enum NegotiationOutcome {
    Negotiated(StreamProps),
    Failed(FailureClass),
}

/// The answer of one `Start` call.  `rollback` lists the endpoints whose
/// capture loops must be stopped, in order, before the response is
/// delivered; it is empty unless the call failed part-way.
#[derive(Debug)]
pub struct StartOutput {
    pub response: PortalResponse,
    pub streams: Vec<StreamProps>,
    pub rollback: Vec<u64>,
}

/// Both option values of a `SelectSources` call are within range.
pub open spec fn options_valid(opts: SelectSourcesOptions) -> bool {
    types_valid(opts.types) && cursor_mode_valid(opts.cursor_mode)
}

/// The targets a valid `SelectSources` call stores: every match when
/// multiple sources are allowed, otherwise only the first.
pub open spec fn chosen_targets(avail: Seq<SourceDescriptor>, opts: SelectSourcesOptions) -> Seq<
    SourceDescriptor,
> {
    let m = matching_sources(avail, opts.types);
    if opts.multiple {
        m
    } else {
        m.subrange(0, 1)
    }
}

/// The session after a `SelectSources` call: unchanged unless the session
/// is `New`, the options are valid and at least one source matches.
pub open spec fn select_transition(
    s: SessionView,
    opts: SelectSourcesOptions,
    avail: Seq<SourceDescriptor>,
) -> SessionView {
    if !(s.state is New) {
        s
    } else if !options_valid(opts) {
        s
    } else if matching_sources(avail, opts.types).len() == 0 {
        s
    } else {
        SessionView {
            state: SessionState::SourcesSelected,
            selection: Some(
                SelectionView { targets: chosen_targets(avail, opts), cursor_mode: opts.cursor_mode },
            ),
            restore_token: opts.restore_token,
            persist: opts.persist,
            ..s
        }
    }
}

/// The response of a `SelectSources` call: a state error and an invalid
/// option answer `Other`; an empty match is the user's environment, not a
/// fault, and answers `Cancelled`; otherwise `Success`.
pub open spec fn select_response(
    s: SessionView,
    opts: SelectSourcesOptions,
    avail: Seq<SourceDescriptor>,
) -> PortalResponse {
    if !(s.state is New) {
        PortalResponse::Other
    } else if !options_valid(opts) {
        PortalResponse::Other
    } else if matching_sources(avail, opts.types).len() == 0 {
        PortalResponse::Cancelled
    } else {
        PortalResponse::Success
    }
}

/// A session admits a `Start` attempt only once, and only once its
/// sources are selected.
pub open spec fn start_ready(s: SessionView) -> bool {
    s.state is SourcesSelected && !s.start_invoked
}

/// The stored selection's targets, empty when no selection is stored.
pub open spec fn selection_targets(s: SessionView) -> Seq<SourceDescriptor> {
    match s.selection {
        Some(sel) => sel.targets,
        None => Seq::empty(),
    }
}

/// The endpoint properties a successful outcome carries.
pub open spec fn props_of(o: NegotiationOutcome) -> StreamProps
    recommends
        o is Negotiated,
{
    match o {
        NegotiationOutcome::Negotiated(p) => p,
        NegotiationOutcome::Failed(_) => StreamProps { endpoint_id: 0, width: 0, height: 0, format: 0 },
    }
}

/// The properties of every outcome, in order.
pub open spec fn outcome_props(outs: Seq<NegotiationOutcome>) -> Seq<StreamProps> {
    outs.map_values(|o: NegotiationOutcome| props_of(o))
}

/// The endpoints spawned before the failing outcome, in selection order.
pub open spec fn rollback_endpoints(outs: Seq<NegotiationOutcome>) -> Seq<u64> {
    outs.drop_last().map_values(|o: NegotiationOutcome| props_of(o).endpoint_id)
}

/// Negotiation walks the selection in order and stops at the first
/// failure, so `Start` receives one outcome per source up to and
/// including the first failed one: every outcome but the last succeeded,
/// and only a trailing failure may cut the list short.
pub open spec fn outcome_shape(outs: Seq<NegotiationOutcome>, n: nat) -> bool {
    &&& outs.len() <= n
    &&& (forall|i: int| 0 <= i < outs.len() - 1 ==> outs[i] is Negotiated)
    &&& (outs.len() < n ==> outs.len() > 0 && outs.last() is Failed)
}

/// Whether the negotiation ended in a failure.
pub open spec fn has_failure(outs: Seq<NegotiationOutcome>) -> bool {
    outs.len() > 0 && outs.last() is Failed
}

/// How a failed negotiation is surfaced: a declined source is the user's
/// choice and answers `Cancelled`; a compositor or endpoint fault answers
/// `Other`.
pub open spec fn failure_response(c: FailureClass) -> PortalResponse {
    match c {
        FailureClass::Declined => PortalResponse::Cancelled,
        FailureClass::Compositor => PortalResponse::Other,
        FailureClass::Negotiation => PortalResponse::Other,
    }
}

/// The streams a fully successful `Start` attaches to the session: one
/// active stream per selected source, bound to its negotiated endpoint.
pub open spec fn success_streams(s: SessionView, outs: Seq<NegotiationOutcome>) -> Seq<Stream> {
    Seq::new(
        outs.len(),
        |i: int|
            Stream {
                source_id: selection_targets(s)[i].id,
                endpoint_id: props_of(outs[i]).endpoint_id,
                width: props_of(outs[i]).width,
                height: props_of(outs[i]).height,
                format: props_of(outs[i]).format,
                state: StreamState::Active,
            },
    )
}

/// The session after a `Start` call: unchanged unless the attempt is
/// admitted; an admitted attempt is never repeatable; only a fully
/// successful one attaches streams and moves the session to `Started`.
pub open spec fn start_transition(s: SessionView, outs: Seq<NegotiationOutcome>) -> SessionView {
    if !start_ready(s) {
        s
    } else if has_failure(outs) {
        SessionView { start_invoked: true, ..s }
    } else {
        SessionView {
            state: SessionState::Started,
            start_invoked: true,
            streams: success_streams(s, outs),
            ..s
        }
    }
}

/// The response of a `Start` call.
pub open spec fn start_response(s: SessionView, outs: Seq<NegotiationOutcome>) -> PortalResponse {
    if !start_ready(s) {
        PortalResponse::Other
    } else if has_failure(outs) {
        match outs.last() {
            NegotiationOutcome::Failed(c) => failure_response(c),
            NegotiationOutcome::Negotiated(_) => PortalResponse::Other,
        }
    } else {
        PortalResponse::Success
    }
}

/// The `(endpoint, properties)` list a `Start` call returns: one entry
/// per source on full success, nothing otherwise.
pub open spec fn start_streams_out(s: SessionView, outs: Seq<NegotiationOutcome>) -> Seq<
    StreamProps,
> {
    if start_ready(s) && !has_failure(outs) {
        outcome_props(outs)
    } else {
        Seq::empty()
    }
}

/// The capture loops a failed `Start` stops before it responds.
pub open spec fn start_rollback(s: SessionView, outs: Seq<NegotiationOutcome>) -> Seq<u64> {
    if start_ready(s) && has_failure(outs) {
        rollback_endpoints(outs)
    } else {
        Seq::empty()
    }
}

impl Session {
    /// Validates and stores the caller's source selection.
    ///
    /// `available` is the compositor's current list of capturable
    /// sources, as the unverified rim enumerated it.  A session that is
    /// not `New` answers a state error and is left untouched; invalid
    /// options answer `Other`; an empty match answers `Cancelled` and
    /// leaves the session `New`.
    pub fn select_sources(
        &mut self,
        opts: SelectSourcesOptions,
        available: &Vec<SourceDescriptor>,
    ) -> (r: PortalResponse)
        requires
            old(self)@.wf(),
        ensures
            final(self)@ == select_transition(old(self)@, opts, available@),
            r == select_response(old(self)@, opts, available@),
            final(self)@.wf(),
    {
        if !(self.state == SessionState::New) {
            return PortalResponse::Other;
        }
        if !types_are_valid(opts.types) || !cursor_mode_is_valid(opts.cursor_mode) {
            return PortalResponse::Other;
        }
        let mut targets = collect_matching(available, opts.types);
        if targets.len() == 0 {
            return PortalResponse::Cancelled;
        }
        if !opts.multiple {
            let first = targets[0];
            let mut one: Vec<SourceDescriptor> = Vec::new();
            one.push(first);
            targets = one;
            proof {
                assert(targets@ =~= matching_sources(available@, opts.types).subrange(0, 1));
            }
        }
        self.selection = Some(SourceSelection { targets, cursor_mode: opts.cursor_mode });
        self.restore_token = opts.restore_token;
        self.persist = opts.persist;
        self.state = SessionState::SourcesSelected;
        proof {
            assert(self@ =~= select_transition(old(self)@, opts, available@));
        }
        PortalResponse::Success
    }

    /// Starts the session: one negotiation outcome per selected source,
    /// in selection order, as the streaming transport answered them.
    ///
    /// On a trailing failure every capture loop spawned earlier in this
    /// same call is listed for rollback, no stream stays attached, and
    /// the attempt is spent; only full success attaches the streams and
    /// moves the session to `Started`.
    #[verifier::loop_isolation(false)]
    pub fn start(&mut self, outcomes: &Vec<NegotiationOutcome>) -> (out: StartOutput)
        requires
            old(self)@.wf(),
            start_ready(old(self)@) ==> outcome_shape(
                outcomes@,
                selection_targets(old(self)@).len(),
            ),
        ensures
            final(self)@ == start_transition(old(self)@, outcomes@),
            out.response == start_response(old(self)@, outcomes@),
            out.streams@ == start_streams_out(old(self)@, outcomes@),
            out.rollback@ == start_rollback(old(self)@, outcomes@),
            final(self)@.wf(),
    {
        if !(self.state == SessionState::SourcesSelected) || self.start_invoked {
            return StartOutput {
                response: PortalResponse::Other,
                streams: Vec::new(),
                rollback: Vec::new(),
            };
        }
        proof {
            assert(selection_targets(self@).len() >= 1);
            assert(outcomes@.len() >= 1);
        }
        let n_out = outcomes.len();
        let last = outcomes[n_out - 1];
        match last {
            NegotiationOutcome::Failed(class) => {
                let mut rollback: Vec<u64> = Vec::new();
                let mut i: usize = 0;
                while i < n_out - 1
                    invariant
                        i <= n_out - 1,
                        rollback@ == outcomes@.subrange(0, i as int).map_values(
                            |o: NegotiationOutcome| props_of(o).endpoint_id,
                        ),
                    decreases n_out - 1 - i,
                {
                    let endpoint = match outcomes[i] {
                        NegotiationOutcome::Negotiated(p) => p.endpoint_id,
                        NegotiationOutcome::Failed(_) => {
                            proof {
                                assert(false);
                            }
                            0
                        },
                    };
                    rollback.push(endpoint);
                    proof {
                        assert(outcomes@.subrange(0, i + 1).drop_last()
                            =~= outcomes@.subrange(0, i as int));
                        assert(outcomes@.subrange(0, i + 1).map_values(
                            |o: NegotiationOutcome| props_of(o).endpoint_id,
                        ) =~= outcomes@.subrange(0, i as int).map_values(
                            |o: NegotiationOutcome| props_of(o).endpoint_id,
                        ).push(props_of(outcomes@[i as int]).endpoint_id));
                    }
                    i = i + 1;
                }
                self.start_invoked = true;
                let response = match class {
                    FailureClass::Declined => PortalResponse::Cancelled,
                    FailureClass::Compositor => PortalResponse::Other,
                    FailureClass::Negotiation => PortalResponse::Other,
                };
                proof {
                    assert(outcomes@.subrange(0, n_out - 1) =~= outcomes@.drop_last());
                    assert(rollback@ =~= start_rollback(old(self)@, outcomes@));
                    assert(self@ =~= start_transition(old(self)@, outcomes@));
                }
                StartOutput { response, streams: Vec::new(), rollback }
            },
            NegotiationOutcome::Negotiated(_) => {
                proof {
                    assert(!has_failure(outcomes@));
                    assert(outcomes@.len() == selection_targets(self@).len());
                }
                let mut props: Vec<StreamProps> = Vec::new();
                let mut new_streams: Vec<Stream> = Vec::new();
                let mut i: usize = 0;
                while i < n_out
                    invariant
                        i <= n_out,
                        props@ == outcome_props(outcomes@.subrange(0, i as int)),
                        new_streams@ == success_streams(old(self)@, outcomes@).subrange(
                            0,
                            i as int,
                        ),
                    decreases n_out - i,
                {
                    proof {
                        if i < n_out - 1 {
                            assert(outcomes@[i as int] is Negotiated);
                        }
                    }
                    let p = match outcomes[i] {
                        NegotiationOutcome::Negotiated(p) => p,
                        NegotiationOutcome::Failed(_) => {
                            proof {
                                assert(false);
                            }
                            StreamProps { endpoint_id: 0, width: 0, height: 0, format: 0 }
                        },
                    };
                    let source_id = match &self.selection {
                        Some(sel) => sel.targets[i].id,
                        None => {
                            proof {
                                assert(false);
                            }
                            0
                        },
                    };
                    props.push(p);
                    new_streams.push(
                        Stream {
                            source_id,
                            endpoint_id: p.endpoint_id,
                            width: p.width,
                            height: p.height,
                            format: p.format,
                            state: StreamState::Active,
                        },
                    );
                    proof {
                        assert(outcome_props(outcomes@.subrange(0, i + 1))
                            =~= outcome_props(outcomes@.subrange(0, i as int)).push(
                            props_of(outcomes@[i as int]),
                        ));
                        assert(success_streams(old(self)@, outcomes@).subrange(0, i + 1)
                            =~= success_streams(old(self)@, outcomes@).subrange(0, i as int).push(
                            success_streams(old(self)@, outcomes@)[i as int],
                        ));
                    }
                    i = i + 1;
                }
                self.start_invoked = true;
                self.state = SessionState::Started;
                self.streams = new_streams;
                proof {
                    assert(outcomes@.subrange(0, outcomes@.len() as int) =~= outcomes@);
                    assert(props@ =~= start_streams_out(old(self)@, outcomes@));
                    assert(self@.streams =~= success_streams(old(self)@, outcomes@));
                    assert(self@ =~= start_transition(old(self)@, outcomes@));
                }
                StartOutput { response: PortalResponse::Success, streams: props, rollback: Vec::new() }
            },
        }
    }
}

/// Law: once a `SelectSources` call has succeeded, a second call always
/// answers a state error and leaves the stored selection — indeed the
/// whole session — exactly as the first call left it.
pub proof fn lemma_select_sources_twice(
    s: SessionView,
    o1: SelectSourcesOptions,
    a1: Seq<SourceDescriptor>,
    o2: SelectSourcesOptions,
    a2: Seq<SourceDescriptor>,
)
    requires
        select_response(s, o1, a1) == PortalResponse::Success,
    ensures
        select_response(select_transition(s, o1, a1), o2, a2) == PortalResponse::Other,
        select_transition(select_transition(s, o1, a1), o2, a2) == select_transition(s, o1, a1),
{
}

/// Law: `Start` before a successful `SelectSources` always answers a
/// state error, changes nothing, and creates zero streams.
pub proof fn lemma_start_before_select(s: SessionView, outs: Seq<NegotiationOutcome>)
    requires
        s.wf(),
        s.state is New,
    ensures
        start_response(s, outs) == PortalResponse::Other,
        start_transition(s, outs) == s,
        start_transition(s, outs).streams.len() == 0,
{
}

/// Law: when negotiation fails at any position, every capture loop
/// spawned earlier in the same `Start` call — and no other — is listed
/// for rollback, in order, before the response, and zero streams remain
/// attached to the session.
pub proof fn lemma_start_failure_rolls_back(s: SessionView, outs: Seq<NegotiationOutcome>)
    requires
        s.wf(),
        start_ready(s),
        outcome_shape(outs, selection_targets(s).len()),
        has_failure(outs),
    ensures
        start_transition(s, outs).streams.len() == 0,
        start_response(s, outs) != PortalResponse::Success,
        start_rollback(s, outs).len() == outs.len() - 1,
        forall|i: int|
            0 <= i < outs.len() - 1 ==> start_rollback(s, outs)[i] == props_of(
                outs[i],
            ).endpoint_id,
{
    assert(start_transition(s, outs).streams.len() == 0);
    assert(rollback_endpoints(outs).len() == outs.len() - 1);
}

} // verus!
