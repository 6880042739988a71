//! The per-stream capture loop pipeline.
//!
//! One capture loop runs per active stream, on its own execution
//! context.  Each iteration waits for either a compositor frame-ready
//! notification or a command, and this module decides what the iteration
//! does: which frame to publish under which sequence number, when to
//! count a drop, and when to release the capture and terminate.  The
//! unverified rim performs the returned actions against the compositor
//! and the streaming endpoint and feeds the next event back in.

use vstd::prelude::*;

verus! {

/// Whether the loop is still running, or how it ended.
#[derive(Clone, Copy, Debug, PartialEq, Eq, Structural)]
pub enum CapturePhase {
    Running,
    /// Terminated on command; the session goes on closing normally.
    Stopped,
    /// Terminated on a compositor fault; the service closes the session.
    Failed,
}

/// The pipeline state of one capture loop.
#[derive(Clone, Copy, Debug, PartialEq, Eq, Structural)]
pub struct CaptureLoop {
    pub phase: CapturePhase,
    /// Sequence number the next published frame will carry.
    pub next_seq: u64,
    /// Frames dropped under backpressure; observability only, never fatal.
    pub drops: u64,
    pub width: u32,
    pub height: u32,
}

/// Mathematical model of a capture loop, with unbounded counters.
#[verifier::ext_equal]
pub struct CaptureView {
    pub phase: CapturePhase,
    pub next_seq: nat,
    pub drops: nat,
    pub width: u32,
    pub height: u32,
}

impl View for CaptureLoop {
    type V = CaptureView;

    open spec fn view(&self) -> CaptureView {
        CaptureView {
            phase: self.phase,
            next_seq: self.next_seq as nat,
            drops: self.drops as nat,
            width: self.width,
            height: self.height,
        }
    }
}

/// A damage rectangle the compositor reported for a frame, if any.
#[derive(Clone, Copy, Debug, PartialEq, Eq, Structural)]
pub struct DamageRegion {
    pub x: u32,
    pub y: u32,
    pub width: u32,
    pub height: u32,
}

/// What one loop iteration woke up to.
#[derive(Clone, Copy, Debug, PartialEq, Eq)]
pub enum CaptureEvent {
    /// The compositor delivered a frame; `slot_acquired` tells whether a
    /// writable endpoint slot was obtained within the bounded deadline.
    FrameReady { slot_acquired: bool, timestamp: u64, damage: Option<DamageRegion> },
    /// The service asked the loop to stop.
    Stop,
    /// The service asked the loop to renegotiate the buffer geometry.
    Reconfigure { width: u32, height: u32 },
    /// The compositor denied or revoked the capture, or its connection
    /// was lost.
    CompositorError,
}

/// What the iteration asks the unverified rim to do, in list order.
#[derive(Clone, Copy, Debug, PartialEq, Eq)]
pub enum CaptureAction {
    /// Stamp the acquired slot with this sequence number, timestamp and
    /// damage region and mark it ready for the consumer.
    PublishFrame { seq: u64, timestamp: u64, damage: Option<DamageRegion> },
    /// Request the next frame from the compositor.
    RequestFrame,
    /// Renegotiate buffer size with the streaming endpoint before
    /// resuming frame requests.
    Renegotiate { width: u32, height: u32 },
    /// Release the compositor capture handle and discard any partially
    /// acquired slot.
    ReleaseCapture,
    /// Acknowledge the stop to the service.
    AckStop,
    /// Report the failure to the service, which closes the session.
    SignalFailure,
}

/// A fresh loop, bound to a stream of the given geometry.
pub open spec fn initial_capture(width: u32, height: u32) -> CaptureView {
    CaptureView { phase: CapturePhase::Running, next_seq: 0, drops: 0, width, height }
}

/// Whether this iteration publishes a frame: the loop is running, a
/// frame arrived, and a slot was acquired in time.
pub open spec fn publishes(s: CaptureView, e: CaptureEvent) -> bool {
    s.phase is Running && (e matches CaptureEvent::FrameReady { slot_acquired, .. }
        && slot_acquired)
}

/// The loop state after one iteration.  A published frame consumes the
/// next sequence number; a slot timeout only counts a drop, it never
/// renumbers; a terminated loop never changes again.
pub open spec fn capture_transition(s: CaptureView, e: CaptureEvent) -> CaptureView {
    if !(s.phase is Running) {
        s
    } else {
        match e {
            CaptureEvent::FrameReady { slot_acquired, .. } => {
                if slot_acquired {
                    CaptureView { next_seq: s.next_seq + 1, ..s }
                } else {
                    CaptureView { drops: s.drops + 1, ..s }
                }
            },
            CaptureEvent::Stop => CaptureView { phase: CapturePhase::Stopped, ..s },
            CaptureEvent::Reconfigure { width, height } => CaptureView { width, height, ..s },
            CaptureEvent::CompositorError => CaptureView { phase: CapturePhase::Failed, ..s },
        }
    }
}

/// The ordered actions of one iteration.
pub open spec fn capture_actions(s: CaptureView, e: CaptureEvent) -> Seq<CaptureAction> {
    if !(s.phase is Running) {
        Seq::empty()
    } else {
        match e {
            CaptureEvent::FrameReady { slot_acquired, timestamp, damage } => {
                if slot_acquired {
                    seq![
                        CaptureAction::PublishFrame { seq: s.next_seq as u64, timestamp, damage },
                        CaptureAction::RequestFrame,
                    ]
                } else {
                    seq![CaptureAction::RequestFrame]
                }
            },
            CaptureEvent::Stop => seq![CaptureAction::ReleaseCapture, CaptureAction::AckStop],
            CaptureEvent::Reconfigure { width, height } => seq![
                CaptureAction::Renegotiate { width, height },
                CaptureAction::RequestFrame,
            ],
            CaptureEvent::CompositorError => seq![
                CaptureAction::ReleaseCapture,
                CaptureAction::SignalFailure,
            ],
        }
    }
}

impl CaptureLoop {
    /// Spawns the pipeline state for one freshly negotiated stream.
    pub fn new(width: u32, height: u32) -> (c: CaptureLoop)
        ensures
            c@ == initial_capture(width, height),
    {
        let c = CaptureLoop {
            phase: CapturePhase::Running,
            next_seq: 0,
            drops: 0,
            width,
            height,
        };
        proof {
            assert(c@ =~= initial_capture(width, height));
        }
        c
    }

    /// One loop iteration: takes the event the loop woke up to and
    /// returns the actions to perform, in order.  Stop and failure are
    /// honoured at every iteration boundary, so shutdown latency stays
    /// bounded.
    pub fn step(&mut self, event: CaptureEvent) -> (actions: Vec<CaptureAction>)
        requires
            old(self)@.next_seq < u64::MAX,
            old(self)@.drops < u64::MAX,
        ensures
            final(self)@ == capture_transition(old(self)@, event),
            actions@ == capture_actions(old(self)@, event),
    {
        let mut actions: Vec<CaptureAction> = Vec::new();
        if !(self.phase == CapturePhase::Running) {
            proof {
                assert(actions@ =~= capture_actions(self@, event));
            }
            return actions;
        }
        match event {
            CaptureEvent::FrameReady { slot_acquired, timestamp, damage } => {
                if slot_acquired {
                    actions.push(CaptureAction::PublishFrame { seq: self.next_seq, timestamp, damage });
                    actions.push(CaptureAction::RequestFrame);
                    self.next_seq = self.next_seq + 1;
                } else {
                    actions.push(CaptureAction::RequestFrame);
                    self.drops = self.drops + 1;
                }
            },
            CaptureEvent::Stop => {
                actions.push(CaptureAction::ReleaseCapture);
                actions.push(CaptureAction::AckStop);
                self.phase = CapturePhase::Stopped;
            },
            CaptureEvent::Reconfigure { width, height } => {
                actions.push(CaptureAction::Renegotiate { width, height });
                actions.push(CaptureAction::RequestFrame);
                self.width = width;
                self.height = height;
            },
            CaptureEvent::CompositorError => {
                actions.push(CaptureAction::ReleaseCapture);
                actions.push(CaptureAction::SignalFailure);
                self.phase = CapturePhase::Failed;
            },
        }
        proof {
            assert(self@ =~= capture_transition(old(self)@, event));
            assert(actions@ =~= capture_actions(old(self)@, event));
        }
        actions
    }
}

/// The loop state after a whole trace of events.
pub open spec fn capture_run(s: CaptureView, events: Seq<CaptureEvent>) -> CaptureView
    decreases events.len(),
{
    if events.len() == 0 {
        s
    } else {
        capture_run(capture_transition(s, events.first()), events.drop_first())
    }
}

/// The sequence numbers published over a whole trace, in delivery order.
pub open spec fn published_seqs(s: CaptureView, events: Seq<CaptureEvent>) -> Seq<nat>
    decreases events.len(),
{
    if events.len() == 0 {
        Seq::empty()
    } else {
        let rest = published_seqs(capture_transition(s, events.first()), events.drop_first());
        if publishes(s, events.first()) {
            seq![s.next_seq] + rest
        } else {
            rest
        }
    }
}

/// Law: over any trace of events, the sequence numbers a stream's
/// consumer observes are strictly increasing, whatever drops, commands
/// or reconfigurations come in between.
pub proof fn lemma_published_strictly_increasing(s: CaptureView, events: Seq<CaptureEvent>)
    ensures
        forall|k: int|
            0 <= k < published_seqs(s, events).len() ==> #[trigger] published_seqs(s, events)[k]
                >= s.next_seq,
        forall|i: int, j: int|
            0 <= i < j < published_seqs(s, events).len() ==> published_seqs(s, events)[i]
                < published_seqs(s, events)[j],
    decreases events.len(),
{
    if events.len() > 0 {
        let e = events.first();
        let s1 = capture_transition(s, e);
        let rest = published_seqs(s1, events.drop_first());
        let p = published_seqs(s, events);
        lemma_published_strictly_increasing(s1, events.drop_first());
        assert(s1.next_seq >= s.next_seq);
        if publishes(s, e) {
            assert(p == seq![s.next_seq] + rest);
            assert(s1.next_seq == s.next_seq + 1);
            assert forall|k: int| 0 <= k < p.len() implies #[trigger] p[k] >= s.next_seq by {
                if k == 0 {
                    assert(p[0] == s.next_seq);
                } else {
                    assert(p[k] == rest[k - 1]);
                    assert(rest[k - 1] >= s1.next_seq);
                }
            }
            assert forall|i: int, j: int| 0 <= i < j < p.len() implies p[i] < p[j] by {
                assert(p[j] == rest[j - 1]);
                assert(rest[j - 1] >= s1.next_seq);
                if i == 0 {
                    assert(p[0] == s.next_seq);
                } else {
                    assert(p[i] == rest[i - 1]);
                }
            }
        } else {
            assert(p == rest);
        }
    }
}

/// Law: a slot timeout counts one drop and publishes nothing, and it
/// never renumbers — the sequence number of the next successful frame is
/// untouched, hence still strictly greater than every frame delivered
/// before.
pub proof fn lemma_slot_timeout_counts_drop(s: CaptureView, ts: u64, d: Option<DamageRegion>)
    requires
        s.phase is Running,
    ensures
        capture_transition(
            s,
            CaptureEvent::FrameReady { slot_acquired: false, timestamp: ts, damage: d },
        ).drops == s.drops + 1,
        capture_transition(
            s,
            CaptureEvent::FrameReady { slot_acquired: false, timestamp: ts, damage: d },
        ).next_seq == s.next_seq,
        !publishes(s, CaptureEvent::FrameReady { slot_acquired: false, timestamp: ts, damage: d }),
{
}

/// Law: a loop that has stopped or failed publishes nothing ever after.
pub proof fn lemma_terminated_publishes_nothing(s: CaptureView, events: Seq<CaptureEvent>)
    requires
        !(s.phase is Running),
    ensures
        published_seqs(s, events).len() == 0,
        capture_run(s, events) == s,
    decreases events.len(),
{
    if events.len() > 0 {
        lemma_terminated_publishes_nothing(capture_transition(s, events.first()), events.drop_first());
    }
}

} // verus!
