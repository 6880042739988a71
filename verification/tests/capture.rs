use portal_screencast::capture::CaptureAction;
use portal_screencast::capture::CaptureEvent;
use portal_screencast::capture::CaptureLoop;
use portal_screencast::capture::CapturePhase;
use portal_screencast::capture::DamageRegion;
use portal_screencast::registry::ScreenCast;
use portal_screencast::response::PortalResponse;
use portal_screencast::screencast::NegotiationOutcome;
use portal_screencast::screencast::StreamProps;
use portal_screencast::session::CloseAction;
use portal_screencast::session::SessionState;
use portal_screencast::sources::SelectSourcesOptions;
use portal_screencast::sources::SourceDescriptor;
use portal_screencast::sources::SourceKind;
use portal_screencast::sources::CURSOR_MODE_HIDDEN;
use portal_screencast::sources::SOURCE_TYPE_MONITOR;

fn frame(ts: u64) -> CaptureEvent {
    CaptureEvent::FrameReady { slot_acquired: true, timestamp: ts, damage: None }
}

fn timeout(ts: u64) -> CaptureEvent {
    CaptureEvent::FrameReady { slot_acquired: false, timestamp: ts, damage: None }
}

fn published(actions: &[CaptureAction]) -> Vec<u64> {
    actions
        .iter()
        .filter_map(|a| match a {
            CaptureAction::PublishFrame { seq, .. } => Some(*seq),
            _ => None,
        })
        .collect()
}

#[test]
fn sequence_numbers_are_strictly_increasing_across_a_drop() {
    let mut c = CaptureLoop::new(1920, 1080);
    let mut seen: Vec<u64> = Vec::new();

    seen.extend(published(&c.step(frame(100))));
    seen.extend(published(&c.step(frame(200))));
    assert_eq!(c.drops, 0);

    // A slot timeout under backpressure: the frame is dropped and
    // counted, nothing is published, nothing is renumbered.
    let acts = c.step(timeout(300));
    assert_eq!(published(&acts), Vec::<u64>::new());
    assert_eq!(acts, vec![CaptureAction::RequestFrame]);
    assert_eq!(c.drops, 1);

    seen.extend(published(&c.step(frame(400))));
    assert_eq!(seen, vec![0, 1, 2]);
    for w in seen.windows(2) {
        assert!(w[0] < w[1]);
    }
    assert_eq!(c.phase, CapturePhase::Running);
}

#[test]
fn each_published_frame_requests_the_next_one() {
    let mut c = CaptureLoop::new(640, 480);
    let acts = c.step(frame(1));
    assert_eq!(
        acts,
        vec![
            CaptureAction::PublishFrame { seq: 0, timestamp: 1, damage: None },
            CaptureAction::RequestFrame,
        ]
    );
}

#[test]
fn damage_region_travels_with_the_frame() {
    let mut c = CaptureLoop::new(640, 480);
    let d = DamageRegion { x: 1, y: 2, width: 3, height: 4 };
    let acts = c.step(CaptureEvent::FrameReady { slot_acquired: true, timestamp: 5, damage: Some(d) });
    assert_eq!(
        acts[0],
        CaptureAction::PublishFrame { seq: 0, timestamp: 5, damage: Some(d) }
    );
}

#[test]
fn reconfigure_renegotiates_before_resuming() {
    let mut c = CaptureLoop::new(640, 480);
    let acts = c.step(CaptureEvent::Reconfigure { width: 800, height: 600 });
    assert_eq!(
        acts,
        vec![
            CaptureAction::Renegotiate { width: 800, height: 600 },
            CaptureAction::RequestFrame,
        ]
    );
    assert_eq!(c.width, 800);
    assert_eq!(c.height, 600);
    assert_eq!(c.phase, CapturePhase::Running);
}

#[test]
fn stop_releases_the_capture_and_terminates() {
    let mut c = CaptureLoop::new(640, 480);
    c.step(frame(1));
    let acts = c.step(CaptureEvent::Stop);
    assert_eq!(acts, vec![CaptureAction::ReleaseCapture, CaptureAction::AckStop]);
    assert_eq!(c.phase, CapturePhase::Stopped);
    // Stop is honoured at every iteration boundary; afterwards nothing
    // happens any more, whatever comes in.
    assert!(c.step(frame(2)).is_empty());
    assert!(c.step(CaptureEvent::Stop).is_empty());
    assert_eq!(c.next_seq, 1);
}

#[test]
fn compositor_error_fails_the_stream_and_signals_the_service() {
    let mut c = CaptureLoop::new(640, 480);
    c.step(frame(1));
    let acts = c.step(CaptureEvent::CompositorError);
    assert_eq!(acts, vec![CaptureAction::ReleaseCapture, CaptureAction::SignalFailure]);
    assert_eq!(c.phase, CapturePhase::Failed);
    assert!(c.step(frame(2)).is_empty());
}

#[test]
fn mid_stream_compositor_error_closes_the_session_once() {
    // Bring a session to Started on the service.
    let mut service = ScreenCast::new();
    let (_, handle) = service.create_session();
    let avail = vec![SourceDescriptor { id: 1, kind: SourceKind::Monitor, width: 640, height: 480 }];
    let opts = SelectSourcesOptions {
        types: SOURCE_TYPE_MONITOR,
        multiple: false,
        cursor_mode: CURSOR_MODE_HIDDEN,
        restore_token: None,
        persist: false,
    };
    assert_eq!(service.select_sources(handle, opts, &avail), PortalResponse::Success);
    let outs = vec![NegotiationOutcome::Negotiated(StreamProps {
        endpoint_id: 9,
        width: 640,
        height: 480,
        format: 1,
    })];
    assert_eq!(service.start(handle, &outs).response, PortalResponse::Success);
    assert_eq!(service.lookup(handle), Some(SessionState::Started));

    // The capture loop fails mid-stream and signals the service.
    let mut c = CaptureLoop::new(640, 480);
    c.step(frame(1));
    let acts = c.step(CaptureEvent::CompositorError);
    assert!(acts.contains(&CaptureAction::SignalFailure));

    // No method call is pending; the service reacts by closing the
    // session, and the Closed notification is delivered exactly once.
    let close_acts = service.close_session(handle);
    assert_eq!(
        close_acts
            .iter()
            .filter(|a| matches!(a, CloseAction::EmitClosed))
            .count(),
        1
    );
    assert_eq!(service.lookup(handle), None);
    assert!(service.close_session(handle).is_empty());
}
