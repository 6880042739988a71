use portal_screencast::registry::ScreenCast;
use portal_screencast::response::PortalResponse;
use portal_screencast::screencast::FailureClass;
use portal_screencast::screencast::NegotiationOutcome;
use portal_screencast::screencast::StreamProps;
use portal_screencast::session::CloseAction;
use portal_screencast::session::Session;
use portal_screencast::session::SessionState;
use portal_screencast::session::StreamState;
use portal_screencast::sources::SelectSourcesOptions;
use portal_screencast::sources::SourceDescriptor;
use portal_screencast::sources::SourceKind;
use portal_screencast::sources::CURSOR_MODE_HIDDEN;
use portal_screencast::sources::SOURCE_TYPE_MONITOR;
use portal_screencast::sources::SOURCE_TYPE_WINDOW;

fn monitor(id: u64, width: u32, height: u32) -> SourceDescriptor {
    SourceDescriptor { id, kind: SourceKind::Monitor, width, height }
}

fn monitor_opts(multiple: bool) -> SelectSourcesOptions {
    SelectSourcesOptions {
        types: SOURCE_TYPE_MONITOR,
        multiple,
        cursor_mode: CURSOR_MODE_HIDDEN,
        restore_token: None,
        persist: false,
    }
}

fn negotiated(endpoint_id: u64, width: u32, height: u32) -> NegotiationOutcome {
    NegotiationOutcome::Negotiated(StreamProps { endpoint_id, width, height, format: 1 })
}

#[test]
fn select_sources_stores_the_first_match_when_single() {
    let mut s = Session::new();
    let avail = vec![monitor(5, 800, 600), monitor(6, 1024, 768)];
    let r = s.select_sources(monitor_opts(false), &avail);
    assert_eq!(r, PortalResponse::Success);
    assert_eq!(s.state, SessionState::SourcesSelected);
    let sel = s.selection.as_ref().unwrap();
    assert_eq!(sel.targets.len(), 1);
    assert_eq!(sel.targets[0].id, 5);
    assert_eq!(sel.cursor_mode, CURSOR_MODE_HIDDEN);
}

#[test]
fn select_sources_twice_is_a_state_error_and_keeps_the_first_selection() {
    let mut s = Session::new();
    let avail = vec![monitor(5, 800, 600), monitor(6, 1024, 768)];
    assert_eq!(s.select_sources(monitor_opts(true), &avail), PortalResponse::Success);
    let other_avail = vec![monitor(9, 640, 480)];
    let r = s.select_sources(monitor_opts(false), &other_avail);
    assert_eq!(r, PortalResponse::Other);
    // The stored selection from the first call is untouched.
    let sel = s.selection.as_ref().unwrap();
    assert_eq!(sel.targets.len(), 2);
    assert_eq!(sel.targets[0].id, 5);
    assert_eq!(sel.targets[1].id, 6);
    assert_eq!(s.state, SessionState::SourcesSelected);
}

#[test]
fn select_sources_with_no_matching_source_cancels_and_stays_new() {
    let mut s = Session::new();
    // Only a window exists; monitors are requested.
    let avail = vec![SourceDescriptor { id: 3, kind: SourceKind::Window, width: 400, height: 300 }];
    let r = s.select_sources(monitor_opts(false), &avail);
    assert_eq!(r, PortalResponse::Cancelled);
    assert_eq!(s.state, SessionState::New);
    assert!(s.selection.is_none());
}

#[test]
fn select_sources_rejects_invalid_cursor_mode() {
    let mut s = Session::new();
    let avail = vec![monitor(1, 100, 100)];
    let opts = SelectSourcesOptions {
        types: SOURCE_TYPE_MONITOR,
        multiple: false,
        cursor_mode: 3, // not one of the three policies
        restore_token: None,
        persist: false,
    };
    assert_eq!(s.select_sources(opts, &avail), PortalResponse::Other);
    assert_eq!(s.state, SessionState::New);
}

#[test]
fn select_sources_rejects_invalid_types_mask() {
    let mut s = Session::new();
    let avail = vec![monitor(1, 100, 100)];
    let opts = SelectSourcesOptions {
        types: 8, // unknown bit
        multiple: false,
        cursor_mode: CURSOR_MODE_HIDDEN,
        restore_token: None,
        persist: false,
    };
    assert_eq!(s.select_sources(opts, &avail), PortalResponse::Other);
    let opts_empty = SelectSourcesOptions {
        types: 0,
        multiple: false,
        cursor_mode: CURSOR_MODE_HIDDEN,
        restore_token: None,
        persist: false,
    };
    assert_eq!(s.select_sources(opts_empty, &avail), PortalResponse::Other);
    assert_eq!(s.state, SessionState::New);
}

#[test]
fn start_before_select_sources_is_a_state_error_with_zero_streams() {
    let mut s = Session::new();
    let outs = vec![negotiated(1, 100, 100)];
    let out = s.start(&outs);
    assert_eq!(out.response, PortalResponse::Other);
    assert!(out.streams.is_empty());
    assert!(out.rollback.is_empty());
    assert!(s.streams.is_empty());
    assert_eq!(s.state, SessionState::New);
}

#[test]
fn start_attaches_one_active_stream_per_source() {
    let mut s = Session::new();
    let avail = vec![monitor(5, 800, 600), monitor(6, 1024, 768)];
    assert_eq!(s.select_sources(monitor_opts(true), &avail), PortalResponse::Success);
    let outs = vec![negotiated(20, 800, 600), negotiated(21, 1024, 768)];
    let out = s.start(&outs);
    assert_eq!(out.response, PortalResponse::Success);
    assert_eq!(out.streams.len(), 2);
    assert_eq!(out.streams[0].endpoint_id, 20);
    assert_eq!(out.streams[1].endpoint_id, 21);
    assert!(out.rollback.is_empty());
    assert_eq!(s.state, SessionState::Started);
    assert_eq!(s.streams.len(), 2);
    assert_eq!(s.streams[0].source_id, 5);
    assert_eq!(s.streams[0].endpoint_id, 20);
    assert_eq!(s.streams[0].state, StreamState::Active);
    assert_eq!(s.streams[1].source_id, 6);
}

#[test]
fn start_failure_on_third_of_four_rolls_back_the_first_two() {
    let mut s = Session::new();
    let avail = vec![
        monitor(1, 100, 100),
        monitor(2, 100, 100),
        monitor(3, 100, 100),
        monitor(4, 100, 100),
    ];
    assert_eq!(s.select_sources(monitor_opts(true), &avail), PortalResponse::Success);
    assert_eq!(s.selection.as_ref().unwrap().targets.len(), 4);
    // Negotiation stops at the third source; the fourth is never reached.
    let outs = vec![
        negotiated(10, 100, 100),
        negotiated(11, 100, 100),
        NegotiationOutcome::Failed(FailureClass::Negotiation),
    ];
    let out = s.start(&outs);
    assert_eq!(out.response, PortalResponse::Other);
    // Both already-spawned capture loops are stopped, in order, before
    // the response goes out.
    assert_eq!(out.rollback, vec![10, 11]);
    assert!(out.streams.is_empty());
    // Zero streams remain attached to the session.
    assert!(s.streams.is_empty());
    assert_eq!(s.state, SessionState::SourcesSelected);
}

#[test]
fn start_declined_by_user_answers_cancelled() {
    let mut s = Session::new();
    let avail = vec![monitor(1, 100, 100)];
    assert_eq!(s.select_sources(monitor_opts(false), &avail), PortalResponse::Success);
    let outs = vec![NegotiationOutcome::Failed(FailureClass::Declined)];
    let out = s.start(&outs);
    assert_eq!(out.response, PortalResponse::Cancelled);
    assert!(out.rollback.is_empty());
    assert!(s.streams.is_empty());
}

#[test]
fn start_is_admitted_at_most_once() {
    let mut s = Session::new();
    let avail = vec![monitor(1, 100, 100)];
    assert_eq!(s.select_sources(monitor_opts(false), &avail), PortalResponse::Success);
    let failed = vec![NegotiationOutcome::Failed(FailureClass::Compositor)];
    assert_eq!(s.start(&failed).response, PortalResponse::Other);
    // The attempt is spent even though it failed.
    let outs = vec![negotiated(1, 100, 100)];
    let again = s.start(&outs);
    assert_eq!(again.response, PortalResponse::Other);
    assert!(s.streams.is_empty());
}

#[test]
fn full_session_walkthrough_on_the_service() {
    let mut service = ScreenCast::new();
    let (resp, s1) = service.create_session();
    assert_eq!(resp, PortalResponse::Success);
    assert_eq!(service.lookup(s1), Some(SessionState::New));

    let avail = vec![monitor(7, 1920, 1080)];
    assert_eq!(
        service.select_sources(s1, monitor_opts(false), &avail),
        PortalResponse::Success
    );
    assert_eq!(service.lookup(s1), Some(SessionState::SourcesSelected));

    let outs = vec![negotiated(42, 1920, 1080)];
    let out = service.start(s1, &outs);
    assert_eq!(out.response, PortalResponse::Success);
    assert_eq!(out.streams.len(), 1);
    assert_eq!(out.streams[0].endpoint_id, 42);
    assert_eq!(out.streams[0].width, 1920);
    assert_eq!(out.streams[0].height, 1080);
    assert_eq!(service.lookup(s1), Some(SessionState::Started));

    let actions = service.close_session(s1);
    // Notification first, then the handle goes, then the stream stops.
    assert_eq!(
        actions,
        vec![
            CloseAction::EmitClosed,
            CloseAction::RemoveHandle,
            CloseAction::StopStream { endpoint_id: 42 },
        ]
    );
    // The handle is unreachable from now on.
    assert_eq!(service.lookup(s1), None);
    // A second close finds nothing and emits nothing.
    assert!(service.close_session(s1).is_empty());
}

#[test]
fn service_rejects_unknown_handles() {
    let mut service = ScreenCast::new();
    let avail = vec![monitor(1, 100, 100)];
    assert_eq!(
        service.select_sources(99, monitor_opts(false), &avail),
        PortalResponse::Other
    );
    let outs = vec![negotiated(1, 100, 100)];
    assert_eq!(service.start(99, &outs).response, PortalResponse::Other);
    assert_eq!(service.lookup(99), None);
    assert!(service.close_session(99).is_empty());
}

#[test]
fn handles_are_distinct_and_never_reused() {
    let mut service = ScreenCast::new();
    let (_, a) = service.create_session();
    let (_, b) = service.create_session();
    assert_ne!(a, b);
    service.close_session(a);
    let (_, c) = service.create_session();
    assert_ne!(a, c);
    assert_ne!(b, c);
}

#[test]
fn restore_token_survives_close_only_when_persisted() {
    let avail = vec![monitor(1, 100, 100)];

    let mut persisted = Session::new();
    let opts = SelectSourcesOptions {
        types: SOURCE_TYPE_MONITOR,
        multiple: false,
        cursor_mode: CURSOR_MODE_HIDDEN,
        restore_token: Some(77),
        persist: true,
    };
    assert_eq!(persisted.select_sources(opts, &avail), PortalResponse::Success);
    assert_eq!(persisted.restore_token, Some(77));
    persisted.close();
    assert_eq!(persisted.restore_token, Some(77));

    let mut transient = Session::new();
    let opts = SelectSourcesOptions {
        types: SOURCE_TYPE_MONITOR,
        multiple: false,
        cursor_mode: CURSOR_MODE_HIDDEN,
        restore_token: Some(77),
        persist: false,
    };
    assert_eq!(transient.select_sources(opts, &avail), PortalResponse::Success);
    // The caller did not ask for persistence: the token is discarded on close.
    transient.close();
    assert_eq!(transient.restore_token, None);
}

#[test]
fn select_sources_matches_windows_when_requested() {
    let mut s = Session::new();
    let avail = vec![
        monitor(1, 100, 100),
        SourceDescriptor { id: 2, kind: SourceKind::Window, width: 50, height: 50 },
    ];
    let opts = SelectSourcesOptions {
        types: SOURCE_TYPE_WINDOW,
        multiple: true,
        cursor_mode: CURSOR_MODE_HIDDEN,
        restore_token: None,
        persist: false,
    };
    assert_eq!(s.select_sources(opts, &avail), PortalResponse::Success);
    let sel = s.selection.as_ref().unwrap();
    assert_eq!(sel.targets.len(), 1);
    assert_eq!(sel.targets[0].id, 2);
}
