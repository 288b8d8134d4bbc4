use herdr_workbench::bus::EventBus;
use herdr_workbench::clock::Timestamp;
use herdr_workbench::contracts::{
    EnvelopePayload, PreviewOpenRequest, PreviewStateResponse, WorkspaceEventEnvelope,
};
use herdr_workbench::domain::{DomainError, HerdrWorkspaceContext, Workspace};
use herdr_workbench::herdr::HerdrHostError;
use herdr_workbench::ident::{uuid_text, PreviewSessionId, WorkbenchWorkspaceId};
use herdr_workbench::memory::{
    InMemoryPreviewAdapter,
    EmptyPreviewRepository, EmptyScreenshotStore, EmptyWorkspaceRepository, InMemoryPreviewDiagnostics,
    InMemoryPreviewRepository, InMemoryScreenshotStore, InMemoryWorkspaceRepository,
};
use herdr_workbench::ports::{
    ApplicationError, CapturedPreviewImage, PreviewAdapter, PreviewDiagnosticsSink, PreviewError,
    PreviewScreenshotRepository, PreviewStateUpdater, PreviewTransactionRepository, RepositoryError,
    ScreenshotStore,
};
use herdr_workbench::preview::{
    AppEvent, PreviewDiagnostic, PreviewDiagnosticKind, PreviewDiagnosticLevel, PreviewScreenshot,
    PreviewSession, PreviewStatus,
};
use herdr_workbench::previewing::{OpenPreview, PublishingPreviewStateUpdater};
use herdr_workbench::transport::{
    asset_path, asset_path_stays_inside, capture_screenshot, content_type_for, health, latest_screenshot, list_workspaces,
    next_stream_action, open_preview, parse_workspace_id, workspace_diagnostics, workspace_snapshot,
    workspace_state, ApiError, StreamAction, StreamReceipt,
};
use herdr_workbench::usecases::BindWorkspace;

fn fake_adapter() -> InMemoryPreviewAdapter {
    InMemoryPreviewAdapter::new(vec![137, 80, 78, 71, 13, 10, 26, 10])
}

fn siftmark(workspaces: &mut InMemoryWorkspaceRepository) -> Workspace {
    BindWorkspace::new(workspaces)
        .execute(HerdrWorkspaceContext::new("herdr-1", "Siftmark", r"C:\projects\siftmark").unwrap())
        .unwrap()
}

#[test]
fn health_endpoint_reports_ready() {
    assert_eq!(health().status, "ready");
}

#[test]
fn missing_workspace_returns_the_stable_error_envelope() {
    let error = parse_workspace_id("missing").unwrap_err();
    let (status, body) = error.into_response();
    assert_eq!(status, 404);
    assert_eq!(body.error.code, "workspace_not_found");
    assert_eq!(body.error.message, "workspace was not found");
    assert!(body.error.request_id.is_none());
}

#[test]
fn preview_open_and_state_routes_use_the_application_core() {
    let mut workspaces = InMemoryWorkspaceRepository::new();
    let workspace = siftmark(&mut workspaces);
    let mut previews = InMemoryPreviewRepository::new();
    let mut events = EventBus::new(8);
    let id = parse_workspace_id(&workspace.workspace_id.to_text()).unwrap();

    let opened = open_preview(
        &id,
        &workspaces,
        &mut previews,
        &fake_adapter(),
        &mut events,
        PreviewOpenRequest { url: Some("http://localhost:3000".into()) },
    )
    .unwrap();
    assert_eq!(opened.preview_url.as_deref(), Some("http://localhost:3000"));

    let state = workspace_state(&id, &workspaces, &previews).unwrap();
    assert_eq!(state.preview_url.as_deref(), Some("http://localhost:3000"));
    assert_eq!(state.preview_status.as_deref(), Some("Open"));
    assert_eq!(state.workspace.label, "Siftmark");
    assert_eq!(state.workspace.herdr_workspace_id, "herdr-1");
}

#[test]
fn preview_screenshot_routes_capture_and_return_png() {
    let mut workspaces = InMemoryWorkspaceRepository::new();
    let workspace = siftmark(&mut workspaces);
    let mut previews = InMemoryPreviewRepository::new();
    let mut store = InMemoryScreenshotStore::new();
    let mut events = EventBus::new(8);
    let id = workspace.workspace_id;

    let captured =
        capture_screenshot(&id, &workspaces, &mut previews, &fake_adapter(), &mut events, &mut store).unwrap();
    assert_eq!(captured.byte_size, 8);
    assert_eq!(captured.revision, 1);
    assert_eq!(content_type_for(&captured.path), "application/octet-stream");

    let png = latest_screenshot(&id, &previews, &store).unwrap();
    assert_eq!(png, vec![137, 80, 78, 71, 13, 10, 26, 10]);
    assert_eq!(content_type_for("latest.png"), "image/png");
}

#[test]
fn missing_screenshot_is_not_found() {
    let mut workspaces = InMemoryWorkspaceRepository::new();
    let workspace = siftmark(&mut workspaces);
    let previews = InMemoryPreviewRepository::new();
    let store = InMemoryScreenshotStore::new();
    let error = latest_screenshot(&workspace.workspace_id, &previews, &store).unwrap_err();
    assert_eq!(error.status, 404);
    assert_eq!(error.code, "screenshot_not_found");
    assert_eq!(error.message, "preview screenshot was not found");
}

fn diagnostic(workspace: &Workspace, message: &str) -> PreviewDiagnostic {
    PreviewDiagnostic {
        workspace_id: workspace.workspace_id,
        kind: PreviewDiagnosticKind::Console,
        level: PreviewDiagnosticLevel::Error,
        message: message.into(),
        source: Some("http://localhost:3000/app.js".into()),
        status: None,
        occurred_at: Timestamp::now(),
    }
}

#[test]
fn preview_diagnostics_route_returns_recorded_events() {
    let mut workspaces = InMemoryWorkspaceRepository::new();
    let workspace = siftmark(&mut workspaces);
    let mut sink = InMemoryPreviewDiagnostics::new();
    sink.record(diagnostic(&workspace, "boom"));

    let response = workspace_diagnostics(&workspace.workspace_id, &workspaces, &sink).unwrap();
    assert_eq!(response.diagnostics.len(), 1);
    assert_eq!(response.diagnostics[0].kind, "console");
    assert_eq!(response.diagnostics[0].level, "error");
    assert_eq!(response.diagnostics[0].message, "boom");
    assert_eq!(response.diagnostics[0].source.as_deref(), Some("http://localhost:3000/app.js"));
}

#[test]
fn preview_diagnostics_route_returns_empty_list_when_none_are_recorded() {
    let mut workspaces = InMemoryWorkspaceRepository::new();
    let workspace = siftmark(&mut workspaces);
    let sink = InMemoryPreviewDiagnostics::new();
    let response = workspace_diagnostics(&workspace.workspace_id, &workspaces, &sink).unwrap();
    assert!(response.diagnostics.is_empty());
}

#[test]
fn unknown_workspace_websocket_returns_not_found() {
    let workspaces = EmptyWorkspaceRepository;
    let previews = EmptyPreviewRepository;
    let id = parse_workspace_id("00000000-0000-0000-0000-000000000000").unwrap();
    let error = workspace_snapshot(&id, &workspaces, &previews).unwrap_err();
    assert_eq!(error.status, 404);
    assert_eq!(error.code, "workspace_not_found");
}

#[test]
fn workspace_websocket_sends_snapshot_then_preview_opened() {
    let mut workspaces = InMemoryWorkspaceRepository::new();
    let workspace = siftmark(&mut workspaces);
    let mut previews = InMemoryPreviewRepository::new();
    let mut events = EventBus::new(8);
    let mut receiver = events.subscribe();

    let snapshot = workspace_snapshot(&workspace.workspace_id, &workspaces, &previews).unwrap();
    assert_eq!(snapshot.event_type, "workspace.snapshot");
    assert!(matches!(snapshot.payload, EnvelopePayload::State(_)));

    OpenPreview::new(&mut previews, &fake_adapter(), &mut events)
        .execute(&workspace, Some("http://localhost:3000".into()))
        .unwrap();
    let event = receiver.try_recv().unwrap();
    match next_stream_action(workspace.workspace_id, StreamReceipt::Event(event)) {
        StreamAction::Send(opened) => assert_eq!(opened.event_type, "preview.opened"),
        _ => panic!("the stream should forward the workspace's own event"),
    }
}

#[test]
fn workspace_websocket_sends_snapshot_then_preview_state_updated() {
    let mut workspaces = InMemoryWorkspaceRepository::new();
    let workspace = siftmark(&mut workspaces);
    let mut previews = InMemoryPreviewRepository::new();
    let mut events = EventBus::new(8);
    OpenPreview::new(&mut previews, &fake_adapter(), &mut events)
        .execute(&workspace, Some("http://localhost:3000".into()))
        .unwrap();
    let snapshot = workspace_snapshot(&workspace.workspace_id, &workspaces, &previews).unwrap();
    assert_eq!(snapshot.event_type, "workspace.snapshot");

    let mut receiver = events.subscribe();
    let mut updater = PublishingPreviewStateUpdater::new(previews, events.clone());
    updater
        .update_preview_state(
            &workspace.workspace_id,
            PreviewStatus::Open,
            Some("http://localhost:3000/app".into()),
            Some("App".into()),
        )
        .unwrap();
    let event = receiver.try_recv().unwrap();
    match next_stream_action(workspace.workspace_id, StreamReceipt::Event(event)) {
        StreamAction::Send(updated) => {
            assert_eq!(updated.event_type, "preview.state_updated");
            assert_eq!(updated.revision, 0);
        }
        _ => panic!("the stream should forward the workspace's own event"),
    }
}

#[test]
fn workspace_websocket_reconnect_receives_a_fresh_snapshot() {
    let mut workspaces = InMemoryWorkspaceRepository::new();
    let workspace = siftmark(&mut workspaces);
    let mut previews = InMemoryPreviewRepository::new();
    let mut events = EventBus::new(8);
    OpenPreview::new(&mut previews, &fake_adapter(), &mut events)
        .execute(&workspace, Some("http://localhost:3000".into()))
        .unwrap();

    let first = workspace_snapshot(&workspace.workspace_id, &workspaces, &previews).unwrap();
    assert_eq!(first.event_type, "workspace.snapshot");
    let second = workspace_snapshot(&workspace.workspace_id, &workspaces, &previews).unwrap();
    assert_eq!(second.event_type, "workspace.snapshot");
    assert_ne!(first.event_id, second.event_id);

    let mut receiver = events.subscribe();
    let mut updater = PublishingPreviewStateUpdater::new(previews, events.clone());
    updater
        .update_preview_state(
            &workspace.workspace_id,
            PreviewStatus::Open,
            Some("http://localhost:3000/app".into()),
            Some("App".into()),
        )
        .unwrap();
    let event = receiver.try_recv().unwrap();
    match next_stream_action(workspace.workspace_id, StreamReceipt::Event(event)) {
        StreamAction::Send(updated) => {
            assert_eq!(updated.event_type, "preview.state_updated");
            match updated.payload {
                EnvelopePayload::Session(session) => assert_eq!(session.preview_title.as_deref(), Some("App")),
                _ => panic!("a state update carries the session"),
            }
        }
        _ => panic!("the stream should forward the workspace's own event"),
    }
}

#[test]
fn app_events_map_to_workspace_envelopes() {
    let workspace_id = WorkbenchWorkspaceId::from_uuid(0);
    let session = PreviewSession {
        session_id: PreviewSessionId::from_uuid(0),
        workspace_id,
        url: Some("http://localhost:3000".into()),
        title: None,
        status: PreviewStatus::Open,
    };
    let opened = WorkspaceEventEnvelope::from_app_event(AppEvent::preview_opened(session.clone(), 1));
    assert_eq!(opened.event_type, "preview.opened");
    assert_eq!(opened.revision, 1);
    match &opened.payload {
        EnvelopePayload::Session(dto) => {
            assert_eq!(dto.preview_session_id, uuid_text(session.session_id.as_uuid()));
            assert_eq!(dto.preview_url.as_deref(), Some("http://localhost:3000"));
            assert_eq!(dto.preview_status, "Open");
        }
        _ => panic!("an opened preview carries the session"),
    }
    let screenshot = PreviewScreenshot {
        screenshot_id: 0,
        workspace_id,
        path: "latest.png".into(),
        sha256: "abc".into(),
        byte_size: 8,
        revision: 2,
    };
    let captured =
        WorkspaceEventEnvelope::from_app_event(AppEvent::preview_screenshot_captured(screenshot, 2));
    assert_eq!(captured.event_type, "preview.screenshot_captured");
    match &captured.payload {
        EnvelopePayload::Screenshot(dto) => assert_eq!(dto.path, "latest.png"),
        _ => panic!("a capture carries the screenshot"),
    }
    let diagnostic = PreviewDiagnostic {
        workspace_id,
        kind: PreviewDiagnosticKind::Console,
        level: PreviewDiagnosticLevel::Error,
        message: "boom".into(),
        source: None,
        status: None,
        occurred_at: Timestamp::now(),
    };
    let updated = WorkspaceEventEnvelope::from_app_event(AppEvent::preview_diagnostics_updated(diagnostic));
    assert_eq!(updated.event_type, "preview.diagnostics_updated");
    assert_eq!(updated.revision, 0);
    match &updated.payload {
        EnvelopePayload::Diagnostic(dto) => assert_eq!(dto.kind, "console"),
        _ => panic!("a diagnostic update carries the diagnostic"),
    }
    let state = WorkspaceEventEnvelope::from_app_event(AppEvent::preview_state_updated(session));
    assert_eq!(state.event_type, "preview.state_updated");
    assert_eq!(state.revision, 0);
    match &state.payload {
        EnvelopePayload::Session(dto) => {
            assert_eq!(dto.preview_status, "Open");
            assert_eq!(dto.preview_url.as_deref(), Some("http://localhost:3000"));
            assert!(dto.preview_title.is_none());
        }
        _ => panic!("a state update carries the session"),
    }
    assert_eq!(state.workspace_id, "00000000-0000-0000-0000-000000000000");
}

#[test]
fn events_of_other_workspaces_are_skipped_and_lag_asks_for_resync() {
    let own = WorkbenchWorkspaceId::from_uuid(1);
    let other = WorkbenchWorkspaceId::from_uuid(2);
    let session = PreviewSession {
        session_id: PreviewSessionId::from_uuid(3),
        workspace_id: other,
        url: None,
        title: None,
        status: PreviewStatus::Opening,
    };
    let event = AppEvent::preview_state_updated(session);
    assert!(matches!(next_stream_action(own, StreamReceipt::Event(event)), StreamAction::Skip));
    assert!(matches!(next_stream_action(own, StreamReceipt::Lagged), StreamAction::Resync));
    assert!(matches!(next_stream_action(own, StreamReceipt::Closed), StreamAction::Stop));
}

#[test]
fn list_route_shows_every_binding_in_order() {
    let mut workspaces = InMemoryWorkspaceRepository::new();
    let first = siftmark(&mut workspaces);
    let second = BindWorkspace::new(&mut workspaces)
        .execute(HerdrWorkspaceContext::new("herdr-2", "Other", r"D:\other").unwrap())
        .unwrap();
    let listed = list_workspaces(&workspaces).unwrap();
    assert_eq!(listed.workspaces.len(), 2);
    assert_eq!(listed.workspaces[0].workspace_id, first.workspace_id.to_text());
    assert_eq!(listed.workspaces[1].workspace_id, second.workspace_id.to_text());
    assert_eq!(listed.workspaces[1].cwd, r"D:\other");
    assert_eq!(listed.workspaces[1].revision, 0);
}

#[test]
fn state_of_a_workspace_without_preview_has_no_preview_fields() {
    let mut workspaces = InMemoryWorkspaceRepository::new();
    let workspace = siftmark(&mut workspaces);
    let previews = InMemoryPreviewRepository::new();
    let state: PreviewStateResponse = workspace_state(&workspace.workspace_id, &workspaces, &previews).unwrap();
    assert!(state.preview_session_id.is_none());
    assert!(state.preview_url.is_none());
    assert!(state.preview_status.is_none());
    assert!(state.preview_title.is_none());
}

#[test]
fn failures_map_to_stable_error_codes() {
    let preview = ApiError::application(ApplicationError::Preview(PreviewError::unavailable("no window")));
    assert_eq!((preview.code, preview.status), ("preview_unavailable", 503));
    assert_eq!(preview.message, "preview is unavailable: no window");

    let repository = ApiError::application(ApplicationError::Repository(RepositoryError::new("disk full")));
    assert_eq!((repository.code, repository.status), ("internal_error", 500));
    assert_eq!(repository.message, "repository operation failed: disk full");

    let domain = ApiError::application(ApplicationError::Domain(DomainError::UncWorkspaceRootNotAllowed));
    assert_eq!((domain.code, domain.status), ("invalid_request", 400));
    assert_eq!(domain.message, "UNC workspace roots are not allowed");

    let herdr = ApiError::application(ApplicationError::Herdr(HerdrHostError::unavailable("pipe closed")));
    assert_eq!((herdr.code, herdr.status), ("herdr_unavailable", 503));
    assert_eq!(herdr.message, "Herdr host is unavailable: pipe closed");
}

#[test]
fn opening_without_a_preview_window_is_unavailable() {
    let mut workspaces = InMemoryWorkspaceRepository::new();
    let workspace = siftmark(&mut workspaces);
    let mut previews = InMemoryPreviewRepository::new();
    let mut events = EventBus::new(8);
    let error = open_preview(
        &workspace.workspace_id,
        &workspaces,
        &mut previews,
        &herdr_workbench::memory::UnavailablePreviewAdapter,
        &mut events,
        PreviewOpenRequest { url: None },
    )
    .unwrap_err();
    assert_eq!(error.status, 503);
    assert_eq!(error.code, "preview_unavailable");
    assert_eq!(previews.session_count(), 0);
}

#[test]
fn capture_without_a_store_is_an_internal_error() {
    let mut workspaces = InMemoryWorkspaceRepository::new();
    let workspace = siftmark(&mut workspaces);
    let mut previews = InMemoryPreviewRepository::new();
    let mut store = EmptyScreenshotStore;
    let mut events = EventBus::new(8);
    let error = capture_screenshot(
        &workspace.workspace_id,
        &workspaces,
        &mut previews,
        &fake_adapter(),
        &mut events,
        &mut store,
    )
    .unwrap_err();
    assert_eq!(error.status, 500);
    assert_eq!(previews.revision(&workspace.workspace_id), 0);
}

#[test]
fn asset_paths_and_content_types() {
    assert_eq!(asset_path("//assets/index.js"), "assets/index.js");
    assert_eq!(asset_path("index.html"), "index.html");
    assert_eq!(content_type_for("assets/index.js"), "text/javascript; charset=utf-8");
    assert_eq!(content_type_for("style.min.css"), "text/css; charset=utf-8");
    assert_eq!(content_type_for("index.html"), "text/html; charset=utf-8");
    assert_eq!(content_type_for("data.json"), "application/json");
    assert_eq!(content_type_for("logo.svg"), "image/svg+xml");
    assert_eq!(content_type_for("photo.jpeg"), "image/jpeg");
    assert_eq!(content_type_for("photo.jpg"), "image/jpeg");
    assert_eq!(content_type_for("favicon.ico"), "image/x-icon");
    assert_eq!(content_type_for("README"), "application/octet-stream");
    assert_eq!(content_type_for("archive.tar.gz"), "application/octet-stream");
}

#[test]
fn stand_in_stores_find_nothing_and_refuse_writes() {
    let id = WorkbenchWorkspaceId::from_uuid(9);
    let mut previews = EmptyPreviewRepository;
    assert!(previews.find_by_workspace(&id).unwrap().is_none());
    assert!(previews.find_latest(&id).unwrap().is_none());
    let session = PreviewSession {
        session_id: PreviewSessionId::from_uuid(1),
        workspace_id: id,
        url: None,
        title: None,
        status: PreviewStatus::Opening,
    };
    assert_eq!(
        previews.commit_preview_open(&id, session).unwrap_err().message(),
        "preview repository unavailable"
    );
    let mut store = EmptyScreenshotStore;
    assert_eq!(store.save(&id, &[1]).unwrap_err().message(), "screenshot store unavailable");
    assert_eq!(store.load("memory://x").unwrap_err().message(), "screenshot store unavailable");
}

#[test]
fn asset_paths_that_leave_the_web_root_are_refused() {
    assert!(asset_path_stays_inside("assets/index.js"));
    assert!(asset_path_stays_inside("index.html"));
    assert!(asset_path_stays_inside("assets/..js"));
    assert!(!asset_path_stays_inside("../secrets.txt"));
    assert!(!asset_path_stays_inside("assets/../../x"));
    assert!(!asset_path_stays_inside(r"assets\..\x"));
    assert!(!asset_path_stays_inside(".."));
    assert!(!asset_path_stays_inside(r"\windows\x"));
    assert!(!asset_path_stays_inside("C:/x"));
}

#[test]
fn a_stream_sends_its_own_events_in_the_order_received() {
    let own = WorkbenchWorkspaceId::from_uuid(1);
    let other = WorkbenchWorkspaceId::from_uuid(2);
    let session = |workspace_id, n| PreviewSession {
        session_id: PreviewSessionId::from_uuid(n),
        workspace_id,
        url: None,
        title: None,
        status: PreviewStatus::Open,
    };
    let received = vec![
        AppEvent::preview_opened(session(own, 10), 1),
        AppEvent::preview_opened(session(other, 11), 1),
        AppEvent::preview_opened(session(own, 12), 2),
    ];
    let mut sent = Vec::new();
    for event in received {
        if let StreamAction::Send(envelope) = next_stream_action(own, StreamReceipt::Event(event)) {
            sent.push(envelope);
        }
    }
    assert_eq!(sent.len(), 2);
    assert_eq!((sent[0].revision, sent[1].revision), (1, 2));
    assert!(sent.iter().all(|e| e.workspace_id == uuid_text(1)));
}
