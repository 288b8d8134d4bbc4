use std::sync::{Arc, Mutex};

use herdr_workbench::bus::EventBus;
use herdr_workbench::clock::Timestamp;
use herdr_workbench::ident::uuid_text;
use herdr_workbench::domain::{HerdrWorkspaceContext, Workspace};
use herdr_workbench::herdr::{
    HerdrAgentInfo, HerdrHostError, HerdrLifecycleEvent, HerdrPaneInfo, HerdrWorkspaceInfo,
};
use herdr_workbench::memory::{
    InMemoryPreviewAdapter,
    InMemoryPreviewDiagnostics, InMemoryPreviewRepository, InMemoryScreenshotStore,
    InMemoryWorkspaceRepository, RecordingAgentBridge, RecordingSleeper, UnavailableAgentBridge, UnavailablePreviewAdapter,
};
use herdr_workbench::ports::{
    ApplicationError, CapturedPreviewImage, HerdrAgentBridge, HerdrEventSource, HerdrHost,
    PreviewAdapter, PreviewDiagnosticsSink, PreviewError, PreviewScreenshotRepository,
    PreviewStateUpdater, ScreenshotStore, WorkspaceRepository,
    PREVIEW_DIAGNOSTIC_LIMIT,
};
use herdr_workbench::preview::{
    EventPayload, EventType, PreviewDiagnostic, PreviewDiagnosticKind, PreviewDiagnosticLevel,
    PreviewSession, PreviewStateUpdated, PreviewStatus,
};
use herdr_workbench::previewing::{
    commit_opened_preview, deliver_preview_context, CapturePreview, OpenPreview, PublishingPreviewStateUpdater,
    SendPreviewContext,
};
use herdr_workbench::render::render_preview_context;
use herdr_workbench::usecases::{
    reconcile_from_listing, sync_host_listing, BindWorkspace, HerdrEventSyncLoop, HerdrReconcileLoop, SyncHerdrWorkspaces,
    HERDR_RECONCILE_BACKOFF_INTERVAL_SECS, HERDR_RECONCILE_OK_INTERVAL_SECS,
};

fn fake_adapter() -> InMemoryPreviewAdapter {
    InMemoryPreviewAdapter::new(vec![137, 80, 78, 71, 13, 10, 26, 10])
}

fn bound_workspace(workspaces: &mut InMemoryWorkspaceRepository, herdr_id: &str) -> Workspace {
    BindWorkspace::new(workspaces)
        .execute(HerdrWorkspaceContext::new(herdr_id, "Siftmark", r"C:\projects\siftmark").unwrap())
        .unwrap()
}

#[test]
fn opening_preview_commits_state_and_publishes_the_same_revision() {
    let mut workspaces = InMemoryWorkspaceRepository::new();
    let workspace = bound_workspace(&mut workspaces, "herdr-workspace-1");
    let mut previews = InMemoryPreviewRepository::new();
    let mut events = EventBus::new(16);
    let mut receiver = events.subscribe();

    let session = OpenPreview::new(&mut previews, &fake_adapter(), &mut events)
        .execute(&workspace, Some("http://localhost:3000".into()))
        .unwrap();
    let event = receiver.try_recv().unwrap();

    assert_eq!(session.workspace_id, workspace.workspace_id);
    assert_eq!(previews.session_count(), 1);
    assert_eq!(previews.revision(&workspace.workspace_id), 1);
    assert_eq!(event.event_type, EventType::PreviewOpened);
    assert_eq!(event.revision, 1);
    assert!(matches!(event.payload, EventPayload::PreviewOpened(_)));
}

#[test]
fn opening_preview_again_is_idempotent_and_does_not_advance_revision() {
    let mut workspaces = InMemoryWorkspaceRepository::new();
    let workspace = bound_workspace(&mut workspaces, "herdr-workspace-1");
    let mut previews = InMemoryPreviewRepository::new();
    let mut events = EventBus::new(16);
    let mut receiver = events.subscribe();

    let first = OpenPreview::new(&mut previews, &fake_adapter(), &mut events)
        .execute(&workspace, None)
        .unwrap();
    let second = OpenPreview::new(&mut previews, &fake_adapter(), &mut events)
        .execute(&workspace, None)
        .unwrap();

    assert_eq!(first.session_id, second.session_id);
    assert_eq!(previews.revision(&workspace.workspace_id), 1);
    assert!(receiver.try_recv().is_ok());
    assert!(receiver.try_recv().is_err());
}

#[test]
fn repeated_binding_reuses_the_existing_workbench_workspace() {
    let mut repository = InMemoryWorkspaceRepository::new();
    let context =
        HerdrWorkspaceContext::new("herdr-workspace-1", "Siftmark", r"C:\projects\siftmark").unwrap();

    let first = BindWorkspace::new(&mut repository).execute(context.clone()).unwrap();
    let second = BindWorkspace::new(&mut repository).execute(context).unwrap();

    assert_eq!(first.workspace_id, second.workspace_id);
    assert_eq!(repository.workspace_count(), 1);
}

#[test]
fn distinct_herdr_workspaces_remain_isolated_when_their_cwd_matches() {
    let mut repository = InMemoryWorkspaceRepository::new();
    let cwd = r"C:\projects\shared";

    let first = BindWorkspace::new(&mut repository)
        .execute(HerdrWorkspaceContext::new("herdr-a", "A", cwd).unwrap())
        .unwrap();
    let second = BindWorkspace::new(&mut repository)
        .execute(HerdrWorkspaceContext::new("herdr-b", "B", cwd).unwrap())
        .unwrap();

    assert_ne!(first.workspace_id, second.workspace_id);
    assert_eq!(repository.workspace_count(), 2);
}

#[test]
fn updating_status_preserves_existing_url_and_title() {
    let mut workspaces = InMemoryWorkspaceRepository::new();
    let workspace = bound_workspace(&mut workspaces, "herdr-workspace-1");
    let mut previews = InMemoryPreviewRepository::new();
    let mut events = EventBus::new(16);
    OpenPreview::new(&mut previews, &fake_adapter(), &mut events)
        .execute(&workspace, Some("http://localhost:3000".into()))
        .unwrap();

    previews
        .update_preview_state(
            &workspace.workspace_id,
            PreviewStatus::Open,
            Some("http://localhost:3000/app".into()),
            Some("App".into()),
        )
        .unwrap();
    let closed = previews
        .update_preview_state(&workspace.workspace_id, PreviewStatus::Unavailable, None, None)
        .unwrap();

    assert_eq!(closed.status, PreviewStatus::Unavailable);
    assert_eq!(closed.url.as_deref(), Some("http://localhost:3000/app"));
    assert_eq!(closed.title.as_deref(), Some("App"));
    assert_eq!(previews.revision(&workspace.workspace_id), 1);
}

#[test]
fn updating_preview_state_publishes_without_advancing_revision() {
    let mut workspaces = InMemoryWorkspaceRepository::new();
    let workspace = bound_workspace(&mut workspaces, "herdr-workspace-1");
    let mut previews = InMemoryPreviewRepository::new();
    let mut events = EventBus::new(16);
    OpenPreview::new(&mut previews, &fake_adapter(), &mut events)
        .execute(&workspace, Some("http://localhost:3000".into()))
        .unwrap();
    let mut receiver = events.subscribe();
    let mut updater = PublishingPreviewStateUpdater::new(previews, events.clone());

    let session = updater
        .update_preview_state(
            &workspace.workspace_id,
            PreviewStatus::Open,
            Some("http://localhost:3000/app".into()),
            Some("App".into()),
        )
        .unwrap();
    let closed = updater
        .update_preview_state(&workspace.workspace_id, PreviewStatus::Unavailable, None, None)
        .unwrap();

    let opened = receiver.try_recv().unwrap();
    assert_eq!(opened.event_type, EventType::PreviewStateUpdated);
    assert_eq!(opened.revision, 0);
    assert_eq!(
        opened.payload,
        EventPayload::PreviewStateUpdated(PreviewStateUpdated { session: session.clone() })
    );
    let closed_event = receiver.try_recv().unwrap();
    assert_eq!(closed_event.event_type, EventType::PreviewStateUpdated);
    assert_eq!(closed_event.revision, 0);
    assert_eq!(closed.url.as_deref(), Some("http://localhost:3000/app"));
    assert_eq!(closed.title.as_deref(), Some("App"));
    assert_eq!(updater.inner.revision(&workspace.workspace_id), 1);
}

#[test]
fn capturing_screenshot_persists_metadata_and_advances_revision() {
    let mut workspaces = InMemoryWorkspaceRepository::new();
    let workspace = bound_workspace(&mut workspaces, "herdr-workspace-1");
    let mut previews = InMemoryPreviewRepository::new();
    let mut store = InMemoryScreenshotStore::new();
    let mut events = EventBus::new(16);
    let mut receiver = events.subscribe();
    OpenPreview::new(&mut previews, &fake_adapter(), &mut events)
        .execute(&workspace, Some("http://localhost:3000".into()))
        .unwrap();
    let _ = receiver.try_recv().unwrap();

    let screenshot = CapturePreview::new(&mut previews, &fake_adapter(), &mut events, &mut store)
        .execute(&workspace)
        .unwrap();
    let event = receiver.try_recv().unwrap();
    let stored = store.load(&screenshot.path).unwrap();

    assert_eq!(screenshot.workspace_id, workspace.workspace_id);
    assert_eq!(screenshot.revision, 2);
    assert_eq!(screenshot.byte_size, 8);
    assert_eq!(stored, vec![137, 80, 78, 71, 13, 10, 26, 10]);
    assert_eq!(event.event_type, EventType::PreviewScreenshotCaptured);
    assert_eq!(event.revision, 2);
    assert_eq!(previews.revision(&workspace.workspace_id), 2);
    assert!(previews.find_latest(&workspace.workspace_id).unwrap().is_some());
}

fn sample_diagnostic(workspace: &Workspace, message: &str) -> PreviewDiagnostic {
    PreviewDiagnostic {
        workspace_id: workspace.workspace_id,
        kind: PreviewDiagnosticKind::Console,
        level: PreviewDiagnosticLevel::Error,
        message: message.to_owned(),
        source: Some("http://localhost:3000/app.js".into()),
        status: None,
        occurred_at: Timestamp::now(),
    }
}

#[test]
fn recording_diagnostics_keeps_the_latest_fifty_and_can_be_cleared() {
    let mut workspaces = InMemoryWorkspaceRepository::new();
    let workspace = bound_workspace(&mut workspaces, "herdr-workspace-1");
    let mut sink = InMemoryPreviewDiagnostics::new();
    sink.record(sample_diagnostic(&workspace, "first"));
    for index in 0..PREVIEW_DIAGNOSTIC_LIMIT {
        sink.record(sample_diagnostic(&workspace, &format!("msg-{index}")));
    }
    let listed = sink.list(&workspace.workspace_id);
    assert_eq!(listed.len(), PREVIEW_DIAGNOSTIC_LIMIT);
    assert_eq!(listed[0].message, "msg-0");
    assert_eq!(listed.last().unwrap().message, "msg-49");
    sink.clear(&workspace.workspace_id);
    assert!(sink.list(&workspace.workspace_id).is_empty());
}

#[test]
fn recording_diagnostics_publishes_without_a_revision() {
    let mut workspaces = InMemoryWorkspaceRepository::new();
    let workspace = bound_workspace(&mut workspaces, "herdr-workspace-1");
    let mut events = EventBus::new(8);
    let mut receiver = events.subscribe();
    let mut sink = InMemoryPreviewDiagnostics::with_publisher(events);
    sink.record(sample_diagnostic(&workspace, "boom"));
    let event = receiver.try_recv().unwrap();
    assert_eq!(event.event_type, EventType::PreviewDiagnosticsUpdated);
    assert_eq!(event.revision, 0);
    assert_eq!(event.workspace_id, workspace.workspace_id);
}

#[test]
fn diagnostics_of_other_workspaces_are_kept_apart() {
    let mut workspaces = InMemoryWorkspaceRepository::new();
    let a = bound_workspace(&mut workspaces, "herdr-a");
    let b = bound_workspace(&mut workspaces, "herdr-b");
    let mut sink = InMemoryPreviewDiagnostics::new();
    sink.record(sample_diagnostic(&a, "from a"));
    sink.record(sample_diagnostic(&b, "from b"));
    sink.clear(&a.workspace_id);
    assert!(sink.list(&a.workspace_id).is_empty());
    let left = sink.list(&b.workspace_id);
    assert_eq!(left.len(), 1);
    assert_eq!(left[0].message, "from b");
}

#[derive(Clone, Default)]
struct FakeHerdrHost {
    workspaces: Vec<HerdrWorkspaceInfo>,
    panes: Vec<HerdrPaneInfo>,
    error: Option<HerdrHostError>,
}

impl HerdrHost for FakeHerdrHost {
    fn list_workspaces(&self) -> Result<Vec<HerdrWorkspaceInfo>, HerdrHostError> {
        if let Some(error) = &self.error {
            return Err(error.clone());
        }
        Ok(self.workspaces.clone())
    }

    fn list_panes(&self) -> Result<Vec<HerdrPaneInfo>, HerdrHostError> {
        if let Some(error) = &self.error {
            return Err(error.clone());
        }
        Ok(self.panes.clone())
    }
}

fn sample_host_workspace(id: &str, label: &str) -> HerdrWorkspaceInfo {
    HerdrWorkspaceInfo {
        workspace_id: id.into(),
        label: label.into(),
        worktree_checkout_path: None,
    }
}

fn sample_pane(workspace_id: &str, cwd: &str, focused: bool) -> HerdrPaneInfo {
    HerdrPaneInfo {
        workspace_id: workspace_id.into(),
        cwd: Some(cwd.into()),
        focused,
    }
}

#[test]
fn syncing_herdr_workspaces_binds_each_workspace_from_its_pane_cwd() {
    let mut repository = InMemoryWorkspaceRepository::new();
    let host = FakeHerdrHost {
        workspaces: vec![sample_host_workspace("wD", "code"), sample_host_workspace("w9", "other")],
        panes: vec![
            sample_pane("wD", r"D:\Code\huajingweb", true),
            sample_pane("w9", r"F:\github\Chronos", false),
            sample_pane("w9", r"F:\github\QuickPane", true),
        ],
        error: None,
    };

    let report = SyncHerdrWorkspaces::new(&mut repository, &host).execute().unwrap();

    assert_eq!(report.bound.len(), 2);
    assert_eq!(report.skipped, 0);
    assert_eq!(repository.workspace_count(), 2);
    let listed = repository.list().unwrap();
    let code = listed.iter().find(|w| w.herdr_workspace_id.as_str() == "wD").unwrap();
    let other = listed.iter().find(|w| w.herdr_workspace_id.as_str() == "w9").unwrap();
    assert_eq!(code.label, "code");
    assert_eq!(code.cwd, r"D:\Code\huajingweb");
    assert_eq!(other.label, "other");
    assert_eq!(other.cwd, r"F:\github\QuickPane");
}

#[test]
fn syncing_the_same_herdr_workspaces_again_reuses_existing_bindings() {
    let mut repository = InMemoryWorkspaceRepository::new();
    let host = FakeHerdrHost {
        workspaces: vec![sample_host_workspace("wD", "code")],
        panes: vec![sample_pane("wD", r"D:\Code\huajingweb", true)],
        error: None,
    };
    let first = SyncHerdrWorkspaces::new(&mut repository, &host).execute().unwrap();
    let second = SyncHerdrWorkspaces::new(&mut repository, &host).execute().unwrap();

    assert_eq!(first.bound[0].workspace_id, second.bound[0].workspace_id);
    assert_eq!(repository.workspace_count(), 1);
}

#[test]
fn syncing_skips_workspaces_without_a_usable_cwd() {
    let mut repository = InMemoryWorkspaceRepository::new();
    let host = FakeHerdrHost {
        workspaces: vec![sample_host_workspace("wD", "code"), sample_host_workspace("wH", "empty")],
        panes: vec![sample_pane("wD", r"D:\Code\huajingweb", true)],
        error: None,
    };

    let report = SyncHerdrWorkspaces::new(&mut repository, &host).execute().unwrap();

    assert_eq!(report.bound.len(), 1);
    assert_eq!(report.skipped, 1);
    assert_eq!(repository.workspace_count(), 1);
}

#[test]
fn syncing_skips_invalid_cwd_and_still_binds_the_rest() {
    let mut repository = InMemoryWorkspaceRepository::new();
    let host = FakeHerdrHost {
        workspaces: vec![sample_host_workspace("bad", "unc"), sample_host_workspace("wD", "code")],
        panes: vec![
            sample_pane("bad", r"\\nas\share", true),
            sample_pane("wD", r"D:\Code\huajingweb", true),
        ],
        error: None,
    };

    let report = SyncHerdrWorkspaces::new(&mut repository, &host).execute().unwrap();

    assert_eq!(report.bound.len(), 1);
    assert_eq!(report.skipped, 1);
    assert_eq!(report.bound[0].herdr_workspace_id.as_str(), "wD");
}

#[test]
fn syncing_falls_back_to_worktree_checkout_when_panes_have_no_cwd() {
    let mut repository = InMemoryWorkspaceRepository::new();
    let host = FakeHerdrHost {
        workspaces: vec![HerdrWorkspaceInfo {
            workspace_id: "wT".into(),
            label: "tree".into(),
            worktree_checkout_path: Some(r"C:\projects\siftmark".into()),
        }],
        panes: vec![HerdrPaneInfo { workspace_id: "wT".into(), cwd: None, focused: true }],
        error: None,
    };

    let report = SyncHerdrWorkspaces::new(&mut repository, &host).execute().unwrap();

    assert_eq!(report.bound.len(), 1);
    assert_eq!(report.bound[0].cwd, r"C:\projects\siftmark");
}

#[test]
fn host_failure_leaves_the_repository_unchanged() {
    let mut repository = InMemoryWorkspaceRepository::new();
    let host = FakeHerdrHost {
        error: Some(HerdrHostError::unavailable("herdr not running")),
        ..FakeHerdrHost::default()
    };

    let error = SyncHerdrWorkspaces::new(&mut repository, &host).execute().unwrap_err();

    assert!(matches!(error, ApplicationError::Herdr(_)));
    assert_eq!(repository.workspace_count(), 0);
}

#[test]
fn syncing_skips_a_relative_cwd_and_still_binds_the_rest() {
    let mut repository = InMemoryWorkspaceRepository::new();
    let host = FakeHerdrHost {
        workspaces: vec![sample_host_workspace("rel", "relative"), sample_host_workspace("wD", "code")],
        panes: vec![
            sample_pane("rel", r"projects\siftmark", true),
            sample_pane("wD", r"D:\Code\huajingweb", true),
        ],
        error: None,
    };

    let report = SyncHerdrWorkspaces::new(&mut repository, &host).execute().unwrap();

    assert_eq!(report.bound.len(), 1);
    assert_eq!(report.skipped, 1);
    assert_eq!(report.bound[0].herdr_workspace_id.as_str(), "wD");
}

#[test]
fn focused_relative_cwd_falls_back_to_the_first_absolute_pane() {
    let mut repository = InMemoryWorkspaceRepository::new();
    let host = FakeHerdrHost {
        workspaces: vec![sample_host_workspace("w9", "other")],
        panes: vec![
            sample_pane("w9", r"relative\path", true),
            sample_pane("w9", r"F:\github\QuickPane", false),
        ],
        error: None,
    };

    let report = SyncHerdrWorkspaces::new(&mut repository, &host).execute().unwrap();

    assert_eq!(report.bound.len(), 1);
    assert_eq!(report.bound[0].cwd, r"F:\github\QuickPane");
}

#[test]
fn relative_pane_cwd_falls_back_to_worktree_checkout() {
    let mut repository = InMemoryWorkspaceRepository::new();
    let host = FakeHerdrHost {
        workspaces: vec![HerdrWorkspaceInfo {
            workspace_id: "wT".into(),
            label: "tree".into(),
            worktree_checkout_path: Some(r"C:\projects\siftmark".into()),
        }],
        panes: vec![sample_pane("wT", r"relative\path", true)],
        error: None,
    };

    let report = SyncHerdrWorkspaces::new(&mut repository, &host).execute().unwrap();

    assert_eq!(report.bound.len(), 1);
    assert_eq!(report.bound[0].cwd, r"C:\projects\siftmark");
}

type HostSnapshot = Result<(Vec<HerdrWorkspaceInfo>, Vec<HerdrPaneInfo>), HerdrHostError>;

#[derive(Clone)]
struct SequenceHost {
    results: Arc<Mutex<Vec<HostSnapshot>>>,
    current: Arc<Mutex<Option<HostSnapshot>>>,
}

impl SequenceHost {
    fn snapshot(&self) -> HostSnapshot {
        let mut current = self.current.lock().unwrap();
        if current.is_none() {
            let mut results = self.results.lock().unwrap();
            *current = Some(if results.is_empty() {
                Err(HerdrHostError::unavailable("no more host results"))
            } else {
                results.remove(0)
            });
        }
        current.clone().unwrap()
    }

    fn finish_step(&self) {
        *self.current.lock().unwrap() = None;
    }
}

impl HerdrHost for SequenceHost {
    fn list_workspaces(&self) -> Result<Vec<HerdrWorkspaceInfo>, HerdrHostError> {
        self.snapshot().map(|(workspaces, _)| workspaces)
    }

    fn list_panes(&self) -> Result<Vec<HerdrPaneInfo>, HerdrHostError> {
        self.snapshot().map(|(_, panes)| panes)
    }
}

#[test]
fn successful_reconcile_step_sleeps_thirty_seconds() {
    let host = FakeHerdrHost {
        workspaces: vec![sample_host_workspace("wD", "code")],
        panes: vec![sample_pane("wD", r"D:\Code\huajingweb", true)],
        error: None,
    };
    let mut reconcile = HerdrReconcileLoop::new(InMemoryWorkspaceRepository::new(), host, RecordingSleeper::new());
    let interval = reconcile.step();
    assert_eq!(interval, HERDR_RECONCILE_OK_INTERVAL_SECS);
    assert_eq!(interval, 30);
    assert_eq!(reconcile.sleeper.recorded().to_vec(), vec![HERDR_RECONCILE_OK_INTERVAL_SECS]);
    assert_eq!(reconcile.repository.workspace_count(), 1);
}

#[test]
fn failed_reconcile_step_backs_off_two_minutes_then_recovers() {
    let host = SequenceHost {
        results: Arc::new(Mutex::new(vec![
            Err(HerdrHostError::unavailable("herdr not running")),
            Ok((
                vec![sample_host_workspace("wD", "code")],
                vec![sample_pane("wD", r"D:\Code\huajingweb", true)],
            )),
        ])),
        current: Arc::new(Mutex::new(None)),
    };
    let mut reconcile =
        HerdrReconcileLoop::new(InMemoryWorkspaceRepository::new(), host.clone(), RecordingSleeper::new());
    let first = reconcile.step();
    host.finish_step();
    let second = reconcile.step();
    assert_eq!(first, HERDR_RECONCILE_BACKOFF_INTERVAL_SECS);
    assert_eq!(first, 120);
    assert_eq!(second, HERDR_RECONCILE_OK_INTERVAL_SECS);
    assert_eq!(
        reconcile.sleeper.recorded().to_vec(),
        vec![HERDR_RECONCILE_BACKOFF_INTERVAL_SECS, HERDR_RECONCILE_OK_INTERVAL_SECS]
    );
    assert_eq!(reconcile.repository.workspace_count(), 1);
}

struct FakeEventSource {
    events: Mutex<Vec<Result<HerdrLifecycleEvent, HerdrHostError>>>,
}

impl HerdrEventSource for FakeEventSource {
    fn next_event(&self) -> Result<HerdrLifecycleEvent, HerdrHostError> {
        let mut events = self.events.lock().unwrap();
        if events.is_empty() {
            return Err(HerdrHostError::unavailable("no more herdr events"));
        }
        events.remove(0)
    }
}

fn sample_bindable_host() -> FakeHerdrHost {
    FakeHerdrHost {
        workspaces: vec![sample_host_workspace("wD", "code")],
        panes: vec![sample_pane("wD", r"D:\Code\huajingweb", true)],
        error: None,
    }
}

#[test]
fn workspace_created_event_syncs_new_bindings() {
    let events = FakeEventSource {
        events: Mutex::new(vec![Ok(HerdrLifecycleEvent::WorkspaceCreated)]),
    };
    let mut sync = HerdrEventSyncLoop::new(InMemoryWorkspaceRepository::new(), sample_bindable_host(), events);
    let synced = sync.step().unwrap();
    assert!(synced);
    assert_eq!(sync.repository.workspace_count(), 1);
}

#[test]
fn workspace_closed_event_does_not_unbind_or_sync() {
    let events = FakeEventSource {
        events: Mutex::new(vec![Ok(HerdrLifecycleEvent::WorkspaceClosed)]),
    };
    let mut sync = HerdrEventSyncLoop::new(InMemoryWorkspaceRepository::new(), sample_bindable_host(), events);
    let synced = sync.step().unwrap();
    assert!(!synced);
    assert_eq!(sync.repository.workspace_count(), 0);
}

#[test]
fn event_source_failure_does_not_panic_or_bind() {
    let events = FakeEventSource {
        events: Mutex::new(vec![Err(HerdrHostError::unavailable("pipe closed"))]),
    };
    let mut sync = HerdrEventSyncLoop::new(InMemoryWorkspaceRepository::new(), sample_bindable_host(), events);
    let error = sync.step().unwrap_err();
    assert!(matches!(error, ApplicationError::Herdr(_)));
    assert_eq!(sync.repository.workspace_count(), 0);
}

fn sample_agent(workspace_id: &str, pane_id: &str, focused: bool, status: &str) -> HerdrAgentInfo {
    HerdrAgentInfo {
        workspace_id: workspace_id.into(),
        pane_id: pane_id.into(),
        agent: "pi".into(),
        status: status.into(),
        focused,
    }
}

#[test]
fn sending_preview_context_prompts_the_focused_agent() {
    let mut workspaces = InMemoryWorkspaceRepository::new();
    let workspace = bound_workspace(&mut workspaces, "herdr-1");
    let mut previews = InMemoryPreviewRepository::new();
    let mut events = EventBus::new(8);
    OpenPreview::new(&mut previews, &fake_adapter(), &mut events)
        .execute(&workspace, Some("http://localhost:3000".into()))
        .unwrap();
    let mut store = InMemoryScreenshotStore::new();
    CapturePreview::new(&mut previews, &fake_adapter(), &mut events, &mut store)
        .execute(&workspace)
        .unwrap();
    let mut diagnostics = InMemoryPreviewDiagnostics::new();
    diagnostics.record(PreviewDiagnostic {
        workspace_id: workspace.workspace_id,
        kind: PreviewDiagnosticKind::Console,
        level: PreviewDiagnosticLevel::Error,
        message: "boom".into(),
        source: None,
        status: None,
        occurred_at: Timestamp::now(),
    });
    let mut agents = RecordingAgentBridge::new(vec![
        sample_agent("other", "wX:p1", true, "idle"),
        sample_agent("herdr-1", "w1:p2", false, "working"),
        sample_agent("herdr-1", "w1:p1", true, "idle"),
    ]);
    let receipt = SendPreviewContext::new(&previews, &diagnostics, &mut agents)
        .execute(&workspace, Some("please check the header".into()))
        .unwrap();
    assert_eq!(receipt.pane_id, "w1:p1");
    assert_eq!(receipt.agent, "pi");
    let recorded = agents.delivered();
    assert_eq!(recorded.len(), 1);
    assert_eq!(recorded[0].0, "w1:p1");
    assert!(recorded[0].1.contains("http://localhost:3000"));
    assert!(recorded[0].1.contains("boom"));
    assert!(recorded[0].1.contains("please check the header"));
    assert!(!recorded[0].1.contains('\u{89}'));
}

#[test]
fn sending_preview_context_without_an_agent_does_not_prompt() {
    let mut workspaces = InMemoryWorkspaceRepository::new();
    let workspace = bound_workspace(&mut workspaces, "herdr-1");
    let previews = InMemoryPreviewRepository::new();
    let diagnostics = InMemoryPreviewDiagnostics::new();
    let mut agents = RecordingAgentBridge::new(vec![sample_agent("other", "wX:p1", true, "idle")]);
    let error = SendPreviewContext::new(&previews, &diagnostics, &mut agents)
        .execute(&workspace, None)
        .unwrap_err();
    assert!(matches!(error, ApplicationError::Herdr(_)));
    assert!(agents.delivered().is_empty());
}

#[test]
fn delivering_preview_context_prompts_the_selected_pane_with_the_rendered_text() {
    let mut workspaces = InMemoryWorkspaceRepository::new();
    let workspace = bound_workspace(&mut workspaces, "herdr-1");
    let mut agents = RecordingAgentBridge::new(Vec::new());
    let listed = Ok(vec![
        sample_agent("herdr-1", "w1:p3", false, "idle"),
        sample_agent("herdr-1", "w1:p2", true, "working"),
    ]);
    let receipt =
        deliver_preview_context(&mut agents, &workspace, None, None, &[], listed, Some("look"))
            .unwrap();
    assert_eq!(receipt.pane_id, "w1:p2");
    assert_eq!(receipt.agent, "pi");
    let expected = render_preview_context(&workspace, None, None, &[], Some("look"));
    assert_eq!(agents.delivered().to_vec(), vec![("w1:p2".to_string(), expected)]);
}

#[test]
fn delivering_preview_context_passes_on_a_failed_listing_and_prompts_nobody() {
    let mut workspaces = InMemoryWorkspaceRepository::new();
    let workspace = bound_workspace(&mut workspaces, "herdr-1");
    let mut agents = RecordingAgentBridge::new(Vec::new());
    let error = deliver_preview_context(
        &mut agents,
        &workspace,
        None,
        None,
        &[],
        Err(HerdrHostError::unavailable("herdr not running")),
        None,
    )
    .unwrap_err();
    assert_eq!(error, ApplicationError::Herdr(HerdrHostError::unavailable("herdr not running")));
    let none = deliver_preview_context(&mut agents, &workspace, None, None, &[], Ok(Vec::new()), None)
        .unwrap_err();
    assert_eq!(
        none,
        ApplicationError::Herdr(HerdrHostError::unavailable(
            "no Herdr agent is running in this workspace"
        ))
    );
    assert!(agents.delivered().is_empty());
}

#[test]
fn recording_agent_bridge_lists_its_agents() {
    let mut agents =
        RecordingAgentBridge::new(vec![sample_agent("herdr-1", "w1:p1", true, "idle")]);
    let listed = agents.list_agents().unwrap();
    assert_eq!(listed, vec![sample_agent("herdr-1", "w1:p1", true, "idle")]);
}

#[test]
fn a_failed_host_listing_is_herdr_error_and_binds_nothing() {
    let mut repository = InMemoryWorkspaceRepository::new();
    let error = sync_host_listing(
        &mut repository,
        Err(HerdrHostError::unavailable("herdr not running")),
    )
    .unwrap_err();
    assert_eq!(error, ApplicationError::Herdr(HerdrHostError::unavailable("herdr not running")));
    assert_eq!(repository.workspace_count(), 0);
    let report = sync_host_listing(
        &mut repository,
        Ok((
            vec![sample_host_workspace("wD", "code")],
            vec![sample_pane("wD", r"D:\Code\huajingweb", true)],
        )),
    )
    .unwrap();
    assert_eq!(report.bound.len(), 1);
    assert_eq!(repository.workspace_count(), 1);
}

#[test]
fn reconciling_from_an_answer_waits_as_its_outcome_calls_for() {
    let mut repository = InMemoryWorkspaceRepository::new();
    let mut sleeper = RecordingSleeper::new();
    let backoff = reconcile_from_listing(
        &mut repository,
        &mut sleeper,
        Err(HerdrHostError::unavailable("herdr not running")),
    );
    assert_eq!(backoff, 120);
    assert_eq!(repository.workspace_count(), 0);
    let ok = reconcile_from_listing(
        &mut repository,
        &mut sleeper,
        Ok((
            vec![sample_host_workspace("wD", "code")],
            vec![sample_pane("wD", r"D:\Code\huajingweb", true)],
        )),
    );
    assert_eq!(ok, 30);
    assert_eq!(repository.workspace_count(), 1);
    assert_eq!(sleeper.recorded().to_vec(), vec![120, 30]);
}

#[test]
fn a_preview_that_cannot_open_changes_and_publishes_nothing() {
    let mut workspaces = InMemoryWorkspaceRepository::new();
    let workspace = bound_workspace(&mut workspaces, "herdr-1");
    let mut previews = InMemoryPreviewRepository::new();
    let mut events = EventBus::new(16);
    let mut receiver = events.subscribe();
    let error = OpenPreview::new(&mut previews, &UnavailablePreviewAdapter, &mut events)
        .execute(&workspace, None)
        .unwrap_err();
    assert!(matches!(error, ApplicationError::Preview(_)));
    assert_eq!(previews.session_count(), 0);
    assert_eq!(previews.revision(&workspace.workspace_id), 0);
    assert!(receiver.try_recv().is_err());
}

#[test]
fn committing_over_a_stored_session_announces_it_at_the_current_revision() {
    let mut workspaces = InMemoryWorkspaceRepository::new();
    let workspace = bound_workspace(&mut workspaces, "herdr-1");
    let mut previews = InMemoryPreviewRepository::new();
    let mut events = EventBus::new(16);
    let first = OpenPreview::new(&mut previews, &fake_adapter(), &mut events)
        .execute(&workspace, None)
        .unwrap();
    let mut receiver = events.subscribe();
    let other = PreviewSession::opening(&workspace, Some("http://localhost:9".into())).mark_open();
    let kept =
        commit_opened_preview(&mut previews, &mut events, &workspace.workspace_id, Ok(other)).unwrap();
    assert_eq!(kept.session_id, first.session_id);
    assert_eq!(previews.revision(&workspace.workspace_id), 1);
    let event = receiver.try_recv().unwrap();
    assert_eq!(event.event_type, EventType::PreviewOpened);
    assert_eq!(event.revision, 1);
    assert!(receiver.try_recv().is_err());
}

#[test]
fn an_unconnected_agent_bridge_lists_nobody_and_delivers_nothing() {
    let mut bridge = UnavailableAgentBridge::new();
    assert!(bridge.list_agents().unwrap().is_empty());
    assert_eq!(
        bridge.prompt_agent("w1:p1", "hello"),
        Err(HerdrHostError::unavailable("Herdr agent bridge is not configured"))
    );
}

#[test]
fn a_prompt_that_is_not_delivered_is_a_herdr_error() {
    let mut workspaces = InMemoryWorkspaceRepository::new();
    let workspace = bound_workspace(&mut workspaces, "herdr-1");
    let mut bridge = UnavailableAgentBridge::new();
    let error = deliver_preview_context(
        &mut bridge,
        &workspace,
        None,
        None,
        &[],
        Ok(vec![sample_agent("herdr-1", "w1:p1", true, "idle")]),
        None,
    )
    .unwrap_err();
    assert_eq!(
        error,
        ApplicationError::Herdr(HerdrHostError::unavailable("Herdr agent bridge is not configured"))
    );
}

#[test]
fn an_in_memory_preview_window_opens_as_asked_and_gives_its_image() {
    let mut workspaces = InMemoryWorkspaceRepository::new();
    let workspace = bound_workspace(&mut workspaces, "herdr-1");
    let adapter = InMemoryPreviewAdapter::new(vec![1, 2, 3]);
    let session = adapter.open(&workspace, Some("http://localhost:5173".into())).unwrap();
    assert_eq!(session.url.as_deref(), Some("http://localhost:5173"));
    assert_eq!(session.status, PreviewStatus::Open);
    assert_eq!(adapter.capture_screenshot(&workspace).unwrap().png, vec![1, 2, 3]);
}

#[test]
fn a_captured_screenshot_stores_the_window_image_with_a_full_digest() {
    let mut workspaces = InMemoryWorkspaceRepository::new();
    let workspace = bound_workspace(&mut workspaces, "herdr-1");
    let mut previews = InMemoryPreviewRepository::new();
    let mut events = EventBus::new(8);
    let mut store = InMemoryScreenshotStore::new();
    let adapter = InMemoryPreviewAdapter::new(vec![9, 8, 7, 6]);
    let shot = CapturePreview::new(&mut previews, &adapter, &mut events, &mut store)
        .execute(&workspace)
        .unwrap();
    assert_eq!(shot.sha256.len(), 64);
    assert_eq!(shot.byte_size, 4);
    assert_eq!(store.load(&shot.path).unwrap(), vec![9, 8, 7, 6]);
    assert_eq!(&uuid_text(shot.screenshot_id)[14..15], "7");
    assert_eq!(&uuid_text(workspace.workspace_id.as_uuid())[14..15], "7");
}
