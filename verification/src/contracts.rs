//! The shapes that the HTTP API and the WebSocket stream hand out, and how
//! the domain maps onto them. Each shape is a plain record of texts and
//! numbers; writing it as JSON is left to the serving side.

use vstd::prelude::*;
use crate::clock::{Timestamp, rfc3339_text};
use crate::domain::Workspace;
use crate::ident::{new_event_uuid, uuid_hyphenated_text, uuid_text};
use crate::preview::{AppEvent, EventPayload, EventType, PreviewDiagnostic, PreviewDiagnosticKind, PreviewDiagnosticLevel, PreviewScreenshot, PreviewSession};
use crate::render::{status_name, status_text};
use crate::text::owned;

verus! {

/// The answer of the health endpoint.
#[derive(Debug)]
pub struct HealthResponse {
    pub status: String,
}

impl HealthResponse {
    /// The service is ready.
    pub fn ready() -> (r: Self)
        ensures
            r.status@ == "ready"@,
    {
        HealthResponse { status: owned("ready") }
    }
}

/// A Workbench workspace as the API shows it.
#[derive(Debug)]
pub struct WorkspaceDto {
    pub workspace_id: String,
    pub herdr_workspace_id: String,
    pub label: String,
    pub cwd: String,
    pub revision: u64,
}

/// Whether `d` shows the workspace `w`.
pub open spec fn shows_workspace(d: WorkspaceDto, w: Workspace) -> bool {
    &&& d.workspace_id@ == uuid_hyphenated_text(w.workspace_id.0)
    &&& d.herdr_workspace_id@ == w.herdr_workspace_id@
    &&& d.label == w.label
    &&& d.cwd == w.cwd
    &&& d.revision == w.revision
}

impl WorkspaceDto {
    pub fn from_workspace(workspace: Workspace) -> (d: Self)
        ensures
            shows_workspace(d, workspace),
    {
        let workspace_id = uuid_text(workspace.workspace_id.0);
        let herdr_workspace_id = owned(workspace.herdr_workspace_id.as_str());
        WorkspaceDto {
            workspace_id,
            herdr_workspace_id,
            label: workspace.label,
            cwd: workspace.cwd,
            revision: workspace.revision,
        }
    }
}

/// Every bound workspace.
#[derive(Debug)]
pub struct WorkspaceListResponse {
    pub workspaces: Vec<WorkspaceDto>,
}

impl WorkspaceListResponse {
    /// The workspaces, shown in the order given.
    pub fn from_workspaces(workspaces: Vec<Workspace>) -> (r: Self)
        ensures
            r.workspaces@.len() == workspaces@.len(),
            forall|i: int|
                0 <= i < workspaces@.len() ==> #[trigger] shows_workspace(r.workspaces@[i], workspaces@[i]),
    {
        let mut out: Vec<WorkspaceDto> = Vec::new();
        for i in 0..workspaces.len()
            invariant
                out@.len() == i,
                forall|k: int| 0 <= k < i ==> #[trigger] shows_workspace(out@[k], workspaces@[k]),
        {
            let d = WorkspaceDto::from_workspace(workspaces[i].clone());
            out.push(d);
        }
        WorkspaceListResponse { workspaces: out }
    }
}

/// The body of a request to open a preview.
#[derive(Debug)]
pub struct PreviewOpenRequest {
    pub url: Option<String>,
}

/// A workspace together with its preview, if one was ever opened.
#[derive(Debug)]
pub struct PreviewStateResponse {
    pub workspace: WorkspaceDto,
    pub preview_session_id: Option<String>,
    pub preview_url: Option<String>,
    pub preview_status: Option<String>,
    pub preview_title: Option<String>,
}

/// The text of an optional text.
pub open spec fn text_option(o: Option<String>) -> Option<Seq<char>> {
    match o {
        Some(s) => Some(s@),
        None => None,
    }
}

/// Whether `r` shows the workspace `w` with the preview `p`.
pub open spec fn shows_state(r: PreviewStateResponse, w: Workspace, p: Option<PreviewSession>) -> bool {
    &&& shows_workspace(r.workspace, w)
    &&& match p {
        Some(s) => {
            &&& text_option(r.preview_session_id) == Some(uuid_hyphenated_text(s.session_id.0))
            &&& r.preview_url == s.url
            &&& text_option(r.preview_status) == Some(status_name(s.status))
            &&& r.preview_title == s.title
        },
        None => {
            &&& r.preview_session_id is None
            &&& r.preview_url is None
            &&& r.preview_status is None
            &&& r.preview_title is None
        },
    }
}

impl PreviewStateResponse {
    pub fn from_parts(workspace: Workspace, preview: Option<PreviewSession>) -> (r: Self)
        ensures
            shows_state(r, workspace, preview),
    {
        let dto = WorkspaceDto::from_workspace(workspace);
        match preview {
            Some(s) => PreviewStateResponse {
                workspace: dto,
                preview_session_id: Some(uuid_text(s.session_id.0)),
                preview_url: s.url,
                preview_status: Some(owned(status_text(s.status))),
                preview_title: s.title,
            },
            None => PreviewStateResponse {
                workspace: dto,
                preview_session_id: None,
                preview_url: None,
                preview_status: None,
                preview_title: None,
            },
        }
    }
}

/// The state of a preview session, as the event stream shows it.
#[derive(Debug)]
pub struct PreviewSessionDto {
    pub preview_session_id: String,
    pub preview_url: Option<String>,
    pub preview_status: String,
    pub preview_title: Option<String>,
}

/// Whether `d` shows the session `s`.
pub open spec fn shows_session(d: PreviewSessionDto, s: PreviewSession) -> bool {
    &&& d.preview_session_id@ == uuid_hyphenated_text(s.session_id.0)
    &&& d.preview_url == s.url
    &&& d.preview_status@ == status_name(s.status)
    &&& d.preview_title == s.title
}

impl PreviewSessionDto {
    pub fn from_session(session: PreviewSession) -> (d: Self)
        ensures
            shows_session(d, session),
    {
        PreviewSessionDto {
            preview_session_id: uuid_text(session.session_id.0),
            preview_url: session.url,
            preview_status: owned(status_text(session.status)),
            preview_title: session.title,
        }
    }
}

/// A stored screenshot, as the API shows it.
#[derive(Debug)]
pub struct PreviewScreenshotResponse {
    pub screenshot_id: String,
    pub workspace_id: String,
    pub path: String,
    pub sha256: String,
    pub byte_size: u64,
    pub revision: u64,
}

/// Whether `r` shows the screenshot `s`.
pub open spec fn shows_screenshot(r: PreviewScreenshotResponse, s: PreviewScreenshot) -> bool {
    &&& r.screenshot_id@ == uuid_hyphenated_text(s.screenshot_id)
    &&& r.workspace_id@ == uuid_hyphenated_text(s.workspace_id.0)
    &&& r.path == s.path
    &&& r.sha256 == s.sha256
    &&& r.byte_size == s.byte_size
    &&& r.revision == s.revision
}

impl PreviewScreenshotResponse {
    pub fn from_screenshot(screenshot: PreviewScreenshot) -> (r: Self)
        ensures
            shows_screenshot(r, screenshot),
    {
        PreviewScreenshotResponse {
            screenshot_id: uuid_text(screenshot.screenshot_id),
            workspace_id: uuid_text(screenshot.workspace_id.0),
            path: screenshot.path,
            sha256: screenshot.sha256,
            byte_size: screenshot.byte_size,
            revision: screenshot.revision,
        }
    }
}

/// The wire name of a diagnostic's kind.
pub open spec fn kind_wire_name(k: PreviewDiagnosticKind) -> Seq<char> {
    match k {
        PreviewDiagnosticKind::Console => "console"@,
        PreviewDiagnosticKind::Exception => "exception"@,
        PreviewDiagnosticKind::Network => "network"@,
    }
}

/// The wire name of a diagnostic's level.
pub open spec fn level_wire_name(l: PreviewDiagnosticLevel) -> Seq<char> {
    match l {
        PreviewDiagnosticLevel::Warning => "warning"@,
        PreviewDiagnosticLevel::Error => "error"@,
    }
}

pub fn kind_wire_text(k: PreviewDiagnosticKind) -> (r: &'static str)
    ensures
        r@ == kind_wire_name(k),
{
    match k {
        PreviewDiagnosticKind::Console => "console",
        PreviewDiagnosticKind::Exception => "exception",
        PreviewDiagnosticKind::Network => "network",
    }
}

pub fn level_wire_text(l: PreviewDiagnosticLevel) -> (r: &'static str)
    ensures
        r@ == level_wire_name(l),
{
    match l {
        PreviewDiagnosticLevel::Warning => "warning",
        PreviewDiagnosticLevel::Error => "error",
    }
}

/// A recorded browser diagnostic, as the API shows it.
#[derive(Debug)]
pub struct PreviewDiagnosticDto {
    pub kind: String,
    pub level: String,
    pub message: String,
    pub source: Option<String>,
    pub status: Option<u16>,
    pub occurred_at: String,
}

/// Whether `d` shows the diagnostic `g`.
pub open spec fn shows_diagnostic(d: PreviewDiagnosticDto, g: PreviewDiagnostic) -> bool {
    &&& d.kind@ == kind_wire_name(g.kind)
    &&& d.level@ == level_wire_name(g.level)
    &&& d.message == g.message
    &&& d.source == g.source
    &&& d.status == g.status
    &&& d.occurred_at@ == rfc3339_text(g.occurred_at@.0, g.occurred_at@.1)
}

impl PreviewDiagnosticDto {
    pub fn from_diagnostic(diagnostic: PreviewDiagnostic) -> (d: Self)
        ensures
            shows_diagnostic(d, diagnostic),
    {
        let occurred_at = diagnostic.occurred_at.to_rfc3339();
        PreviewDiagnosticDto {
            kind: owned(kind_wire_text(diagnostic.kind)),
            level: owned(level_wire_text(diagnostic.level)),
            message: diagnostic.message,
            source: diagnostic.source,
            status: diagnostic.status,
            occurred_at,
        }
    }
}

/// The diagnostics recorded for a workspace, oldest first.
#[derive(Debug)]
pub struct PreviewDiagnosticsResponse {
    pub diagnostics: Vec<PreviewDiagnosticDto>,
}

impl PreviewDiagnosticsResponse {
    /// The diagnostics, shown in the order given.
    pub fn from_diagnostics(diagnostics: Vec<PreviewDiagnostic>) -> (r: Self)
        ensures
            r.diagnostics@.len() == diagnostics@.len(),
            forall|i: int|
                0 <= i < diagnostics@.len() ==> #[trigger] shows_diagnostic(r.diagnostics@[i], diagnostics@[i]),
    {
        let mut out: Vec<PreviewDiagnosticDto> = Vec::new();
        for i in 0..diagnostics.len()
            invariant
                out@.len() == i,
                forall|k: int| 0 <= k < i ==> #[trigger] shows_diagnostic(out@[k], diagnostics@[k]),
        {
            let d = PreviewDiagnosticDto::from_diagnostic(diagnostics[i].clone());
            out.push(d);
        }
        PreviewDiagnosticsResponse { diagnostics: out }
    }
}

/// What an event envelope carries: the whole state in a snapshot, or the
/// changed session, screenshot or diagnostic, without the variant's name
/// around it.
#[derive(Debug)]
pub enum EnvelopePayload {
    State(PreviewStateResponse),
    Session(PreviewSessionDto),
    Screenshot(PreviewScreenshotResponse),
    Diagnostic(PreviewDiagnosticDto),
}

/// One message of a workspace's event stream.
#[derive(Debug)]
pub struct WorkspaceEventEnvelope {
    pub event_id: String,
    pub event_type: String,
    pub workspace_id: String,
    pub occurred_at: String,
    pub revision: u64,
    pub payload: EnvelopePayload,
}

/// The wire name of an event type.
pub open spec fn event_type_wire_name(t: EventType) -> Seq<char> {
    match t {
        EventType::PreviewOpened => "preview.opened"@,
        EventType::PreviewScreenshotCaptured => "preview.screenshot_captured"@,
        EventType::PreviewDiagnosticsUpdated => "preview.diagnostics_updated"@,
        EventType::PreviewStateUpdated => "preview.state_updated"@,
    }
}

pub fn event_type_wire_text(t: EventType) -> (r: &'static str)
    ensures
        r@ == event_type_wire_name(t),
{
    match t {
        EventType::PreviewOpened => "preview.opened",
        EventType::PreviewScreenshotCaptured => "preview.screenshot_captured",
        EventType::PreviewDiagnosticsUpdated => "preview.diagnostics_updated",
        EventType::PreviewStateUpdated => "preview.state_updated",
    }
}

/// Whether `p` shows what the event payload `e` carries.
pub open spec fn shows_payload(p: EnvelopePayload, e: EventPayload) -> bool {
    match e {
        EventPayload::PreviewOpened(o) => p matches EnvelopePayload::Session(d) && shows_session(d, o.session),
        EventPayload::PreviewStateUpdated(u) => p matches EnvelopePayload::Session(d) && shows_session(d, u.session),
        EventPayload::PreviewScreenshotCaptured(c) => p matches EnvelopePayload::Screenshot(r) && shows_screenshot(r, c.screenshot),
        EventPayload::PreviewDiagnosticsUpdated(u) => p matches EnvelopePayload::Diagnostic(d) && shows_diagnostic(d, u.diagnostic),
    }
}

/// `env` is the stream message of `event`: its id and time as text, the wire
/// name of its type, its workspace, its revision and its payload.
pub open spec fn is_envelope_of(env: WorkspaceEventEnvelope, event: AppEvent) -> bool {
    &&& env.event_id@ == uuid_hyphenated_text(event.event_id)
    &&& env.event_type@ == event_type_wire_name(event.event_type)
    &&& env.workspace_id@ == uuid_hyphenated_text(event.workspace_id.0)
    &&& env.occurred_at@ == rfc3339_text(event.occurred_at@.0, event.occurred_at@.1)
    &&& env.revision == event.revision
    &&& shows_payload(env.payload, event.payload)
}

impl WorkspaceEventEnvelope {
    /// The first message of every stream: the workspace's whole state now,
    /// at its current revision, under a fresh event id.
    pub fn snapshot(state: PreviewStateResponse) -> (e: Self)
        ensures
            e.event_type@ == "workspace.snapshot"@,
            e.workspace_id == state.workspace.workspace_id,
            e.revision == state.workspace.revision,
            e.payload == EnvelopePayload::State(state),
    {
        let event_id = uuid_text(new_event_uuid());
        let occurred_at = Timestamp::now().to_rfc3339();
        let workspace_id = state.workspace.workspace_id.clone();
        let revision = state.workspace.revision;
        WorkspaceEventEnvelope {
            event_id,
            event_type: owned("workspace.snapshot"),
            workspace_id,
            occurred_at,
            revision,
            payload: EnvelopePayload::State(state),
        }
    }

    /// An application event as a stream message.
    pub fn from_app_event(event: AppEvent) -> (e: Self)
        ensures
            is_envelope_of(e, event),
    {
        let event_id = uuid_text(event.event_id);
        let event_type = owned(event_type_wire_text(event.event_type));
        let workspace_id = uuid_text(event.workspace_id.0);
        let occurred_at = event.occurred_at.to_rfc3339();
        let payload = match event.payload {
            EventPayload::PreviewOpened(o) => EnvelopePayload::Session(
                PreviewSessionDto::from_session(o.session),
            ),
            EventPayload::PreviewStateUpdated(u) => EnvelopePayload::Session(
                PreviewSessionDto::from_session(u.session),
            ),
            EventPayload::PreviewScreenshotCaptured(c) => EnvelopePayload::Screenshot(
                PreviewScreenshotResponse::from_screenshot(c.screenshot),
            ),
            EventPayload::PreviewDiagnosticsUpdated(u) => EnvelopePayload::Diagnostic(
                PreviewDiagnosticDto::from_diagnostic(u.diagnostic),
            ),
        };
        WorkspaceEventEnvelope {
            event_id,
            event_type,
            workspace_id,
            occurred_at,
            revision: event.revision,
            payload,
        }
    }
}

/// The body of every error answer.
#[derive(Debug)]
pub struct ErrorResponse {
    pub error: ErrorBody,
}

/// A stable error code, its message, and the request it answers, if known.
#[derive(Debug)]
pub struct ErrorBody {
    pub code: String,
    pub message: String,
    pub request_id: Option<String>,
}

} // verus!
