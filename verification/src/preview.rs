//! Preview sessions, screenshots, browser diagnostics, and the events that
//! announce changes to them.

use vstd::prelude::*;
use crate::clock::Timestamp;
use crate::domain::Workspace;
use crate::ident::{PreviewSessionId, WorkbenchWorkspaceId, is_time_ordered_uuid, new_event_uuid};

verus! {

/// A copy of an optional string.
pub fn clone_text_option(o: &Option<String>) -> (r: Option<String>)
    ensures
        r == *o,
{
    match o {
        Some(s) => Some(s.clone()),
        None => None,
    }
}

#[derive(Clone, Copy, Debug, PartialEq, Eq, Structural)]
pub enum PreviewStatus {
    Opening,
    Open,
    Unavailable,
}

/// The preview window of one workspace.
#[derive(Debug, PartialEq, Eq)]
pub struct PreviewSession {
    pub session_id: PreviewSessionId,
    pub workspace_id: WorkbenchWorkspaceId,
    pub url: Option<String>,
    pub title: Option<String>,
    pub status: PreviewStatus,
}

impl Clone for PreviewSession {
    fn clone(&self) -> (r: Self)
        ensures
            r == *self,
    {
        PreviewSession {
            session_id: self.session_id,
            workspace_id: self.workspace_id,
            url: clone_text_option(&self.url),
            title: clone_text_option(&self.title),
            status: self.status,
        }
    }
}

impl PreviewSession {
    /// A new session for `workspace`, still opening, with no title yet.
    pub fn opening(workspace: &Workspace, url: Option<String>) -> (s: Self)
        ensures
            s.workspace_id == workspace.workspace_id,
            s.url == url,
            s.title is None,
            s.status == PreviewStatus::Opening,
            is_time_ordered_uuid(s.session_id.0),
    {
        PreviewSession {
            session_id: PreviewSessionId::new(),
            workspace_id: workspace.workspace_id,
            url,
            title: None,
            status: PreviewStatus::Opening,
        }
    }

    /// The same session, now open.
    pub fn mark_open(self) -> (s: Self)
        ensures
            s == (PreviewSession { status: PreviewStatus::Open, ..self }),
    {
        let mut s = self;
        s.status = PreviewStatus::Open;
        s
    }
}

/// A stored screenshot of a preview window.
#[derive(Debug, PartialEq, Eq)]
pub struct PreviewScreenshot {
    pub screenshot_id: u128,
    pub workspace_id: WorkbenchWorkspaceId,
    pub path: String,
    pub sha256: String,
    pub byte_size: u64,
    pub revision: u64,
}

impl Clone for PreviewScreenshot {
    fn clone(&self) -> (r: Self)
        ensures
            r == *self,
    {
        PreviewScreenshot {
            screenshot_id: self.screenshot_id,
            workspace_id: self.workspace_id,
            path: self.path.clone(),
            sha256: self.sha256.clone(),
            byte_size: self.byte_size,
            revision: self.revision,
        }
    }
}

#[derive(Clone, Copy, Debug, PartialEq, Eq, Structural)]
pub enum PreviewDiagnosticKind {
    Console,
    Exception,
    Network,
}

#[derive(Clone, Copy, Debug, PartialEq, Eq, Structural)]
pub enum PreviewDiagnosticLevel {
    Warning,
    Error,
}

/// A console message, an uncaught exception, or a failed request seen in a
/// preview window.
#[derive(Debug, PartialEq, Eq)]
pub struct PreviewDiagnostic {
    pub workspace_id: WorkbenchWorkspaceId,
    pub kind: PreviewDiagnosticKind,
    pub level: PreviewDiagnosticLevel,
    pub message: String,
    pub source: Option<String>,
    pub status: Option<u16>,
    pub occurred_at: Timestamp,
}

impl Clone for PreviewDiagnostic {
    fn clone(&self) -> (r: Self)
        ensures
            r == *self,
    {
        PreviewDiagnostic {
            workspace_id: self.workspace_id,
            kind: self.kind,
            level: self.level,
            message: self.message.clone(),
            source: clone_text_option(&self.source),
            status: self.status,
            occurred_at: self.occurred_at,
        }
    }
}

#[derive(Clone, Copy, Debug, PartialEq, Eq, Structural)]
pub enum EventType {
    PreviewOpened,
    PreviewScreenshotCaptured,
    PreviewDiagnosticsUpdated,
    PreviewStateUpdated,
}

#[derive(Debug, PartialEq, Eq)]
pub struct PreviewOpened {
    pub session: PreviewSession,
}

#[derive(Debug, PartialEq, Eq)]
pub struct PreviewScreenshotCaptured {
    pub screenshot: PreviewScreenshot,
}

#[derive(Debug, PartialEq, Eq)]
pub struct PreviewDiagnosticsUpdated {
    pub diagnostic: PreviewDiagnostic,
}

#[derive(Debug, PartialEq, Eq)]
pub struct PreviewStateUpdated {
    pub session: PreviewSession,
}

#[derive(Debug, PartialEq, Eq)]
pub enum EventPayload {
    PreviewOpened(PreviewOpened),
    PreviewScreenshotCaptured(PreviewScreenshotCaptured),
    PreviewDiagnosticsUpdated(PreviewDiagnosticsUpdated),
    PreviewStateUpdated(PreviewStateUpdated),
}

impl Clone for EventPayload {
    fn clone(&self) -> (r: Self)
        ensures
            r == *self,
    {
        match self {
            EventPayload::PreviewOpened(p) => EventPayload::PreviewOpened(
                PreviewOpened { session: p.session.clone() },
            ),
            EventPayload::PreviewScreenshotCaptured(p) => EventPayload::PreviewScreenshotCaptured(
                PreviewScreenshotCaptured { screenshot: p.screenshot.clone() },
            ),
            EventPayload::PreviewDiagnosticsUpdated(p) => EventPayload::PreviewDiagnosticsUpdated(
                PreviewDiagnosticsUpdated { diagnostic: p.diagnostic.clone() },
            ),
            EventPayload::PreviewStateUpdated(p) => EventPayload::PreviewStateUpdated(
                PreviewStateUpdated { session: p.session.clone() },
            ),
        }
    }
}

/// `after` is `before` with one event added at its end.
pub open spec fn appended_one(before: Seq<AppEvent>, after: Seq<AppEvent>) -> bool {
    after.len() == before.len() + 1 && after.drop_last() == before
}

/// `e` announces that the preview `session` was opened, at `revision`.
pub open spec fn announces_opened(e: AppEvent, session: PreviewSession, revision: int) -> bool {
    &&& e.event_type == EventType::PreviewOpened
    &&& e.workspace_id == session.workspace_id
    &&& e.revision == revision
    &&& e.payload == EventPayload::PreviewOpened(PreviewOpened { session })
}

/// `e` announces that `screenshot` was stored, at the screenshot's revision.
pub open spec fn announces_screenshot(e: AppEvent, screenshot: PreviewScreenshot) -> bool {
    &&& e.event_type == EventType::PreviewScreenshotCaptured
    &&& e.workspace_id == screenshot.workspace_id
    &&& e.revision == screenshot.revision
    &&& e.payload == EventPayload::PreviewScreenshotCaptured(PreviewScreenshotCaptured { screenshot })
}

/// `e` announces that `diagnostic` was recorded; it carries no revision.
pub open spec fn announces_diagnostic(e: AppEvent, diagnostic: PreviewDiagnostic) -> bool {
    &&& e.event_type == EventType::PreviewDiagnosticsUpdated
    &&& e.workspace_id == diagnostic.workspace_id
    &&& e.revision == 0
    &&& e.payload == EventPayload::PreviewDiagnosticsUpdated(PreviewDiagnosticsUpdated { diagnostic })
}

/// `e` announces the new page state of the preview `session`; it carries no revision.
pub open spec fn announces_state(e: AppEvent, session: PreviewSession) -> bool {
    &&& e.event_type == EventType::PreviewStateUpdated
    &&& e.workspace_id == session.workspace_id
    &&& e.revision == 0
    &&& e.payload == EventPayload::PreviewStateUpdated(PreviewStateUpdated { session })
}

/// The envelope of every event: who, when, at which revision, and what.
#[derive(Debug, PartialEq, Eq)]
pub struct AppEvent {
    pub event_id: u128,
    pub event_type: EventType,
    pub workspace_id: WorkbenchWorkspaceId,
    pub occurred_at: Timestamp,
    pub revision: u64,
    pub payload: EventPayload,
}

impl Clone for AppEvent {
    fn clone(&self) -> (r: Self)
        ensures
            r == *self,
    {
        AppEvent {
            event_id: self.event_id,
            event_type: self.event_type,
            workspace_id: self.workspace_id,
            occurred_at: self.occurred_at,
            revision: self.revision,
            payload: self.payload.clone(),
        }
    }
}

impl AppEvent {
    /// A preview was opened; durable, so it carries the new revision.
    pub fn preview_opened(session: PreviewSession, revision: u64) -> (e: Self)
        ensures
            announces_opened(e, session, revision as int),
    {
        AppEvent {
            event_id: new_event_uuid(),
            event_type: EventType::PreviewOpened,
            workspace_id: session.workspace_id,
            occurred_at: Timestamp::now(),
            revision,
            payload: EventPayload::PreviewOpened(PreviewOpened { session }),
        }
    }

    /// A screenshot was stored; durable, so it carries the new revision.
    pub fn preview_screenshot_captured(screenshot: PreviewScreenshot, revision: u64) -> (e: Self)
        ensures
            e.event_type == EventType::PreviewScreenshotCaptured,
            e.workspace_id == screenshot.workspace_id,
            e.revision == revision,
            e.payload == EventPayload::PreviewScreenshotCaptured(
                PreviewScreenshotCaptured { screenshot },
            ),
    {
        AppEvent {
            event_id: new_event_uuid(),
            event_type: EventType::PreviewScreenshotCaptured,
            workspace_id: screenshot.workspace_id,
            occurred_at: Timestamp::now(),
            revision,
            payload: EventPayload::PreviewScreenshotCaptured(PreviewScreenshotCaptured { screenshot }),
        }
    }

    /// A diagnostic was recorded; not durable, so its revision is 0.
    pub fn preview_diagnostics_updated(diagnostic: PreviewDiagnostic) -> (e: Self)
        ensures
            announces_diagnostic(e, diagnostic),
    {
        AppEvent {
            event_id: new_event_uuid(),
            event_type: EventType::PreviewDiagnosticsUpdated,
            workspace_id: diagnostic.workspace_id,
            occurred_at: Timestamp::now(),
            revision: 0,
            payload: EventPayload::PreviewDiagnosticsUpdated(PreviewDiagnosticsUpdated { diagnostic }),
        }
    }

    /// The page of a preview changed state; not durable, so its revision is 0.
    pub fn preview_state_updated(session: PreviewSession) -> (e: Self)
        ensures
            announces_state(e, session),
    {
        AppEvent {
            event_id: new_event_uuid(),
            event_type: EventType::PreviewStateUpdated,
            workspace_id: session.workspace_id,
            occurred_at: Timestamp::now(),
            revision: 0,
            payload: EventPayload::PreviewStateUpdated(PreviewStateUpdated { session }),
        }
    }
}

} // verus!
