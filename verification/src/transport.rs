//! What the HTTP routes and the WebSocket stream decide: which workspace a
//! path names, which answer or stable error envelope each outcome gets, the
//! content type of a web asset, and what the stream does with each event it
//! receives. Reading requests and writing answers is left to the server.

use vstd::prelude::*;
use crate::contracts::{
    ErrorBody, ErrorResponse, PreviewDiagnosticsResponse, PreviewOpenRequest, PreviewScreenshotResponse,
    PreviewStateResponse, WorkspaceEventEnvelope, WorkspaceListResponse, shows_diagnostic,
    shows_screenshot, shows_state, shows_workspace,
};
use crate::domain::{Workspace, domain_error_text, is_path_separator};
use crate::herdr::herdr_error_text;
use crate::ident::{WorkbenchWorkspaceId, uuid_parse, uuid_parse_outcome};
use crate::ports::{
    ApplicationError, CapturedPreviewImage, EventPublisher, PreviewAdapter, PreviewDiagnosticsSink, PreviewRecords,
    PreviewScreenshotRepository, PreviewTransactionRepository, RepositoryError, ScreenshotStore,
    WorkspaceRepository, binding_for_id, diagnostics_in, preview_error_text, repository_error_text,
    revision_in,
};
use crate::preview::{AppEvent, PreviewScreenshot, PreviewSession, announces_opened, announces_screenshot, appended_one};
use crate::digest::{lower_hex, sha256_of};
use crate::previewing::{CapturePreview, OpenPreview, preview_opened_in};
use crate::text::{chars_of, owned, string_from_chars, text_equals};

verus! {

// ---------------------------------------------------------------------------
// Errors.

/// An error answer: a stable code, a message, and the HTTP status.
#[derive(Debug)]
pub struct ApiError {
    pub code: &'static str,
    pub message: String,
    pub status: u16,
}

impl View for ApiError {
    type V = (Seq<char>, Seq<char>, u16);

    open spec fn view(&self) -> (Seq<char>, Seq<char>, u16) {
        (self.code@, self.message@, self.status)
    }
}

/// The answer to a path that names no bound workspace.
pub open spec fn workspace_not_found_error() -> (Seq<char>, Seq<char>, u16) {
    ("workspace_not_found"@, "workspace was not found"@, 404)
}

/// The answer to a failed storage operation.
pub open spec fn repository_api_error(e: RepositoryError) -> (Seq<char>, Seq<char>, u16) {
    ("internal_error"@, repository_error_text(e@), 500)
}

/// The answer to a failed use case.
pub open spec fn application_api_error(e: ApplicationError) -> (Seq<char>, Seq<char>, u16) {
    match e {
        ApplicationError::Preview(p) => ("preview_unavailable"@, preview_error_text(p@), 503),
        ApplicationError::Repository(r) => repository_api_error(r),
        ApplicationError::Domain(d) => ("invalid_request"@, domain_error_text(d), 400),
        ApplicationError::Herdr(h) => ("herdr_unavailable"@, herdr_error_text(h@), 503),
    }
}

impl ApiError {
    pub fn workspace_not_found() -> (e: Self)
        ensures
            e@ == workspace_not_found_error(),
    {
        ApiError { code: "workspace_not_found", message: owned("workspace was not found"), status: 404 }
    }

    pub fn screenshot_not_found() -> (e: Self)
        ensures
            e@ == ("screenshot_not_found"@, "preview screenshot was not found"@, 404u16),
    {
        ApiError {
            code: "screenshot_not_found",
            message: owned("preview screenshot was not found"),
            status: 404,
        }
    }

    pub fn repository(error: RepositoryError) -> (e: Self)
        ensures
            e@ == repository_api_error(error),
    {
        ApiError { code: "internal_error", message: error.describe(), status: 500 }
    }

    pub fn application(error: ApplicationError) -> (e: Self)
        ensures
            e@ == application_api_error(error),
    {
        match error {
            ApplicationError::Preview(p) => ApiError {
                code: "preview_unavailable",
                message: p.describe(),
                status: 503,
            },
            ApplicationError::Repository(r) => ApiError::repository(r),
            ApplicationError::Domain(d) => ApiError {
                code: "invalid_request",
                message: owned(d.message()),
                status: 400,
            },
            ApplicationError::Herdr(h) => ApiError {
                code: "herdr_unavailable",
                message: h.describe(),
                status: 503,
            },
        }
    }

    /// The status and the body of the answer: `{"error": {code, message,
    /// request_id: null}}`.
    pub fn into_response(self) -> (r: (u16, ErrorResponse))
        ensures
            r.0 == self.status,
            r.1.error.code@ == self.code@,
            r.1.error.message == self.message,
            r.1.error.request_id is None,
    {
        let status = self.status;
        (status, ErrorResponse {
            error: ErrorBody { code: owned(self.code), message: self.message, request_id: None },
        })
    }
}

// ---------------------------------------------------------------------------
// The workspace a path names.

/// The workspace named by the outcome of parsing a path segment as a UUID:
/// a segment that is no UUID names no workspace.
pub fn workspace_id_from_parsed(parsed: Result<u128, String>) -> (r: Result<WorkbenchWorkspaceId, ApiError>)
    ensures
        parsed matches Ok(v) ==> r == Ok::<WorkbenchWorkspaceId, ApiError>(WorkbenchWorkspaceId(v)),
        parsed is Err ==> (r matches Err(e) && e@ == workspace_not_found_error()),
{
    match parsed {
        Ok(v) => Ok(WorkbenchWorkspaceId(v)),
        Err(_) => Err(ApiError::workspace_not_found()),
    }
}

/// The workspace identifier in a path segment.
pub fn parse_workspace_id(id: &str) -> (r: Result<WorkbenchWorkspaceId, ApiError>)
    ensures
        uuid_parse_outcome(id@) matches Ok(v) ==> r == Ok::<WorkbenchWorkspaceId, ApiError>(WorkbenchWorkspaceId(v)),
        uuid_parse_outcome(id@) is Err ==> (r matches Err(e) && e@ == workspace_not_found_error()),
        forall|v: u128| #[trigger] crate::ident::uuid_hyphenated_text(v) == id@ ==> r == Ok::<WorkbenchWorkspaceId, ApiError>(
            WorkbenchWorkspaceId(v),
        ),
{
    workspace_id_from_parsed(uuid_parse(id))
}

/// The bound workspace `id`, or the answer when there is none.
fn find_workspace<W: WorkspaceRepository>(workspaces: &W, id: &WorkbenchWorkspaceId) -> (r: Result<Workspace, ApiError>)
    ensures
        workspaces.never_fails() ==> (r is Ok <==> binding_for_id(workspaces.workspaces(), *id) is Some),
        r matches Ok(w) ==> binding_for_id(workspaces.workspaces(), *id) == Some(w),
        r matches Err(e) ==> (e@ == workspace_not_found_error() && binding_for_id(workspaces.workspaces(), *id) is None)
            || (e@.2 == 500 && !workspaces.never_fails()),
{
    match workspaces.find_by_id(id) {
        Err(e) => Err(ApiError::repository(e)),
        Ok(None) => Err(ApiError::workspace_not_found()),
        Ok(Some(w)) => Ok(w),
    }
}

/// The stored session of workspace `id`, if any.
pub open spec fn session_of<P: PreviewRecords>(previews: P, id: u128) -> Option<PreviewSession> {
    if previews.sessions().contains_key(id) {
        Some(previews.sessions()[id])
    } else {
        None
    }
}

// ---------------------------------------------------------------------------
// Routes.

/// `GET /api/v1/health`.
pub fn health() -> (r: crate::contracts::HealthResponse)
    ensures
        r.status@ == "ready"@,
{
    crate::contracts::HealthResponse::ready()
}

/// `GET /api/v1/workspaces`: every bound workspace, oldest first.
pub fn list_workspaces<W: WorkspaceRepository>(workspaces: &W) -> (r: Result<WorkspaceListResponse, ApiError>)
    ensures
        workspaces.never_fails() ==> r is Ok,
        r matches Ok(resp) ==> resp.workspaces@.len() == workspaces.workspaces().len() && forall|i: int|
            0 <= i < resp.workspaces@.len() ==> #[trigger] shows_workspace(resp.workspaces@[i], workspaces.workspaces()[i]),
        r matches Err(e) ==> e@.2 == 500,
{
    match workspaces.list() {
        Err(e) => Err(ApiError::repository(e)),
        Ok(items) => Ok(WorkspaceListResponse::from_workspaces(items)),
    }
}

/// `GET /api/v1/workspaces/{id}/state`: the workspace and its preview.
pub fn workspace_state<W: WorkspaceRepository, P: PreviewTransactionRepository>(
    workspace_id: &WorkbenchWorkspaceId,
    workspaces: &W,
    previews: &P,
) -> (r: Result<PreviewStateResponse, ApiError>)
    ensures
        workspaces.never_fails() && previews.never_fails() ==> (r is Ok <==> binding_for_id(workspaces.workspaces(), *workspace_id) is Some),
        r matches Ok(resp) ==> binding_for_id(workspaces.workspaces(), *workspace_id) matches Some(w) && shows_state(
            resp,
            w,
            session_of(*previews, workspace_id.0),
        ),
        r matches Err(e) ==> (e@ == workspace_not_found_error() && binding_for_id(workspaces.workspaces(), *workspace_id) is None)
            || e@.2 == 500,
{
    let workspace = match find_workspace(workspaces, workspace_id) {
        Err(e) => {
            return Err(e);
        },
        Ok(w) => w,
    };
    match previews.find_by_workspace(workspace_id) {
        Err(e) => Err(ApiError::repository(e)),
        Ok(preview) => Ok(PreviewStateResponse::from_parts(workspace, preview)),
    }
}

/// `resp` answers a request to open the preview of `w`, which took the
/// preview records from `p0` to `p1` and the published events from `e0` to
/// `e1`: it shows `w` with the session that was found open (nothing changed,
/// nothing published) or that `adapter` gave when asked to open `url`, which
/// was stored and announced.
pub open spec fn answers_open<P: PreviewRecords, A: PreviewAdapter>(
    resp: PreviewStateResponse,
    w: Workspace,
    p0: P,
    p1: P,
    e0: Seq<AppEvent>,
    e1: Seq<AppEvent>,
    adapter: A,
    url: Option<String>,
) -> bool {
    exists|s: PreviewSession|
        #[trigger] shows_state(resp, w, Some(s)) && (if p0.sessions().contains_key(w.workspace_id.0) {
            p1 == p0 && s == p0.sessions()[w.workspace_id.0] && e1 == e0
        } else {
            &&& adapter.opens(w, url, Ok(s))
            &&& preview_opened_in(p0, p1, w.workspace_id.0, s)
            &&& appended_one(e0, e1)
            &&& announces_opened(e1.last(), s, revision_in(p0.revisions(), w.workspace_id.0) + 1)
        })
}

/// `POST /api/v1/workspaces/{id}/preview/open`: opens the workspace's
/// preview (or finds it open) and answers with the workspace as it was read
/// and the session.
pub fn open_preview<W: WorkspaceRepository, P: PreviewTransactionRepository, A: PreviewAdapter, E: EventPublisher>(
    workspace_id: &WorkbenchWorkspaceId,
    workspaces: &W,
    previews: &mut P,
    adapter: &A,
    events: &mut E,
    request: PreviewOpenRequest,
) -> (r: Result<PreviewStateResponse, ApiError>)
    requires
        revision_in(old(previews).revisions(), workspace_id.0) < u64::MAX,
    ensures
        final(previews).never_fails() == old(previews).never_fails(),
        r is Err ==> *final(previews) == *old(previews),
        r is Err ==> final(events).published() == old(events).published(),
        workspaces.never_fails() && binding_for_id(workspaces.workspaces(), *workspace_id) is None ==> (r matches Err(e)
            && e@ == workspace_not_found_error()),
        workspaces.never_fails() && old(previews).never_fails() && binding_for_id(workspaces.workspaces(), *workspace_id) is Some
            && old(previews).sessions().contains_key(workspace_id.0) ==> r is Ok,
        r matches Ok(resp) ==> (binding_for_id(workspaces.workspaces(), *workspace_id) matches Some(w) && answers_open(
            resp,
            w,
            *old(previews),
            *final(previews),
            old(events).published(),
            final(events).published(),
            *adapter,
            request.url,
        )),
        r matches Err(e) ==> (e@ == workspace_not_found_error() && binding_for_id(workspaces.workspaces(), *workspace_id) is None)
            || e@.2 == 500 || e@.2 == 503 || e@.2 == 400,
{
    let ghost url = request.url;
    match find_workspace(workspaces, workspace_id) {
        Err(e) => Err(e),
        Ok(workspace) => {
            proof {
                let s = workspaces.workspaces();
                let i = choose|i: int| crate::ports::is_first_with_id(s, *workspace_id, i);
                assert(workspace.workspace_id == *workspace_id);
            }
            let opener = OpenPreview::new(previews, adapter, events);
            match opener.execute(&workspace, request.url) {
                Err(e) => Err(ApiError::application(e)),
                Ok(session) => {
                    let ghost s = session;
                    let resp = PreviewStateResponse::from_parts(workspace, Some(session));
                    assert(shows_state(resp, workspace, Some(s)));
                    assert(answers_open(
                        resp,
                        workspace,
                        *old(previews),
                        *previews,
                        old(events).published(),
                        events.published(),
                        *adapter,
                        url,
                    ));
                    Ok(resp)
                },
            }
        },
    }
}

/// `resp` answers a request to capture the preview of `w`, which took the
/// preview records from `p0` to `p1`, left the image files `files` and took
/// the published events from `e0` to `e1`: it shows the screenshot that was
/// stored as the latest of `w`, at the next revision, whose image is stored
/// under its path with its size and digest, whose image is one that
/// `adapter` gave when asked for an image of `w`, and whose event was
/// published.
pub open spec fn answers_capture<P: PreviewRecords, A: PreviewAdapter>(
    resp: PreviewScreenshotResponse,
    w: Workspace,
    p0: P,
    p1: P,
    files: Map<Seq<char>, Seq<u8>>,
    e0: Seq<AppEvent>,
    e1: Seq<AppEvent>,
    adapter: A,
) -> bool {
    exists|s: PreviewScreenshot|
        #[trigger] shows_screenshot(resp, s) && {
            let id = w.workspace_id.0;
            &&& exists|img: CapturedPreviewImage| #[trigger] adapter.captures(w, Ok(img)) && files[s.path@] == img.png@
            &&& appended_one(e0, e1)
            &&& announces_screenshot(e1.last(), s)
            &&& s.workspace_id == w.workspace_id
            &&& s.revision == revision_in(p0.revisions(), id) + 1
            &&& p1.sessions() == p0.sessions()
            &&& p1.screenshots() == p0.screenshots().insert(id, s)
            &&& p1.revisions() == p0.revisions().insert(id, s.revision)
            &&& files.contains_key(s.path@)
            &&& s.byte_size == files[s.path@].len()
            &&& s.sha256@ == lower_hex(sha256_of(files[s.path@]))
        }
}

/// `POST /api/v1/workspaces/{id}/preview/screenshot`: captures, stores and
/// announces a screenshot of the workspace's preview.
pub fn capture_screenshot<W: WorkspaceRepository, P: PreviewScreenshotRepository, A: PreviewAdapter, E: EventPublisher, S: ScreenshotStore>(
    workspace_id: &WorkbenchWorkspaceId,
    workspaces: &W,
    previews: &mut P,
    adapter: &A,
    events: &mut E,
    store: &mut S,
) -> (r: Result<PreviewScreenshotResponse, ApiError>)
    requires
        revision_in(old(previews).revisions(), workspace_id.0) < u64::MAX,
    ensures
        final(previews).never_fails() == old(previews).never_fails(),
        r is Err ==> *final(previews) == *old(previews),
        r is Err ==> final(events).published() == old(events).published(),
        workspaces.never_fails() && binding_for_id(workspaces.workspaces(), *workspace_id) is None ==> (r matches Err(e)
            && e@ == workspace_not_found_error()),
        r matches Ok(resp) ==> (binding_for_id(workspaces.workspaces(), *workspace_id) matches Some(w) && answers_capture(
            resp,
            w,
            *old(previews),
            *final(previews),
            final(store).files(),
            old(events).published(),
            final(events).published(),
            *adapter,
        )),
        r matches Err(e) ==> (e@ == workspace_not_found_error() && binding_for_id(workspaces.workspaces(), *workspace_id) is None)
            || e@.2 == 500 || e@.2 == 503 || e@.2 == 400,
{
    match find_workspace(workspaces, workspace_id) {
        Err(e) => Err(e),
        Ok(workspace) => {
            proof {
                let s = workspaces.workspaces();
                let i = choose|i: int| crate::ports::is_first_with_id(s, *workspace_id, i);
                assert(workspace.workspace_id == *workspace_id);
            }
            let capture = CapturePreview::new(previews, adapter, events, store);
            match capture.execute(&workspace) {
                Err(e) => Err(ApiError::application(e)),
                Ok(screenshot) => {
                    let ghost s = screenshot;
                    let resp = PreviewScreenshotResponse::from_screenshot(screenshot);
                    assert(shows_screenshot(resp, s));
                    assert(answers_capture(
                        resp,
                        workspace,
                        *old(previews),
                        *previews,
                        store.files(),
                        old(events).published(),
                        events.published(),
                        *adapter,
                    ));
                    Ok(resp)
                },
            }
        },
    }
}

/// `GET /api/v1/workspaces/{id}/preview/screenshot`: the PNG bytes of the
/// latest screenshot, as stored.
pub fn latest_screenshot<P: PreviewScreenshotRepository, S: ScreenshotStore>(
    workspace_id: &WorkbenchWorkspaceId,
    previews: &P,
    store: &S,
) -> (r: Result<Vec<u8>, ApiError>)
    ensures
        previews.never_fails() && !previews.screenshots().contains_key(workspace_id.0) ==> (r matches Err(e) && e@
            == ("screenshot_not_found"@, "preview screenshot was not found"@, 404u16)),
        previews.never_fails() && store.never_fails() && previews.screenshots().contains_key(workspace_id.0)
            && store.files().contains_key(previews.screenshots()[workspace_id.0].path@) ==> r is Ok,
        r matches Ok(png) ==> previews.screenshots().contains_key(workspace_id.0) && store.files().contains_key(
            previews.screenshots()[workspace_id.0].path@,
        ) && png@ == store.files()[previews.screenshots()[workspace_id.0].path@],
        r matches Err(e) ==> e@.2 == 404 || e@.2 == 500,
{
    let screenshot = match previews.find_latest(workspace_id) {
        Err(e) => {
            return Err(ApiError::repository(e));
        },
        Ok(None) => {
            return Err(ApiError::screenshot_not_found());
        },
        Ok(Some(s)) => s,
    };
    match store.load(screenshot.path.as_str()) {
        Err(e) => Err(ApiError::repository(e)),
        Ok(png) => Ok(png),
    }
}

/// `GET /api/v1/workspaces/{id}/preview/diagnostics`: the diagnostics kept
/// for a bound workspace, oldest first.
pub fn workspace_diagnostics<W: WorkspaceRepository, D: PreviewDiagnosticsSink>(
    workspace_id: &WorkbenchWorkspaceId,
    workspaces: &W,
    diagnostics: &D,
) -> (r: Result<PreviewDiagnosticsResponse, ApiError>)
    ensures
        workspaces.never_fails() ==> (r is Ok <==> binding_for_id(workspaces.workspaces(), *workspace_id) is Some),
        r matches Ok(resp) ==> {
            let kept = diagnostics_in(diagnostics.entries(), workspace_id.0);
            &&& binding_for_id(workspaces.workspaces(), *workspace_id) is Some
            &&& resp.diagnostics@.len() == kept.len()
            &&& forall|i: int| 0 <= i < kept.len() ==> #[trigger] shows_diagnostic(resp.diagnostics@[i], kept[i])
        },
        r matches Err(e) ==> (e@ == workspace_not_found_error() && binding_for_id(workspaces.workspaces(), *workspace_id) is None)
            || e@.2 == 500,
{
    match find_workspace(workspaces, workspace_id) {
        Err(e) => {
            return Err(e);
        },
        Ok(_) => {},
    }
    let kept = diagnostics.list(workspace_id);
    Ok(PreviewDiagnosticsResponse::from_diagnostics(kept))
}

/// `GET /ws/v1/workspaces/{id}`, before the upgrade: the snapshot that opens
/// the stream of a bound workspace.
pub fn workspace_snapshot<W: WorkspaceRepository, P: PreviewTransactionRepository>(
    workspace_id: &WorkbenchWorkspaceId,
    workspaces: &W,
    previews: &P,
) -> (r: Result<WorkspaceEventEnvelope, ApiError>)
    ensures
        workspaces.never_fails() && previews.never_fails() ==> (r is Ok <==> binding_for_id(workspaces.workspaces(), *workspace_id) is Some),
        r matches Ok(env) ==> ({
            &&& env.event_type@ == "workspace.snapshot"@
            &&& binding_for_id(workspaces.workspaces(), *workspace_id) matches Some(w)
            &&& env.revision == w.revision
            &&& env.payload matches crate::contracts::EnvelopePayload::State(state)
            &&& shows_state(state, w, session_of(*previews, workspace_id.0))
        }),
        r matches Err(e) ==> (e@ == workspace_not_found_error() && binding_for_id(workspaces.workspaces(), *workspace_id) is None)
            || e@.2 == 500,
{
    match workspace_state(workspace_id, workspaces, previews) {
        Err(e) => Err(e),
        Ok(state) => Ok(WorkspaceEventEnvelope::snapshot(state)),
    }
}

// ---------------------------------------------------------------------------
// The event stream.

/// What a subscriber's receiver handed out.
#[derive(Debug)]
pub enum StreamReceipt {
    Event(AppEvent),
    /// Events were dropped before this subscriber received them.
    Lagged,
    Closed,
}

/// What the stream does next.
#[derive(Debug)]
pub enum StreamAction {
    /// Send this message and go on.
    Send(WorkspaceEventEnvelope),
    /// The event is another workspace's; go on.
    Skip,
    /// Send `{"event_type":"resync"}` and end the stream.
    Resync,
    /// End the stream.
    Stop,
}

/// What a stream of workspace `workspace_id` does with what its receiver
/// handed out: the envelope of an event of its own workspace is sent, another
/// workspace's event is skipped, a subscriber that fell behind is told to
/// resynchronise, and a closed channel ends the stream.
pub open spec fn stream_step(workspace_id: WorkbenchWorkspaceId, received: StreamReceipt, a: StreamAction) -> bool {
    match received {
        StreamReceipt::Event(e) => if e.workspace_id == workspace_id {
            a matches StreamAction::Send(env) && crate::contracts::is_envelope_of(env, e)
        } else {
            a is Skip
        },
        StreamReceipt::Lagged => a is Resync,
        StreamReceipt::Closed => a is Stop,
    }
}

/// A stream forwards the events of its own workspace only; a subscriber that
/// fell behind is told to resynchronise and the stream ends.
pub fn next_stream_action(workspace_id: WorkbenchWorkspaceId, received: StreamReceipt) -> (a: StreamAction)
    ensures
        stream_step(workspace_id, received, a),
{
    match received {
        StreamReceipt::Event(event) => {
            if event.workspace_id == workspace_id {
                StreamAction::Send(WorkspaceEventEnvelope::from_app_event(event))
            } else {
                StreamAction::Skip
            }
        },
        StreamReceipt::Lagged => StreamAction::Resync,
        StreamReceipt::Closed => StreamAction::Stop,
    }
}

// ---------------------------------------------------------------------------
// Web assets.

/// `p` without its leading slashes (`trim_start_matches('/')`).
pub open spec fn without_leading_slashes(p: Seq<char>) -> Seq<char>
    decreases p.len(),
{
    if p.len() > 0 && p[0] == '/' {
        without_leading_slashes(p.skip(1))
    } else {
        p
    }
}

/// What follows the last dot of `p`, or all of `p` where it has no dot
/// (`rsplit('.').next()`).
pub open spec fn after_last_dot(p: Seq<char>) -> Seq<char>
    decreases p.len(),
{
    if p.len() == 0 {
        p
    } else if p.last() == '.' {
        Seq::empty()
    } else {
        after_last_dot(p.drop_last()).push(p.last())
    }
}

/// The content type served for an asset with extension `ext`.
pub open spec fn content_type_of(ext: Seq<char>) -> Seq<char> {
    if ext == "css"@ {
        "text/css; charset=utf-8"@
    } else if ext == "js"@ {
        "text/javascript; charset=utf-8"@
    } else if ext == "html"@ {
        "text/html; charset=utf-8"@
    } else if ext == "json"@ {
        "application/json"@
    } else if ext == "svg"@ {
        "image/svg+xml"@
    } else if ext == "png"@ {
        "image/png"@
    } else if ext == "jpg"@ || ext == "jpeg"@ {
        "image/jpeg"@
    } else if ext == "ico"@ {
        "image/x-icon"@
    } else {
        "application/octet-stream"@
    }
}

/// The asset path that a request path names.
pub fn asset_path(path: &str) -> (r: String)
    ensures
        r@ == without_leading_slashes(path@),
{
    let v = chars_of(path);
    let mut i: usize = 0;
    assert(v@.skip(0) =~= v@);
    while i < v.len() && v[i] == '/'
        invariant
            i <= v@.len(),
            without_leading_slashes(v@) == without_leading_slashes(v@.skip(i as int)),
        decreases v@.len() - i,
    {
        assert(v@.skip(i as int).skip(1) =~= v@.skip(i + 1));
        i = i + 1;
    }
    assert(v@.skip(i as int) =~= v@.subrange(i as int, v@.len() as int));
    string_from_chars(&v, i, v.len())
}

/// A `..` step starts at position `i` of the asset path `p`, split at `/` or `\`.
pub open spec fn parent_step_at(p: Seq<char>, i: int) -> bool {
    &&& 0 <= i
    &&& i + 2 <= p.len()
    &&& p[i] == '.'
    &&& p[i + 1] == '.'
    &&& (i == 0 || is_path_separator(p[i - 1]))
    &&& (i + 2 == p.len() || is_path_separator(p[i + 2]))
}

/// The asset path `p` stays inside the directory it is read from: it does
/// not begin at a root, names no drive (`:`) and takes no `..` step.
pub open spec fn stays_inside(p: Seq<char>) -> bool {
    &&& !(p.len() > 0 && is_path_separator(p[0]))
    &&& forall|i: int| 0 <= i < p.len() ==> p[i] != ':'
    &&& !exists|i: int| parent_step_at(p, i)
}

/// Whether the asset path `path` stays inside the directory it is read from.
pub fn asset_path_stays_inside(path: &str) -> (r: bool)
    ensures
        r == stays_inside(path@),
{
    let v = chars_of(path);
    let n = v.len();
    if n > 0 && (v[0] == '/' || v[0] == '\\') {
        return false;
    }
    let mut i: usize = 0;
    while i < n
        invariant
            n == v@.len(),
            v@ == path@,
            i <= n,
            !(n > 0 && is_path_separator(v@[0])),
            forall|k: int| 0 <= k < i ==> v@[k] != ':',
            forall|k: int| 0 <= k < i ==> !parent_step_at(v@, k),
        decreases n - i,
    {
        if v[i] == ':' {
            return false;
        }
        if n - i >= 2 && v[i] == '.' && v[i + 1] == '.' && (i == 0 || v[i - 1] == '/' || v[i - 1] == '\\') && (i + 2
            == n || v[i + 2] == '/' || v[i + 2] == '\\') {
            assert(parent_step_at(v@, i as int));
            return false;
        }
        i = i + 1;
    }
    assert(!exists|k: int| parent_step_at(v@, k)) by {
        assert forall|k: int| !parent_step_at(v@, k) by {
            if 0 <= k < n {
            }
        }
    }
    true
}

/// Where `p[i..]` holds no dot, the text after the last dot of `p` is that
/// of `p[..i]` followed by `p[i..]`.
proof fn lemma_after_last_dot_split(p: Seq<char>, i: int)
    requires
        0 <= i <= p.len(),
        forall|k: int| i <= k < p.len() ==> p[k] != '.',
    ensures
        after_last_dot(p) == after_last_dot(p.take(i)) + p.skip(i),
    decreases p.len() - i,
{
    if i < p.len() {
        lemma_after_last_dot_split(p, i + 1);
        assert(p.take(i + 1).drop_last() =~= p.take(i));
        assert(p.take(i + 1).last() == p[i]);
        assert(after_last_dot(p.take(i + 1)) == after_last_dot(p.take(i)).push(p[i]));
        assert(after_last_dot(p.take(i)).push(p[i]) + p.skip(i + 1) =~= after_last_dot(p.take(i)) + p.skip(i));
    } else {
        assert(p.take(i) =~= p);
        assert(p.skip(i) =~= Seq::<char>::empty());
        assert(after_last_dot(p) + Seq::<char>::empty() =~= after_last_dot(p));
    }
}

/// The extension of an asset path.
fn asset_extension(path: &str) -> (r: String)
    ensures
        r@ == after_last_dot(path@),
{
    let v = chars_of(path);
    let mut i: usize = v.len();
    while i > 0 && v[i - 1] != '.'
        invariant
            i <= v@.len(),
            forall|k: int| i <= k < v@.len() ==> v@[k] != '.',
        decreases i,
    {
        i = i - 1;
    }
    proof {
        lemma_after_last_dot_split(v@, i as int);
        if i > 0 {
            assert(v@.take(i as int).last() == '.');
            assert(after_last_dot(v@.take(i as int)) == Seq::<char>::empty());
        } else {
            assert(v@.take(0) =~= Seq::<char>::empty());
        }
        assert(v@.skip(i as int) =~= v@.subrange(i as int, v@.len() as int));
        assert(Seq::<char>::empty() + v@.skip(i as int) =~= v@.skip(i as int));
    }
    string_from_chars(&v, i, v.len())
}

/// The content type of a web asset, by the text after the last dot of its
/// path.
pub fn content_type_for(path: &str) -> (r: &'static str)
    ensures
        r@ == content_type_of(after_last_dot(path@)),
{
    let ext = asset_extension(path);
    let e = ext.as_str();
    if text_equals(e, "css") {
        "text/css; charset=utf-8"
    } else if text_equals(e, "js") {
        "text/javascript; charset=utf-8"
    } else if text_equals(e, "html") {
        "text/html; charset=utf-8"
    } else if text_equals(e, "json") {
        "application/json"
    } else if text_equals(e, "svg") {
        "image/svg+xml"
    } else if text_equals(e, "png") {
        "image/png"
    } else if text_equals(e, "jpg") || text_equals(e, "jpeg") {
        "image/jpeg"
    } else if text_equals(e, "ico") {
        "image/x-icon"
    } else {
        "application/octet-stream"
    }
}

} // verus!
