//! The errors of the application core and the interfaces through which it
//! reaches storage, Herdr, the preview window and the event bus. Each
//! repository interface describes its effect on an abstract model of what it
//! stores; the interfaces that stand for outside services promise nothing.

use vstd::prelude::*;
use crate::domain::{DomainError, HerdrWorkspaceId, Workspace, domain_error_text};
use crate::herdr::{HerdrAgentInfo, HerdrHostError, HerdrLifecycleEvent, HerdrPaneInfo, HerdrWorkspaceInfo, herdr_error_text};
use crate::ident::WorkbenchWorkspaceId;
use crate::preview::{AppEvent, EventPayload, EventType, PreviewDiagnostic, PreviewScreenshot, PreviewScreenshotCaptured, PreviewSession, PreviewStatus, announces_opened};
use crate::text::{owned, push_text};

verus! {

// ---------------------------------------------------------------------------
// Errors.

/// A storage operation failed.
#[derive(Debug, PartialEq, Eq)]
pub struct RepositoryError {
    message: String,
}

impl View for RepositoryError {
    type V = Seq<char>;

    closed spec fn view(&self) -> Seq<char> {
        self.message@
    }
}

pub open spec fn repository_error_text(m: Seq<char>) -> Seq<char> {
    "repository operation failed: "@ + m
}

impl RepositoryError {
    pub fn new(message: &str) -> (e: Self)
        ensures
            e@ == message@,
    {
        RepositoryError { message: owned(message) }
    }

    pub fn message(&self) -> (m: &str)
        ensures
            m@ == self@,
    {
        self.message.as_str()
    }

    /// "repository operation failed: " followed by the message.
    pub fn describe(&self) -> (text: String)
        ensures
            text@ == repository_error_text(self@),
    {
        let mut text = owned("repository operation failed: ");
        push_text(&mut text, self.message.as_str());
        text
    }
}

/// The preview window cannot do what was asked.
#[derive(Debug, PartialEq, Eq)]
pub struct PreviewError {
    message: String,
}

impl View for PreviewError {
    type V = Seq<char>;

    closed spec fn view(&self) -> Seq<char> {
        self.message@
    }
}

pub open spec fn preview_error_text(m: Seq<char>) -> Seq<char> {
    "preview is unavailable: "@ + m
}

impl PreviewError {
    pub fn unavailable(message: &str) -> (e: Self)
        ensures
            e@ == message@,
    {
        PreviewError { message: owned(message) }
    }

    pub fn message(&self) -> (m: &str)
        ensures
            m@ == self@,
    {
        self.message.as_str()
    }

    /// "preview is unavailable: " followed by the message.
    pub fn describe(&self) -> (text: String)
        ensures
            text@ == preview_error_text(self@),
    {
        let mut text = owned("preview is unavailable: ");
        push_text(&mut text, self.message.as_str());
        text
    }
}

/// Why a use case of the application core failed.
#[derive(Debug, PartialEq, Eq)]
pub enum ApplicationError {
    Domain(DomainError),
    Repository(RepositoryError),
    Preview(PreviewError),
    Herdr(HerdrHostError),
}

/// The text of an application error: that of the error inside it.
pub open spec fn application_error_text(e: ApplicationError) -> Seq<char> {
    match e {
        ApplicationError::Domain(d) => domain_error_text(d),
        ApplicationError::Repository(r) => repository_error_text(r@),
        ApplicationError::Preview(p) => preview_error_text(p@),
        ApplicationError::Herdr(h) => herdr_error_text(h@),
    }
}

impl ApplicationError {
    /// The text of the error inside.
    pub fn describe(&self) -> (text: String)
        ensures
            text@ == application_error_text(*self),
    {
        match self {
            ApplicationError::Domain(d) => owned(d.message()),
            ApplicationError::Repository(r) => r.describe(),
            ApplicationError::Preview(p) => p.describe(),
            ApplicationError::Herdr(h) => h.describe(),
        }
    }
}

// ---------------------------------------------------------------------------
// Workspace bindings.

/// `i` is the first binding in `s` for Herdr workspace `key`.
pub open spec fn is_first_binding(s: Seq<Workspace>, key: Seq<char>, i: int) -> bool {
    &&& 0 <= i < s.len()
    &&& s[i].herdr_workspace_id@ == key
    &&& forall|j: int| 0 <= j < i ==> (#[trigger] s[j]).herdr_workspace_id@ != key
}

/// The binding of Herdr workspace `key` in `s`: the first one.
pub open spec fn binding_for_herdr_id(s: Seq<Workspace>, key: Seq<char>) -> Option<Workspace> {
    if exists|i: int| is_first_binding(s, key, i) {
        Some(s[choose|i: int| is_first_binding(s, key, i)])
    } else {
        None
    }
}

/// There is one first binding for a Herdr workspace.
pub proof fn lemma_first_binding_unique(s: Seq<Workspace>, key: Seq<char>, i: int, k: int)
    requires
        is_first_binding(s, key, i),
        is_first_binding(s, key, k),
    ensures
        i == k,
{
    if i < k {
        assert(s[i].herdr_workspace_id@ != key);
    } else if k < i {
        assert(s[k].herdr_workspace_id@ != key);
    }
}

/// `i` is the first binding in `s` with Workbench identifier `id`.
pub open spec fn is_first_with_id(s: Seq<Workspace>, id: WorkbenchWorkspaceId, i: int) -> bool {
    &&& 0 <= i < s.len()
    &&& s[i].workspace_id == id
    &&& forall|j: int| 0 <= j < i ==> (#[trigger] s[j]).workspace_id != id
}

/// The binding with Workbench identifier `id` in `s`: the first one.
pub open spec fn binding_for_id(s: Seq<Workspace>, id: WorkbenchWorkspaceId) -> Option<Workspace> {
    if exists|i: int| is_first_with_id(s, id, i) {
        Some(s[choose|i: int| is_first_with_id(s, id, i)])
    } else {
        None
    }
}

/// There is one first binding with a Workbench identifier.
pub proof fn lemma_first_with_id_unique(s: Seq<Workspace>, id: WorkbenchWorkspaceId, i: int, k: int)
    requires
        is_first_with_id(s, id, i),
        is_first_with_id(s, id, k),
    ensures
        i == k,
{
    if i < k {
        assert(s[i].workspace_id != id);
    } else if k < i {
        assert(s[k].workspace_id != id);
    }
}

/// `s` after storing `w`: a Herdr workspace that is bound already keeps its
/// binding; otherwise `w` is appended.
pub open spec fn insert_binding(s: Seq<Workspace>, w: Workspace) -> Seq<Workspace> {
    if binding_for_herdr_id(s, w.herdr_workspace_id@) is Some {
        s
    } else {
        s.push(w)
    }
}

/// Storing `w` keeps every existing binding, gives Herdr workspace
/// `w.herdr_workspace_id` the binding `w` where it had none, and binds no
/// other Herdr workspace.
pub proof fn lemma_insert_binding_lookup(s: Seq<Workspace>, w: Workspace, key: Seq<char>)
    ensures
        binding_for_herdr_id(s, key) is Some ==> binding_for_herdr_id(insert_binding(s, w), key)
            == binding_for_herdr_id(s, key),
        binding_for_herdr_id(s, key) is None && w.herdr_workspace_id@ == key ==> binding_for_herdr_id(
            insert_binding(s, w),
            key,
        ) == Some(w),
        binding_for_herdr_id(s, key) is None && w.herdr_workspace_id@ != key ==> binding_for_herdr_id(
            insert_binding(s, w),
            key,
        ) is None,
{
    let t = insert_binding(s, w);
    if binding_for_herdr_id(s, w.herdr_workspace_id@) is None {
        assert(t == s.push(w));
        if binding_for_herdr_id(s, key) is Some {
            let i = choose|i: int| is_first_binding(s, key, i);
            assert(is_first_binding(t, key, i));
            let c = choose|i: int| is_first_binding(t, key, i);
            lemma_first_binding_unique(t, key, i, c);
        } else {
            assert(forall|i: int| !is_first_binding(s, key, i));
            assert forall|j: int| 0 <= j < s.len() implies (#[trigger] s[j]).herdr_workspace_id@ != key by {
                if s[j].herdr_workspace_id@ == key {
                    lemma_first_index_exists(s, key, j);
                }
            }
            if w.herdr_workspace_id@ == key {
                assert(is_first_binding(t, key, s.len() as int));
                let c = choose|i: int| is_first_binding(t, key, i);
                lemma_first_binding_unique(t, key, s.len() as int, c);
            } else {
                assert forall|i: int| !is_first_binding(t, key, i) by {
                    if 0 <= i < t.len() && t[i].herdr_workspace_id@ == key {
                        assert(i < s.len());
                    }
                }
            }
        }
    }
}

/// Where a binding for `key` occurs at `j`, a first one exists.
pub proof fn lemma_first_index_exists(s: Seq<Workspace>, key: Seq<char>, j: int)
    requires
        0 <= j < s.len(),
        s[j].herdr_workspace_id@ == key,
    ensures
        binding_for_herdr_id(s, key) is Some,
    decreases j,
{
    if forall|q: int| 0 <= q < j ==> (#[trigger] s[q]).herdr_workspace_id@ != key {
        assert(is_first_binding(s, key, j));
    } else {
        let q = choose|q: int| 0 <= q < j && (#[trigger] s[q]).herdr_workspace_id@ == key;
        lemma_first_index_exists(s, key, q);
    }
}

/// No Herdr workspace is bound twice in `s`.
pub open spec fn bindings_distinct(s: Seq<Workspace>) -> bool {
    forall|i: int, j: int|
        #![trigger s[i], s[j]]
        0 <= i < j < s.len() ==> s[i].herdr_workspace_id@ != s[j].herdr_workspace_id@
}

/// Where `key` has no binding in `s`, no workspace of `s` is bound to it.
pub proof fn lemma_unbound_absent(s: Seq<Workspace>, key: Seq<char>)
    requires
        binding_for_herdr_id(s, key) is None,
    ensures
        forall|j: int| 0 <= j < s.len() ==> (#[trigger] s[j]).herdr_workspace_id@ != key,
{
    assert forall|j: int| 0 <= j < s.len() implies (#[trigger] s[j]).herdr_workspace_id@ != key by {
        if s[j].herdr_workspace_id@ == key {
            lemma_first_index_exists(s, key, j);
        }
    }
}

/// Storing a binding keeps the Herdr workspaces of `s` bound once each.
pub proof fn lemma_insert_binding_distinct(s: Seq<Workspace>, w: Workspace)
    requires
        bindings_distinct(s),
    ensures
        bindings_distinct(insert_binding(s, w)),
{
    if binding_for_herdr_id(s, w.herdr_workspace_id@) is None {
        lemma_unbound_absent(s, w.herdr_workspace_id@);
        let t = s.push(w);
        assert forall|i: int, j: int| 0 <= i < j < t.len() implies #[trigger] t[i].herdr_workspace_id@
            != #[trigger] t[j].herdr_workspace_id@ by {
            if j == s.len() {
                assert(t[i] == s[i]);
            } else {
                assert(t[i] == s[i] && t[j] == s[j]);
            }
        }
    }
}

/// Where Workbench keeps its workspace bindings, oldest first; no Herdr
/// workspace is bound twice.
pub trait WorkspaceRepository {
    spec fn workspaces(&self) -> Seq<Workspace>;

    /// The repository never reports a failure.
    spec fn never_fails(&self) -> bool;

    /// A successful insert is kept (a stand-in repository may drop it).
    spec fn keeps_inserts(&self) -> bool;

    fn find_by_herdr_id(&self, id: &HerdrWorkspaceId) -> (r: Result<Option<Workspace>, RepositoryError>)
        ensures
            self.never_fails() ==> r is Ok,
            r matches Ok(o) ==> o == binding_for_herdr_id(self.workspaces(), id@),
    ;

    fn find_by_id(&self, id: &WorkbenchWorkspaceId) -> (r: Result<Option<Workspace>, RepositoryError>)
        ensures
            self.never_fails() ==> r is Ok,
            r matches Ok(o) ==> o == binding_for_id(self.workspaces(), *id),
    ;

    fn list(&self) -> (r: Result<Vec<Workspace>, RepositoryError>)
        ensures
            self.never_fails() ==> r is Ok,
            r matches Ok(v) ==> v@ == self.workspaces(),
    ;

    fn insert(&mut self, workspace: Workspace) -> (r: Result<(), RepositoryError>)
        ensures
            final(self).never_fails() == old(self).never_fails(),
            final(self).keeps_inserts() == old(self).keeps_inserts(),
            old(self).never_fails() ==> r is Ok,
            r is Ok && old(self).keeps_inserts() ==> final(self).workspaces() == insert_binding(
                old(self).workspaces(),
                workspace,
            ),
            r is Err || !old(self).keeps_inserts() ==> final(self).workspaces() == old(self).workspaces(),
            bindings_distinct(old(self).workspaces()) ==> bindings_distinct(final(self).workspaces()),
    ;
}

// ---------------------------------------------------------------------------
// Preview state, keyed by the UUID of the workspace.

/// The revision of workspace `id`: 0 until its first durable change.
pub open spec fn revision_in(revisions: Map<u128, u64>, id: u128) -> u64 {
    if revisions.contains_key(id) {
        revisions[id]
    } else {
        0
    }
}

/// What a Workbench stores of previews: one session and one latest
/// screenshot per workspace, and the revision of each workspace, which every
/// durable change advances by one.
pub trait PreviewRecords: Sized {
    spec fn sessions(&self) -> Map<u128, PreviewSession>;

    spec fn screenshots(&self) -> Map<u128, PreviewScreenshot>;

    spec fn revisions(&self) -> Map<u128, u64>;

    /// The records never report a failure.
    spec fn never_fails(&self) -> bool;
}

/// A preview was opened and stored, with the event that announces it.
#[derive(Debug)]
pub struct DurablePreviewCommit {
    pub session: PreviewSession,
    pub event: AppEvent,
}

/// A screenshot was stored, with the event that announces it.
#[derive(Debug)]
pub struct DurableScreenshotCommit {
    pub screenshot: PreviewScreenshot,
    pub event: AppEvent,
}

/// The result of opening a preview for workspace `id` with `session` when
/// none was stored: the session is stored, the revision advances by one, and
/// the event carries the session and the new revision.
pub open spec fn preview_open_committed<R: PreviewRecords>(
    old_r: R,
    new_r: R,
    id: u128,
    session: PreviewSession,
    c: DurablePreviewCommit,
) -> bool {
    &&& new_r.sessions() == old_r.sessions().insert(id, session)
    &&& new_r.screenshots() == old_r.screenshots()
    &&& new_r.revisions() == old_r.revisions().insert(id, (revision_in(old_r.revisions(), id) + 1) as u64)
    &&& c.session == session
    &&& announces_opened(c.event, session, revision_in(old_r.revisions(), id) + 1)
}

/// Stores the session of each workspace's preview.
pub trait PreviewTransactionRepository: PreviewRecords {
    fn find_by_workspace(&self, workspace_id: &WorkbenchWorkspaceId) -> (r: Result<Option<PreviewSession>, RepositoryError>)
        ensures
            self.never_fails() ==> r is Ok,
            r matches Ok(o) ==> o == (if self.sessions().contains_key(workspace_id.0) {
                Some(self.sessions()[workspace_id.0])
            } else {
                None
            }),
    ;

    /// Stores a newly opened session. Where a session is stored already, the
    /// records stay as they were, and a success returns that session with an
    /// event that announces it at the workspace's current revision.
    fn commit_preview_open(&mut self, workspace_id: &WorkbenchWorkspaceId, session: PreviewSession) -> (r: Result<DurablePreviewCommit, RepositoryError>)
        requires
            revision_in(old(self).revisions(), workspace_id.0) < u64::MAX,
        ensures
            final(self).never_fails() == old(self).never_fails(),
            old(self).never_fails() ==> r is Ok,
            r is Err ==> *final(self) == *old(self),
            old(self).sessions().contains_key(workspace_id.0) ==> *final(self) == *old(self),
            r matches Ok(c) ==> (if old(self).sessions().contains_key(workspace_id.0) {
                c.session == old(self).sessions()[workspace_id.0] && announces_opened(
                    c.event,
                    c.session,
                    revision_in(old(self).revisions(), workspace_id.0) as int,
                )
            } else {
                preview_open_committed(*old(self), *final(self), workspace_id.0, session, c)
            }),
    ;
}

/// The screenshot `s`, numbered with the next revision of its workspace.
pub open spec fn numbered_screenshot(s: PreviewScreenshot, revisions: Map<u128, u64>) -> PreviewScreenshot {
    PreviewScreenshot { revision: (revision_in(revisions, s.workspace_id.0) + 1) as u64, ..s }
}

/// Stores the latest screenshot of each workspace's preview.
pub trait PreviewScreenshotRepository: PreviewRecords {
    fn find_latest(&self, workspace_id: &WorkbenchWorkspaceId) -> (r: Result<Option<PreviewScreenshot>, RepositoryError>)
        ensures
            self.never_fails() ==> r is Ok,
            r matches Ok(o) ==> o == (if self.screenshots().contains_key(workspace_id.0) {
                Some(self.screenshots()[workspace_id.0])
            } else {
                None
            }),
    ;

    /// Stores a screenshot as the latest of its workspace, numbered with the
    /// workspace's next revision.
    fn commit_screenshot(&mut self, screenshot: PreviewScreenshot) -> (r: Result<DurableScreenshotCommit, RepositoryError>)
        requires
            revision_in(old(self).revisions(), screenshot.workspace_id.0) < u64::MAX,
        ensures
            final(self).never_fails() == old(self).never_fails(),
            old(self).never_fails() ==> r is Ok,
            r is Err ==> *final(self) == *old(self),
            r matches Ok(c) ==> {
                let id = screenshot.workspace_id.0;
                let s = numbered_screenshot(screenshot, old(self).revisions());
                &&& final(self).sessions() == old(self).sessions()
                &&& final(self).screenshots() == old(self).screenshots().insert(id, s)
                &&& final(self).revisions() == old(self).revisions().insert(id, s.revision)
                &&& c.screenshot == s
                &&& c.event.event_type == EventType::PreviewScreenshotCaptured
                &&& c.event.workspace_id == screenshot.workspace_id
                &&& c.event.revision == s.revision
                &&& c.event.payload == EventPayload::PreviewScreenshotCaptured(
                    PreviewScreenshotCaptured { screenshot: s },
                )
            },
    ;
}

/// `s` after a page-state report: the status is replaced, and the url and
/// the title only where the report carries one.
pub open spec fn updated_session(s: PreviewSession, status: PreviewStatus, url: Option<String>, title: Option<String>) -> PreviewSession {
    PreviewSession {
        status,
        url: if url is Some { url } else { s.url },
        title: if title is Some { title } else { s.title },
        ..s
    }
}

/// Records what the preview page reports: loading, loaded, title, closed.
pub trait PreviewStateUpdater: PreviewRecords {
    /// Updates the stored session of a workspace; the revision is not
    /// advanced. A workspace without a session is an error.
    fn update_preview_state(
        &mut self,
        workspace_id: &WorkbenchWorkspaceId,
        status: PreviewStatus,
        url: Option<String>,
        title: Option<String>,
    ) -> (r: Result<PreviewSession, RepositoryError>)
        ensures
            final(self).never_fails() == old(self).never_fails(),
            !old(self).sessions().contains_key(workspace_id.0) ==> r is Err,
            old(self).never_fails() && old(self).sessions().contains_key(workspace_id.0) ==> r is Ok,
            r is Err ==> *final(self) == *old(self),
            r matches Ok(s) ==> {
                &&& old(self).sessions().contains_key(workspace_id.0)
                &&& s == updated_session(old(self).sessions()[workspace_id.0], status, url, title)
                &&& final(self).sessions() == old(self).sessions().insert(workspace_id.0, s)
                &&& final(self).screenshots() == old(self).screenshots()
                &&& final(self).revisions() == old(self).revisions()
            },
    ;
}

// ---------------------------------------------------------------------------
// Screenshot files.

/// Where screenshot images are kept; a load gives back what a save wrote.
pub trait ScreenshotStore {
    spec fn files(&self) -> Map<Seq<char>, Seq<u8>>;

    spec fn never_fails(&self) -> bool;

    fn save(&mut self, workspace_id: &WorkbenchWorkspaceId, png: &[u8]) -> (r: Result<String, RepositoryError>)
        ensures
            final(self).never_fails() == old(self).never_fails(),
            old(self).never_fails() ==> r is Ok,
            r is Err ==> final(self).files() == old(self).files(),
            r matches Ok(path) ==> final(self).files() == old(self).files().insert(path@, png@),
    ;

    fn load(&self, path: &str) -> (r: Result<Vec<u8>, RepositoryError>)
        ensures
            self.never_fails() && self.files().contains_key(path@) ==> r is Ok,
            r matches Ok(png) ==> self.files().contains_key(path@) && png@ == self.files()[path@],
    ;
}

// ---------------------------------------------------------------------------
// Browser diagnostics.

/// The last `limit` elements of `s`.
pub open spec fn keep_latest(s: Seq<PreviewDiagnostic>, limit: nat) -> Seq<PreviewDiagnostic> {
    if s.len() > limit {
        s.skip(s.len() - limit)
    } else {
        s
    }
}

/// How many diagnostics are kept per workspace.
pub const PREVIEW_DIAGNOSTIC_LIMIT: usize = 50;

/// The diagnostics of workspace `id` in `m`, oldest first.
pub open spec fn diagnostics_in(m: Map<u128, Seq<PreviewDiagnostic>>, id: u128) -> Seq<PreviewDiagnostic> {
    if m.contains_key(id) {
        m[id]
    } else {
        Seq::empty()
    }
}

/// Keeps the latest diagnostics of each workspace.
pub trait PreviewDiagnosticsSink {
    spec fn entries(&self) -> Map<u128, Seq<PreviewDiagnostic>>;

    /// Appends a diagnostic to its workspace, dropping the oldest beyond the
    /// limit.
    fn record(&mut self, diagnostic: PreviewDiagnostic)
        ensures
            final(self).entries() == old(self).entries().insert(
                diagnostic.workspace_id.0,
                keep_latest(
                    diagnostics_in(old(self).entries(), diagnostic.workspace_id.0).push(diagnostic),
                    PREVIEW_DIAGNOSTIC_LIMIT as nat,
                ),
            ),
    ;

    fn list(&self, workspace_id: &WorkbenchWorkspaceId) -> (r: Vec<PreviewDiagnostic>)
        ensures
            r@ == diagnostics_in(self.entries(), workspace_id.0),
    ;

    fn clear(&mut self, workspace_id: &WorkbenchWorkspaceId)
        ensures
            final(self).entries() == old(self).entries().remove(workspace_id.0),
    ;
}

// ---------------------------------------------------------------------------
// Outside services: what they answer is theirs to say; what was handed to
// them is recorded.

/// Hands events to whoever listens.
pub trait EventPublisher {
    /// The events handed over so far, oldest first.
    spec fn published(&self) -> Seq<AppEvent>;

    fn publish(&mut self, event: AppEvent)
        ensures
            final(self).published() == old(self).published().push(event),
    ;
}

/// A captured preview image, PNG-encoded.
#[derive(Debug, PartialEq, Eq)]
pub struct CapturedPreviewImage {
    pub png: Vec<u8>,
}

/// The window in which a workspace's page is previewed. What it answers is
/// the window's own; each implementation says which answers it may give.
pub trait PreviewAdapter {
    /// `r` is an answer this window may give when asked to open the preview
    /// of `workspace` at `url`.
    spec fn opens(&self, workspace: Workspace, url: Option<String>, r: Result<PreviewSession, PreviewError>) -> bool;

    /// `r` is an answer this window may give when asked for an image of the
    /// preview of `workspace`.
    spec fn captures(&self, workspace: Workspace, r: Result<CapturedPreviewImage, PreviewError>) -> bool;

    fn open(&self, workspace: &Workspace, url: Option<String>) -> (r: Result<PreviewSession, PreviewError>)
        ensures
            self.opens(*workspace, url, r),
    ;

    fn capture_screenshot(&self, workspace: &Workspace) -> (r: Result<CapturedPreviewImage, PreviewError>)
        ensures
            self.captures(*workspace, r),
    ;
}

/// The running Herdr: its workspaces and panes.
pub trait HerdrHost {
    fn list_workspaces(&self) -> Result<Vec<HerdrWorkspaceInfo>, HerdrHostError>;

    fn list_panes(&self) -> Result<Vec<HerdrPaneInfo>, HerdrHostError>;
}

/// The agents that run in Herdr panes. What they are, and whether a prompt
/// reaches one, is Herdr's to say; what was asked of the bridge is recorded.
pub trait HerdrAgentBridge {
    /// Herdr's answers to the agent listings asked for so far, oldest first.
    spec fn answers(&self) -> Seq<Result<Vec<HerdrAgentInfo>, HerdrHostError>>;

    /// The prompts attempted so far, delivered or not, oldest first: the
    /// target pane and the text.
    spec fn attempts(&self) -> Seq<(Seq<char>, Seq<char>)>;

    /// The prompts delivered so far, oldest first.
    spec fn prompts(&self) -> Seq<(Seq<char>, Seq<char>)>;

    fn list_agents(&mut self) -> (r: Result<Vec<HerdrAgentInfo>, HerdrHostError>)
        ensures
            final(self).answers() == old(self).answers().push(r),
            final(self).attempts() == old(self).attempts(),
            final(self).prompts() == old(self).prompts(),
    ;

    /// Sends `text` to the agent in pane `target`; the attempt is recorded
    /// whatever comes of it, and a prompt that was delivered is recorded as
    /// such.
    fn prompt_agent(&mut self, target: &str, text: &str) -> (r: Result<(), HerdrHostError>)
        ensures
            final(self).answers() == old(self).answers(),
            final(self).attempts() == old(self).attempts().push((target@, text@)),
            r is Ok ==> final(self).prompts() == old(self).prompts().push((target@, text@)),
            r is Err ==> final(self).prompts() == old(self).prompts(),
    ;
}

/// Herdr's lifecycle events, one at a time.
pub trait HerdrEventSource {
    fn next_event(&self) -> Result<HerdrLifecycleEvent, HerdrHostError>;
}

/// Waits between two reconciliations.
pub trait ReconcileSleeper {
    /// The waits asked for so far, in seconds, oldest first.
    spec fn waits(&self) -> Seq<u64>;

    fn sleep(&mut self, seconds: u64)
        ensures
            final(self).waits() == old(self).waits().push(seconds),
    ;
}

} // verus!
