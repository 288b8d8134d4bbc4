//! The in-memory implementations of the storage interfaces, and the
//! stand-ins that a server without storage or preview window uses.

use std::collections::HashMap;
use vstd::prelude::*;
use crate::bus::EventBus;
use crate::domain::{HerdrWorkspaceId, Workspace};
use crate::herdr::{HerdrAgentInfo, HerdrHostError};
use crate::ident::{WorkbenchWorkspaceId, uuid_hyphenated_text, uuid_text};
use crate::ports::{
    CapturedPreviewImage, DurablePreviewCommit, DurableScreenshotCommit, EventPublisher, HerdrAgentBridge,
    PREVIEW_DIAGNOSTIC_LIMIT, PreviewAdapter, PreviewDiagnosticsSink, PreviewError, PreviewRecords,
    PreviewScreenshotRepository, PreviewStateUpdater, PreviewTransactionRepository, ReconcileSleeper, RepositoryError,
    ScreenshotStore, WorkspaceRepository, binding_for_herdr_id, bindings_distinct, lemma_insert_binding_distinct, diagnostics_in, is_first_binding,
    is_first_with_id, lemma_first_binding_unique, lemma_first_with_id_unique, revision_in,
};
use crate::preview::{AppEvent, PreviewDiagnostic, PreviewScreenshot, PreviewSession, PreviewStatus, announces_diagnostic, appended_one};
use crate::text::{owned, push_text, text_equals};

verus! {

broadcast use vstd::std_specs::hash::group_hash_axioms;

/// A copy of each workspace of `v`.
fn clone_workspaces(v: &Vec<Workspace>) -> (r: Vec<Workspace>)
    ensures
        r@ == v@,
{
    let mut r: Vec<Workspace> = Vec::new();
    for i in 0..v.len()
        invariant
            r@ == v@.take(i as int),
    {
        r.push(v[i].clone());
        assert(r@ =~= v@.take(i + 1));
    }
    assert(v@.take(v.len() as int) =~= v@);
    r
}

/// The first binding of Herdr workspace `key` in `v`.
fn first_binding_index(v: &Vec<Workspace>, key: &str) -> (r: Option<usize>)
    ensures
        r is Some <==> binding_for_herdr_id(v@, key@) is Some,
        r matches Some(i) ==> i < v@.len() && binding_for_herdr_id(v@, key@) == Some(v@[i as int]),
{
    for i in 0..v.len()
        invariant
            forall|j: int| 0 <= j < i ==> (#[trigger] v@[j]).herdr_workspace_id@ != key@,
    {
        if text_equals(v[i].herdr_workspace_id.as_str(), key) {
            proof {
                assert(is_first_binding(v@, key@, i as int));
                let c = choose|k: int| is_first_binding(v@, key@, k);
                lemma_first_binding_unique(v@, key@, i as int, c);
            }
            return Some(i);
        }
    }
    assert(!exists|k: int| is_first_binding(v@, key@, k));
    None
}

/// Workspace bindings kept in memory, oldest first.
pub struct InMemoryWorkspaceRepository {
    workspaces: Vec<Workspace>,
}

impl InMemoryWorkspaceRepository {
    pub fn new() -> (r: Self)
        ensures
            r.workspaces() == Seq::<Workspace>::empty(),
            bindings_distinct(r.workspaces()),
    {
        InMemoryWorkspaceRepository { workspaces: Vec::new() }
    }

    /// How many workspaces are bound.
    pub fn workspace_count(&self) -> (n: usize)
        ensures
            n == self.workspaces().len(),
    {
        self.workspaces.len()
    }
}

impl WorkspaceRepository for InMemoryWorkspaceRepository {
    closed spec fn workspaces(&self) -> Seq<Workspace> {
        self.workspaces@
    }

    open spec fn never_fails(&self) -> bool {
        true
    }

    open spec fn keeps_inserts(&self) -> bool {
        true
    }

    fn find_by_herdr_id(&self, id: &HerdrWorkspaceId) -> (r: Result<Option<Workspace>, RepositoryError>) {
        match first_binding_index(&self.workspaces, id.as_str()) {
            Some(i) => Ok(Some(self.workspaces[i].clone())),
            None => Ok(None),
        }
    }

    fn find_by_id(&self, id: &WorkbenchWorkspaceId) -> (r: Result<Option<Workspace>, RepositoryError>) {
        let v = &self.workspaces;
        for i in 0..v.len()
            invariant
                v@ == self.workspaces@,
                forall|j: int| 0 <= j < i ==> (#[trigger] v@[j]).workspace_id != *id,
        {
            if v[i].workspace_id == *id {
                proof {
                    assert(is_first_with_id(v@, *id, i as int));
                    let c = choose|k: int| is_first_with_id(v@, *id, k);
                    lemma_first_with_id_unique(v@, *id, i as int, c);
                }
                return Ok(Some(v[i].clone()));
            }
        }
        assert(!exists|k: int| is_first_with_id(v@, *id, k));
        Ok(None)
    }

    fn list(&self) -> (r: Result<Vec<Workspace>, RepositoryError>) {
        Ok(clone_workspaces(&self.workspaces))
    }

    fn insert(&mut self, workspace: Workspace) -> (r: Result<(), RepositoryError>) {
        proof {
            if bindings_distinct(self.workspaces@) {
                lemma_insert_binding_distinct(self.workspaces@, workspace);
            }
        }
        if first_binding_index(&self.workspaces, workspace.herdr_workspace_id.as_str()).is_none() {
            self.workspaces.push(workspace);
        }
        Ok(())
    }
}

/// Preview sessions, latest screenshots and revisions kept in memory.
pub struct InMemoryPreviewRepository {
    sessions: HashMap<u128, PreviewSession>,
    screenshots: HashMap<u128, PreviewScreenshot>,
    revisions: HashMap<u128, u64>,
}

impl InMemoryPreviewRepository {
    pub fn new() -> (r: Self)
        ensures
            r.sessions() == Map::<u128, PreviewSession>::empty(),
            r.screenshots() == Map::<u128, PreviewScreenshot>::empty(),
            r.revisions() == Map::<u128, u64>::empty(),
    {
        InMemoryPreviewRepository { sessions: HashMap::new(), screenshots: HashMap::new(), revisions: HashMap::new() }
    }

    /// How many workspaces have a preview session.
    pub fn session_count(&self) -> (n: usize)
        ensures
            n == self.sessions().len(),
    {
        self.sessions.len()
    }

    /// The revision of a workspace.
    pub fn revision(&self, workspace_id: &WorkbenchWorkspaceId) -> (r: u64)
        ensures
            r == revision_in(self.revisions(), workspace_id.0),
    {
        match self.revisions.get(&workspace_id.0) {
            Some(r) => *r,
            None => 0,
        }
    }
}

impl PreviewRecords for InMemoryPreviewRepository {
    closed spec fn sessions(&self) -> Map<u128, PreviewSession> {
        self.sessions@
    }

    closed spec fn screenshots(&self) -> Map<u128, PreviewScreenshot> {
        self.screenshots@
    }

    closed spec fn revisions(&self) -> Map<u128, u64> {
        self.revisions@
    }

    open spec fn never_fails(&self) -> bool {
        true
    }
}

impl PreviewTransactionRepository for InMemoryPreviewRepository {
    fn find_by_workspace(&self, workspace_id: &WorkbenchWorkspaceId) -> (r: Result<Option<PreviewSession>, RepositoryError>) {
        match self.sessions.get(&workspace_id.0) {
            Some(s) => Ok(Some(s.clone())),
            None => Ok(None),
        }
    }

    fn commit_preview_open(&mut self, workspace_id: &WorkbenchWorkspaceId, session: PreviewSession) -> (r: Result<DurablePreviewCommit, RepositoryError>) {
        let current = self.revision(workspace_id);
        match self.sessions.get(&workspace_id.0) {
            Some(existing) => {
                let existing = existing.clone();
                let event = AppEvent::preview_opened(existing.clone(), current);
                return Ok(DurablePreviewCommit { session: existing, event });
            },
            None => {},
        }
        let revision = current + 1;
        self.revisions.insert(workspace_id.0, revision);
        self.sessions.insert(workspace_id.0, session.clone());
        let event = AppEvent::preview_opened(session.clone(), revision);
        Ok(DurablePreviewCommit { session, event })
    }
}

impl PreviewScreenshotRepository for InMemoryPreviewRepository {
    fn find_latest(&self, workspace_id: &WorkbenchWorkspaceId) -> (r: Result<Option<PreviewScreenshot>, RepositoryError>) {
        match self.screenshots.get(&workspace_id.0) {
            Some(s) => Ok(Some(s.clone())),
            None => Ok(None),
        }
    }

    fn commit_screenshot(&mut self, screenshot: PreviewScreenshot) -> (r: Result<DurableScreenshotCommit, RepositoryError>) {
        let id = screenshot.workspace_id;
        let revision = self.revision(&id) + 1;
        let mut screenshot = screenshot;
        screenshot.revision = revision;
        self.revisions.insert(id.0, revision);
        self.screenshots.insert(id.0, screenshot.clone());
        let event = AppEvent::preview_screenshot_captured(screenshot.clone(), revision);
        Ok(DurableScreenshotCommit { screenshot, event })
    }
}

impl PreviewStateUpdater for InMemoryPreviewRepository {
    fn update_preview_state(
        &mut self,
        workspace_id: &WorkbenchWorkspaceId,
        status: PreviewStatus,
        url: Option<String>,
        title: Option<String>,
    ) -> (r: Result<PreviewSession, RepositoryError>) {
        let mut session = match self.sessions.get(&workspace_id.0) {
            Some(s) => s.clone(),
            None => {
                return Err(RepositoryError::new("preview session not found"));
            },
        };
        session.status = status;
        match url {
            Some(u) => {
                session.url = Some(u);
            },
            None => {},
        }
        match title {
            Some(t) => {
                session.title = Some(t);
            },
            None => {},
        }
        self.sessions.insert(workspace_id.0, session.clone());
        Ok(session)
    }
}

/// The path under which the in-memory store keeps a workspace's screenshot.
pub open spec fn memory_path_text(id: u128) -> Seq<char> {
    "memory://"@ + uuid_hyphenated_text(id)
}

/// Screenshot images kept in memory, one per path.
pub struct InMemoryScreenshotStore {
    files: Vec<(String, Vec<u8>)>,
}

/// `i` holds path `p` in `v`.
pub open spec fn holds_path(v: Seq<(String, Vec<u8>)>, p: Seq<char>, i: int) -> bool {
    0 <= i < v.len() && v[i].0@ == p
}

/// Some entry of `v` holds path `p`.
pub open spec fn path_present(v: Seq<(String, Vec<u8>)>, p: Seq<char>) -> bool {
    exists|i: int| holds_path(v, p, i)
}

/// The bytes kept under path `p` in `v`.
pub open spec fn path_value(v: Seq<(String, Vec<u8>)>, p: Seq<char>) -> Seq<u8> {
    v[choose|i: int| holds_path(v, p, i)].1@
}

/// No two entries of `v` hold the same path.
pub open spec fn paths_unique(v: Seq<(String, Vec<u8>)>) -> bool {
    forall|i: int, j: int| 0 <= i < j < v.len() ==> (#[trigger] v[i]).0@ != (#[trigger] v[j]).0@
}

/// The files that `v` holds.
pub open spec fn files_of(v: Seq<(String, Vec<u8>)>) -> Map<Seq<char>, Seq<u8>> {
    Map::new(|p: Seq<char>| path_present(v, p), |p: Seq<char>| path_value(v, p))
}

proof fn lemma_path_value(v: Seq<(String, Vec<u8>)>, p: Seq<char>, i: int)
    requires
        paths_unique(v),
        holds_path(v, p, i),
    ensures
        path_present(v, p),
        path_value(v, p) == v[i].1@,
{
    let c = choose|k: int| holds_path(v, p, k);
    if c < i {
        assert(v[c].0@ != v[i].0@);
    } else if i < c {
        assert(v[i].0@ != v[c].0@);
    }
}

proof fn lemma_files_set(v: Seq<(String, Vec<u8>)>, i: int, path: String, png: Vec<u8>)
    requires
        paths_unique(v),
        holds_path(v, path@, i),
    ensures
        paths_unique(v.update(i, (path, png))),
        files_of(v.update(i, (path, png))) == files_of(v).insert(path@, png@),
{
    let w = v.update(i, (path, png));
    assert forall|a: int, b: int| 0 <= a < b < w.len() implies (#[trigger] w[a]).0@ != (#[trigger] w[b]).0@ by {
        assert(v[a].0@ != v[b].0@);
    }
    lemma_path_value(w, path@, i);
    assert forall|p: Seq<char>| path_present(w, p) <==> path_present(v, p) || p == path@ by {
        if path_present(v, p) {
            let k = choose|k: int| holds_path(v, p, k);
            assert(holds_path(w, p, k));
        }
        if path_present(w, p) {
            let k = choose|k: int| holds_path(w, p, k);
            if k != i {
                assert(holds_path(v, p, k));
            }
        }
    }
    assert forall|p: Seq<char>| path_present(w, p) && p != path@ implies #[trigger] path_value(w, p) == path_value(v, p) by {
        let k = choose|k: int| holds_path(w, p, k);
        assert(holds_path(v, p, k));
        lemma_path_value(w, p, k);
        lemma_path_value(v, p, k);
    }
    assert(files_of(w) =~= files_of(v).insert(path@, png@));
}

proof fn lemma_files_push(v: Seq<(String, Vec<u8>)>, path: String, png: Vec<u8>)
    requires
        paths_unique(v),
        !path_present(v, path@),
    ensures
        paths_unique(v.push((path, png))),
        files_of(v.push((path, png))) == files_of(v).insert(path@, png@),
{
    let w = v.push((path, png));
    let n = v.len() as int;
    assert forall|a: int, b: int| 0 <= a < b < w.len() implies (#[trigger] w[a]).0@ != (#[trigger] w[b]).0@ by {
        if b < n {
            assert(v[a].0@ != v[b].0@);
        } else {
            assert(!holds_path(v, path@, a));
        }
    }
    lemma_path_value(w, path@, n);
    assert forall|p: Seq<char>| path_present(w, p) <==> path_present(v, p) || p == path@ by {
        if path_present(v, p) {
            let k = choose|k: int| holds_path(v, p, k);
            assert(holds_path(w, p, k));
        }
        if path_present(w, p) {
            let k = choose|k: int| holds_path(w, p, k);
            if k < n {
                assert(holds_path(v, p, k));
            }
        }
    }
    assert forall|p: Seq<char>| path_present(w, p) && p != path@ implies #[trigger] path_value(w, p) == path_value(v, p) by {
        let k = choose|k: int| holds_path(w, p, k);
        assert(k < n);
        assert(holds_path(v, p, k));
        lemma_path_value(w, p, k);
        lemma_path_value(v, p, k);
    }
    assert(files_of(w) =~= files_of(v).insert(path@, png@));
}

impl InMemoryScreenshotStore {
    #[verifier::type_invariant]
    spec fn unique(self) -> bool {
        paths_unique(self.files@)
    }

    pub fn new() -> (r: Self)
        ensures
            r.files() == Map::<Seq<char>, Seq<u8>>::empty(),
    {
        let r = InMemoryScreenshotStore { files: Vec::new() };
        assert(files_of(r.files@) =~= Map::<Seq<char>, Seq<u8>>::empty());
        r
    }

    fn index_of(&self, path: &str) -> (r: Option<usize>)
        ensures
            r matches Some(i) ==> holds_path(self.files@, path@, i as int),
            r is None ==> !path_present(self.files@, path@),
    {
        for i in 0..self.files.len()
            invariant
                forall|j: int| 0 <= j < i ==> !holds_path(self.files@, path@, j),
        {
            if text_equals(self.files[i].0.as_str(), path) {
                return Some(i);
            }
        }
        None
    }
}

impl ScreenshotStore for InMemoryScreenshotStore {
    closed spec fn files(&self) -> Map<Seq<char>, Seq<u8>> {
        files_of(self.files@)
    }

    open spec fn never_fails(&self) -> bool {
        true
    }

    /// Each workspace has one image, kept under `memory://` and its
    /// identifier.
    fn save(&mut self, workspace_id: &WorkbenchWorkspaceId, png: &[u8]) -> (r: Result<String, RepositoryError>)
        ensures
            r matches Ok(path) && path@ == memory_path_text(workspace_id.0),
    {
        proof {
            use_type_invariant(&*self);
        }
        let mut path = owned("memory://");
        push_text(&mut path, uuid_text(workspace_id.0).as_str());
        let bytes = vstd::slice::slice_to_vec(png);
        let found = self.index_of(path.as_str());
        let mut files: Vec<(String, Vec<u8>)> = Vec::new();
        std::mem::swap(&mut files, &mut self.files);
        let ghost before = files@;
        match found {
            Some(i) => {
                proof {
                    lemma_files_set(before, i as int, path, bytes);
                }
                files.set(i, (path.clone(), bytes));
            },
            None => {
                proof {
                    lemma_files_push(before, path, bytes);
                }
                files.push((path.clone(), bytes));
            },
        }
        self.files = files;
        Ok(path)
    }

    fn load(&self, path: &str) -> (r: Result<Vec<u8>, RepositoryError>) {
        proof {
            use_type_invariant(self);
        }
        match self.index_of(path) {
            Some(i) => {
                proof {
                    lemma_path_value(self.files@, path@, i as int);
                }
                Ok(vstd::slice::slice_to_vec(self.files[i].1.as_slice()))
            },
            None => Err(RepositoryError::new("screenshot file not found")),
        }
    }
}

/// A copy of each diagnostic of `v`.
fn clone_diagnostics(v: &Vec<PreviewDiagnostic>) -> (r: Vec<PreviewDiagnostic>)
    ensures
        r@ == v@,
{
    let mut r: Vec<PreviewDiagnostic> = Vec::new();
    for i in 0..v.len()
        invariant
            r@ == v@.take(i as int),
    {
        r.push(v[i].clone());
        assert(r@ =~= v@.take(i + 1));
    }
    assert(v@.take(v.len() as int) =~= v@);
    r
}

/// The latest diagnostics of each workspace, kept in memory; each recorded
/// diagnostic is also published, without a revision, where a bus is given.
pub struct InMemoryPreviewDiagnostics {
    entries: HashMap<u128, Vec<PreviewDiagnostic>>,
    events: Option<EventBus>,
}

impl InMemoryPreviewDiagnostics {
    /// The bus on which each recorded diagnostic is published, if any.
    pub closed spec fn publisher(&self) -> Option<EventBus> {
        self.events
    }

    /// Keeps diagnostics without publishing them.
    pub fn new() -> (r: Self)
        ensures
            r.entries() == Map::<u128, Seq<PreviewDiagnostic>>::empty(),
            r.publisher() is None,
    {
        let r = InMemoryPreviewDiagnostics { entries: HashMap::new(), events: None };
        assert(r.entries() =~= Map::<u128, Seq<PreviewDiagnostic>>::empty());
        r
    }

    /// Keeps diagnostics and publishes each one on `events`.
    pub fn with_publisher(events: EventBus) -> (r: Self)
        ensures
            r.entries() == Map::<u128, Seq<PreviewDiagnostic>>::empty(),
            r.publisher() == Some(events),
    {
        let r = InMemoryPreviewDiagnostics { entries: HashMap::new(), events: Some(events) };
        assert(r.entries() =~= Map::<u128, Seq<PreviewDiagnostic>>::empty());
        r
    }
}

impl PreviewDiagnosticsSink for InMemoryPreviewDiagnostics {
    closed spec fn entries(&self) -> Map<u128, Seq<PreviewDiagnostic>> {
        self.entries@.map_values(|v: Vec<PreviewDiagnostic>| v@)
    }

    fn record(&mut self, diagnostic: PreviewDiagnostic)
        ensures
            final(self).publisher() is Some == old(self).publisher() is Some,
            old(self).publisher() is Some ==> appended_one(
                old(self).publisher()->0.published(),
                final(self).publisher()->0.published(),
            ) && announces_diagnostic(final(self).publisher()->0.published().last(), diagnostic),
    {
        let id = diagnostic.workspace_id.0;
        let mut buffer = match self.entries.get(&id) {
            Some(v) => clone_diagnostics(v),
            None => Vec::new(),
        };
        assert(buffer@ == diagnostics_in(old(self).entries(), id));
        buffer.push(diagnostic.clone());
        if buffer.len() > PREVIEW_DIAGNOSTIC_LIMIT {
            let overflow = buffer.len() - PREVIEW_DIAGNOSTIC_LIMIT;
            buffer = buffer.split_off(overflow);
        }
        let ghost kept = buffer@;
        self.entries.insert(id, buffer);
        assert(self.entries() =~= old(self).entries().insert(id, kept));
        match &mut self.events {
            Some(events) => {
                let ghost before = events.published();
                let event = AppEvent::preview_diagnostics_updated(diagnostic);
                events.publish(event);
                assert(events.published().drop_last() =~= before);
            },
            None => {},
        }
    }

    fn list(&self, workspace_id: &WorkbenchWorkspaceId) -> (r: Vec<PreviewDiagnostic>) {
        match self.entries.get(&workspace_id.0) {
            Some(v) => clone_diagnostics(v),
            None => Vec::new(),
        }
    }

    fn clear(&mut self, workspace_id: &WorkbenchWorkspaceId)
        ensures
            final(self).publisher() == old(self).publisher(),
    {
        self.entries.remove(&workspace_id.0);
        assert(self.entries() =~= old(self).entries().remove(workspace_id.0));
    }
}

/// A workspace repository that stores nothing: every lookup finds nothing and
/// every insert is accepted and dropped.
pub struct EmptyWorkspaceRepository;

impl WorkspaceRepository for EmptyWorkspaceRepository {
    open spec fn workspaces(&self) -> Seq<Workspace> {
        Seq::empty()
    }

    open spec fn never_fails(&self) -> bool {
        true
    }

    open spec fn keeps_inserts(&self) -> bool {
        false
    }

    fn find_by_herdr_id(&self, id: &HerdrWorkspaceId) -> (r: Result<Option<Workspace>, RepositoryError>) {
        Ok(None)
    }

    fn find_by_id(&self, id: &WorkbenchWorkspaceId) -> (r: Result<Option<Workspace>, RepositoryError>) {
        Ok(None)
    }

    fn list(&self) -> (r: Result<Vec<Workspace>, RepositoryError>) {
        Ok(Vec::new())
    }

    fn insert(&mut self, workspace: Workspace) -> (r: Result<(), RepositoryError>) {
        Ok(())
    }
}

/// Preview records that hold nothing and refuse every commit.
pub struct EmptyPreviewRepository;

impl PreviewRecords for EmptyPreviewRepository {
    open spec fn sessions(&self) -> Map<u128, PreviewSession> {
        Map::empty()
    }

    open spec fn screenshots(&self) -> Map<u128, PreviewScreenshot> {
        Map::empty()
    }

    open spec fn revisions(&self) -> Map<u128, u64> {
        Map::empty()
    }

    open spec fn never_fails(&self) -> bool {
        false
    }
}

impl PreviewTransactionRepository for EmptyPreviewRepository {
    /// Nothing is stored, so nothing is found.
    fn find_by_workspace(&self, workspace_id: &WorkbenchWorkspaceId) -> (r: Result<Option<PreviewSession>, RepositoryError>)
        ensures
            r matches Ok(None),
    {
        Ok(None)
    }

    fn commit_preview_open(&mut self, workspace_id: &WorkbenchWorkspaceId, session: PreviewSession) -> (r: Result<DurablePreviewCommit, RepositoryError>)
        ensures
            r matches Err(e) && e@ == "preview repository unavailable"@,
    {
        Err(RepositoryError::new("preview repository unavailable"))
    }
}

impl PreviewScreenshotRepository for EmptyPreviewRepository {
    /// Nothing is stored, so nothing is found.
    fn find_latest(&self, workspace_id: &WorkbenchWorkspaceId) -> (r: Result<Option<PreviewScreenshot>, RepositoryError>)
        ensures
            r matches Ok(None),
    {
        Ok(None)
    }

    fn commit_screenshot(&mut self, screenshot: PreviewScreenshot) -> (r: Result<DurableScreenshotCommit, RepositoryError>)
        ensures
            r matches Err(e) && e@ == "preview repository unavailable"@,
    {
        Err(RepositoryError::new("preview repository unavailable"))
    }
}

/// A screenshot store that keeps nothing and refuses every request.
pub struct EmptyScreenshotStore;

impl ScreenshotStore for EmptyScreenshotStore {
    open spec fn files(&self) -> Map<Seq<char>, Seq<u8>> {
        Map::empty()
    }

    open spec fn never_fails(&self) -> bool {
        false
    }

    fn save(&mut self, workspace_id: &WorkbenchWorkspaceId, png: &[u8]) -> (r: Result<String, RepositoryError>)
        ensures
            r matches Err(e) && e@ == "screenshot store unavailable"@,
    {
        Err(RepositoryError::new("screenshot store unavailable"))
    }

    fn load(&self, path: &str) -> (r: Result<Vec<u8>, RepositoryError>)
        ensures
            r matches Err(e) && e@ == "screenshot store unavailable"@,
    {
        Err(RepositoryError::new("screenshot store unavailable"))
    }
}

/// The preview adapter of a server that has no preview window.
pub struct UnavailablePreviewAdapter;

impl PreviewAdapter for UnavailablePreviewAdapter {
    open spec fn opens(&self, workspace: Workspace, url: Option<String>, r: Result<PreviewSession, PreviewError>) -> bool {
        r is Err && r->Err_0@ == "preview adapter is not configured"@
    }

    open spec fn captures(&self, workspace: Workspace, r: Result<CapturedPreviewImage, PreviewError>) -> bool {
        r is Err && r->Err_0@ == "preview adapter is not configured"@
    }

    fn open(&self, workspace: &Workspace, url: Option<String>) -> (r: Result<PreviewSession, PreviewError>) {
        Err(PreviewError::unavailable("preview adapter is not configured"))
    }

    fn capture_screenshot(&self, workspace: &Workspace) -> (r: Result<CapturedPreviewImage, PreviewError>) {
        Err(PreviewError::unavailable("preview adapter is not configured"))
    }
}

/// A preview window kept in memory: it opens every page it is asked for, as
/// asked, and gives the image it was made with.
pub struct InMemoryPreviewAdapter {
    png: Vec<u8>,
}

impl InMemoryPreviewAdapter {
    /// The image that every capture gives.
    pub closed spec fn image(&self) -> Seq<u8> {
        self.png@
    }

    pub fn new(png: Vec<u8>) -> (a: Self)
        ensures
            a.image() == png@,
    {
        InMemoryPreviewAdapter { png }
    }
}

impl PreviewAdapter for InMemoryPreviewAdapter {
    /// A new open session of `workspace` at `url`.
    open spec fn opens(&self, workspace: Workspace, url: Option<String>, r: Result<PreviewSession, PreviewError>) -> bool {
        &&& r is Ok
        &&& r->Ok_0.workspace_id == workspace.workspace_id
        &&& r->Ok_0.url == url
        &&& r->Ok_0.title is None
        &&& r->Ok_0.status == PreviewStatus::Open
    }

    open spec fn captures(&self, workspace: Workspace, r: Result<CapturedPreviewImage, PreviewError>) -> bool {
        r is Ok && r->Ok_0.png@ == self.image()
    }

    fn open(&self, workspace: &Workspace, url: Option<String>) -> (r: Result<PreviewSession, PreviewError>) {
        Ok(PreviewSession::opening(workspace, url).mark_open())
    }

    fn capture_screenshot(&self, workspace: &Workspace) -> (r: Result<CapturedPreviewImage, PreviewError>) {
        let mut png: Vec<u8> = Vec::new();
        for i in 0..self.png.len()
            invariant
                png@ == self.png@.take(i as int),
        {
            png.push(self.png[i]);
            assert(png@ =~= self.png@.take(i + 1));
        }
        assert(self.png@.take(self.png.len() as int) =~= self.png@);
        Ok(CapturedPreviewImage { png })
    }
}

/// An agent bridge for a Workbench that is not connected to Herdr: it lists no
/// agent and delivers no prompt.
pub struct UnavailableAgentBridge {
    asked: Ghost<Seq<Result<Vec<HerdrAgentInfo>, HerdrHostError>>>,
    tried: Ghost<Seq<(Seq<char>, Seq<char>)>>,
}

impl UnavailableAgentBridge {
    pub fn new() -> (b: Self)
        ensures
            b.answers() == Seq::<Result<Vec<HerdrAgentInfo>, HerdrHostError>>::empty(),
            b.attempts() == Seq::<(Seq<char>, Seq<char>)>::empty(),
    {
        UnavailableAgentBridge { asked: Ghost(Seq::empty()), tried: Ghost(Seq::empty()) }
    }
}

impl HerdrAgentBridge for UnavailableAgentBridge {
    closed spec fn answers(&self) -> Seq<Result<Vec<HerdrAgentInfo>, HerdrHostError>> {
        self.asked@
    }

    closed spec fn attempts(&self) -> Seq<(Seq<char>, Seq<char>)> {
        self.tried@
    }

    open spec fn prompts(&self) -> Seq<(Seq<char>, Seq<char>)> {
        Seq::empty()
    }

    fn list_agents(&mut self) -> (r: Result<Vec<HerdrAgentInfo>, HerdrHostError>)
        ensures
            r matches Ok(v) && v@.len() == 0,
    {
        let r = Ok(Vec::new());
        proof {
            self.asked@ = self.asked@.push(r);
        }
        r
    }

    fn prompt_agent(&mut self, target: &str, text: &str) -> (r: Result<(), HerdrHostError>)
        ensures
            r matches Err(e) && e@ == "Herdr agent bridge is not configured"@,
    {
        proof {
            self.tried@ = self.tried@.push((target@, text@));
        }
        Err(HerdrHostError::unavailable("Herdr agent bridge is not configured"))
    }
}

/// The view of a delivered prompt: its target pane and its text.
pub open spec fn prompt_view(p: (String, String)) -> (Seq<char>, Seq<char>) {
    (p.0@, p.1@)
}

/// An agent bridge with a fixed list of agents, which delivers every prompt
/// and keeps it.
pub struct RecordingAgentBridge {
    agents: Vec<HerdrAgentInfo>,
    delivered: Vec<(String, String)>,
    asked: Ghost<Seq<Result<Vec<HerdrAgentInfo>, HerdrHostError>>>,
}

impl RecordingAgentBridge {
    /// The agents that every listing reports.
    pub closed spec fn listed(&self) -> Seq<HerdrAgentInfo> {
        self.agents@
    }

    pub fn new(agents: Vec<HerdrAgentInfo>) -> (b: Self)
        ensures
            b.listed() == agents@,
            b.answers() == Seq::<Result<Vec<HerdrAgentInfo>, HerdrHostError>>::empty(),
            b.attempts() == Seq::<(Seq<char>, Seq<char>)>::empty(),
            b.prompts() == Seq::<(Seq<char>, Seq<char>)>::empty(),
    {
        let b = RecordingAgentBridge { agents, delivered: Vec::new(), asked: Ghost(Seq::empty()) };
        assert(b.prompts() =~= Seq::<(Seq<char>, Seq<char>)>::empty());
        b
    }

    /// This bridge delivers every prompt it attempts.
    pub proof fn lemma_attempts_delivered(b: RecordingAgentBridge)
        ensures
            b.attempts() == b.prompts(),
    {
    }

    /// The prompts delivered so far, oldest first.
    pub fn delivered(&self) -> (r: &[(String, String)])
        ensures
            r@.map_values(|p: (String, String)| prompt_view(p)) == self.prompts(),
    {
        self.delivered.as_slice()
    }
}

impl HerdrAgentBridge for RecordingAgentBridge {
    closed spec fn answers(&self) -> Seq<Result<Vec<HerdrAgentInfo>, HerdrHostError>> {
        self.asked@
    }

    /// Every attempt is delivered.
    closed spec fn attempts(&self) -> Seq<(Seq<char>, Seq<char>)> {
        self.delivered@.map_values(|p: (String, String)| prompt_view(p))
    }

    closed spec fn prompts(&self) -> Seq<(Seq<char>, Seq<char>)> {
        self.delivered@.map_values(|p: (String, String)| prompt_view(p))
    }

    fn list_agents(&mut self) -> (r: Result<Vec<HerdrAgentInfo>, HerdrHostError>)
        ensures
            r matches Ok(v) && v@ == old(self).listed(),
            final(self).listed() == old(self).listed(),
    {
        let mut v: Vec<HerdrAgentInfo> = Vec::new();
        for i in 0..self.agents.len()
            invariant
                v@ == self.agents@.take(i as int),
        {
            v.push(self.agents[i].clone());
            assert(v@ =~= self.agents@.take(i + 1));
        }
        assert(self.agents@.take(self.agents.len() as int) =~= self.agents@);
        let r = Ok(v);
        proof {
            self.asked@ = self.asked@.push(r);
        }
        r
    }

    fn prompt_agent(&mut self, target: &str, text: &str) -> (r: Result<(), HerdrHostError>)
        ensures
            r is Ok,
    {
        let ghost before = self.prompts();
        self.delivered.push((owned(target), owned(text)));
        assert(self.prompts() =~= before.push((target@, text@)));
        Ok(())
    }
}

/// A sleeper that keeps each wait asked of it and leaves the waiting itself
/// to whoever runs the loop, who reads the waits back with `recorded`.
pub struct RecordingSleeper {
    asked: Vec<u64>,
}

impl RecordingSleeper {
    pub fn new() -> (s: Self)
        ensures
            s.waits() == Seq::<u64>::empty(),
    {
        RecordingSleeper { asked: Vec::new() }
    }

    /// The waits asked for so far, in seconds, oldest first.
    pub fn recorded(&self) -> (r: &[u64])
        ensures
            r@ == self.waits(),
    {
        self.asked.as_slice()
    }
}

impl ReconcileSleeper for RecordingSleeper {
    closed spec fn waits(&self) -> Seq<u64> {
        self.asked@
    }

    fn sleep(&mut self, seconds: u64) {
        self.asked.push(seconds);
    }
}

} // verus!
