//! The preview use cases: opening a workspace's preview, capturing its
//! screenshot, recording what its page reports, and sending preview feedback
//! to the workspace's agent.

use vstd::prelude::*;
use crate::digest::{lower_hex, sha256_hex, sha256_of};
use crate::domain::Workspace;
use crate::herdr::{HerdrAgentInfo, HerdrHostError, select_agent_for_workspace, selected_agent};
use crate::ident::{WorkbenchWorkspaceId, is_time_ordered_uuid, new_event_uuid};
use crate::ports::{
    ApplicationError, CapturedPreviewImage, EventPublisher, HerdrAgentBridge, PreviewAdapter,
    PreviewDiagnosticsSink, PreviewError, PreviewRecords, PreviewScreenshotRepository, PreviewStateUpdater,
    PreviewTransactionRepository, RepositoryError, ScreenshotStore, diagnostics_in, revision_in,
};
use crate::preview::{
    AppEvent, PreviewDiagnostic, PreviewScreenshot, PreviewSession, PreviewStatus, announces_opened, announces_screenshot,
    announces_state, appended_one,
};
use crate::render::{joined, preview_context_lines, render_preview_context};

verus! {

// ---------------------------------------------------------------------------
// Opening a preview.

/// The records of a workspace's preview after it was opened with `session`:
/// the session is stored and the revision advanced by one.
pub open spec fn preview_opened_in<R: PreviewRecords>(old_r: R, new_r: R, id: u128, session: PreviewSession) -> bool {
    &&& new_r.sessions() == old_r.sessions().insert(id, session)
    &&& new_r.screenshots() == old_r.screenshots()
    &&& new_r.revisions() == old_r.revisions().insert(id, (revision_in(old_r.revisions(), id) + 1) as u64)
}

/// The revision that the event of an open announces: the workspace's current
/// revision where a session is stored already, else the next one.
pub open spec fn opened_revision<R: PreviewRecords>(p: R, id: u128) -> int {
    if p.sessions().contains_key(id) {
        revision_in(p.revisions(), id) as int
    } else {
        revision_in(p.revisions(), id) + 1
    }
}

/// Stores the session that the preview window opened (`opened`), then
/// publishes the event of the commit; a window that could not open, or a
/// commit that failed, changes nothing and publishes nothing.
pub fn commit_opened_preview<R: PreviewTransactionRepository, E: EventPublisher>(
    previews: &mut R,
    events: &mut E,
    workspace_id: &WorkbenchWorkspaceId,
    opened: Result<PreviewSession, PreviewError>,
) -> (r: Result<PreviewSession, ApplicationError>)
    requires
        revision_in(old(previews).revisions(), workspace_id.0) < u64::MAX,
    ensures
        final(previews).never_fails() == old(previews).never_fails(),
        opened matches Err(e) ==> r == Err::<PreviewSession, ApplicationError>(ApplicationError::Preview(e)),
        r is Err ==> *final(previews) == *old(previews),
        r is Err ==> (r->Err_0 is Preview || r->Err_0 is Repository),
        opened is Ok && old(previews).never_fails() ==> r is Ok,
        old(previews).sessions().contains_key(workspace_id.0) ==> *final(previews) == *old(previews) && (r is Ok ==> r
            == Ok::<PreviewSession, ApplicationError>(old(previews).sessions()[workspace_id.0])),
        !old(previews).sessions().contains_key(workspace_id.0) && r is Ok ==> opened == Ok::<PreviewSession, PreviewError>(r->Ok_0)
            && preview_opened_in(*old(previews), *final(previews), workspace_id.0, r->Ok_0),
        r is Err && r->Err_0 is Preview ==> opened == Err::<PreviewSession, PreviewError>(r->Err_0->Preview_0),
        r is Err ==> final(events).published() == old(events).published(),
        r matches Ok(s) ==> appended_one(old(events).published(), final(events).published()) && announces_opened(
            final(events).published().last(),
            s,
            opened_revision(*old(previews), workspace_id.0),
        ),
{
    let session = match opened {
        Ok(s) => s,
        Err(e) => {
            return Err(ApplicationError::Preview(e));
        },
    };
    match previews.commit_preview_open(workspace_id, session) {
        Ok(commit) => {
            let ghost before = events.published();
            events.publish(commit.event);
            assert(events.published().drop_last() =~= before);
            Ok(commit.session)
        },
        Err(e) => Err(ApplicationError::Repository(e)),
    }
}

/// Opens the preview of a workspace, once.
pub struct OpenPreview<'a, R, P, E> {
    pub previews: &'a mut R,
    pub adapter: &'a P,
    pub events: &'a mut E,
}

impl<'a, R: PreviewTransactionRepository, P: PreviewAdapter, E: EventPublisher> OpenPreview<'a, R, P, E> {
    pub fn new(previews: &'a mut R, adapter: &'a P, events: &'a mut E) -> (o: Self)
        ensures
            *o.previews == *old(previews),
            *final(o.previews) == *final(previews),
            o.adapter == adapter,
            *o.events == *old(events),
            *final(o.events) == *final(events),
    {
        OpenPreview { previews, adapter, events }
    }

    /// A workspace whose preview is open already gets that session back;
    /// nothing changes and nothing is published. Otherwise the preview window
    /// is asked to open the workspace's preview at `url`; the session it gives
    /// is stored, the workspace's revision advances by one, and then the event
    /// that announces it at that revision is published. A window that cannot
    /// open gives its error back.
    pub fn execute(self, workspace: &Workspace, url: Option<String>) -> (r: Result<PreviewSession, ApplicationError>)
        requires
            revision_in(old(self.previews).revisions(), workspace.workspace_id.0) < u64::MAX,
        ensures
            ({
                let id = workspace.workspace_id.0;
                let p0 = *old(self.previews);
                let p1 = *final(self.previews);
                &&& p1.never_fails() == p0.never_fails()
                &&& r is Err ==> p1 == p0
                &&& p0.sessions().contains_key(id) ==> p1 == p0 && (r is Ok ==> r == Ok::<
                    PreviewSession,
                    ApplicationError,
                >(p0.sessions()[id]))
                &&& p0.sessions().contains_key(id) && p0.never_fails() ==> r is Ok
                &&& !p0.sessions().contains_key(id) && r is Ok ==> preview_opened_in(p0, p1, id, r->Ok_0)
                &&& (r is Err || p0.sessions().contains_key(id)) ==> final(self.events).published() == old(
                    self.events,
                ).published()
                &&& !p0.sessions().contains_key(id) && r is Ok ==> appended_one(
                    old(self.events).published(),
                    final(self.events).published(),
                ) && announces_opened(final(self.events).published().last(), r->Ok_0, revision_in(p0.revisions(), id) + 1)
                &&& !p0.sessions().contains_key(id) && r is Ok ==> self.adapter.opens(
                    *workspace,
                    url,
                    Ok::<PreviewSession, PreviewError>(r->Ok_0),
                )
                &&& r is Err && r->Err_0 is Preview ==> self.adapter.opens(
                    *workspace,
                    url,
                    Err::<PreviewSession, PreviewError>(r->Err_0->Preview_0),
                )
            }),
    {
        match self.previews.find_by_workspace(&workspace.workspace_id) {
            Err(e) => {
                return Err(ApplicationError::Repository(e));
            },
            Ok(Some(existing)) => {
                return Ok(existing);
            },
            Ok(None) => {},
        }
        let opened = self.adapter.open(workspace, url);
        commit_opened_preview(self.previews, self.events, &workspace.workspace_id, opened)
    }
}

// ---------------------------------------------------------------------------
// Capturing a screenshot.

/// Stores a captured image (`captured`) and its metadata, then publishes the
/// event of the commit; a capture that failed changes nothing and publishes
/// nothing.
pub fn record_capture<R: PreviewScreenshotRepository, E: EventPublisher, S: ScreenshotStore>(
    screenshots: &mut R,
    events: &mut E,
    store: &mut S,
    workspace: &Workspace,
    captured: Result<CapturedPreviewImage, PreviewError>,
) -> (r: Result<PreviewScreenshot, ApplicationError>)
    requires
        revision_in(old(screenshots).revisions(), workspace.workspace_id.0) < u64::MAX,
    ensures
        ({
            let id = workspace.workspace_id.0;
            let p0 = *old(screenshots);
            let p1 = *final(screenshots);
            &&& p1.never_fails() == p0.never_fails()
            &&& final(store).never_fails() == old(store).never_fails()
            &&& captured matches Err(e) ==> r == Err::<PreviewScreenshot, ApplicationError>(ApplicationError::Preview(e))
                && final(store).files() == old(store).files()
            &&& r is Err ==> p1 == p0 && (r->Err_0 is Preview || r->Err_0 is Repository)
            &&& r is Err ==> final(events).published() == old(events).published()
            &&& r is Err && r->Err_0 is Preview ==> captured == Err::<CapturedPreviewImage, PreviewError>(
                r->Err_0->Preview_0,
            )
            &&& captured is Ok && p0.never_fails() && old(store).never_fails() ==> r is Ok
            &&& r is Ok ==> {
                let s = r->Ok_0;
                let png = captured->Ok_0.png@;
                &&& captured is Ok
                &&& s.workspace_id == workspace.workspace_id
                &&& s.sha256@ == lower_hex(sha256_of(png))
                &&& s.sha256@.len() == 64
                &&& is_time_ordered_uuid(s.screenshot_id)
                &&& s.byte_size == png.len()
                &&& s.revision == revision_in(p0.revisions(), id) + 1
                &&& p1.sessions() == p0.sessions()
                &&& p1.screenshots() == p0.screenshots().insert(id, s)
                &&& p1.revisions() == p0.revisions().insert(id, s.revision)
                &&& final(store).files() == old(store).files().insert(s.path@, png)
                &&& appended_one(old(events).published(), final(events).published())
                &&& announces_screenshot(final(events).published().last(), s)
            }
        }),
{
    let image = match captured {
        Ok(image) => image,
        Err(e) => {
            return Err(ApplicationError::Preview(e));
        },
    };
    let path = match store.save(&workspace.workspace_id, image.png.as_slice()) {
        Ok(p) => p,
        Err(e) => {
            return Err(ApplicationError::Repository(e));
        },
    };
    let screenshot = PreviewScreenshot {
        screenshot_id: new_event_uuid(),
        workspace_id: workspace.workspace_id,
        path,
        sha256: sha256_hex(image.png.as_slice()),
        byte_size: image.png.len() as u64,
        revision: 0,
    };
    match screenshots.commit_screenshot(screenshot) {
        Ok(commit) => {
            let ghost before = events.published();
            events.publish(commit.event);
            assert(events.published().drop_last() =~= before);
            Ok(commit.screenshot)
        },
        Err(e) => Err(ApplicationError::Repository(e)),
    }
}

/// Captures, stores and announces a screenshot of a workspace's preview.
pub struct CapturePreview<'a, R, P, E, S> {
    pub screenshots: &'a mut R,
    pub adapter: &'a P,
    pub events: &'a mut E,
    pub store: &'a mut S,
}

impl<'a, R: PreviewScreenshotRepository, P: PreviewAdapter, E: EventPublisher, S: ScreenshotStore> CapturePreview<'a, R, P, E, S> {
    pub fn new(screenshots: &'a mut R, adapter: &'a P, events: &'a mut E, store: &'a mut S) -> (c: Self)
        ensures
            *c.screenshots == *old(screenshots),
            *final(c.screenshots) == *final(screenshots),
            c.adapter == adapter,
            *c.events == *old(events),
            *final(c.events) == *final(events),
            *c.store == *old(store),
            *final(c.store) == *final(store),
    {
        CapturePreview { screenshots, adapter, events, store }
    }

    /// Asks the preview window for an image of the workspace's preview, then
    /// stores it as `record_capture` does: the image stored is the one the
    /// window gave.
    pub fn execute(self, workspace: &Workspace) -> (r: Result<PreviewScreenshot, ApplicationError>)
        requires
            revision_in(old(self.screenshots).revisions(), workspace.workspace_id.0) < u64::MAX,
        ensures
            ({
                let id = workspace.workspace_id.0;
                let p0 = *old(self.screenshots);
                let p1 = *final(self.screenshots);
                &&& p1.never_fails() == p0.never_fails()
                &&& r is Err ==> p1 == p0 && (r->Err_0 is Preview || r->Err_0 is Repository)
                &&& r is Err ==> final(self.events).published() == old(self.events).published()
                &&& r is Err && r->Err_0 is Preview ==> self.adapter.captures(
                    *workspace,
                    Err::<CapturedPreviewImage, PreviewError>(r->Err_0->Preview_0),
                )
                &&& r is Ok ==> {
                    let s = r->Ok_0;
                    &&& appended_one(old(self.events).published(), final(self.events).published())
                    &&& announces_screenshot(final(self.events).published().last(), s)
                    &&& exists|img: CapturedPreviewImage|
                        #[trigger] self.adapter.captures(*workspace, Ok(img)) && final(self.store).files()[s.path@]
                            == img.png@
                    &&& s.sha256@.len() == 64
                    &&& is_time_ordered_uuid(s.screenshot_id)
                    &&& s.workspace_id == workspace.workspace_id
                    &&& s.revision == revision_in(p0.revisions(), id) + 1
                    &&& p1.sessions() == p0.sessions()
                    &&& p1.screenshots() == p0.screenshots().insert(id, s)
                    &&& p1.revisions() == p0.revisions().insert(id, s.revision)
                    &&& final(self.store).files().contains_key(s.path@)
                    &&& s.byte_size == final(self.store).files()[s.path@].len()
                    &&& s.sha256@ == lower_hex(sha256_of(final(self.store).files()[s.path@]))
                }
            }),
    {
        let captured = self.adapter.capture_screenshot(workspace);
        let ghost answer = captured;
        let r = record_capture(self.screenshots, self.events, self.store, workspace, captured);
        proof {
            if r is Ok {
                assert(self.adapter.captures(*workspace, Ok(answer->Ok_0)));
            }
        }
        r
    }
}

// ---------------------------------------------------------------------------
// Recording page state.

/// Records page state through `inner` and publishes each update that was
/// recorded, without a revision.
pub struct PublishingPreviewStateUpdater<R, E> {
    pub inner: R,
    pub events: E,
}

impl<R, E> PublishingPreviewStateUpdater<R, E> {
    pub fn new(inner: R, events: E) -> (u: Self)
        ensures
            u.inner == inner,
            u.events == events,
    {
        PublishingPreviewStateUpdater { inner, events }
    }
}

impl<R: PreviewRecords, E> PreviewRecords for PublishingPreviewStateUpdater<R, E> {
    open spec fn sessions(&self) -> Map<u128, PreviewSession> {
        self.inner.sessions()
    }

    open spec fn screenshots(&self) -> Map<u128, PreviewScreenshot> {
        self.inner.screenshots()
    }

    open spec fn revisions(&self) -> Map<u128, u64> {
        self.inner.revisions()
    }

    open spec fn never_fails(&self) -> bool {
        self.inner.never_fails()
    }
}

impl<R: PreviewStateUpdater, E: EventPublisher> PreviewStateUpdater for PublishingPreviewStateUpdater<R, E> {
    fn update_preview_state(
        &mut self,
        workspace_id: &WorkbenchWorkspaceId,
        status: PreviewStatus,
        url: Option<String>,
        title: Option<String>,
    ) -> (r: Result<PreviewSession, RepositoryError>)
        ensures
            r is Err ==> final(self).events.published() == old(self).events.published(),
            r matches Ok(s) ==> appended_one(old(self).events.published(), final(self).events.published())
                && announces_state(final(self).events.published().last(), s),
    {
        match self.inner.update_preview_state(workspace_id, status, url, title) {
            Ok(session) => {
                let ghost before = self.events.published();
                self.events.publish(AppEvent::preview_state_updated(session.clone()));
                assert(self.events.published().drop_last() =~= before);
                Ok(session)
            },
            Err(e) => Err(e),
        }
    }
}

// ---------------------------------------------------------------------------
// Sending preview feedback to an agent.

/// Which agent received preview feedback.
#[derive(Debug, PartialEq, Eq)]
pub struct PreviewContextReceipt {
    pub pane_id: String,
    pub agent: String,
}

/// The feedback for `workspace` and the agent that receives it: the agent
/// chosen by `selected_agent`, and the text of `render_preview_context`. A
/// workspace with no agent is refused.
pub fn compose_preview_context(
    workspace: &Workspace,
    session: Option<&PreviewSession>,
    screenshot: Option<&PreviewScreenshot>,
    diagnostics: &[PreviewDiagnostic],
    agents: &[HerdrAgentInfo],
    note: Option<&str>,
) -> (r: Result<(PreviewContextReceipt, String), HerdrHostError>)
    ensures
        r is Err <==> selected_agent(workspace.herdr_workspace_id@, agents@) is None,
        r matches Err(e) ==> e@ == "no Herdr agent is running in this workspace"@,
        r matches Ok((receipt, text)) ==> {
            let a = agents@[selected_agent(workspace.herdr_workspace_id@, agents@)->0];
            &&& receipt.pane_id == a.pane_id
            &&& receipt.agent == a.agent
            &&& text@ == joined(
                preview_context_lines(
                    *workspace,
                    match session { Some(s) => Some(*s), None => None },
                    match screenshot { Some(s) => Some(*s), None => None },
                    diagnostics@,
                    match note { Some(n) => Some(n@), None => None },
                ),
            )
        },
{
    let selected = match select_agent_for_workspace(workspace.herdr_workspace_id.as_str(), agents) {
        Some(a) => a,
        None => {
            return Err(HerdrHostError::unavailable("no Herdr agent is running in this workspace"));
        },
    };
    let text = render_preview_context(workspace, session, screenshot, diagnostics, note);
    Ok((PreviewContextReceipt { pane_id: selected.pane_id.clone(), agent: selected.agent.clone() }, text))
}

/// The session stored for workspace `id`, if any.
pub open spec fn stored_session<R: PreviewRecords>(p: R, id: u128) -> Option<PreviewSession> {
    if p.sessions().contains_key(id) {
        Some(p.sessions()[id])
    } else {
        None
    }
}

/// The latest screenshot stored for workspace `id`, if any.
pub open spec fn stored_screenshot<R: PreviewRecords>(p: R, id: u128) -> Option<PreviewScreenshot> {
    if p.screenshots().contains_key(id) {
        Some(p.screenshots()[id])
    } else {
        None
    }
}

/// The feedback text that `render_preview_context` writes.
pub open spec fn feedback_text(
    workspace: Workspace,
    session: Option<PreviewSession>,
    screenshot: Option<PreviewScreenshot>,
    diagnostics: Seq<PreviewDiagnostic>,
    note: Option<Seq<char>>,
) -> Seq<char> {
    joined(preview_context_lines(workspace, session, screenshot, diagnostics, note))
}

/// What delivering the feedback `text` to an agent of Herdr workspace
/// `herdr_id` does, given Herdr's answer to the agent listing (`listed`): it
/// took the bridge's attempted prompts from `a0` to `a1` and its delivered
/// ones from `d0` to `d1`, and answered `r`. A failed listing is answered with
/// Herdr's error and a workspace without an agent is refused; nobody is
/// prompted then. Otherwise the prompt is attempted once, in the pane of the
/// agent that `selected_agent` chooses, with `text`; the answer is the
/// receipt that names that agent exactly when the prompt was delivered.
pub open spec fn delivered_as(
    listed: Result<Vec<HerdrAgentInfo>, HerdrHostError>,
    herdr_id: Seq<char>,
    text: Seq<char>,
    a0: Seq<(Seq<char>, Seq<char>)>,
    a1: Seq<(Seq<char>, Seq<char>)>,
    d0: Seq<(Seq<char>, Seq<char>)>,
    d1: Seq<(Seq<char>, Seq<char>)>,
    r: Result<PreviewContextReceipt, ApplicationError>,
) -> bool {
    match listed {
        Err(e) => r == Err::<PreviewContextReceipt, ApplicationError>(ApplicationError::Herdr(e)) && a1 == a0 && d1 == d0,
        Ok(agents) => match selected_agent(herdr_id, agents@) {
            None => {
                &&& r is Err
                &&& r->Err_0 is Herdr
                &&& r->Err_0->Herdr_0@ == "no Herdr agent is running in this workspace"@
                &&& a1 == a0
                &&& d1 == d0
            },
            Some(i) => {
                let prompt = (agents@[i].pane_id@, text);
                &&& a1 == a0.push(prompt)
                &&& (d1 == d0.push(prompt) && r == Ok::<PreviewContextReceipt, ApplicationError>(
                    PreviewContextReceipt { pane_id: agents@[i].pane_id, agent: agents@[i].agent },
                )) || (d1 == d0 && r is Err && r->Err_0 is Herdr)
            },
        },
    }
}

/// Delivers preview feedback for `workspace`, given Herdr's answer to the
/// agent listing (`listed`), as `delivered_as` describes, with the text of
/// `render_preview_context`.
pub fn deliver_preview_context<A: HerdrAgentBridge>(
    bridge: &mut A,
    workspace: &Workspace,
    session: Option<&PreviewSession>,
    screenshot: Option<&PreviewScreenshot>,
    diagnostics: &[PreviewDiagnostic],
    listed: Result<Vec<HerdrAgentInfo>, HerdrHostError>,
    note: Option<&str>,
) -> (r: Result<PreviewContextReceipt, ApplicationError>)
    ensures
        final(bridge).answers() == old(bridge).answers(),
        delivered_as(
            listed,
            workspace.herdr_workspace_id@,
            feedback_text(
                *workspace,
                match session {
                    Some(s) => Some(*s),
                    None => None,
                },
                match screenshot {
                    Some(s) => Some(*s),
                    None => None,
                },
                diagnostics@,
                match note {
                    Some(n) => Some(n@),
                    None => None,
                },
            ),
            old(bridge).attempts(),
            final(bridge).attempts(),
            old(bridge).prompts(),
            final(bridge).prompts(),
            r,
        ),
{
    let ghost answer = listed;
    let agents = match listed {
        Ok(a) => a,
        Err(e) => {
            return Err(ApplicationError::Herdr(e));
        },
    };
    let (receipt, text) = match compose_preview_context(
        workspace,
        session,
        screenshot,
        diagnostics,
        agents.as_slice(),
        note,
    ) {
        Ok(c) => c,
        Err(e) => {
            return Err(ApplicationError::Herdr(e));
        },
    };
    let r = match bridge.prompt_agent(receipt.pane_id.as_str(), text.as_str()) {
        Ok(()) => Ok(receipt),
        Err(e) => Err(ApplicationError::Herdr(e)),
    };
    proof {
        assert(answer == Ok::<Vec<HerdrAgentInfo>, HerdrHostError>(agents));
    }
    r
}

/// Sends preview feedback for a workspace to its agent.
pub struct SendPreviewContext<'a, P, D, A> {
    pub previews: &'a P,
    pub diagnostics: &'a D,
    pub agents: &'a mut A,
}

impl<'a, P: PreviewTransactionRepository + PreviewScreenshotRepository, D: PreviewDiagnosticsSink, A: HerdrAgentBridge> SendPreviewContext<'a, P, D, A> {
    pub fn new(previews: &'a P, diagnostics: &'a D, agents: &'a mut A) -> (s: Self)
        ensures
            s.previews == previews,
            s.diagnostics == diagnostics,
            *s.agents == *old(agents),
            *final(s.agents) == *final(agents),
    {
        SendPreviewContext { previews, diagnostics, agents }
    }

    /// Gathers the workspace's preview session, latest screenshot and
    /// diagnostics, asks Herdr for its agents, and delivers as
    /// `delivered_as` describes, given Herdr's answer, with the text of
    /// `render_preview_context` over what was gathered. A storage failure
    /// comes before Herdr is asked and leaves the bridge as it was.
    pub fn execute(self, workspace: &Workspace, note: Option<String>) -> (r: Result<PreviewContextReceipt, ApplicationError>)
        ensures
            r matches Err(ApplicationError::Repository(_)) ==> *final(self.agents) == *old(self.agents),
            self.previews.never_fails() ==> !(r matches Err(ApplicationError::Repository(_))),
            !(r matches Err(ApplicationError::Repository(_))) ==> {
                let b0 = *old(self.agents);
                let b1 = *final(self.agents);
                &&& b1.answers().len() == b0.answers().len() + 1
                &&& b1.answers().drop_last() == b0.answers()
                &&& delivered_as(
                    b1.answers().last(),
                    workspace.herdr_workspace_id@,
                    feedback_text(
                        *workspace,
                        stored_session(*self.previews, workspace.workspace_id.0),
                        stored_screenshot(*self.previews, workspace.workspace_id.0),
                        diagnostics_in(self.diagnostics.entries(), workspace.workspace_id.0),
                        match note {
                            Some(n) => Some(n@),
                            None => None,
                        },
                    ),
                    b0.attempts(),
                    b1.attempts(),
                    b0.prompts(),
                    b1.prompts(),
                    r,
                )
            },
    {
        let session = match self.previews.find_by_workspace(&workspace.workspace_id) {
            Ok(s) => s,
            Err(e) => {
                return Err(ApplicationError::Repository(e));
            },
        };
        let screenshot = match self.previews.find_latest(&workspace.workspace_id) {
            Ok(s) => s,
            Err(e) => {
                return Err(ApplicationError::Repository(e));
            },
        };
        let diagnostics = self.diagnostics.list(&workspace.workspace_id);
        let ghost b0 = *self.agents;
        let listed = self.agents.list_agents();
        proof {
            assert(self.agents.answers().drop_last() =~= b0.answers());
        }
        let note_text = match &note {
            Some(n) => Some(n.as_str()),
            None => None,
        };
        let r = deliver_preview_context(
            self.agents,
            workspace,
            session.as_ref(),
            screenshot.as_ref(),
            diagnostics.as_slice(),
            listed,
            note_text,
        );
        r
    }
}

} // verus!
