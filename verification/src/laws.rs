//! Properties of the library that span several operations or hold of every
//! input, stated over the models that the operations' contracts use.

use vstd::prelude::*;
use crate::domain::Workspace;
use crate::herdr::{
    HerdrAgentInfo, HerdrPaneInfo, HerdrWorkspaceInfo, ascii_lower, chosen_root, cwd_bindable, eq_ignore_ascii_case,
    focused_root_usable, is_first_bindable_pane, is_first_focused_pane, is_first_local_agent, lemma_first_bindable_unique,
    lemma_first_focused_unique, lemma_first_local_unique, selected_agent,
};
use crate::domain::{is_absolute_windows_path, workspace_root_error};
use crate::preview::{PreviewDiagnosticKind, PreviewDiagnosticLevel};
use crate::contracts::{PreviewDiagnosticDto, shows_diagnostic};
use crate::text::is_blank;
use crate::ports::{
    PREVIEW_DIAGNOSTIC_LIMIT, PreviewRecords, binding_for_herdr_id, bindings_distinct, insert_binding, keep_latest,
    lemma_insert_binding_lookup, lemma_unbound_absent, revision_in, updated_session,
};
use crate::preview::{
    AppEvent, EventPayload, PreviewDiagnostic, PreviewOpened, PreviewScreenshot, PreviewScreenshotCaptured, PreviewSession,
    PreviewStatus, announces_opened, announces_screenshot,
};
use crate::previewing::preview_opened_in;
use crate::contracts::{WorkspaceEventEnvelope, is_envelope_of};

use crate::ident::WorkbenchWorkspaceId;
use crate::transport::{StreamAction, StreamReceipt, stream_step};
use crate::render::{PREVIEW_CONTEXT_DIAGNOSTIC_LIMIT, preview_context_lines};
use crate::usecases::{
    HerdrWorkspaceSyncReport, added_bindings, bindable_prefix, bindable_workspaces, is_first_occurrence, listing_bound,
    sync_effect,
};

verus! {

/// Binding a Herdr workspace a second time changes nothing: the first
/// binding stays, whatever the second one would have held.
pub proof fn binding_twice_changes_nothing(s: Seq<Workspace>, first: Workspace, second: Workspace)
    requires
        first.herdr_workspace_id@ == second.herdr_workspace_id@,
    ensures
        insert_binding(insert_binding(s, first), second) == insert_binding(s, first),
{
    let key = first.herdr_workspace_id@;
    lemma_insert_binding_lookup(s, first, key);
    assert(binding_for_herdr_id(insert_binding(s, first), key) is Some);
}

/// Bindings are keyed by the Herdr workspace alone: binding one Herdr
/// workspace leaves what every other one is bound to as it was, even where
/// both work in the same directory.
pub proof fn bindings_stay_isolated(s: Seq<Workspace>, w: Workspace, other: Seq<char>)
    requires
        other != w.herdr_workspace_id@,
    ensures
        binding_for_herdr_id(insert_binding(s, w), other) == binding_for_herdr_id(s, other),
{
    lemma_insert_binding_lookup(s, w, other);
}

/// Where workspace `j` of a listing has a usable root, it is among the
/// first `n` bindable workspaces for every `n` past it.
proof fn lemma_bindable_member(ws: Seq<HerdrWorkspaceInfo>, panes: Seq<HerdrPaneInfo>, n: int, j: int)
    requires
        0 <= j < n <= ws.len(),
        chosen_root(ws[j], panes) is Some,
    ensures
        exists|k: int|
            0 <= k < bindable_prefix(ws, panes, n).len() && #[trigger] bindable_prefix(ws, panes, n)[k] == ws[j],
    decreases n,
{
    let p = bindable_prefix(ws, panes, n - 1);
    if j == n - 1 {
        assert(bindable_prefix(ws, panes, n) == p.push(ws[j]));
        assert(bindable_prefix(ws, panes, n)[p.len() as int] == ws[j]);
    } else {
        lemma_bindable_member(ws, panes, n - 1, j);
        let k = choose|k: int| 0 <= k < p.len() && #[trigger] p[k] == ws[j];
        if chosen_root(ws[n - 1], panes) is Some {
            assert(bindable_prefix(ws, panes, n) == p.push(ws[n - 1]));
            assert(bindable_prefix(ws, panes, n)[k] == p[k]);
        } else {
            assert(bindable_prefix(ws, panes, n) == p);
        }
        assert(bindable_prefix(ws, panes, n)[k] == ws[j]);
    }
}

/// After a reconciliation with a repository that keeps what it is given,
/// every Herdr workspace of the listing that has a usable root is bound; so
/// reconciling the same listing again changes nothing (see `sync_listing`).
pub proof fn reconciling_binds_the_listing(
    s0: Seq<Workspace>,
    s1: Seq<Workspace>,
    ws: Seq<HerdrWorkspaceInfo>,
    panes: Seq<HerdrPaneInfo>,
    rep: HerdrWorkspaceSyncReport,
)
    requires
        sync_effect(s0, s1, true, ws, panes, rep),
    ensures
        listing_bound(s1, ws, panes),
{
    let plan = bindable_workspaces(ws, panes);
    assert forall|j: int| 0 <= j < ws.len() && #[trigger] chosen_root(ws[j], panes) is Some implies binding_for_herdr_id(
        s1,
        ws[j].workspace_id@,
    ) is Some by {
        lemma_bindable_member(ws, panes, ws.len() as int, j);
        let k = choose|k: int| 0 <= k < plan.len() && #[trigger] plan[k] == ws[j];
        assert(binding_for_herdr_id(s1, plan[k].workspace_id@) == Some(rep.bound@[k]));
    }
}

/// Reconciling the same listing twice reports the same bindings, in the same
/// order.
pub proof fn reconciling_again_reports_the_same_bindings(
    s0: Seq<Workspace>,
    s1: Seq<Workspace>,
    s2: Seq<Workspace>,
    ws: Seq<HerdrWorkspaceInfo>,
    panes: Seq<HerdrPaneInfo>,
    first: HerdrWorkspaceSyncReport,
    second: HerdrWorkspaceSyncReport,
)
    requires
        sync_effect(s0, s1, true, ws, panes, first),
        sync_effect(s1, s2, true, ws, panes, second),
    ensures
        second.bound@ == first.bound@,
        second.skipped == first.skipped,
{
    let plan = bindable_workspaces(ws, panes);
    assert forall|k: int| 0 <= k < plan.len() implies #[trigger] second.bound@[k] == first.bound@[k] by {
        assert(binding_for_herdr_id(s1, plan[k].workspace_id@) == Some(first.bound@[k]));
    }
    assert(second.bound@ =~= first.bound@);
}

/// The bindings that a reconciliation adds to `s0`, up to position `n` of the
/// plan, are bound once each and are of planned Herdr workspaces that `s0`
/// does not bind.
proof fn lemma_added_bindings_distinct(
    s0: Seq<Workspace>,
    plan: Seq<HerdrWorkspaceInfo>,
    bound: Seq<Workspace>,
    n: int,
)
    requires
        bindings_distinct(s0),
        0 <= n <= plan.len(),
        plan.len() == bound.len(),
        forall|k: int| 0 <= k < plan.len() ==> (#[trigger] bound[k]).herdr_workspace_id@ == plan[k].workspace_id@,
    ensures
        bindings_distinct(s0 + added_bindings(s0, plan, bound, n)),
        forall|m: int|
            0 <= m < added_bindings(s0, plan, bound, n).len() ==> exists|k: int|
                0 <= k < n && (#[trigger] added_bindings(s0, plan, bound, n)[m]).herdr_workspace_id@
                    == plan[k].workspace_id@,
    decreases n,
{
    if n > 0 {
        lemma_added_bindings_distinct(s0, plan, bound, n - 1);
        let prev = added_bindings(s0, plan, bound, n - 1);
        let key = plan[n - 1].workspace_id@;
        if binding_for_herdr_id(s0, key) is None && is_first_occurrence(plan, n - 1) {
            let cur = added_bindings(s0, plan, bound, n);
            assert(cur == prev.push(bound[n - 1]));
            lemma_unbound_absent(s0, key);
            let u = s0 + prev;
            let t = s0 + cur;
            assert(t =~= u.push(bound[n - 1]));
            assert forall|i: int| 0 <= i < u.len() implies (#[trigger] u[i]).herdr_workspace_id@ != key by {
                if i < s0.len() {
                    assert(u[i] == s0[i]);
                } else {
                    let m = i - s0.len();
                    assert(u[i] == prev[m]);
                    let k = choose|k: int| 0 <= k < n - 1 && (#[trigger] prev[m]).herdr_workspace_id@ == plan[k].workspace_id@;
                    assert(plan[k].workspace_id@ != plan[n - 1].workspace_id@);
                }
            }
            assert forall|i: int, j: int| 0 <= i < j < t.len() implies #[trigger] t[i].herdr_workspace_id@
                != #[trigger] t[j].herdr_workspace_id@ by {
                if j == u.len() {
                    assert(t[i] == u[i]);
                } else {
                    assert(t[i] == u[i] && t[j] == u[j]);
                }
            }
            assert forall|m: int| 0 <= m < cur.len() implies exists|k: int|
                0 <= k < n && (#[trigger] cur[m]).herdr_workspace_id@ == plan[k].workspace_id@ by {
                if m < prev.len() {
                    assert(cur[m] == prev[m]);
                    let k = choose|k: int| 0 <= k < n - 1 && (#[trigger] prev[m]).herdr_workspace_id@ == plan[k].workspace_id@;
                    assert(0 <= k < n && cur[m].herdr_workspace_id@ == plan[k].workspace_id@);
                } else {
                    assert(cur[m] == bound[n - 1]);
                    assert(0 <= n - 1 < n && cur[m].herdr_workspace_id@ == plan[n - 1].workspace_id@);
                }
            }
        }
    }
}

/// Reconciling keeps every Herdr workspace bound once: a repository with no
/// Herdr workspace bound twice has none bound twice afterwards.
pub proof fn reconciling_keeps_bindings_distinct(
    s0: Seq<Workspace>,
    s1: Seq<Workspace>,
    ws: Seq<HerdrWorkspaceInfo>,
    panes: Seq<HerdrPaneInfo>,
    rep: HerdrWorkspaceSyncReport,
)
    requires
        bindings_distinct(s0),
        sync_effect(s0, s1, true, ws, panes, rep),
    ensures
        bindings_distinct(s1),
{
    let plan = bindable_workspaces(ws, panes);
    lemma_added_bindings_distinct(s0, plan, rep.bound@, plan.len() as int);
}

/// The envelopes that the actions `actions` send, in order.
pub open spec fn sent_envelopes(actions: Seq<StreamAction>) -> Seq<WorkspaceEventEnvelope>
    decreases actions.len(),
{
    if actions.len() == 0 {
        Seq::empty()
    } else {
        let earlier = sent_envelopes(actions.drop_last());
        match actions.last() {
            StreamAction::Send(env) => earlier.push(env),
            _ => earlier,
        }
    }
}

/// The events of workspace `id` among what a receiver handed out, in order.
pub open spec fn own_events(id: WorkbenchWorkspaceId, received: Seq<StreamReceipt>) -> Seq<AppEvent>
    decreases received.len(),
{
    if received.len() == 0 {
        Seq::empty()
    } else {
        let earlier = own_events(id, received.drop_last());
        match received.last() {
            StreamReceipt::Event(e) => if e.workspace_id == id {
                earlier.push(e)
            } else {
                earlier
            },
            _ => earlier,
        }
    }
}

/// Over a run of events, a workspace's stream sends exactly the envelopes of
/// that workspace's events, one each, in the order they were received, and
/// nothing of any other workspace.
pub proof fn a_stream_forwards_its_own_events_in_order(
    id: WorkbenchWorkspaceId,
    received: Seq<StreamReceipt>,
    actions: Seq<StreamAction>,
)
    requires
        received.len() == actions.len(),
        forall|i: int| 0 <= i < received.len() ==> #[trigger] stream_step(id, received[i], actions[i]),
        forall|i: int| 0 <= i < received.len() ==> #[trigger] received[i] is Event,
    ensures
        sent_envelopes(actions).len() == own_events(id, received).len(),
        forall|k: int|
            0 <= k < sent_envelopes(actions).len() ==> is_envelope_of(
                #[trigger] sent_envelopes(actions)[k],
                own_events(id, received)[k],
            ),
    decreases received.len(),
{
    if received.len() > 0 {
        let n = received.len() - 1;
        let r0 = received.drop_last();
        let a0 = actions.drop_last();
        assert forall|i: int| 0 <= i < r0.len() implies #[trigger] stream_step(id, r0[i], a0[i]) by {
            assert(r0[i] == received[i] && a0[i] == actions[i]);
            assert(stream_step(id, received[i], actions[i]));
        }
        assert forall|i: int| 0 <= i < r0.len() implies #[trigger] r0[i] is Event by {
            assert(r0[i] == received[i]);
            assert(received[i] is Event);
        }
        a_stream_forwards_its_own_events_in_order(id, r0, a0);
        assert(stream_step(id, received[n], actions[n]));
        assert(received[n] is Event);
        assert(received.last() == received[n] && actions.last() == actions[n]);
    }
}

/// Opening a preview stores its session, so a second request finds it open
/// and changes nothing; the workspace's revision advances by exactly one and
/// no other workspace's revision moves.
pub proof fn opening_records_one_revision<R: PreviewRecords>(p0: R, p1: R, id: u128, session: PreviewSession, other: u128)
    requires
        preview_opened_in(p0, p1, id, session),
        revision_in(p0.revisions(), id) < u64::MAX,
        other != id,
    ensures
        p1.sessions().contains_key(id),
        p1.sessions()[id] == session,
        revision_in(p1.revisions(), id) == revision_in(p0.revisions(), id) + 1,
        revision_in(p1.revisions(), other) == revision_in(p0.revisions(), other),
        p1.sessions().contains_key(other) == p0.sessions().contains_key(other),
{
}

/// The event published for an open carries the revision that the commit
/// stored: a subscriber that reads the workspace's revision after the event
/// sees the event's own revision, and the session that the event carries.
pub proof fn opening_publishes_the_stored_revision<R: PreviewRecords>(
    p0: R,
    p1: R,
    id: u128,
    session: PreviewSession,
    event: AppEvent,
)
    requires
        preview_opened_in(p0, p1, id, session),
        revision_in(p0.revisions(), id) < u64::MAX,
        announces_opened(event, session, revision_in(p0.revisions(), id) + 1),
    ensures
        event.revision == revision_in(p1.revisions(), id),
        event.payload == EventPayload::PreviewOpened(PreviewOpened { session: p1.sessions()[id] }),
{
}

/// The event published for a screenshot carries the revision that the
/// commit stored for its workspace, and the screenshot stored as the latest.
pub proof fn capturing_publishes_the_stored_revision<R: PreviewRecords>(
    p0: R,
    p1: R,
    s: PreviewScreenshot,
    event: AppEvent,
)
    requires
        p1.screenshots() == p0.screenshots().insert(s.workspace_id.0, s),
        p1.revisions() == p0.revisions().insert(s.workspace_id.0, s.revision),
        announces_screenshot(event, s),
    ensures
        event.revision == revision_in(p1.revisions(), s.workspace_id.0),
        event.payload == EventPayload::PreviewScreenshotCaptured(
            PreviewScreenshotCaptured { screenshot: p1.screenshots()[s.workspace_id.0] },
        ),
{
}

/// A page-state report replaces the status, and the url and the title only
/// where it carries them; the session's identity never changes.
pub proof fn page_reports_keep_what_they_omit(
    s: PreviewSession,
    status: PreviewStatus,
    url: Option<String>,
    title: Option<String>,
)
    ensures
        updated_session(s, status, url, title).session_id == s.session_id,
        updated_session(s, status, url, title).workspace_id == s.workspace_id,
        updated_session(s, status, url, title).status == status,
        url is None ==> updated_session(s, status, url, title).url == s.url,
        title is None ==> updated_session(s, status, url, title).title == s.title,
        url is Some ==> updated_session(s, status, url, title).url == url,
        title is Some ==> updated_session(s, status, url, title).title == title,
{
}

/// A workspace keeps its latest diagnostics only: never more than the limit,
/// the newest always last, and nothing dropped while there is room.
pub proof fn diagnostics_keep_the_latest(kept: Seq<PreviewDiagnostic>, d: PreviewDiagnostic)
    ensures
        keep_latest(kept.push(d), PREVIEW_DIAGNOSTIC_LIMIT as nat).len() <= PREVIEW_DIAGNOSTIC_LIMIT,
        keep_latest(kept.push(d), PREVIEW_DIAGNOSTIC_LIMIT as nat).last() == d,
        kept.len() < PREVIEW_DIAGNOSTIC_LIMIT ==> keep_latest(kept.push(d), PREVIEW_DIAGNOSTIC_LIMIT as nat) == kept.push(d),
        kept.len() >= PREVIEW_DIAGNOSTIC_LIMIT ==> keep_latest(kept.push(d), PREVIEW_DIAGNOSTIC_LIMIT as nat)
            == kept.push(d).skip(kept.len() + 1 - PREVIEW_DIAGNOSTIC_LIMIT),
{
}

/// The feedback sent to an agent has at most a fixed number of lines: the
/// header and state lines, the note, and at most the limit of diagnostics.
pub proof fn preview_feedback_is_bounded(
    workspace: Workspace,
    session: Option<PreviewSession>,
    screenshot: Option<PreviewScreenshot>,
    diagnostics: Seq<PreviewDiagnostic>,
    note: Option<Seq<char>>,
)
    ensures
        preview_context_lines(workspace, session, screenshot, diagnostics, note).len() <= 9
            + PREVIEW_CONTEXT_DIAGNOSTIC_LIMIT,
{
}

/// A screenshot store gives back what it saved: after a save of `png` under
/// `path`, loading `path` yields `png`, and every other image is as it was.
pub proof fn saved_images_load_back(files: Map<Seq<char>, Seq<u8>>, path: Seq<char>, png: Seq<u8>, other: Seq<char>)
    requires
        other != path,
    ensures
        files.insert(path, png).contains_key(path),
        files.insert(path, png)[path] == png,
        files.insert(path, png).contains_key(other) == files.contains_key(other),
        files.contains_key(other) ==> files.insert(path, png)[other] == files[other],
{
}

// ---------------------------------------------------------------------------
// Where a Herdr workspace is rooted.

/// The directory of pane `p` can be a workspace root.
pub open spec fn usable_directory(p: HerdrPaneInfo) -> bool {
    p.cwd is Some && workspace_root_error(p.cwd->0@) is None
}

/// Where some pane of `w` at or before `j` can give a root, a first such pane exists.
proof fn lemma_first_usable_pane_exists(w: HerdrWorkspaceInfo, panes: Seq<HerdrPaneInfo>, j: int)
    requires
        0 <= j < panes.len(),
        panes[j].workspace_id@ == w.workspace_id@ && cwd_bindable(w.workspace_id@, panes[j].cwd),
    ensures
        exists|i: int| is_first_bindable_pane(w, panes, i),
    decreases j,
{
    if forall|q: int|
        0 <= q < j ==> !((#[trigger] panes[q]).workspace_id@ == w.workspace_id@ && cwd_bindable(w.workspace_id@, panes[q].cwd)) {
        assert(is_first_bindable_pane(w, panes, j));
    } else {
        let q = choose|q: int|
            0 <= q < j && (#[trigger] panes[q]).workspace_id@ == w.workspace_id@ && cwd_bindable(w.workspace_id@, panes[q].cwd);
        lemma_first_usable_pane_exists(w, panes, q);
    }
}

/// A Herdr workspace is rooted at the directory of its first focused pane
/// whenever that directory can be a workspace root, whatever the checkout of
/// its worktree is.
pub proof fn a_workspace_is_rooted_at_its_focused_pane(w: HerdrWorkspaceInfo, panes: Seq<HerdrPaneInfo>, i: int)
    requires
        0 <= i < panes.len(),
        panes[i].workspace_id@ == w.workspace_id@,
        panes[i].focused,
        forall|j: int| 0 <= j < i ==> !((#[trigger] panes[j]).workspace_id@ == w.workspace_id@ && panes[j].focused),
        usable_directory(panes[i]),
        !is_blank(w.workspace_id@),
    ensures
        chosen_root(w, panes) == Some(panes[i].cwd->0@),
{
    assert(is_first_focused_pane(w, panes, i));
    let f = choose|k: int| is_first_focused_pane(w, panes, k);
    lemma_first_focused_unique(w, panes, i, f);
}

/// Where the first focused pane of a Herdr workspace (if any) cannot give a
/// root, the workspace is rooted at the directory of its first pane that can.
pub proof fn otherwise_a_workspace_is_rooted_at_its_first_usable_pane(
    w: HerdrWorkspaceInfo,
    panes: Seq<HerdrPaneInfo>,
    i: int,
)
    requires
        forall|f: int|
            0 <= f < panes.len() && (#[trigger] panes[f]).workspace_id@ == w.workspace_id@ && panes[f].focused && (forall|
                j: int,
            | 0 <= j < f ==> !((#[trigger] panes[j]).workspace_id@ == w.workspace_id@ && panes[j].focused))
                ==> !usable_directory(panes[f]),
        0 <= i < panes.len(),
        panes[i].workspace_id@ == w.workspace_id@,
        usable_directory(panes[i]),
        forall|j: int| 0 <= j < i ==> !((#[trigger] panes[j]).workspace_id@ == w.workspace_id@ && usable_directory(panes[j])),
        !is_blank(w.workspace_id@),
    ensures
        chosen_root(w, panes) == Some(panes[i].cwd->0@),
{
    assert(is_first_bindable_pane(w, panes, i));
    let b = choose|k: int| is_first_bindable_pane(w, panes, k);
    lemma_first_bindable_unique(w, panes, i, b);
    if exists|k: int| is_first_focused_pane(w, panes, k) {
        let f = choose|k: int| is_first_focused_pane(w, panes, k);
        assert(!usable_directory(panes[f]));
    }
    assert(!focused_root_usable(w, panes));
}

/// Where some pane of a Herdr workspace has a directory that can be a
/// workspace root, the workspace is rooted at the directory of one of its own
/// panes, never at the checkout of its worktree.
pub proof fn a_usable_pane_directory_wins_over_the_worktree(w: HerdrWorkspaceInfo, panes: Seq<HerdrPaneInfo>, j: int)
    requires
        0 <= j < panes.len(),
        panes[j].workspace_id@ == w.workspace_id@,
        usable_directory(panes[j]),
        !is_blank(w.workspace_id@),
    ensures
        exists|k: int|
            0 <= k < panes.len() && (#[trigger] panes[k]).workspace_id@ == w.workspace_id@ && usable_directory(panes[k])
                && chosen_root(w, panes) == Some(panes[k].cwd->0@),
{
    let f = choose|k: int| is_first_focused_pane(w, panes, k);
    if focused_root_usable(w, panes) {
        assert(is_first_focused_pane(w, panes, f));
        assert(panes[f].workspace_id@ == w.workspace_id@ && usable_directory(panes[f]));
    } else {
        lemma_first_usable_pane_exists(w, panes, j);
        let b = choose|k: int| is_first_bindable_pane(w, panes, k);
        assert(panes[b].workspace_id@ == w.workspace_id@ && usable_directory(panes[b]));
    }
}

/// A Herdr workspace none of whose panes can give a root is rooted at the
/// checkout of its worktree, where that can be a root.
pub proof fn the_worktree_roots_a_workspace_only_as_a_last_resort(
    w: HerdrWorkspaceInfo,
    panes: Seq<HerdrPaneInfo>,
)
    requires
        forall|k: int| 0 <= k < panes.len() && (#[trigger] panes[k]).workspace_id@ == w.workspace_id@ ==> !usable_directory(panes[k]),
        !is_blank(w.workspace_id@),
    ensures
        w.worktree_checkout_path is Some && workspace_root_error(w.worktree_checkout_path->0@) is None
            ==> chosen_root(w, panes) == Some(w.worktree_checkout_path->0@),
        !(w.worktree_checkout_path is Some && workspace_root_error(w.worktree_checkout_path->0@) is None)
            ==> chosen_root(w, panes) is None,
{
    let f = choose|k: int| is_first_focused_pane(w, panes, k);
    if exists|k: int| is_first_focused_pane(w, panes, k) {
        assert(is_first_focused_pane(w, panes, f));
        assert(!usable_directory(panes[f]));
    }
    if exists|k: int| is_first_bindable_pane(w, panes, k) {
        let b = choose|k: int| is_first_bindable_pane(w, panes, k);
        assert(!usable_directory(panes[b]));
    }
}

/// A Herdr workspace with a blank identifier is never rooted.
pub proof fn a_blank_workspace_is_never_rooted(w: HerdrWorkspaceInfo, panes: Seq<HerdrPaneInfo>)
    requires
        is_blank(w.workspace_id@),
    ensures
        chosen_root(w, panes) is None,
{
    if exists|k: int| is_first_bindable_pane(w, panes, k) {
        let b = choose|k: int| is_first_bindable_pane(w, panes, k);
        assert(is_first_bindable_pane(w, panes, b));
    }
}

// ---------------------------------------------------------------------------
// Drive-rooted workspace roots.

/// An ASCII letter, in either case.
pub open spec fn is_drive_letter(c: char) -> bool {
    ('a' <= c && c <= 'z') || ('A' <= c && c <= 'Z')
}

/// `s` holds no two dots in a row, so no `..` component.
pub open spec fn no_double_dot(s: Seq<char>) -> bool {
    forall|i: int| 0 <= i < s.len() - 1 ==> !(#[trigger] s[i] == '.' && s[i + 1] == '.')
}

/// The path of drive `d` rooted at its top, followed by `s`.
pub open spec fn drive_rooted(d: char, s: Seq<char>) -> Seq<char> {
    seq![d, ':', '\\'] + s
}

/// Which drive letter a drive-rooted path names, and in which case, does not
/// change whether it can be a workspace root, or why not.
pub proof fn the_drive_letter_does_not_matter(d: char, e: char, s: Seq<char>)
    requires
        is_drive_letter(d),
        is_drive_letter(e),
    ensures
        workspace_root_error(drive_rooted(d, s)) == workspace_root_error(drive_rooted(e, s)),
        is_absolute_windows_path(drive_rooted(d, s)),
{
    let p = drive_rooted(d, s);
    let q = drive_rooted(e, s);
    assert(p[0] == d && p[1] == ':' && p[2] == '\\');
    assert(q[0] == e && q[1] == ':' && q[2] == '\\');
    assert forall|k: int| 1 <= k < p.len() implies p[k] == q[k] by {
        if k >= 3 {
            assert(p[k] == s[k - 3] && q[k] == s[k - 3]);
        }
    }
    assert forall|i: int| crate::domain::parent_component_at(p, i) == crate::domain::parent_component_at(q, i) by {
        if 3 <= i && i + 2 <= p.len() {
            assert(p[i] == q[i] && p[i + 1] == q[i + 1] && p[i - 1] == q[i - 1]);
            if i + 2 < p.len() {
                assert(p[i + 2] == q[i + 2]);
            }
        }
    }
    assert(crate::domain::has_parent_component(p) == crate::domain::has_parent_component(q));
}

/// A drive-rooted path, with a drive letter of either case, that takes no
/// `..` step is a workspace root.
pub proof fn a_drive_rooted_path_without_parent_steps_is_a_root(d: char, s: Seq<char>)
    requires
        is_drive_letter(d),
        no_double_dot(s),
    ensures
        workspace_root_error(drive_rooted(d, s)) is None,
{
    let p = drive_rooted(d, s);
    assert(p[0] == d && p[1] == ':' && p[2] == '\\');
    assert(!crate::domain::has_parent_component(p)) by {
        assert forall|i: int| !crate::domain::parent_component_at(p, i) by {
            if crate::domain::parent_component_at(p, i) {
                assert(i >= 3);
                assert(p[i] == s[i - 3] && p[i + 1] == s[i - 2]);
                assert(s[i - 3] == '.' && s[i - 3 + 1] == '.');
            }
        }
    }
}

/// A drive-rooted path that takes a `..` step anywhere is refused as a
/// traversal, whatever comes before or after the step.
pub proof fn a_parent_step_is_refused(d: char, s: Seq<char>, t: Seq<char>)
    requires
        is_drive_letter(d),
    ensures
        workspace_root_error(drive_rooted(d, s + seq!['\\', '.', '.', '\\'] + t)) == Some(
            crate::domain::DomainError::WorkspaceRootContainsTraversal,
        ),
{
    let u = s + seq!['\\', '.', '.', '\\'] + t;
    let p = drive_rooted(d, u);
    assert(p[0] == d && p[1] == ':' && p[2] == '\\');
    let n = s.len() as int;
    let i: int = 3 + n + 1;
    assert(p[i - 1] == u[n] && u[n] == '\\');
    assert(p[i] == u[n + 1] && u[n + 1] == '.');
    assert(p[i + 1] == u[n + 2] && u[n + 2] == '.');
    assert(p[i + 2] == u[n + 3] && u[n + 3] == '\\');
    assert(crate::domain::parent_component_at(p, i));
}

/// A path that starts neither with a separator nor with a drive is relative,
/// and is refused as such.
pub proof fn a_relative_path_is_refused(p: Seq<char>)
    requires
        p.len() > 0,
        p[0] != '\\' && p[0] != '/',
        !(p.len() >= 2 && is_drive_letter(p[0]) && p[1] == ':'),
    ensures
        workspace_root_error(p) == Some(crate::domain::DomainError::WorkspaceRootMustBeAbsolute),
{
}

// ---------------------------------------------------------------------------
// Which agent receives feedback.

/// `s` spells "idle", each letter in either case.
pub open spec fn spells_idle(s: Seq<char>) -> bool {
    &&& s.len() == 4
    &&& (s[0] == 'i' || s[0] == 'I')
    &&& (s[1] == 'd' || s[1] == 'D')
    &&& (s[2] == 'l' || s[2] == 'L')
    &&& (s[3] == 'e' || s[3] == 'E')
}

proof fn lemma_idle_spelling(s: Seq<char>)
    ensures
        eq_ignore_ascii_case(s, "idle"@) <==> spells_idle(s),
{
    reveal_strlit("idle");
    if spells_idle(s) {
        assert forall|i: int| 0 <= i < s.len() implies ascii_lower(#[trigger] s[i]) == ascii_lower("idle"@[i]) by {}
    }
    if eq_ignore_ascii_case(s, "idle"@) {
        assert(ascii_lower(s[0]) == ascii_lower("idle"@[0]));
        assert(ascii_lower(s[1]) == ascii_lower("idle"@[1]));
        assert(ascii_lower(s[2]) == ascii_lower("idle"@[2]));
        assert(ascii_lower(s[3]) == ascii_lower("idle"@[3]));
    }
}

/// Feedback for a workspace goes to its first focused agent.
pub proof fn feedback_goes_to_the_first_focused_agent(id: Seq<char>, agents: Seq<HerdrAgentInfo>, i: int)
    requires
        0 <= i < agents.len(),
        agents[i].workspace_id@ == id && agents[i].focused,
        forall|j: int| 0 <= j < i ==> !((#[trigger] agents[j]).workspace_id@ == id && agents[j].focused),
    ensures
        selected_agent(id, agents) == Some(i),
{
    assert(is_first_local_agent(id, agents, i, 0u8));
    let c = choose|k: int| is_first_local_agent(id, agents, k, 0u8);
    lemma_first_local_unique(id, agents, 0u8, i, c);
}

/// With no focused agent, feedback for a workspace goes to its first agent
/// whose status is "idle" in any case; any other agent comes after it.
pub proof fn without_a_focused_agent_feedback_goes_to_the_first_idle_one(id: Seq<char>, agents: Seq<HerdrAgentInfo>, i: int)
    requires
        forall|j: int| 0 <= j < agents.len() ==> !((#[trigger] agents[j]).workspace_id@ == id && agents[j].focused),
        0 <= i < agents.len(),
        agents[i].workspace_id@ == id && spells_idle(agents[i].status@),
        forall|j: int| 0 <= j < i ==> !((#[trigger] agents[j]).workspace_id@ == id && spells_idle(agents[j].status@)),
    ensures
        selected_agent(id, agents) == Some(i),
{
    assert(!exists|k: int| is_first_local_agent(id, agents, k, 0u8));
    lemma_idle_spelling(agents[i].status@);
    assert forall|j: int| 0 <= j < i implies !((#[trigger] agents[j]).workspace_id@ == id && eq_ignore_ascii_case(
        agents[j].status@,
        "idle"@,
    )) by {
        lemma_idle_spelling(agents[j].status@);
    }
    assert(is_first_local_agent(id, agents, i, 1u8));
    let c = choose|k: int| is_first_local_agent(id, agents, k, 1u8);
    lemma_first_local_unique(id, agents, 1u8, i, c);
}

/// With no focused and no idle agent, feedback for a workspace goes to its
/// first agent.
pub proof fn otherwise_feedback_goes_to_the_first_agent_of_the_workspace(
    id: Seq<char>,
    agents: Seq<HerdrAgentInfo>,
    i: int,
)
    requires
        forall|j: int|
            0 <= j < agents.len() && (#[trigger] agents[j]).workspace_id@ == id ==> !agents[j].focused && !spells_idle(
                agents[j].status@,
            ),
        0 <= i < agents.len(),
        agents[i].workspace_id@ == id,
        forall|j: int| 0 <= j < i ==> (#[trigger] agents[j]).workspace_id@ != id,
    ensures
        selected_agent(id, agents) == Some(i),
{
    assert(!exists|k: int| is_first_local_agent(id, agents, k, 0u8));
    assert forall|k: int| !is_first_local_agent(id, agents, k, 1u8) by {
        if 0 <= k < agents.len() {
            lemma_idle_spelling(agents[k].status@);
        }
    }
    assert(is_first_local_agent(id, agents, i, 2u8));
    let c = choose|k: int| is_first_local_agent(id, agents, k, 2u8);
    lemma_first_local_unique(id, agents, 2u8, i, c);
}

/// A workspace with no agent gets no feedback.
pub proof fn a_workspace_without_agents_gets_no_feedback(id: Seq<char>, agents: Seq<HerdrAgentInfo>)
    requires
        forall|j: int| 0 <= j < agents.len() ==> (#[trigger] agents[j]).workspace_id@ != id,
    ensures
        selected_agent(id, agents) is None,
{
}

// ---------------------------------------------------------------------------
// What the feedback reports.

/// The feedback names the workspace and its directory, and reports the
/// session's page url, title and status as they are, with a dash only where
/// there is no session or the session has none.
pub proof fn feedback_reports_the_page_as_it_is(
    workspace: Workspace,
    session: Option<PreviewSession>,
    screenshot: Option<PreviewScreenshot>,
    diagnostics: Seq<PreviewDiagnostic>,
    note: Option<Seq<char>>,
)
    ensures
        ({
            let lines = preview_context_lines(workspace, session, screenshot, diagnostics, note);
            &&& lines.len() > 5
            &&& lines[1] == "workspace: "@ + workspace.label@
            &&& lines[2] == "cwd: "@ + workspace.cwd@
            &&& lines[3] == "url: "@ + (if session is Some && session->0.url is Some {
                session->0.url->0@
            } else {
                "-"@
            })
            &&& lines[4] == "title: "@ + (if session is Some && session->0.title is Some {
                session->0.title->0@
            } else {
                "-"@
            })
            &&& lines[5] == "status: "@ + (match session {
                Some(s) => match s.status {
                    PreviewStatus::Opening => "Opening"@,
                    PreviewStatus::Open => "Open"@,
                    PreviewStatus::Unavailable => "Unavailable"@,
                },
                None => "-"@,
            })
            &&& screenshot is None ==> lines[6] == "screenshot: none"@
        }),
{
}

// ---------------------------------------------------------------------------
// How a diagnostic is listed.

/// The level and kind texts of a listed diagnostic tell the recorded level
/// and kind: a warning reads "warning" and an error "error"; a console
/// message "console", an exception "exception" and a network failure
/// "network".
pub proof fn a_listed_diagnostic_tells_its_level_and_kind(d: PreviewDiagnosticDto, g: PreviewDiagnostic)
    requires
        shows_diagnostic(d, g),
    ensures
        g.level == PreviewDiagnosticLevel::Warning <==> d.level@ == "warning"@,
        g.level == PreviewDiagnosticLevel::Error <==> d.level@ == "error"@,
        g.kind == PreviewDiagnosticKind::Console <==> d.kind@ == "console"@,
        g.kind == PreviewDiagnosticKind::Exception <==> d.kind@ == "exception"@,
        g.kind == PreviewDiagnosticKind::Network <==> d.kind@ == "network"@,
{
    reveal_strlit("warning");
    reveal_strlit("error");
    reveal_strlit("console");
    reveal_strlit("exception");
    reveal_strlit("network");
    assert("warning"@ != "error"@) by {
        assert("warning"@.len() != "error"@.len());
    }
    assert("console"@ != "network"@) by {
        assert("console"@[0] != "network"@[0]);
    }
    assert("console"@ != "exception"@) by {
        assert("console"@.len() != "exception"@.len());
    }
    assert("exception"@ != "network"@) by {
        assert("exception"@.len() != "network"@.len());
    }
}

} // verus!
