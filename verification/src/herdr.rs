//! What Workbench knows of Herdr: its workspaces, panes and agents as the
//! Herdr CLI lists them, how a workspace gets its root, which agent receives
//! feedback, and the command lines and event names that Workbench uses.

use vstd::prelude::*;
use crate::domain::{DomainError, HerdrWorkspaceContext, workspace_root_error};
use crate::preview::clone_text_option;
use crate::text::{is_blank, chars_of, text_equals, owned, decimal, decimal_text, push_text, trim, trim_text};

verus! {

/// A workspace as `herdr workspace list` reports it.
#[derive(Debug, PartialEq, Eq)]
pub struct HerdrWorkspaceInfo {
    pub workspace_id: String,
    pub label: String,
    pub worktree_checkout_path: Option<String>,
}

/// A pane as `herdr pane list` reports it.
#[derive(Debug, PartialEq, Eq)]
pub struct HerdrPaneInfo {
    pub workspace_id: String,
    pub cwd: Option<String>,
    pub focused: bool,
}

/// An agent as `herdr agent list` reports it.
#[derive(Debug, PartialEq, Eq)]
pub struct HerdrAgentInfo {
    pub workspace_id: String,
    pub pane_id: String,
    pub agent: String,
    pub status: String,
    pub focused: bool,
}

impl Clone for HerdrWorkspaceInfo {
    fn clone(&self) -> (r: Self)
        ensures
            r == *self,
    {
        HerdrWorkspaceInfo {
            workspace_id: self.workspace_id.clone(),
            label: self.label.clone(),
            worktree_checkout_path: clone_text_option(&self.worktree_checkout_path),
        }
    }
}

impl Clone for HerdrPaneInfo {
    fn clone(&self) -> (r: Self)
        ensures
            r == *self,
    {
        HerdrPaneInfo {
            workspace_id: self.workspace_id.clone(),
            cwd: clone_text_option(&self.cwd),
            focused: self.focused,
        }
    }
}

impl Clone for HerdrAgentInfo {
    fn clone(&self) -> (r: Self)
        ensures
            r == *self,
    {
        HerdrAgentInfo {
            workspace_id: self.workspace_id.clone(),
            pane_id: self.pane_id.clone(),
            agent: self.agent.clone(),
            status: self.status.clone(),
            focused: self.focused,
        }
    }
}

impl HerdrWorkspaceInfo {
    /// A workspace record from the CLI's fields; the checkout path of a
    /// worktree, where both are present, becomes the fallback root.
    pub fn from_cli(workspace_id: String, label: String, worktree_checkout_path: Option<Option<String>>) -> (w: Self)
        ensures
            w.workspace_id == workspace_id,
            w.label == label,
            w.worktree_checkout_path == (match worktree_checkout_path {
                Some(Some(p)) => Some(p),
                _ => None,
            }),
    {
        let path = match worktree_checkout_path {
            Some(Some(p)) => Some(p),
            _ => None,
        };
        HerdrWorkspaceInfo { workspace_id, label, worktree_checkout_path: path }
    }
}

impl HerdrPaneInfo {
    /// A pane record from the CLI's fields; an empty working directory counts
    /// as none.
    pub fn from_cli(workspace_id: String, cwd: Option<String>, focused: bool) -> (p: Self)
        ensures
            p.workspace_id == workspace_id,
            p.focused == focused,
            p.cwd == (match cwd {
                Some(c) => if c@.len() == 0 { None } else { Some(c) },
                None => None,
            }),
    {
        let cwd = match cwd {
            Some(c) => if c.as_str().is_empty() { None } else { Some(c) },
            None => None,
        };
        HerdrPaneInfo { workspace_id, cwd, focused }
    }
}

impl HerdrAgentInfo {
    /// An agent record from the CLI's fields; a missing status is empty.
    pub fn from_cli(
        workspace_id: String,
        pane_id: String,
        agent: String,
        status: Option<String>,
        focused: bool,
    ) -> (a: Self)
        ensures
            a.workspace_id == workspace_id,
            a.pane_id == pane_id,
            a.agent == agent,
            a.focused == focused,
            a.status@ == (match status {
                Some(s) => s@,
                None => Seq::<char>::empty(),
            }),
    {
        let status = match status {
            Some(s) => s,
            None => String::new(),
        };
        HerdrAgentInfo { workspace_id, pane_id, agent, status, focused }
    }
}

/// Herdr cannot be reached, or answered something unusable.
#[derive(Debug, PartialEq, Eq)]
pub struct HerdrHostError {
    message: String,
}

impl View for HerdrHostError {
    type V = Seq<char>;

    closed spec fn view(&self) -> Seq<char> {
        self.message@
    }
}

impl Clone for HerdrHostError {
    fn clone(&self) -> (r: Self)
        ensures
            r@ == self@,
    {
        HerdrHostError { message: self.message.clone() }
    }
}

/// The text that describes a Herdr error with message `m`.
pub open spec fn herdr_error_text(m: Seq<char>) -> Seq<char> {
    "Herdr host is unavailable: "@ + m
}

impl HerdrHostError {
    pub fn unavailable(message: &str) -> (e: Self)
        ensures
            e@ == message@,
    {
        HerdrHostError { message: owned(message) }
    }

    pub fn message(&self) -> (m: &str)
        ensures
            m@ == self@,
    {
        self.message.as_str()
    }

    /// "Herdr host is unavailable: " followed by the message.
    pub fn describe(&self) -> (text: String)
        ensures
            text@ == herdr_error_text(self@),
    {
        let mut text = owned("Herdr host is unavailable: ");
        push_text(&mut text, self.message.as_str());
        text
    }
}

// ---------------------------------------------------------------------------
// Choosing the root of a Herdr workspace.

/// A context can be made for workspace `id` with working directory `cwd`.
pub open spec fn cwd_bindable(id: Seq<char>, cwd: Option<String>) -> bool {
    &&& cwd is Some
    &&& workspace_root_error(cwd->0@) is None
    &&& !is_blank(id)
}

/// Pane `p` belongs to workspace `w`.
pub open spec fn owns_pane(w: HerdrWorkspaceInfo, p: HerdrPaneInfo) -> bool {
    p.workspace_id@ == w.workspace_id@
}

/// `i` is the first focused pane of `w`.
pub open spec fn is_first_focused_pane(w: HerdrWorkspaceInfo, panes: Seq<HerdrPaneInfo>, i: int) -> bool {
    &&& 0 <= i < panes.len()
    &&& owns_pane(w, panes[i]) && panes[i].focused
    &&& forall|j: int| 0 <= j < i ==> !(owns_pane(w, #[trigger] panes[j]) && panes[j].focused)
}

/// `i` is the first pane of `w` whose working directory can be a root.
pub open spec fn is_first_bindable_pane(w: HerdrWorkspaceInfo, panes: Seq<HerdrPaneInfo>, i: int) -> bool {
    &&& 0 <= i < panes.len()
    &&& owns_pane(w, panes[i]) && cwd_bindable(w.workspace_id@, panes[i].cwd)
    &&& forall|j: int|
        0 <= j < i ==> !(owns_pane(w, #[trigger] panes[j]) && cwd_bindable(w.workspace_id@, panes[j].cwd))
}

/// The first focused pane of `w` exists and its directory can be a root.
pub open spec fn focused_root_usable(w: HerdrWorkspaceInfo, panes: Seq<HerdrPaneInfo>) -> bool {
    (exists|i: int| is_first_focused_pane(w, panes, i)) && cwd_bindable(
        w.workspace_id@,
        panes[choose|i: int| is_first_focused_pane(w, panes, i)].cwd,
    )
}

/// The root chosen for `w`: the working directory of its first focused pane
/// if that can be a root; else that of its first pane whose directory can;
/// else the checkout of its worktree if that can; else none.
pub open spec fn chosen_root(w: HerdrWorkspaceInfo, panes: Seq<HerdrPaneInfo>) -> Option<Seq<char>> {
    let f = choose|i: int| is_first_focused_pane(w, panes, i);
    let b = choose|i: int| is_first_bindable_pane(w, panes, i);
    if focused_root_usable(w, panes) {
        Some(panes[f].cwd->0@)
    } else if exists|i: int| is_first_bindable_pane(w, panes, i) {
        Some(panes[b].cwd->0@)
    } else if cwd_bindable(w.workspace_id@, w.worktree_checkout_path) {
        Some(w.worktree_checkout_path->0@)
    } else {
        None
    }
}

/// The context for workspace `id`, labelled `label`, rooted at `cwd`, where
/// one can be made.
fn bindable_context(workspace_id: &str, label: &str, cwd: &Option<String>) -> (r: Option<HerdrWorkspaceContext>)
    ensures
        r is Some <==> cwd_bindable(workspace_id@, *cwd),
        r matches Some(c) ==> c.herdr_workspace_id@ == workspace_id@ && c.label@ == label@
            && c.cwd@ == cwd->0@,
{
    match cwd {
        Some(c) => match HerdrWorkspaceContext::new(workspace_id, label, c.as_str()) {
            Ok(context) => Some(context),
            Err(_) => None,
        },
        None => None,
    }
}

pub proof fn lemma_first_focused_unique(w: HerdrWorkspaceInfo, panes: Seq<HerdrPaneInfo>, i: int, k: int)
    requires
        is_first_focused_pane(w, panes, i),
        is_first_focused_pane(w, panes, k),
    ensures
        i == k,
{
    if i < k {
        assert(!(owns_pane(w, panes[i]) && panes[i].focused));
    } else if k < i {
        assert(!(owns_pane(w, panes[k]) && panes[k].focused));
    }
}

pub proof fn lemma_first_bindable_unique(w: HerdrWorkspaceInfo, panes: Seq<HerdrPaneInfo>, i: int, k: int)
    requires
        is_first_bindable_pane(w, panes, i),
        is_first_bindable_pane(w, panes, k),
    ensures
        i == k,
{
    if i < k {
        assert(!(owns_pane(w, panes[i]) && cwd_bindable(w.workspace_id@, panes[i].cwd)));
    } else if k < i {
        assert(!(owns_pane(w, panes[k]) && cwd_bindable(w.workspace_id@, panes[k].cwd)));
    }
}

/// The first focused pane of `workspace`.
fn first_focused_pane(workspace: &HerdrWorkspaceInfo, panes: &[HerdrPaneInfo]) -> (r: Option<usize>)
    ensures
        r is Some <==> exists|i: int| is_first_focused_pane(*workspace, panes@, i),
        r matches Some(i) ==> is_first_focused_pane(*workspace, panes@, i as int),
{
    let ghost w = *workspace;
    let mut i: usize = 0;
    while i < panes.len()
        invariant
            w == *workspace,
            i <= panes@.len(),
            forall|j: int| 0 <= j < i ==> !(owns_pane(w, #[trigger] panes@[j]) && panes@[j].focused),
        decreases panes.len() - i,
    {
        if text_equals(panes[i].workspace_id.as_str(), workspace.workspace_id.as_str()) && panes[i].focused {
            assert(is_first_focused_pane(w, panes@, i as int));
            return Some(i);
        }
        i = i + 1;
    }
    assert(!exists|k: int| is_first_focused_pane(w, panes@, k));
    None
}

/// The context in which Herdr workspace `workspace` is bound, rooted as
/// `chosen_root` says; a workspace with no usable root is refused.
pub fn derive_workspace_context(workspace: &HerdrWorkspaceInfo, panes: &[HerdrPaneInfo]) -> (r: Result<HerdrWorkspaceContext, DomainError>)
    ensures
        r is Ok <==> chosen_root(*workspace, panes@) is Some,
        r matches Ok(c) ==> c.cwd@ == chosen_root(*workspace, panes@)->0
            && c.herdr_workspace_id@ == workspace.workspace_id@ && c.label@ == workspace.label@,
        r matches Err(e) ==> e == DomainError::WorkspaceRootMustBeAbsolute,
{
    let ghost w = *workspace;
    let wid = workspace.workspace_id.as_str();
    let label = workspace.label.as_str();
    match first_focused_pane(workspace, panes) {
        Some(i) => {
            if let Some(context) = bindable_context(wid, label, &panes[i].cwd) {
                proof {
                    let f = choose|k: int| is_first_focused_pane(w, panes@, k);
                    lemma_first_focused_unique(w, panes@, i as int, f);
                }
                return Ok(context);
            }
            proof {
                let f = choose|k: int| is_first_focused_pane(w, panes@, k);
                lemma_first_focused_unique(w, panes@, i as int, f);
            }
        },
        None => {},
    }
    // The first pane of the workspace whose directory can be a root.
    let mut k: usize = 0;
    while k < panes.len()
        invariant
            w == *workspace,
            wid@ == w.workspace_id@,
            label@ == w.label@,
            k <= panes@.len(),
            !focused_root_usable(w, panes@),
            forall|j: int|
                0 <= j < k ==> !(owns_pane(w, #[trigger] panes@[j]) && cwd_bindable(w.workspace_id@, panes@[j].cwd)),
        decreases panes.len() - k,
    {
        if text_equals(panes[k].workspace_id.as_str(), wid) {
            if let Some(context) = bindable_context(wid, label, &panes[k].cwd) {
                proof {
                    assert(is_first_bindable_pane(w, panes@, k as int));
                    let b = choose|m: int| is_first_bindable_pane(w, panes@, m);
                    lemma_first_bindable_unique(w, panes@, k as int, b);
                }
                return Ok(context);
            }
        }
        k = k + 1;
    }
    assert(!exists|m: int| is_first_bindable_pane(w, panes@, m));
    match bindable_context(wid, label, &workspace.worktree_checkout_path) {
        Some(context) => Ok(context),
        None => Err(DomainError::WorkspaceRootMustBeAbsolute),
    }
}

// ---------------------------------------------------------------------------
// Choosing the agent that receives preview feedback.

/// The lower-case of an ASCII letter; other characters are unchanged.
pub open spec fn ascii_lower(c: char) -> char {
    if 'A' <= c && c <= 'Z' {
        ((c as u32) + 32) as char
    } else {
        c
    }
}

/// `a` and `b` are equal when ASCII letters are compared without case.
pub open spec fn eq_ignore_ascii_case(a: Seq<char>, b: Seq<char>) -> bool {
    a.len() == b.len() && forall|i: int| 0 <= i < a.len() ==> ascii_lower(#[trigger] a[i]) == ascii_lower(b[i])
}

fn lower_char(c: char) -> (r: char)
    ensures
        r == ascii_lower(c),
{
    if 'A' <= c && c <= 'Z' {
        ((c as u8) + 32) as char
    } else {
        c
    }
}

/// Whether an agent status reads "idle", in any case.
pub fn is_idle_status(status: &str) -> (r: bool)
    ensures
        r == eq_ignore_ascii_case(status@, "idle"@),
{
    proof {
        reveal_strlit("idle");
    }
    let v = chars_of(status);
    let r = v.len() == 4 && lower_char(v[0]) == 'i' && lower_char(v[1]) == 'd' && lower_char(v[2]) == 'l'
        && lower_char(v[3]) == 'e';
    proof {
        if r {
            assert forall|i: int| 0 <= i < status@.len() implies ascii_lower(#[trigger] status@[i])
                == ascii_lower("idle"@[i]) by {
                assert(0 <= i < 4);
            }
        } else if status@.len() == 4 {
            if ascii_lower(v@[0]) != 'i' {
                assert(ascii_lower(status@[0]) != ascii_lower("idle"@[0]));
            } else if ascii_lower(v@[1]) != 'd' {
                assert(ascii_lower(status@[1]) != ascii_lower("idle"@[1]));
            } else if ascii_lower(v@[2]) != 'l' {
                assert(ascii_lower(status@[2]) != ascii_lower("idle"@[2]));
            } else {
                assert(ascii_lower(status@[3]) != ascii_lower("idle"@[3]));
            }
        }
    }
    r
}

/// Agent `a` runs in Herdr workspace `id`.
pub open spec fn agent_is_local(id: Seq<char>, a: HerdrAgentInfo) -> bool {
    a.workspace_id@ == id
}

/// Agent `a` is preferred in round `mode`: focused (0), idle (1), any (2).
pub open spec fn agent_preferred(mode: u8, a: HerdrAgentInfo) -> bool {
    if mode == 0 {
        a.focused
    } else if mode == 1 {
        eq_ignore_ascii_case(a.status@, "idle"@)
    } else {
        true
    }
}

/// `i` is the first agent of workspace `id` preferred in round `mode`.
pub open spec fn is_first_local_agent(id: Seq<char>, agents: Seq<HerdrAgentInfo>, i: int, mode: u8) -> bool {
    &&& 0 <= i < agents.len()
    &&& agent_is_local(id, agents[i]) && agent_preferred(mode, agents[i])
    &&& forall|j: int| 0 <= j < i ==> !(agent_is_local(id, #[trigger] agents[j]) && agent_preferred(mode, agents[j]))
}

/// The index of the agent that receives feedback for workspace `id`: its
/// first focused agent, else its first idle one, else its first one.
pub open spec fn selected_agent(id: Seq<char>, agents: Seq<HerdrAgentInfo>) -> Option<int> {
    if exists|i: int| is_first_local_agent(id, agents, i, 0u8) {
        Some(choose|i: int| is_first_local_agent(id, agents, i, 0u8))
    } else if exists|i: int| is_first_local_agent(id, agents, i, 1u8) {
        Some(choose|i: int| is_first_local_agent(id, agents, i, 1u8))
    } else if exists|i: int| is_first_local_agent(id, agents, i, 2u8) {
        Some(choose|i: int| is_first_local_agent(id, agents, i, 2u8))
    } else {
        None
    }
}

pub proof fn lemma_first_local_unique(
    id: Seq<char>,
    agents: Seq<HerdrAgentInfo>,
    mode: u8,
    i: int,
    k: int,
)
    requires
        is_first_local_agent(id, agents, i, mode),
        is_first_local_agent(id, agents, k, mode),
    ensures
        i == k,
{
    if i < k {
        assert(!(agent_is_local(id, agents[i]) && agent_preferred(mode, agents[i])));
    } else if k < i {
        assert(!(agent_is_local(id, agents[k]) && agent_preferred(mode, agents[k])));
    }
}

/// Finds the first agent of workspace `id` preferred in round `mode`.
fn find_local_agent(herdr_workspace_id: &str, agents: &[HerdrAgentInfo], mode: u8) -> (r: Option<usize>)
    requires
        mode < 3,
    ensures
        r is Some <==> exists|i: int| is_first_local_agent(herdr_workspace_id@, agents@, i, mode),
        r matches Some(i) ==> is_first_local_agent(herdr_workspace_id@, agents@, i as int, mode),
{
    let mut i: usize = 0;
    while i < agents.len()
        invariant
            i <= agents@.len(),
            forall|j: int|
                0 <= j < i ==> !(agent_is_local(herdr_workspace_id@, #[trigger] agents@[j]) && agent_preferred(mode, agents@[j])),
        decreases agents.len() - i,
    {
        let a = &agents[i];
        if text_equals(a.workspace_id.as_str(), herdr_workspace_id) {
            let hit = if mode == 0 {
                a.focused
            } else if mode == 1 {
                is_idle_status(a.status.as_str())
            } else {
                true
            };
            assert(hit == agent_preferred(mode, agents@[i as int]));
            if hit {
                assert(is_first_local_agent(herdr_workspace_id@, agents@, i as int, mode));
                return Some(i);
            }
        }
        i = i + 1;
    }
    assert(!exists|k: int| is_first_local_agent(herdr_workspace_id@, agents@, k, mode));
    None
}

/// The agent that receives preview feedback for Herdr workspace
/// `herdr_workspace_id`, as `selected_agent` says.
pub fn select_agent_for_workspace<'a>(herdr_workspace_id: &str, agents: &'a [HerdrAgentInfo]) -> (r: Option<&'a HerdrAgentInfo>)
    ensures
        r is Some <==> selected_agent(herdr_workspace_id@, agents@) is Some,
        r matches Some(a) ==> *a == agents@[selected_agent(herdr_workspace_id@, agents@)->0],
{
    let ghost id = herdr_workspace_id@;
    if let Some(i) = find_local_agent(herdr_workspace_id, agents, 0) {
        proof {
            let c = choose|k: int| is_first_local_agent(id, agents@, k, 0u8);
            lemma_first_local_unique(id, agents@, 0u8, i as int, c);
        }
        return Some(&agents[i]);
    }
    if let Some(i) = find_local_agent(herdr_workspace_id, agents, 1) {
        proof {
            let c = choose|k: int| is_first_local_agent(id, agents@, k, 1u8);
            lemma_first_local_unique(id, agents@, 1u8, i as int, c);
        }
        return Some(&agents[i]);
    }
    if let Some(i) = find_local_agent(herdr_workspace_id, agents, 2) {
        proof {
            let c = choose|k: int| is_first_local_agent(id, agents@, k, 2u8);
            lemma_first_local_unique(id, agents@, 2u8, i as int, c);
        }
        return Some(&agents[i]);
    }
    None
}

// ---------------------------------------------------------------------------
// Herdr lifecycle events.

#[derive(Clone, Copy, Debug, PartialEq, Eq, Structural)]
pub enum HerdrLifecycleEvent {
    WorkspaceCreated,
    WorkspaceClosed,
    PaneCreated,
    PaneUpdated,
}

/// A closed workspace is left bound; every other event asks for a sync.
pub open spec fn calls_for_sync(e: HerdrLifecycleEvent) -> bool {
    e != HerdrLifecycleEvent::WorkspaceClosed
}

impl HerdrLifecycleEvent {
    /// A closed workspace is left bound; every other event asks for a sync.
    pub fn should_sync(self) -> (r: bool)
        ensures
            r == calls_for_sync(self),
    {
        match self {
            HerdrLifecycleEvent::WorkspaceCreated => true,
            HerdrLifecycleEvent::PaneCreated => true,
            HerdrLifecycleEvent::PaneUpdated => true,
            HerdrLifecycleEvent::WorkspaceClosed => false,
        }
    }
}

/// The lifecycle event that a Herdr socket event name stands for; other
/// names are ignored.
pub open spec fn lifecycle_event_named(name: Seq<char>) -> Option<HerdrLifecycleEvent> {
    if name == "workspace_created"@ {
        Some(HerdrLifecycleEvent::WorkspaceCreated)
    } else if name == "workspace_closed"@ {
        Some(HerdrLifecycleEvent::WorkspaceClosed)
    } else if name == "pane_created"@ {
        Some(HerdrLifecycleEvent::PaneCreated)
    } else if name == "pane_updated"@ {
        Some(HerdrLifecycleEvent::PaneUpdated)
    } else {
        None
    }
}

/// The lifecycle event named by the `event` field of a Herdr socket event.
pub fn lifecycle_event_from_name(name: &str) -> (r: Option<HerdrLifecycleEvent>)
    ensures
        r == lifecycle_event_named(name@),
{
    if text_equals(name, "workspace_created") {
        Some(HerdrLifecycleEvent::WorkspaceCreated)
    } else if text_equals(name, "workspace_closed") {
        Some(HerdrLifecycleEvent::WorkspaceClosed)
    } else if text_equals(name, "pane_created") {
        Some(HerdrLifecycleEvent::PaneCreated)
    } else if text_equals(name, "pane_updated") {
        Some(HerdrLifecycleEvent::PaneUpdated)
    } else {
        None
    }
}

/// The answer to an `events.subscribe` request: the `type` of its `result`,
/// if any, and its `error`, if any, with that error's message, if any.
pub open spec fn subscription_ack_error(result_type: Option<Seq<char>>, error: Option<Option<Seq<char>>>) -> Option<Seq<char>> {
    match error {
        Some(Some(m)) => Some(m),
        Some(None) => Some("herdr subscribe failed"@),
        None => match result_type {
            Some(t) => if t == "subscription_started"@ {
                None
            } else {
                Some("unexpected herdr subscribe ack: "@ + t)
            },
            None => Some("herdr subscribe ack missing result"@),
        },
    }
}

/// Accepts a subscription acknowledgement whose result type is
/// `subscription_started`; an error in the answer, another type, or no
/// result is refused with the message `subscription_ack_error` gives.
pub fn check_subscription_ack(result_type: Option<&str>, error: Option<Option<&str>>) -> (r: Result<(), HerdrHostError>)
    ensures
        ({
            let t = match result_type { Some(t) => Some(t@), None => None };
            let e = match error {
                Some(Some(m)) => Some(Some(m@)),
                Some(None) => Some(None::<Seq<char>>),
                None => None,
            };
            &&& r is Ok <==> subscription_ack_error(t, e) is None
            &&& r matches Err(x) ==> x@ == subscription_ack_error(t, e)->0
        }),
{
    match error {
        Some(Some(m)) => {
            return Err(HerdrHostError::unavailable(m));
        },
        Some(None) => {
            return Err(HerdrHostError::unavailable("herdr subscribe failed"));
        },
        None => {},
    }
    match result_type {
        Some(t) => {
            if text_equals(t, "subscription_started") {
                Ok(())
            } else {
                let mut m = owned("unexpected herdr subscribe ack: ");
                push_text(&mut m, t);
                Err(HerdrHostError::unavailable(m.as_str()))
            }
        },
        None => Err(HerdrHostError::unavailable("herdr subscribe ack missing result")),
    }
}

// ---------------------------------------------------------------------------
// Herdr command lines and process options.

/// How many transcript lines `herdr agent read` asks for.
pub const AGENT_TRANSCRIPT_LINES: u64 = 80;

/// The views of a list of strings.
pub open spec fn texts(v: Seq<String>) -> Seq<Seq<char>> {
    v.map_values(|s: String| s@)
}

/// `herdr agent read <target> --source recent --lines 80 --format text`,
/// without the program name.
pub fn agent_read_args(target: &str) -> (args: Vec<String>)
    ensures
        texts(args@) == seq![
            "agent"@,
            "read"@,
            target@,
            "--source"@,
            "recent"@,
            "--lines"@,
            decimal(AGENT_TRANSCRIPT_LINES as nat),
            "--format"@,
            "text"@,
        ],
{
    let mut args: Vec<String> = Vec::new();
    args.push(owned("agent"));
    args.push(owned("read"));
    args.push(owned(target));
    args.push(owned("--source"));
    args.push(owned("recent"));
    args.push(owned("--lines"));
    args.push(decimal_text(AGENT_TRANSCRIPT_LINES));
    args.push(owned("--format"));
    args.push(owned("text"));
    assert(texts(args@) =~= seq![
        "agent"@,
        "read"@,
        target@,
        "--source"@,
        "recent"@,
        "--lines"@,
        decimal(AGENT_TRANSCRIPT_LINES as nat),
        "--format"@,
        "text"@,
    ]);
    args
}

/// `herdr agent send-keys <target> <keys...>`, without the program name; the
/// keys are passed as separate arguments, never through a shell.
pub fn agent_send_keys_args(target: &str, keys: &[&str]) -> (args: Vec<String>)
    ensures
        texts(args@) == seq!["agent"@, "send-keys"@, target@] + keys@.map_values(|k: &str| k@),
{
    let mut args: Vec<String> = Vec::new();
    args.push(owned("agent"));
    args.push(owned("send-keys"));
    args.push(owned(target));
    for i in 0..keys.len()
        invariant
            texts(args@) == seq!["agent"@, "send-keys"@, target@] + keys@.take(i as int).map_values(|k: &str| k@),
    {
        let ghost before = args@;
        args.push(owned(keys[i]));
        assert(texts(args@) =~= texts(before).push(keys@[i as int]@));
        assert(keys@.take(i + 1).map_values(|k: &str| k@) =~= keys@.take(i as int).map_values(|k: &str| k@).push(keys@[i as int]@));
        assert(texts(args@) =~= seq!["agent"@, "send-keys"@, target@] + keys@.take(i + 1).map_values(|k: &str| k@));
    }
    assert(keys@.take(keys.len() as int) =~= keys@);
    args
}

/// The creation flags of a Herdr process on Windows: `CREATE_NO_WINDOW`, so
/// that no console window flashes up.
pub fn windows_herdr_creation_flags() -> (flags: u32)
    ensures
        flags == 0x0800_0000,
{
    0x0800_0000
}

/// The named pipe behind a Herdr socket path: `\\.\pipe\` followed by the path.
pub fn windows_named_pipe_path(socket_path: &str) -> (pipe: String)
    ensures
        pipe@ == "\\\\.\\pipe\\"@ + socket_path@,
{
    let mut pipe = owned("\\\\.\\pipe\\");
    push_text(&mut pipe, socket_path);
    pipe
}

/// Words joined with single spaces.
pub open spec fn spaced(words: Seq<Seq<char>>) -> Seq<char>
    decreases words.len(),
{
    if words.len() == 0 {
        Seq::empty()
    } else if words.len() == 1 {
        words[0]
    } else {
        spaced(words.drop_last()) + " "@ + words.last()
    }
}

/// The error of a Herdr command that exited unsuccessfully: `herdr`, its
/// arguments, and what it wrote to standard error, trimmed.
pub fn herdr_command_failed(args: &[&str], stderr: &str) -> (e: HerdrHostError)
    ensures
        e@ == "herdr "@ + spaced(args@.map_values(|a: &str| a@)) + " failed: "@ + trim(stderr@),
{
    let ghost words = args@.map_values(|a: &str| a@);
    let mut m = owned("herdr ");
    let ghost head = m@;
    if args.len() > 0 {
        push_text(&mut m, args[0]);
        assert(words.take(1).drop_last() =~= Seq::<Seq<char>>::empty());
        for i in 1..args.len()
            invariant
                words == args@.map_values(|a: &str| a@),
                head == "herdr "@,
                m@ == head + spaced(words.take(i as int)),
        {
            push_text(&mut m, " ");
            push_text(&mut m, args[i]);
            assert(words.take(i + 1).drop_last() =~= words.take(i as int));
            assert(m@ =~= head + spaced(words.take(i + 1)));
        }
        assert(words.take(args.len() as int) =~= words);
    } else {
        assert(words =~= Seq::<Seq<char>>::empty());
        assert(m@ =~= head + spaced(words));
    }
    push_text(&mut m, " failed: ");
    let t = trim_text(stderr);
    push_text(&mut m, t.as_str());
    HerdrHostError::unavailable(m.as_str())
}

/// The `events.subscribe` request that Workbench writes to the Herdr pipe,
/// one JSON line: it subscribes to created and closed workspaces and to
/// created and updated panes.
pub fn subscription_request_line() -> (line: String)
    ensures
        line@ == "{\"id\":\"workbench:events:subscribe\",\"method\":\"events.subscribe\",\"params\":{\"subscriptions\":[{\"type\":\"workspace.created\"},{\"type\":\"workspace.closed\"},{\"type\":\"pane.created\"},{\"type\":\"pane.updated\"}]}}\n"@,
{
    owned("{\"id\":\"workbench:events:subscribe\",\"method\":\"events.subscribe\",\"params\":{\"subscriptions\":[{\"type\":\"workspace.created\"},{\"type\":\"workspace.closed\"},{\"type\":\"pane.created\"},{\"type\":\"pane.updated\"}]}}\n")
}

// ---------------------------------------------------------------------------
// The Herdr command-line program.

/// The Herdr program that Workbench runs, by its path.
#[derive(Debug)]
pub struct HerdrCliHost {
    binary: String,
}

impl View for HerdrCliHost {
    type V = Seq<char>;

    closed spec fn view(&self) -> Seq<char> {
        self.binary@
    }
}

impl HerdrCliHost {
    pub fn new(binary: String) -> (h: Self)
        ensures
            h@ == binary@,
    {
        HerdrCliHost { binary }
    }

    /// The path of the program.
    pub fn binary(&self) -> (b: &str)
        ensures
            b@ == self@,
    {
        self.binary.as_str()
    }

    /// `herdr workspace list`, without the program name.
    pub fn workspace_list_args() -> (args: Vec<String>)
        ensures
            texts(args@) == seq!["workspace"@, "list"@],
    {
        let args = vec![owned("workspace"), owned("list")];
        assert(texts(args@) =~= seq!["workspace"@, "list"@]);
        args
    }

    /// `herdr pane list`, without the program name.
    pub fn pane_list_args() -> (args: Vec<String>)
        ensures
            texts(args@) == seq!["pane"@, "list"@],
    {
        let args = vec![owned("pane"), owned("list")];
        assert(texts(args@) =~= seq!["pane"@, "list"@]);
        args
    }

    /// `herdr agent list`, without the program name.
    pub fn agent_list_args() -> (args: Vec<String>)
        ensures
            texts(args@) == seq!["agent"@, "list"@],
    {
        let args = vec![owned("agent"), owned("list")];
        assert(texts(args@) =~= seq!["agent"@, "list"@]);
        args
    }

    /// `herdr agent prompt <target> <text>`, without the program name; the
    /// text is one argument, never passed through a shell.
    pub fn agent_prompt_args(target: &str, text: &str) -> (args: Vec<String>)
        ensures
            texts(args@) == seq!["agent"@, "prompt"@, target@, text@],
    {
        let args = vec![owned("agent"), owned("prompt"), owned(target), owned(text)];
        assert(texts(args@) =~= seq!["agent"@, "prompt"@, target@, text@]);
        args
    }
}

} // verus!
