//! The use cases of the application core: binding Herdr workspaces,
//! reconciling with Herdr, opening and capturing previews, recording page
//! state, and sending preview feedback to an agent.

use vstd::prelude::*;
use crate::domain::{HerdrWorkspaceContext, Workspace};
use crate::ident::is_time_ordered_uuid;
use crate::herdr::{
    HerdrHostError, HerdrLifecycleEvent, HerdrPaneInfo, HerdrWorkspaceInfo, calls_for_sync, chosen_root,
    derive_workspace_context,
};
use crate::ports::{
    ApplicationError, HerdrEventSource, HerdrHost, ReconcileSleeper, WorkspaceRepository, binding_for_herdr_id,
    insert_binding, lemma_insert_binding_lookup,
};

verus! {

// ---------------------------------------------------------------------------
// Binding one Herdr workspace.

/// Binds a Herdr workspace to a Workbench workspace, once.
pub struct BindWorkspace<'a, R> {
    pub repository: &'a mut R,
}

impl<'a, R: WorkspaceRepository> BindWorkspace<'a, R> {
    pub fn new(repository: &'a mut R) -> (b: Self)
        ensures
            *b.repository == *old(repository),
            *final(b.repository) == *final(repository),
    {
        BindWorkspace { repository }
    }

    /// A Herdr workspace that is bound already keeps its binding, which is
    /// returned; otherwise a new binding is made from `context` and stored.
    pub fn execute(self, context: HerdrWorkspaceContext) -> (r: Result<Workspace, ApplicationError>)
        ensures
            ({
                let s0 = old(self.repository).workspaces();
                let s1 = final(self.repository).workspaces();
                let key = context.herdr_workspace_id@;
                &&& final(self.repository).never_fails() == old(self.repository).never_fails()
                &&& final(self.repository).keeps_inserts() == old(self.repository).keeps_inserts()
                &&& old(self.repository).never_fails() ==> r is Ok
                &&& r is Err ==> s1 == s0 && r->Err_0 is Repository
                &&& binding_for_herdr_id(s0, key) is Some ==> s1 == s0 && (r is Ok ==> r == Ok::<
                    Workspace,
                    ApplicationError,
                >(binding_for_herdr_id(s0, key)->0))
                &&& binding_for_herdr_id(s0, key) is None && r is Ok ==> {
                    let w = r->Ok_0;
                    &&& w.herdr_workspace_id == context.herdr_workspace_id
                    &&& w.label == context.label
                    &&& w.cwd == context.cwd
                    &&& w.revision == 0
                    &&& is_time_ordered_uuid(w.workspace_id.0)
                    &&& s1 == (if old(self.repository).keeps_inserts() { s0.push(w) } else { s0 })
                }
                &&& old(self.repository).keeps_inserts() && r is Ok ==> binding_for_herdr_id(s1, key) == Some(r->Ok_0)
            }),
    {
        let ghost s0 = self.repository.workspaces();
        match self.repository.find_by_herdr_id(&context.herdr_workspace_id) {
            Err(e) => {
                return Err(ApplicationError::Repository(e));
            },
            Ok(Some(existing)) => {
                return Ok(existing);
            },
            Ok(None) => {},
        }
        let workspace = Workspace::bind(context);
        let ghost key = workspace.herdr_workspace_id@;
        match self.repository.insert(workspace.clone()) {
            Err(e) => Err(ApplicationError::Repository(e)),
            Ok(()) => {
                proof {
                    lemma_insert_binding_lookup(s0, workspace, key);
                }
                Ok(workspace)
            },
        }
    }
}

// ---------------------------------------------------------------------------
// Reconciling with Herdr.

/// The workspaces among the first `n` of `ws` that have a usable root, in order.
pub open spec fn bindable_prefix(ws: Seq<HerdrWorkspaceInfo>, panes: Seq<HerdrPaneInfo>, n: int) -> Seq<HerdrWorkspaceInfo>
    decreases n,
{
    if n <= 0 {
        Seq::empty()
    } else {
        let p = bindable_prefix(ws, panes, n - 1);
        if chosen_root(ws[n - 1], panes) is Some {
            p.push(ws[n - 1])
        } else {
            p
        }
    }
}

/// The workspaces of `ws` that have a usable root, in order.
pub open spec fn bindable_workspaces(ws: Seq<HerdrWorkspaceInfo>, panes: Seq<HerdrPaneInfo>) -> Seq<HerdrWorkspaceInfo> {
    bindable_prefix(ws, panes, ws.len() as int)
}

proof fn lemma_bindable_prefix_len(ws: Seq<HerdrWorkspaceInfo>, panes: Seq<HerdrPaneInfo>, n: int)
    requires
        0 <= n,
    ensures
        bindable_prefix(ws, panes, n).len() <= n,
    decreases n,
{
    if n > 0 {
        lemma_bindable_prefix_len(ws, panes, n - 1);
    }
}

/// No Herdr workspace before position `k` of `plan` has the same identifier.
pub open spec fn is_first_occurrence(plan: Seq<HerdrWorkspaceInfo>, k: int) -> bool {
    forall|j: int| 0 <= j < k ==> (#[trigger] plan[j]).workspace_id@ != plan[k].workspace_id@
}

/// Some Herdr workspace of `plan` has identifier `key`.
pub open spec fn is_planned(plan: Seq<HerdrWorkspaceInfo>, key: Seq<char>) -> bool {
    exists|k: int| 0 <= k < plan.len() && (#[trigger] plan[k]).workspace_id@ == key
}

/// What a reconciliation did: the bindings of the Herdr workspaces that have
/// a usable root, in Herdr's order, and how many had none.
#[derive(Debug, PartialEq, Eq)]
pub struct HerdrWorkspaceSyncReport {
    pub bound: Vec<Workspace>,
    pub skipped: usize,
}

/// The bindings among the first `n` of `bound` that a reconciliation adds to
/// a repository that held `s0`: those of the Herdr workspaces of `plan` that
/// were not bound yet, each at its first occurrence, in order.
pub open spec fn added_bindings(s0: Seq<Workspace>, plan: Seq<HerdrWorkspaceInfo>, bound: Seq<Workspace>, n: int) -> Seq<
    Workspace,
>
    decreases n,
{
    if n <= 0 {
        Seq::empty()
    } else if binding_for_herdr_id(s0, plan[n - 1].workspace_id@) is None && is_first_occurrence(plan, n - 1) {
        added_bindings(s0, plan, bound, n - 1).push(bound[n - 1])
    } else {
        added_bindings(s0, plan, bound, n - 1)
    }
}

/// Extending the plan and the bindings at their end leaves what the earlier
/// positions add as it was.
proof fn lemma_added_bindings_prefix(
    s0: Seq<Workspace>,
    plan: Seq<HerdrWorkspaceInfo>,
    bound: Seq<Workspace>,
    x: HerdrWorkspaceInfo,
    w: Workspace,
    n: int,
)
    requires
        0 <= n <= plan.len(),
        n <= bound.len(),
    ensures
        added_bindings(s0, plan.push(x), bound.push(w), n) == added_bindings(s0, plan, bound, n),
    decreases n,
{
    if n > 0 {
        lemma_added_bindings_prefix(s0, plan, bound, x, w, n - 1);
        let plan2 = plan.push(x);
        assert(plan2[n - 1] == plan[n - 1]);
        assert(bound.push(w)[n - 1] == bound[n - 1]);
        assert(is_first_occurrence(plan2, n - 1) == is_first_occurrence(plan, n - 1)) by {
            assert forall|j: int| 0 <= j < n - 1 implies plan2[j] == plan[j] by {}
        }
    }
}

/// What binding the Herdr workspaces `ws`, with panes `panes`, did to a
/// repository that held `s0` and now holds `s1`, and reported in `rep`. A
/// repository that keeps inserts holds `s0` followed by the new bindings.
pub open spec fn sync_effect(
    s0: Seq<crate::domain::Workspace>,
    s1: Seq<crate::domain::Workspace>,
    keeps: bool,
    ws: Seq<HerdrWorkspaceInfo>,
    panes: Seq<HerdrPaneInfo>,
    rep: HerdrWorkspaceSyncReport,
) -> bool {
    let plan = bindable_workspaces(ws, panes);
    &&& rep.bound@.len() == plan.len()
    &&& rep.skipped + plan.len() == ws.len()
    &&& forall|k: int| 0 <= k < plan.len() ==> (#[trigger] rep.bound@[k]).herdr_workspace_id@ == plan[k].workspace_id@
    &&& forall|k: int|
        0 <= k < plan.len() && binding_for_herdr_id(s0, plan[k].workspace_id@) is Some ==> #[trigger] rep.bound@[k]
            == binding_for_herdr_id(s0, plan[k].workspace_id@)->0
    &&& forall|k: int|
        0 <= k < plan.len() && binding_for_herdr_id(s0, plan[k].workspace_id@) is None && is_first_occurrence(plan, k) ==> {
            &&& (#[trigger] rep.bound@[k]).label@ == plan[k].label@
            &&& rep.bound@[k].cwd@ == chosen_root(plan[k], panes)->0
            &&& rep.bound@[k].revision == 0
        }
    &&& keeps ==> forall|k: int|
        0 <= k < plan.len() ==> binding_for_herdr_id(s1, plan[k].workspace_id@) == Some(#[trigger] rep.bound@[k])
    &&& keeps ==> forall|key: Seq<char>|
        #[trigger] binding_for_herdr_id(s1, key) is Some ==> binding_for_herdr_id(s0, key) is Some || is_planned(plan, key)
    &&& keeps ==> s1 == s0 + added_bindings(s0, plan, rep.bound@, plan.len() as int)
}

/// Every Herdr workspace of the listing `ws` that has a usable root is bound
/// in `s`.
pub open spec fn listing_bound(s: Seq<crate::domain::Workspace>, ws: Seq<HerdrWorkspaceInfo>, panes: Seq<HerdrPaneInfo>) -> bool {
    forall|j: int|
        0 <= j < ws.len() && #[trigger] chosen_root(ws[j], panes) is Some ==> binding_for_herdr_id(s, ws[j].workspace_id@) is Some
}

/// Binds every Herdr workspace of a listing that has a usable root (see
/// `chosen_root`) and counts the others as skipped. Existing bindings are
/// kept and reused; a storage failure stops the reconciliation.
pub fn sync_listing<R: WorkspaceRepository>(repository: &mut R, workspaces: &[HerdrWorkspaceInfo], panes: &[HerdrPaneInfo]) -> (r: Result<HerdrWorkspaceSyncReport, ApplicationError>)
    ensures
        final(repository).never_fails() == old(repository).never_fails(),
        final(repository).keeps_inserts() == old(repository).keeps_inserts(),
        old(repository).never_fails() ==> r is Ok,
        r is Err ==> r matches Err(ApplicationError::Repository(_)),
        !old(repository).keeps_inserts() ==> final(repository).workspaces() == old(repository).workspaces(),
        forall|key: Seq<char>|
            #[trigger] binding_for_herdr_id(old(repository).workspaces(), key) is Some ==> binding_for_herdr_id(
                final(repository).workspaces(),
                key,
            ) == binding_for_herdr_id(old(repository).workspaces(), key),
        r matches Ok(rep) ==> sync_effect(
            old(repository).workspaces(),
            final(repository).workspaces(),
            old(repository).keeps_inserts(),
            workspaces@,
            panes@,
            rep,
        ),
        listing_bound(old(repository).workspaces(), workspaces@, panes@) ==> final(repository).workspaces() == old(
            repository,
        ).workspaces(),
{
    let ghost s0 = repository.workspaces();
    let ghost keeps = repository.keeps_inserts();
    let ghost nf = repository.never_fails();
    let mut bound: Vec<Workspace> = Vec::new();
    let mut skipped: usize = 0;
    assert(bindable_prefix(workspaces@, panes@, 0) =~= Seq::<HerdrWorkspaceInfo>::empty());
    assert(repository.workspaces() == s0);
    assert(s0 + Seq::<Workspace>::empty() =~= s0);
    for i in 0..workspaces.len()
        invariant
            repository.keeps_inserts() == keeps,
            repository.never_fails() == nf,
            keeps == old(repository).keeps_inserts(),
            nf == old(repository).never_fails(),
            s0 == old(repository).workspaces(),
            !keeps ==> repository.workspaces() == s0,
            bound@.len() == bindable_prefix(workspaces@, panes@, i as int).len(),
            skipped + bindable_prefix(workspaces@, panes@, i as int).len() == i,
            forall|k: int|
                0 <= k < bindable_prefix(workspaces@, panes@, i as int).len() ==> (#[trigger] bound@[k]).herdr_workspace_id@
                    == bindable_prefix(workspaces@, panes@, i as int)[k].workspace_id@,
            forall|k: int|
                0 <= k < bindable_prefix(workspaces@, panes@, i as int).len() && binding_for_herdr_id(
                    s0,
                    bindable_prefix(workspaces@, panes@, i as int)[k].workspace_id@,
                ) is Some ==> #[trigger] bound@[k] == binding_for_herdr_id(
                    s0,
                    bindable_prefix(workspaces@, panes@, i as int)[k].workspace_id@,
                )->0,
            forall|k: int|
                0 <= k < bindable_prefix(workspaces@, panes@, i as int).len() && binding_for_herdr_id(
                    s0,
                    bindable_prefix(workspaces@, panes@, i as int)[k].workspace_id@,
                ) is None && is_first_occurrence(bindable_prefix(workspaces@, panes@, i as int), k) ==> {
                    &&& (#[trigger] bound@[k]).label@ == bindable_prefix(workspaces@, panes@, i as int)[k].label@
                    &&& bound@[k].cwd@ == chosen_root(bindable_prefix(workspaces@, panes@, i as int)[k], panes@)->0
                    &&& bound@[k].revision == 0
                },
            keeps ==> forall|k: int|
                0 <= k < bindable_prefix(workspaces@, panes@, i as int).len() ==> binding_for_herdr_id(
                    repository.workspaces(),
                    bindable_prefix(workspaces@, panes@, i as int)[k].workspace_id@,
                ) == Some(#[trigger] bound@[k]),
            keeps ==> forall|key: Seq<char>|
                #[trigger] binding_for_herdr_id(repository.workspaces(), key) is Some ==> binding_for_herdr_id(s0, key) is Some
                    || is_planned(bindable_prefix(workspaces@, panes@, i as int), key),
            forall|key: Seq<char>|
                #[trigger] binding_for_herdr_id(s0, key) is Some ==> binding_for_herdr_id(repository.workspaces(), key)
                    == binding_for_herdr_id(s0, key),
            listing_bound(s0, workspaces@, panes@) ==> repository.workspaces() == s0,
            keeps ==> repository.workspaces() == s0 + added_bindings(
                s0,
                bindable_prefix(workspaces@, panes@, i as int),
                bound@,
                bindable_prefix(workspaces@, panes@, i as int).len() as int,
            ),
    {
        let ghost plan = bindable_prefix(workspaces@, panes@, i as int);
        let ghost cur = repository.workspaces();
        proof {
            lemma_bindable_prefix_len(workspaces@, panes@, i as int);
        }
        match derive_workspace_context(&workspaces[i], panes) {
            Ok(context) => {
                let ghost key = context.herdr_workspace_id@;
                let bound_one = BindWorkspace::new(repository).execute(context);
                match bound_one {
                    Ok(w) => {
                        let ghost next = repository.workspaces();
                        let ghost plan2 = bindable_prefix(workspaces@, panes@, i + 1);
                        assert(listing_bound(s0, workspaces@, panes@) ==> next == s0) by {
                            if listing_bound(s0, workspaces@, panes@) {
                                assert(chosen_root(workspaces@[i as int], panes@) is Some);
                            }
                        }
                        assert(plan2 == plan.push(workspaces@[i as int]));
                        proof {
                            if keeps {
                                if binding_for_herdr_id(cur, key) is None {
                                    assert(next == cur.push(w));
                                    assert(next == insert_binding(cur, w));
                                } else {
                                    assert(next == cur);
                                    assert(next == insert_binding(cur, w)) by {
                                        assert(binding_for_herdr_id(cur, w.herdr_workspace_id@) is Some);
                                    }
                                }
                                assert forall|k: int| 0 <= k < plan.len() implies binding_for_herdr_id(
                                    next,
                                    plan[k].workspace_id@,
                                ) == Some(#[trigger] bound@[k]) by {
                                    lemma_insert_binding_lookup(cur, w, plan[k].workspace_id@);
                                }
                                assert forall|key2: Seq<char>| #[trigger] binding_for_herdr_id(next, key2) is Some implies binding_for_herdr_id(s0, key2) is Some || is_planned(plan2, key2) by {
                                    lemma_insert_binding_lookup(cur, w, key2);
                                    if key2 == key {
                                        assert(plan2[plan.len() as int].workspace_id@ == key2);
                                    } else if binding_for_herdr_id(s0, key2) is None {
                                        let k = choose|k: int| 0 <= k < plan.len() && (#[trigger] plan[k]).workspace_id@ == key2;
                                        assert(plan2[k] == plan[k]);
                                    }
                                }
                            }
                            assert forall|key2: Seq<char>| #[trigger] binding_for_herdr_id(s0, key2) is Some implies binding_for_herdr_id(next, key2)
                                == binding_for_herdr_id(s0, key2) by {
                                if keeps {
                                    lemma_insert_binding_lookup(cur, w, key2);
                                }
                            }
                            // The newly reported binding.
                            let k = plan.len() as int;
                            assert(plan2[k] == workspaces@[i as int]);
                            if binding_for_herdr_id(s0, key) is None && is_first_occurrence(plan2, k) {
                                assert(binding_for_herdr_id(cur, key) is None) by {
                                    if keeps && binding_for_herdr_id(cur, key) is Some {
                                        let j = choose|j: int| 0 <= j < plan.len() && (#[trigger] plan[j]).workspace_id@ == key;
                                        assert(plan2[j] == plan[j]);
                                        assert(plan2[j].workspace_id@ != plan2[k].workspace_id@);
                                    }
                                }
                                assert(w.label@ == plan2[k].label@);
                                assert(w.cwd@ == chosen_root(plan2[k], panes@)->0);
                            }
                        }
                        let ghost old_bound = bound@;
                        bound.push(w);
                        proof {
                            assert forall|k: int| 0 <= k < plan2.len() implies (#[trigger] bound@[k]).herdr_workspace_id@ == plan2[k].workspace_id@ by {
                                if k < plan.len() {
                                    assert(plan2[k] == plan[k]);
                                }
                            }
                            assert forall|k: int|
                                0 <= k < plan2.len() && binding_for_herdr_id(s0, plan2[k].workspace_id@) is Some implies #[trigger] bound@[k]
                                    == binding_for_herdr_id(s0, plan2[k].workspace_id@)->0 by {
                                if k < plan.len() {
                                    assert(plan2[k] == plan[k]);
                                }
                            }
                            assert forall|k: int|
                                0 <= k < plan2.len() && binding_for_herdr_id(s0, plan2[k].workspace_id@) is None && is_first_occurrence(plan2, k) implies {
                                    &&& (#[trigger] bound@[k]).label@ == plan2[k].label@
                                    &&& bound@[k].cwd@ == chosen_root(plan2[k], panes@)->0
                                    &&& bound@[k].revision == 0
                                } by {
                                if k < plan.len() {
                                    assert(plan2[k] == plan[k]);
                                    assert(is_first_occurrence(plan, k)) by {
                                        assert forall|j: int| 0 <= j < k implies (#[trigger] plan[j]).workspace_id@ != plan[k].workspace_id@ by {
                                            assert(plan2[j] == plan[j]);
                                            assert(plan2[j].workspace_id@ != plan2[k].workspace_id@);
                                        }
                                    }
                                }
                            }
                            if keeps {
                                assert forall|k: int| 0 <= k < plan2.len() implies binding_for_herdr_id(
                                    repository.workspaces(),
                                    plan2[k].workspace_id@,
                                ) == Some(#[trigger] bound@[k]) by {
                                    if k < plan.len() {
                                        assert(plan2[k] == plan[k]);
                                    }
                                }
                            }
                        }
                        proof {
                            if keeps {
                                let k = plan.len() as int;
                                let cond = binding_for_herdr_id(s0, key) is None && is_first_occurrence(plan2, k);
                                lemma_added_bindings_prefix(s0, plan, old_bound, workspaces@[i as int], w, k);
                                assert(plan2 == plan.push(workspaces@[i as int]));
                                assert(bound@ == old_bound.push(w));
                                if cond {
                                    assert(next == cur.push(w));
                                    assert(added_bindings(s0, plan2, bound@, k + 1) == added_bindings(s0, plan, old_bound, k).push(w));
                                    assert(next =~= s0 + added_bindings(s0, plan2, bound@, k + 1));
                                } else {
                                    assert(binding_for_herdr_id(cur, key) is Some) by {
                                        if binding_for_herdr_id(s0, key) is None {
                                            let j = choose|j: int| 0 <= j < k && (#[trigger] plan2[j]).workspace_id@ == plan2[k].workspace_id@;
                                            assert(plan2[j] == plan[j]);
                                            assert(binding_for_herdr_id(cur, plan[j].workspace_id@) == Some(old_bound[j]));
                                        }
                                    }
                                    assert(next == cur);
                                    assert(added_bindings(s0, plan2, bound@, k + 1) == added_bindings(s0, plan, old_bound, k));
                                }
                            }
                        }
                    },
                    Err(e) => {
                        return Err(e);
                    },
                }
            },
            Err(_) => {
                assert(bindable_prefix(workspaces@, panes@, i + 1) == plan);
                skipped = skipped + 1;
            },
        }
    }
    Ok(HerdrWorkspaceSyncReport { bound, skipped })
}

/// What Herdr answered when asked for its workspaces and then its panes.
pub type HerdrListing = Result<(Vec<HerdrWorkspaceInfo>, Vec<HerdrPaneInfo>), HerdrHostError>;

/// Binds as `sync_listing` does from Herdr's answer (`listing`); an answer
/// that is Herdr's error is returned as such and no binding changes.
pub fn sync_host_listing<R: WorkspaceRepository>(repository: &mut R, listing: HerdrListing) -> (r: Result<
    HerdrWorkspaceSyncReport,
    ApplicationError,
>)
    ensures
        final(repository).never_fails() == old(repository).never_fails(),
        final(repository).keeps_inserts() == old(repository).keeps_inserts(),
        listing is Err ==> r == Err::<HerdrWorkspaceSyncReport, ApplicationError>(ApplicationError::Herdr(listing->Err_0))
            && *final(repository) == *old(repository),
        listing is Ok && old(repository).never_fails() ==> r is Ok,
        listing is Ok && r is Err ==> r matches Err(ApplicationError::Repository(_)),
        forall|key: Seq<char>|
            #[trigger] binding_for_herdr_id(old(repository).workspaces(), key) is Some ==> binding_for_herdr_id(
                final(repository).workspaces(),
                key,
            ) == binding_for_herdr_id(old(repository).workspaces(), key),
        r matches Ok(rep) ==> listing is Ok && sync_effect(
            old(repository).workspaces(),
            final(repository).workspaces(),
            old(repository).keeps_inserts(),
            listing->Ok_0.0@,
            listing->Ok_0.1@,
            rep,
        ),
        listing is Ok && listing_bound(old(repository).workspaces(), listing->Ok_0.0@, listing->Ok_0.1@)
            ==> final(repository).workspaces() == old(repository).workspaces(),
{
    match listing {
        Err(e) => Err(ApplicationError::Herdr(e)),
        Ok((workspaces, panes)) => sync_listing(repository, workspaces.as_slice(), panes.as_slice()),
    }
}

/// Asks Herdr for its workspaces, then for its panes; the panes are not asked
/// for when the workspaces could not be listed. What Herdr answers is its own.
pub fn host_listing<H: HerdrHost>(host: &H) -> HerdrListing {
    match host.list_workspaces() {
        Err(e) => Err(e),
        Ok(workspaces) => match host.list_panes() {
            Err(e) => Err(e),
            Ok(panes) => Ok((workspaces, panes)),
        },
    }
}

/// Binds every Herdr workspace that the host lists.
pub struct SyncHerdrWorkspaces<'a, R, H> {
    pub repository: &'a mut R,
    pub host: &'a H,
}

impl<'a, R: WorkspaceRepository, H: HerdrHost> SyncHerdrWorkspaces<'a, R, H> {
    pub fn new(repository: &'a mut R, host: &'a H) -> (s: Self)
        ensures
            *s.repository == *old(repository),
            *final(s.repository) == *final(repository),
            s.host == host,
    {
        SyncHerdrWorkspaces { repository, host }
    }

    /// Lists Herdr's workspaces, then its panes (not asked for when the
    /// workspaces could not be listed), and binds as `sync_host_listing`
    /// does. When Herdr cannot list them, its error is returned and no
    /// binding changes.
    pub fn execute(self) -> (r: Result<HerdrWorkspaceSyncReport, ApplicationError>)
        ensures
            final(self.repository).never_fails() == old(self.repository).never_fails(),
            final(self.repository).keeps_inserts() == old(self.repository).keeps_inserts(),
            r matches Err(ApplicationError::Herdr(_)) ==> *final(self.repository) == *old(self.repository),
            r is Err ==> r matches Err(ApplicationError::Herdr(_)) || r matches Err(ApplicationError::Repository(_)),
            r is Err && old(self.repository).never_fails() ==> r matches Err(ApplicationError::Herdr(_)),
            forall|key: Seq<char>|
                #[trigger] binding_for_herdr_id(old(self.repository).workspaces(), key) is Some ==> binding_for_herdr_id(
                    final(self.repository).workspaces(),
                    key,
                ) == binding_for_herdr_id(old(self.repository).workspaces(), key),
            r matches Ok(rep) ==> exists|ws: Seq<HerdrWorkspaceInfo>, panes: Seq<HerdrPaneInfo>|
                sync_effect(
                    old(self.repository).workspaces(),
                    final(self.repository).workspaces(),
                    old(self.repository).keeps_inserts(),
                    ws,
                    panes,
                    rep,
                ) && (listing_bound(old(self.repository).workspaces(), ws, panes) ==> final(self.repository).workspaces()
                    == old(self.repository).workspaces()),
    {
        let listing = host_listing(self.host);
        let ghost answer = listing;
        let r = sync_host_listing(self.repository, listing);
        proof {
            if r is Ok {
                assert(sync_effect(
                    old(self.repository).workspaces(),
                    self.repository.workspaces(),
                    old(self.repository).keeps_inserts(),
                    answer->Ok_0.0@,
                    answer->Ok_0.1@,
                    r->Ok_0,
                ));
            }
        }
        r
    }
}

/// Seconds to wait after a successful reconciliation.
pub const HERDR_RECONCILE_OK_INTERVAL_SECS: u64 = 30;

/// Seconds to wait after a failed reconciliation.
pub const HERDR_RECONCILE_BACKOFF_INTERVAL_SECS: u64 = 120;

/// How long to wait before the next reconciliation: 30 s after a success,
/// 2 min after a failure.
pub fn reconcile_interval(synced: bool) -> (secs: u64)
    ensures
        secs == (if synced { HERDR_RECONCILE_OK_INTERVAL_SECS } else { HERDR_RECONCILE_BACKOFF_INTERVAL_SECS }),
{
    if synced {
        HERDR_RECONCILE_OK_INTERVAL_SECS
    } else {
        HERDR_RECONCILE_BACKOFF_INTERVAL_SECS
    }
}

/// One reconciliation from Herdr's answer (`listing`), as `sync_host_listing`
/// does it, then the wait that its outcome calls for, asked of `sleeper`
/// once: 30 s after a success, 2 min after a failure. A failure is not passed
/// on; an answer that is Herdr's error changes no binding.
pub fn reconcile_from_listing<R: WorkspaceRepository, S: ReconcileSleeper>(
    repository: &mut R,
    sleeper: &mut S,
    listing: HerdrListing,
) -> (secs: u64)
    ensures
        secs == HERDR_RECONCILE_OK_INTERVAL_SECS || secs == HERDR_RECONCILE_BACKOFF_INTERVAL_SECS,
        final(sleeper).waits() == old(sleeper).waits().push(secs),
        final(repository).never_fails() == old(repository).never_fails(),
        final(repository).keeps_inserts() == old(repository).keeps_inserts(),
        listing is Err ==> secs == HERDR_RECONCILE_BACKOFF_INTERVAL_SECS && *final(repository) == *old(repository),
        listing is Ok && old(repository).never_fails() ==> secs == HERDR_RECONCILE_OK_INTERVAL_SECS,
        secs == HERDR_RECONCILE_OK_INTERVAL_SECS ==> listing is Ok && exists|rep: HerdrWorkspaceSyncReport|
            sync_effect(
                old(repository).workspaces(),
                final(repository).workspaces(),
                old(repository).keeps_inserts(),
                listing->Ok_0.0@,
                listing->Ok_0.1@,
                rep,
            ),
        secs == HERDR_RECONCILE_BACKOFF_INTERVAL_SECS && old(repository).never_fails() ==> *final(repository) == *old(
            repository,
        ),
        listing is Ok && listing_bound(old(repository).workspaces(), listing->Ok_0.0@, listing->Ok_0.1@)
            ==> final(repository).workspaces() == old(repository).workspaces(),
        forall|key: Seq<char>|
            #[trigger] binding_for_herdr_id(old(repository).workspaces(), key) is Some ==> binding_for_herdr_id(
                final(repository).workspaces(),
                key,
            ) == binding_for_herdr_id(old(repository).workspaces(), key),
{
    let ghost answer = listing;
    let outcome = sync_host_listing(repository, listing);
    proof {
        if outcome is Ok {
            assert(sync_effect(
                old(repository).workspaces(),
                repository.workspaces(),
                old(repository).keeps_inserts(),
                answer->Ok_0.0@,
                answer->Ok_0.1@,
                outcome->Ok_0,
            ));
        }
    }
    let secs = reconcile_interval(outcome.is_ok());
    sleeper.sleep(secs);
    secs
}

/// Reconciles the bindings with Herdr again and again.
pub struct HerdrReconcileLoop<R, H, S> {
    pub repository: R,
    pub host: H,
    pub sleeper: S,
}

impl<R: WorkspaceRepository, H: HerdrHost, S: ReconcileSleeper> HerdrReconcileLoop<R, H, S> {
    pub fn new(repository: R, host: H, sleeper: S) -> (l: Self)
        ensures
            l.repository == repository,
            l.host == host,
            l.sleeper == sleeper,
    {
        HerdrReconcileLoop { repository, host, sleeper }
    }

    /// Lists Herdr's workspaces and panes and reconciles as
    /// `reconcile_from_listing` does; returns the seconds asked of the
    /// sleeper. A failed reconciliation is not passed on: it only lengthens
    /// the wait.
    pub fn step(&mut self) -> (secs: u64)
        ensures
            secs == HERDR_RECONCILE_OK_INTERVAL_SECS || secs == HERDR_RECONCILE_BACKOFF_INTERVAL_SECS,
            final(self).sleeper.waits() == old(self).sleeper.waits().push(secs),
            final(self).repository.never_fails() == old(self).repository.never_fails(),
            final(self).repository.keeps_inserts() == old(self).repository.keeps_inserts(),
            secs == HERDR_RECONCILE_OK_INTERVAL_SECS ==> reconciled(
                old(self).repository.workspaces(),
                final(self).repository.workspaces(),
                old(self).repository.keeps_inserts(),
            ),
            secs == HERDR_RECONCILE_BACKOFF_INTERVAL_SECS && old(self).repository.never_fails()
                ==> final(self).repository == old(self).repository,
            forall|key: Seq<char>|
                #[trigger] binding_for_herdr_id(old(self).repository.workspaces(), key) is Some ==> binding_for_herdr_id(
                    final(self).repository.workspaces(),
                    key,
                ) == binding_for_herdr_id(old(self).repository.workspaces(), key),
    {
        let listing = host_listing(&self.host);
        let ghost answer = listing;
        let ghost s0 = self.repository.workspaces();
        let ghost keeps = self.repository.keeps_inserts();
        let secs = reconcile_from_listing(&mut self.repository, &mut self.sleeper, listing);
        proof {
            if secs == HERDR_RECONCILE_OK_INTERVAL_SECS {
                let rep = choose|rep: HerdrWorkspaceSyncReport|
                    sync_effect(s0, self.repository.workspaces(), keeps, answer->Ok_0.0@, answer->Ok_0.1@, rep);
                assert(sync_effect(s0, self.repository.workspaces(), keeps, answer->Ok_0.0@, answer->Ok_0.1@, rep));
            }
        }
        secs
    }
}

/// A reconciliation with some listing of Herdr's workspaces and panes took a
/// repository that keeps inserts as `keeps` from `s0` to `s1`.
pub open spec fn reconciled(s0: Seq<Workspace>, s1: Seq<Workspace>, keeps: bool) -> bool {
    exists|ws: Seq<HerdrWorkspaceInfo>, panes: Seq<HerdrPaneInfo>, rep: HerdrWorkspaceSyncReport|
        sync_effect(s0, s1, keeps, ws, panes, rep)
}

/// Reconciles with Herdr whenever Herdr reports a lifecycle event that calls
/// for it.
pub struct HerdrEventSyncLoop<R, H, E> {
    pub repository: R,
    pub host: H,
    pub events: E,
}

impl<R: WorkspaceRepository, H: HerdrHost, E: HerdrEventSource> HerdrEventSyncLoop<R, H, E> {
    pub fn new(repository: R, host: H, events: E) -> (l: Self)
        ensures
            l.repository == repository,
            l.host == host,
            l.events == events,
    {
        HerdrEventSyncLoop { repository, host, events }
    }

    /// Handles one event: a failure to read it is reported and changes
    /// nothing; an event that does not call for a sync (a closed workspace)
    /// changes nothing and returns `false`; any other triggers a
    /// reconciliation and returns `true` once it succeeds.
    pub fn handle(&mut self, event: Result<HerdrLifecycleEvent, HerdrHostError>) -> (r: Result<bool, ApplicationError>)
        ensures
            event matches Err(e) ==> r == Err::<bool, ApplicationError>(ApplicationError::Herdr(e)),
            event matches Ok(ev) && !calls_for_sync(ev) ==> r == Ok::<bool, ApplicationError>(false),
            event matches Ok(ev) && calls_for_sync(ev) ==> (r is Ok ==> r == Ok::<bool, ApplicationError>(true)),
            event is Err || (event matches Ok(ev) && !calls_for_sync(ev)) ==> final(self).repository.workspaces()
                == old(self).repository.workspaces(),
            r matches Err(ApplicationError::Herdr(_)) ==> final(self).repository.workspaces() == old(
                self,
            ).repository.workspaces(),
            r is Err ==> (r matches Err(ApplicationError::Herdr(_)) || r matches Err(ApplicationError::Repository(_))),
            r matches Ok(true) ==> reconciled(
                old(self).repository.workspaces(),
                final(self).repository.workspaces(),
                old(self).repository.keeps_inserts(),
            ),
            forall|key: Seq<char>|
                #[trigger] binding_for_herdr_id(old(self).repository.workspaces(), key) is Some ==> binding_for_herdr_id(
                    final(self).repository.workspaces(),
                    key,
                ) == binding_for_herdr_id(old(self).repository.workspaces(), key),
    {
        let event = match event {
            Ok(ev) => ev,
            Err(e) => {
                return Err(ApplicationError::Herdr(e));
            },
        };
        if !event.should_sync() {
            return Ok(false);
        }
        let ghost s0 = self.repository.workspaces();
        let ghost keeps = self.repository.keeps_inserts();
        match SyncHerdrWorkspaces::new(&mut self.repository, &self.host).execute() {
            Ok(rep) => {
                proof {
                    let (ws, panes) = choose|ws: Seq<HerdrWorkspaceInfo>, panes: Seq<HerdrPaneInfo>|
                        sync_effect(s0, self.repository.workspaces(), keeps, ws, panes, rep);
                    assert(sync_effect(s0, self.repository.workspaces(), keeps, ws, panes, rep));
                }
                Ok(true)
            },
            Err(e) => Err(e),
        }
    }

    /// Waits for Herdr's next lifecycle event and handles it.
    pub fn step(&mut self) -> (r: Result<bool, ApplicationError>)
        ensures
            r matches Ok(false) ==> final(self).repository.workspaces() == old(self).repository.workspaces(),
            r matches Err(ApplicationError::Herdr(_)) ==> final(self).repository.workspaces() == old(
                self,
            ).repository.workspaces(),
            r is Err ==> (r matches Err(ApplicationError::Herdr(_)) || r matches Err(ApplicationError::Repository(_))),
            r matches Ok(true) ==> reconciled(
                old(self).repository.workspaces(),
                final(self).repository.workspaces(),
                old(self).repository.keeps_inserts(),
            ),
            forall|key: Seq<char>|
                #[trigger] binding_for_herdr_id(old(self).repository.workspaces(), key) is Some ==> binding_for_herdr_id(
                    final(self).repository.workspaces(),
                    key,
                ) == binding_for_herdr_id(old(self).repository.workspaces(), key),
    {
        let event = self.events.next_event();
        self.handle(event)
    }
}

} // verus!
