//! How workspaces and preview sessions are written to, and read back from,
//! the rows of the SQLite database, and where the server keeps it.

use vstd::prelude::*;
use crate::domain::{DomainError, HerdrWorkspaceContext, Workspace, domain_error_text, workspace_root_error};
use crate::ident::{PreviewSessionId, WorkbenchWorkspaceId, uuid_parse, uuid_parse_outcome};
use crate::preview::{PreviewSession, PreviewStatus};
use crate::text::{chars_of, is_blank, owned, push_char, text_equals};

verus! {

/// Where the server listens.
pub const DEFAULT_ADDRESS: &'static str = "127.0.0.1:17321";

/// How many events the server's bus holds for a subscriber.
pub const SERVER_EVENT_CAPACITY: usize = 256;

/// The `event_type` column of the durable event of an opened preview.
pub const DURABLE_PREVIEW_OPENED: &'static str = "preview_opened";

/// The `status` column of a preview session.
pub open spec fn status_column_text(s: PreviewStatus) -> Seq<char> {
    match s {
        PreviewStatus::Open => "open"@,
        PreviewStatus::Opening => "opening"@,
        PreviewStatus::Unavailable => "unavailable"@,
    }
}

pub fn status_column(s: PreviewStatus) -> (r: &'static str)
    ensures
        r@ == status_column_text(s),
{
    match s {
        PreviewStatus::Open => "open",
        PreviewStatus::Opening => "opening",
        PreviewStatus::Unavailable => "unavailable",
    }
}

/// The status that a `status` column holds; anything unknown reads as
/// unavailable.
pub open spec fn status_of_column(c: Seq<char>) -> PreviewStatus {
    if c == "open"@ {
        PreviewStatus::Open
    } else if c == "opening"@ {
        PreviewStatus::Opening
    } else {
        PreviewStatus::Unavailable
    }
}

pub fn status_from_column(c: &str) -> (s: PreviewStatus)
    ensures
        s == status_of_column(c@),
{
    if text_equals(c, "open") {
        PreviewStatus::Open
    } else if text_equals(c, "opening") {
        PreviewStatus::Opening
    } else {
        PreviewStatus::Unavailable
    }
}

/// The workspace that a row holds, or the text of what is wrong with it:
/// first the Herdr side (root, then identifier), then the Workbench
/// identifier. A stored revision is read back as the same 64 bits.
pub fn workspace_from_row(workspace_id: &str, herdr_workspace_id: &str, label: &str, cwd: &str, revision: i64) -> (r: Result<Workspace, String>)
    ensures
        workspace_root_error(cwd@) matches Some(e) ==> (r matches Err(m) && m@ == domain_error_text(e)),
        workspace_root_error(cwd@) is None && is_blank(herdr_workspace_id@) ==> (r matches Err(m) && m@ == domain_error_text(
            DomainError::EmptyHerdrWorkspaceId,
        )),
        workspace_root_error(cwd@) is None && !is_blank(herdr_workspace_id@) ==> (match uuid_parse_outcome(workspace_id@) {
            Err(m) => r matches Err(t) && t@ == m,
            Ok(v) => r matches Ok(w) && w.workspace_id == WorkbenchWorkspaceId(v) && w.herdr_workspace_id@ == herdr_workspace_id@
                && w.label@ == label@ && w.cwd@ == cwd@ && w.revision == revision as u64,
        }),
{
    let context = match HerdrWorkspaceContext::new(herdr_workspace_id, label, cwd) {
        Err(e) => {
            return Err(owned(e.message()));
        },
        Ok(c) => c,
    };
    let id = match uuid_parse(workspace_id) {
        Err(m) => {
            return Err(m);
        },
        Ok(v) => v,
    };
    Ok(
        Workspace {
            workspace_id: WorkbenchWorkspaceId(id),
            herdr_workspace_id: context.herdr_workspace_id,
            label: context.label,
            cwd: context.cwd,
            revision: revision as u64,
        },
    )
}

/// The preview session that a row holds, or the text of the first
/// identifier that does not parse.
pub fn session_from_row(session_id: &str, workspace_id: &str, url: Option<String>, title: Option<String>, status: &str) -> (r: Result<PreviewSession, String>)
    ensures
        uuid_parse_outcome(session_id@) matches Err(m) ==> (r matches Err(t) && t@ == m),
        uuid_parse_outcome(session_id@) is Ok ==> (uuid_parse_outcome(workspace_id@) matches Err(m) ==> (r matches Err(t)
            && t@ == m)),
        uuid_parse_outcome(session_id@) matches Ok(s) ==> (uuid_parse_outcome(workspace_id@) matches Ok(w) ==> r
            == Ok::<PreviewSession, String>(
            PreviewSession {
                session_id: PreviewSessionId(s),
                workspace_id: WorkbenchWorkspaceId(w),
                url,
                title,
                status: status_of_column(status@),
            },
        )),
{
    let sid = match uuid_parse(session_id) {
        Err(m) => {
            return Err(m);
        },
        Ok(v) => v,
    };
    let wid = match uuid_parse(workspace_id) {
        Err(m) => {
            return Err(m);
        },
        Ok(v) => v,
    };
    Ok(
        PreviewSession {
            session_id: PreviewSessionId(sid),
            workspace_id: WorkbenchWorkspaceId(wid),
            url,
            title,
            status: status_from_column(status),
        },
    )
}

/// `p` with every backslash turned into a slash.
pub open spec fn forward_slashes(p: Seq<char>) -> Seq<char> {
    p.map_values(|c: char| if c == '\\' { '/' } else { c })
}

/// The SQLite URL of the database file at `database_path`.
pub fn database_url(database_path: &str) -> (url: String)
    ensures
        url@ == "sqlite:///"@ + forward_slashes(database_path@),
{
    let v = chars_of(database_path);
    let mut url = owned("sqlite:///");
    let ghost head = url@;
    for i in 0..v.len()
        invariant
            v@ == database_path@,
            head == "sqlite:///"@,
            url@ == head + forward_slashes(v@.take(i as int)),
    {
        let c = v[i];
        if c == '\\' {
            push_char(&mut url, '/');
        } else {
            push_char(&mut url, c);
        }
        assert(forward_slashes(v@.take(i + 1)) =~= forward_slashes(v@.take(i as int)).push(
            if c == '\\' { '/' } else { c },
        ));
    }
    assert(v@.take(v@.len() as int) =~= v@);
    url
}

} // verus!
