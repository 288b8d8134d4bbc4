//! The decisions of the desktop preview window: the label that ties a
//! window to its workspace, which URLs a preview may show, and what each page
//! event reports. Parsing a URL is the `url` crate's.

use vstd::prelude::*;
use crate::domain::Workspace;
use crate::ident::{WorkbenchWorkspaceId, is_time_ordered_uuid, uuid_parse, uuid_parse_outcome, uuid_simple, uuid_simple_text};
use crate::ports::{CapturedPreviewImage, PreviewError};
use crate::preview::{PreviewSession, PreviewStatus};
use crate::text::{chars_of, owned, push_text, string_from_chars, text_equals};

verus! {

// ---------------------------------------------------------------------------
// Window labels.

/// The label of the preview window of workspace `id`.
pub open spec fn window_label_text(id: u128) -> Seq<char> {
    "preview-"@ + uuid_simple_text(id)
}

/// The workspace that a window label names: the text after `preview-`,
/// parsed as a UUID.
pub open spec fn label_workspace(label: Seq<char>) -> Option<WorkbenchWorkspaceId> {
    if label.len() >= 8 && label.take(8) == "preview-"@ {
        match uuid_parse_outcome(label.skip(8)) {
            Ok(v) => Some(WorkbenchWorkspaceId(v)),
            Err(_) => None,
        }
    } else {
        None
    }
}

/// The label of a workspace's preview window: `preview-` and the 32 digits
/// of its identifier.
pub fn window_label(workspace: &Workspace) -> (label: String)
    ensures
        label@ == window_label_text(workspace.workspace_id.0),
{
    let mut label = owned("preview-");
    let digits = uuid_simple(workspace.workspace_id.0);
    push_text(&mut label, digits.as_str());
    label
}

/// The workspace whose preview window has this label, if any. A label made
/// by `window_label` gives its workspace back.
pub fn workspace_id_from_label(label: &str) -> (r: Option<WorkbenchWorkspaceId>)
    ensures
        r == label_workspace(label@),
        forall|v: u128| #[trigger] window_label_text(v) == label@ ==> r == Some(WorkbenchWorkspaceId(v)),
{
    proof {
        reveal_strlit("preview-");
    }
    let v = chars_of(label);
    if v.len() < 8 {
        return None;
    }
    let head = string_from_chars(&v, 0, 8);
    if !text_equals(head.as_str(), "preview-") {
        proof {
            assert(head@ =~= label@.take(8));
            assert forall|x: u128| #[trigger] window_label_text(x) != label@ by {
                if window_label_text(x) == label@ {
                    assert(label@.take(8) =~= "preview-"@);
                }
            }
        }
        return None;
    }
    let rest = string_from_chars(&v, 8, v.len());
    proof {
        assert(head@ =~= label@.take(8));
        assert(rest@ =~= label@.skip(8));
        assert forall|x: u128| #[trigger] window_label_text(x) == label@ implies uuid_simple_text(x) == rest@ by {
            assert(label@.skip(8) =~= uuid_simple_text(x));
        }
    }
    match uuid_parse(rest.as_str()) {
        Ok(value) => Some(WorkbenchWorkspaceId(value)),
        Err(_) => None,
    }
}

// ---------------------------------------------------------------------------
// Preview URLs.

/// A parsed URL: its scheme and its serialization.
#[derive(Debug)]
pub struct ParsedUrl {
    pub scheme: String,
    pub href: String,
}

/// What `url::Url::parse` makes of a text: the scheme and the serialization
/// of the URL, or the text of the error.
pub uninterp spec fn url_parse_outcome(text: Seq<char>) -> Result<(Seq<char>, Seq<char>), Seq<char>>;

/// A URL parse result, taken as texts.
pub open spec fn url_result_text(r: Result<ParsedUrl, String>) -> Result<(Seq<char>, Seq<char>), Seq<char>> {
    match r {
        Ok(p) => Ok((p.scheme@, p.href@)),
        Err(e) => Err(e@),
    }
}

/// `url::Url::parse`, keeping `scheme()` and `as_str()` of the URL, or the
/// error's `Display` text. The result is named by `url_parse_outcome`.
#[verifier::external_body]
fn url_parse(text: &str) -> (r: Result<ParsedUrl, String>)
    ensures
        url_result_text(r) == url_parse_outcome(text@),
{
    match url::Url::parse(text) {
        Ok(u) => Ok(ParsedUrl { scheme: u.scheme().to_owned(), href: u.as_str().to_owned() }),
        Err(e) => Err(e.to_string()),
    }
}

/// The text a preview shows when no URL is given.
pub open spec fn blank_page() -> Seq<char> {
    "about:blank"@
}

/// What a preview may show, given what parsing its URL gave: an http or
/// https URL, or the blank page, as serialised; anything else is refused
/// with the reason.
pub open spec fn preview_url_decision(parsed: Result<(Seq<char>, Seq<char>), Seq<char>>) -> Result<Seq<char>, Seq<char>> {
    match parsed {
        Err(e) => Err("preview URL is invalid: "@ + e),
        Ok((scheme, href)) => if scheme != "http"@ && scheme != "https"@ && href != blank_page() {
            Err("preview URL must use http or https (or be about:blank)"@)
        } else {
            Ok(href)
        },
    }
}

/// A decision on a preview URL, taken as texts.
pub open spec fn url_decision_text(r: Result<String, PreviewError>) -> Result<Seq<char>, Seq<char>> {
    match r {
        Ok(s) => Ok(s@),
        Err(e) => Err(e@),
    }
}

/// Decides on a parsed preview URL.
pub fn check_preview_url(parsed: Result<ParsedUrl, String>) -> (r: Result<String, PreviewError>)
    ensures
        url_decision_text(r) == preview_url_decision(url_result_text(parsed)),
{
    match parsed {
        Err(e) => {
            let mut message = owned("preview URL is invalid: ");
            push_text(&mut message, e.as_str());
            Err(PreviewError::unavailable(message.as_str()))
        },
        Ok(p) => {
            let web = text_equals(p.scheme.as_str(), "http") || text_equals(p.scheme.as_str(), "https");
            if !web && !text_equals(p.href.as_str(), "about:blank") {
                Err(PreviewError::unavailable("preview URL must use http or https (or be about:blank)"))
            } else {
                Ok(p.href)
            }
        },
    }
}

/// The URL a preview is opened at: the one given, or the blank page.
pub open spec fn requested_url(url: Option<String>) -> Seq<char> {
    match url {
        Some(u) => u@,
        None => blank_page(),
    }
}

/// The URL to open a preview at, as `url` serialises it, where a preview
/// may show it.
pub fn target_url(url: Option<String>) -> (r: Result<String, PreviewError>)
    ensures
        url_decision_text(r) == preview_url_decision(url_parse_outcome(requested_url(url))),
{
    let value = match url {
        Some(u) => u,
        None => owned("about:blank"),
    };
    check_preview_url(url_parse(value.as_str()))
}

// ---------------------------------------------------------------------------
// Opening a window.

/// How the preview window of a workspace is opened: under its label, with its
/// title, at the target page, and the session that stands for the window
/// once it shows that page.
#[derive(Debug)]
pub struct PreviewWindowPlan {
    pub label: String,
    pub title: String,
    pub target: String,
    pub session: PreviewSession,
}

/// The window for the preview of `workspace` at `url`: the page is the one
/// `target_url` allows (a refused URL is the error), the label and title are
/// the workspace's, and the session is a new open one at the target page.
pub fn plan_preview_window(workspace: &Workspace, url: Option<String>) -> (r: Result<PreviewWindowPlan, PreviewError>)
    ensures
        url_decision_text(
            match r {
                Ok(p) => Ok::<String, PreviewError>(p.target),
                Err(e) => Err::<String, PreviewError>(e),
            },
        ) == preview_url_decision(url_parse_outcome(requested_url(url))),
        r matches Ok(p) ==> {
            &&& p.label@ == window_label_text(workspace.workspace_id.0)
            &&& p.title@ == "Preview · "@ + workspace.label@
            &&& p.session.workspace_id == workspace.workspace_id
            &&& p.session.url matches Some(u) && u@ == p.target@
            &&& p.session.title is None
            &&& p.session.status == PreviewStatus::Open
            &&& is_time_ordered_uuid(p.session.session_id.0)
        },
{
    let target = match target_url(url) {
        Ok(t) => t,
        Err(e) => {
            return Err(e);
        },
    };
    let label = window_label(workspace);
    let title = preview_window_title(workspace);
    let session = PreviewSession::opening(workspace, Some(owned(target.as_str()))).mark_open();
    Ok(PreviewWindowPlan { label, title, target, session })
}

// ---------------------------------------------------------------------------
// Page events.

/// What the preview window reports of its page.
#[derive(Debug)]
pub enum PageEvent {
    LoadStarted(String),
    LoadFinished(String),
    TitleChanged(String),
    Destroyed,
}

/// The page state that an event reports: a status, and the url and title
/// where the event carries them.
#[derive(Debug)]
pub struct PageStateReport {
    pub status: PreviewStatus,
    pub url: Option<String>,
    pub title: Option<String>,
}

/// A page that starts loading is opening; one that finished loading, or
/// whose title changed, is open; a destroyed window leaves the preview
/// unavailable.
pub fn page_state_report(event: PageEvent) -> (r: PageStateReport)
    ensures
        event matches PageEvent::LoadStarted(u) ==> r == (PageStateReport { status: PreviewStatus::Opening, url: Some(u), title: None }),
        event matches PageEvent::LoadFinished(u) ==> r == (PageStateReport { status: PreviewStatus::Open, url: Some(u), title: None }),
        event matches PageEvent::TitleChanged(t) ==> r == (PageStateReport { status: PreviewStatus::Open, url: None, title: Some(t) }),
        event is Destroyed ==> r == (PageStateReport { status: PreviewStatus::Unavailable, url: None, title: None }),
{
    match event {
        PageEvent::LoadStarted(u) => PageStateReport { status: PreviewStatus::Opening, url: Some(u), title: None },
        PageEvent::LoadFinished(u) => PageStateReport { status: PreviewStatus::Open, url: Some(u), title: None },
        PageEvent::TitleChanged(t) => PageStateReport { status: PreviewStatus::Open, url: None, title: Some(t) },
        PageEvent::Destroyed => PageStateReport { status: PreviewStatus::Unavailable, url: None, title: None },
    }
}

/// The title of a workspace's preview window.
pub fn preview_window_title(workspace: &Workspace) -> (title: String)
    ensures
        title@ == "Preview · "@ + workspace.label@,
{
    let mut title = owned("Preview · ");
    push_text(&mut title, workspace.label.as_str());
    title
}

/// A captured image is kept only where it holds bytes.
pub fn check_captured_png(png: Vec<u8>) -> (r: Result<CapturedPreviewImage, PreviewError>)
    ensures
        png@.len() > 0 ==> (r matches Ok(c) && c.png == png),
        png@.len() == 0 ==> (r matches Err(e) && e@ == "preview screenshot was empty"@),
{
    if png.len() == 0 {
        Err(PreviewError::unavailable("preview screenshot was empty"))
    } else {
        Ok(CapturedPreviewImage { png })
    }
}

} // verus!
