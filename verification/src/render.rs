//! The text of the preview feedback that Workbench sends to an agent: where
//! the workspace is, what the preview shows, the screenshot's digest, the
//! user's note and the latest diagnostics. It never holds raw image bytes.

use vstd::prelude::*;
use crate::domain::Workspace;
use crate::herdr::texts;
use crate::preview::{PreviewDiagnostic, PreviewDiagnosticKind, PreviewDiagnosticLevel, PreviewScreenshot, PreviewSession, PreviewStatus};
use crate::text::{chars_of, decimal, decimal_text, owned, push_text, string_from_chars, trim, trim_text};

verus! {

/// At most this many diagnostics are sent.
pub const PREVIEW_CONTEXT_DIAGNOSTIC_LIMIT: usize = 20;

/// A note is clipped to this many characters.
pub const PREVIEW_CONTEXT_NOTE_LIMIT: usize = 500;

/// The name of a status, as `Debug` writes it.
pub open spec fn status_name(s: PreviewStatus) -> Seq<char> {
    match s {
        PreviewStatus::Opening => "Opening"@,
        PreviewStatus::Open => "Open"@,
        PreviewStatus::Unavailable => "Unavailable"@,
    }
}

pub open spec fn level_name(l: PreviewDiagnosticLevel) -> Seq<char> {
    match l {
        PreviewDiagnosticLevel::Warning => "Warning"@,
        PreviewDiagnosticLevel::Error => "Error"@,
    }
}

pub open spec fn kind_name(k: PreviewDiagnosticKind) -> Seq<char> {
    match k {
        PreviewDiagnosticKind::Console => "Console"@,
        PreviewDiagnosticKind::Exception => "Exception"@,
        PreviewDiagnosticKind::Network => "Network"@,
    }
}

pub fn status_text(s: PreviewStatus) -> (r: &'static str)
    ensures
        r@ == status_name(s),
{
    match s {
        PreviewStatus::Opening => "Opening",
        PreviewStatus::Open => "Open",
        PreviewStatus::Unavailable => "Unavailable",
    }
}

fn level_text(l: PreviewDiagnosticLevel) -> (r: &'static str)
    ensures
        r@ == level_name(l),
{
    match l {
        PreviewDiagnosticLevel::Warning => "Warning",
        PreviewDiagnosticLevel::Error => "Error",
    }
}

fn kind_text(k: PreviewDiagnosticKind) -> (r: &'static str)
    ensures
        r@ == kind_name(k),
{
    match k {
        PreviewDiagnosticKind::Console => "Console",
        PreviewDiagnosticKind::Exception => "Exception",
        PreviewDiagnosticKind::Network => "Network",
    }
}

/// The text of an optional value, or "-".
pub open spec fn text_or_dash(o: Option<String>) -> Seq<char> {
    match o {
        Some(s) => s@,
        None => "-"@,
    }
}

pub open spec fn screenshot_line(s: Option<PreviewScreenshot>) -> Seq<char> {
    match s {
        Some(s) => "screenshot: sha256="@ + s.sha256@ + " bytes="@ + decimal(s.byte_size as nat) + " path="@ + s.path@,
        None => "screenshot: none"@,
    }
}

pub open spec fn diagnostic_line(d: PreviewDiagnostic) -> Seq<char> {
    "- "@ + level_name(d.level) + " "@ + kind_name(d.kind) + " "@ + d.message@
}

pub open spec fn min_nat(a: nat, b: nat) -> nat {
    if a < b {
        a
    } else {
        b
    }
}

/// The lines of the feedback, in order.
pub open spec fn preview_context_lines(
    workspace: Workspace,
    session: Option<PreviewSession>,
    screenshot: Option<PreviewScreenshot>,
    diagnostics: Seq<PreviewDiagnostic>,
    note: Option<Seq<char>>,
) -> Seq<Seq<char>> {
    let head = seq![
        "[Herdr Workbench Preview feedback]"@,
        "workspace: "@ + workspace.label@,
        "cwd: "@ + workspace.cwd@,
        "url: "@ + (match session { Some(s) => text_or_dash(s.url), None => "-"@ }),
        "title: "@ + (match session { Some(s) => text_or_dash(s.title), None => "-"@ }),
        "status: "@ + (match session { Some(s) => status_name(s.status), None => "-"@ }),
        screenshot_line(screenshot),
    ];
    let with_note = match note {
        Some(n) => if trim(n).len() > 0 {
            head.push("note: "@ + trim(n).take(min_nat(trim(n).len(), PREVIEW_CONTEXT_NOTE_LIMIT as nat) as int))
        } else {
            head
        },
        None => head,
    };
    let with_header = with_note.push("diagnostics:"@);
    if diagnostics.len() == 0 {
        with_header.push("- none"@)
    } else {
        with_header + diagnostics.take(
            min_nat(diagnostics.len(), PREVIEW_CONTEXT_DIAGNOSTIC_LIMIT as nat) as int,
        ).map_values(|d: PreviewDiagnostic| diagnostic_line(d))
    }
}

/// Lines joined with newlines.
pub open spec fn joined(lines: Seq<Seq<char>>) -> Seq<char>
    decreases lines.len(),
{
    if lines.len() == 0 {
        Seq::empty()
    } else if lines.len() == 1 {
        lines[0]
    } else {
        joined(lines.drop_last()) + "\n"@ + lines.last()
    }
}

/// The lines of `lines` joined with newlines.
pub fn join_lines(lines: &Vec<String>) -> (r: String)
    ensures
        r@ == joined(texts(lines@)),
{
    if lines.len() == 0 {
        return String::new();
    }
    let mut r = lines[0].clone();
    let ghost t = texts(lines@);
    assert(t.take(1).drop_last() =~= Seq::<Seq<char>>::empty());
    for i in 1..lines.len()
        invariant
            t == texts(lines@),
            r@ == joined(t.take(i as int)),
    {
        push_text(&mut r, "\n");
        push_text(&mut r, lines[i].as_str());
        assert(t.take(i + 1).drop_last() =~= t.take(i as int));
    }
    assert(t.take(lines.len() as int) =~= t);
    r
}

fn prefixed(prefix: &str, value: &str) -> (r: String)
    ensures
        r@ == prefix@ + value@,
{
    let mut r = owned(prefix);
    push_text(&mut r, value);
    r
}

/// The text of an optional value, or "-".
fn or_dash(o: &Option<String>) -> (r: &str)
    ensures
        r@ == text_or_dash(*o),
{
    match o {
        Some(s) => s.as_str(),
        None => "-",
    }
}

/// The feedback text, `preview_context_lines` joined with newlines.
pub fn render_preview_context(
    workspace: &Workspace,
    session: Option<&PreviewSession>,
    screenshot: Option<&PreviewScreenshot>,
    diagnostics: &[PreviewDiagnostic],
    note: Option<&str>,
) -> (text: String)
    ensures
        text@ == joined(
            preview_context_lines(
                *workspace,
                match session { Some(s) => Some(*s), None => None },
                match screenshot { Some(s) => Some(*s), None => None },
                diagnostics@,
                match note { Some(n) => Some(n@), None => None },
            ),
        ),
{
    let ghost sess = match session { Some(s) => Some(*s), None => None };
    let ghost shot = match screenshot { Some(s) => Some(*s), None => None };
    let ghost nt = match note { Some(n) => Some(n@), None => None };
    let mut lines: Vec<String> = Vec::new();
    lines.push(owned("[Herdr Workbench Preview feedback]"));
    lines.push(prefixed("workspace: ", workspace.label.as_str()));
    lines.push(prefixed("cwd: ", workspace.cwd.as_str()));
    let url = match session {
        Some(s) => or_dash(&s.url),
        None => "-",
    };
    lines.push(prefixed("url: ", url));
    let title = match session {
        Some(s) => or_dash(&s.title),
        None => "-",
    };
    lines.push(prefixed("title: ", title));
    let status = match session {
        Some(s) => status_text(s.status),
        None => "-",
    };
    lines.push(prefixed("status: ", status));
    match screenshot {
        Some(s) => {
            let mut line = prefixed("screenshot: sha256=", s.sha256.as_str());
            push_text(&mut line, " bytes=");
            push_text(&mut line, decimal_text(s.byte_size).as_str());
            push_text(&mut line, " path=");
            push_text(&mut line, s.path.as_str());
            lines.push(line);
        },
        None => lines.push(owned("screenshot: none")),
    }
    let ghost head = texts(lines@);
    assert(head =~= seq![
        "[Herdr Workbench Preview feedback]"@,
        "workspace: "@ + workspace.label@,
        "cwd: "@ + workspace.cwd@,
        "url: "@ + (match sess { Some(s) => text_or_dash(s.url), None => "-"@ }),
        "title: "@ + (match sess { Some(s) => text_or_dash(s.title), None => "-"@ }),
        "status: "@ + (match sess { Some(s) => status_name(s.status), None => "-"@ }),
        screenshot_line(shot),
    ]);
    match note {
        Some(n) => {
            let trimmed = trim_text(n);
            let chars = chars_of(trimmed.as_str());
            if chars.len() > 0 {
                let keep = if chars.len() < PREVIEW_CONTEXT_NOTE_LIMIT {
                    chars.len()
                } else {
                    PREVIEW_CONTEXT_NOTE_LIMIT
                };
                let clipped = string_from_chars(&chars, 0, keep);
                assert(chars@.subrange(0, keep as int) =~= trim(n@).take(keep as int));
                lines.push(prefixed("note: ", clipped.as_str()));
            }
        },
        None => {},
    }
    lines.push(owned("diagnostics:"));
    let ghost with_header = texts(lines@);
    if diagnostics.len() == 0 {
        lines.push(owned("- none"));
    } else {
        let limit = if diagnostics.len() < PREVIEW_CONTEXT_DIAGNOSTIC_LIMIT {
            diagnostics.len()
        } else {
            PREVIEW_CONTEXT_DIAGNOSTIC_LIMIT
        };
        for i in 0..limit
            invariant
                limit <= diagnostics@.len(),
                texts(lines@) == with_header + diagnostics@.take(i as int).map_values(
                    |d: PreviewDiagnostic| diagnostic_line(d),
                ),
        {
            let d = &diagnostics[i];
            let mut line = prefixed("- ", level_text(d.level));
            push_text(&mut line, " ");
            push_text(&mut line, kind_text(d.kind));
            push_text(&mut line, " ");
            push_text(&mut line, d.message.as_str());
            let ghost before = lines@;
            lines.push(line);
            assert(texts(lines@) =~= texts(before).push(diagnostic_line(diagnostics@[i as int])));
            assert(diagnostics@.take(i + 1).map_values(|d: PreviewDiagnostic| diagnostic_line(d))
                =~= diagnostics@.take(i as int).map_values(|d: PreviewDiagnostic| diagnostic_line(d)).push(
                diagnostic_line(diagnostics@[i as int]),
            ));
        }
    }
    let r = join_lines(&lines);
    assert(texts(lines@) =~= preview_context_lines(*workspace, sess, shot, diagnostics@, nt));
    r
}

} // verus!
