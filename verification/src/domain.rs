//! Workspaces: a Herdr workspace is bound to a Workbench workspace whose root
//! is an absolute, local Windows directory.

use vstd::prelude::*;
use crate::ident::{WorkbenchWorkspaceId, is_time_ordered_uuid};
use crate::text::{is_blank, text_is_blank, chars_of};

verus! {

/// Why a workspace cannot be bound.
#[derive(Clone, Copy, Debug, PartialEq, Eq, Structural)]
pub enum DomainError {
    EmptyHerdrWorkspaceId,
    WorkspaceRootMustBeAbsolute,
    WorkspaceRootContainsTraversal,
    UncWorkspaceRootNotAllowed,
}

/// The message that describes each error.
pub open spec fn domain_error_text(e: DomainError) -> Seq<char> {
    match e {
        DomainError::EmptyHerdrWorkspaceId => "Herdr workspace id cannot be empty"@,
        DomainError::WorkspaceRootMustBeAbsolute => "workspace root must be absolute"@,
        DomainError::WorkspaceRootContainsTraversal => "workspace root cannot contain parent traversal"@,
        DomainError::UncWorkspaceRootNotAllowed => "UNC workspace roots are not allowed"@,
    }
}

impl DomainError {
    /// The message that describes the error.
    pub fn message(&self) -> (text: &'static str)
        ensures
            text@ == domain_error_text(*self),
    {
        match self {
            DomainError::EmptyHerdrWorkspaceId => "Herdr workspace id cannot be empty",
            DomainError::WorkspaceRootMustBeAbsolute => "workspace root must be absolute",
            DomainError::WorkspaceRootContainsTraversal => "workspace root cannot contain parent traversal",
            DomainError::UncWorkspaceRootNotAllowed => "UNC workspace roots are not allowed",
        }
    }
}

/// The identifier that Herdr gives a workspace; never blank.
#[derive(Debug, PartialEq, Eq, Hash)]
pub struct HerdrWorkspaceId(String);

impl View for HerdrWorkspaceId {
    type V = Seq<char>;

    closed spec fn view(&self) -> Seq<char> {
        self.0@
    }
}

impl Clone for HerdrWorkspaceId {
    fn clone(&self) -> (r: Self)
        ensures
            r == *self,
    {
        proof {
            use_type_invariant(self);
        }
        HerdrWorkspaceId(self.0.clone())
    }
}

impl HerdrWorkspaceId {
    #[verifier::type_invariant]
    spec fn not_blank(self) -> bool {
        !is_blank(self.0@)
    }

    /// Accepts any text that is not empty once trimmed.
    pub fn parse(value: &str) -> (r: Result<Self, DomainError>)
        ensures
            r is Err <==> is_blank(value@),
            r matches Err(e) ==> e == DomainError::EmptyHerdrWorkspaceId,
            r matches Ok(id) ==> id@ == value@,
    {
        if text_is_blank(value) {
            return Err(DomainError::EmptyHerdrWorkspaceId);
        }
        Ok(HerdrWorkspaceId(value.to_owned()))
    }

    pub fn as_str(&self) -> (text: &str)
        ensures
            text@ == self@,
            !is_blank(text@),
    {
        proof {
            use_type_invariant(self);
        }
        self.0.as_str()
    }
}

/// A path separator on Windows.
pub open spec fn is_path_separator(c: char) -> bool {
    c == '\\' || c == '/'
}

/// A separator inside a path: only `\` once the path has a verbatim (`\\?\`) prefix.
pub open spec fn separates(c: char, verbatim: bool) -> bool {
    if verbatim {
        c == '\\'
    } else {
        is_path_separator(c)
    }
}

pub open spec fn is_ascii_letter(c: char) -> bool {
    ('a' <= c && c <= 'z') || ('A' <= c && c <= 'Z')
}

/// The first position at or after `from` that holds a separator, or the length.
pub open spec fn next_separator(p: Seq<char>, from: int, verbatim: bool) -> int
    decreases p.len() - from,
{
    if from < 0 || from >= p.len() {
        p.len() as int
    } else if separates(p[from], verbatim) {
        from
    } else {
        next_separator(p, from + 1, verbatim)
    }
}

/// The prefix of a Windows path as std reads it: `Some((end, disk, verbatim))`, where
/// `end` is where the prefix stops, `disk` marks a bare drive (`C:`) and `verbatim`
/// a `\\?\` prefix; `None` where the path has no prefix.
pub open spec fn windows_prefix(p: Seq<char>) -> Option<(int, bool, bool)> {
    if p.len() >= 2 && is_path_separator(p[0]) && is_path_separator(p[1]) {
        if p.len() >= 4 && p[0] == '\\' && p[1] == '\\' && p[2] == '?' && p[3] == '\\' {
            if p.len() >= 8 && p[4] == 'U' && p[5] == 'N' && p[6] == 'C' && is_path_separator(p[7]) {
                let server_end = next_separator(p, 8, true);
                let share_end = if server_end < p.len() {
                    next_separator(p, server_end + 1, true)
                } else {
                    server_end
                };
                Some((if share_end > server_end + 1 { share_end } else { server_end }, false, true))
            } else if p.len() >= 6 && is_ascii_letter(p[4]) && p[5] == ':' && (p.len() == 6
                || is_path_separator(p[6])) {
                Some((6, false, true))
            } else {
                Some((next_separator(p, 4, true), false, true))
            }
        } else if p.len() >= 4 && p[2] == '.' && is_path_separator(p[3]) {
            Some((next_separator(p, 4, false), false, false))
        } else {
            let server_end = next_separator(p, 2, false);
            if server_end > 2 && server_end < p.len() && next_separator(p, server_end + 1, false)
                > server_end + 1 {
                Some((next_separator(p, server_end + 1, false), false, false))
            } else {
                None
            }
        }
    } else if p.len() >= 2 && is_ascii_letter(p[0]) && p[1] == ':' {
        Some((2, true, false))
    } else {
        None
    }
}

/// A separator follows the prefix that ends at `end`.
pub open spec fn has_root_after(p: Seq<char>, end: int) -> bool {
    0 <= end < p.len() && is_path_separator(p[end])
}

/// An absolute Windows path: it has a prefix, and a root, which every prefix but a
/// bare drive carries by itself.
pub open spec fn is_absolute_windows_path(p: Seq<char>) -> bool {
    match windows_prefix(p) {
        Some((end, disk, _)) => !disk || has_root_after(p, end),
        None => false,
    }
}

/// Where the components after the prefix and its root begin.
pub open spec fn components_start(p: Seq<char>) -> int {
    match windows_prefix(p) {
        Some((end, _, _)) => if has_root_after(p, end) {
            end + 1
        } else {
            end
        },
        None => 0,
    }
}

/// Whether the path's components are split at `\` alone.
pub open spec fn is_verbatim_path(p: Seq<char>) -> bool {
    match windows_prefix(p) {
        Some((_, _, verbatim)) => verbatim,
        None => false,
    }
}

/// A `..` component starts at position `i`.
pub open spec fn parent_component_at(p: Seq<char>, i: int) -> bool {
    let start = components_start(p);
    let verbatim = is_verbatim_path(p);
    &&& start <= i
    &&& i + 2 <= p.len()
    &&& p[i] == '.'
    &&& p[i + 1] == '.'
    &&& (i == start || separates(p[i - 1], verbatim))
    &&& (i + 2 == p.len() || separates(p[i + 2], verbatim))
}

/// The path holds a `..` component.
pub open spec fn has_parent_component(p: Seq<char>) -> bool {
    exists|i: int| parent_component_at(p, i)
}

/// The text begins with two backslashes.
pub open spec fn starts_with_unc(p: Seq<char>) -> bool {
    p.len() >= 2 && p[0] == '\\' && p[1] == '\\'
}

/// Why `p` cannot be a workspace root, checked in this order: it must be
/// absolute, hold no `..`, and not be a UNC path.
pub open spec fn workspace_root_error(p: Seq<char>) -> Option<DomainError> {
    if !is_absolute_windows_path(p) {
        Some(DomainError::WorkspaceRootMustBeAbsolute)
    } else if has_parent_component(p) {
        Some(DomainError::WorkspaceRootContainsTraversal)
    } else if starts_with_unc(p) {
        Some(DomainError::UncWorkspaceRootNotAllowed)
    } else {
        None
    }
}

fn is_separator_char(c: char) -> (r: bool)
    ensures
        r == is_path_separator(c),
{
    c == '\\' || c == '/'
}

fn separates_char(c: char, verbatim: bool) -> (r: bool)
    ensures
        r == separates(c, verbatim),
{
    if verbatim {
        c == '\\'
    } else {
        is_separator_char(c)
    }
}

fn is_letter_char(c: char) -> (r: bool)
    ensures
        r == is_ascii_letter(c),
{
    ('a' <= c && c <= 'z') || ('A' <= c && c <= 'Z')
}

fn find_separator(p: &Vec<char>, from: usize, verbatim: bool) -> (r: usize)
    requires
        from <= p.len(),
    ensures
        r as int == next_separator(p@, from as int, verbatim),
        from <= r <= p.len(),
{
    let mut i = from;
    while i < p.len() && !separates_char(p[i], verbatim)
        invariant
            from <= i <= p.len(),
            next_separator(p@, i as int, verbatim) == next_separator(p@, from as int, verbatim),
        decreases p.len() - i,
    {
        i = i + 1;
    }
    i
}

fn prefix_of(p: &Vec<char>) -> (r: Option<(usize, bool, bool)>)
    ensures
        match r {
            Some((end, disk, verbatim)) => windows_prefix(p@) == Some((end as int, disk, verbatim))
                && end <= p.len(),
            None => windows_prefix(p@) is None,
        },
{
    let n = p.len();
    if n >= 2 && is_separator_char(p[0]) && is_separator_char(p[1]) {
        if n >= 4 && p[0] == '\\' && p[1] == '\\' && p[2] == '?' && p[3] == '\\' {
            if n >= 8 && p[4] == 'U' && p[5] == 'N' && p[6] == 'C' && is_separator_char(p[7]) {
                let server_end = find_separator(p, 8, true);
                if server_end < n {
                    let share_end = find_separator(p, server_end + 1, true);
                    Some((if share_end > server_end + 1 { share_end } else { server_end }, false, true))
                } else {
                    Some((server_end, false, true))
                }
            } else if n >= 6 && is_letter_char(p[4]) && p[5] == ':' && (n == 6 || is_separator_char(
                p[6],
            )) {
                Some((6, false, true))
            } else {
                Some((find_separator(p, 4, true), false, true))
            }
        } else if n >= 4 && p[2] == '.' && is_separator_char(p[3]) {
            Some((find_separator(p, 4, false), false, false))
        } else {
            let server_end = find_separator(p, 2, false);
            if server_end > 2 && server_end < n {
                let share_end = find_separator(p, server_end + 1, false);
                if share_end > server_end + 1 {
                    Some((share_end, false, false))
                } else {
                    None
                }
            } else {
                None
            }
        }
    } else if n >= 2 && is_letter_char(p[0]) && p[1] == ':' {
        Some((2, true, false))
    } else {
        None
    }
}

/// Checks that `path` may be a workspace root.
pub fn validate_workspace_root(path: &str) -> (r: Result<(), DomainError>)
    ensures
        r == (match workspace_root_error(path@) {
            Some(e) => Err(e),
            None => Ok(()),
        }),
{
    let p = chars_of(path);
    let n = p.len();
    let (end, disk, verbatim) = match prefix_of(&p) {
        Some(found) => found,
        None => {
            return Err(DomainError::WorkspaceRootMustBeAbsolute);
        },
    };
    let root = end < n && is_separator_char(p[end]);
    if disk && !root {
        return Err(DomainError::WorkspaceRootMustBeAbsolute);
    }
    assert(is_absolute_windows_path(path@));
    let start = if root {
        end + 1
    } else {
        end
    };
    assert(start <= n);
    assert(start as int == components_start(path@));
    assert(verbatim == is_verbatim_path(path@));
    let mut i: usize = start;
    while n - i >= 2
        invariant
            n == p@.len(),
            p@ == path@,
            start <= i <= n,
            is_absolute_windows_path(path@),
            start as int == components_start(path@),
            verbatim == is_verbatim_path(path@),
            forall|k: int| 0 <= k < i ==> !parent_component_at(path@, k),
        decreases n - i,
    {
        if p[i] == '.' && p[i + 1] == '.' && (i == start || separates_char(p[i - 1], verbatim)) && (i
            + 2 == n || separates_char(p[i + 2], verbatim)) {
            assert(parent_component_at(path@, i as int));
            return Err(DomainError::WorkspaceRootContainsTraversal);
        }
        i = i + 1;
    }
    assert(!has_parent_component(path@)) by {
        assert forall|k: int| !parent_component_at(path@, k) by {
            if 0 <= k < i {
            } else if parent_component_at(path@, k) {
                assert(k + 2 <= n);
            }
        }
    }
    if n >= 2 && p[0] == '\\' && p[1] == '\\' {
        return Err(DomainError::UncWorkspaceRootNotAllowed);
    }
    Ok(())
}

/// A Herdr workspace, with the directory it works in, ready to be bound.
#[derive(Debug, PartialEq, Eq)]
pub struct HerdrWorkspaceContext {
    pub herdr_workspace_id: HerdrWorkspaceId,
    pub label: String,
    pub cwd: String,
}

impl Clone for HerdrWorkspaceContext {
    fn clone(&self) -> (r: Self)
        ensures
            r == *self,
    {
        HerdrWorkspaceContext {
            herdr_workspace_id: self.herdr_workspace_id.clone(),
            label: self.label.clone(),
            cwd: self.cwd.clone(),
        }
    }
}

impl HerdrWorkspaceContext {
    /// Checks the root first, then the identifier.
    pub fn new(herdr_workspace_id: &str, label: &str, cwd: &str) -> (r: Result<Self, DomainError>)
        ensures
            workspace_root_error(cwd@) matches Some(e) ==> r == Err::<Self, DomainError>(e),
            workspace_root_error(cwd@) is None && is_blank(herdr_workspace_id@) ==> r
                == Err::<Self, DomainError>(DomainError::EmptyHerdrWorkspaceId),
            workspace_root_error(cwd@) is None && !is_blank(herdr_workspace_id@) ==> r is Ok,
            r matches Ok(c) ==> c.herdr_workspace_id@ == herdr_workspace_id@ && c.label@ == label@
                && c.cwd@ == cwd@,
    {
        match validate_workspace_root(cwd) {
            Err(e) => {
                return Err(e);
            },
            Ok(()) => {},
        }
        match HerdrWorkspaceId::parse(herdr_workspace_id) {
            Err(e) => Err(e),
            Ok(id) => Ok(
                HerdrWorkspaceContext {
                    herdr_workspace_id: id,
                    label: label.to_owned(),
                    cwd: cwd.to_owned(),
                },
            ),
        }
    }
}

/// A Workbench workspace bound to one Herdr workspace.
#[derive(Debug, PartialEq, Eq)]
pub struct Workspace {
    pub workspace_id: WorkbenchWorkspaceId,
    pub herdr_workspace_id: HerdrWorkspaceId,
    pub label: String,
    pub cwd: String,
    pub revision: u64,
}

impl Clone for Workspace {
    fn clone(&self) -> (r: Self)
        ensures
            r == *self,
    {
        Workspace {
            workspace_id: self.workspace_id,
            herdr_workspace_id: self.herdr_workspace_id.clone(),
            label: self.label.clone(),
            cwd: self.cwd.clone(),
            revision: self.revision,
        }
    }
}

impl Workspace {
    /// A new binding with a fresh identifier, at revision 0.
    pub fn bind(context: HerdrWorkspaceContext) -> (w: Self)
        ensures
            w.herdr_workspace_id == context.herdr_workspace_id,
            w.label == context.label,
            w.cwd == context.cwd,
            w.revision == 0,
            is_time_ordered_uuid(w.workspace_id.0),
    {
        Workspace {
            workspace_id: WorkbenchWorkspaceId::new(),
            herdr_workspace_id: context.herdr_workspace_id,
            label: context.label,
            cwd: context.cwd,
            revision: 0,
        }
    }
}

} // verus!
