use herdr_workbench::clock::Timestamp;
use herdr_workbench::digest::{sha256_hex, to_lower_hex};
use herdr_workbench::domain::{
    validate_workspace_root, DomainError, HerdrWorkspaceContext, HerdrWorkspaceId, Workspace,
};
use herdr_workbench::ident::{uuid_text, PreviewSessionId, WorkbenchWorkspaceId};
use herdr_workbench::preview::{
    PreviewDiagnostic, PreviewDiagnosticKind, PreviewDiagnosticLevel, PreviewScreenshot,
    PreviewSession, PreviewStatus,
};
use herdr_workbench::render::render_preview_context;
use herdr_workbench::storage::{
    database_url, session_from_row, status_column, status_from_column, workspace_from_row,
    DEFAULT_ADDRESS, DURABLE_PREVIEW_OPENED, SERVER_EVENT_CAPACITY,
};
use herdr_workbench::text::{decimal_text, text_is_blank, trim_text};

#[test]
fn workspace_roots_must_be_absolute_local_and_without_traversal() {
    assert_eq!(validate_workspace_root(r"C:\projects\siftmark"), Ok(()));
    assert_eq!(validate_workspace_root("D:/Code/huajingweb"), Ok(()));
    assert_eq!(
        validate_workspace_root(r"projects\siftmark"),
        Err(DomainError::WorkspaceRootMustBeAbsolute)
    );
    assert_eq!(validate_workspace_root("C:"), Err(DomainError::WorkspaceRootMustBeAbsolute));
    assert_eq!(
        validate_workspace_root(r"C:\projects\..\secrets"),
        Err(DomainError::WorkspaceRootContainsTraversal)
    );
    assert_eq!(validate_workspace_root(r"C:\projects\..foo"), Ok(()));
    assert_eq!(
        validate_workspace_root(r"\\nas\share"),
        Err(DomainError::UncWorkspaceRootNotAllowed)
    );
}

#[test]
fn workspace_roots_follow_windows_prefix_rules() {
    // A verbatim path splits its components at backslashes only.
    assert_eq!(
        validate_workspace_root(r"\\?\C:\a/..\b"),
        Err(DomainError::UncWorkspaceRootNotAllowed)
    );
    assert_eq!(
        validate_workspace_root(r"\\?\C:\a\..\b"),
        Err(DomainError::WorkspaceRootContainsTraversal)
    );
    assert_eq!(
        validate_workspace_root(r"\\?\UNC\srv\share\x"),
        Err(DomainError::UncWorkspaceRootNotAllowed)
    );
    // A server alone is no UNC prefix, so the path is relative.
    assert_eq!(validate_workspace_root(r"\\nas"), Err(DomainError::WorkspaceRootMustBeAbsolute));
    assert_eq!(validate_workspace_root(r"\\nas\"), Err(DomainError::WorkspaceRootMustBeAbsolute));
    // The `..` inside a prefix is part of the prefix, not a component.
    assert_eq!(
        validate_workspace_root(r"\\..\share\x"),
        Err(DomainError::UncWorkspaceRootNotAllowed)
    );
    assert_eq!(
        validate_workspace_root(r"\\nas\share\..\x"),
        Err(DomainError::WorkspaceRootContainsTraversal)
    );
    // A drive with no root is relative to that drive's current directory.
    assert_eq!(validate_workspace_root("C:.."), Err(DomainError::WorkspaceRootMustBeAbsolute));
    assert_eq!(validate_workspace_root("C:/.."), Err(DomainError::WorkspaceRootContainsTraversal));
    // Forward slashes make a UNC prefix too, but the text does not begin with backslashes.
    assert_eq!(validate_workspace_root("//nas/share/x"), Ok(()));
    assert_eq!(validate_workspace_root(r"\\.\COM1"), Err(DomainError::UncWorkspaceRootNotAllowed));
}

#[test]
fn domain_errors_have_stable_messages() {
    assert_eq!(DomainError::EmptyHerdrWorkspaceId.message(), "Herdr workspace id cannot be empty");
    assert_eq!(DomainError::WorkspaceRootMustBeAbsolute.message(), "workspace root must be absolute");
    assert_eq!(
        DomainError::WorkspaceRootContainsTraversal.message(),
        "workspace root cannot contain parent traversal"
    );
    assert_eq!(DomainError::UncWorkspaceRootNotAllowed.message(), "UNC workspace roots are not allowed");
}

#[test]
fn herdr_workspace_ids_are_never_blank() {
    assert_eq!(HerdrWorkspaceId::parse("  \t").unwrap_err(), DomainError::EmptyHerdrWorkspaceId);
    assert_eq!(HerdrWorkspaceId::parse("wD").unwrap().as_str(), "wD");
    assert_eq!(HerdrWorkspaceId::parse(" wD ").unwrap().as_str(), " wD ");
}

#[test]
fn contexts_check_the_root_before_the_identifier() {
    assert_eq!(
        HerdrWorkspaceContext::new("", "x", "relative").unwrap_err(),
        DomainError::WorkspaceRootMustBeAbsolute
    );
    assert_eq!(
        HerdrWorkspaceContext::new(" ", "x", r"C:\w").unwrap_err(),
        DomainError::EmptyHerdrWorkspaceId
    );
    let context = HerdrWorkspaceContext::new("herdr-1", "Siftmark", r"C:\w").unwrap();
    let workspace = Workspace::bind(context);
    assert_eq!(workspace.revision, 0);
    assert_eq!(workspace.label, "Siftmark");
    assert_eq!(workspace.cwd, r"C:\w");
}

#[test]
fn identifiers_are_written_as_hyphenated_uuids() {
    assert_eq!(uuid_text(0), "00000000-0000-0000-0000-000000000000");
    assert_eq!(
        WorkbenchWorkspaceId::from_uuid(0x0123_4567_89ab_cdef_0123_4567_89ab_cdef).to_text(),
        "01234567-89ab-cdef-0123-456789abcdef"
    );
    assert_eq!(PreviewSessionId::from_uuid(1).to_text(), "00000000-0000-0000-0000-000000000001");
    assert_ne!(WorkbenchWorkspaceId::new(), WorkbenchWorkspaceId::new());
}

#[test]
fn digests_are_lower_case_hexadecimal_sha256() {
    assert_eq!(
        sha256_hex(b"abc"),
        "ba7816bf8f01cfea414140de5dae2223b00361a396177a9cb410ff61f20015ad"
    );
    assert_eq!(
        sha256_hex(b""),
        "e3b0c44298fc1c149afbf4c8996fb92427ae41e4649b934ca495991b7852b855"
    );
    assert_eq!(to_lower_hex(&[0, 15, 16, 255]), "000f10ff");
}

#[test]
fn instants_are_written_in_rfc3339() {
    let epoch = Timestamp::from_unix(0, 0).unwrap();
    assert_eq!(epoch.to_rfc3339(), "1970-01-01T00:00:00+00:00");
    assert_eq!((epoch.secs(), epoch.nanos()), (0, 0));
    assert!(Timestamp::from_unix(0, 2_000_000_000).is_none());
}

#[test]
fn instants_cover_the_dates_that_chrono_represents() {
    let first = -8_334_601_228_800_i64;
    let last = 8_210_266_876_799_i64;
    assert!(Timestamp::from_unix(first, 0).is_some());
    assert!(Timestamp::from_unix(first - 1, 999_999_999).is_none());
    assert!(Timestamp::from_unix(last, 999_999_999).is_some());
    assert!(Timestamp::from_unix(last + 1, 0).is_none());
    assert!(Timestamp::from_unix(i64::MAX, 0).is_none());
    assert!(Timestamp::from_unix(i64::MIN, 0).is_none());
    // A leap second: up to two seconds of nanoseconds, in the last second of a minute.
    assert!(Timestamp::from_unix(59, 1_500_000_000).is_some());
    assert!(Timestamp::from_unix(-1, 1_999_999_999).is_some());
    assert!(Timestamp::from_unix(58, 1_500_000_000).is_none());
    assert!(Timestamp::from_unix(59, 2_000_000_000).is_none());
    assert_eq!(Timestamp::from_unix(first, 0).unwrap().to_rfc3339(), "-262143-01-01T00:00:00+00:00");
}

#[test]
fn text_helpers_follow_std() {
    assert_eq!(decimal_text(0), "0");
    assert_eq!(decimal_text(80), "80");
    assert_eq!(decimal_text(u64::MAX), u64::MAX.to_string());
    assert_eq!(trim_text("\u{3000} a b \n"), "a b");
    assert!(text_is_blank(" \t\r\n"));
    assert!(!text_is_blank(" x "));
}

fn sample_workspace() -> Workspace {
    Workspace {
        workspace_id: WorkbenchWorkspaceId::from_uuid(7),
        herdr_workspace_id: HerdrWorkspaceId::parse("herdr-1").unwrap(),
        label: "Siftmark".into(),
        cwd: r"C:\projects\siftmark".into(),
        revision: 2,
    }
}

fn diagnostic(message: &str) -> PreviewDiagnostic {
    PreviewDiagnostic {
        workspace_id: WorkbenchWorkspaceId::from_uuid(7),
        kind: PreviewDiagnosticKind::Network,
        level: PreviewDiagnosticLevel::Warning,
        message: message.into(),
        source: None,
        status: Some(404),
        occurred_at: Timestamp::now(),
    }
}

#[test]
fn preview_feedback_lists_state_screenshot_note_and_diagnostics() {
    let workspace = sample_workspace();
    let session = PreviewSession {
        session_id: PreviewSessionId::from_uuid(1),
        workspace_id: workspace.workspace_id,
        url: Some("http://localhost:3000".into()),
        title: None,
        status: PreviewStatus::Open,
    };
    let screenshot = PreviewScreenshot {
        screenshot_id: 2,
        workspace_id: workspace.workspace_id,
        path: "memory://shot".into(),
        sha256: "abc".into(),
        byte_size: 8,
        revision: 2,
    };
    let text = render_preview_context(
        &workspace,
        Some(&session),
        Some(&screenshot),
        &[diagnostic("missing.js")],
        Some("  please check the header  "),
    );
    assert_eq!(
        text,
        "[Herdr Workbench Preview feedback]\n\
         workspace: Siftmark\n\
         cwd: C:\\projects\\siftmark\n\
         url: http://localhost:3000\n\
         title: -\n\
         status: Open\n\
         screenshot: sha256=abc bytes=8 path=memory://shot\n\
         note: please check the header\n\
         diagnostics:\n\
         - Warning Network missing.js"
    );
}

#[test]
fn preview_feedback_without_preview_or_diagnostics() {
    let text = render_preview_context(&sample_workspace(), None, None, &[], Some("   "));
    assert_eq!(
        text,
        "[Herdr Workbench Preview feedback]\n\
         workspace: Siftmark\n\
         cwd: C:\\projects\\siftmark\n\
         url: -\n\
         title: -\n\
         status: -\n\
         screenshot: none\n\
         diagnostics:\n\
         - none"
    );
}

#[test]
fn preview_feedback_clips_the_note_and_the_diagnostics() {
    let note = "x".repeat(600);
    let diagnostics: Vec<PreviewDiagnostic> = (0..25).map(|i| diagnostic(&format!("d{i}"))).collect();
    let text = render_preview_context(&sample_workspace(), None, None, &diagnostics, Some(&note));
    let note_line = text.lines().find(|l| l.starts_with("note: ")).unwrap();
    assert_eq!(note_line.len(), "note: ".len() + 500);
    let listed = text.lines().filter(|l| l.starts_with("- Warning Network d")).count();
    assert_eq!(listed, 20);
    assert!(text.ends_with("- Warning Network d19"));
}

#[test]
fn status_columns_round_trip() {
    for status in [PreviewStatus::Open, PreviewStatus::Opening, PreviewStatus::Unavailable] {
        assert_eq!(status_from_column(status_column(status)), status);
    }
    assert_eq!(status_column(PreviewStatus::Opening), "opening");
    assert_eq!(status_from_column("closed"), PreviewStatus::Unavailable);
}

#[test]
fn workspace_rows_are_read_back() {
    let id = "01234567-89ab-cdef-0123-456789abcdef";
    let workspace = workspace_from_row(id, "herdr-1", "Siftmark", r"C:\w", 3).unwrap();
    assert_eq!(workspace.workspace_id.to_text(), id);
    assert_eq!(workspace.herdr_workspace_id.as_str(), "herdr-1");
    assert_eq!(workspace.revision, 3);
    assert_eq!(
        workspace_from_row(id, "herdr-1", "Siftmark", "relative", 3).unwrap_err(),
        "workspace root must be absolute"
    );
    assert_eq!(
        workspace_from_row(id, " ", "Siftmark", r"C:\w", 3).unwrap_err(),
        "Herdr workspace id cannot be empty"
    );
    assert!(workspace_from_row("nope", "herdr-1", "Siftmark", r"C:\w", 3).is_err());
}

#[test]
fn session_rows_are_read_back() {
    let sid = "00000000-0000-0000-0000-000000000001";
    let wid = "00000000-0000-0000-0000-000000000002";
    let session = session_from_row(sid, wid, Some("http://x/".into()), None, "open").unwrap();
    assert_eq!(session.session_id, PreviewSessionId::from_uuid(1));
    assert_eq!(session.workspace_id, WorkbenchWorkspaceId::from_uuid(2));
    assert_eq!(session.url.as_deref(), Some("http://x/"));
    assert_eq!(session.status, PreviewStatus::Open);
    assert!(session_from_row("bad", wid, None, None, "open").is_err());
    assert!(session_from_row(sid, "bad", None, None, "open").is_err());
}

#[test]
fn database_urls_use_forward_slashes() {
    assert_eq!(
        database_url(r"C:\Users\me\AppData\Local\HerdrWorkbench\workbench.db"),
        "sqlite:///C:/Users/me/AppData/Local/HerdrWorkbench/workbench.db"
    );
    assert_eq!(DEFAULT_ADDRESS, "127.0.0.1:17321");
    assert_eq!(SERVER_EVENT_CAPACITY, 256);
    assert_eq!(DURABLE_PREVIEW_OPENED, "preview_opened");
}

#[test]
fn fresh_identifiers_are_time_ordered_uuids() {
    for text in [
        WorkbenchWorkspaceId::new().to_text(),
        PreviewSessionId::new().to_text(),
        uuid_text(herdr_workbench::ident::new_event_uuid()),
    ] {
        let digits: Vec<char> = text.chars().filter(|c| *c != '-').collect();
        assert_eq!(digits[12], '7');
        assert!("89ab".contains(digits[16]));
    }
}
