use herdr_workbench::domain::{HerdrWorkspaceContext, Workspace};
use herdr_workbench::ident::uuid_text;
use herdr_workbench::preview::PreviewStatus;
use herdr_workbench::window::{
    check_captured_png, page_state_report, plan_preview_window, preview_window_title, target_url, window_label,
    workspace_id_from_label, PageEvent,
};

fn test_workspace() -> Workspace {
    Workspace::bind(HerdrWorkspaceContext::new("herdr-1", "Test", r"C:\workspace").unwrap())
}

#[test]
fn workspace_gets_a_stable_preview_window_label() {
    let workspace = test_workspace();
    let simple: String = uuid_text(workspace.workspace_id.as_uuid()).replace('-', "");
    assert_eq!(window_label(&workspace), format!("preview-{}", simple));
    assert_eq!(window_label(&workspace), window_label(&workspace));
}

#[test]
fn label_round_trips_to_workspace_id() {
    let workspace = test_workspace();
    let label = window_label(&workspace);
    assert_eq!(workspace_id_from_label(&label), Some(workspace.workspace_id));
}

#[test]
fn empty_url_becomes_about_blank() {
    let url = target_url(None).unwrap();
    assert_eq!(url, "about:blank");
}

#[test]
fn unsupported_url_scheme_is_rejected() {
    let result = target_url(Some("file:///tmp/index.html".into()));
    assert!(result.is_err());
    assert_eq!(
        result.unwrap_err().message(),
        "preview URL must use http or https (or be about:blank)"
    );
}

#[test]
fn unknown_preview_label_does_not_map_to_a_workspace() {
    assert_eq!(workspace_id_from_label("main"), None);
    assert_eq!(workspace_id_from_label("preview-not-a-uuid"), None);
}

#[test]
fn web_urls_are_opened_as_serialised() {
    assert_eq!(target_url(Some("http://localhost:3000".into())).unwrap(), "http://localhost:3000/");
    assert_eq!(target_url(Some("HTTPS://Example.com/a".into())).unwrap(), "https://example.com/a");
}

#[test]
fn unparsable_urls_are_invalid() {
    let error = target_url(Some("not a url".into())).unwrap_err();
    assert!(error.message().starts_with("preview URL is invalid: "));
    assert!(error.describe().starts_with("preview is unavailable: preview URL is invalid: "));
}

#[test]
fn page_events_report_status_url_and_title() {
    let started = page_state_report(PageEvent::LoadStarted("http://localhost:3000/".into()));
    assert_eq!(started.status, PreviewStatus::Opening);
    assert_eq!(started.url.as_deref(), Some("http://localhost:3000/"));
    assert_eq!(started.title, None);
    let finished = page_state_report(PageEvent::LoadFinished("http://localhost:3000/".into()));
    assert_eq!(finished.status, PreviewStatus::Open);
    let titled = page_state_report(PageEvent::TitleChanged("App".into()));
    assert_eq!(titled.status, PreviewStatus::Open);
    assert_eq!(titled.url, None);
    assert_eq!(titled.title.as_deref(), Some("App"));
    let closed = page_state_report(PageEvent::Destroyed);
    assert_eq!(closed.status, PreviewStatus::Unavailable);
    assert_eq!(closed.url, None);
    assert_eq!(closed.title, None);
}

#[test]
fn preview_windows_are_titled_by_workspace() {
    assert_eq!(preview_window_title(&test_workspace()), "Preview · Test");
}

#[test]
fn empty_captures_are_refused() {
    assert_eq!(check_captured_png(Vec::new()).unwrap_err().message(), "preview screenshot was empty");
    assert_eq!(check_captured_png(vec![1, 2]).unwrap().png, vec![1, 2]);
}

#[test]
fn a_preview_window_is_planned_from_the_workspace_and_the_allowed_page() {
    let workspace = test_workspace();
    let plan = plan_preview_window(&workspace, Some("http://localhost:3000".into())).unwrap();
    assert_eq!(plan.target, "http://localhost:3000/");
    assert_eq!(plan.label, window_label(&workspace));
    assert_eq!(plan.title, "Preview · Test");
    assert_eq!(plan.session.workspace_id, workspace.workspace_id);
    assert_eq!(plan.session.url.as_deref(), Some("http://localhost:3000/"));
    assert_eq!(plan.session.status, PreviewStatus::Open);
    assert!(plan.session.title.is_none());
    let id = uuid_text(plan.session.session_id.as_uuid());
    assert_eq!(&id[14..15], "7");
    let refused = plan_preview_window(&workspace, Some("file:///tmp/index.html".into()));
    assert_eq!(
        refused.unwrap_err().message(),
        target_url(Some("file:///tmp/index.html".into())).unwrap_err().message()
    );
    assert_eq!(plan_preview_window(&workspace, None).unwrap().target, "about:blank");
}
