use herdr_workbench::herdr::{
    agent_read_args, agent_send_keys_args, check_subscription_ack, herdr_command_failed,
    lifecycle_event_from_name, select_agent_for_workspace, subscription_request_line,
    windows_herdr_creation_flags, windows_named_pipe_path, HerdrAgentInfo, HerdrHostError,
    HerdrLifecycleEvent, HerdrPaneInfo, HerdrWorkspaceInfo, AGENT_TRANSCRIPT_LINES,
};

/// The name in the `event` field of a Herdr socket event line.
fn event_name(line: &str) -> String {
    let value: serde_json::Value = serde_json::from_str(line).unwrap();
    value["event"].as_str().unwrap().to_owned()
}

/// The result type and the error of a subscription acknowledgement line.
fn ack_parts(line: &str) -> (Option<String>, Option<Option<String>>) {
    let value: serde_json::Value = serde_json::from_str(line).unwrap();
    let result_type = value
        .get("result")
        .and_then(|result| result.get("type"))
        .and_then(|kind| kind.as_str())
        .map(str::to_owned);
    let error = value
        .get("error")
        .map(|error| error.get("message").and_then(|m| m.as_str()).map(str::to_owned));
    (result_type, error)
}

fn check_ack(line: &str) -> Result<(), HerdrHostError> {
    let (result_type, error) = ack_parts(line);
    let error = error.as_ref().map(|e| e.as_deref());
    check_subscription_ack(result_type.as_deref(), error)
}

#[test]
fn agent_send_keys_appends_yes_or_no_without_a_shell() {
    assert_eq!(
        agent_send_keys_args("wD:p3M", &["y", "enter"]),
        vec!["agent", "send-keys", "wD:p3M", "y", "enter"]
    );
    assert_eq!(
        agent_send_keys_args("wD:p3M", &["n", "enter"]),
        vec!["agent", "send-keys", "wD:p3M", "n", "enter"]
    );
}

#[test]
fn windows_herdr_spawn_hides_the_console() {
    assert_eq!(windows_herdr_creation_flags(), 0x0800_0000);
}

#[test]
fn agent_read_uses_recent_plain_text_argv() {
    assert_eq!(
        agent_read_args("wD:p3M"),
        vec!["agent", "read", "wD:p3M", "--source", "recent", "--lines", "80", "--format", "text"]
    );
    assert_eq!(AGENT_TRANSCRIPT_LINES, 80);
}

#[test]
fn windows_pipe_path_prefixes_the_filesystem_socket_path() {
    assert_eq!(
        windows_named_pipe_path(r"C:\Users\1\AppData\Roaming\herdr\herdr.sock"),
        r"\\.\pipe\C:\Users\1\AppData\Roaming\herdr\herdr.sock"
    );
}

#[test]
fn parse_subscription_ack_accepts_subscription_started() {
    check_ack(r#"{"id":"sub_ws","result":{"type":"subscription_started"}}"#).unwrap();
}

#[test]
fn parse_subscription_ack_rejects_errors() {
    let error = check_ack(
        r#"{"id":"sub_ws","error":{"code":"invalid_params","message":"bad subscription"}}"#,
    )
    .unwrap_err();
    assert!(error.describe().contains("bad subscription"));
}

#[test]
fn subscription_acks_without_a_usable_result_are_refused() {
    let unexpected = check_ack(r#"{"id":"sub_ws","result":{"type":"pong"}}"#).unwrap_err();
    assert_eq!(unexpected.message(), "unexpected herdr subscribe ack: pong");
    let missing = check_ack(r#"{"id":"sub_ws"}"#).unwrap_err();
    assert_eq!(missing.message(), "herdr subscribe ack missing result");
    let silent = check_ack(r#"{"id":"sub_ws","error":{"code":"x"}}"#).unwrap_err();
    assert_eq!(silent.message(), "herdr subscribe failed");
}

#[test]
fn parse_lifecycle_event_reads_workspace_created() {
    let name = event_name(
        r#"{"event":"workspace_created","data":{"type":"workspace_created","workspace":{"workspace_id":"wZ"}}}"#,
    );
    assert_eq!(lifecycle_event_from_name(&name), Some(HerdrLifecycleEvent::WorkspaceCreated));
}

#[test]
fn parse_lifecycle_event_ignores_unrelated_kinds() {
    let name = event_name(
        r#"{"event":"workspace_focused","data":{"type":"workspace_focused","workspace_id":"wD"}}"#,
    );
    assert_eq!(lifecycle_event_from_name(&name), None);
}

#[test]
fn every_lifecycle_event_but_a_closed_workspace_calls_for_a_sync() {
    assert_eq!(lifecycle_event_from_name("workspace_closed"), Some(HerdrLifecycleEvent::WorkspaceClosed));
    assert_eq!(lifecycle_event_from_name("pane_created"), Some(HerdrLifecycleEvent::PaneCreated));
    assert_eq!(lifecycle_event_from_name("pane_updated"), Some(HerdrLifecycleEvent::PaneUpdated));
    assert!(HerdrLifecycleEvent::WorkspaceCreated.should_sync());
    assert!(HerdrLifecycleEvent::PaneCreated.should_sync());
    assert!(HerdrLifecycleEvent::PaneUpdated.should_sync());
    assert!(!HerdrLifecycleEvent::WorkspaceClosed.should_sync());
}

#[test]
fn subscription_request_is_one_json_line() {
    let line = subscription_request_line();
    assert!(line.ends_with('\n'));
    let value: serde_json::Value = serde_json::from_str(line.trim_end()).unwrap();
    assert_eq!(value["id"], "workbench:events:subscribe");
    assert_eq!(value["method"], "events.subscribe");
    let kinds: Vec<&str> = value["params"]["subscriptions"]
        .as_array()
        .unwrap()
        .iter()
        .map(|s| s["type"].as_str().unwrap())
        .collect();
    assert_eq!(kinds, vec!["workspace.created", "workspace.closed", "pane.created", "pane.updated"]);
}

#[test]
fn failed_commands_report_their_arguments_and_trimmed_stderr() {
    let error = herdr_command_failed(&["workspace", "list"], "  no server\n");
    assert_eq!(error.message(), "herdr workspace list failed: no server");
    assert_eq!(error.describe(), "Herdr host is unavailable: herdr workspace list failed: no server");
    let bare = herdr_command_failed(&[], "");
    assert_eq!(bare.message(), "herdr  failed: ");
}

#[test]
fn cli_records_normalise_missing_and_empty_fields() {
    let tree = HerdrWorkspaceInfo::from_cli("wT".into(), "tree".into(), Some(Some(r"C:\projects\siftmark".into())));
    assert_eq!(tree.worktree_checkout_path.as_deref(), Some(r"C:\projects\siftmark"));
    let plain = HerdrWorkspaceInfo::from_cli("wD".into(), "code".into(), Some(None));
    assert_eq!(plain.worktree_checkout_path, None);
    let pane = HerdrPaneInfo::from_cli("wD".into(), Some(String::new()), true);
    assert_eq!(pane.cwd, None);
    assert!(pane.focused);
    let agent = HerdrAgentInfo::from_cli("w9".into(), "w9:p3S".into(), "pi".into(), None, false);
    assert_eq!(agent.status, "");
}

fn agent(workspace_id: &str, pane_id: &str, focused: bool, status: &str) -> HerdrAgentInfo {
    HerdrAgentInfo {
        workspace_id: workspace_id.into(),
        pane_id: pane_id.into(),
        agent: "pi".into(),
        status: status.into(),
        focused,
    }
}

#[test]
fn agent_selection_prefers_focused_then_idle_then_first() {
    let agents = vec![
        agent("other", "wX:p1", true, "idle"),
        agent("w1", "w1:p2", false, "working"),
        agent("w1", "w1:p3", false, "IDLE"),
        agent("w1", "w1:p1", true, "working"),
    ];
    assert_eq!(select_agent_for_workspace("w1", &agents).unwrap().pane_id, "w1:p1");
    let unfocused = vec![agent("w1", "w1:p2", false, "working"), agent("w1", "w1:p3", false, "Idle")];
    assert_eq!(select_agent_for_workspace("w1", &unfocused).unwrap().pane_id, "w1:p3");
    let busy = vec![agent("w1", "w1:p2", false, "working"), agent("w1", "w1:p3", false, "working")];
    assert_eq!(select_agent_for_workspace("w1", &busy).unwrap().pane_id, "w1:p2");
    assert!(select_agent_for_workspace("w2", &busy).is_none());
}
