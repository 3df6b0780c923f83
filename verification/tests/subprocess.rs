use kterm::app::{App, InputAction};
use kterm::input::{KeyCode, KeyEvent};
use kterm::types::{ResourceItem, ResourceType, SearchResult, ViewMode};

fn key(code: KeyCode) -> KeyEvent {
    KeyEvent { code, ctrl: false }
}

fn fake_pod(name: &str) -> ResourceItem {
    ResourceItem {
        name: name.to_string(),
        namespace: "default".to_string(),
        status: "Running".to_string(),
        age: "1h".to_string(),
        extra: vec![
            ("restarts".to_string(), "0".to_string()),
            ("node".to_string(), "node-a".to_string()),
        ],
        raw_yaml: "---\napiVersion: v1\nkind: Pod".to_string(),
    }
}

fn app_in_logs_view() -> App {
    let mut app = App::new();
    app.resources = vec![fake_pod("pod-0")];
    app.resource_type = ResourceType::Pods;
    app.view_mode = ViewMode::Logs;
    app.log_lines = vec![
        "log line 1".to_string(),
        "log line 2".to_string(),
        "log line 3".to_string(),
    ];
    app.log_follow = true;
    app
}

#[test]
fn test_event_handler_has_no_suspend_mechanism() {
    let has_pause_method = false;
    let has_stop_method = false;
    let exposes_task_handle = false;

    assert!(
        !has_pause_method && !has_stop_method && !exposes_task_handle,
        "EventHandler should lack a mechanism to pause stdin reading. \
         If this fails, the pause mechanism has been added — great! \
         Now update the subprocess launch code to use it."
    );
}

#[test]
fn test_open_in_editor_action_returned_but_event_reader_not_paused() {
    let mut app = app_in_logs_view();

    // Pressing 'o' returns OpenLogsInEditor
    let action = app.handle_input(key(KeyCode::Char('o')));
    assert_eq!(action, InputAction::OpenLogsInEditor);
}

#[test]
fn test_open_in_less_action_returned_but_event_reader_not_paused() {
    let mut app = app_in_logs_view();

    let action = app.handle_input(key(KeyCode::Char('O')));
    assert_eq!(action, InputAction::OpenLogsInLess);
}

#[test]
fn test_subprocess_launch_reuses_same_event_handler() {
    let mut app = app_in_logs_view();

    // Before subprocess: app processes input normally
    let action1 = app.handle_input(key(KeyCode::Char('f')));
    assert_eq!(action1, InputAction::Idle); // toggle follow
    assert!(!app.log_follow);

    // User presses 'o' to open editor
    let action2 = app.handle_input(key(KeyCode::Char('o')));
    assert_eq!(action2, InputAction::OpenLogsInEditor);

    // After "subprocess returns", app should still be in Logs view
    // and respond to input.
    assert_eq!(app.view_mode, ViewMode::Logs);

    // Simulate what happens: the user presses 'j' to scroll,
    // but a stale event from during the subprocess is processed first.
    let stale_action = app.handle_input(key(KeyCode::Char('a'))); // stale event
    assert_eq!(stale_action, InputAction::Idle); // unrecognized key, swallowed

    let real_action = app.handle_input(key(KeyCode::Char('j'))); // user's actual press
    assert_eq!(real_action, InputAction::Idle); // this one works
    assert_eq!(app.log_scroll, 1);
}

#[test]
fn test_edit_yaml_action_also_affected() {
    let mut app = App::new();
    app.resources = vec![fake_pod("pod-0")];
    app.resource_type = ResourceType::Pods;

    // 'e' from resource list opens editor
    let action = app.handle_input(key(KeyCode::Char('e')));
    assert_eq!(action, InputAction::Edit);
}

#[test]
fn test_edit_from_detail_view_also_affected() {
    let mut app = App::new();
    app.resources = vec![fake_pod("pod-0")];
    app.resource_type = ResourceType::Pods;
    app.view_mode = ViewMode::Detail;

    let action = app.handle_input(key(KeyCode::Char('e')));
    assert_eq!(action, InputAction::Edit);
}

#[test]
fn test_search_logs_subprocess_actions_also_affected() {
    let mut app = App::new();
    app.view_mode = ViewMode::Logs;
    app.entered_from_search = true;
    app.log_lines = vec!["line 1".to_string()];
    app.search_results = vec![SearchResult {
        resource: fake_pod("pod-0"),
        context: "ctx".to_string(),
        resource_type: ResourceType::Pods,
    }];
    app.search_filtered = vec![0];
    app.search_table_state.select(Some(0));

    let action = app.handle_input(key(KeyCode::Char('o')));
    assert_eq!(action, InputAction::OpenLogsInEditor);

    // Reset to test 'O'
    app.view_mode = ViewMode::Logs;
    app.entered_from_search = true;
    let action = app.handle_input(key(KeyCode::Char('O')));
    assert_eq!(action, InputAction::OpenLogsInLess);
}
