use kterm::app::{App, InputAction};
use kterm::input::{KeyCode, KeyEvent};
use kterm::types::{ConfirmAction, Focus, ResourceItem, ResourceType, ViewMode};

fn key(code: KeyCode) -> KeyEvent {
    KeyEvent { code, ctrl: false }
}

fn ctrl_key(code: KeyCode) -> KeyEvent {
    KeyEvent { code, ctrl: true }
}

fn fake_pod(name: &str, status: &str) -> ResourceItem {
    ResourceItem {
        name: name.to_string(),
        namespace: "default".to_string(),
        status: status.to_string(),
        age: "1h".to_string(),
        extra: vec![
            ("restarts".to_string(), "0".to_string()),
            ("node".to_string(), "node-a".to_string()),
        ],
        raw_yaml: "---\napiVersion: v1\nkind: Pod".to_string(),
    }
}

fn app_with_pods() -> App {
    let mut app = App::new();
    app.resources = vec![
        fake_pod("pod-0", "Running"),
        fake_pod("pod-1", "Pending"),
        fake_pod("pod-2", "Running"),
    ];
    app
}

#[test]
fn test_quit_with_q() {
    let mut app = App::new();
    app.focus = Focus::ResourceList;
    app.handle_input(key(KeyCode::Char('q')));
    assert!(app.should_quit);
}

#[test]
fn test_quit_with_ctrl_c() {
    let mut app = App::new();
    app.handle_input(ctrl_key(KeyCode::Char('c')));
    assert!(app.should_quit);
}

#[test]
fn test_navigate_down_j() {
    let mut app = app_with_pods();
    assert_eq!(app.table_state.selected(), Some(0));

    app.handle_input(key(KeyCode::Char('j')));
    assert_eq!(app.table_state.selected(), Some(1));

    app.handle_input(key(KeyCode::Char('j')));
    assert_eq!(app.table_state.selected(), Some(2));

    // Wrap around
    app.handle_input(key(KeyCode::Char('j')));
    assert_eq!(app.table_state.selected(), Some(0));
}

#[test]
fn test_navigate_up_k() {
    let mut app = app_with_pods();
    assert_eq!(app.table_state.selected(), Some(0));

    // Wrap to end
    app.handle_input(key(KeyCode::Char('k')));
    assert_eq!(app.table_state.selected(), Some(2));

    app.handle_input(key(KeyCode::Char('k')));
    assert_eq!(app.table_state.selected(), Some(1));
}

#[test]
fn test_navigate_with_arrow_keys() {
    let mut app = app_with_pods();
    app.handle_input(key(KeyCode::Down));
    assert_eq!(app.table_state.selected(), Some(1));

    app.handle_input(key(KeyCode::Up));
    assert_eq!(app.table_state.selected(), Some(0));
}

#[test]
fn test_tab_cycles_focus() {
    let mut app = App::new();
    assert_eq!(app.focus, Focus::ResourceList);

    app.handle_input(key(KeyCode::Tab));
    assert_eq!(app.focus, Focus::ContextSelector);

    app.handle_input(key(KeyCode::Tab));
    assert_eq!(app.focus, Focus::NamespaceSelector);

    app.handle_input(key(KeyCode::Tab));
    assert_eq!(app.focus, Focus::ResourceTypeSelector);

    app.handle_input(key(KeyCode::Tab));
    assert_eq!(app.focus, Focus::ResourceList);
}

#[test]
fn test_backtab_reverse_cycles_focus() {
    let mut app = App::new();
    assert_eq!(app.focus, Focus::ResourceList);

    app.handle_input(key(KeyCode::BackTab));
    assert_eq!(app.focus, Focus::ResourceTypeSelector);

    app.handle_input(key(KeyCode::BackTab));
    assert_eq!(app.focus, Focus::NamespaceSelector);
}

#[test]
fn test_context_selector_h_l() {
    let mut app = App::new();
    app.contexts = vec![
        "ctx-1".to_string(),
        "ctx-2".to_string(),
        "ctx-3".to_string(),
    ];
    app.selected_context = 0;
    app.focus = Focus::ContextSelector;

    let action = app.handle_input(key(KeyCode::Char('l')));
    assert_eq!(action, InputAction::ContextChanged);
    assert_eq!(app.selected_context, 1);

    let action = app.handle_input(key(KeyCode::Char('l')));
    assert_eq!(action, InputAction::ContextChanged);
    assert_eq!(app.selected_context, 2);

    // Wrap
    let action = app.handle_input(key(KeyCode::Char('l')));
    assert_eq!(action, InputAction::ContextChanged);
    assert_eq!(app.selected_context, 0);

    // Go back with h
    let action = app.handle_input(key(KeyCode::Char('h')));
    assert_eq!(action, InputAction::ContextChanged);
    assert_eq!(app.selected_context, 2);
}

#[test]
fn test_namespace_selector() {
    let mut app = App::new();
    app.namespaces = vec!["default".to_string(), "kube-system".to_string()];
    app.selected_namespace = 0;
    app.focus = Focus::NamespaceSelector;

    let action = app.handle_input(key(KeyCode::Right));
    assert_eq!(action, InputAction::NamespaceChanged);
    assert_eq!(app.selected_namespace, 1);

    let action = app.handle_input(key(KeyCode::Right));
    assert_eq!(action, InputAction::NamespaceChanged);
    assert_eq!(app.selected_namespace, 0);
}

#[test]
fn test_resource_type_selector() {
    let mut app = App::new();
    app.focus = Focus::ResourceTypeSelector;
    assert_eq!(app.resource_type, ResourceType::Pods);

    let action = app.handle_input(key(KeyCode::Char('l')));
    assert_eq!(action, InputAction::ResourceTypeChanged);
    assert_eq!(app.resource_type, ResourceType::PersistentVolumeClaims);

    let action = app.handle_input(key(KeyCode::Char('l')));
    assert_eq!(action, InputAction::ResourceTypeChanged);
    assert_eq!(app.resource_type, ResourceType::StatefulSets);

    let action = app.handle_input(key(KeyCode::Char('h')));
    assert_eq!(action, InputAction::ResourceTypeChanged);
    assert_eq!(app.resource_type, ResourceType::PersistentVolumeClaims);
}

#[test]
fn test_enter_detail_view() {
    let mut app = app_with_pods();
    let action = app.handle_input(key(KeyCode::Enter));
    assert_eq!(action, InputAction::Describe);
    assert_eq!(app.view_mode, ViewMode::Detail);
}

#[test]
fn test_enter_on_empty_list_does_nothing() {
    let mut app = App::new();
    let action = app.handle_input(key(KeyCode::Enter));
    assert_eq!(action, InputAction::Idle);
    assert_eq!(app.view_mode, ViewMode::List);
}

#[test]
fn test_esc_from_detail_returns_to_list() {
    let mut app = app_with_pods();
    app.view_mode = ViewMode::Detail;

    let action = app.handle_input(key(KeyCode::Esc));
    assert_eq!(action, InputAction::Idle);
    assert_eq!(app.view_mode, ViewMode::List);
}

#[test]
fn test_detail_scroll() {
    let mut app = app_with_pods();
    app.view_mode = ViewMode::Detail;
    app.detail_text = "line1\nline2\nline3\nline4\nline5\nline6\nline7\nline8\nline9\nline10\nline11\nline12\nline13\nline14\nline15".to_string();

    assert_eq!(app.detail_scroll, 0);
    app.handle_input(key(KeyCode::Char('j')));
    assert_eq!(app.detail_scroll, 1);

    app.handle_input(key(KeyCode::Char('k')));
    assert_eq!(app.detail_scroll, 0);

    // Can't scroll past 0
    app.handle_input(key(KeyCode::Char('k')));
    assert_eq!(app.detail_scroll, 0);

    // Jump to bottom
    app.handle_input(key(KeyCode::Char('G')));
    assert!(app.detail_scroll > 0);

    // Jump to top
    app.handle_input(key(KeyCode::Char('g')));
    assert_eq!(app.detail_scroll, 0);
}

#[test]
fn test_detail_bottom_jump_leaves_last_window_visible() {
    let mut app = app_with_pods();
    app.view_mode = ViewMode::Detail;
    // 15 lines with a visible window of 10 leaves a scroll offset of 5.
    app.detail_text = "line1\nline2\nline3\nline4\nline5\nline6\nline7\nline8\nline9\nline10\nline11\nline12\nline13\nline14\nline15".to_string();
    app.handle_input(key(KeyCode::Char('G')));
    assert_eq!(app.detail_scroll, 5);
}

#[test]
fn test_logs_view_for_pods() {
    let mut app = app_with_pods();
    let action = app.handle_input(key(KeyCode::Char('l')));
    assert_eq!(action, InputAction::StreamLogs);
    assert_eq!(app.view_mode, ViewMode::Logs);
    assert!(app.log_follow);
}

#[test]
fn test_logs_not_available_for_pvcs() {
    let mut app = app_with_pods();
    app.resource_type = ResourceType::PersistentVolumeClaims;
    let action = app.handle_input(key(KeyCode::Char('l')));
    assert_eq!(action, InputAction::Idle);
    assert_eq!(app.view_mode, ViewMode::List);
}

#[test]
fn test_logs_follow_toggle() {
    let mut app = app_with_pods();
    app.view_mode = ViewMode::Logs;
    assert!(app.log_follow);

    app.handle_input(key(KeyCode::Char('f')));
    assert!(!app.log_follow);

    app.handle_input(key(KeyCode::Char('f')));
    assert!(app.log_follow);
}

#[test]
fn test_esc_from_logs_stops_stream() {
    let mut app = app_with_pods();
    app.view_mode = ViewMode::Logs;

    let action = app.handle_input(key(KeyCode::Esc));
    assert_eq!(action, InputAction::StopLogs);
    assert_eq!(app.view_mode, ViewMode::List);
}

#[test]
fn test_delete_confirm_flow() {
    let mut app = app_with_pods();

    // Press d -> should open confirm
    let action = app.handle_input(key(KeyCode::Char('d')));
    assert_eq!(action, InputAction::Idle);
    assert_eq!(app.view_mode, ViewMode::Confirm(ConfirmAction::Delete));

    // Press y -> confirm
    let action = app.handle_input(key(KeyCode::Char('y')));
    assert_eq!(action, InputAction::Delete);
    assert_eq!(app.view_mode, ViewMode::List);
}

#[test]
fn test_delete_cancel_flow() {
    let mut app = app_with_pods();

    app.handle_input(key(KeyCode::Char('d')));
    assert_eq!(app.view_mode, ViewMode::Confirm(ConfirmAction::Delete));

    // Press n -> cancel
    let action = app.handle_input(key(KeyCode::Char('n')));
    assert_eq!(action, InputAction::Idle);
    assert_eq!(app.view_mode, ViewMode::List);
}

#[test]
fn test_restart_confirm_flow() {
    let mut app = app_with_pods();

    app.handle_input(key(KeyCode::Char('r')));
    assert_eq!(app.view_mode, ViewMode::Confirm(ConfirmAction::Restart));

    let action = app.handle_input(key(KeyCode::Char('y')));
    assert_eq!(action, InputAction::Restart);
    assert_eq!(app.view_mode, ViewMode::List);
}

#[test]
fn test_edit_action() {
    let mut app = app_with_pods();
    let action = app.handle_input(key(KeyCode::Char('e')));
    assert_eq!(action, InputAction::Edit);
}

#[test]
fn test_filter_mode() {
    let mut app = app_with_pods();

    // Enter filter mode
    app.handle_input(key(KeyCode::Char('/')));
    assert!(app.filter_active);
    assert!(app.filter.is_empty());

    // Type filter text
    app.handle_input(key(KeyCode::Char('p')));
    app.handle_input(key(KeyCode::Char('o')));
    app.handle_input(key(KeyCode::Char('d')));
    assert_eq!(app.filter, "pod");

    // Backspace
    app.handle_input(key(KeyCode::Backspace));
    assert_eq!(app.filter, "po");

    // Apply filter with enter
    app.handle_input(key(KeyCode::Enter));
    assert!(!app.filter_active);
    assert_eq!(app.filter, "po");
}

#[test]
fn test_filter_esc_cancels() {
    let mut app = app_with_pods();
    app.handle_input(key(KeyCode::Char('/')));
    app.handle_input(key(KeyCode::Char('x')));
    app.handle_input(key(KeyCode::Esc));
    assert!(!app.filter_active);
}

#[test]
fn test_filtered_resources() {
    let mut app = app_with_pods();
    assert_eq!(app.filtered_resources().len(), 3);

    app.filter = "pod-0".to_string();
    assert_eq!(app.filtered_resources().len(), 1);
    assert_eq!(app.filtered_resources()[0].name, "pod-0");

    app.filter = "nonexistent".to_string();
    assert_eq!(app.filtered_resources().len(), 0);
}

#[test]
fn test_error_auto_dismiss() {
    let mut app = App::new();
    app.set_error("test error".to_string());
    assert!(app.error_message.is_some());

    // Tick 20 times (should not dismiss yet)
    for _ in 0..20 {
        app.handle_tick();
    }
    assert!(app.error_message.is_some());

    // One more tick should dismiss
    app.handle_tick();
    assert!(app.error_message.is_none());
}

#[test]
fn test_detail_view_actions() {
    let mut app = app_with_pods();
    app.view_mode = ViewMode::Detail;

    // Delete from detail
    app.handle_input(key(KeyCode::Char('d')));
    assert_eq!(app.view_mode, ViewMode::Confirm(ConfirmAction::Delete));
    app.view_mode = ViewMode::Detail;

    // Restart from detail
    app.handle_input(key(KeyCode::Char('r')));
    assert_eq!(app.view_mode, ViewMode::Confirm(ConfirmAction::Restart));
    app.view_mode = ViewMode::Detail;

    // Logs from detail
    let action = app.handle_input(key(KeyCode::Char('l')));
    assert_eq!(action, InputAction::StreamLogs);
    assert_eq!(app.view_mode, ViewMode::Logs);
}

#[test]
fn test_navigate_empty_list() {
    let mut app = App::new();
    // Should not panic on empty list
    app.handle_input(key(KeyCode::Char('j')));
    app.handle_input(key(KeyCode::Char('k')));
    assert_eq!(app.table_state.selected(), Some(0));
}

#[test]
fn test_q_from_detail_goes_back() {
    let mut app = app_with_pods();
    app.view_mode = ViewMode::Detail;
    app.handle_input(key(KeyCode::Char('q')));
    assert_eq!(app.view_mode, ViewMode::List);
    assert!(!app.should_quit);
}

#[test]
fn test_single_entry_selector_emits_no_action() {
    // A wrap that lands on the same value must not restart subscriptions.
    let mut app = App::new();
    app.contexts = vec!["only-ctx".to_string()];
    app.selected_context = 0;
    app.focus = Focus::ContextSelector;

    let action = app.handle_input(key(KeyCode::Char('l')));
    assert_eq!(action, InputAction::Idle);
    assert_eq!(app.selected_context, 0);
}

#[test]
fn test_dropdown_typing_filters_and_enter_confirms() {
    let mut app = App::new();
    app.contexts = vec![
        "prod-cluster".to_string(),
        "staging-cluster".to_string(),
        "dev-box".to_string(),
    ];
    app.selected_context = 0;

    // Tab from the resource list opens the context selector's dropdown.
    app.handle_input(key(KeyCode::Tab));
    assert_eq!(app.focus, Focus::ContextSelector);
    assert!(app.dropdown_query.is_empty());
    assert_eq!(app.dropdown_filtered.len(), 3);

    // Typing narrows the dropdown to the matching entries.
    app.handle_input(key(KeyCode::Char('s')));
    app.handle_input(key(KeyCode::Char('t')));
    app.handle_input(key(KeyCode::Char('a')));
    assert_eq!(app.dropdown_query, "sta");
    assert_eq!(app.dropdown_filtered, vec![1]);

    // Enter confirms the highlighted entry, emits the change, and advances
    // focus to the next selector.
    let action = app.handle_input(key(KeyCode::Enter));
    assert_eq!(action, InputAction::ContextChanged);
    assert_eq!(app.selected_context, 1);
    assert_eq!(app.focus, Focus::NamespaceSelector);
    assert!(app.dropdown_query.is_empty());
}

#[test]
fn test_dropdown_confirm_same_value_emits_no_action() {
    let mut app = App::new();
    app.contexts = vec!["only".to_string()];
    app.selected_context = 0;
    app.handle_input(key(KeyCode::Tab));
    assert_eq!(app.focus, Focus::ContextSelector);

    let action = app.handle_input(key(KeyCode::Enter));
    assert_eq!(action, InputAction::Idle);
    assert_eq!(app.selected_context, 0);
    assert_eq!(app.focus, Focus::NamespaceSelector);
}

#[test]
fn test_dropdown_arrows_move_highlight_with_wrap() {
    let mut app = App::new();
    app.namespaces = vec!["a".to_string(), "b".to_string()];
    app.focus = Focus::NamespaceSelector;
    app.dropdown_open();
    assert_eq!(app.dropdown_filtered.len(), 2);
    assert_eq!(app.dropdown_selected, 0);

    app.handle_input(key(KeyCode::Down));
    assert_eq!(app.dropdown_selected, 1);
    app.handle_input(key(KeyCode::Down));
    assert_eq!(app.dropdown_selected, 0);
    app.handle_input(key(KeyCode::Up));
    assert_eq!(app.dropdown_selected, 1);
}

#[test]
fn test_esc_from_selector_returns_to_list() {
    let mut app = App::new();
    app.focus = Focus::ContextSelector;
    app.handle_input(key(KeyCode::Esc));
    assert_eq!(app.focus, Focus::ResourceList);
}
