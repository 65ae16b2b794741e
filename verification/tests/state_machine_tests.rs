use nacos_console::app::{
    App, AppState, CurrentMenu, CurrentScreen, Intent, Outcome,
};
use nacos_console::error::RemoteError;
use nacos_console::keys::KeyEvent;
use nacos_console::model::{ConfigItem, NamespaceItem};

fn ns(name: &str, id: &str, desc: Option<&str>, typ: i32) -> NamespaceItem {
    NamespaceItem {
        ns_name: name.to_string(),
        ns_id: id.to_string(),
        ns_desc: desc.map(|d| d.to_string()),
        quota: 200,
        config_count: 0,
        ns_typs: typ,
    }
}

fn app_with(namespaces: Vec<NamespaceItem>) -> App {
    App {
        state: AppState::Running,
        current_screen: CurrentScreen::Main,
        current_menu: CurrentMenu::Namespace,
        config_current_tab: 0,
        config_list: Vec::new(),
        namespace_list: namespaces,
        namespace_current_line: 0,
        form: None,
        last_error: None,
    }
}

fn type_str(app: &mut App, s: &str) {
    for c in s.chars() {
        assert_eq!(app.handle_key(KeyEvent::Char(c)), None);
    }
}

#[test]
fn initial_state() {
    let app = App::new();
    assert_eq!(app.state, AppState::Running);
    assert_eq!(app.current_screen, CurrentScreen::Main);
    assert_eq!(app.current_menu, CurrentMenu::Config);
    assert_eq!(app.config_current_tab, 0);
    assert_eq!(app.namespace_current_line, 0);
    assert_eq!(app.namespace_list.len(), 3);
    assert_eq!(app.namespace_list[0].ns_name, "public");
    assert_eq!(app.namespace_list[0].ns_id, "");
    assert_eq!(app.namespace_list[1].ns_name, "cc-test");
    assert_eq!(app.namespace_list[2].ns_name, "cc-test2");
    assert_eq!(app.config_list.len(), 2);
    assert_eq!(app.config_list[0].data_id, "example-data-id");
    assert!(app.form.is_none());
    assert!(app.last_error.is_none());
}

#[test]
fn menu_selection_keys() {
    let mut app = App::new();
    assert_eq!(app.handle_key(KeyEvent::Char('2')), None);
    assert_eq!(app.current_menu, CurrentMenu::Service);
    assert_eq!(app.handle_key(KeyEvent::Char('3')), None);
    assert_eq!(app.current_menu, CurrentMenu::Namespace);
    assert_eq!(app.handle_key(KeyEvent::Char('1')), None);
    assert_eq!(app.current_menu, CurrentMenu::Config);
}

#[test]
fn navigation_stays_in_bounds() {
    let mut app = App::new();
    app.handle_key(KeyEvent::Char('3'));
    // at the top: up does not move
    app.handle_key(KeyEvent::Up);
    assert_eq!(app.namespace_current_line, 0);
    app.handle_key(KeyEvent::Down);
    assert_eq!(app.namespace_current_line, 1);
    app.handle_key(KeyEvent::Char('j'));
    assert_eq!(app.namespace_current_line, 2);
    // at the bottom of three entries: down does not move
    app.handle_key(KeyEvent::Down);
    assert_eq!(app.namespace_current_line, 2);
    app.handle_key(KeyEvent::Char('k'));
    assert_eq!(app.namespace_current_line, 1);
    assert_eq!(app.current_screen, CurrentScreen::Main);
    assert_eq!(app.state, AppState::Running);
}

#[test]
fn navigation_ignored_outside_namespace_menu() {
    let mut app = App::new();
    assert_eq!(app.current_menu, CurrentMenu::Config);
    app.handle_key(KeyEvent::Down);
    assert_eq!(app.namespace_current_line, 0);
}

#[test]
fn quit_from_main() {
    let mut app = App::new();
    assert_eq!(app.handle_key(KeyEvent::Char('q')), Some(Intent::Quit));
    assert_eq!(app.state, AppState::Quitting);
    // terminal state: nothing further is processed
    assert_eq!(app.handle_key(KeyEvent::Char('3')), None);
    assert_eq!(app.current_menu, CurrentMenu::Config);
}

#[test]
fn esc_from_add_discards_form_without_remote_call() {
    let mut app = App::new();
    app.handle_key(KeyEvent::Char('3'));
    app.handle_key(KeyEvent::Char('a'));
    assert_eq!(app.current_screen, CurrentScreen::NamespaceAdd);
    assert!(app.form.is_some());
    type_str(&mut app, "scratch");
    assert_eq!(app.handle_key(KeyEvent::Esc), None);
    assert_eq!(app.current_screen, CurrentScreen::Main);
    assert!(app.form.is_none());
    assert_eq!(app.namespace_list.len(), 3);
}

#[test]
fn esc_from_edit_discards_form_without_remote_call() {
    let mut app = App::new();
    app.handle_key(KeyEvent::Char('3'));
    app.handle_key(KeyEvent::Down);
    app.handle_key(KeyEvent::Char('e'));
    assert_eq!(app.current_screen, CurrentScreen::NamespaceEdit);
    type_str(&mut app, "-extra");
    assert_eq!(app.handle_key(KeyEvent::Esc), None);
    assert_eq!(app.current_screen, CurrentScreen::Main);
    assert!(app.form.is_none());
    assert_eq!(app.namespace_list[1].ns_name, "cc-test");
}

#[test]
fn edit_form_is_prefilled_from_selected_namespace() {
    let mut app = App::new();
    app.handle_key(KeyEvent::Char('3'));
    app.handle_key(KeyEvent::Down);
    app.handle_key(KeyEvent::Char('e'));
    let form = app.form.as_ref().unwrap();
    assert_eq!(form.field_text(0), "cc-test");
    assert_eq!(form.field_text(1), "cc-test desc");
}

#[test]
fn add_requires_namespace_menu() {
    let mut app = App::new();
    assert_eq!(app.current_menu, CurrentMenu::Config);
    app.handle_key(KeyEvent::Char('a'));
    assert_eq!(app.current_screen, CurrentScreen::Main);
    assert!(app.form.is_none());
}

#[test]
fn scenario_add_namespace() {
    // Main screen, namespace menu, list = [{name: "public", id: ""}]
    let mut app = app_with(vec![ns("public", "", None, 0)]);
    assert_eq!(app.handle_key(KeyEvent::Char('a')), None);
    assert_eq!(app.current_screen, CurrentScreen::NamespaceAdd);
    type_str(&mut app, "123");
    assert_eq!(app.handle_key(KeyEvent::Tab), None);
    type_str(&mut app, "demo");
    assert_eq!(app.handle_key(KeyEvent::Tab), None);
    let intent = app.handle_key(KeyEvent::Enter);
    assert_eq!(
        intent,
        Some(Intent::CreateNamespace {
            id: "123".to_string(),
            name: "demo".to_string(),
            desc: "".to_string(),
        })
    );
    // the screen waits for the result; nothing is appended yet
    assert_eq!(app.current_screen, CurrentScreen::NamespaceAdd);
    assert_eq!(app.namespace_list.len(), 1);
    app.apply_outcome(Outcome::CreateResult(Ok(true)));
    assert_eq!(app.current_screen, CurrentScreen::Main);
    assert!(app.form.is_none());
    assert_eq!(app.namespace_list.len(), 2);
    assert_eq!(app.namespace_list[0].ns_name, "public");
    assert_eq!(app.namespace_list[1].ns_name, "demo");
    assert_eq!(app.namespace_list[1].ns_id, "123");
    assert_eq!(app.namespace_list[1].ns_desc, None);
    assert_eq!(app.namespace_list[1].ns_typs, 2);
    assert_eq!(app.namespace_list[1].quota, 200);
    assert_eq!(app.namespace_list[1].config_count, 0);
}

#[test]
fn create_failure_keeps_screen_and_list() {
    let mut app = app_with(vec![ns("public", "", None, 0)]);
    app.handle_key(KeyEvent::Char('a'));
    type_str(&mut app, "dup");
    app.handle_key(KeyEvent::Enter);
    app.apply_outcome(Outcome::CreateResult(Err(RemoteError::Request(
        "Request failed: conflict".to_string(),
    ))));
    assert_eq!(app.current_screen, CurrentScreen::NamespaceAdd);
    assert!(app.form.is_some());
    assert_eq!(app.namespace_list.len(), 1);
    assert_eq!(
        app.last_error,
        Some(RemoteError::Request("Request failed: conflict".to_string()))
    );
}

#[test]
fn scenario_delete_declined() {
    // cursor on index 1, press d, press n
    let mut app = App::new();
    app.handle_key(KeyEvent::Char('3'));
    app.handle_key(KeyEvent::Down);
    assert_eq!(app.handle_key(KeyEvent::Char('d')), None);
    assert_eq!(app.current_screen, CurrentScreen::NamespaceDelete);
    assert_eq!(app.handle_key(KeyEvent::Char('n')), None);
    assert_eq!(app.current_screen, CurrentScreen::Main);
    assert_eq!(app.namespace_list.len(), 3);
    assert_eq!(app.namespace_list[1].ns_name, "cc-test");
}

#[test]
fn scenario_delete_fails_remotely() {
    // cursor on index 1 (namespace cc-test), press d, press y, delete fails
    let mut app = App::new();
    app.handle_key(KeyEvent::Char('3'));
    app.handle_key(KeyEvent::Down);
    app.handle_key(KeyEvent::Char('d'));
    let intent = app.handle_key(KeyEvent::Char('y'));
    assert_eq!(
        intent,
        Some(Intent::DeleteNamespace {
            id: "12a6c145-6632-4131-9f1d-a04e46d9e714".to_string(),
        })
    );
    assert_eq!(app.current_screen, CurrentScreen::Main);
    app.apply_outcome(Outcome::DeleteResult(Err(RemoteError::Request(
        "Request failed: denied".to_string(),
    ))));
    assert_eq!(app.current_screen, CurrentScreen::Main);
    assert_eq!(app.namespace_list.len(), 3);
    assert_eq!(app.namespace_list[1].ns_name, "cc-test");
    assert_eq!(
        app.last_error,
        Some(RemoteError::Request("Request failed: denied".to_string()))
    );
}

#[test]
fn delete_success_removes_entry_and_clamps_cursor() {
    let mut app = App::new();
    app.handle_key(KeyEvent::Char('3'));
    app.handle_key(KeyEvent::Down);
    app.handle_key(KeyEvent::Char('d'));
    app.handle_key(KeyEvent::Char('y'));
    app.apply_outcome(Outcome::DeleteResult(Ok(true)));
    assert_eq!(app.namespace_list.len(), 2);
    assert_eq!(app.namespace_list[0].ns_name, "public");
    assert_eq!(app.namespace_list[1].ns_name, "cc-test2");
    assert_eq!(app.namespace_current_line, 0);
}

#[test]
fn delete_last_entry_leaves_empty_list() {
    let mut app = app_with(vec![ns("only", "id-1", None, 2)]);
    app.handle_key(KeyEvent::Char('d'));
    app.handle_key(KeyEvent::Char('y'));
    app.apply_outcome(Outcome::DeleteResult(Ok(true)));
    assert_eq!(app.namespace_list.len(), 0);
    assert_eq!(app.namespace_current_line, 0);
    assert_eq!(app.config_current_tab, 0);
}

#[test]
fn scenario_config_tab_switch_fetches_fresh_list() {
    // Config menu, tab moves from namespace 0 to namespace 1
    let mut app = App::new();
    assert_eq!(app.current_menu, CurrentMenu::Config);
    assert_eq!(app.config_current_tab, 0);
    let intent = app.handle_key(KeyEvent::Tab);
    assert_eq!(app.config_current_tab, 1);
    assert_eq!(
        intent,
        Some(Intent::FetchConfigs {
            ns_id: "12a6c145-6632-4131-9f1d-a04e46d9e714".to_string(),
        })
    );
    let fresh = vec![ConfigItem {
        data_id: "app.yml".to_string(),
        group: "DEFAULT_GROUP".to_string(),
        format: "yaml".to_string(),
        content: "a: 1".to_string(),
    }];
    app.apply_outcome(Outcome::ConfigList(Ok(fresh)));
    // the fresh listing replaces, not appends to, the prior one
    assert_eq!(app.config_list.len(), 1);
    assert_eq!(app.config_list[0].data_id, "app.yml");
}

#[test]
fn config_tab_wraps_around() {
    let mut app = app_with(vec![ns("public", "", None, 0), ns("two", "id-2", None, 2)]);
    app.current_menu = CurrentMenu::Config;
    assert!(app.handle_key(KeyEvent::Tab).is_some());
    assert_eq!(app.config_current_tab, 1);
    let intent = app.handle_key(KeyEvent::Tab);
    assert_eq!(app.config_current_tab, 0);
    assert_eq!(intent, Some(Intent::FetchConfigs { ns_id: "".to_string() }));
}

#[test]
fn config_tab_single_namespace_does_not_fetch() {
    let mut app = app_with(vec![ns("public", "", None, 0)]);
    app.current_menu = CurrentMenu::Config;
    assert_eq!(app.handle_key(KeyEvent::Tab), None);
    assert_eq!(app.config_current_tab, 0);
}

#[test]
fn scenario_edit_namespace() {
    let mut app = App::new();
    app.handle_key(KeyEvent::Char('3'));
    app.handle_key(KeyEvent::Down);
    app.handle_key(KeyEvent::Char('e'));
    // clear the prefilled name and type a new one
    for _ in 0.."cc-test".len() {
        app.handle_key(KeyEvent::Backspace);
    }
    type_str(&mut app, "renamed");
    let intent = app.handle_key(KeyEvent::Enter);
    assert_eq!(
        intent,
        Some(Intent::UpdateNamespace {
            id: "12a6c145-6632-4131-9f1d-a04e46d9e714".to_string(),
            name: "renamed".to_string(),
            desc: "cc-test desc".to_string(),
        })
    );
    // nothing changes until the call succeeds
    assert_eq!(app.current_screen, CurrentScreen::NamespaceEdit);
    assert_eq!(app.namespace_list[1].ns_name, "cc-test");
    app.apply_outcome(Outcome::UpdateResult(Ok(true)));
    assert_eq!(app.current_screen, CurrentScreen::Main);
    assert_eq!(app.namespace_list[1].ns_name, "renamed");
    assert_eq!(app.namespace_list[1].ns_desc, Some("cc-test desc".to_string()));
    assert_eq!(
        app.namespace_list[1].ns_id,
        "12a6c145-6632-4131-9f1d-a04e46d9e714"
    );
}

#[test]
fn update_failure_keeps_entry() {
    let mut app = App::new();
    app.handle_key(KeyEvent::Char('3'));
    app.handle_key(KeyEvent::Char('e'));
    app.handle_key(KeyEvent::Enter);
    app.apply_outcome(Outcome::UpdateResult(Err(RemoteError::Network(
        "Network error: timed out".to_string(),
    ))));
    assert_eq!(app.current_screen, CurrentScreen::NamespaceEdit);
    assert_eq!(app.namespace_list[0].ns_name, "public");
    assert!(app.last_error.is_some());
}

#[test]
fn declined_result_changes_nothing() {
    let mut app = app_with(vec![ns("public", "", None, 0)]);
    app.handle_key(KeyEvent::Char('a'));
    app.handle_key(KeyEvent::Enter);
    app.apply_outcome(Outcome::CreateResult(Ok(false)));
    assert_eq!(app.current_screen, CurrentScreen::NamespaceAdd);
    assert_eq!(app.namespace_list.len(), 1);
    assert!(app.last_error.is_none());
}

#[test]
fn next_key_clears_error() {
    let mut app = app_with(vec![ns("public", "", None, 0)]);
    app.handle_key(KeyEvent::Char('a'));
    app.handle_key(KeyEvent::Enter);
    app.apply_outcome(Outcome::CreateResult(Err(RemoteError::Decode(
        "missing field".to_string(),
    ))));
    assert!(app.last_error.is_some());
    app.handle_key(KeyEvent::Char('x'));
    assert!(app.last_error.is_none());
}

#[test]
fn error_messages_carry_diagnostic_text() {
    assert_eq!(
        RemoteError::Network("Network error: refused".to_string()).message(),
        "Network error: refused"
    );
    assert_eq!(
        RemoteError::Request("Request failed: 403".to_string()).message(),
        "Request failed: 403"
    );
    assert_eq!(RemoteError::Decode("bad json".to_string()).message(), "bad json");
}
