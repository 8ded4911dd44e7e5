use my_wry::windows::{resolve_script, LoopAction, WindowTable};

fn table_with(ids: &[u64]) -> WindowTable {
    let mut t = WindowTable::new();
    for &id in ids {
        t.on_create(id, false);
        t.on_window_built(id, Ok(()));
    }
    t
}

#[test]
fn create_builds_the_window() {
    let t = WindowTable::new();
    let step = t.on_create(1, false);
    assert_eq!(step.actions, vec![LoopAction::BuildWindow { app_id: 1 }]);
    assert!(!step.exit);
}

#[test]
fn create_after_stop_ends_the_instance() {
    let t = WindowTable::new();
    let step = t.on_create(1, true);
    assert_eq!(step.actions, vec![LoopAction::FinishInstance { app_id: 1, error: None }]);
    assert!(step.exit);
    let t = table_with(&[2]);
    let step = t.on_create(1, true);
    assert!(!step.exit);
}

#[test]
fn built_window_is_recorded() {
    let mut t = WindowTable::new();
    let step = t.on_window_built(4, Ok(()));
    assert!(step.actions.is_empty());
    assert!(!step.exit);
    assert!(t.contains(4));
    assert_eq!(t.len(), 1);
    t.on_window_built(4, Ok(()));
    assert_eq!(t.len(), 1);
}

#[test]
fn failed_build_ends_the_instance_with_its_error() {
    let mut t = WindowTable::new();
    let step = t.on_window_built(4, Err("无法创建原生窗口：x".to_string()));
    assert_eq!(
        step.actions,
        vec![LoopAction::FinishInstance { app_id: 4, error: Some("无法创建原生窗口：x".to_string()) }]
    );
    assert!(step.exit);
    assert!(!t.contains(4));
}

#[test]
fn closing_the_last_window_exits_the_runtime() {
    let mut t = table_with(&[1]);
    let step = t.on_close(1);
    assert_eq!(step.actions, vec![LoopAction::BeginRuntimeExit, LoopAction::CloseWindow { app_id: 1 }]);
    assert!(step.exit);
    assert_eq!(t.len(), 0);
}

#[test]
fn closing_one_of_two_windows_keeps_the_loop() {
    let mut t = table_with(&[1, 2]);
    let step = t.on_close(2);
    assert_eq!(step.actions, vec![LoopAction::CloseWindow { app_id: 2 }]);
    assert!(!step.exit);
    assert!(t.contains(1));
    assert!(!t.contains(2));
}

#[test]
fn closing_an_unknown_window_does_nothing() {
    let mut t = table_with(&[1]);
    let step = t.on_close(9);
    assert!(step.actions.is_empty());
    assert!(!step.exit);
    let mut empty = WindowTable::new();
    let step = empty.on_close(9);
    assert!(step.actions.is_empty());
    assert!(step.exit);
}

#[test]
fn show_gives_focus_and_hide_does_not() {
    let t = table_with(&[1]);
    assert_eq!(
        t.on_set_visible(1, true),
        vec![LoopAction::ShowWindow { app_id: 1, visible: true, focus: true }]
    );
    assert_eq!(
        t.on_set_visible(1, false),
        vec![LoopAction::ShowWindow { app_id: 1, visible: false, focus: false }]
    );
    assert!(t.on_set_visible(2, true).is_empty());
}

#[test]
fn python_response_resolves_the_page_call() {
    let t = table_with(&[1]);
    let actions = t.on_python_response(1, "r-1".to_string(), Some("{\"ok\":true}".to_string()), None);
    assert_eq!(
        actions,
        vec![LoopAction::EvaluateScript {
            app_id: 1,
            script: "globalThis.__resolvePythonCall?.(\"r-1\", {\"ok\":true}, null);".to_string()
        }]
    );
    assert!(t.on_python_response(2, "r".to_string(), None, None).is_empty());
}

#[test]
fn resolve_script_quotes_the_error() {
    let script = resolve_script("id\"1", None, Some("bad \"x\"\n\\\u{1}\u{1f}é".to_string()));
    assert_eq!(
        script,
        "globalThis.__resolvePythonCall?.(\"id\\\"1\", null, \"bad \\\"x\\\"\\n\\\\\\u0001\\u001fé\");"
    );
}

#[test]
fn resolve_script_escapes_every_short_escape() {
    let script = resolve_script("\u{8}\t\n\u{c}\r/", None, None);
    assert_eq!(
        script,
        "globalThis.__resolvePythonCall?.(\"\\b\\t\\n\\f\\r/\", null, null);"
    );
}

#[test]
fn close_button_with_exit_handler_is_intercepted() {
    let mut t = table_with(&[1]);
    let step = t.on_close_requested(Some(1), true);
    assert_eq!(step.actions, vec![LoopAction::EnqueueExit { app_id: 1 }]);
    assert!(!step.exit);
    assert!(t.contains(1));
}

#[test]
fn close_button_without_exit_handler_closes() {
    let mut t = table_with(&[1]);
    let step = t.on_close_requested(Some(1), false);
    assert_eq!(step.actions, vec![LoopAction::BeginRuntimeExit, LoopAction::CloseWindow { app_id: 1 }]);
    assert!(step.exit);
}

#[test]
fn close_button_of_unknown_window_is_ignored() {
    let mut t = table_with(&[1, 2]);
    let step = t.on_close_requested(None, false);
    assert!(step.actions.is_empty());
    assert!(!step.exit);
    assert_eq!(t.len(), 2);
}

#[test]
fn close_button_for_stale_record_with_one_window_exits_runtime() {
    let mut t = table_with(&[1]);
    let step = t.on_close_requested(Some(5), true);
    assert_eq!(step.actions, vec![LoopAction::BeginRuntimeExit]);
    assert!(!step.exit);
    assert!(t.contains(1));
}

#[test]
fn remaining_windows_are_handed_back() {
    let t = table_with(&[3, 1, 2]);
    let mut ids = t.into_remaining();
    ids.sort();
    assert_eq!(ids, vec![1, 2, 3]);
}

#[test]
fn close_undoes_build() {
    let mut t = table_with(&[1]);
    t.on_window_built(2, Ok(()));
    t.on_close(2);
    assert_eq!(t.len(), 1);
    assert!(t.contains(1));
    assert!(!t.contains(2));
}

#[test]
fn window_title_follows_the_mode() {
    assert_eq!(my_wry::windows::window_title(my_wry::Mode::Test), "WRY 测试模式");
    assert_eq!(my_wry::windows::window_title(my_wry::Mode::Normal), "WRY 示例");
}

#[test]
fn second_close_finds_nothing() {
    let mut t = table_with(&[1, 2]);
    t.on_close(1);
    let step = t.on_close(1);
    assert!(step.actions.is_empty());
    assert_eq!(t.len(), 1);
}
