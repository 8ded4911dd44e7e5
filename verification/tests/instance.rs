use my_wry::instance::{finish_instance, is_running, set_visible, stop, wait, InstanceState};
use my_wry::runtime::RuntimeEvent;
use my_wry::{reloads_modules, AppIds, Mode};

#[test]
fn new_instance_is_idle() {
    let state = InstanceState::new();
    assert!(!is_running(&state));
    assert!(!state.stop_requested());
    assert!(!state.visible());
    assert_eq!(wait(&state), Some(Ok(())));
}

#[test]
fn start_marks_running_and_visible() {
    let mut state = InstanceState::new();
    assert_eq!(state.begin_start(), Ok(()));
    assert!(is_running(&state));
    assert!(state.visible());
    assert!(!state.stop_requested());
    assert_eq!(wait(&state), None);
}

#[test]
fn second_start_is_refused() {
    let mut state = InstanceState::new();
    state.begin_start().unwrap();
    assert_eq!(
        state.begin_start(),
        Err("这个 MyWryAPP 实例已经在运行".to_string())
    );
    assert!(is_running(&state));
}

#[test]
fn stop_on_idle_instance_does_nothing() {
    let mut state = InstanceState::new();
    assert_eq!(stop::<u8>(7, &mut state), None);
    assert!(!state.stop_requested());
    assert!(!is_running(&state));
}

#[test]
fn stop_is_safe_to_repeat() {
    let mut state = InstanceState::new();
    state.begin_start().unwrap();
    assert_eq!(stop::<u8>(7, &mut state), Some(RuntimeEvent::Close { app_id: 7 }));
    assert!(state.stop_requested());
    assert_eq!(stop::<u8>(7, &mut state), Some(RuntimeEvent::Close { app_id: 7 }));
    assert!(state.stop_requested());
    assert!(is_running(&state));
}

#[test]
fn hide_and_show_keep_the_instance_running() {
    let mut state = InstanceState::new();
    state.begin_start().unwrap();
    assert_eq!(
        set_visible::<u8>(3, &mut state, false),
        Ok(RuntimeEvent::SetVisible { app_id: 3, visible: false })
    );
    assert!(!state.visible());
    assert!(is_running(&state));
    assert_eq!(
        set_visible::<u8>(3, &mut state, true),
        Ok(RuntimeEvent::SetVisible { app_id: 3, visible: true })
    );
    assert!(state.visible());
}

#[test]
fn visibility_of_idle_instance_is_refused() {
    let mut state = InstanceState::new();
    assert_eq!(
        set_visible::<u8>(3, &mut state, true),
        Err("这个 MyWryAPP 实例尚未运行".to_string())
    );
    assert!(!state.visible());
}

#[test]
fn wait_reports_the_error_a_run_ended_with() {
    let mut state = InstanceState::new();
    state.begin_start().unwrap();
    stop::<u8>(1, &mut state);
    finish_instance(&mut state, Some("WRY 运行时已退出".to_string()));
    assert!(!is_running(&state));
    assert!(!state.stop_requested());
    assert_eq!(wait(&state), Some(Err("WRY 运行时已退出".to_string())));
}

#[test]
fn wait_reports_a_clean_end() {
    let mut state = InstanceState::new();
    state.begin_start().unwrap();
    finish_instance(&mut state, None);
    assert_eq!(wait(&state), Some(Ok(())));
}

#[test]
fn restart_after_finish_forgets_the_old_error() {
    let mut state = InstanceState::new();
    state.begin_start().unwrap();
    finish_instance(&mut state, Some("boom".to_string()));
    assert_eq!(state.begin_start(), Ok(()));
    assert_eq!(wait(&state), None);
    finish_instance(&mut state, None);
    assert_eq!(wait(&state), Some(Ok(())));
}

#[test]
fn app_ids_count_up_from_one() {
    let mut ids = AppIds::new();
    assert_eq!(ids.next_app_id(), 1);
    assert_eq!(ids.next_app_id(), 2);
    assert_eq!(ids.next_app_id(), 3);
}

#[test]
fn only_test_mode_reloads_modules() {
    assert!(reloads_modules(Mode::Test));
    assert!(!reloads_modules(Mode::Normal));
}
