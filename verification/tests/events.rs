use my_wry::events::{
    check_reload_module, decorator, dispatch_reply, emit, enqueue, enqueue_action, failure_message,
    check_callable, reloaded_not_callable, DispatchFailure, HandlerRegistry, PendingEvents, PythonReply,
    RawEvent, EXIT_ACTION,
};

fn page_event(action: &str, request_id: Option<&str>) -> RawEvent<u32> {
    RawEvent {
        request_id: request_id.map(|s| s.to_string()),
        action: action.to_string(),
        element_id: Some("btn".to_string()),
        value: Some("v".to_string()),
        data: 42,
    }
}

#[test]
fn decorator_trims_the_action() {
    assert_eq!(decorator("  click \n"), Ok("click".to_string()));
    assert_eq!(decorator("\u{3000}保存\u{a0}"), Ok("保存".to_string()));
}

#[test]
fn decorator_refuses_a_blank_action() {
    assert_eq!(decorator(" \t\r\n"), Err("action 不能为空".to_string()));
    assert_eq!(decorator(""), Err("action 不能为空".to_string()));
}

#[test]
fn emit_builds_a_bare_event() {
    let ev = emit(" refresh ", 0u8).unwrap();
    assert_eq!(ev.action, "refresh");
    assert_eq!(ev.request_id, None);
    assert_eq!(ev.element_id, None);
    assert_eq!(ev.value, None);
    assert_eq!(ev.data, 0);
    assert_eq!(emit("\u{2003}", 0u8), Err("action 不能为空".to_string()));
}

#[test]
fn enqueue_action_keeps_the_name() {
    let ev = enqueue_action(EXIT_ACTION, ());
    assert_eq!(ev.action, "exit");
    assert_eq!(ev.request_id, None);
}

#[test]
fn enqueue_reports_bad_json() {
    let r: Result<RawEvent<u32>, String> = enqueue(Err("expected value at line 1".to_string()));
    assert_eq!(r, Err("无法解析 HTML 事件 JSON：expected value at line 1".to_string()));
}

#[test]
fn enqueue_trims_and_keeps_the_rest() {
    let r = enqueue(Ok(page_event(" test ", Some("r1")))).unwrap();
    assert_eq!(r, page_event("test", Some("r1")));
}

#[test]
fn enqueue_refuses_a_blank_action() {
    assert_eq!(enqueue(Ok(page_event("   ", None))), Err("HTML 事件 action 不能为空".to_string()));
}

#[test]
fn queue_schedules_once_per_burst() {
    let mut q: PendingEvents<u32> = PendingEvents::new();
    assert!(q.push(1));
    assert!(!q.push(2));
    assert!(!q.push(3));
    assert_eq!(q.take_batch(), Some(vec![1, 2, 3]));
    assert!(!q.push(4));
    assert_eq!(q.take_batch(), Some(vec![4]));
    assert_eq!(q.take_batch(), None);
    assert!(q.push(5));
}

#[test]
fn failed_scheduling_lets_the_next_event_schedule() {
    let mut q: PendingEvents<u32> = PendingEvents::new();
    assert!(q.push(1));
    q.unschedule();
    assert!(q.push(2));
    assert_eq!(q.take_batch(), Some(vec![1, 2]));
}

#[test]
fn clear_drops_queued_events() {
    let mut q: PendingEvents<u32> = PendingEvents::new();
    q.push(1);
    q.clear();
    assert!(!q.push(2));
    assert_eq!(q.take_batch(), Some(vec![2]));
}

#[test]
fn registry_lists_actions_sorted() {
    let mut r: HandlerRegistry<u32> = HandlerRegistry::new();
    r.insert("save", 1);
    r.insert("exit", 2);
    r.insert("open", 3);
    r.insert("Save", 4);
    r.insert("é", 5);
    r.insert("sa", 6);
    assert_eq!(
        r.registered_actions(),
        vec!["Save", "exit", "open", "sa", "save", "é"]
    );
}

#[test]
fn registry_replaces_and_finds_handlers() {
    let mut r: HandlerRegistry<u32> = HandlerRegistry::new();
    assert!(!r.has_handler("test"));
    assert_eq!(r.get("test"), None);
    r.insert("test", 1);
    r.insert("test", 2);
    assert!(r.has_handler("test"));
    assert_eq!(r.get("test"), Some(&2));
    assert_eq!(r.registered_actions(), vec!["test"]);
    assert!(!r.has_handler("tes"));
}

#[test]
fn registry_clear_forgets_everything() {
    let mut r: HandlerRegistry<u32> = HandlerRegistry::new();
    r.insert("a", 1);
    r.insert(EXIT_ACTION, 2);
    r.clear();
    assert!(!r.has_handler(EXIT_ACTION));
    assert!(r.registered_actions().is_empty());
}

#[test]
fn only_callables_are_registered() {
    assert_eq!(check_callable(false), Err("装饰器只能用于可调用对象".to_string()));
    assert_eq!(check_callable(true), Ok(()));
}

#[test]
fn failure_messages_name_the_step() {
    assert_eq!(failure_message("go", &DispatchFailure::Lookup("x".into())), "读取 Python 回调失败：x");
    assert_eq!(failure_message("go", &DispatchFailure::Unregistered), "未注册 Python action：go");
    assert_eq!(failure_message("go", &DispatchFailure::Reload("x".into())), "重新加载 Python 模块失败：x");
    assert_eq!(failure_message("go", &DispatchFailure::Data("x".into())), "无法转换事件数据：x");
    assert_eq!(failure_message("go", &DispatchFailure::EventCreate("x".into())), "无法创建 Python Event：x");
    assert_eq!(failure_message("go", &DispatchFailure::Call("x".into())), "Python 回调执行失败：x");
    assert_eq!(
        failure_message("go", &DispatchFailure::Serialize("x".into())),
        "Python 返回值无法序列化为 JSON：x"
    );
}

#[test]
fn replies_go_only_to_requests() {
    assert_eq!(dispatch_reply(None, "go", Ok("1".to_string())), None);
    assert_eq!(dispatch_reply(None, "go", Err(DispatchFailure::Unregistered)), None);
}

#[test]
fn reply_carries_result_or_error() {
    assert_eq!(
        dispatch_reply(Some("r".to_string()), "go", Ok("{\"a\":1}".to_string())),
        Some(PythonReply { request_id: "r".to_string(), result_json: Some("{\"a\":1}".to_string()), error: None })
    );
    assert_eq!(
        dispatch_reply(Some("r".to_string()), "go", Err(DispatchFailure::Call("ZeroDivisionError".into()))),
        Some(PythonReply {
            request_id: "r".to_string(),
            result_json: None,
            error: Some("Python 回调执行失败：ZeroDivisionError".to_string())
        })
    );
}

#[test]
fn main_module_cannot_be_reloaded() {
    assert_eq!(
        check_reload_module("__main__"),
        Err("测试模式回调必须定义在可导入的独立模块中，不能定义在 __main__".to_string())
    );
    assert_eq!(check_reload_module("test"), Ok(()));
    assert_eq!(check_reload_module("__main__x"), Ok(()));
}

#[test]
fn reloaded_not_callable_names_the_function() {
    assert_eq!(reloaded_not_callable("test", "handler"), "重载后的 `test.handler` 不可调用");
}
