use my_wry::runtime::{
    delivered, host_failure_message, response_delivered, send_python_response, visibility_delivered,
    HostFailure, RuntimeEvent, RuntimeState, StartPlan,
};

#[test]
fn first_request_spawns_the_runtime() {
    let mut rt: RuntimeState<u32, &str> = RuntimeState::new();
    assert!(!rt.is_running());
    assert_eq!(rt.submit(1, "a"), StartPlan::Spawn);
    assert!(rt.is_running());
    assert!(!rt.has_proxy());
}

#[test]
fn later_requests_queue_behind_a_starting_runtime() {
    let mut rt: RuntimeState<u32, &str> = RuntimeState::new();
    assert_eq!(rt.submit(1, "a"), StartPlan::Spawn);
    assert_eq!(rt.submit(2, "b"), StartPlan::Queued);
    let queued = rt.on_loop_start(9);
    assert_eq!(queued, vec![(1, "a"), (2, "b")]);
    assert!(rt.has_proxy());
    assert_eq!(rt.proxy(), Some(&9));
}

#[test]
fn live_loop_takes_requests_directly() {
    let mut rt: RuntimeState<u32, &str> = RuntimeState::new();
    rt.submit(1, "a");
    rt.on_loop_start(9);
    assert_eq!(rt.submit(3, "c"), StartPlan::Send("c"));
    assert_eq!(rt.on_loop_start(10), Vec::<(u64, &str)>::new());
}

#[test]
fn requests_during_exit_restart_the_runtime() {
    let mut rt: RuntimeState<u32, &str> = RuntimeState::new();
    rt.submit(1, "a");
    rt.on_loop_start(9);
    rt.begin_runtime_exit();
    assert!(!rt.has_proxy());
    assert_eq!(rt.submit(4, "d"), StartPlan::Queued);
    assert!(rt.on_loop_exit());
    assert!(rt.is_running());
    assert_eq!(rt.on_loop_start(11), vec![(4, "d")]);
}

#[test]
fn runtime_stops_when_nothing_waits() {
    let mut rt: RuntimeState<u32, &str> = RuntimeState::new();
    rt.submit(1, "a");
    rt.on_loop_start(9);
    rt.begin_runtime_exit();
    assert!(!rt.on_loop_exit());
    assert!(!rt.is_running());
    assert!(!rt.has_proxy());
    assert_eq!(rt.submit(2, "b"), StartPlan::Spawn);
}

#[test]
fn failed_restart_hands_back_stranded_requests() {
    let mut rt: RuntimeState<u32, &str> = RuntimeState::new();
    rt.submit(1, "a");
    rt.on_loop_start(9);
    rt.begin_runtime_exit();
    rt.submit(4, "d");
    rt.submit(5, "e");
    assert!(rt.on_loop_exit());
    assert_eq!(rt.on_restart_failed(), vec![(4, "d"), (5, "e")]);
    assert!(!rt.is_running());
    assert_eq!(rt.submit(6, "f"), StartPlan::Spawn);
}

#[test]
fn failed_spawn_drops_the_request() {
    let mut rt: RuntimeState<u32, &str> = RuntimeState::new();
    assert_eq!(rt.submit(5, "e"), StartPlan::Spawn);
    rt.spawn_failed(5);
    assert!(!rt.is_running());
    assert_eq!(rt.submit(6, "f"), StartPlan::Spawn);
    assert_eq!(rt.on_loop_start(1), vec![(6, "f")]);
}

#[test]
fn python_response_needs_a_live_loop() {
    let rt: RuntimeState<u32, &str> = RuntimeState::new();
    assert_eq!(
        send_python_response(1, "r1".to_string(), None, None, &rt),
        Err("WRY 运行时尚未运行".to_string())
    );
}

#[test]
fn python_response_carries_its_fields() {
    let mut rt: RuntimeState<u32, &str> = RuntimeState::new();
    rt.submit(1, "a");
    rt.on_loop_start(9);
    assert_eq!(
        send_python_response(1, "r1".to_string(), Some("{}".to_string()), None, &rt),
        Ok(RuntimeEvent::PythonResponse {
            app_id: 1,
            request_id: "r1".to_string(),
            result_json: Some("{}".to_string()),
            error: None,
        })
    );
}

#[test]
fn panic_text_uses_the_message_or_a_stand_in() {
    assert_eq!(my_wry::runtime::panic_text(Some("boom")), "boom");
    assert_eq!(my_wry::runtime::panic_text(None), "未知错误");
}

#[test]
fn host_failures_have_their_messages() {
    let cases = [
        (HostFailure::InstanceLock, "无法锁定应用实例状态"),
        (HostFailure::RuntimeLock, "无法锁定 WRY 运行时状态"),
        (HostFailure::WaitLock, "等待应用实例时状态锁损坏"),
        (HostFailure::RegistryLock, "无法锁定事件处理器注册表"),
        (HostFailure::QueueLock, "无法锁定待处理事件队列"),
        (HostFailure::CreateSend, "无法向 WRY 线程发送创建窗口请求"),
        (HostFailure::VisibilitySend, "无法向 WRY 线程发送窗口可见性请求"),
        (HostFailure::ResponseSend, "无法将 Python 返回值发送到 WRY 线程"),
        (HostFailure::RuntimeExited, "WRY 运行时已退出"),
        (HostFailure::ThreadSpawn("os error 11".to_string()), "无法创建 WRY 线程：os error 11"),
        (HostFailure::RestartSpawn, "旧 WRY 线程退出后无法启动新的运行时线程"),
        (HostFailure::RuntimePanic("未知错误".to_string()), "WRY 线程发生异常：未知错误"),
        (HostFailure::PendingCallsFull, "Python 主线程的 Pending Call 队列已满"),
    ];
    for (failure, text) in cases {
        assert_eq!(host_failure_message(&failure), text);
    }
}

#[test]
fn deliveries_report_lost_requests() {
    assert_eq!(visibility_delivered(true), Ok(()));
    assert_eq!(visibility_delivered(false), Err("无法向 WRY 线程发送窗口可见性请求".to_string()));
    assert_eq!(response_delivered(true), Ok(()));
    assert_eq!(response_delivered(false), Err("无法将 Python 返回值发送到 WRY 线程".to_string()));
    assert_eq!(delivered(false, HostFailure::CreateSend), Err("无法向 WRY 线程发送创建窗口请求".to_string()));
}
