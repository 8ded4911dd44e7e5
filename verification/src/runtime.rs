//! The shared runtime thread that owns every window: whether it runs, the
//! handle through which requests reach its event loop, and the window
//! requests that wait for it to come up.

use vstd::prelude::*;
use crate::text::joined;

verus! {

/// A request to the event loop of the runtime.
#[derive(Debug, PartialEq, Eq)]
pub enum RuntimeEvent<C> {
    /// Open the window of an instance, as `C` describes it.
    Create(C),
    /// Close the window of an instance.
    Close { app_id: u64 },
    /// Show or hide the window of an instance.
    SetVisible { app_id: u64, visible: bool },
    /// Hand the answer of a Python handler back to the page.
    PythonResponse {
        app_id: u64,
        request_id: String,
        result_json: Option<String>,
        error: Option<String>,
    },
}

/// The runtime, with `P` the handle into its event loop and `C` the
/// description of a window to open.
pub struct RuntimeState<P, C> {
    running: bool,
    proxy: Option<P>,
    pending: Vec<(u64, C)>,
}

/// What a runtime is, as values.
pub struct RuntimeView<P, C> {
    pub running: bool,
    pub proxy: Option<P>,
    pub pending: Seq<(u64, C)>,
}

/// What to do with a window request once the instance is marked started.
#[derive(Debug, PartialEq, Eq)]
pub enum StartPlan<C> {
    /// The event loop is up: send it the request (given back here).
    Send(C),
    /// The request waits for a runtime thread that is already starting.
    Queued,
    /// The request waits, and a runtime thread has to be spawned for it.
    Spawn,
}

impl<P, C> View for RuntimeState<P, C> {
    type V = RuntimeView<P, C>;

    closed spec fn view(&self) -> RuntimeView<P, C> {
        RuntimeView { running: self.running, proxy: self.proxy, pending: self.pending@ }
    }
}

/// The runtime's invariant: while its event loop accepts requests, no request
/// waits in the queue; and whenever a request waits, a runtime thread runs or
/// is being started to take it.
pub open spec fn runtime_wf<P, C>(v: RuntimeView<P, C>) -> bool {
    &&& v.proxy is Some ==> v.running && v.pending.len() == 0
    &&& v.pending.len() > 0 ==> v.running
}

/// The runtime after the window request `config` of instance `id` is
/// submitted: a live event loop takes it directly and nothing changes here;
/// otherwise it joins the queue and a runtime thread runs (or is spawned).
pub open spec fn after_submit<P, C>(v: RuntimeView<P, C>, id: u64, config: C) -> RuntimeView<P, C> {
    if v.proxy is Some {
        v
    } else {
        RuntimeView { running: true, proxy: None, pending: v.pending.push((id, config)) }
    }
}

/// The message of a Python answer when no event loop accepts requests.
pub open spec fn runtime_down_message() -> Seq<char> {
    "WRY 运行时尚未运行"@
}

impl<P, C> RuntimeState<P, C> {
    /// A runtime that has never run.
    pub fn new() -> (rt: Self)
        ensures
            rt@.running == false,
            rt@.proxy is None,
            rt@.pending.len() == 0,
            runtime_wf(rt@),
    {
        RuntimeState { running: false, proxy: None, pending: Vec::new() }
    }

    /// The handle into the event loop, while it accepts requests.
    pub fn proxy(&self) -> (p: Option<&P>)
        ensures
            p matches Some(q) ==> self@.proxy == Some(*q),
            p is None <==> self@.proxy is None,
    {
        match &self.proxy {
            Some(q) => Some(q),
            None => None,
        }
    }

    /// Whether the event loop accepts requests.
    pub fn has_proxy(&self) -> (b: bool)
        ensures
            b == self@.proxy is Some,
    {
        self.proxy.is_some()
    }

    /// Whether a runtime thread runs or is being started.
    pub fn is_running(&self) -> (b: bool)
        ensures
            b == self@.running,
    {
        self.running
    }

    /// Decides where the window request of instance `id` goes: straight to a
    /// live event loop, or into the queue, spawning a runtime thread when none
    /// runs yet.
    pub fn submit(&mut self, id: u64, config: C) -> (plan: StartPlan<C>)
        requires
            runtime_wf(old(self)@),
        ensures
            runtime_wf(final(self)@),
            final(self)@ == after_submit(old(self)@, id, config),
            old(self)@.proxy is Some ==> plan == StartPlan::Send(config),
            old(self)@.proxy is None && old(self)@.running ==> plan is Queued,
            old(self)@.proxy is None && !old(self)@.running ==> plan is Spawn,
    {
        if self.proxy.is_some() {
            return StartPlan::Send(config);
        }
        self.pending.push((id, config));
        if self.running {
            return StartPlan::Queued;
        }
        self.running = true;
        StartPlan::Spawn
    }

    /// The runtime thread for instance `id` could not be spawned: the runtime
    /// is marked stopped and the requests of `id` leave the queue, the others
    /// keeping their order. The runtime's invariant holds again exactly when
    /// no other request is left (as after a `Spawn` plan, see
    /// `law_failed_spawn_leaves_nothing_queued`).
    pub fn spawn_failed(&mut self, id: u64)
        requires
            runtime_wf(old(self)@),
            old(self)@.proxy is None,
        ensures
            !final(self)@.running,
            final(self)@.proxy is None,
            final(self)@.pending == old(self)@.pending.filter(|e: (u64, C)| e.0 != id),
            runtime_wf(final(self)@) <==> final(self)@.pending.len() == 0,
    {
        let ghost old_pending = self.pending@;
        let mut taken: Vec<(u64, C)> = Vec::new();
        std::mem::swap(&mut taken, &mut self.pending);
        let mut kept: Vec<(u64, C)> = Vec::new();
        let n = taken.len();
        let mut i: usize = 0;
        while i < n
            invariant
                n == old_pending.len(),
                0 <= i <= n,
                taken@ == old_pending.subrange(i as int, n as int),
                kept@ == old_pending.subrange(0, i as int).filter(|e: (u64, C)| e.0 != id),
            decreases n - i,
        {
            let e = taken.remove(0);
            proof {
                assert(old_pending.subrange(0, i + 1) =~= old_pending.subrange(0, i as int).push(
                    e,
                ));
                old_pending.subrange(0, i as int).lemma_filter_push(e, |e: (u64, C)| e.0 != id);
                assert(taken@ =~= old_pending.subrange(i + 1, n as int));
            }
            if e.0 != id {
                kept.push(e);
            }
            i = i + 1;
        }
        assert(old_pending.subrange(0, n as int) =~= old_pending);
        self.pending = kept;
        self.running = false;
    }

    /// The event loop came up with handle `proxy`: it now accepts requests,
    /// and the waiting requests are handed over in the order they came.
    pub fn on_loop_start(&mut self, proxy: P) -> (queued: Vec<(u64, C)>)
        requires
            runtime_wf(old(self)@),
            old(self)@.running,
        ensures
            runtime_wf(final(self)@),
            queued@ == old(self)@.pending,
            final(self)@.pending.len() == 0,
            final(self)@.proxy == Some(proxy),
            final(self)@.running,
    {
        let mut queued: Vec<(u64, C)> = Vec::new();
        std::mem::swap(&mut queued, &mut self.pending);
        self.proxy = Some(proxy);
        queued
    }

    /// The event loop stops accepting requests, as it does when its last
    /// window is about to close.
    pub fn begin_runtime_exit(&mut self)
        requires
            runtime_wf(old(self)@),
        ensures
            runtime_wf(final(self)@),
            final(self)@ == (RuntimeView { proxy: None, ..old(self)@ }),
    {
        self.proxy = None;
    }

    /// The event loop has ended. Returns whether a new runtime thread must be
    /// started for requests that came in meanwhile; without such requests the
    /// runtime is marked stopped.
    pub fn on_loop_exit(&mut self) -> (restart: bool)
        requires
            runtime_wf(old(self)@),
        ensures
            runtime_wf(final(self)@),
            restart == (old(self)@.pending.len() > 0),
            final(self)@.proxy is None,
            final(self)@.pending == old(self)@.pending,
            final(self)@.running == restart,
    {
        self.proxy = None;
        if self.pending.len() == 0 {
            self.running = false;
            false
        } else {
            true
        }
    }

    /// A new runtime thread could not be started: the runtime is marked
    /// stopped and the requests that waited for it are handed back, in order,
    /// so that their instances can be ended.
    pub fn on_restart_failed(&mut self) -> (stranded: Vec<(u64, C)>)
        requires
            runtime_wf(old(self)@),
            old(self)@.proxy is None,
        ensures
            runtime_wf(final(self)@),
            stranded@ == old(self)@.pending,
            !final(self)@.running,
            final(self)@.proxy is None,
            final(self)@.pending.len() == 0,
    {
        self.running = false;
        let mut stranded: Vec<(u64, C)> = Vec::new();
        std::mem::swap(&mut stranded, &mut self.pending);
        stranded
    }
}

/// The request that hands the answer of a Python handler back to the page of
/// instance `app_id`; refused while no event loop accepts requests.
pub fn send_python_response<P, C>(
    app_id: u64,
    request_id: String,
    result_json: Option<String>,
    error: Option<String>,
    runtime: &RuntimeState<P, C>,
) -> (r: Result<RuntimeEvent<C>, String>)
    ensures
        runtime@.proxy is None ==> (r matches Err(e) && e@ == runtime_down_message()),
        runtime@.proxy is Some ==> r == Ok::<RuntimeEvent<C>, String>(
            RuntimeEvent::PythonResponse {
                app_id: app_id,
                request_id: request_id,
                result_json: result_json,
                error: error,
            },
        ),
{
    if !runtime.has_proxy() {
        return Err(String::from_str("WRY 运行时尚未运行"));
    }
    Ok(RuntimeEvent::PythonResponse { app_id, request_id, result_json, error })
}

/// A window request is never lost: submitting keeps the runtime's
/// invariant, and a request that cannot go straight to the event loop waits
/// at the back of the queue, behind the requests submitted before it, with a
/// runtime thread running or being started to take it; when the event loop
/// comes up it is handed the whole queue in order.
pub proof fn law_submitted_request_waits_in_order<P, C>(v: RuntimeView<P, C>, id: u64, config: C)
    requires
        runtime_wf(v),
        v.proxy is None,
    ensures
        runtime_wf(after_submit(v, id, config)),
        after_submit(v, id, config).running,
        after_submit(v, id, config).pending.last() == (id, config),
        after_submit(v, id, config).pending.subrange(0, v.pending.len() as int) == v.pending,
{
    assert(after_submit(v, id, config).pending.subrange(0, v.pending.len() as int) =~= v.pending);
}

/// While the event loop accepts requests, every request goes to it directly
/// and the queue stays empty.
pub proof fn law_live_loop_takes_requests<P, C>(v: RuntimeView<P, C>, id: u64, config: C)
    requires
        runtime_wf(v),
        v.proxy is Some,
    ensures
        after_submit(v, id, config) == v,
        v.pending.len() == 0,
{
}

/// The text reported for a runtime thread that panicked: the panic's
/// message when it is a string, or a stand-in when it is not.
pub fn panic_text<'a>(message: Option<&'a str>) -> (text: &'a str)
    ensures
        message matches Some(m) ==> text@ == m@,
        message is None ==> text@ == "未知错误"@,
{
    match message {
        Some(m) => m,
        None => "未知错误",
    }
}

/// A failed spawn leaves nothing queued: the request a `Spawn` plan queued
/// is the only one waiting, so taking it out of the queue restores the
/// runtime's invariant with the runtime stopped.
pub proof fn law_failed_spawn_leaves_nothing_queued<P, C>(v: RuntimeView<P, C>, id: u64, config: C)
    requires
        runtime_wf(v),
        v.proxy is None,
        !v.running,
    ensures
        after_submit(v, id, config).pending.filter(|e: (u64, C)| e.0 != id).len() == 0,
{
    let q = after_submit(v, id, config).pending;
    assert(v.pending =~= Seq::<(u64, C)>::empty());
    assert(q =~= Seq::<(u64, C)>::empty().push((id, config)));
    Seq::<(u64, C)>::empty().lemma_filter_push((id, config), |e: (u64, C)| e.0 != id);
    Seq::<(u64, C)>::empty().lemma_filter_len(|e: (u64, C)| e.0 != id);
}

/// A failure of the host around the decisions of the library: a lock that
/// cannot be taken, a request that cannot reach the runtime thread, a thread
/// that cannot be started, or a full queue of Python pending calls.
#[derive(Debug, PartialEq, Eq)]
pub enum HostFailure {
    InstanceLock,
    RuntimeLock,
    WaitLock,
    RegistryLock,
    QueueLock,
    CreateSend,
    VisibilitySend,
    ResponseSend,
    RuntimeExited,
    /// Spawning the runtime thread failed, with the error's text.
    ThreadSpawn(String),
    RestartSpawn,
    /// The runtime thread panicked, with the panic's text.
    RuntimePanic(String),
    PendingCallsFull,
}

/// The message of a host failure.
pub open spec fn host_failure_text(f: HostFailure) -> Seq<char> {
    match f {
        HostFailure::InstanceLock => "无法锁定应用实例状态"@,
        HostFailure::RuntimeLock => "无法锁定 WRY 运行时状态"@,
        HostFailure::WaitLock => "等待应用实例时状态锁损坏"@,
        HostFailure::RegistryLock => "无法锁定事件处理器注册表"@,
        HostFailure::QueueLock => "无法锁定待处理事件队列"@,
        HostFailure::CreateSend => "无法向 WRY 线程发送创建窗口请求"@,
        HostFailure::VisibilitySend => "无法向 WRY 线程发送窗口可见性请求"@,
        HostFailure::ResponseSend => "无法将 Python 返回值发送到 WRY 线程"@,
        HostFailure::RuntimeExited => "WRY 运行时已退出"@,
        HostFailure::ThreadSpawn(e) => "无法创建 WRY 线程："@ + e@,
        HostFailure::RestartSpawn => "旧 WRY 线程退出后无法启动新的运行时线程"@,
        HostFailure::RuntimePanic(t) => "WRY 线程发生异常："@ + t@,
        HostFailure::PendingCallsFull => "Python 主线程的 Pending Call 队列已满"@,
    }
}

/// The message of a host failure.
pub fn host_failure_message(f: &HostFailure) -> (m: String)
    ensures
        m@ == host_failure_text(*f),
{
    match f {
        HostFailure::InstanceLock => String::from_str("无法锁定应用实例状态"),
        HostFailure::RuntimeLock => String::from_str("无法锁定 WRY 运行时状态"),
        HostFailure::WaitLock => String::from_str("等待应用实例时状态锁损坏"),
        HostFailure::RegistryLock => String::from_str("无法锁定事件处理器注册表"),
        HostFailure::QueueLock => String::from_str("无法锁定待处理事件队列"),
        HostFailure::CreateSend => String::from_str("无法向 WRY 线程发送创建窗口请求"),
        HostFailure::VisibilitySend => String::from_str("无法向 WRY 线程发送窗口可见性请求"),
        HostFailure::ResponseSend => String::from_str("无法将 Python 返回值发送到 WRY 线程"),
        HostFailure::RuntimeExited => String::from_str("WRY 运行时已退出"),
        HostFailure::ThreadSpawn(e) => joined("无法创建 WRY 线程：", e.as_str()),
        HostFailure::RestartSpawn => String::from_str("旧 WRY 线程退出后无法启动新的运行时线程"),
        HostFailure::RuntimePanic(t) => joined("WRY 线程发生异常：", t.as_str()),
        HostFailure::PendingCallsFull => String::from_str("Python 主线程的 Pending Call 队列已满"),
    }
}

/// The outcome of handing a request to the runtime thread (`sent`) for an
/// operation that reports `failure` when the request does not arrive.
pub fn delivered(sent: bool, failure: HostFailure) -> (r: Result<(), String>)
    ensures
        sent ==> r is Ok,
        !sent ==> (r matches Err(e) && e@ == host_failure_text(failure)),
{
    if sent {
        Ok(())
    } else {
        Err(host_failure_message(&failure))
    }
}

/// What showing or hiding a window reports once its request was handed to a
/// live event loop (`sent`): nothing, or that the request did not arrive.
/// The instance keeps the visibility it was given either way.
pub fn visibility_delivered(sent: bool) -> (r: Result<(), String>)
    ensures
        sent ==> r is Ok,
        !sent ==> (r matches Err(e) && e@ == "无法向 WRY 线程发送窗口可见性请求"@),
{
    delivered(sent, HostFailure::VisibilitySend)
}

/// What handing a Python answer to the page reports once the request was
/// given to the live event loop (`sent`): nothing, or that it did not
/// arrive.
pub fn response_delivered(sent: bool) -> (r: Result<(), String>)
    ensures
        sent ==> r is Ok,
        !sent ==> (r matches Err(e) && e@ == "无法将 Python 返回值发送到 WRY 线程"@),
{
    delivered(sent, HostFailure::ResponseSend)
}

} // verus!
