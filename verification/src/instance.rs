//! The status of one application instance: whether its window is running,
//! whether a stop was asked for, whether the window is visible, and the error
//! its last run ended with.

use vstd::prelude::*;
use crate::runtime::RuntimeEvent;

verus! {

/// What an instance status is, as plain values.
pub struct InstanceView {
    pub running: bool,
    pub stop_requested: bool,
    pub visible: bool,
    pub last_error: Option<Seq<char>>,
}

/// The status of one application instance.
pub struct InstanceState {
    running: bool,
    stop_requested: bool,
    visible: bool,
    last_error: Option<String>,
}

/// The view of an optional message.
pub open spec fn opt_view(s: Option<String>) -> Option<Seq<char>> {
    match s {
        Some(t) => Some(t@),
        None => None,
    }
}

impl View for InstanceState {
    type V = InstanceView;

    closed spec fn view(&self) -> InstanceView {
        InstanceView {
            running: self.running,
            stop_requested: self.stop_requested,
            visible: self.visible,
            last_error: opt_view(self.last_error),
        }
    }
}

/// The status of a new instance: not running, nothing asked, no error.
pub open spec fn fresh() -> InstanceView {
    InstanceView { running: false, stop_requested: false, visible: false, last_error: None }
}

/// The status after a successful start: running and visible, with no stop
/// asked for and no error kept.
pub open spec fn started() -> InstanceView {
    InstanceView { running: true, stop_requested: false, visible: true, last_error: None }
}

/// The status after a run ended with `error`.
pub open spec fn finished(v: InstanceView, error: Option<Seq<char>>) -> InstanceView {
    InstanceView { running: false, stop_requested: false, last_error: error, ..v }
}

/// What `wait` reports of a status: nothing while it runs, then the end of
/// the last run.
pub open spec fn wait_report(v: InstanceView) -> Option<Result<(), Seq<char>>> {
    if v.running {
        None
    } else {
        match v.last_error {
            Some(e) => Some(Err(e)),
            None => Some(Ok(())),
        }
    }
}

/// The status after a start: a running instance stays as it is (the start
/// is refused); any other becomes `started()`.
pub open spec fn after_start(v: InstanceView) -> InstanceView {
    if v.running {
        v
    } else {
        started()
    }
}

/// The status after a stop: a running instance gets its stop asked for; any
/// other stays as it is.
pub open spec fn after_stop(v: InstanceView) -> InstanceView {
    if v.running {
        InstanceView { stop_requested: true, ..v }
    } else {
        v
    }
}

/// The status after the window is shown (`true`) or hidden: only a running
/// instance changes.
pub open spec fn after_set_visible(v: InstanceView, visible: bool) -> InstanceView {
    if v.running {
        InstanceView { visible: visible, ..v }
    } else {
        v
    }
}

/// The message of a start on a running instance.
pub open spec fn already_running_message() -> Seq<char> {
    "这个 MyWryAPP 实例已经在运行"@
}

/// The message of a window request on an instance that does not run.
pub open spec fn not_running_message() -> Seq<char> {
    "这个 MyWryAPP 实例尚未运行"@
}

impl InstanceState {
    /// A new instance status.
    pub fn new() -> (state: Self)
        ensures
            state@ == fresh(),
    {
        InstanceState { running: false, stop_requested: false, visible: false, last_error: None }
    }

    /// Whether a stop was asked for since the last start.
    pub fn stop_requested(&self) -> (b: bool)
        ensures
            b == self@.stop_requested,
    {
        self.stop_requested
    }

    /// Whether the window should be shown.
    pub fn visible(&self) -> (b: bool)
        ensures
            b == self@.visible,
    {
        self.visible
    }

    /// Marks the instance as started. A running instance is refused and left
    /// as it was.
    pub fn begin_start(&mut self) -> (r: Result<(), String>)
        ensures
            final(self)@ == after_start(old(self)@),
            old(self)@.running ==> (r matches Err(e) && e@ == already_running_message()),
            !old(self)@.running ==> r is Ok,
    {
        if self.running {
            return Err(String::from_str("这个 MyWryAPP 实例已经在运行"));
        }
        self.running = true;
        self.stop_requested = false;
        self.visible = true;
        self.last_error = None;
        Ok(())
    }
}

/// Ends the current run of an instance with `error`; `wait` then reports it.
pub fn finish_instance(state: &mut InstanceState, error: Option<String>)
    ensures
        final(state)@ == finished(old(state)@, opt_view(error)),
{
    state.running = false;
    state.stop_requested = false;
    state.last_error = error;
}

/// Asks a running instance to stop. Returns the request to close its window,
/// to be sent to the runtime if one is up; an instance that does not run is
/// left as it was and nothing is sent.
pub fn stop<C>(id: u64, state: &mut InstanceState) -> (close: Option<RuntimeEvent<C>>)
    ensures
        final(state)@ == after_stop(old(state)@),
        !old(state)@.running ==> close is None,
        old(state)@.running ==> close == Some(RuntimeEvent::<C>::Close { app_id: id }),
{
    if !state.running {
        return None;
    }
    state.stop_requested = true;
    Some(RuntimeEvent::Close { app_id: id })
}

/// Whether the instance runs.
pub fn is_running(state: &InstanceState) -> (b: bool)
    ensures
        b == state@.running,
{
    state.running
}

/// Shows or hides the window of a running instance. Returns the request to
/// send to the runtime if one is up; an instance that does not run is
/// refused and left as it was.
pub fn set_visible<C>(id: u64, state: &mut InstanceState, visible: bool) -> (r: Result<
    RuntimeEvent<C>,
    String,
>)
    ensures
        final(state)@ == after_set_visible(old(state)@, visible),
        !old(state)@.running ==> (r matches Err(e) && e@ == not_running_message()),
        old(state)@.running ==> r == Ok::<RuntimeEvent<C>, String>(
            RuntimeEvent::SetVisible { app_id: id, visible: visible },
        ),
{
    if !state.running {
        return Err(String::from_str("这个 MyWryAPP 实例尚未运行"));
    }
    state.visible = visible;
    Ok(RuntimeEvent::SetVisible { app_id: id, visible })
}

/// What waiting on the instance gives: `None` while it runs (keep waiting),
/// then `Ok` if its last run ended cleanly or `Err` with the error it ended
/// with.
pub fn wait(state: &InstanceState) -> (r: Option<Result<(), String>>)
    ensures
        r is None <==> wait_report(state@) is None,
        r matches Some(Ok(())) ==> wait_report(state@) == Some(Ok::<(), Seq<char>>(())),
        r matches Some(Err(e)) ==> wait_report(state@) == Some(Err::<(), Seq<char>>(e@)),
        wait_report(state@) matches Some(Err(e)) ==> (r matches Some(Err(f)) && f@ == e),
        wait_report(state@) matches Some(Ok(_)) ==> r matches Some(Ok(_)),
{
    if state.running {
        return None;
    }
    match &state.last_error {
        Some(e) => Some(Err(e.clone())),
        None => Some(Ok(())),
    }
}

/// A new instance can be started, and the started instance runs, is shown,
/// has no stop pending, keeps no error, and makes a waiter wait.
pub proof fn law_fresh_instance_starts()
    ensures
        after_start(fresh()) == started(),
        started().running && started().visible && !started().stop_requested,
        started().last_error is None,
        wait_report(started()) is None,
{
}

/// A start on a running instance is refused and changes nothing.
pub proof fn law_start_refused_while_running(v: InstanceView)
    requires
        v.running,
    ensures
        after_start(v) == v,
{
}

/// Stopping is safe to repeat: a second stop changes nothing more, and no
/// stop ends the run by itself (the window's closing does).
pub proof fn law_stop_idempotent(v: InstanceView)
    ensures
        after_stop(after_stop(v)) == after_stop(v),
        after_stop(v).running == v.running,
        after_stop(v).last_error == v.last_error,
{
}

/// Hiding and showing the window leave the instance running (or not) as it
/// was, and keep a pending stop and the last error.
pub proof fn law_visibility_keeps_run(v: InstanceView, visible: bool)
    ensures
        after_set_visible(v, visible).running == v.running,
        after_set_visible(v, visible).stop_requested == v.stop_requested,
        after_set_visible(v, visible).last_error == v.last_error,
        v.running ==> after_set_visible(v, visible).visible == visible,
{
}

/// Waiting on an instance whose run ended gives back exactly the error the
/// run ended with, whatever the instance was before.
pub proof fn law_wait_reports_finish(v: InstanceView, error: Option<Seq<char>>)
    ensures
        wait_report(finished(v, error)) == (match error {
            Some(e) => Some(Err::<(), Seq<char>>(e)),
            None => Some(Ok::<(), Seq<char>>(())),
        }),
{
}

/// An instance whose run ended can be started again, and the new run
/// forgets the old error.
pub proof fn law_restart_after_finish(v: InstanceView, error: Option<Seq<char>>)
    ensures
        after_start(finished(v, error)) == started(),
{
}

/// While an instance runs, a waiter is told nothing, whatever else its
/// status holds: a stop that was asked for, its visibility or an old error do
/// not end the wait. Only the end of the run does, and then with exactly the
/// error it ended with.
pub proof fn law_wait_blocks_while_running(v: InstanceView)
    ensures
        v.running ==> wait_report(v) is None,
        v.running ==> wait_report(after_stop(v)) is None,
        v.running ==> wait_report(after_set_visible(v, !v.visible)) is None,
        !v.running ==> wait_report(v) is Some,
        !v.running && v.last_error is None ==> wait_report(v) == Some(Ok::<(), Seq<char>>(())),
        !v.running && v.last_error is Some ==> wait_report(v) == Some(
            Err::<(), Seq<char>>(v.last_error->0),
        ),
{
}

} // verus!
