//! The event loop's table of open windows, one per instance, and what the
//! loop does on each of its events.

use vstd::prelude::*;
use crate::text::{json_quoted, json_string};
use crate::Mode;
use crate::instance::opt_view;

verus! {

/// Something the event loop has to carry out.
#[derive(Debug, PartialEq, Eq)]
pub enum LoopAction {
    /// Build the native window and web view of instance `app_id`, then report
    /// the outcome with `on_window_built`.
    BuildWindow { app_id: u64 },
    /// End the run of the instance whose create request is at hand.
    FinishInstance { app_id: u64, error: Option<String> },
    /// Stop the runtime from taking new requests.
    BeginRuntimeExit,
    /// Drop the window of `app_id`, forget its window id and end the run of
    /// its instance cleanly.
    CloseWindow { app_id: u64 },
    /// Show or hide the window of `app_id`, and give it the focus if asked.
    ShowWindow { app_id: u64, visible: bool, focus: bool },
    /// Run `script` in the page of `app_id`.
    EvaluateScript { app_id: u64, script: String },
    /// Queue the Python exit handler of `app_id` in place of closing.
    EnqueueExit { app_id: u64 },
}

/// The answer of the event loop to one event: what to carry out, in order,
/// and whether the loop ends afterwards.
#[derive(Debug, PartialEq, Eq)]
pub struct LoopStep {
    pub actions: Vec<LoopAction>,
    pub exit: bool,
}

/// The instances that have an open window.
pub struct WindowTable {
    open: Vec<u64>,
}

impl View for WindowTable {
    type V = Set<u64>;

    closed spec fn view(&self) -> Set<u64> {
        self.open@.to_set()
    }
}

/// The text of the script that hands a Python answer to the page:
/// `globalThis.__resolvePythonCall?.(<request id>, <result>, <error>);`, with
/// the request id and the error as JSON string literals and `null` for an
/// absent result or error.
pub open spec fn resolve_script_text(
    request_id: Seq<char>,
    result_json: Option<Seq<char>>,
    error: Option<Seq<char>>,
) -> Seq<char> {
    "globalThis.__resolvePythonCall?.("@ + json_quoted(request_id) + ", "@ + match result_json {
        Some(r) => r,
        None => "null"@,
    } + ", "@ + match error {
        Some(e) => json_quoted(e),
        None => "null"@,
    } + ");"@
}

/// The script that hands the answer of a Python handler to the page.
pub fn resolve_script(request_id: &str, result_json: Option<String>, error: Option<String>) -> (script:
    String)
    ensures
        script@ == resolve_script_text(request_id@, opt_view(result_json), opt_view(error)),
{
    let id = json_string(request_id);
    let result = match result_json {
        Some(r) => r,
        None => String::from_str("null"),
    };
    let err = match &error {
        Some(e) => json_string(e.as_str()),
        None => String::from_str("null"),
    };
    let mut script = String::from_str("globalThis.__resolvePythonCall?.(");
    script.append(id.as_str());
    script.append(", ");
    script.append(result.as_str());
    script.append(", ");
    script.append(err.as_str());
    script.append(");");
    script
}

/// The title of the window of an instance in `mode`.
pub fn window_title(mode: Mode) -> (title: &'static str)
    ensures
        mode == Mode::Test ==> title@ == "WRY 测试模式"@,
        mode == Mode::Normal ==> title@ == "WRY 示例"@,
{
    if mode == Mode::Test {
        "WRY 测试模式"
    } else {
        "WRY 示例"
    }
}

/// The open windows after a built window of `app_id` is recorded (or not,
/// when building failed).
pub open spec fn after_built(open: Set<u64>, app_id: u64, built: bool) -> Set<u64> {
    if built {
        open.insert(app_id)
    } else {
        open
    }
}

/// The open windows after the window of `app_id` is closed.
pub open spec fn after_close(open: Set<u64>, app_id: u64) -> Set<u64> {
    open.remove(app_id)
}

impl WindowTable {
    /// The table's invariant: each instance has at most one entry.
    pub closed spec fn wf(&self) -> bool {
        self.open@.no_duplicates()
    }

    /// No window is open.
    pub fn new() -> (t: Self)
        ensures
            t.wf(),
            t@ == Set::<u64>::empty(),
    {
        let t = WindowTable { open: Vec::new() };
        assert(t@ =~= Set::<u64>::empty());
        t
    }

    /// The number of open windows.
    pub fn len(&self) -> (n: usize)
        requires
            self.wf(),
        ensures
            n == self@.len(),
            self@.finite(),
    {
        proof {
            self.open@.unique_seq_to_set();
        }
        self.open.len()
    }

    fn position(&self, app_id: u64) -> (p: Option<usize>)
        requires
            self.wf(),
        ensures
            p is None <==> !self@.contains(app_id),
            p matches Some(i) ==> i < self.open@.len() && self.open@[i as int] == app_id,
    {
        let mut i: usize = 0;
        while i < self.open.len()
            invariant
                i <= self.open@.len(),
                forall|k: int| 0 <= k < i ==> self.open@[k] != app_id,
            decreases self.open@.len() - i,
        {
            if self.open[i] == app_id {
                return Some(i);
            }
            i = i + 1;
        }
        assert(!self.open@.contains(app_id));
        None
    }

    /// Whether instance `app_id` has an open window.
    pub fn contains(&self, app_id: u64) -> (b: bool)
        requires
            self.wf(),
        ensures
            b == self@.contains(app_id),
    {
        self.position(app_id).is_some()
    }

    fn insert(&mut self, app_id: u64)
        requires
            old(self).wf(),
        ensures
            final(self).wf(),
            final(self)@ == old(self)@.insert(app_id),
    {
        if self.position(app_id).is_none() {
            let ghost before = self.open@;
            self.open.push(app_id);
            proof {
                assert(self.open@ == before.push(app_id));
                assert forall|i: int, j: int|
                    0 <= i < self.open@.len() && 0 <= j < self.open@.len() && i != j implies self.open@[i]
                    != self.open@[j] by {
                    if i == before.len() as int {
                        assert(before.contains(self.open@[j]));
                    } else if j == before.len() as int {
                        assert(before.contains(self.open@[i]));
                    }
                }
                before.lemma_push_to_set_commute(app_id);
            }
        } else {
            assert(old(self)@.insert(app_id) =~= old(self)@);
        }
    }

    fn remove(&mut self, app_id: u64) -> (was_open: bool)
        requires
            old(self).wf(),
        ensures
            final(self).wf(),
            final(self)@ == old(self)@.remove(app_id),
            was_open == old(self)@.contains(app_id),
    {
        match self.position(app_id) {
            Some(i) => {
                let ghost before = self.open@;
                self.open.remove(i);
                proof {
                    assert(self.open@ =~= before.remove(i as int));
                    before.remove_ensures(i as int);
                    assert forall|x: u64| self.open@.contains(x) <==> before.to_set().remove(
                        app_id,
                    ).contains(x) by {
                        if self.open@.contains(x) {
                            let k = choose|k: int| 0 <= k < self.open@.len() && self.open@[k] == x;
                            if k < i {
                                assert(before[k] == x);
                            } else {
                                assert(before[k + 1] == x);
                            }
                        }
                        if before.contains(x) && x != app_id {
                            let k = choose|k: int| 0 <= k < before.len() && before[k] == x;
                            if k < i {
                                assert(self.open@[k] == x);
                            } else {
                                assert(self.open@[k - 1] == x);
                            }
                        }
                    }
                    assert(self.open@.to_set() =~= before.to_set().remove(app_id));
                }
                true
            },
            None => {
                assert(old(self)@.remove(app_id) =~= old(self)@);
                false
            },
        }
    }

    /// A request to open the window of `app_id` reached the loop. If a stop
    /// was asked for meanwhile the instance ends cleanly at once (and the loop
    /// ends when no window is open); otherwise the window is to be built.
    pub fn on_create(&self, app_id: u64, stop_requested: bool) -> (step: LoopStep)
        requires
            self.wf(),
        ensures
            stop_requested ==> step.actions@ == seq![
                LoopAction::FinishInstance { app_id: app_id, error: None },
            ] && step.exit == (self@.len() == 0),
            !stop_requested ==> step.actions@ == seq![LoopAction::BuildWindow { app_id: app_id }]
                && !step.exit,
    {
        let mut actions: Vec<LoopAction> = Vec::new();
        if stop_requested {
            actions.push(LoopAction::FinishInstance { app_id, error: None });
            let n = self.len();
            LoopStep { actions, exit: n == 0 }
        } else {
            actions.push(LoopAction::BuildWindow { app_id });
            LoopStep { actions, exit: false }
        }
    }

    /// The window of `app_id` was built (`Ok`) and is recorded, or building it
    /// failed and the instance ends with that error. The loop ends when no
    /// window is open.
    pub fn on_window_built(&mut self, app_id: u64, result: Result<(), String>) -> (step: LoopStep)
        requires
            old(self).wf(),
        ensures
            final(self).wf(),
            final(self)@ == after_built(old(self)@, app_id, result is Ok),
            result is Ok ==> step.actions@.len() == 0,
            result matches Err(e) ==> step.actions@ == seq![
                LoopAction::FinishInstance { app_id: app_id, error: Some(e) },
            ],
            step.exit == (final(self)@.len() == 0),
    {
        let mut actions: Vec<LoopAction> = Vec::new();
        match result {
            Ok(()) => {
                self.insert(app_id);
            },
            Err(e) => {
                actions.push(LoopAction::FinishInstance { app_id, error: Some(e) });
            },
        }
        let n = self.len();
        LoopStep { actions, exit: n == 0 }
    }

    /// An instance asked to close its window. Closing the last window first
    /// stops the runtime from taking new requests; the loop ends when no
    /// window is left.
    pub fn on_close(&mut self, app_id: u64) -> (step: LoopStep)
        requires
            old(self).wf(),
        ensures
            final(self).wf(),
            final(self)@ == after_close(old(self)@, app_id),
            step.actions@ == (if old(self)@.len() == 1 && old(self)@.contains(app_id) {
                seq![LoopAction::BeginRuntimeExit]
            } else {
                seq![]
            }) + (if old(self)@.contains(app_id) {
                seq![LoopAction::CloseWindow { app_id: app_id }]
            } else {
                seq![]
            }),
            step.exit == (final(self)@.len() == 0),
    {
        let mut actions: Vec<LoopAction> = Vec::new();
        let n = self.len();
        let open = self.contains(app_id);
        if n == 1 && open {
            actions.push(LoopAction::BeginRuntimeExit);
        }
        let ghost first = actions@;
        if self.remove(app_id) {
            actions.push(LoopAction::CloseWindow { app_id });
        }
        proof {
            if open {
                assert(actions@ =~= first + seq![LoopAction::CloseWindow { app_id: app_id }]);
            } else {
                assert(actions@ =~= first + Seq::<LoopAction>::empty());
            }
        }
        let m = self.len();
        LoopStep { actions, exit: m == 0 }
    }

    /// An instance asked to show or hide its window; a showed window also
    /// takes the focus. Nothing happens to an instance without a window.
    pub fn on_set_visible(&self, app_id: u64, visible: bool) -> (actions: Vec<LoopAction>)
        requires
            self.wf(),
        ensures
            self@.contains(app_id) ==> actions@ == seq![
                LoopAction::ShowWindow { app_id: app_id, visible: visible, focus: visible },
            ],
            !self@.contains(app_id) ==> actions@.len() == 0,
    {
        let mut actions: Vec<LoopAction> = Vec::new();
        if self.contains(app_id) {
            actions.push(LoopAction::ShowWindow { app_id, visible, focus: visible });
        }
        actions
    }

    /// The answer of a Python handler reached the loop: the page of `app_id`
    /// gets the script that resolves its call. Nothing happens to an
    /// instance without a window.
    pub fn on_python_response(
        &self,
        app_id: u64,
        request_id: String,
        result_json: Option<String>,
        error: Option<String>,
    ) -> (actions: Vec<LoopAction>)
        requires
            self.wf(),
        ensures
            !self@.contains(app_id) ==> actions@.len() == 0,
            self@.contains(app_id) ==> actions@.len() == 1 && (actions@[0] matches LoopAction::EvaluateScript {
                app_id: a,
                script: s,
            } && a == app_id && s@ == resolve_script_text(
                request_id@,
                opt_view(result_json),
                opt_view(error),
            )),
    {
        let mut actions: Vec<LoopAction> = Vec::new();
        if self.contains(app_id) {
            let script = resolve_script(request_id.as_str(), result_json, error);
            actions.push(LoopAction::EvaluateScript { app_id, script });
        }
        actions
    }

    /// The user asked to close a window. `app_id` is the instance the window
    /// was recorded for, if any; `has_exit_handler` whether that instance has
    /// a Python exit handler. An instance with an open window and an exit
    /// handler gets the handler queued and keeps its window; otherwise the
    /// window closes as on a close request (stopping the runtime from taking
    /// requests when one window is open). The loop ends when no window is
    /// left.
    pub fn on_close_requested(&mut self, app_id: Option<u64>, has_exit_handler: bool) -> (step:
        LoopStep)
        requires
            old(self).wf(),
        ensures
            final(self).wf(),
            step.exit == (final(self)@.len() == 0),
            app_id is None ==> step.actions@.len() == 0 && final(self)@ == old(self)@,
            app_id matches Some(id) ==> {
                let intercept = old(self)@.contains(id) && has_exit_handler;
                &&& intercept ==> step.actions@ == seq![LoopAction::EnqueueExit { app_id: id }]
                    && final(self)@ == old(self)@
                &&& !intercept ==> final(self)@ == after_close(old(self)@, id) && step.actions@ == (
                if old(self)@.len() == 1 {
                    seq![LoopAction::BeginRuntimeExit]
                } else {
                    seq![]
                }) + (if old(self)@.contains(id) {
                    seq![LoopAction::CloseWindow { app_id: id }]
                } else {
                    seq![]
                })
            },
    {
        let mut actions: Vec<LoopAction> = Vec::new();
        match app_id {
            None => {},
            Some(id) => {
                let open = self.contains(id);
                if open && has_exit_handler {
                    actions.push(LoopAction::EnqueueExit { app_id: id });
                } else {
                    let n = self.len();
                    if n == 1 {
                        actions.push(LoopAction::BeginRuntimeExit);
                    }
                    let ghost first = actions@;
                    if self.remove(id) {
                        actions.push(LoopAction::CloseWindow { app_id: id });
                    }
                    proof {
                        if open {
                            assert(actions@ =~= first + seq![LoopAction::CloseWindow { app_id: id }]);
                        } else {
                            assert(actions@ =~= first + Seq::<LoopAction>::empty());
                        }
                    }
                }
            },
        }
        let m = self.len();
        LoopStep { actions, exit: m == 0 }
    }

    /// The instances whose windows are still open when the loop has ended;
    /// each is to be ended cleanly.
    pub fn into_remaining(self) -> (ids: Vec<u64>)
        requires
            self.wf(),
        ensures
            ids@.to_set() == self@,
            ids@.no_duplicates(),
    {
        self.open
    }
}

/// Closing the window of an instance undoes recording it: an instance whose
/// window is built and then closed leaves the table as it found it (without
/// that instance).
pub proof fn law_close_undoes_build(open: Set<u64>, app_id: u64)
    ensures
        after_close(after_built(open, app_id, true), app_id) == open.remove(app_id),
        !open.contains(app_id) ==> after_close(after_built(open, app_id, true), app_id) == open,
{
    assert(open.insert(app_id).remove(app_id) =~= open.remove(app_id));
    if !open.contains(app_id) {
        assert(open.remove(app_id) =~= open);
    }
}

/// A window is closed at most once: after its close, a second close request
/// for the same instance finds nothing to close, and the table stays as it
/// is.
pub proof fn law_close_is_idempotent(open: Set<u64>, app_id: u64)
    ensures
        !after_close(open, app_id).contains(app_id),
        after_close(after_close(open, app_id), app_id) == after_close(open, app_id),
{
    assert(after_close(after_close(open, app_id), app_id) =~= after_close(open, app_id));
}

} // verus!
