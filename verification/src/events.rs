//! Events from the page and from Python code, the per-instance queue that
//! carries them to the Python main thread, the registry of Python handlers,
//! and the answers that go back to the page.

use vstd::prelude::*;
use std::collections::VecDeque;
use crate::text::{trim, trimmed, joined, str_less, str_equal, seq_less, lemma_less_irreflexive,
    lemma_less_total, lemma_less_transitive};

verus! {

/// The action name every instance reserves for its window's close button.
pub const EXIT_ACTION: &'static str = "exit";

/// An event for a Python handler, with `D` its free-form data.
#[derive(Debug, PartialEq, Eq)]
pub struct RawEvent<D> {
    pub request_id: Option<String>,
    pub action: String,
    pub element_id: Option<String>,
    pub value: Option<String>,
    pub data: D,
}

/// The message for an empty action name.
pub open spec fn empty_action_message() -> Seq<char> {
    "action 不能为空"@
}

/// The message for a page event with an empty action.
pub open spec fn empty_page_action_message() -> Seq<char> {
    "HTML 事件 action 不能为空"@
}

/// The message for a page event that is not valid JSON, with the parser's
/// message.
pub open spec fn bad_json_message(error: Seq<char>) -> Seq<char> {
    "无法解析 HTML 事件 JSON："@ + error
}

/// The message for a decorated object that cannot be called.
pub open spec fn not_callable_message() -> Seq<char> {
    "装饰器只能用于可调用对象"@
}

/// The action name a decorator registers under: the name without
/// surrounding white space, refused when nothing is left.
pub fn decorator(action: &str) -> (r: Result<String, String>)
    ensures
        trimmed(action@).len() == 0 ==> (r matches Err(e) && e@ == empty_action_message()),
        trimmed(action@).len() > 0 ==> (r matches Ok(a) && a@ == trimmed(action@)),
{
    let name = trim(action);
    if name.is_empty() {
        return Err(String::from_str("action 不能为空"));
    }
    Ok(name.to_owned())
}

/// The event that Python code raises for `action` (with `data` the empty
/// data of an event): the name without surrounding white space, refused
/// when nothing is left.
pub fn emit<D>(action: &str, data: D) -> (r: Result<RawEvent<D>, String>)
    ensures
        trimmed(action@).len() == 0 ==> (r matches Err(e) && e@ == empty_action_message()),
        trimmed(action@).len() > 0 ==> (r matches Ok(ev) && ev.action@ == trimmed(action@)
            && ev.request_id is None && ev.element_id is None && ev.value is None && ev.data
            == data),
{
    let name = trim(action);
    if name.is_empty() {
        return Err(String::from_str("action 不能为空"));
    }
    Ok(RawEvent { request_id: None, action: name.to_owned(), element_id: None, value: None, data })
}

/// The event that the host itself raises for `action`, taken as it is.
pub fn enqueue_action<D>(action: &str, data: D) -> (ev: RawEvent<D>)
    ensures
        ev.action@ == action@,
        ev.request_id is None && ev.element_id is None && ev.value is None,
        ev.data == data,
{
    RawEvent { request_id: None, action: action.to_owned(), element_id: None, value: None, data }
}

/// A page event as parsed from its JSON message (`Err` with the parser's
/// message when it is not valid): its action loses surrounding white space
/// and must not be empty; everything else is kept.
pub fn enqueue<D>(parsed: Result<RawEvent<D>, String>) -> (r: Result<RawEvent<D>, String>)
    ensures
        parsed matches Err(m) ==> (r matches Err(e) && e@ == bad_json_message(m@)),
        parsed matches Ok(ev) ==> {
            &&& trimmed(ev.action@).len() == 0 ==> (r matches Err(e) && e@
                == empty_page_action_message())
            &&& trimmed(ev.action@).len() > 0 ==> (r matches Ok(out) && out.action@ == trimmed(
                ev.action@,
            ) && out.request_id == ev.request_id && out.element_id == ev.element_id && out.value
                == ev.value && out.data == ev.data)
        },
{
    match parsed {
        Err(m) => Err(joined("无法解析 HTML 事件 JSON：", m.as_str())),
        Ok(ev) => {
            let name = trim(ev.action.as_str()).to_owned();
            if name.as_str().is_empty() {
                return Err(String::from_str("HTML 事件 action 不能为空"));
            }
            Ok(RawEvent {
                request_id: ev.request_id,
                action: name,
                element_id: ev.element_id,
                value: ev.value,
                data: ev.data,
            })
        },
    }
}

/// The events of one instance that wait for the Python main thread, and
/// whether a call to deliver them is already scheduled there.
pub struct PendingEvents<E> {
    events: VecDeque<E>,
    scheduled: bool,
}

/// What a queue is, as values.
pub struct PendingView<E> {
    pub events: Seq<E>,
    pub scheduled: bool,
}

impl<E> View for PendingEvents<E> {
    type V = PendingView<E>;

    closed spec fn view(&self) -> PendingView<E> {
        PendingView { events: self.events@, scheduled: self.scheduled }
    }
}

/// The queue after `event` is added.
pub open spec fn after_push<E>(q: PendingView<E>, event: E) -> PendingView<E> {
    PendingView { events: q.events.push(event), scheduled: true }
}

/// The queue after the delivery call takes a batch (or finds it empty).
pub open spec fn after_take<E>(q: PendingView<E>) -> PendingView<E> {
    PendingView { events: Seq::empty(), scheduled: if q.events.len() == 0 { false } else { q.scheduled } }
}

impl<E> PendingEvents<E> {
    /// An empty queue with no call scheduled.
    pub fn new() -> (q: Self)
        ensures
            q@.events.len() == 0,
            !q@.scheduled,
    {
        PendingEvents { events: VecDeque::new(), scheduled: false }
    }

    /// Adds `event` at the back. Returns whether a delivery call has to be
    /// scheduled now, which is when none was.
    pub fn push(&mut self, event: E) -> (schedule: bool)
        ensures
            final(self)@ == after_push(old(self)@, event),
            schedule == !old(self)@.scheduled,
    {
        self.events.push_back(event);
        if self.scheduled {
            false
        } else {
            self.scheduled = true;
            true
        }
    }

    /// Scheduling the delivery call failed, or the call broke off: none is
    /// scheduled any more, and the events stay queued.
    pub fn unschedule(&mut self)
        ensures
            final(self)@ == (PendingView { scheduled: false, ..old(self)@ }),
    {
        self.scheduled = false;
    }

    /// The delivery call takes every queued event, in the order they came.
    /// When none is left the call ends: nothing is returned and no call is
    /// scheduled any more.
    pub fn take_batch(&mut self) -> (batch: Option<Vec<E>>)
        ensures
            final(self)@ == after_take(old(self)@),
            old(self)@.events.len() == 0 ==> batch is None,
            old(self)@.events.len() > 0 ==> (batch matches Some(b) && b@ == old(self)@.events),
    {
        if self.events.len() == 0 {
            self.scheduled = false;
            assert(self.events@ =~= Seq::<E>::empty());
            return None;
        }
        let ghost queued = self.events@;
        let mut batch: Vec<E> = Vec::new();
        while self.events.len() > 0
            invariant
                queued == batch@ + self.events@,
                self.scheduled == old(self)@.scheduled,
                queued == old(self)@.events,
            decreases self.events@.len(),
        {
            match self.events.pop_front() {
                Some(e) => {
                    let ghost rest = self.events@;
                    batch.push(e);
                    assert(queued =~= batch@ + rest);
                },
                None => {},
            }
        }
        assert(batch@ =~= queued);
        assert(self.events@ =~= Seq::<E>::empty());
        Some(batch)
    }

    /// Drops every queued event; a scheduled call stays scheduled.
    pub fn clear(&mut self)
        ensures
            final(self)@ == (PendingView { events: Seq::<E>::empty(), ..old(self)@ }),
    {
        self.events.clear();
    }
}

/// Events reach the Python main thread in the order they were raised: a
/// burst of events pushed one after another is delivered as one batch, in
/// that order, and a single delivery call serves the whole burst.
pub proof fn law_pending_fifo<E>(q: PendingView<E>, a: E, b: E)
    requires
        q.events.len() == 0,
        !q.scheduled,
    ensures
        after_push(after_push(q, a), b).events == seq![a, b],
        after_push(q, a).scheduled,
        after_take(after_take(after_push(after_push(q, a), b))) == (PendingView {
            events: Seq::<E>::empty(),
            scheduled: false,
        }),
{
    assert(after_push(after_push(q, a), b).events =~= seq![a, b]);
    assert(after_take(after_take(after_push(after_push(q, a), b))).events =~= Seq::<E>::empty());
}

/// A scheduled delivery call is never lost: whenever events wait in a queue
/// that went through pushes and takes only, a call is scheduled.
pub proof fn law_waiting_events_are_scheduled<E>(q: PendingView<E>, e: E)
    requires
        q.events.len() > 0 ==> q.scheduled,
    ensures
        after_push(q, e).events.len() > 0 ==> after_push(q, e).scheduled,
        after_take(q).events.len() > 0 ==> after_take(q).scheduled,
{
}

/// The Python handlers of one instance, by action name, with `H` a handler.
pub struct HandlerRegistry<H> {
    names: Vec<String>,
    handlers: Vec<H>,
}

impl<H> HandlerRegistry<H> {
    /// The registry's invariant: one handler per name, the names in strictly
    /// ascending order.
    pub closed spec fn wf(&self) -> bool {
        &&& self.names@.len() == self.handlers@.len()
        &&& forall|i: int, j: int|
            0 <= i < j < self.names@.len() ==> seq_less(
                #[trigger] self.names@[i]@,
                #[trigger] self.names@[j]@,
            )
    }

    spec fn index_of(&self, k: Seq<char>) -> int {
        choose|i: int| 0 <= i < self.names@.len() && self.names@[i]@ == k
    }

    proof fn lemma_view_at(&self, i: int)
        requires
            self.wf(),
            0 <= i < self.names@.len(),
        ensures
            self@.contains_key(self.names@[i]@),
            self@[self.names@[i]@] == self.handlers@[i],
    {
        let k = self.names@[i]@;
        assert(self@.dom().contains(k));
        let j = self.index_of(k);
        if j != i {
            lemma_less_irreflexive(k);
            if i < j {
                assert(seq_less(self.names@[i]@, self.names@[j]@));
            } else {
                assert(seq_less(self.names@[j]@, self.names@[i]@));
            }
        }
    }
}

impl<H> View for HandlerRegistry<H> {
    type V = Map<Seq<char>, H>;

    closed spec fn view(&self) -> Map<Seq<char>, H> {
        Map::new(
            |k: Seq<char>| exists|i: int| 0 <= i < self.names@.len() && self.names@[i]@ == k,
            |k: Seq<char>| self.handlers@[self.index_of(k)],
        )
    }
}

impl<H> HandlerRegistry<H> {
    /// A registry without handlers.
    pub fn new() -> (r: Self)
        ensures
            r.wf(),
            r@ == Map::<Seq<char>, H>::empty(),
    {
        let r = HandlerRegistry { names: Vec::new(), handlers: Vec::new() };
        assert(r@ =~= Map::<Seq<char>, H>::empty());
        r
    }

    fn find(&self, action: &str) -> (r: (usize, bool))
        requires
            self.wf(),
        ensures
            r.0 <= self.names@.len(),
            forall|i: int| 0 <= i < r.0 ==> seq_less(#[trigger] self.names@[i]@, action@),
            r.1 ==> r.0 < self.names@.len() && self.names@[r.0 as int]@ == action@,
            !r.1 ==> (r.0 < self.names@.len() ==> seq_less(action@, self.names@[r.0 as int]@)),
            r.1 == self@.contains_key(action@),
    {
        let n = self.names.len();
        let mut k: usize = 0;
        while k < n && str_less(self.names[k].as_str(), action)
            invariant
                n == self.names@.len(),
                k <= n,
                forall|i: int| 0 <= i < k ==> seq_less(#[trigger] self.names@[i]@, action@),
            decreases n - k,
        {
            k = k + 1;
        }
        let found = k < n && str_equal(self.names[k].as_str(), action);
        proof {
            if k < n && !found {
                lemma_less_total(self.names@[k as int]@, action@);
            }
            if found {
                assert(self@.dom().contains(action@));
            } else {
                if self@.dom().contains(action@) {
                    let j = choose|j: int| 0 <= j < self.names@.len() && self.names@[j]@ == action@;
                    lemma_less_irreflexive(action@);
                    if j < k {
                        assert(seq_less(self.names@[j]@, action@));
                    } else if j == k {
                    } else {
                        assert(seq_less(self.names@[k as int]@, self.names@[j]@));
                    }
                }
            }
        }
        (k, found)
    }

    /// Whether a handler is registered for `action`.
    pub fn has_handler(&self, action: &str) -> (b: bool)
        requires
            self.wf(),
        ensures
            b == self@.contains_key(action@),
    {
        self.find(action).1
    }

    /// The handler registered for `action`, if any.
    pub fn get(&self, action: &str) -> (h: Option<&H>)
        requires
            self.wf(),
        ensures
            h is None <==> !self@.contains_key(action@),
            h matches Some(x) ==> *x == self@[action@],
    {
        let (k, found) = self.find(action);
        if found {
            proof {
                self.lemma_view_at(k as int);
            }
            Some(&self.handlers[k])
        } else {
            None
        }
    }

    /// Registers `handler` for `action`, in place of any handler it had.
    pub fn insert(&mut self, action: &str, handler: H)
        requires
            old(self).wf(),
        ensures
            final(self).wf(),
            final(self)@ == old(self)@.insert(action@, handler),
    {
        let (k, found) = self.find(action);
        let ghost old_names = self.names@;
        let ghost old_handlers = self.handlers@;
        let ghost old_view = self@;
        if found {
            self.handlers.set(k, handler);
            proof {
                assert(self.names@ == old_names);
                assert forall|x: Seq<char>| #[trigger] self@.dom().contains(x) <==> old_view.insert(
                    action@,
                    handler,
                ).dom().contains(x) by {}
                assert forall|x: Seq<char>| #[trigger] self@.dom().contains(x) implies self@[x]
                    == old_view.insert(action@, handler)[x] by {
                    let i = choose|i: int| 0 <= i < self.names@.len() && self.names@[i]@ == x;
                    self.lemma_view_at(i);
                    if i != k {
                        old(self).lemma_view_at(i);
                        lemma_less_irreflexive(x);
                        if i < k {
                            assert(seq_less(self.names@[i]@, self.names@[k as int]@));
                        } else {
                            assert(seq_less(self.names@[k as int]@, self.names@[i]@));
                        }
                        assert(x != action@);
                        assert(self.handlers@[i] == old_handlers[i]);
                    } else {
                        assert(self.handlers@[i] == handler);
                    }
                }
                assert(self@ =~= old_view.insert(action@, handler));
            }
        } else {
            let name = action.to_owned();
            self.names.insert(k, name);
            self.handlers.insert(k, handler);
            proof {
                let n = old_names.len();
                assert forall|i: int, j: int|
                    0 <= i < j < self.names@.len() implies seq_less(
                    #[trigger] self.names@[i]@,
                    #[trigger] self.names@[j]@,
                ) by {
                    if j < k {
                        assert(self.names@[i] == old_names[i] && self.names@[j] == old_names[j]);
                    } else if j == k {
                        assert(self.names@[i] == old_names[i]);
                    } else if i == k {
                        assert(self.names@[j] == old_names[j - 1]);
                        if j - 1 > k {
                            assert(seq_less(old_names[k as int]@, old_names[j - 1]@));
                            lemma_less_transitive(action@, old_names[k as int]@, old_names[j - 1]@);
                        }
                    } else if i < k {
                        assert(self.names@[i] == old_names[i]);
                        assert(self.names@[j] == old_names[j - 1]);
                        assert(seq_less(old_names[i]@, action@));
                        if k < n {
                            assert(seq_less(action@, old_names[k as int]@));
                            lemma_less_transitive(old_names[i]@, action@, old_names[k as int]@);
                            if j - 1 > k {
                                lemma_less_transitive(
                                    old_names[i]@,
                                    old_names[k as int]@,
                                    old_names[j - 1]@,
                                );
                            }
                        }
                    } else {
                        assert(self.names@[i] == old_names[i - 1]);
                        assert(self.names@[j] == old_names[j - 1]);
                    }
                }
                assert(self.wf());
                assert forall|x: Seq<char>| #[trigger] self@.dom().contains(x) <==> old_view.insert(
                    action@,
                    handler,
                ).dom().contains(x) by {
                    if self@.dom().contains(x) && x != action@ {
                        let i = choose|i: int| 0 <= i < self.names@.len() && self.names@[i]@ == x;
                        if i < k {
                            assert(old_names[i]@ == x);
                        } else if i > k {
                            assert(old_names[i - 1]@ == x);
                        }
                    }
                    if old_view.dom().contains(x) {
                        let i = choose|i: int| 0 <= i < old_names.len() && old_names[i]@ == x;
                        if i < k {
                            assert(self.names@[i]@ == x);
                        } else {
                            assert(self.names@[i + 1]@ == x);
                        }
                    }
                    if x == action@ {
                        assert(self.names@[k as int]@ == x);
                    }
                }
                assert forall|x: Seq<char>| #[trigger] self@.dom().contains(x) implies self@[x]
                    == old_view.insert(action@, handler)[x] by {
                    let i = choose|i: int| 0 <= i < self.names@.len() && self.names@[i]@ == x;
                    self.lemma_view_at(i);
                    if i < k {
                        old(self).lemma_view_at(i);
                    } else if i > k {
                        old(self).lemma_view_at(i - 1);
                    }
                }
                assert(self@ =~= old_view.insert(action@, handler));
            }
        }
    }

    /// Drops every handler.
    pub fn clear(&mut self)
        ensures
            final(self).wf(),
            final(self)@ == Map::<Seq<char>, H>::empty(),
    {
        self.names.clear();
        self.handlers.clear();
        assert(self@ =~= Map::<Seq<char>, H>::empty());
    }

    /// The names that have a handler, in ascending order, each once.
    pub fn registered_actions(&self) -> (names: Vec<String>)
        requires
            self.wf(),
        ensures
            forall|i: int, j: int|
                0 <= i < j < names@.len() ==> seq_less(
                    #[trigger] names@[i]@,
                    #[trigger] names@[j]@,
                ),
            forall|i: int| 0 <= i < names@.len() ==> self@.contains_key(#[trigger] names@[i]@),
            forall|k: Seq<char>| #[trigger]
                self@.contains_key(k) ==> exists|i: int| 0 <= i < names@.len() && names@[i]@ == k,
    {
        let mut out: Vec<String> = Vec::new();
        let n = self.names.len();
        let mut i: usize = 0;
        while i < n
            invariant
                n == self.names@.len(),
                i <= n,
                out@.len() == i,
                forall|k: int| 0 <= k < i ==> #[trigger] out@[k]@ == self.names@[k]@,
            decreases n - i,
        {
            out.push(self.names[i].clone());
            i = i + 1;
        }
        proof {
            assert forall|k: int| 0 <= k < out@.len() implies self@.contains_key(
                #[trigger] out@[k]@,
            ) by {
                assert(out@[k]@ == self.names@[k]@);
            }
            assert forall|k: Seq<char>| #[trigger] self@.contains_key(k) implies exists|i: int|
                0 <= i < out@.len() && out@[i]@ == k by {
                let i = choose|i: int| 0 <= i < self.names@.len() && self.names@[i]@ == k;
                assert(out@[i]@ == k);
            }
            assert forall|a: int, b: int| 0 <= a < b < out@.len() implies seq_less(
                #[trigger] out@[a]@,
                #[trigger] out@[b]@,
            ) by {
                assert(out@[a]@ == self.names@[a]@ && out@[b]@ == self.names@[b]@);
            }
        }
        out
    }
}

/// Whether a decorated object may be registered as a handler: only one
/// that can be called; any other is refused before the registry is touched.
pub fn check_callable(callable: bool) -> (r: Result<(), String>)
    ensures
        callable ==> r is Ok,
        !callable ==> (r matches Err(e) && e@ == not_callable_message()),
{
    if !callable {
        return Err(String::from_str("装饰器只能用于可调用对象"));
    }
    Ok(())
}

/// Why a handler call produced no result.
#[derive(Debug, PartialEq, Eq)]
pub enum DispatchFailure {
    /// The registry could not be read; the error's text.
    Lookup(String),
    /// No handler is registered for the action.
    Unregistered,
    /// Reloading the handler's module failed; the error's text.
    Reload(String),
    /// The event's data could not be handed to Python; the error's text.
    Data(String),
    /// The Python event object could not be made; the error's text.
    EventCreate(String),
    /// The handler raised; the error's text.
    Call(String),
    /// The handler's result is not serializable as JSON; the error's text.
    Serialize(String),
}

/// The message that tells the page why a call for `action` failed.
pub open spec fn failure_text(action: Seq<char>, failure: DispatchFailure) -> Seq<char> {
    match failure {
        DispatchFailure::Lookup(e) => "读取 Python 回调失败："@ + e@,
        DispatchFailure::Unregistered => "未注册 Python action："@ + action,
        DispatchFailure::Reload(e) => "重新加载 Python 模块失败："@ + e@,
        DispatchFailure::Data(e) => "无法转换事件数据："@ + e@,
        DispatchFailure::EventCreate(e) => "无法创建 Python Event："@ + e@,
        DispatchFailure::Call(e) => "Python 回调执行失败："@ + e@,
        DispatchFailure::Serialize(e) => "Python 返回值无法序列化为 JSON："@ + e@,
    }
}

/// The message that tells the page why a call for `action` failed.
pub fn failure_message(action: &str, failure: &DispatchFailure) -> (m: String)
    ensures
        m@ == failure_text(action@, *failure),
{
    match failure {
        DispatchFailure::Lookup(e) => joined("读取 Python 回调失败：", e.as_str()),
        DispatchFailure::Unregistered => joined("未注册 Python action：", action),
        DispatchFailure::Reload(e) => joined("重新加载 Python 模块失败：", e.as_str()),
        DispatchFailure::Data(e) => joined("无法转换事件数据：", e.as_str()),
        DispatchFailure::EventCreate(e) => joined("无法创建 Python Event：", e.as_str()),
        DispatchFailure::Call(e) => joined("Python 回调执行失败：", e.as_str()),
        DispatchFailure::Serialize(e) => joined("Python 返回值无法序列化为 JSON：", e.as_str()),
    }
}

/// The answer to a page request: its id, and the handler's JSON result or
/// the error.
#[derive(Debug, PartialEq, Eq)]
pub struct PythonReply {
    pub request_id: String,
    pub result_json: Option<String>,
    pub error: Option<String>,
}

/// The answer the page gets for a handler call of `action`: none for an
/// event without a request id; otherwise the JSON result, or the message of
/// the failure.
pub fn dispatch_reply(request_id: Option<String>, action: &str, outcome: Result<
    String,
    DispatchFailure,
>) -> (reply: Option<PythonReply>)
    ensures
        request_id is None ==> reply is None,
        request_id matches Some(id) ==> (reply matches Some(r) && r.request_id == id && match outcome {
            Ok(json) => r.result_json == Some(json) && r.error is None,
            Err(f) => r.result_json is None && (r.error matches Some(m) && m@ == failure_text(
                action@,
                f,
            )),
        }),
{
    match request_id {
        None => None,
        Some(id) => match outcome {
            Ok(json) => Some(PythonReply { request_id: id, result_json: Some(json), error: None }),
            Err(f) => {
                let m = failure_message(action, &f);
                Some(PythonReply { request_id: id, result_json: None, error: Some(m) })
            },
        },
    }
}

/// The message for a test-mode handler defined in `__main__`, whose module
/// cannot be reloaded.
pub open spec fn main_module_message() -> Seq<char> {
    "测试模式回调必须定义在可导入的独立模块中，不能定义在 __main__"@
}

/// Whether the module of a handler can be reloaded: `__main__` cannot.
pub fn check_reload_module(module_name: &str) -> (r: Result<(), String>)
    ensures
        module_name@ == "__main__"@ ==> (r matches Err(e) && e@ == main_module_message()),
        module_name@ != "__main__"@ ==> r is Ok,
{
    if str_equal(module_name, "__main__") {
        return Err(String::from_str("测试模式回调必须定义在可导入的独立模块中，不能定义在 __main__"));
    }
    Ok(())
}

/// The message for a reloaded `module.function` that cannot be called.
pub fn reloaded_not_callable(module_name: &str, function_name: &str) -> (m: String)
    ensures
        m@ == "重载后的 `"@ + module_name@ + "."@ + function_name@ + "` 不可调用"@,
{
    let a = joined("重载后的 `", module_name);
    let b = joined(a.as_str(), ".");
    let c = joined(b.as_str(), function_name);
    joined(c.as_str(), "` 不可调用")
}

/// A handler registered for an action is what a later lookup of that
/// action finds, registering again replaces it, and other actions keep their
/// handlers.
pub proof fn law_register_then_lookup<H>(m: Map<Seq<char>, H>, k: Seq<char>, h: H, h2: H, other: Seq<char>)
    requires
        other != k,
    ensures
        m.insert(k, h).contains_key(k),
        m.insert(k, h)[k] == h,
        m.insert(k, h).insert(k, h2) == m.insert(k, h2),
        m.insert(k, h).contains_key(other) == m.contains_key(other),
        m.contains_key(other) ==> m.insert(k, h)[other] == m[other],
{
    assert(m.insert(k, h).insert(k, h2) =~= m.insert(k, h2));
}

} // verus!
