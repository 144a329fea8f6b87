//! The mathematical model of the handle registry: which registrations the
//! session holds, and what a dispatch does with them.

use crate::callback::{Action, CallbackHandle, CallbackKind, Delivery, Event, Payload, Registration};
use crate::TeardownStep;
use vstd::prelude::*;

verus! {

/// The registrations of a session: the persistent callbacks in the order
/// of their registration, and the one-shot call results by the id of the
/// pending request.
pub struct Registry {
    pub callbacks: Seq<Registration>,
    pub call_results: Map<u64, Registration>,
}

/// Selects the registrations of one shape.
pub open spec fn of_kind(kind: CallbackKind) -> spec_fn(Registration) -> bool {
    |r: Registration| r.kind == kind
}

/// The invocation of a persistent registration with a decoded payload.
pub open spec fn invoke_with(payload: Option<Payload>) -> spec_fn(Registration) -> Action {
    |r: Registration| Action::Invoke(Delivery { handle: r.handle, payload, io_failure: false })
}

/// Selects the invocations of the closure behind one handle.
pub open spec fn invokes(handle: CallbackHandle) -> spec_fn(Action) -> bool {
    |a: Action| a matches Action::Invoke(d) && d.handle == handle
}

/// Selects the retractions of one handle.
pub open spec fn retracts(handle: CallbackHandle) -> spec_fn(Action) -> bool {
    |a: Action| a == Action::Retract(handle)
}

/// How often a list of actions invokes the closure behind `handle`.
pub open spec fn invocations(actions: Seq<Action>, handle: CallbackHandle) -> nat {
    actions.filter(invokes(handle)).len()
}

/// How often a list of actions retracts `handle`.
pub open spec fn retractions(actions: Seq<Action>, handle: CallbackHandle) -> nat {
    actions.filter(retracts(handle)).len()
}

/// Whether `entries` lists the call results of `m`: each entry of the map
/// exactly once, in any order.
pub open spec fn lists_call_results(
    m: Map<u64, Registration>,
    entries: Seq<(u64, Registration)>,
) -> bool {
    &&& entries.len() == m.dom().len()
    &&& forall|i: int|
        0 <= i < entries.len() ==> m.contains_key(#[trigger] entries[i].0) && m[entries[i].0]
            == entries[i].1
    &&& forall|i: int, j: int|
        0 <= i < j < entries.len() ==> (#[trigger] entries[i]).0 != (#[trigger] entries[j]).0
    &&& forall|k: u64| #[trigger]
        m.contains_key(k) ==> exists|i: int| 0 <= i < entries.len() && (#[trigger] entries[i]).0 == k
}

/// The retraction of a persistent callback.
pub open spec fn retract_callback() -> spec_fn(Registration) -> TeardownStep {
    |r: Registration| TeardownStep::Retract(r.handle)
}

/// The retraction of a call result.
pub open spec fn retract_call_result() -> spec_fn((u64, Registration)) -> TeardownStep {
    |e: (u64, Registration)| TeardownStep::Retract(e.1.handle)
}

/// The steps that end a session with these registrations: the retraction
/// of every persistent callback, then of every call result, and only then
/// the shutdown of the connection.
pub open spec fn teardown_steps(
    callbacks: Seq<Registration>,
    entries: Seq<(u64, Registration)>,
) -> Seq<TeardownStep> {
    callbacks.map_values(retract_callback()) + entries.map_values(retract_call_result())
        + seq![TeardownStep::Shutdown]
}

impl Registry {
    /// The registry of a fresh session.
    pub open spec fn empty() -> Registry {
        Registry { callbacks: Seq::empty(), call_results: Map::empty() }
    }

    /// A registry is well formed when it holds finitely many call results.
    pub open spec fn wf(self) -> bool {
        self.call_results.dom().finite()
    }

    /// The number of registrations, persistent and one-shot together.
    pub open spec fn len(self) -> nat {
        self.callbacks.len() + self.call_results.dom().len()
    }

    /// The registry with one more persistent callback, after all others.
    pub open spec fn insert_callback(self, record: Registration) -> Registry {
        Registry { callbacks: self.callbacks.push(record), ..self }
    }

    /// The call result that is registered for a pending request, if any.
    pub open spec fn call_result(self, api_call: u64) -> Option<Registration> {
        if self.call_results.contains_key(api_call) {
            Some(self.call_results[api_call])
        } else {
            None
        }
    }

    /// The registry with `record` as the call result of `api_call`, in
    /// place of what was registered for it before.
    pub open spec fn insert_call_result(self, api_call: u64, record: Registration) -> Registry {
        Registry { call_results: self.call_results.insert(api_call, record), ..self }
    }

    /// The registry without a call result for `api_call`.
    pub open spec fn remove_call_result(self, api_call: u64) -> Registry {
        Registry { call_results: self.call_results.remove(api_call), ..self }
    }

    /// Whether `plan` ends a session that holds this registry: it retracts
    /// the persistent callbacks in the order of their registration, then
    /// each call result once, in any order, and shuts the connection down
    /// last.
    pub open spec fn is_teardown_plan(self, plan: Seq<TeardownStep>) -> bool {
        exists|entries: Seq<(u64, Registration)>|
            lists_call_results(self.call_results, entries) && plan == #[trigger] teardown_steps(
                self.callbacks,
                entries,
            )
    }

    /// The invocations that an occurrence of a shape causes: one for each
    /// persistent callback of that shape, in the order of registration.
    pub open spec fn callback_actions(self, kind: CallbackKind, payload: Option<Payload>) -> Seq<
        Action,
    > {
        self.callbacks.filter(of_kind(kind)).map_values(invoke_with(payload))
    }

    /// The actions that the completion of a pending request causes: where a
    /// call result is registered for it, one invocation of its closure and
    /// then its retraction; otherwise nothing.
    pub open spec fn call_result_actions(self, api_call: u64, io_failure: bool, buffer: Seq<u8>) -> Seq<
        Action,
    > {
        match self.call_result(api_call) {
            Some(r) => seq![
                Action::Invoke(
                    Delivery { handle: r.handle, payload: r.kind.spec_decode(buffer), io_failure },
                ),
                Action::Retract(r.handle),
            ],
            None => Seq::empty(),
        }
    }

    /// The actions that one event causes.
    pub open spec fn actions(self, event: Event) -> Seq<Action> {
        match event {
            Event::Callback { id, payload } => match CallbackKind::spec_from_id(id) {
                Some(kind) => self.callback_actions(kind, kind.spec_decode(payload@)),
                None => Seq::empty(),
            },
            Event::CallResult { api_call, io_failure, payload } => self.call_result_actions(
                api_call,
                io_failure,
                payload@,
            ),
        }
    }

    /// The registry after one event: a call result that fired is gone,
    /// everything else stays.
    pub open spec fn after(self, event: Event) -> Registry {
        match event {
            Event::Callback { .. } => self,
            Event::CallResult { api_call, .. } => self.remove_call_result(api_call),
        }
    }

    /// The registry after a run of events, each dispatched in its turn.
    pub open spec fn after_all(self, events: Seq<Event>) -> Registry
        decreases events.len(),
    {
        if events.len() == 0 {
            self
        } else {
            self.after_all(events.drop_last()).after(events.last())
        }
    }

    /// The actions of a run of events: those of the first event, then those
    /// of the second on the registry that the first left, and so on.
    pub open spec fn actions_of_all(self, events: Seq<Event>) -> Seq<Action>
        decreases events.len(),
    {
        if events.len() == 0 {
            Seq::empty()
        } else {
            self.actions_of_all(events.drop_last()) + self.after_all(events.drop_last()).actions(
                events.last(),
            )
        }
    }
}

/// Selects the registrations equal to `record`.
pub open spec fn same_as(record: Registration) -> spec_fn(Registration) -> bool {
    |r: Registration| r == record
}

/// How often `record` stands among the persistent callbacks.
pub open spec fn registrations(callbacks: Seq<Registration>, record: Registration) -> nat {
    callbacks.filter(same_as(record)).len()
}

/// Counting the invocations and retractions of a handle goes action by
/// action: an empty list holds none, and one more action adds one where it
/// is an invocation, or a retraction, of that handle.
pub proof fn lemma_count_actions(actions: Seq<Action>, a: Action, handle: CallbackHandle)
    ensures
        invocations(Seq::empty(), handle) == 0,
        retractions(Seq::empty(), handle) == 0,
        invocations(actions.push(a), handle) == invocations(actions, handle) + if invokes(handle)(
            a,
        ) {
            1nat
        } else {
            0nat
        },
        retractions(actions.push(a), handle) == retractions(actions, handle) + if a
            == Action::Retract(handle) {
            1nat
        } else {
            0nat
        },
{
    Seq::<Action>::empty().lemma_filter_len(invokes(handle));
    Seq::<Action>::empty().lemma_filter_len(retracts(handle));
    actions.lemma_filter_push(a, invokes(handle));
    actions.lemma_filter_push(a, retracts(handle));
}

/// An occurrence of a shape invokes a closure as often as it is registered
/// for that shape, and retracts nothing.
pub proof fn lemma_invoked_as_often_as_registered(
    reg: Registry,
    kind: CallbackKind,
    payload: Option<Payload>,
    handle: CallbackHandle,
)
    ensures
        invocations(reg.callback_actions(kind, payload), handle) == registrations(
            reg.callbacks,
            Registration { kind, handle },
        ),
        retractions(reg.callback_actions(kind, payload), handle) == 0,
    decreases reg.callbacks.len(),
{
    let record = Registration { kind, handle };
    if reg.callbacks.len() == 0 {
        reg.callbacks.lemma_filter_len(of_kind(kind));
        reg.callbacks.lemma_filter_len(same_as(record));
        assert(reg.callback_actions(kind, payload) =~= Seq::<Action>::empty());
        lemma_count_actions(Seq::empty(), Action::Retract(handle), handle);
    } else {
        let front = Registry { callbacks: reg.callbacks.drop_last(), ..reg };
        let last = reg.callbacks.last();
        lemma_invoked_as_often_as_registered(front, kind, payload, handle);
        assert(reg.callbacks =~= front.callbacks.push(last));
        front.callbacks.lemma_filter_push(last, of_kind(kind));
        front.callbacks.lemma_filter_push(last, same_as(record));
        if last.kind == kind {
            let a = invoke_with(payload)(last);
            assert(reg.callback_actions(kind, payload) =~= front.callback_actions(
                kind,
                payload,
            ).push(a));
            lemma_count_actions(front.callback_actions(kind, payload), a, handle);
        }
    }
}

/// A call result fires once.
///
/// The completion of a pending request for which a call result is
/// registered invokes its closure exactly once and then retracts it
/// exactly once. Afterwards the registry holds no entry for the request, so
/// a second completion of the same request reaches nobody. Nothing else in
/// the registry changes.
pub proof fn lemma_call_result_fires_once(
    reg: Registry,
    api_call: u64,
    io_failure: bool,
    payload: Vec<u8>,
)
    requires
        reg.call_results.contains_key(api_call),
    ensures
        ({
            let event = Event::CallResult { api_call, io_failure, payload };
            let fired = reg.call_results[api_call];
            let actions = reg.actions(event);
            &&& actions.len() == 2
            &&& actions[0] == Action::Invoke(
                Delivery {
                    handle: fired.handle,
                    payload: fired.kind.spec_decode(payload@),
                    io_failure,
                },
            )
            &&& actions[1] == Action::Retract(fired.handle)
            &&& invocations(actions, fired.handle) == 1
            &&& retractions(actions, fired.handle) == 1
            &&& reg.after(event).call_result(api_call) is None
            &&& reg.after(event).actions(event) == Seq::<Action>::empty()
            &&& reg.after(event).callbacks == reg.callbacks
            &&& forall|other: u64|
                other != api_call ==> reg.after(event).call_result(other) == reg.call_result(other)
        }),
{
    let event = Event::CallResult { api_call, io_failure, payload };
    let fired = reg.call_results[api_call];
    let actions = reg.actions(event);
    let none = Seq::<Action>::empty();
    assert(actions =~= none.push(actions[0]).push(actions[1]));
    lemma_count_actions(none, actions[0], fired.handle);
    lemma_count_actions(none.push(actions[0]), actions[1], fired.handle);
}

/// The completion of a request for which nothing is registered invokes
/// nobody, retracts nothing and leaves the registry as it was.
pub proof fn lemma_unregistered_call_result_reaches_nobody(
    reg: Registry,
    api_call: u64,
    io_failure: bool,
    payload: Vec<u8>,
)
    requires
        !reg.call_results.contains_key(api_call),
    ensures
        ({
            let event = Event::CallResult { api_call, io_failure, payload };
            &&& reg.actions(event) == Seq::<Action>::empty()
            &&& reg.after(event) == reg
        }),
{
    assert(reg.call_results.remove(api_call) =~= reg.call_results);
}

/// Persistent callbacks persist.
///
/// Whatever events are dispatched, and however many, the persistent
/// callbacks stay as they were registered: a later occurrence of their
/// shape reaches them as the first did.
pub proof fn lemma_callbacks_persist(reg: Registry, events: Seq<Event>)
    ensures
        reg.after_all(events).callbacks == reg.callbacks,
        forall|kind: CallbackKind, payload: Option<Payload>|
            #![trigger reg.after_all(events).callback_actions(kind, payload)]
            reg.after_all(events).callback_actions(kind, payload) == reg.callback_actions(
                kind,
                payload,
            ),
    decreases events.len(),
{
    if events.len() > 0 {
        lemma_callbacks_persist(reg, events.drop_last());
    }
}

/// A persistent callback stays invocable.
///
/// However many events have been dispatched since, an occurrence of the
/// shape of a persistent callback invokes its closure: as often as the
/// closure is registered for that shape, which is at least once, and
/// without retracting it.
pub proof fn lemma_callback_stays_invocable(
    reg: Registry,
    events: Seq<Event>,
    i: int,
    payload: Vec<u8>,
)
    requires
        0 <= i < reg.callbacks.len(),
    ensures
        ({
            let r = reg.callbacks[i];
            let later = reg.after_all(events);
            let event = Event::Callback { id: r.kind.spec_id(), payload };
            &&& later.callbacks == reg.callbacks
            &&& invocations(later.actions(event), r.handle) == registrations(reg.callbacks, r)
            &&& invocations(later.actions(event), r.handle) >= 1
            &&& retractions(later.actions(event), r.handle) == 0
            &&& later.after(event) == later
        }),
{
    let r = reg.callbacks[i];
    let later = reg.after_all(events);
    lemma_callbacks_persist(reg, events);
    CallbackKind::lemma_id_names_kind(r.kind, r.kind);
    lemma_invoked_as_often_as_registered(later, r.kind, r.kind.spec_decode(payload@), r.handle);
    reg.callbacks.lemma_filter_contains(same_as(r), i);
}

/// Pumping twice is pumping once with both queues.
///
/// Dispatching one run of events and then another leaves the registry, and
/// causes the actions, that dispatching the two runs as one does.
pub proof fn lemma_pumps_compose(reg: Registry, first: Seq<Event>, second: Seq<Event>)
    ensures
        reg.after_all(first + second) == reg.after_all(first).after_all(second),
        reg.actions_of_all(first + second) == reg.actions_of_all(first) + reg.after_all(
            first,
        ).actions_of_all(second),
    decreases second.len(),
{
    if second.len() == 0 {
        assert(first + second =~= first);
        assert(reg.actions_of_all(first) + Seq::<Action>::empty() =~= reg.actions_of_all(first));
    } else {
        lemma_pumps_compose(reg, first, second.drop_last());
        assert((first + second).drop_last() =~= first + second.drop_last());
        assert((first + second).last() == second.last());
        let mid = reg.after_all(first);
        assert(reg.actions_of_all(first) + (mid.actions_of_all(second.drop_last())
            + mid.after_all(second.drop_last()).actions(second.last())) =~= (reg.actions_of_all(
            first,
        ) + mid.actions_of_all(second.drop_last())) + mid.after_all(
            second.drop_last(),
        ).actions(second.last()));
    }
}

/// Two callbacks for one event are both invoked.
///
/// After two closures are registered for the same shape, neither of them
/// registered before, one occurrence of that shape invokes each of them
/// exactly once, and both stay registered.
pub proof fn lemma_two_callbacks_both_invoked(
    reg: Registry,
    kind: CallbackKind,
    first: CallbackHandle,
    second: CallbackHandle,
    payload: Vec<u8>,
)
    requires
        first != second,
        registrations(reg.callbacks, Registration { kind, handle: first }) == 0,
        registrations(reg.callbacks, Registration { kind, handle: second }) == 0,
    ensures
        ({
            let both = reg.insert_callback(Registration { kind, handle: first }).insert_callback(
                Registration { kind, handle: second },
            );
            let event = Event::Callback { id: kind.spec_id(), payload };
            &&& invocations(both.actions(event), first) == 1
            &&& invocations(both.actions(event), second) == 1
            &&& retractions(both.actions(event), first) == 0
            &&& retractions(both.actions(event), second) == 0
            &&& both.after(event) == both
        }),
{
    let a = Registration { kind, handle: first };
    let b = Registration { kind, handle: second };
    let both = reg.insert_callback(a).insert_callback(b);
    let decoded = kind.spec_decode(payload@);
    CallbackKind::lemma_id_names_kind(kind, kind);
    lemma_invoked_as_often_as_registered(both, kind, decoded, first);
    lemma_invoked_as_often_as_registered(both, kind, decoded, second);
    reg.callbacks.lemma_filter_push(a, same_as(a));
    reg.callbacks.push(a).lemma_filter_push(b, same_as(a));
    reg.callbacks.lemma_filter_push(a, same_as(b));
    reg.callbacks.push(a).lemma_filter_push(b, same_as(b));
}

/// Retractions come before the shutdown.
///
/// A plan that ends a session is one step longer than the registry: it
/// retracts every persistent callback and every call result, and its last
/// step, and no other, shuts the connection down. So every retraction
/// strictly precedes the shutdown.
pub proof fn lemma_teardown_retracts_before_shutdown(reg: Registry, plan: Seq<TeardownStep>)
    requires
        reg.is_teardown_plan(plan),
    ensures
        plan.len() == reg.len() + 1,
        plan.last() == TeardownStep::Shutdown,
        forall|i: int| 0 <= i < reg.len() ==> #[trigger] plan[i] is Retract,
        forall|i: int, j: int|
            0 <= i < plan.len() && 0 <= j < plan.len() && #[trigger] plan[i] is Retract
                && #[trigger] plan[j] is Shutdown ==> i < j,
        forall|i: int|
            0 <= i < reg.callbacks.len() ==> #[trigger] plan[i] == TeardownStep::Retract(
                reg.callbacks[i].handle,
            ),
        forall|k: u64| #[trigger]
            reg.call_results.contains_key(k) ==> exists|i: int|
                reg.callbacks.len() <= i < reg.len() && #[trigger] plan[i]
                    == TeardownStep::Retract(reg.call_results[k].handle),
{
    let entries = choose|entries: Seq<(u64, Registration)>|
        lists_call_results(reg.call_results, entries) && plan == #[trigger] teardown_steps(
            reg.callbacks,
            entries,
        );
    let n = reg.callbacks.len() as int;
    assert forall|k: u64| #[trigger] reg.call_results.contains_key(k) implies exists|i: int|
        reg.callbacks.len() <= i < reg.len() && #[trigger] plan[i] == TeardownStep::Retract(
            reg.call_results[k].handle,
        ) by {
        let j = choose|j: int| 0 <= j < entries.len() && (#[trigger] entries[j]).0 == k;
        assert(plan[n + j] == TeardownStep::Retract(reg.call_results[k].handle));
    }
}

} // verus!
