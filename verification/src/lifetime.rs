//! The life of a registration, from the moment the session records it to
//! its one retraction.
//!
//! A closure must not be freed while the Steam client may still invoke it,
//! and it must not be freed twice. The session keeps account: every handle
//! it is given stays in the registry until the session hands it back for
//! retraction, which it does exactly once, and it never asks to invoke a
//! closure that it has handed back.

use crate::callback::{Action, CallbackHandle, CallbackKind, Event, Registration};
use crate::registry::{
    invocations, invokes, lemma_count_actions, lemma_invoked_as_often_as_registered,
    lists_call_results, registrations, retract_call_result, retract_callback, retractions,
    retracts, same_as, teardown_steps, Registry,
};
use crate::TeardownStep;
use vstd::prelude::*;
use vstd::set_lib::lemma_len_subset;

verus! {

/// Selects the registrations whose closure is behind `handle`.
pub open spec fn behind(handle: CallbackHandle) -> spec_fn(Registration) -> bool {
    |r: Registration| r.handle == handle
}

/// Selects the steps that retract `handle`.
pub open spec fn retract_step(handle: CallbackHandle) -> spec_fn(TeardownStep) -> bool {
    |s: TeardownStep| s == TeardownStep::Retract(handle)
}

/// The pending requests whose call result is behind `handle`.
pub open spec fn pending_behind(m: Map<u64, Registration>, handle: CallbackHandle) -> Set<u64> {
    Set::new(|k: u64| m.contains_key(k) && m[k].handle == handle)
}

/// How many registrations of a registry are behind `handle`: persistent
/// callbacks and call results together.
pub open spec fn held(reg: Registry, handle: CallbackHandle) -> nat {
    reg.callbacks.filter(behind(handle)).len() + pending_behind(reg.call_results, handle).len()
}

/// One if the condition holds, zero otherwise.
pub open spec fn one_if(b: bool) -> nat {
    if b {
        1
    } else {
        0
    }
}

/// The call results behind one handle are finitely many.
proof fn lemma_pending_finite(m: Map<u64, Registration>, handle: CallbackHandle)
    requires
        m.dom().finite(),
    ensures
        pending_behind(m, handle).finite(),
        pending_behind(m, handle).len() <= m.dom().len(),
{
    lemma_len_subset(pending_behind(m, handle), m.dom());
}

/// A fresh session holds nothing.
pub proof fn lemma_empty_holds_nothing(handle: CallbackHandle)
    ensures
        Registry::empty().wf(),
        held(Registry::empty(), handle) == 0,
{
    let reg = Registry::empty();
    reg.callbacks.lemma_filter_len(behind(handle));
    assert(pending_behind(reg.call_results, handle) =~= Set::<u64>::empty());
}

/// Registering a persistent callback adds its handle to the account, once.
pub proof fn lemma_register_callback_keeps_account(
    reg: Registry,
    record: Registration,
    handle: CallbackHandle,
)
    requires
        reg.wf(),
    ensures
        reg.insert_callback(record).wf(),
        held(reg.insert_callback(record), handle) == held(reg, handle) + one_if(
            record.handle == handle,
        ),
{
    reg.callbacks.lemma_filter_push(record, behind(handle));
}

/// Registering a call result adds its handle to the account, once, and
/// takes out the handle of the registration that it replaces, which is
/// handed back to be retracted.
pub proof fn lemma_register_call_result_keeps_account(
    reg: Registry,
    api_call: u64,
    record: Registration,
    handle: CallbackHandle,
)
    requires
        reg.wf(),
    ensures
        reg.insert_call_result(api_call, record).wf(),
        held(reg.insert_call_result(api_call, record), handle) + one_if(
            reg.call_results.contains_key(api_call) && reg.call_results[api_call].handle == handle,
        ) == held(reg, handle) + one_if(record.handle == handle),
{
    let after = reg.insert_call_result(api_call, record);
    let before_set = pending_behind(reg.call_results, handle);
    let after_set = pending_behind(after.call_results, handle);
    lemma_pending_finite(reg.call_results, handle);
    lemma_pending_finite(after.call_results, handle);
    if record.handle == handle {
        assert(after_set =~= before_set.remove(api_call).insert(api_call));
    } else {
        assert(after_set =~= before_set.remove(api_call));
    }
}

/// A dispatch keeps account.
///
/// Whatever one event does to the registry, the registrations behind a
/// handle that leave the registry are exactly those that the actions
/// retract; and the actions invoke the closure behind a handle only if the
/// registry held it when the event arrived.
pub proof fn lemma_dispatch_keeps_account(reg: Registry, event: Event, handle: CallbackHandle)
    requires
        reg.wf(),
    ensures
        reg.after(event).wf(),
        held(reg.after(event), handle) + retractions(reg.actions(event), handle) == held(
            reg,
            handle,
        ),
        invocations(reg.actions(event), handle) > 0 ==> held(reg, handle) > 0,
{
    let none = Seq::<Action>::empty();
    lemma_count_actions(none, Action::Retract(handle), handle);
    match event {
        Event::Callback { id, payload } => {
            match CallbackKind::spec_from_id(id) {
                Some(kind) => {
                    let decoded = kind.spec_decode(payload@);
                    let record = Registration { kind, handle };
                    lemma_invoked_as_often_as_registered(reg, kind, decoded, handle);
                    if registrations(reg.callbacks, record) > 0 {
                        let found = reg.callbacks.filter(same_as(record));
                        reg.callbacks.lemma_filter_pred(same_as(record), 0);
                        assert(found.contains(found[0]));
                        reg.callbacks.lemma_filter_contains_rev(same_as(record), found[0]);
                        let i = choose|i: int|
                            0 <= i < reg.callbacks.len() && reg.callbacks[i] == found[0];
                        reg.callbacks.lemma_filter_contains(behind(handle), i);
                    }
                },
                None => {},
            }
        },
        Event::CallResult { api_call, io_failure, payload } => {
            lemma_pending_finite(reg.call_results, handle);
            let before_set = pending_behind(reg.call_results, handle);
            let after_set = pending_behind(reg.after(event).call_results, handle);
            assert(after_set =~= before_set.remove(api_call));
            if reg.call_results.contains_key(api_call) {
                let actions = reg.actions(event);
                assert(actions =~= none.push(actions[0]).push(actions[1]));
                lemma_count_actions(none, actions[0], handle);
                lemma_count_actions(none.push(actions[0]), actions[1], handle);
            }
        },
    }
}

/// The end of a session settles the account.
///
/// A plan that ends a session retracts a handle as often as the registry
/// holds it: every closure that is still registered is freed, once for each
/// of its registrations, and no other.
pub proof fn lemma_teardown_settles_account(
    reg: Registry,
    plan: Seq<TeardownStep>,
    handle: CallbackHandle,
)
    requires
        reg.wf(),
        reg.is_teardown_plan(plan),
    ensures
        plan.filter(retract_step(handle)).len() == held(reg, handle),
{
    let entries = choose|entries: Seq<(u64, Registration)>|
        lists_call_results(reg.call_results, entries) && plan == #[trigger] teardown_steps(
            reg.callbacks,
            entries,
        );
    let first = reg.callbacks.map_values(retract_callback());
    let second = entries.map_values(retract_call_result());
    let last = seq![TeardownStep::Shutdown];
    lemma_retracted_callbacks(reg.callbacks, handle);
    lemma_retracted_call_results(reg.call_results, entries, handle);
    Seq::filter_distributes_over_add(first + second, last, retract_step(handle));
    Seq::filter_distributes_over_add(first, second, retract_step(handle));
    assert(last =~= Seq::<TeardownStep>::empty().push(TeardownStep::Shutdown));
    Seq::<TeardownStep>::empty().lemma_filter_push(TeardownStep::Shutdown, retract_step(handle));
    Seq::<TeardownStep>::empty().lemma_filter_len(retract_step(handle));
}

/// The retractions of the persistent callbacks retract a handle as often
/// as it stands among them.
proof fn lemma_retracted_callbacks(callbacks: Seq<Registration>, handle: CallbackHandle)
    ensures
        callbacks.map_values(retract_callback()).filter(retract_step(handle)).len()
            == callbacks.filter(behind(handle)).len(),
    decreases callbacks.len(),
{
    if callbacks.len() == 0 {
        callbacks.lemma_filter_len(behind(handle));
        callbacks.map_values(retract_callback()).lemma_filter_len(retract_step(handle));
    } else {
        let front = callbacks.drop_last();
        let r = callbacks.last();
        lemma_retracted_callbacks(front, handle);
        assert(callbacks =~= front.push(r));
        assert(callbacks.map_values(retract_callback()) =~= front.map_values(
            retract_callback(),
        ).push(TeardownStep::Retract(r.handle)));
        front.lemma_filter_push(r, behind(handle));
        front.map_values(retract_callback()).lemma_filter_push(
            TeardownStep::Retract(r.handle),
            retract_step(handle),
        );
    }
}

/// The retractions of the listed call results retract a handle as often as
/// a call result is behind it.
proof fn lemma_retracted_call_results(
    m: Map<u64, Registration>,
    entries: Seq<(u64, Registration)>,
    handle: CallbackHandle,
)
    requires
        m.dom().finite(),
        lists_call_results(m, entries),
    ensures
        entries.map_values(retract_call_result()).filter(retract_step(handle)).len()
            == pending_behind(m, handle).len(),
    decreases entries.len(),
{
    if entries.len() == 0 {
        entries.map_values(retract_call_result()).lemma_filter_len(retract_step(handle));
        assert(pending_behind(m, handle) =~= Set::<u64>::empty()) by {
            assert forall|k: u64| !pending_behind(m, handle).contains(k) by {
                if m.contains_key(k) {
                    let i = choose|i: int| 0 <= i < entries.len() && (#[trigger] entries[i]).0 == k;
                }
            }
        }
    } else {
        let front = entries.drop_last();
        let e = entries.last();
        let rest = m.remove(e.0);
        assert(m.contains_key(e.0) && m[e.0] == e.1);
        assert(lists_call_results(rest, front)) by {
            assert forall|i: int| 0 <= i < front.len() implies rest.contains_key(
                #[trigger] front[i].0,
            ) && rest[front[i].0] == front[i].1 by {
                assert(front[i] == entries[i]);
                assert(entries[i].0 != entries[entries.len() - 1].0);
            }
            assert forall|i: int, j: int| 0 <= i < j < front.len() implies (
            #[trigger] front[i]).0 != (#[trigger] front[j]).0 by {
                assert(front[i] == entries[i] && front[j] == entries[j]);
            }
            assert forall|k: u64| #[trigger] rest.contains_key(k) implies exists|i: int|
                0 <= i < front.len() && (#[trigger] front[i]).0 == k by {
                assert(m.contains_key(k));
                let i = choose|i: int| 0 <= i < entries.len() && (#[trigger] entries[i]).0 == k;
                assert(front[i] == entries[i]);
            }
        }
        lemma_retracted_call_results(rest, front, handle);
        lemma_pending_finite(rest, handle);
        assert(entries =~= front.push(e));
        assert(entries.map_values(retract_call_result()) =~= front.map_values(
            retract_call_result(),
        ).push(TeardownStep::Retract(e.1.handle)));
        front.map_values(retract_call_result()).lemma_filter_push(
            TeardownStep::Retract(e.1.handle),
            retract_step(handle),
        );
        if e.1.handle == handle {
            assert(pending_behind(m, handle) =~= pending_behind(rest, handle).insert(e.0));
        } else {
            assert(pending_behind(m, handle) =~= pending_behind(rest, handle));
        }
    }
}

/// A pump keeps account.
///
/// Over a whole run of events, the registrations behind a handle that
/// leave the registry are exactly those that the actions retract.
pub proof fn lemma_pump_keeps_account(reg: Registry, events: Seq<Event>, handle: CallbackHandle)
    requires
        reg.wf(),
    ensures
        reg.after_all(events).wf(),
        held(reg.after_all(events), handle) + retractions(reg.actions_of_all(events), handle)
            == held(reg, handle),
    decreases events.len(),
{
    if events.len() == 0 {
        lemma_count_actions(Seq::empty(), Action::Retract(handle), handle);
    } else {
        let front = events.drop_last();
        lemma_pump_keeps_account(reg, front, handle);
        lemma_dispatch_keeps_account(reg.after_all(front), events.last(), handle);
        Seq::filter_distributes_over_add(
            reg.actions_of_all(front),
            reg.after_all(front).actions(events.last()),
            retracts(handle),
        );
    }
}

/// A retracted closure is never invoked.
///
/// Where a closure is registered at most once, no run of events invokes it
/// after the actions have retracted it: once the session has handed a
/// closure back to be freed, it does not ask for it again.
pub proof fn lemma_no_invocation_after_retraction(
    reg: Registry,
    events: Seq<Event>,
    handle: CallbackHandle,
)
    requires
        reg.wf(),
        held(reg, handle) <= 1,
    ensures
        forall|i: int, j: int|
            #![trigger reg.actions_of_all(events)[i], reg.actions_of_all(events)[j]]
            0 <= i < j < reg.actions_of_all(events).len() && reg.actions_of_all(events)[i]
                == Action::Retract(handle) ==> !invokes(handle)(reg.actions_of_all(events)[j]),
    decreases events.len(),
{
    if events.len() > 0 {
        let front = events.drop_last();
        let mid = reg.after_all(front);
        let a = reg.actions_of_all(front);
        let b = mid.actions(events.last());
        let all = reg.actions_of_all(events);
        lemma_no_invocation_after_retraction(reg, front, handle);
        lemma_pump_keeps_account(reg, front, handle);
        lemma_dispatch_keeps_account(mid, events.last(), handle);
        assert forall|i: int, j: int|
            0 <= i < j < all.len() && all[i] == Action::Retract(handle) implies !invokes(handle)(
            all[j],
        ) by {
            if j < a.len() {
                assert(all[i] == a[i] && all[j] == a[j]);
            } else if i < a.len() {
                assert(all[i] == a[i] && all[j] == b[j - a.len()]);
                a.lemma_filter_contains(retracts(handle), i);
                assert(retractions(a, handle) > 0);
                assert(held(mid, handle) == 0);
                if invokes(handle)(b[j - a.len()]) {
                    b.lemma_filter_contains(invokes(handle), j - a.len());
                }
            } else {
                assert(all[i] == b[i - a.len()] && all[j] == b[j - a.len()]);
                b.lemma_filter_contains(retracts(handle), i - a.len());
                lemma_retraction_comes_last(mid, events.last(), handle);
            }
        }
    }
}

/// Within the actions of one event, the retraction of a handle is the last
/// action.
proof fn lemma_retraction_comes_last(reg: Registry, event: Event, handle: CallbackHandle)
    ensures
        forall|i: int|
            0 <= i < reg.actions(event).len() && #[trigger] reg.actions(event)[i]
                == Action::Retract(handle) ==> i == reg.actions(event).len() - 1,
{
    match event {
        Event::Callback { id, payload } => {
            match CallbackKind::spec_from_id(id) {
                Some(kind) => {
                    let actions = reg.actions(event);
                    lemma_invoked_as_often_as_registered(
                        reg,
                        kind,
                        kind.spec_decode(payload@),
                        handle,
                    );
                    assert forall|i: int|
                        0 <= i < actions.len() implies #[trigger] actions[i] != Action::Retract(
                        handle,
                    ) by {
                        if actions[i] == Action::Retract(handle) {
                            actions.lemma_filter_contains(retracts(handle), i);
                        }
                    }
                },
                None => {},
            }
        },
        Event::CallResult { .. } => {},
    }
}

} // verus!
