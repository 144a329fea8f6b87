//! A verified core for the Steamworks callback machinery.
//!
//! The Steam client delivers persistent notifications ("callbacks") and
//! one-shot completions of asynchronous requests ("call results") through a
//! single polling entry point. This crate holds the part of a binding that
//! decides: which registrations exist, which of them an event reaches, how a
//! raw buffer becomes a typed payload, how a payload becomes a result, and in
//! which order a session is torn down. It performs no foreign calls itself;
//! a thin shell around it talks to the Steam client and carries out the
//! actions that the functions here return.
//!
//! Raw buffers are read as the Steam client lays its structures out on a
//! 64 bit little-endian target: integers lowest byte first, each field
//! aligned to its size.

use vstd::prelude::*;

pub mod apps;
pub mod callback;
pub mod error;
pub mod friends;
pub mod lifetime;
pub mod matchmaking;
pub mod registry;
pub mod utils;
pub mod wire;

pub use error::SteamError;

use callback::{Action, CallbackHandle, CallbackKind, Delivery, Event, Payload, Registration};
use registry::{
    invoke_with, lists_call_results, of_kind, retract_call_result, retract_callback,
    teardown_steps, Registry,
};
use std::collections::HashMap;
use vstd::std_specs::iter::IteratorSpec;

verus! {

broadcast use vstd::std_specs::hash::group_hash_axioms;

/// A user's steam id
#[derive(Clone, Copy, Debug, Ord, PartialOrd, Eq, PartialEq, Structural)]
pub struct SteamId(pub u64);

impl SteamId {
    /// Creates a `SteamId` from a raw 64 bit value.
    ///
    /// May be useful for deserializing steam ids from
    /// a network or save format.
    pub fn from_raw(id: u64) -> (r: SteamId)
        ensures
            r == SteamId(id),
    {
        SteamId(id)
    }

    /// Returns the raw 64 bit value of the steam id
    ///
    /// May be useful for serializing steam ids over a
    /// network or to a save format.
    pub fn raw(&self) -> (id: u64)
        ensures
            id == self.0,
    {
        self.0
    }
}

/// One step of the end of a session.
#[derive(Clone, Copy, Debug, PartialEq, Eq, Structural)]
pub enum TeardownStep {
    /// Retract the registration from the Steam client and free its closure.
    Retract(CallbackHandle),
    /// Shut the connection to the Steam client down.
    Shutdown,
}

/// The registrations of a session, as the session holds them.
///
/// Every entry stands for one live registration with the Steam client. An
/// entry leaves only when its registration is retracted: a call result when
/// it fires or is replaced, everything that is left when the session ends.
pub struct State {
    callbacks: Vec<Registration>,
    call_results: HashMap<u64, Registration>,
}

impl View for State {
    type V = Registry;

    closed spec fn view(&self) -> Registry {
        Registry { callbacks: self.callbacks@, call_results: self.call_results@ }
    }
}

impl State {
    /// A state without registrations.
    pub fn new() -> (s: State)
        ensures
            s@ == Registry::empty(),
            s@.wf(),
    {
        State { callbacks: Vec::new(), call_results: HashMap::new() }
    }

    /// The registry that a state holds is always well formed.
    pub proof fn lemma_wf(&self)
        ensures
            self@.wf(),
    {
    }

    /// Records a persistent callback, after those recorded before.
    pub fn insert_callback(&mut self, record: Registration)
        ensures
            final(self)@ == old(self)@.insert_callback(record),
    {
        self.callbacks.push(record);
    }

    /// Records a call result for the pending request `api_call`.
    ///
    /// Returns the registration that was recorded for the same request
    /// before, if there was one: it has been replaced, and it is the
    /// caller's to retract.
    pub fn insert_call_result(&mut self, api_call: u64, record: Registration) -> (prior: Option<
        Registration,
    >)
        ensures
            final(self)@ == old(self)@.insert_call_result(api_call, record),
            prior == old(self)@.call_result(api_call),
    {
        self.call_results.insert(api_call, record)
    }

    /// Takes out the call result of the pending request `api_call`, and
    /// returns it if there was one.
    pub fn remove_call_result(&mut self, api_call: u64) -> (record: Option<Registration>)
        ensures
            final(self)@ == old(self)@.remove_call_result(api_call),
            record == old(self)@.call_result(api_call),
    {
        self.call_results.remove(&api_call)
    }

    /// Returns the call result that is recorded for `api_call`, if any.
    pub fn call_result(&self, api_call: u64) -> (record: Option<Registration>)
        ensures
            record == self@.call_result(api_call),
    {
        match self.call_results.get(&api_call) {
            Some(r) => Some(*r),
            None => None,
        }
    }

    /// Returns the number of persistent callbacks.
    pub fn callback_count(&self) -> (n: usize)
        ensures
            n == self@.callbacks.len(),
    {
        self.callbacks.len()
    }

    /// Returns the ids of the pending requests that have a call result, each
    /// once, in no particular order.
    fn pending_calls(&self) -> (keys: Vec<u64>)
        ensures
            keys@.no_duplicates(),
            keys@.to_set() == self@.call_results.dom(),
            keys@.len() == self@.call_results.dom().len(),
    {
        let mut keys: Vec<u64> = Vec::new();
        for k in it: self.call_results.keys()
            invariant
                keys@.len() == it.index(),
                forall|j: int| 0 <= j < keys@.len() ==> keys@[j] == *it.seq()[j],
        {
            keys.push(*k);
        }
        assert(keys@ =~= self.call_results.keys().remaining().unref());
        keys
    }

    /// Empties the registry and returns what it held: the persistent
    /// callbacks in the order of their registration, and each call result
    /// once with the id of its request, in no particular order.
    pub fn drain_all(&mut self) -> (drained: (Vec<Registration>, Vec<(u64, Registration)>))
        ensures
            final(self)@ == Registry::empty(),
            drained.0@ == old(self)@.callbacks,
            lists_call_results(old(self)@.call_results, drained.1@),
    {
        let keys = self.pending_calls();
        let mut entries: Vec<(u64, Registration)> = Vec::new();
        let mut i: usize = 0;
        while i < keys.len()
            invariant
                i <= keys@.len(),
                entries@.len() == i,
                keys@.to_set() == self.call_results@.dom(),
                forall|j: int|
                    0 <= j < i ==> (#[trigger] entries@[j]).0 == keys@[j]
                        && self.call_results@.contains_key(keys@[j]) && entries@[j].1
                        == self.call_results@[keys@[j]],
            decreases keys@.len() - i,
        {
            let k: u64 = keys[i];
            assert(keys@.to_set().contains(keys@[i as int]));
            match self.call_results.get(&k) {
                Some(r) => {
                    entries.push((k, *r));
                },
                None => {
                    assert(false);
                },
            }
            i = i + 1;
        }
        proof {
            let m = self.call_results@;
            assert forall|k: u64| #[trigger] m.contains_key(k) implies exists|j: int|
                0 <= j < entries@.len() && (#[trigger] entries@[j]).0 == k by {
                assert(keys@.to_set().contains(k));
                let j = choose|j: int| 0 <= j < keys@.len() && keys@[j] == k;
                assert(entries@[j].0 == k);
            }
            assert forall|a: int, b: int| 0 <= a < b < entries@.len() implies (
            #[trigger] entries@[a]).0 != (#[trigger] entries@[b]).0 by {
                assert(keys@[a] != keys@[b]);
            }
        }
        let mut callbacks: Vec<Registration> = Vec::new();
        std::mem::swap(&mut self.callbacks, &mut callbacks);
        self.call_results.clear();
        (callbacks, entries)
    }

    /// Appends the invocations that an occurrence of `kind` causes.
    fn callback_actions(&self, kind: CallbackKind, payload: Option<Payload>, out: &mut Vec<Action>)
        ensures
            final(out)@ == old(out)@ + self@.callback_actions(kind, payload),
    {
        let ghost regs = self.callbacks@;
        let mut i: usize = 0;
        assert(regs.take(0).filter(of_kind(kind)) =~= Seq::<Registration>::empty()) by {
            regs.take(0).lemma_filter_len(of_kind(kind));
        }
        assert(out@ =~= old(out)@ + regs.take(0).filter(of_kind(kind)).map_values(
            invoke_with(payload),
        ));
        while i < self.callbacks.len()
            invariant
                regs == self.callbacks@,
                i <= regs.len(),
                out@ == old(out)@ + regs.take(i as int).filter(of_kind(kind)).map_values(
                    invoke_with(payload),
                ),
            decreases regs.len() - i,
        {
            let r: Registration = self.callbacks[i];
            proof {
                let seen = regs.take(i as int);
                assert(regs.take(i + 1) =~= seen.push(r));
                seen.lemma_filter_push(r, of_kind(kind));
                if r.kind == kind {
                    assert(seen.filter(of_kind(kind)).push(r).map_values(invoke_with(payload))
                        =~= seen.filter(of_kind(kind)).map_values(invoke_with(payload)).push(
                        invoke_with(payload)(r),
                    ));
                }
            }
            if r.kind == kind {
                out.push(Action::Invoke(Delivery { handle: r.handle, payload, io_failure: false }));
            }
            i = i + 1;
        }
        assert(regs.take(regs.len() as int) =~= regs);
    }

    /// Dispatches one event that the Steam client has queued.
    ///
    /// An occurrence of an event reaches every persistent callback of its
    /// shape, in the order of registration, and leaves the registry as it
    /// was. The completion of a pending request reaches the call result
    /// registered for it, which leaves the registry at once: its closure is
    /// invoked, then it is retracted. Anything else is dropped. The actions
    /// are returned in the order in which they are to be carried out.
    pub fn dispatch(&mut self, event: &Event) -> (actions: Vec<Action>)
        ensures
            actions@ == old(self)@.actions(*event),
            final(self)@ == old(self)@.after(*event),
    {
        let mut actions: Vec<Action> = Vec::new();
        match event {
            Event::Callback { id, payload } => {
                match CallbackKind::from_id(*id) {
                    Some(kind) => {
                        let decoded = kind.decode(payload.as_slice());
                        self.callback_actions(kind, decoded, &mut actions);
                    },
                    None => {},
                }
            },
            Event::CallResult { api_call, io_failure, payload } => {
                match self.remove_call_result(*api_call) {
                    Some(r) => {
                        let decoded = r.kind.decode(payload.as_slice());
                        actions.push(
                            Action::Invoke(
                                Delivery {
                                    handle: r.handle,
                                    payload: decoded,
                                    io_failure: *io_failure,
                                },
                            ),
                        );
                        actions.push(Action::Retract(r.handle));
                    },
                    None => {},
                }
            },
        }
        assert(actions@ =~= old(self)@.actions(*event));
        actions
    }

    /// Ends the session: empties the registry and returns the steps to
    /// carry out, in order.
    ///
    /// Every registration that is still held is retracted, each once, and
    /// the connection is shut down after the last retraction: a closure is
    /// never freed while the Steam client may still invoke it, and none is
    /// left behind on a connection that is closed.
    pub fn shutdown(&mut self) -> (plan: Vec<TeardownStep>)
        ensures
            final(self)@ == Registry::empty(),
            old(self)@.is_teardown_plan(plan@),
    {
        let (callbacks, entries) = self.drain_all();
        let mut plan: Vec<TeardownStep> = Vec::new();
        let mut i: usize = 0;
        while i < callbacks.len()
            invariant
                i <= callbacks@.len(),
                plan@ == callbacks@.take(i as int).map_values(retract_callback()),
            decreases callbacks@.len() - i,
        {
            plan.push(TeardownStep::Retract(callbacks[i].handle));
            i = i + 1;
            assert(plan@ =~= callbacks@.take(i as int).map_values(retract_callback()));
        }
        assert(callbacks@.take(i as int) =~= callbacks@);
        let mut j: usize = 0;
        while j < entries.len()
            invariant
                j <= entries@.len(),
                plan@ == callbacks@.map_values(retract_callback()) + entries@.take(
                    j as int,
                ).map_values(retract_call_result()),
            decreases entries@.len() - j,
        {
            plan.push(TeardownStep::Retract(entries[j].1.handle));
            j = j + 1;
            assert(plan@ =~= callbacks@.map_values(retract_callback()) + entries@.take(
                j as int,
            ).map_values(retract_call_result()));
        }
        assert(entries@.take(j as int) =~= entries@);
        plan.push(TeardownStep::Shutdown);
        assert(plan@ =~= teardown_steps(callbacks@, entries@));
        plan
    }

    /// Returns the number of pending call results.
    pub fn call_result_count(&self) -> (n: usize)
        ensures
            n == self@.call_results.dom().len(),
    {
        self.call_results.len()
    }
}

/// A session with the Steam client.
///
/// A session is active for as long as there is a value of this type. There
/// is none before the Steam client has been reached, `init` being the only
/// way to one, and none after the session has ended, `shutdown` consuming
/// it: nothing can be registered or dispatched before the one or after the
/// other. Between the two, the session is shutting down: the steps that
/// `shutdown` returns are being carried out.
pub struct SteamApi {
    state: State,
}

impl View for SteamApi {
    type V = Registry;

    closed spec fn view(&self) -> Registry {
        self.state@
    }
}

impl SteamApi {
    /// Opens a session, given the status that the Steam client answered to
    /// the request to initialise.
    ///
    /// A status of zero says that the Steam client could not be reached:
    /// then there is no session. Any other status opens a session without
    /// registrations.
    pub fn init(status: u8) -> (r: Result<SteamApi, SteamError>)
        ensures
            r is Err <==> status == 0,
            r matches Err(e) ==> e == SteamError::InitializationFailed,
            r matches Ok(api) ==> api@ == Registry::empty(),
    {
        if status == 0 {
            return Err(SteamError::InitializationFailed);
        }
        Ok(SteamApi { state: State::new() })
    }

    /// The registry that a session holds is always well formed.
    pub proof fn lemma_wf(&self)
        ensures
            self@.wf(),
    {
        self.state.lemma_wf();
    }

    /// Runs any currently pending callbacks
    ///
    /// Dispatches the events that the Steam client has queued, in the order
    /// of their arrival, and returns the actions that they cause, in the
    /// order in which they are to be carried out.
    ///
    /// This should be called frequently (e.g. once per a frame)
    /// in order to reduce the latency between recieving events.
    pub fn run_callbacks(&mut self, events: &Vec<Event>) -> (actions: Vec<Action>)
        ensures
            actions@ == old(self)@.actions_of_all(events@),
            final(self)@ == old(self)@.after_all(events@),
    {
        let ghost start = self@;
        let mut actions: Vec<Action> = Vec::new();
        let mut i: usize = 0;
        while i < events.len()
            invariant
                i <= events@.len(),
                self@ == start.after_all(events@.take(i as int)),
                actions@ == start.actions_of_all(events@.take(i as int)),
            decreases events@.len() - i,
        {
            let mut step = self.state.dispatch(&events[i]);
            actions.append(&mut step);
            proof {
                let seen = events@.take(i + 1);
                assert(seen.drop_last() =~= events@.take(i as int));
                assert(seen.last() == events@[i as int]);
            }
            i = i + 1;
        }
        assert(events@.take(i as int) =~= events@);
        actions
    }

    /// Registers the closure behind `handle` as a callback for the
    /// given shape.
    ///
    /// The callback stays registered until the session ends.
    pub fn register_callback(&mut self, kind: CallbackKind, handle: CallbackHandle)
        ensures
            final(self)@ == old(self)@.insert_callback(Registration { kind, handle }),
    {
        callback::register_callback(&mut self.state, kind, handle);
    }

    /// Registers the closure behind `handle` for the completion of the
    /// pending request `api_call`, whose answer has the given shape.
    ///
    /// Returns the handle that was registered for the same request before,
    /// if there was one: it has been replaced, and it is the caller's to
    /// retract.
    pub fn register_call_result(
        &mut self,
        api_call: u64,
        kind: CallbackKind,
        handle: CallbackHandle,
    ) -> (replaced: Option<CallbackHandle>)
        ensures
            final(self)@ == old(self)@.insert_call_result(api_call, Registration { kind, handle }),
            replaced == callback::spec_handle_of(old(self)@.call_result(api_call)),
    {
        callback::register_call_result(&mut self.state, api_call, kind, handle)
    }

    /// Returns the call result that is registered for the pending request
    /// `api_call`, if any.
    pub fn call_result(&self, api_call: u64) -> (record: Option<Registration>)
        ensures
            record == self@.call_result(api_call),
    {
        self.state.call_result(api_call)
    }

    /// Returns the number of persistent callbacks.
    pub fn callback_count(&self) -> (n: usize)
        ensures
            n == self@.callbacks.len(),
    {
        self.state.callback_count()
    }

    /// Returns the number of pending call results.
    pub fn call_result_count(&self) -> (n: usize)
        ensures
            n == self@.call_results.dom().len(),
    {
        self.state.call_result_count()
    }

    /// Ends the session and returns the steps to carry out, in order: the
    /// retraction of every registration that is left, then the shutdown of
    /// the connection.
    pub fn shutdown(self) -> (plan: Vec<TeardownStep>)
        ensures
            self@.is_teardown_plan(plan@),
    {
        let mut state = self.state;
        state.shutdown()
    }
}

} // verus!
