use std::cell::RefCell;
use std::rc::Rc;

use steamworks::callback::{
    register_call_result, register_callback, Action, CallbackHandle, CallbackKind, Delivery,
    Event, Payload, Registration,
};
use steamworks::friends::{persona_state_change, PersonaStateChange};
use steamworks::matchmaking::{
    create_lobby_outcome, lobby_list_outcome, LobbyCreated, LobbyId, LobbyMatchList,
};
use steamworks::{State, SteamApi, SteamError, SteamId, TeardownStep};

/// A stand-in for the Steam client: it owns the closures, queues events
/// until the next pump, carries out what the session decides, and writes
/// down what it did.
struct MockSteam {
    session: Option<SteamApi>,
    queue: Vec<Event>,
    closures: Vec<Option<Box<dyn FnMut(&Delivery)>>>,
    log: Vec<String>,
}

impl MockSteam {
    fn init() -> MockSteam {
        MockSteam {
            session: Some(SteamApi::init(1).unwrap_or_else(|e| panic!("{:?}", e))),
            queue: Vec::new(),
            closures: Vec::new(),
            log: Vec::new(),
        }
    }

    fn session(&mut self) -> &mut SteamApi {
        self.session.as_mut().expect("the session has ended")
    }

    fn adopt(&mut self, f: Box<dyn FnMut(&Delivery)>) -> CallbackHandle {
        self.closures.push(Some(f));
        CallbackHandle(self.closures.len() - 1)
    }

    fn retract(&mut self, handle: CallbackHandle) {
        assert!(!self.log.iter().any(|l| l == "close"), "retracted after the close");
        let closure = self.closures[handle.0].take();
        assert!(closure.is_some(), "retracted twice: {:?}", handle);
        self.log.push(format!("retract {}", handle.0));
    }

    fn register_callback(
        &mut self,
        kind: CallbackKind,
        f: impl FnMut(&Delivery) + 'static,
    ) -> CallbackHandle {
        let handle = self.adopt(Box::new(f));
        self.session().register_callback(kind, handle);
        handle
    }

    fn register_call_result(
        &mut self,
        api_call: u64,
        kind: CallbackKind,
        f: impl FnMut(&Delivery) + 'static,
    ) -> CallbackHandle {
        let handle = self.adopt(Box::new(f));
        if let Some(replaced) = self.session().register_call_result(api_call, kind, handle) {
            self.retract(replaced);
        }
        handle
    }

    fn fire(&mut self, event: Event) {
        self.queue.push(event);
    }

    fn run_callbacks(&mut self) {
        let events: Vec<Event> = self.queue.drain(..).collect();
        let actions = self.session().run_callbacks(&events);
        for action in actions {
            match action {
                Action::Invoke(delivery) => {
                    let closure = self.closures[delivery.handle.0]
                        .as_mut()
                        .expect("invoked after its retraction");
                    closure(&delivery);
                    self.log.push(format!("invoke {}", delivery.handle.0));
                }
                Action::Retract(handle) => self.retract(handle),
            }
        }
    }

    fn shutdown(&mut self) {
        let session = self.session.take().expect("the session has ended");
        for step in session.shutdown() {
            match step {
                TeardownStep::Retract(handle) => self.retract(handle),
                TeardownStep::Shutdown => self.log.push("close".to_string()),
            }
        }
    }

    fn count(&self, line: &str) -> usize {
        self.log.iter().filter(|l| l.as_str() == line).count()
    }
}

fn lobby_created(api_call: u64, result: i32, lobby: u64, io_failure: bool) -> Event {
    Event::CallResult {
        api_call,
        io_failure,
        payload: LobbyCreated { result, lobby_steam_id: lobby }.encode(),
    }
}

fn persona_changed(user: u64, flags: i32) -> Event {
    Event::Callback {
        id: CallbackKind::PersonaStateChange.id(),
        payload: PersonaStateChange { user: SteamId(user), flags }.encode(),
    }
}

fn record(kind: CallbackKind, handle: usize) -> Registration {
    Registration { kind, handle: CallbackHandle(handle) }
}

#[test]
fn init_fails_when_steam_is_not_reached() {
    assert_eq!(SteamApi::init(0).err(), Some(SteamError::InitializationFailed));
}

#[test]
fn init_opens_a_session_without_registrations() {
    for status in [1u8, 2, 255] {
        let api = SteamApi::init(status).ok().expect("a session");
        assert_eq!(api.callback_count(), 0);
        assert_eq!(api.call_result_count(), 0);
        assert_eq!(api.call_result(42), None);
    }
}

#[test]
fn new_state_is_empty() {
    let mut state = State::new();
    assert_eq!(state.callback_count(), 0);
    assert_eq!(state.call_result_count(), 0);
    assert_eq!(state.call_result(0), None);
    assert_eq!(state.remove_call_result(0), None);
    assert_eq!(state.drain_all(), (vec![], vec![]));
    assert_eq!(state.shutdown(), vec![TeardownStep::Shutdown]);
}

#[test]
fn insert_callback_appends() {
    let mut state = State::new();
    state.insert_callback(record(CallbackKind::LobbyCreated, 3));
    state.insert_callback(record(CallbackKind::PersonaStateChange, 1));
    state.insert_callback(record(CallbackKind::LobbyCreated, 3));
    assert_eq!(state.callback_count(), 3);
    assert_eq!(state.call_result_count(), 0);
    let (callbacks, call_results) = state.drain_all();
    assert_eq!(
        callbacks,
        vec![
            record(CallbackKind::LobbyCreated, 3),
            record(CallbackKind::PersonaStateChange, 1),
            record(CallbackKind::LobbyCreated, 3),
        ]
    );
    assert_eq!(call_results, vec![]);
}

#[test]
fn insert_call_result_replaces_and_returns_the_prior_entry() {
    let mut state = State::new();
    let first = record(CallbackKind::LobbyCreated, 10);
    let second = record(CallbackKind::LobbyMatchList, 11);
    assert_eq!(state.insert_call_result(42, first), None);
    assert_eq!(state.call_result(42), Some(first));
    assert_eq!(state.insert_call_result(42, second), Some(first));
    assert_eq!(state.call_result(42), Some(second));
    assert_eq!(state.call_result_count(), 1);
    assert_eq!(state.insert_call_result(43, first), None);
    assert_eq!(state.call_result_count(), 2);
}

#[test]
fn remove_call_result_takes_the_entry_out() {
    let mut state = State::new();
    let entry = record(CallbackKind::LobbyCreated, 10);
    state.insert_call_result(42, entry);
    state.insert_call_result(7, record(CallbackKind::LobbyMatchList, 11));
    assert_eq!(state.remove_call_result(41), None);
    assert_eq!(state.call_result_count(), 2);
    assert_eq!(state.remove_call_result(42), Some(entry));
    assert_eq!(state.call_result(42), None);
    assert_eq!(state.remove_call_result(42), None);
    assert_eq!(state.call_result_count(), 1);
    assert_eq!(state.call_result(7), Some(record(CallbackKind::LobbyMatchList, 11)));
}

#[test]
fn drain_all_empties_both_collections() {
    let mut state = State::new();
    state.insert_callback(record(CallbackKind::PersonaStateChange, 1));
    state.insert_callback(record(CallbackKind::LobbyCreated, 2));
    for call in 0..20u64 {
        state.insert_call_result(call * 1000, record(CallbackKind::LobbyCreated, 100 + call as usize));
    }
    let (callbacks, mut call_results) = state.drain_all();
    assert_eq!(
        callbacks,
        vec![record(CallbackKind::PersonaStateChange, 1), record(CallbackKind::LobbyCreated, 2)]
    );
    call_results.sort_by_key(|entry| entry.0);
    let expected: Vec<(u64, Registration)> = (0..20u64)
        .map(|call| (call * 1000, record(CallbackKind::LobbyCreated, 100 + call as usize)))
        .collect();
    assert_eq!(call_results, expected);
    assert_eq!(state.callback_count(), 0);
    assert_eq!(state.call_result_count(), 0);
    assert_eq!(state.drain_all(), (vec![], vec![]));
}

#[test]
fn bridge_functions_record_in_the_state() {
    let mut state = State::new();
    register_callback(&mut state, CallbackKind::PersonaStateChange, CallbackHandle(5));
    assert_eq!(
        register_call_result(&mut state, 9, CallbackKind::LobbyCreated, CallbackHandle(6)),
        None
    );
    assert_eq!(
        register_call_result(&mut state, 9, CallbackKind::LobbyCreated, CallbackHandle(7)),
        Some(CallbackHandle(6))
    );
    assert_eq!(state.callback_count(), 1);
    assert_eq!(state.call_result(9), Some(record(CallbackKind::LobbyCreated, 7)));
}

#[test]
fn dispatch_of_a_callback_reaches_its_shape_only() {
    let mut state = State::new();
    state.insert_callback(record(CallbackKind::LobbyCreated, 1));
    state.insert_callback(record(CallbackKind::PersonaStateChange, 2));
    state.insert_callback(record(CallbackKind::LobbyMatchList, 3));
    state.insert_callback(record(CallbackKind::PersonaStateChange, 4));
    let change = PersonaStateChange { user: SteamId(99), flags: 1 };
    let actions = state.dispatch(&persona_changed(99, 1));
    let payload = Some(Payload::PersonaStateChange(change));
    assert_eq!(
        actions,
        vec![
            Action::Invoke(Delivery { handle: CallbackHandle(2), payload, io_failure: false }),
            Action::Invoke(Delivery { handle: CallbackHandle(4), payload, io_failure: false }),
        ]
    );
    assert_eq!(state.callback_count(), 4);
}

#[test]
fn dispatch_of_an_unknown_event_id_reaches_nobody() {
    let mut state = State::new();
    state.insert_callback(record(CallbackKind::LobbyCreated, 1));
    state.insert_call_result(1234, record(CallbackKind::LobbyCreated, 2));
    let actions = state.dispatch(&Event::Callback { id: 1234, payload: vec![0; 16] });
    assert_eq!(actions, vec![]);
    assert_eq!(state.callback_count(), 1);
    assert_eq!(state.call_result_count(), 1);
}

#[test]
fn dispatch_of_a_call_result_invokes_then_retracts() {
    let mut state = State::new();
    state.insert_call_result(42, record(CallbackKind::LobbyCreated, 8));
    state.insert_call_result(43, record(CallbackKind::LobbyCreated, 9));
    let actions = state.dispatch(&lobby_created(42, 1, 123456789, false));
    assert_eq!(
        actions,
        vec![
            Action::Invoke(Delivery {
                handle: CallbackHandle(8),
                payload: Some(Payload::LobbyCreated(LobbyCreated {
                    result: 1,
                    lobby_steam_id: 123456789
                })),
                io_failure: false,
            }),
            Action::Retract(CallbackHandle(8)),
        ]
    );
    assert_eq!(state.call_result(42), None);
    assert_eq!(state.call_result(43), Some(record(CallbackKind::LobbyCreated, 9)));
}

#[test]
fn dispatch_of_an_unregistered_call_result_reaches_nobody() {
    let mut state = State::new();
    state.insert_call_result(42, record(CallbackKind::LobbyCreated, 8));
    state.insert_callback(record(CallbackKind::LobbyCreated, 1));
    let actions = state.dispatch(&lobby_created(41, 1, 5, false));
    assert_eq!(actions, vec![]);
    assert_eq!(state.call_result_count(), 1);
}

#[test]
fn dispatch_decodes_by_the_registered_shape() {
    let mut state = State::new();
    state.insert_call_result(42, record(CallbackKind::LobbyMatchList, 8));
    let actions = state.dispatch(&Event::CallResult {
        api_call: 42,
        io_failure: false,
        payload: vec![7, 0, 0, 0],
    });
    assert_eq!(
        actions[0],
        Action::Invoke(Delivery {
            handle: CallbackHandle(8),
            payload: Some(Payload::LobbyMatchList(LobbyMatchList { lobbies_matching: 7 })),
            io_failure: false,
        })
    );
}

#[test]
fn a_buffer_of_the_wrong_size_is_delivered_without_payload() {
    let mut state = State::new();
    state.insert_call_result(42, record(CallbackKind::LobbyCreated, 8));
    state.insert_callback(record(CallbackKind::PersonaStateChange, 2));
    let actions = state.dispatch(&Event::CallResult {
        api_call: 42,
        io_failure: false,
        payload: vec![1, 0, 0, 0],
    });
    assert_eq!(
        actions,
        vec![
            Action::Invoke(Delivery { handle: CallbackHandle(8), payload: None, io_failure: false }),
            Action::Retract(CallbackHandle(8)),
        ]
    );
    let actions = state.dispatch(&Event::Callback { id: 304, payload: vec![] });
    assert_eq!(
        actions,
        vec![Action::Invoke(Delivery {
            handle: CallbackHandle(2),
            payload: None,
            io_failure: false
        })]
    );
}

#[test]
fn run_callbacks_without_events_does_nothing() {
    let mut api = SteamApi::init(1).ok().expect("a session");
    api.register_callback(CallbackKind::PersonaStateChange, CallbackHandle(1));
    api.register_call_result(42, CallbackKind::LobbyCreated, CallbackHandle(2));
    assert_eq!(api.run_callbacks(&vec![]), vec![]);
    assert_eq!(api.callback_count(), 1);
    assert_eq!(api.call_result_count(), 1);
}

#[test]
fn run_callbacks_keeps_the_order_of_arrival() {
    let mut api = SteamApi::init(1).ok().expect("a session");
    api.register_callback(CallbackKind::PersonaStateChange, CallbackHandle(1));
    api.register_call_result(42, CallbackKind::LobbyCreated, CallbackHandle(2));
    api.register_call_result(43, CallbackKind::LobbyMatchList, CallbackHandle(3));
    let events = vec![
        Event::CallResult { api_call: 43, io_failure: false, payload: vec![2, 0, 0, 0] },
        persona_changed(5, 0),
        lobby_created(42, 1, 77, false),
        lobby_created(42, 1, 78, false),
        persona_changed(6, 0),
    ];
    let handles: Vec<String> = api
        .run_callbacks(&events)
        .iter()
        .map(|action| match action {
            Action::Invoke(d) => format!("invoke {}", d.handle.0),
            Action::Retract(h) => format!("retract {}", h.0),
        })
        .collect();
    assert_eq!(
        handles,
        vec!["invoke 3", "retract 3", "invoke 1", "invoke 2", "retract 2", "invoke 1"]
    );
    assert_eq!(api.call_result_count(), 0);
    assert_eq!(api.callback_count(), 1);
}

#[test]
fn a_call_result_fires_exactly_once() {
    let mut steam = MockSteam::init();
    let calls = Rc::new(RefCell::new(0));
    let seen = calls.clone();
    let handle = steam.register_call_result(42, CallbackKind::LobbyCreated, move |_| {
        *seen.borrow_mut() += 1;
    });
    assert_eq!(steam.session().call_result(42), Some(record(CallbackKind::LobbyCreated, handle.0)));

    steam.fire(lobby_created(42, 1, 1, false));
    steam.run_callbacks();
    assert_eq!(*calls.borrow(), 1);
    assert_eq!(steam.session().call_result(42), None);
    assert_eq!(steam.session().call_result_count(), 0);
    assert_eq!(steam.log, vec!["invoke 0", "retract 0"]);

    steam.fire(lobby_created(42, 1, 1, false));
    steam.fire(lobby_created(42, 1, 1, true));
    steam.run_callbacks();
    steam.run_callbacks();
    assert_eq!(*calls.borrow(), 1);
    assert_eq!(steam.log, vec!["invoke 0", "retract 0"]);
}

#[test]
fn a_call_result_fires_once_even_if_completed_twice_in_one_pump() {
    let mut steam = MockSteam::init();
    let calls = Rc::new(RefCell::new(0));
    let seen = calls.clone();
    steam.register_call_result(42, CallbackKind::LobbyCreated, move |_| {
        *seen.borrow_mut() += 1;
    });
    steam.fire(lobby_created(42, 1, 1, false));
    steam.fire(lobby_created(42, 1, 1, false));
    steam.run_callbacks();
    assert_eq!(*calls.borrow(), 1);
    assert_eq!(steam.count("retract 0"), 1);
}

#[test]
fn a_callback_stays_across_many_pumps() {
    let mut steam = MockSteam::init();
    let seen = Rc::new(RefCell::new(Vec::new()));
    let sink = seen.clone();
    steam.register_callback(CallbackKind::PersonaStateChange, move |d| {
        sink.borrow_mut().push(persona_state_change(d).expect("a persona change").user);
    });
    for pump in 0..100u64 {
        steam.fire(persona_changed(pump, 0));
        steam.run_callbacks();
        assert_eq!(seen.borrow().len() as u64, pump + 1);
        assert_eq!(steam.session().callback_count(), 1);
    }
    steam.run_callbacks();
    assert_eq!(seen.borrow().len(), 100);
    let expected: Vec<SteamId> = (0..100u64).map(SteamId).collect();
    assert_eq!(*seen.borrow(), expected);
    assert_eq!(steam.count("retract 0"), 0);
    steam.shutdown();
    assert_eq!(steam.count("retract 0"), 1);
}

#[test]
fn teardown_retracts_everything_before_the_close() {
    let mut steam = MockSteam::init();
    for _ in 0..3 {
        steam.register_callback(CallbackKind::PersonaStateChange, |_| {});
    }
    for call in 0..4u64 {
        steam.register_call_result(100 + call, CallbackKind::LobbyCreated, |_| {});
    }
    steam.shutdown();
    assert_eq!(steam.log.len(), 8);
    assert_eq!(steam.log[7], "close");
    assert_eq!(steam.count("close"), 1);
    for handle in 0..7 {
        let line = format!("retract {}", handle);
        assert_eq!(steam.count(&line), 1);
        let at = steam.log.iter().position(|l| *l == line).expect("a retraction");
        assert!(at < 7);
    }
    assert_eq!(steam.log[..3], ["retract 0", "retract 1", "retract 2"]);
    assert!(steam.closures.iter().all(|c| c.is_none()));
}

#[test]
fn teardown_skips_what_has_fired() {
    let mut steam = MockSteam::init();
    steam.register_callback(CallbackKind::LobbyCreated, |_| {});
    steam.register_call_result(1, CallbackKind::LobbyCreated, |_| {});
    steam.register_call_result(2, CallbackKind::LobbyCreated, |_| {});
    steam.fire(lobby_created(1, 1, 5, false));
    steam.run_callbacks();
    steam.shutdown();
    assert_eq!(
        steam.log,
        vec!["invoke 1", "retract 1", "retract 0", "retract 2", "close"]
    );
}

#[test]
fn teardown_of_an_empty_session_only_closes() {
    let api = SteamApi::init(1).ok().expect("a session");
    assert_eq!(api.shutdown(), vec![TeardownStep::Shutdown]);
}

#[test]
fn teardown_plan_of_a_state() {
    let mut state = State::new();
    state.insert_callback(record(CallbackKind::PersonaStateChange, 4));
    state.insert_callback(record(CallbackKind::LobbyCreated, 2));
    state.insert_call_result(9, record(CallbackKind::LobbyCreated, 7));
    let plan = state.shutdown();
    assert_eq!(
        plan,
        vec![
            TeardownStep::Retract(CallbackHandle(4)),
            TeardownStep::Retract(CallbackHandle(2)),
            TeardownStep::Retract(CallbackHandle(7)),
            TeardownStep::Shutdown,
        ]
    );
    assert_eq!(state.callback_count(), 0);
    assert_eq!(state.call_result_count(), 0);
}

#[test]
fn two_callbacks_for_one_event_are_both_invoked_once() {
    let mut steam = MockSteam::init();
    let first = Rc::new(RefCell::new(0));
    let second = Rc::new(RefCell::new(0));
    let other = Rc::new(RefCell::new(0));
    let (a, b, c) = (first.clone(), second.clone(), other.clone());
    steam.register_callback(CallbackKind::PersonaStateChange, move |_| *a.borrow_mut() += 1);
    steam.register_callback(CallbackKind::LobbyCreated, move |_| *c.borrow_mut() += 1);
    steam.register_callback(CallbackKind::PersonaStateChange, move |_| *b.borrow_mut() += 1);
    steam.fire(persona_changed(1, 2));
    steam.run_callbacks();
    assert_eq!(*first.borrow(), 1);
    assert_eq!(*second.borrow(), 1);
    assert_eq!(*other.borrow(), 0);
    let mut invoked = steam.log.clone();
    invoked.sort();
    assert_eq!(invoked, vec!["invoke 0", "invoke 2"]);
    assert_eq!(steam.session().callback_count(), 3);
}

#[test]
fn a_replaced_call_result_is_retracted_and_never_fires() {
    let mut steam = MockSteam::init();
    let first = Rc::new(RefCell::new(0));
    let second = Rc::new(RefCell::new(0));
    let (a, b) = (first.clone(), second.clone());
    steam.register_call_result(42, CallbackKind::LobbyCreated, move |_| *a.borrow_mut() += 1);
    steam.register_call_result(42, CallbackKind::LobbyCreated, move |_| *b.borrow_mut() += 1);
    assert_eq!(steam.log, vec!["retract 0"]);
    assert_eq!(steam.session().call_result_count(), 1);
    steam.fire(lobby_created(42, 1, 5, false));
    steam.run_callbacks();
    assert_eq!(*first.borrow(), 0);
    assert_eq!(*second.borrow(), 1);
    assert_eq!(steam.log, vec!["retract 0", "invoke 1", "retract 1"]);
}

#[test]
fn transport_failure_reaches_the_closure_whatever_the_payload() {
    let payloads = vec![
        LobbyCreated { result: 1, lobby_steam_id: 123456789 }.encode(),
        LobbyCreated { result: 2, lobby_steam_id: 0 }.encode(),
        vec![0xff; 16],
        vec![],
        vec![1, 2, 3],
    ];
    for (call, payload) in payloads.into_iter().enumerate() {
        let mut steam = MockSteam::init();
        let got = Rc::new(RefCell::new(None));
        let sink = got.clone();
        steam.register_call_result(call as u64, CallbackKind::LobbyCreated, move |d| {
            *sink.borrow_mut() = create_lobby_outcome(d);
        });
        steam.fire(Event::CallResult { api_call: call as u64, io_failure: true, payload });
        steam.run_callbacks();
        assert_eq!(*got.borrow(), Some(Err(SteamError::TransportFailure)));
        assert_eq!(steam.session().call_result_count(), 0);
    }
}

#[test]
fn transport_failure_of_a_lobby_list_request() {
    let mut steam = MockSteam::init();
    let got = Rc::new(RefCell::new(None));
    let sink = got.clone();
    steam.register_call_result(5, CallbackKind::LobbyMatchList, move |d| {
        *sink.borrow_mut() = lobby_list_outcome(d);
    });
    steam.fire(Event::CallResult { api_call: 5, io_failure: true, payload: vec![9, 0, 0, 0] });
    steam.run_callbacks();
    assert_eq!(*got.borrow(), Some(Err(SteamError::TransportFailure)));
}

#[test]
fn application_failure_reaches_the_closure_with_its_code() {
    for code in [2, 3, 5, 16, 25, 112] {
        let mut steam = MockSteam::init();
        let got = Rc::new(RefCell::new(None));
        let raw = Rc::new(RefCell::new(None));
        let (sink, raw_sink) = (got.clone(), raw.clone());
        steam.register_call_result(42, CallbackKind::LobbyCreated, move |d| {
            *sink.borrow_mut() = create_lobby_outcome(d);
            *raw_sink.borrow_mut() = d.payload;
        });
        steam.fire(lobby_created(42, code, 555, false));
        steam.run_callbacks();
        assert_eq!(*got.borrow(), Some(Err(SteamError::ApplicationFailure(code))));
        assert_eq!(
            *raw.borrow(),
            Some(Payload::LobbyCreated(LobbyCreated { result: code, lobby_steam_id: 555 }))
        );
    }
}

#[test]
fn lobby_creation_scenario() {
    let mut steam = MockSteam::init();
    let got = Rc::new(RefCell::new(Vec::new()));
    let sink = got.clone();
    steam.register_call_result(42, CallbackKind::LobbyCreated, move |d| {
        sink.borrow_mut().push(create_lobby_outcome(d));
    });
    assert!(steam.session().call_result(42).is_some());
    steam.fire(lobby_created(42, 1, 123456789, false));
    steam.run_callbacks();
    assert_eq!(*got.borrow(), vec![Some(Ok(LobbyId(123456789)))]);
    assert_eq!(steam.session().call_result(42), None);
}

#[test]
fn lobby_list_scenario() {
    let mut steam = MockSteam::init();
    let got = Rc::new(RefCell::new(None));
    let sink = got.clone();
    steam.register_call_result(7, CallbackKind::LobbyMatchList, move |d| {
        *sink.borrow_mut() = lobby_list_outcome(d);
    });
    steam.fire(Event::CallResult {
        api_call: 7,
        io_failure: false,
        payload: LobbyMatchList { lobbies_matching: 3 }.encode(),
    });
    steam.run_callbacks();
    assert_eq!(*got.borrow(), Some(Ok(3)));
}

/// What `MockSteam` does for the matchmaking interface: it accepts a
/// request, hands out the id of the pending call and queues the answer for
/// the next pump.
struct MockMatchmaking {
    next_call: u64,
    lobbies: Rc<RefCell<Vec<u64>>>,
}

impl MockMatchmaking {
    fn new() -> MockMatchmaking {
        MockMatchmaking { next_call: 1, lobbies: Rc::new(RefCell::new(Vec::new())) }
    }

    fn request_lobby_list(
        &mut self,
        steam: &mut MockSteam,
        mut cb: impl FnMut(Result<Vec<LobbyId>, SteamError>) + 'static,
    ) {
        let api_call = self.next_call;
        self.next_call += 1;
        let lobbies = self.lobbies.clone();
        steam.register_call_result(api_call, CallbackKind::LobbyMatchList, move |d| {
            cb(match lobby_list_outcome(d).expect("a lobby list answer") {
                Ok(count) => {
                    let known = lobbies.borrow();
                    let raw: Vec<u64> = (0..count).map(|idx| known[idx as usize]).collect();
                    Ok(steamworks::matchmaking::lobby_list_result(&raw))
                }
                Err(error) => Err(error),
            })
        });
        let matching = self.lobbies.borrow().len() as u32;
        steam.fire(Event::CallResult {
            api_call,
            io_failure: false,
            payload: LobbyMatchList { lobbies_matching: matching }.encode(),
        });
    }

    fn create_lobby(
        &mut self,
        steam: &mut MockSteam,
        _ty: steamworks::matchmaking::LobbyType,
        max_members: u32,
        mut cb: impl FnMut(Result<LobbyId, SteamError>) + 'static,
    ) {
        let api_call = self.next_call;
        self.next_call += 1;
        steam.register_call_result(api_call, CallbackKind::LobbyCreated, move |d| {
            cb(create_lobby_outcome(d).expect("a lobby creation answer"))
        });
        let answer = if max_members == 0 {
            LobbyCreated { result: 8, lobby_steam_id: 0 }
        } else {
            let lobby = 109775240917000000 + api_call;
            self.lobbies.borrow_mut().push(lobby);
            LobbyCreated { result: 1, lobby_steam_id: lobby }
        };
        steam.fire(Event::CallResult { api_call, io_failure: false, payload: answer.encode() });
    }
}

#[test]
fn basic_test() {
    let mut steam = MockSteam::init();
    let seen = Rc::new(RefCell::new(Vec::new()));
    let sink = seen.clone();

    steam.register_callback(CallbackKind::PersonaStateChange, move |d| {
        let p = persona_state_change(d).expect("a persona change");
        println!("Got callback: {:?}", p);
        sink.borrow_mut().push(p);
    });

    steam.fire(persona_changed(76561198174976054, 1));

    for _ in 0..50 {
        steam.run_callbacks();
    }

    assert_eq!(
        *seen.borrow(),
        vec![PersonaStateChange { user: SteamId(76561198174976054), flags: 1 }]
    );
    assert_eq!(steam.session().callback_count(), 1);
    steam.shutdown();
    assert_eq!(steam.log, vec!["invoke 0", "retract 0", "close"]);
}

#[test]
fn test_lobby() {
    let mut steam = MockSteam::init();
    let mut mm = MockMatchmaking::new();
    let lists = Rc::new(RefCell::new(Vec::new()));
    let created = Rc::new(RefCell::new(Vec::new()));
    let (list_sink, created_sink) = (lists.clone(), created.clone());

    mm.request_lobby_list(&mut steam, move |v| {
        println!("List: {:?}", v);
        list_sink.borrow_mut().push(v);
    });

    mm.create_lobby(&mut steam, steamworks::matchmaking::LobbyType::Private, 4, move |v| {
        println!("Create: {:?}", v);
        created_sink.borrow_mut().push(v);
    });

    for _ in 0..100 {
        steam.run_callbacks();
    }

    assert_eq!(*lists.borrow(), vec![Ok(vec![])]);
    assert_eq!(*created.borrow(), vec![Ok(LobbyId(109775240917000002))]);
    assert_eq!(steam.session().call_result_count(), 0);
}

#[test]
fn lobby_list_after_a_lobby_was_created() {
    let mut steam = MockSteam::init();
    let mut mm = MockMatchmaking::new();
    let lists = Rc::new(RefCell::new(Vec::new()));
    let created = Rc::new(RefCell::new(Vec::new()));
    let (list_sink, created_sink) = (lists.clone(), created.clone());

    mm.create_lobby(&mut steam, steamworks::matchmaking::LobbyType::Public, 4, move |v| {
        created_sink.borrow_mut().push(v);
    });
    let rejected = created.clone();
    mm.create_lobby(&mut steam, steamworks::matchmaking::LobbyType::Public, 0, move |v| {
        rejected.borrow_mut().push(v);
    });
    mm.request_lobby_list(&mut steam, move |v| list_sink.borrow_mut().push(v));
    steam.run_callbacks();

    assert_eq!(
        *created.borrow(),
        vec![Ok(LobbyId(109775240917000001)), Err(SteamError::ApplicationFailure(8))]
    );
    assert_eq!(*lists.borrow(), vec![Ok(vec![LobbyId(109775240917000001)])]);
    steam.shutdown();
    assert_eq!(steam.log.last().map(|l| l.as_str()), Some("close"));
    assert_eq!(steam.count("close"), 1);
}
