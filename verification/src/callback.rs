//! The bridge between the raw notifications of the Steam client and typed
//! payloads: the closed set of payload shapes, the registrations that the
//! session keeps, and the events and actions of a dispatch.

use crate::friends::{PersonaStateChange, PERSONA_STATE_CHANGE_ID, PERSONA_STATE_CHANGE_SIZE};
use crate::matchmaking::{
    LobbyCreated, LobbyMatchList, LOBBY_CREATED_ID, LOBBY_CREATED_SIZE, LOBBY_MATCH_LIST_ID,
    LOBBY_MATCH_LIST_SIZE,
};
use crate::State;
use vstd::prelude::*;

verus! {

/// The payload shapes that the session can deliver. Each has an event id of
/// its own, a declared buffer size and a decoding.
#[derive(Clone, Copy, Debug, PartialEq, Eq, Structural)]
pub enum CallbackKind {
    /// A change of a user's persona.
    PersonaStateChange,
    /// The answer to a lobby list request.
    LobbyMatchList,
    /// The answer to a lobby creation request.
    LobbyCreated,
}

/// A decoded payload of one of the supported shapes.
#[derive(Clone, Copy, Debug, PartialEq, Eq, Structural)]
pub enum Payload {
    PersonaStateChange(PersonaStateChange),
    LobbyMatchList(LobbyMatchList),
    LobbyCreated(LobbyCreated),
}

/// Names one registration that the Steam client holds: the trampoline and
/// the closure behind it. The session stores the handle and hands it back;
/// it never looks into it.
#[derive(Clone, Copy, Debug, PartialEq, Eq, Structural)]
pub struct CallbackHandle(pub usize);

/// A registration as the session records it: the shape that the closure
/// expects, and the handle that names the closure.
#[derive(Clone, Copy, Debug, PartialEq, Eq, Structural)]
pub struct Registration {
    /// The payload shape that the closure was registered for. A buffer that
    /// reaches the registration is decoded as this shape.
    pub kind: CallbackKind,
    /// The handle of the trampoline that owns the closure.
    pub handle: CallbackHandle,
}

/// Something that the Steam client has queued for delivery.
#[derive(Debug, PartialEq, Eq)]
pub enum Event {
    /// An occurrence of the event with this id, with its raw buffer.
    Callback { id: i32, payload: Vec<u8> },
    /// The completion of the pending request `api_call`, with the transport
    /// failure flag and the raw buffer of the answer.
    CallResult { api_call: u64, io_failure: bool, payload: Vec<u8> },
}

/// One invocation of a registered closure.
#[derive(Clone, Copy, Debug, PartialEq, Eq)]
pub struct Delivery {
    /// The registration whose closure is invoked.
    pub handle: CallbackHandle,
    /// The decoded payload; none where the buffer did not have the size
    /// that the registration's shape declares.
    pub payload: Option<Payload>,
    /// Whether the request failed in transport. Never set for a persistent
    /// callback.
    pub io_failure: bool,
}

/// What the shell around the session has to do, in order, after a dispatch.
#[derive(Clone, Copy, Debug, PartialEq, Eq)]
pub enum Action {
    /// Invoke the closure behind the handle with this delivery, once.
    Invoke(Delivery),
    /// Retract the registration from the Steam client and free its closure.
    Retract(CallbackHandle),
}

impl CallbackKind {
    /// The event id under which the Steam client announces this shape.
    pub open spec fn spec_id(self) -> i32 {
        match self {
            CallbackKind::PersonaStateChange => PERSONA_STATE_CHANGE_ID,
            CallbackKind::LobbyMatchList => LOBBY_MATCH_LIST_ID,
            CallbackKind::LobbyCreated => LOBBY_CREATED_ID,
        }
    }

    /// The size in bytes of the buffer that carries this shape.
    pub open spec fn spec_size(self) -> usize {
        match self {
            CallbackKind::PersonaStateChange => PERSONA_STATE_CHANGE_SIZE,
            CallbackKind::LobbyMatchList => LOBBY_MATCH_LIST_SIZE,
            CallbackKind::LobbyCreated => LOBBY_CREATED_SIZE,
        }
    }

    /// The shape that is announced under an event id, if there is one.
    pub open spec fn spec_from_id(id: i32) -> Option<CallbackKind> {
        if id == PERSONA_STATE_CHANGE_ID {
            Some(CallbackKind::PersonaStateChange)
        } else if id == LOBBY_MATCH_LIST_ID {
            Some(CallbackKind::LobbyMatchList)
        } else if id == LOBBY_CREATED_ID {
            Some(CallbackKind::LobbyCreated)
        } else {
            None
        }
    }

    /// The payload of this shape that a buffer holds: none unless the buffer
    /// has exactly the declared size.
    pub open spec fn spec_decode(self, b: Seq<u8>) -> Option<Payload> {
        if b.len() != self.spec_size() {
            None
        } else {
            Some(
                match self {
                    CallbackKind::PersonaStateChange => Payload::PersonaStateChange(
                        PersonaStateChange::spec_decode(b),
                    ),
                    CallbackKind::LobbyMatchList => Payload::LobbyMatchList(
                        LobbyMatchList::spec_decode(b),
                    ),
                    CallbackKind::LobbyCreated => Payload::LobbyCreated(
                        LobbyCreated::spec_decode(b),
                    ),
                },
            )
        }
    }

    /// Returns the event id under which the Steam client announces this
    /// shape.
    pub fn id(self) -> (id: i32)
        ensures
            id == self.spec_id(),
    {
        match self {
            CallbackKind::PersonaStateChange => PERSONA_STATE_CHANGE_ID,
            CallbackKind::LobbyMatchList => LOBBY_MATCH_LIST_ID,
            CallbackKind::LobbyCreated => LOBBY_CREATED_ID,
        }
    }

    /// Returns the size in bytes of the buffer that carries this shape.
    pub fn size(self) -> (n: usize)
        ensures
            n == self.spec_size(),
    {
        match self {
            CallbackKind::PersonaStateChange => PERSONA_STATE_CHANGE_SIZE,
            CallbackKind::LobbyMatchList => LOBBY_MATCH_LIST_SIZE,
            CallbackKind::LobbyCreated => LOBBY_CREATED_SIZE,
        }
    }

    /// Finds the shape that is announced under an event id. An id that
    /// belongs to no supported shape has none.
    pub fn from_id(id: i32) -> (kind: Option<CallbackKind>)
        ensures
            kind == Self::spec_from_id(id),
            kind matches Some(k) ==> k.spec_id() == id,
            kind is None ==> forall|k: CallbackKind| k.spec_id() != id,
    {
        if id == PERSONA_STATE_CHANGE_ID {
            Some(CallbackKind::PersonaStateChange)
        } else if id == LOBBY_MATCH_LIST_ID {
            Some(CallbackKind::LobbyMatchList)
        } else if id == LOBBY_CREATED_ID {
            Some(CallbackKind::LobbyCreated)
        } else {
            None
        }
    }

    /// Decodes a raw buffer as a payload of this shape. The buffer must have
    /// exactly the declared size; a buffer of any other size holds no
    /// payload of this shape.
    pub fn decode(self, b: &[u8]) -> (p: Option<Payload>)
        ensures
            p == self.spec_decode(b@),
            p is Some <==> b@.len() == self.spec_size(),
            p matches Some(v) ==> v.spec_kind() == self,
    {
        match self {
            CallbackKind::PersonaStateChange => match PersonaStateChange::decode(b) {
                Some(v) => Some(Payload::PersonaStateChange(v)),
                None => None,
            },
            CallbackKind::LobbyMatchList => match LobbyMatchList::decode(b) {
                Some(v) => Some(Payload::LobbyMatchList(v)),
                None => None,
            },
            CallbackKind::LobbyCreated => match LobbyCreated::decode(b) {
                Some(v) => Some(Payload::LobbyCreated(v)),
                None => None,
            },
        }
    }

    /// Every shape is found again under its event id, and under no other:
    /// the event ids tell the shapes apart.
    pub proof fn lemma_id_names_kind(a: CallbackKind, b: CallbackKind)
        ensures
            Self::spec_from_id(a.spec_id()) == Some(a),
            a.spec_id() == b.spec_id() ==> a == b,
    {
    }
}

impl Payload {
    /// The shape of the payload.
    pub open spec fn spec_kind(self) -> CallbackKind {
        match self {
            Payload::PersonaStateChange(_) => CallbackKind::PersonaStateChange,
            Payload::LobbyMatchList(_) => CallbackKind::LobbyMatchList,
            Payload::LobbyCreated(_) => CallbackKind::LobbyCreated,
        }
    }

    /// The raw buffer that carries the payload.
    pub open spec fn spec_encode(self) -> Seq<u8> {
        match self {
            Payload::PersonaStateChange(v) => v.spec_encode(),
            Payload::LobbyMatchList(v) => v.spec_encode(),
            Payload::LobbyCreated(v) => v.spec_encode(),
        }
    }

    /// Returns the shape of the payload.
    pub fn kind(&self) -> (kind: CallbackKind)
        ensures
            kind == self.spec_kind(),
    {
        match self {
            Payload::PersonaStateChange(_) => CallbackKind::PersonaStateChange,
            Payload::LobbyMatchList(_) => CallbackKind::LobbyMatchList,
            Payload::LobbyCreated(_) => CallbackKind::LobbyCreated,
        }
    }

    /// Encodes the payload as the Steam client lays it out.
    pub fn encode(&self) -> (out: Vec<u8>)
        ensures
            out@ == self.spec_encode(),
            out@.len() == self.spec_kind().spec_size(),
            self.spec_kind().spec_decode(out@) == Some(*self),
    {
        proof {
            Self::lemma_round_trip(*self);
        }
        match self {
            Payload::PersonaStateChange(v) => v.encode(),
            Payload::LobbyMatchList(v) => v.encode(),
            Payload::LobbyCreated(v) => v.encode(),
        }
    }

    /// An encoded payload has the declared size of its shape, and decoding
    /// it as that shape gives the payload back, field for field.
    pub proof fn lemma_round_trip(p: Payload)
        ensures
            p.spec_encode().len() == p.spec_kind().spec_size(),
            p.spec_kind().spec_decode(p.spec_encode()) == Some(p),
    {
        match p {
            Payload::PersonaStateChange(v) => PersonaStateChange::lemma_round_trip(v),
            Payload::LobbyMatchList(v) => LobbyMatchList::lemma_round_trip(v),
            Payload::LobbyCreated(v) => LobbyCreated::lemma_round_trip(v),
        }
    }
}

/// The handle of a registration, if there is one.
pub open spec fn spec_handle_of(record: Option<Registration>) -> Option<CallbackHandle> {
    match record {
        Some(r) => Some(r.handle),
        None => None,
    }
}

/// Records the closure behind `handle` as a persistent callback for the
/// events of the given shape.
///
/// The registration comes after those recorded before and stays until the
/// session ends; there is no way to take a single callback back.
pub fn register_callback(state: &mut State, kind: CallbackKind, handle: CallbackHandle)
    ensures
        final(state)@ == old(state)@.insert_callback(Registration { kind, handle }),
{
    state.insert_callback(Registration { kind, handle });
}

/// Records the closure behind `handle` as the call result of the pending
/// request `api_call`, whose answer has the given shape.
///
/// Returns the handle that was recorded for the same request before, if
/// there was one: it has been replaced, and it is the caller's to retract.
pub fn register_call_result(
    state: &mut State,
    api_call: u64,
    kind: CallbackKind,
    handle: CallbackHandle,
) -> (replaced: Option<CallbackHandle>)
    ensures
        final(state)@ == old(state)@.insert_call_result(api_call, Registration { kind, handle }),
        replaced == spec_handle_of(old(state)@.call_result(api_call)),
{
    match state.insert_call_result(api_call, Registration { kind, handle }) {
        Some(prior) => Some(prior.handle),
        None => None,
    }
}

} // verus!
