//! Values, payloads and results of the Steam matchmaking interface.

use crate::callback::{Delivery, Payload};
use crate::error::{is_failure_code, SteamError, RESULT_OK};
use crate::wire::{
    lemma_i32_round_trip, lemma_u32_round_trip, lemma_u64_round_trip, read_i32_le, read_u32_le,
    read_u64_le, spec_i32_bytes, spec_i32_le, spec_u32_bytes, spec_u32_le, spec_u64_bytes,
    spec_u64_le, write_i32_le, write_padding, write_u32_le, write_u64_le,
};
use vstd::prelude::*;

verus! {

/// The first event id of the matchmaking interface.
pub const CALLBACK_BASE_ID: i32 = 500;

/// The event id under which the answer to a lobby list request arrives.
pub const LOBBY_MATCH_LIST_ID: i32 = CALLBACK_BASE_ID + 10;

/// The event id under which the answer to a lobby creation request arrives.
pub const LOBBY_CREATED_ID: i32 = CALLBACK_BASE_ID + 13;

/// The size in bytes of the answer to a lobby list request: the number of
/// matching lobbies in bytes 0 to 3.
pub const LOBBY_MATCH_LIST_SIZE: usize = 4;

/// The size in bytes of the answer to a lobby creation request: the result
/// code in bytes 0 to 3, four bytes of padding, and the lobby's id in bytes
/// 8 to 15.
pub const LOBBY_CREATED_SIZE: usize = 16;

/// Who may find and join a lobby.
#[derive(Clone, Copy, Debug, PartialEq, Eq, Structural)]
pub enum LobbyType {
    Private,
    FriendsOnly,
    Public,
    Invisible,
}

/// The id of a lobby.
#[derive(Clone, Copy, Debug, PartialEq, Eq, Structural)]
pub struct LobbyId(pub u64);

impl LobbyId {
    /// Creates a `LobbyId` from a raw 64 bit value.
    pub fn from_raw(id: u64) -> (r: LobbyId)
        ensures
            r == LobbyId(id),
    {
        LobbyId(id)
    }

    /// Returns the raw 64 bit value of the lobby id.
    pub fn raw(&self) -> (id: u64)
        ensures
            id == self.0,
    {
        self.0
    }
}

/// The answer to a lobby list request.
#[derive(Clone, Copy, Debug, PartialEq, Eq, Structural)]
pub struct LobbyMatchList {
    /// How many lobbies matched; they are fetched by index afterwards.
    pub lobbies_matching: u32,
}

impl LobbyMatchList {
    /// The payload that a buffer of the declared size holds.
    pub open spec fn spec_decode(b: Seq<u8>) -> LobbyMatchList {
        LobbyMatchList { lobbies_matching: spec_u32_le(b, 0) }
    }

    /// The buffer of the declared size that holds the payload.
    pub open spec fn spec_encode(self) -> Seq<u8> {
        spec_u32_bytes(self.lobbies_matching)
    }

    /// Decodes a raw buffer. A buffer of any other size than the declared
    /// one holds no lobby list answer.
    pub fn decode(b: &[u8]) -> (r: Option<LobbyMatchList>)
        ensures
            b@.len() == LOBBY_MATCH_LIST_SIZE ==> r == Some(Self::spec_decode(b@)),
            b@.len() != LOBBY_MATCH_LIST_SIZE ==> r is None,
    {
        if b.len() != LOBBY_MATCH_LIST_SIZE {
            return None;
        }
        Some(LobbyMatchList { lobbies_matching: read_u32_le(b, 0) })
    }

    /// Encodes the payload as the Steam client lays it out.
    pub fn encode(&self) -> (out: Vec<u8>)
        ensures
            out@ == self.spec_encode(),
            out@.len() == LOBBY_MATCH_LIST_SIZE,
            Self::spec_decode(out@) == *self,
    {
        proof {
            Self::lemma_round_trip(*self);
        }
        let mut out: Vec<u8> = Vec::new();
        write_u32_le(&mut out, self.lobbies_matching);
        assert(out@ =~= self.spec_encode());
        out
    }

    /// An encoded payload has the declared size and decodes to itself.
    pub proof fn lemma_round_trip(p: LobbyMatchList)
        ensures
            p.spec_encode().len() == LOBBY_MATCH_LIST_SIZE,
            Self::spec_decode(p.spec_encode()) == p,
    {
        let b = p.spec_encode();
        assert(b.subrange(0, 4) =~= spec_u32_bytes(p.lobbies_matching));
        lemma_u32_round_trip(b, 0, p.lobbies_matching);
    }
}

/// The answer to a lobby creation request.
#[derive(Clone, Copy, Debug, PartialEq, Eq, Structural)]
pub struct LobbyCreated {
    /// The result code of the request.
    pub result: i32,
    /// The raw id of the new lobby; meaningful where the result is success.
    pub lobby_steam_id: u64,
}

impl LobbyCreated {
    /// The payload that a buffer of the declared size holds.
    pub open spec fn spec_decode(b: Seq<u8>) -> LobbyCreated {
        LobbyCreated { result: spec_i32_le(b, 0), lobby_steam_id: spec_u64_le(b, 8) }
    }

    /// The buffer of the declared size that holds the payload, with zeros
    /// for padding.
    pub open spec fn spec_encode(self) -> Seq<u8> {
        spec_i32_bytes(self.result) + Seq::new(4, |i: int| 0u8) + spec_u64_bytes(
            self.lobby_steam_id,
        )
    }

    /// Decodes a raw buffer. A buffer of any other size than the declared
    /// one holds no lobby creation answer.
    pub fn decode(b: &[u8]) -> (r: Option<LobbyCreated>)
        ensures
            b@.len() == LOBBY_CREATED_SIZE ==> r == Some(Self::spec_decode(b@)),
            b@.len() != LOBBY_CREATED_SIZE ==> r is None,
    {
        if b.len() != LOBBY_CREATED_SIZE {
            return None;
        }
        Some(LobbyCreated { result: read_i32_le(b, 0), lobby_steam_id: read_u64_le(b, 8) })
    }

    /// Encodes the payload as the Steam client lays it out.
    pub fn encode(&self) -> (out: Vec<u8>)
        ensures
            out@ == self.spec_encode(),
            out@.len() == LOBBY_CREATED_SIZE,
            Self::spec_decode(out@) == *self,
    {
        proof {
            Self::lemma_round_trip(*self);
        }
        let mut out: Vec<u8> = Vec::new();
        write_i32_le(&mut out, self.result);
        write_padding(&mut out, 4);
        write_u64_le(&mut out, self.lobby_steam_id);
        assert(out@ =~= self.spec_encode());
        out
    }

    /// An encoded payload has the declared size and decodes to itself.
    pub proof fn lemma_round_trip(p: LobbyCreated)
        ensures
            p.spec_encode().len() == LOBBY_CREATED_SIZE,
            Self::spec_decode(p.spec_encode()) == p,
    {
        let b = p.spec_encode();
        assert(b.subrange(0, 4) =~= spec_i32_bytes(p.result));
        assert(b.subrange(8, 16) =~= spec_u64_bytes(p.lobby_steam_id));
        lemma_i32_round_trip(b, 0, p.result);
        lemma_u64_round_trip(b, 8, p.lobby_steam_id);
    }
}

/// What the answer to a lobby creation request means to the requester.
pub open spec fn spec_create_lobby_result(v: LobbyCreated, io_error: bool) -> Result<
    LobbyId,
    SteamError,
> {
    if io_error {
        Err(SteamError::TransportFailure)
    } else if v.result != RESULT_OK {
        Err(SteamError::spec_from_code(v.result))
    } else {
        Ok(LobbyId(v.lobby_steam_id))
    }
}

/// Turns the answer to a lobby creation request into the requester's result.
///
/// A transport failure comes first, whatever the payload holds: the payload
/// of a request that never completed means nothing. Otherwise a result code
/// other than success gives the error of that code, and success gives the
/// new lobby's id.
pub fn create_lobby_result(v: &LobbyCreated, io_error: bool) -> (r: Result<LobbyId, SteamError>)
    ensures
        r == spec_create_lobby_result(*v, io_error),
        io_error ==> r == Err::<LobbyId, SteamError>(SteamError::TransportFailure),
        r is Ok <==> !io_error && v.result == RESULT_OK,
        r matches Err(e) ==> e.wf(),
{
    if io_error {
        Err(SteamError::TransportFailure)
    } else if v.result != RESULT_OK {
        Err(SteamError::from_code(v.result))
    } else {
        Ok(LobbyId(v.lobby_steam_id))
    }
}

/// How many lobbies the answer to a lobby list request asks to fetch.
pub open spec fn spec_lobby_list_count(v: LobbyMatchList, io_error: bool) -> Result<
    u32,
    SteamError,
> {
    if io_error {
        Err(SteamError::TransportFailure)
    } else {
        Ok(v.lobbies_matching)
    }
}

/// Decides what follows the answer to a lobby list request: after a
/// transport failure nothing is fetched and the requester gets the error;
/// otherwise the lobbies with the indices below the returned count are
/// fetched, in that order.
pub fn lobby_list_count(v: &LobbyMatchList, io_error: bool) -> (r: Result<u32, SteamError>)
    ensures
        r == spec_lobby_list_count(*v, io_error),
{
    if io_error {
        Err(SteamError::TransportFailure)
    } else {
        Ok(v.lobbies_matching)
    }
}

/// Wraps the raw ids of the fetched lobbies, one for one and in their order.
pub fn lobby_list_result(raw: &Vec<u64>) -> (ids: Vec<LobbyId>)
    ensures
        ids@.len() == raw@.len(),
        forall|i: int| 0 <= i < raw@.len() ==> ids@[i] == LobbyId(raw@[i]),
{
    let mut ids: Vec<LobbyId> = Vec::new();
    let mut i: usize = 0;
    while i < raw.len()
        invariant
            i <= raw@.len(),
            ids@.len() == i,
            forall|j: int| 0 <= j < i ==> ids@[j] == LobbyId(raw@[j]),
        decreases raw@.len() - i,
    {
        ids.push(LobbyId(raw[i]));
        i = i + 1;
    }
    ids
}

/// What a delivery means to the requester of a lobby creation: nothing
/// where the delivery completed without a lobby creation answer.
pub open spec fn spec_create_lobby_outcome(d: Delivery) -> Option<Result<LobbyId, SteamError>> {
    if d.io_failure {
        Some(Err(SteamError::TransportFailure))
    } else {
        match d.payload {
            Some(Payload::LobbyCreated(v)) => Some(spec_create_lobby_result(v, false)),
            _ => None,
        }
    }
}

/// Turns the delivery of a lobby creation's call result into the
/// requester's result.
///
/// After a transport failure the result is that error, whatever the payload
/// holds and whether or not there is one. A delivery that completed carries
/// a lobby creation answer, and the result is what `create_lobby_result`
/// makes of it; one that completed with no payload, or with a payload of
/// another shape, was registered for the wrong shape and has no result.
pub fn create_lobby_outcome(d: &Delivery) -> (r: Option<Result<LobbyId, SteamError>>)
    ensures
        r == spec_create_lobby_outcome(*d),
        d.io_failure ==> r == Some(Err::<LobbyId, SteamError>(SteamError::TransportFailure)),
{
    if d.io_failure {
        return Some(Err(SteamError::TransportFailure));
    }
    match d.payload {
        Some(Payload::LobbyCreated(v)) => Some(create_lobby_result(&v, false)),
        _ => None,
    }
}

/// What a delivery means to the requester of a lobby list, before any
/// lobby is fetched: nothing where the delivery completed without a lobby
/// list answer.
pub open spec fn spec_lobby_list_outcome(d: Delivery) -> Option<Result<u32, SteamError>> {
    if d.io_failure {
        Some(Err(SteamError::TransportFailure))
    } else {
        match d.payload {
            Some(Payload::LobbyMatchList(v)) => Some(spec_lobby_list_count(v, false)),
            _ => None,
        }
    }
}

/// Turns the delivery of a lobby list's call result into the number of
/// lobbies to fetch, or the requester's error.
///
/// After a transport failure the result is that error, whatever the payload
/// holds and whether or not there is one. A delivery that completed with
/// no payload, or with a payload of another shape, has no result.
pub fn lobby_list_outcome(d: &Delivery) -> (r: Option<Result<u32, SteamError>>)
    ensures
        r == spec_lobby_list_outcome(*d),
        d.io_failure ==> r == Some(Err::<u32, SteamError>(SteamError::TransportFailure)),
{
    if d.io_failure {
        return Some(Err(SteamError::TransportFailure));
    }
    match d.payload {
        Some(Payload::LobbyMatchList(v)) => Some(lobby_list_count(&v, false)),
        _ => None,
    }
}

/// A rejected lobby creation keeps its code and its fields on the way
/// through the buffer.
///
/// An answer with a known failure code, encoded and decoded again, is the
/// same answer, field for field; without a transport failure it gives the
/// requester `ApplicationFailure` with that very code.
pub proof fn lemma_application_failure_is_forwarded(code: i32, lobby_steam_id: u64)
    requires
        is_failure_code(code),
    ensures
        ({
            let answer = LobbyCreated { result: code, lobby_steam_id };
            let decoded = LobbyCreated::spec_decode(answer.spec_encode());
            &&& answer.spec_encode().len() == LOBBY_CREATED_SIZE
            &&& decoded == answer
            &&& spec_create_lobby_result(decoded, false) == Err::<LobbyId, SteamError>(
                SteamError::ApplicationFailure(code),
            )
        }),
{
    LobbyCreated::lemma_round_trip(LobbyCreated { result: code, lobby_steam_id });
}

} // verus!
