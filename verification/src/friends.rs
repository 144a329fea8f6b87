//! Payloads of the Steam friends interface.

use crate::wire::{
    lemma_i32_round_trip, lemma_u64_round_trip, read_i32_le, read_u64_le, spec_i32_bytes,
    spec_i32_le, spec_u64_bytes, spec_u64_le, write_i32_le, write_padding, write_u64_le,
};
use crate::callback::{Delivery, Payload};
use crate::SteamId;
use vstd::prelude::*;

verus! {

/// The first event id of the friends interface.
pub const CALLBACK_BASE_ID: i32 = 300;

/// The event id under which a change of a user's persona is announced.
pub const PERSONA_STATE_CHANGE_ID: i32 = CALLBACK_BASE_ID + 4;

/// The size in bytes of the buffer that announces a persona change: the
/// user's id in bytes 0 to 7, the change flags in bytes 8 to 11, and four
/// bytes of padding.
pub const PERSONA_STATE_CHANGE_SIZE: usize = 16;

/// Something about a user has changed: the name, the status, the avatar or
/// another part of the persona, as the flags say.
#[derive(Clone, Copy, Debug, PartialEq, Eq, Structural)]
pub struct PersonaStateChange {
    /// The user whose persona changed.
    pub user: SteamId,
    /// What changed, one bit for each part of the persona.
    pub flags: i32,
}

impl PersonaStateChange {
    /// The payload that a buffer of the declared size holds.
    pub open spec fn spec_decode(b: Seq<u8>) -> PersonaStateChange {
        PersonaStateChange { user: SteamId(spec_u64_le(b, 0)), flags: spec_i32_le(b, 8) }
    }

    /// The buffer of the declared size that holds the payload, with zeros
    /// for padding.
    pub open spec fn spec_encode(self) -> Seq<u8> {
        spec_u64_bytes(self.user.0) + spec_i32_bytes(self.flags) + Seq::new(4, |i: int| 0u8)
    }

    /// Decodes a raw buffer. A buffer of any other size than the declared
    /// one holds no persona change.
    pub fn decode(b: &[u8]) -> (r: Option<PersonaStateChange>)
        ensures
            b@.len() == PERSONA_STATE_CHANGE_SIZE ==> r == Some(Self::spec_decode(b@)),
            b@.len() != PERSONA_STATE_CHANGE_SIZE ==> r is None,
    {
        if b.len() != PERSONA_STATE_CHANGE_SIZE {
            return None;
        }
        Some(PersonaStateChange { user: SteamId(read_u64_le(b, 0)), flags: read_i32_le(b, 8) })
    }

    /// Encodes the payload as the Steam client lays it out.
    pub fn encode(&self) -> (out: Vec<u8>)
        ensures
            out@ == self.spec_encode(),
            out@.len() == PERSONA_STATE_CHANGE_SIZE,
            Self::spec_decode(out@) == *self,
    {
        proof {
            Self::lemma_round_trip(*self);
        }
        let mut out: Vec<u8> = Vec::new();
        write_u64_le(&mut out, self.user.0);
        write_i32_le(&mut out, self.flags);
        write_padding(&mut out, 4);
        assert(out@ =~= self.spec_encode());
        out
    }

    /// An encoded payload has the declared size and decodes to itself.
    pub proof fn lemma_round_trip(p: PersonaStateChange)
        ensures
            p.spec_encode().len() == PERSONA_STATE_CHANGE_SIZE,
            Self::spec_decode(p.spec_encode()) == p,
    {
        let b = p.spec_encode();
        assert(b.subrange(0, 8) =~= spec_u64_bytes(p.user.0));
        assert(b.subrange(8, 12) =~= spec_i32_bytes(p.flags));
        lemma_u64_round_trip(b, 0, p.user.0);
        lemma_i32_round_trip(b, 8, p.flags);
    }
}

/// The persona change that a delivery carries, if it carries one.
pub open spec fn spec_persona_state_change(d: Delivery) -> Option<PersonaStateChange> {
    match d.payload {
        Some(Payload::PersonaStateChange(v)) => Some(v),
        _ => None,
    }
}

/// Takes the persona change out of a delivery. A delivery with no payload,
/// or with a payload of another shape, carries none.
pub fn persona_state_change(d: &Delivery) -> (r: Option<PersonaStateChange>)
    ensures
        r == spec_persona_state_change(*d),
{
    match d.payload {
        Some(Payload::PersonaStateChange(v)) => Some(v),
        _ => None,
    }
}

} // verus!
