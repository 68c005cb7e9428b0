//! Authentication session tickets and the results of starting a session.
use vstd::prelude::*;

use crate::steam_id::CSteamID;

verus! {

/// The number of bytes a ticket buffer holds.
pub const TICKET_CAPACITY: usize = 1024;

/// The identity a ticket is requested for.
pub struct SteamNetworkingIdentity {}

/// What a ticket holds, as plain values.
pub ghost struct TicketView {
    pub version: u32,
    pub handle: Option<u32>,
    pub steam_id: Option<u64>,
    pub buffer: Option<Seq<u8>>,
    pub length: Option<usize>,
}

/// An opaque authentication session ticket. Tickets of version 1 carry a
/// handle, the identifier they were issued for, the ticket bytes and their
/// length.
pub struct HAuthTicket {
    pub(crate) version: u32,
    pub(crate) v1_handle: Option<u32>,
    pub(crate) v1_associated_id: Option<CSteamID>,
    pub(crate) v1_buffer: Option<[u8; 1024]>,
    pub(crate) v1_length: Option<usize>,
}

impl HAuthTicket {
    /// A ticket of version 1 carries all of its version 1 fields.
    #[verifier::type_invariant]
    spec fn fields_present(self) -> bool {
        self.version == 1 ==> {
            &&& self.v1_handle is Some
            &&& self.v1_associated_id is Some
            &&& self.v1_buffer is Some
            &&& self.v1_length is Some
        }
    }
}

impl View for HAuthTicket {
    type V = TicketView;

    closed spec fn view(&self) -> TicketView {
        TicketView {
            version: self.version,
            handle: self.v1_handle,
            steam_id: match self.v1_associated_id {
                Some(id) => Some(id@),
                None => None,
            },
            buffer: match self.v1_buffer {
                Some(b) => Some(b@),
                None => None,
            },
            length: self.v1_length,
        }
    }
}

/// The view of a version 1 ticket with the given fields.
pub open spec fn version1_view(handle: u32, steam_id: u64, buffer: Seq<u8>, length: usize) -> TicketView {
    TicketView {
        version: 1,
        handle: Some(handle),
        steam_id: Some(steam_id),
        buffer: Some(buffer),
        length: Some(length),
    }
}

impl HAuthTicket {
    /// A version 1 ticket with the given handle, identifier, bytes and length.
    pub fn new_version1(handle: u32, steam_id: CSteamID, buffer: [u8; 1024], length: usize) -> (t: Self)
        ensures
            t@ == version1_view(handle, steam_id@, buffer@, length),
    {
        HAuthTicket {
            version: 1,
            v1_handle: Some(handle),
            v1_associated_id: Some(steam_id),
            v1_buffer: Some(buffer),
            v1_length: Some(length),
        }
    }

    /// The ticket that a ticket request produced: none when the returned
    /// handle is 0 or no byte was written, else a version 1 ticket of the
    /// written bytes.
    pub fn from_issued(handle: u32, length: u32, steam_id: CSteamID, buffer: [u8; 1024]) -> (t:
        Option<Self>)
        ensures
            (handle == 0 || length == 0) ==> t is None,
            !(handle == 0 || length == 0) ==> t is Some && t->0@ == version1_view(
                handle,
                steam_id@,
                buffer@,
                length as usize,
            ),
    {
        if handle == 0 || length == 0 {
            None
        } else {
            Some(HAuthTicket::new_version1(handle, steam_id, buffer, length as usize))
        }
    }

    /// What starting an authentication session with this ticket passes on:
    /// the ticket bytes, their length as a 32-bit number and the raw
    /// identifier; none for a ticket of another version than 1.
    pub fn session_request(&self) -> (r: Option<(&[u8; 1024], u32, u64)>)
        ensures
            self@.version != 1 ==> r is None,
            self@.version == 1 ==> (r matches Some((bytes, length, id)) && bytes@
                == self@.buffer.unwrap() && length == self@.length.unwrap() as u32 && id
                == self@.steam_id.unwrap()),
    {
        proof {
            use_type_invariant(self);
        }
        if self.version != 1 {
            return None;
        }
        match (&self.v1_buffer, self.v1_length, &self.v1_associated_id) {
            (Some(buffer), Some(length), Some(id)) => Some((buffer, length as u32, u64::from(id))),
            _ => None,
        }
    }

    /// The raw identifier an authentication session of this ticket ends
    /// for; none for a ticket of another version than 1.
    pub fn session_steam_id(&self) -> (r: Option<u64>)
        ensures
            self@.version != 1 ==> r is None,
            self@.version == 1 ==> r == self@.steam_id,
    {
        proof {
            use_type_invariant(self);
        }
        if self.version != 1 {
            return None;
        }
        match &self.v1_associated_id {
            Some(id) => Some(u64::from(id)),
            None => None,
        }
    }

    /// The handle that cancelling this ticket passes on; none for a ticket
    /// of another version than 1.
    pub fn cancel_handle(&self) -> (r: Option<u32>)
        ensures
            self@.version != 1 ==> r is None,
            self@.version == 1 ==> r == self@.handle,
    {
        proof {
            use_type_invariant(self);
        }
        if self.version != 1 {
            return None;
        }
        self.v1_handle
    }
}

/// A version 1 ticket answers every request made of it with the fields it
/// was built from: starting a session passes its bytes, their length and
/// its identifier, ending one passes its identifier, and cancelling it
/// passes its handle.
pub proof fn lemma_version1_ticket_requests(
    ticket: HAuthTicket,
    handle: u32,
    steam_id: u64,
    buffer: Seq<u8>,
    length: usize,
)
    requires
        ticket@ == version1_view(handle, steam_id, buffer, length),
    ensures
        ticket@.version == 1,
        ticket@.buffer == Some(buffer),
        ticket@.length == Some(length),
        ticket@.steam_id == Some(steam_id),
        ticket@.handle == Some(handle),
{
}

/// The outcome of starting an authentication session.
#[derive(Debug, Clone, Copy, PartialEq, Eq, Structural)]
pub enum EBeginAuthSessionResult {
    /// The ticket is valid for this game and this identifier.
    OK,
    /// The ticket is not valid.
    InvalidTicket,
    /// A ticket was already submitted for this identifier.
    DuplicateRequest,
    /// The ticket comes from an incompatible interface version.
    InvalidVersion,
    /// The ticket is not for this game.
    GameMismatch,
    /// The ticket has expired.
    ExpiredTicket,
}

impl EBeginAuthSessionResult {
    /// The outcome a raw number of the version 1 interface stands for.
    pub open spec fn spec_v1_from(value: u32) -> Option<EBeginAuthSessionResult> {
        if value == 0 {
            Some(EBeginAuthSessionResult::OK)
        } else if value == 1 {
            Some(EBeginAuthSessionResult::InvalidTicket)
        } else if value == 2 {
            Some(EBeginAuthSessionResult::DuplicateRequest)
        } else if value == 3 {
            Some(EBeginAuthSessionResult::InvalidVersion)
        } else if value == 4 {
            Some(EBeginAuthSessionResult::GameMismatch)
        } else if value == 5 {
            Some(EBeginAuthSessionResult::ExpiredTicket)
        } else {
            None
        }
    }

    /// The outcome a raw number of the version 1 interface stands for;
    /// none for a number outside 0..=5.
    pub fn v1_from(value: u32) -> (r: Option<Self>)
        ensures
            r == Self::spec_v1_from(value),
    {
        match value {
            0 => Some(EBeginAuthSessionResult::OK),
            1 => Some(EBeginAuthSessionResult::InvalidTicket),
            2 => Some(EBeginAuthSessionResult::DuplicateRequest),
            3 => Some(EBeginAuthSessionResult::InvalidVersion),
            4 => Some(EBeginAuthSessionResult::GameMismatch),
            5 => Some(EBeginAuthSessionResult::ExpiredTicket),
            _ => None,
        }
    }

    /// The outcome of starting a session, given what the native call
    /// returned: `None` when no call was made (the ticket was of another
    /// version than 1), which counts as an invalid ticket, as does an
    /// unknown number.
    pub fn from_session_call(raw: Option<u32>) -> (r: Self)
        ensures
            r == match raw {
                Some(value) => match Self::spec_v1_from(value) {
                    Some(outcome) => outcome,
                    None => EBeginAuthSessionResult::InvalidTicket,
                },
                None => EBeginAuthSessionResult::InvalidTicket,
            },
    {
        match raw {
            Some(value) => match Self::v1_from(value) {
                Some(outcome) => outcome,
                None => EBeginAuthSessionResult::InvalidTicket,
            },
            None => EBeginAuthSessionResult::InvalidTicket,
        }
    }
}

} // verus!
