//! Rooms as the store holds them.

use crate::ids::UserId;
use crate::message::Timestamp;
use vstd::prelude::*;

verus! {

#[derive(Debug, PartialEq, Eq)]
pub struct Room {
    /// The UUID of the record, as its 128-bit value.
    pub id: u128,
    pub name: String,
    pub created_by: UserId,
    pub is_private: bool,
    pub created_at: Timestamp,
}

/// What it takes to create a room.
#[derive(Debug, PartialEq, Eq)]
pub struct CreateRoom {
    pub name: String,
    pub created_by: UserId,
    pub is_private: bool,
}

/// What a client sends to have a room created.
#[derive(Debug, PartialEq, Eq)]
pub struct CreateRoomRequest {
    pub name: String,
    pub is_private: bool,
}

impl CreateRoom {
    /// The room that `request` asks for, created by the user `created_by`.
    pub fn from_request(request: CreateRoomRequest, created_by: UserId) -> (room: Self)
        ensures
            room.name == request.name,
            room.is_private == request.is_private,
            room.created_by == created_by,
    {
        CreateRoom { name: request.name, created_by, is_private: request.is_private }
    }
}

} // verus!
