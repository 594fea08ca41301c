//! Rooms: what is sent to join, create and invite, and what the server answers.

use vstd::prelude::*;
use crate::json::{fields_view, Json};
use crate::sync::{token_view, RoomId};

verus! {

/// The fields of the request that creates a room which everyone can join.
pub open spec fn create_room_fields_of(room_name: Seq<char>) -> Seq<(Seq<char>, Seq<char>)> {
    seq![("room_alias_name"@, room_name), ("preset"@, "public_chat"@)]
}

/// The fields of the request that invites a user to a room.
pub open spec fn invite_fields_of(user_id: Seq<char>) -> Seq<(Seq<char>, Seq<char>)> {
    seq![("user_id"@, user_id)]
}

/// The fields of the request that creates the room `room_name` for everyone to
/// join.
pub fn create_room_fields(room_name: String) -> (fields: Vec<(String, String)>)
    ensures
        fields_view(fields@) == create_room_fields_of(room_name@),
{
    let mut fields: Vec<(String, String)> = Vec::new();
    fields.push(("room_alias_name".to_owned(), room_name));
    fields.push(("preset".to_owned(), "public_chat".to_owned()));
    assert(fields_view(fields@) =~= create_room_fields_of(room_name@));
    fields
}

/// The fields of the request that invites the user `user_id`, given by the fully
/// qualified id.
pub fn invite_fields(user_id: &str) -> (fields: Vec<(String, String)>)
    ensures
        fields_view(fields@) == invite_fields_of(user_id@),
{
    let mut fields: Vec<(String, String)> = Vec::new();
    fields.push(("user_id".to_owned(), user_id.to_owned()));
    assert(fields_view(fields@) =~= invite_fields_of(user_id@));
    fields
}

/// Reads the room's id out of the server's answer to a join or a creation.
pub fn joined_room_id(answer: &Json) -> (id: Option<RoomId>)
    ensures
        token_view(id) == answer@.text_field("room_id"@),
{
    match answer.get_str("room_id") {
        Some(id) => Some(id.to_owned()),
        None => None,
    }
}

} // verus!
