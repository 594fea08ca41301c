//! The addresses of the requests that a bot sends to its homeserver.
//!
//! Each address starts with the homeserver's URL, without a trailing slash, and
//! all but the login's end with the access token. The token is taken as it is to
//! stand in the query: whoever calls has percent-encoded it. Room ids and aliases
//! are encoded here, as segments of a path.

use vstd::prelude::*;
use vstd::string::StringExecFns;
use crate::cursor::{SyncRequest, SyncRequestView};

verus! {

/// The percent-encoding of a text as one segment of a path, as the `url` crate
/// computes it.
pub uninterp spec fn segment_encoding(text: Seq<char>) -> Seq<char>;

/// Calls `url::percent_encoding::utf8_percent_encode` with the crate's
/// `PATH_SEGMENT_ENCODE_SET` and collects what it yields. Trusted: the outcome
/// depends on the text alone, so it is the named encoding of this text.
#[verifier::external_body]
fn encode_segment(text: &str) -> (encoded: String)
    ensures
        encoded@ == segment_encoding(text@),
{
    url::percent_encoding::utf8_percent_encode(text, url::percent_encoding::PATH_SEGMENT_ENCODE_SET)
        .to_string()
}

/// Calls `rand::random` for a `u64`. Trusted: nothing is claimed of the number.
#[verifier::external_body]
fn random_number() -> u64 {
    rand::random::<u64>()
}

/// The digit that stands for `d`, for `d` below ten.
pub open spec fn digit(d: nat) -> Seq<char> {
    if d == 0 {
        "0"@
    } else if d == 1 {
        "1"@
    } else if d == 2 {
        "2"@
    } else if d == 3 {
        "3"@
    } else if d == 4 {
        "4"@
    } else if d == 5 {
        "5"@
    } else if d == 6 {
        "6"@
    } else if d == 7 {
        "7"@
    } else if d == 8 {
        "8"@
    } else {
        "9"@
    }
}

/// A number in decimal digits, without leading zeros.
pub open spec fn decimal_text(n: nat) -> Seq<char>
    decreases n,
{
    if n < 10 {
        digit(n)
    } else {
        decimal_text(n / 10) + digit(n % 10)
    }
}

/// The part of a sync address that names the token to report from.
pub open spec fn since_part(since: Option<Seq<char>>) -> Seq<char> {
    match since {
        Some(token) => "since="@ + token + "&"@,
        None => Seq::empty(),
    }
}

/// The rooms of a sync filter: the one room in scope, or none.
pub open spec fn rooms_part(room_scope: Option<Seq<char>>) -> Seq<char> {
    match room_scope {
        Some(id) => "\""@ + segment_encoding(id) + "\""@,
        None => Seq::empty(),
    }
}

/// The part of a sync filter that limits the timeline.
pub open spec fn timeline_part(timeline_limit: Option<u64>) -> Seq<char> {
    match timeline_limit {
        Some(limit) => ",\"timeline\":{\"limit\":"@ + decimal_text(limit as nat) + "}"@,
        None => Seq::empty(),
    }
}

/// The address of a sync request.
pub open spec fn sync_address_of(
    server_name: Seq<char>,
    token: Seq<char>,
    request: SyncRequestView,
) -> Seq<char> {
    server_name + "/_matrix/client/r0/sync?"@ + since_part(request.since)
        + "filter={\"room\":{\"rooms\":["@ + rooms_part(request.room_scope) + "]"@ + timeline_part(
        request.timeline_limit,
    ) + "}}&access_token="@ + token
}

/// The address at which a server tells its login flows and takes a login.
pub open spec fn login_address_of(server_name: Seq<char>) -> Seq<char> {
    server_name + "/_matrix/client/r0/login"@
}

/// The address of the request that joins a room.
pub open spec fn join_address_of(server_name: Seq<char>, token: Seq<char>, room: Seq<char>) -> Seq<
    char,
> {
    server_name + "/_matrix/client/r0/join/"@ + segment_encoding(room) + "?access_token="@ + token
}

/// The address of the request that creates a room.
pub open spec fn create_room_address_of(server_name: Seq<char>, token: Seq<char>) -> Seq<char> {
    server_name + "/_matrix/client/r0/createRoom?access_token="@ + token
}

/// The address of the request that sends a message to a room as the
/// transaction `transaction`.
pub open spec fn send_address_of(
    server_name: Seq<char>,
    token: Seq<char>,
    room: Seq<char>,
    transaction: u64,
) -> Seq<char> {
    server_name + "/_matrix/client/r0/rooms/"@ + segment_encoding(room)
        + "/send/m.room.message/"@ + decimal_text(transaction as nat) + "?access_token="@ + token
}

/// The address of the request that invites a user to a room.
pub open spec fn invite_address_of(server_name: Seq<char>, token: Seq<char>, room: Seq<char>) -> Seq<
    char,
> {
    server_name + "/_matrix/client/r0/rooms/"@ + segment_encoding(room) + "/invite?access_token="@
        + token
}

fn digit_text(d: u64) -> (text: &'static str)
    requires
        d < 10,
    ensures
        text@ == digit(d as nat),
{
    if d == 0 {
        "0"
    } else if d == 1 {
        "1"
    } else if d == 2 {
        "2"
    } else if d == 3 {
        "3"
    } else if d == 4 {
        "4"
    } else if d == 5 {
        "5"
    } else if d == 6 {
        "6"
    } else if d == 7 {
        "7"
    } else if d == 8 {
        "8"
    } else {
        "9"
    }
}

/// Writes a number in decimal digits.
pub fn decimal(n: u64) -> (text: String)
    ensures
        text@ == decimal_text(n as nat),
    decreases n,
{
    if n < 10 {
        digit_text(n).to_owned()
    } else {
        let mut text = decimal(n / 10);
        text.append(digit_text(n % 10));
        text
    }
}

/// The address of the sync request `request`.
pub fn sync_address(server_name: &str, token: &str, request: &SyncRequest) -> (address: String)
    ensures
        address@ == sync_address_of(server_name@, token@, request@),
{
    let mut address = server_name.to_owned();
    address.append("/_matrix/client/r0/sync?");
    match &request.since {
        Some(since) => {
            address.append("since=");
            address.append(since.as_str());
            address.append("&");
        },
        None => {},
    }
    assert(address@ =~= server_name@ + "/_matrix/client/r0/sync?"@ + since_part(request@.since));
    address.append("filter={\"room\":{\"rooms\":[");
    let ghost before = address@;
    match &request.room_scope {
        Some(id) => {
            let encoded = encode_segment(id.as_str());
            address.append("\"");
            address.append(encoded.as_str());
            address.append("\"");
        },
        None => {},
    }
    assert(address@ =~= before + rooms_part(request@.room_scope));
    address.append("]");
    let ghost before = address@;
    match request.timeline_limit {
        Some(limit) => {
            let digits = decimal(limit);
            address.append(",\"timeline\":{\"limit\":");
            address.append(digits.as_str());
            address.append("}");
        },
        None => {},
    }
    assert(address@ =~= before + timeline_part(request@.timeline_limit));
    address.append("}}&access_token=");
    address.append(token);
    address
}

/// The address at which the server tells its login flows and takes a login.
pub fn login_address(server_name: &str) -> (address: String)
    ensures
        address@ == login_address_of(server_name@),
{
    let mut address = server_name.to_owned();
    address.append("/_matrix/client/r0/login");
    address
}

/// The address of the request that joins the room `room`, given by id or alias.
pub fn join_address(server_name: &str, token: &str, room: &str) -> (address: String)
    ensures
        address@ == join_address_of(server_name@, token@, room@),
{
    let encoded = encode_segment(room);
    let mut address = server_name.to_owned();
    address.append("/_matrix/client/r0/join/");
    address.append(encoded.as_str());
    address.append("?access_token=");
    address.append(token);
    address
}

/// The address of the request that creates a room.
pub fn create_room_address(server_name: &str, token: &str) -> (address: String)
    ensures
        address@ == create_room_address_of(server_name@, token@),
{
    let mut address = server_name.to_owned();
    address.append("/_matrix/client/r0/createRoom?access_token=");
    address.append(token);
    address
}

/// The address of the request that sends a message to the room `room` as the
/// transaction `transaction`.
pub fn send_address_for(server_name: &str, token: &str, room: &str, transaction: u64) -> (address:
    String)
    ensures
        address@ == send_address_of(server_name@, token@, room@, transaction),
{
    let encoded = encode_segment(room);
    let digits = decimal(transaction);
    let mut address = server_name.to_owned();
    address.append("/_matrix/client/r0/rooms/");
    address.append(encoded.as_str());
    address.append("/send/m.room.message/");
    address.append(digits.as_str());
    address.append("?access_token=");
    address.append(token);
    address
}

/// The address of the request that sends a message to the room `room`, as a
/// transaction whose number is drawn at random.
pub fn send_address(server_name: &str, token: &str, room: &str) -> (address: String)
    ensures
        exists|transaction: u64|
            address@ == #[trigger] send_address_of(server_name@, token@, room@, transaction),
{
    send_address_for(server_name, token, room, random_number())
}

/// The address of the request that invites a user to the room `room`.
pub fn invite_address(server_name: &str, token: &str, room: &str) -> (address: String)
    ensures
        address@ == invite_address_of(server_name@, token@, room@),
{
    let encoded = encode_segment(room);
    let mut address = server_name.to_owned();
    address.append("/_matrix/client/r0/rooms/");
    address.append(encoded.as_str());
    address.append("/invite?access_token=");
    address.append(token);
    address
}

} // verus!
