//! The shape of a sync reply: rooms the account is invited to, rooms it has
//! joined, and the events of each room's timeline.

use vstd::prelude::*;
use crate::json::distinct_keys;

verus! {

/// A room identifier, such as `!abc:example.org`.
pub type RoomId = String;

/// The characters of a token that may be absent.
pub open spec fn token_view(token: Option<String>) -> Option<Seq<char>> {
    match token {
        Some(token) => Some(token@),
        None => None,
    }
}

/// The characters of each room id of a list, in the list's order.
pub open spec fn ids_view(ids: Seq<RoomId>) -> Seq<Seq<char>> {
    Seq::new(ids.len(), |i: int| ids[i]@)
}

/// What a message holds, by its `msgtype`.
#[derive(Clone, Debug, PartialEq, Eq)]
pub enum MessageContent {
    Text { body: String },
    Emote { body: String },
    Notice { body: String },
    File { body: String, url: String },
    Image { body: String, url: String },
    Video { body: String, url: String },
    Audio { body: String, url: String },
    Location { body: String, geo_uri: String },
}

/// The value of a [`MessageContent`].
pub enum MessageContentView {
    Text { body: Seq<char> },
    Emote { body: Seq<char> },
    Notice { body: Seq<char> },
    File { body: Seq<char>, url: Seq<char> },
    Image { body: Seq<char>, url: Seq<char> },
    Video { body: Seq<char>, url: Seq<char> },
    Audio { body: Seq<char>, url: Seq<char> },
    Location { body: Seq<char>, geo_uri: Seq<char> },
}

impl View for MessageContent {
    type V = MessageContentView;

    open spec fn view(&self) -> MessageContentView {
        match self {
            MessageContent::Text { body } => MessageContentView::Text { body: body@ },
            MessageContent::Emote { body } => MessageContentView::Emote { body: body@ },
            MessageContent::Notice { body } => MessageContentView::Notice { body: body@ },
            MessageContent::File { body, url } => MessageContentView::File { body: body@, url: url@ },
            MessageContent::Image { body, url } => MessageContentView::Image {
                body: body@,
                url: url@,
            },
            MessageContent::Video { body, url } => MessageContentView::Video {
                body: body@,
                url: url@,
            },
            MessageContent::Audio { body, url } => MessageContentView::Audio {
                body: body@,
                url: url@,
            },
            MessageContent::Location { body, geo_uri } => MessageContentView::Location {
                body: body@,
                geo_uri: geo_uri@,
            },
        }
    }
}

/// An event of a joined room's timeline.
#[derive(Clone, Debug, PartialEq, Eq)]
pub enum RoomEvent {
    /// A message, with the user who sent it.
    Message { sender: String, content: MessageContent },
    /// A change of somebody's membership.
    Member,
    /// The retraction of an earlier event.
    Redaction,
}

/// The value of a [`RoomEvent`].
pub enum RoomEventView {
    Message { sender: Seq<char>, content: MessageContentView },
    Member,
    Redaction,
}

impl View for RoomEvent {
    type V = RoomEventView;

    open spec fn view(&self) -> RoomEventView {
        match self {
            RoomEvent::Message { sender, content } => RoomEventView::Message {
                sender: sender@,
                content: content@,
            },
            RoomEvent::Member => RoomEventView::Member,
            RoomEvent::Redaction => RoomEventView::Redaction,
        }
    }
}

/// The values of a list of events, in the list's order.
pub open spec fn events_view(events: Seq<RoomEvent>) -> Seq<RoomEventView> {
    Seq::new(events.len(), |i: int| events[i]@)
}

/// The new events of one joined room, oldest first.
#[derive(Clone, Debug, PartialEq, Eq)]
pub struct SyncRoomsJoinTimeline {
    /// The token from which earlier events can be asked for, where the server sent one.
    pub prev_batch: Option<String>,
    pub events: Vec<RoomEvent>,
}

/// The value of a timeline.
pub struct TimelineView {
    pub prev_batch: Option<Seq<char>>,
    pub events: Seq<RoomEventView>,
}

impl View for SyncRoomsJoinTimeline {
    type V = TimelineView;

    open spec fn view(&self) -> TimelineView {
        TimelineView {
            prev_batch: token_view(self.prev_batch),
            events: events_view(self.events@),
        }
    }
}

/// What a sync reply says of one joined room.
#[derive(Clone, Debug, PartialEq, Eq)]
pub struct SyncRoomsJoin {
    pub timeline: SyncRoomsJoinTimeline,
}

impl View for SyncRoomsJoin {
    type V = TimelineView;

    open spec fn view(&self) -> TimelineView {
        self.timeline@
    }
}

/// Somebody's standing in a room.
#[derive(Clone, Copy, Debug, PartialEq, Eq, Structural)]
pub enum MemberContent {
    Invite,
    Join,
    Leave,
    Ban,
    Knock,
}

/// A membership event, as it is shown to an invited account.
#[derive(Clone, Debug, PartialEq, Eq)]
pub struct MemberEvent {
    pub sender: String,
    pub content: MemberContent,
}

/// The name that a room was given.
#[derive(Clone, Debug, PartialEq, Eq)]
pub struct RoomNameContent {
    pub name: String,
}

/// A naming event, as it is shown to an invited account.
#[derive(Clone, Debug, PartialEq, Eq)]
pub struct RoomNameEvent {
    pub sender: String,
    pub content: RoomNameContent,
}

/// An event of the state that comes with an invitation.
#[derive(Clone, Debug, PartialEq, Eq)]
pub enum StrippedEvent {
    Member(MemberEvent),
    Name(RoomNameEvent),
}

/// The value of a [`StrippedEvent`].
pub enum StrippedEventView {
    Member { sender: Seq<char>, content: MemberContent },
    Name { sender: Seq<char>, name: Seq<char> },
}

impl View for StrippedEvent {
    type V = StrippedEventView;

    open spec fn view(&self) -> StrippedEventView {
        match self {
            StrippedEvent::Member(event) => StrippedEventView::Member {
                sender: event.sender@,
                content: event.content,
            },
            StrippedEvent::Name(event) => StrippedEventView::Name {
                sender: event.sender@,
                name: event.content.name@,
            },
        }
    }
}

/// The values of a list of stripped events, in the list's order.
pub open spec fn stripped_view(events: Seq<StrippedEvent>) -> Seq<StrippedEventView> {
    Seq::new(events.len(), |i: int| events[i]@)
}

/// The state of a room that the account is invited to.
#[derive(Clone, Debug, PartialEq, Eq)]
pub struct InviteState {
    pub events: Vec<StrippedEvent>,
}

/// What a sync reply says of one room that the account is invited to.
#[derive(Clone, Debug, PartialEq, Eq)]
pub struct SyncRoomsInvite {
    pub invite_state: InviteState,
}

impl View for SyncRoomsInvite {
    type V = Seq<StrippedEventView>;

    open spec fn view(&self) -> Seq<StrippedEventView> {
        stripped_view(self.invite_state.events@)
    }
}

/// The rooms of a sync reply. Each list is keyed by room id and kept in the order
/// of the document's members. A reply that was decoded from bytes lists no room
/// twice; in one that does, the first entry is the room's.
#[derive(Clone, Debug, PartialEq, Eq)]
pub struct SyncRooms {
    pub invite: Vec<(RoomId, SyncRoomsInvite)>,
    pub join: Vec<(RoomId, SyncRoomsJoin)>,
}

/// The value of a [`SyncRooms`].
pub struct SyncRoomsView {
    pub invite: Seq<(Seq<char>, Seq<StrippedEventView>)>,
    pub join: Seq<(Seq<char>, TimelineView)>,
}

impl SyncRoomsView {
    /// Whether no room stands twice among the invitations, nor among the joined
    /// rooms.
    pub open spec fn listed_once(self) -> bool {
        distinct_keys(self.invite) && distinct_keys(self.join)
    }
}

/// The values of a list of invitations, in the list's order.
pub open spec fn invite_view(rooms: Seq<(RoomId, SyncRoomsInvite)>) -> Seq<
    (Seq<char>, Seq<StrippedEventView>),
> {
    Seq::new(rooms.len(), |i: int| (rooms[i].0@, rooms[i].1@))
}

/// The values of a list of joined rooms, in the list's order.
pub open spec fn join_view(rooms: Seq<(RoomId, SyncRoomsJoin)>) -> Seq<(Seq<char>, TimelineView)> {
    Seq::new(rooms.len(), |i: int| (rooms[i].0@, rooms[i].1@))
}

impl View for SyncRooms {
    type V = SyncRoomsView;

    open spec fn view(&self) -> SyncRoomsView {
        SyncRoomsView { invite: invite_view(self.invite@), join: join_view(self.join@) }
    }
}

/// A sync reply: the token to poll from next time, and the rooms.
#[derive(Clone, Debug, PartialEq, Eq)]
pub struct SyncMsgJson {
    pub next_batch: Option<String>,
    pub rooms: SyncRooms,
}

/// The value of a sync reply.
pub struct SyncView {
    pub next_batch: Option<Seq<char>>,
    pub rooms: SyncRoomsView,
}

impl View for SyncMsgJson {
    type V = SyncView;

    open spec fn view(&self) -> SyncView {
        SyncView {
            next_batch: token_view(self.next_batch),
            rooms: self.rooms@,
        }
    }
}

/// A sync reply as the protocol's documentation prints it: under the media type
/// `application/json`.
#[derive(Clone, Debug, PartialEq, Eq)]
pub struct SyncMsg {
    pub json: SyncMsgJson,
}

impl View for SyncMsg {
    type V = SyncView;

    open spec fn view(&self) -> SyncView {
        self.json@
    }
}

} // verus!
