//! Decoding of sync replies: from a JSON document to typed rooms and events.
//!
//! Every decoder comes with a function of the model that says, on the value of
//! the document, what it returns. An event is told apart by its `type`, a message
//! by its `msgtype`; what bears no known tag is passed over, and what bears a
//! known tag and lacks a field of that variant is an error that names both.

use vstd::prelude::*;
use crate::json::{
    distinct_keys, docs_view, document_of, has_key, lemma_field_well_formed, members_view,
    same_text, Json, JsonModel, Member,
};
use crate::sync::{
    events_view, invite_view, join_view, stripped_view, InviteState, MemberContent, MemberEvent,
    MessageContent, MessageContentView, RoomEvent, RoomEventView, RoomId, RoomNameContent,
    RoomNameEvent, StrippedEvent, StrippedEventView, SyncMsg, SyncMsgJson, SyncRooms,
    SyncRoomsInvite, SyncRoomsJoin, SyncRoomsJoinTimeline, SyncRoomsView, SyncView, TimelineView,
};

verus! {

/// The kinds of message, one for each known `msgtype`.
#[derive(Clone, Copy, Debug, PartialEq, Eq, Structural)]
pub enum MessageKind {
    Text,
    Emote,
    Notice,
    File,
    Image,
    Video,
    Audio,
    Location,
}

/// The part of a reply in which something is missing.
#[derive(Clone, Copy, Debug, PartialEq, Eq, Structural)]
pub enum Variant {
    /// The content of a message of the given kind.
    Content(MessageKind),
    /// An `m.room.message` event.
    Message,
    /// An `m.room.member` event of an invitation.
    Member,
    /// An `m.room.name` event of an invitation.
    RoomName,
    /// The entry of a room that the account is invited to.
    Invite,
    /// The entry of a joined room.
    Join,
    /// The reply itself.
    Sync,
    /// The reply in its documentation form, under a media type.
    Reply,
}

/// The field that is missing, or holds a value of the wrong shape.
#[derive(Clone, Copy, Debug, PartialEq, Eq, Structural)]
pub enum Field {
    Body,
    Url,
    GeoUri,
    Sender,
    Content,
    Name,
    InviteState,
    Timeline,
    Events,
    NextBatch,
    Rooms,
    Invite,
    Join,
    Json,
}

/// Why a reply could not be decoded.
#[derive(Clone, Copy, Debug, PartialEq, Eq, Structural)]
pub enum DecodeError {
    /// The bytes are not a JSON document.
    Syntax,
    /// A known variant lacks a field that it requires, or holds something else there.
    Missing { variant: Variant, field: Field },
}

/// The value of a decoder's result that may pass its input over.
pub open spec fn outcome_view<T: View>(r: Result<Option<T>, DecodeError>) -> Result<
    Option<T::V>,
    DecodeError,
> {
    match r {
        Ok(Some(t)) => Ok(Some(t@)),
        Ok(None) => Ok(None),
        Err(e) => Err(e),
    }
}

/// The value of a decoder's result.
pub open spec fn result_view<T: View>(r: Result<T, DecodeError>) -> Result<T::V, DecodeError> {
    match r {
        Ok(t) => Ok(t@),
        Err(e) => Err(e),
    }
}

/// The kind of message that a `msgtype` names.
pub open spec fn kind_named(tag: Seq<char>) -> Option<MessageKind> {
    if tag == "m.text"@ {
        Some(MessageKind::Text)
    } else if tag == "m.emote"@ {
        Some(MessageKind::Emote)
    } else if tag == "m.notice"@ {
        Some(MessageKind::Notice)
    } else if tag == "m.file"@ {
        Some(MessageKind::File)
    } else if tag == "m.image"@ {
        Some(MessageKind::Image)
    } else if tag == "m.video"@ {
        Some(MessageKind::Video)
    } else if tag == "m.audio"@ {
        Some(MessageKind::Audio)
    } else if tag == "m.location"@ {
        Some(MessageKind::Location)
    } else {
        None
    }
}

/// The error for a message content of `kind` that lacks `field`.
pub open spec fn content_lacks(kind: MessageKind, field: Field) -> DecodeError {
    DecodeError::Missing { variant: Variant::Content(kind), field }
}

/// What the `content` of a message event decodes to: nothing where its `msgtype`
/// is absent or unknown, an error where a field of its kind is no string.
pub open spec fn content_of(content: JsonModel) -> Result<Option<MessageContentView>, DecodeError> {
    match content.text_field("msgtype"@) {
        None => Ok(None),
        Some(tag) => match kind_named(tag) {
            None => Ok(None),
            Some(kind) => match content.text_field("body"@) {
                None => Err(content_lacks(kind, Field::Body)),
                Some(body) => match kind {
                    MessageKind::Text => Ok(Some(MessageContentView::Text { body })),
                    MessageKind::Emote => Ok(Some(MessageContentView::Emote { body })),
                    MessageKind::Notice => Ok(Some(MessageContentView::Notice { body })),
                    MessageKind::Location => match content.text_field("geo_uri"@) {
                        None => Err(content_lacks(kind, Field::GeoUri)),
                        Some(geo_uri) => Ok(Some(MessageContentView::Location { body, geo_uri })),
                    },
                    _ => match content.text_field("url"@) {
                        None => Err(content_lacks(kind, Field::Url)),
                        Some(url) => Ok(Some(linked(kind, body, url))),
                    },
                },
            },
        },
    }
}

/// The content of a message that points to an upload.
pub open spec fn linked(kind: MessageKind, body: Seq<char>, url: Seq<char>) -> MessageContentView {
    match kind {
        MessageKind::File => MessageContentView::File { body, url },
        MessageKind::Image => MessageContentView::Image { body, url },
        MessageKind::Video => MessageContentView::Video { body, url },
        _ => MessageContentView::Audio { body, url },
    }
}

/// The error for an event of `variant` that lacks `field`.
pub open spec fn lacks(variant: Variant, field: Field) -> DecodeError {
    DecodeError::Missing { variant, field }
}

/// What a timeline event decodes to: nothing where its `type` is absent or
/// unknown, or where it is a message of an unknown kind.
pub open spec fn event_of(event: JsonModel) -> Result<Option<RoomEventView>, DecodeError> {
    match event.text_field("type"@) {
        None => Ok(None),
        Some(tag) => if tag == "m.room.message"@ {
            match event.field("content"@) {
                None => Err(lacks(Variant::Message, Field::Content)),
                Some(content) => match content_of(content) {
                    Err(e) => Err(e),
                    Ok(None) => Ok(None),
                    Ok(Some(content)) => match event.text_field("sender"@) {
                        None => Err(lacks(Variant::Message, Field::Sender)),
                        Some(sender) => Ok(Some(RoomEventView::Message { sender, content })),
                    },
                },
            }
        } else if tag == "m.room.member"@ {
            Ok(Some(RoomEventView::Member))
        } else if tag == "m.room.redaction"@ {
            Ok(Some(RoomEventView::Redaction))
        } else {
            Ok(None)
        },
    }
}

/// The events that a timeline's array decodes to: those of its elements that
/// decode to an event, in the array's order.
pub open spec fn events_of(items: Seq<JsonModel>) -> Seq<RoomEventView>
    decreases items.len(),
{
    if items.len() == 0 {
        Seq::empty()
    } else {
        let before = events_of(items.drop_last());
        match event_of(items.last()) {
            Ok(Some(event)) => before.push(event),
            _ => before,
        }
    }
}

/// What the entry of a joined room decodes to.
pub open spec fn join_of(room: JsonModel) -> Result<TimelineView, DecodeError> {
    match room.field("timeline"@) {
        None => Err(lacks(Variant::Join, Field::Timeline)),
        Some(timeline) => match timeline.field("events"@) {
            None => Err(lacks(Variant::Join, Field::Events)),
            Some(events) => match events.items() {
                None => Err(lacks(Variant::Join, Field::Events)),
                Some(items) => Ok(
                    TimelineView {
                        prev_batch: timeline.text_field("prev_batch"@),
                        events: events_of(items),
                    },
                ),
            },
        },
    }
}

/// The joined rooms that the members of `rooms.join` decode to: those whose entry
/// decodes, in the object's order.
pub open spec fn joined_of(members: Seq<(Seq<char>, JsonModel)>) -> Seq<(Seq<char>, TimelineView)>
    decreases members.len(),
{
    if members.len() == 0 {
        Seq::empty()
    } else {
        let before = joined_of(members.drop_last());
        match join_of(members.last().1) {
            Ok(timeline) => before.push((members.last().0, timeline)),
            Err(_) => before,
        }
    }
}

/// The standing that a `membership` names.
pub open spec fn membership_named(tag: Seq<char>) -> Option<MemberContent> {
    if tag == "invite"@ {
        Some(MemberContent::Invite)
    } else if tag == "join"@ {
        Some(MemberContent::Join)
    } else if tag == "leave"@ {
        Some(MemberContent::Leave)
    } else if tag == "ban"@ {
        Some(MemberContent::Ban)
    } else if tag == "knock"@ {
        Some(MemberContent::Knock)
    } else {
        None
    }
}

/// What an event of an invitation's state decodes to: nothing where its `type`
/// is absent or unknown, or where it is a membership of an unknown standing.
pub open spec fn stripped_of(event: JsonModel) -> Result<Option<StrippedEventView>, DecodeError> {
    match event.text_field("type"@) {
        None => Ok(None),
        Some(tag) => if tag == "m.room.member"@ {
            match event.field("content"@) {
                None => Err(lacks(Variant::Member, Field::Content)),
                Some(content) => match content.text_field("membership"@) {
                    None => Ok(None),
                    Some(standing) => match membership_named(standing) {
                        None => Ok(None),
                        Some(content) => match event.text_field("sender"@) {
                            None => Err(lacks(Variant::Member, Field::Sender)),
                            Some(sender) => Ok(Some(StrippedEventView::Member { sender, content })),
                        },
                    },
                },
            }
        } else if tag == "m.room.name"@ {
            match event.field("content"@) {
                None => Err(lacks(Variant::RoomName, Field::Content)),
                Some(content) => match content.text_field("name"@) {
                    None => Err(lacks(Variant::RoomName, Field::Name)),
                    Some(name) => match event.text_field("sender"@) {
                        None => Err(lacks(Variant::RoomName, Field::Sender)),
                        Some(sender) => Ok(Some(StrippedEventView::Name { sender, name })),
                    },
                },
            }
        } else {
            Ok(None)
        },
    }
}

/// The events that an invitation's array decodes to: those of its elements that
/// decode to an event, in the array's order.
pub open spec fn stripped_events_of(items: Seq<JsonModel>) -> Seq<StrippedEventView>
    decreases items.len(),
{
    if items.len() == 0 {
        Seq::empty()
    } else {
        let before = stripped_events_of(items.drop_last());
        match stripped_of(items.last()) {
            Ok(Some(event)) => before.push(event),
            _ => before,
        }
    }
}

/// What the entry of a room that the account is invited to decodes to.
pub open spec fn invite_of(room: JsonModel) -> Result<Seq<StrippedEventView>, DecodeError> {
    match room.field("invite_state"@) {
        None => Err(lacks(Variant::Invite, Field::InviteState)),
        Some(state) => match state.field("events"@) {
            None => Err(lacks(Variant::Invite, Field::Events)),
            Some(events) => match events.items() {
                None => Err(lacks(Variant::Invite, Field::Events)),
                Some(items) => Ok(stripped_events_of(items)),
            },
        },
    }
}

/// The invitations that the members of `rooms.invite` decode to: those whose
/// entry decodes, in the object's order.
pub open spec fn invited_of(members: Seq<(Seq<char>, JsonModel)>) -> Seq<
    (Seq<char>, Seq<StrippedEventView>),
>
    decreases members.len(),
{
    if members.len() == 0 {
        Seq::empty()
    } else {
        let before = invited_of(members.drop_last());
        match invite_of(members.last().1) {
            Ok(events) => before.push((members.last().0, events)),
            Err(_) => before,
        }
    }
}

/// What the `rooms` of a reply decode to. A list that the reply leaves out is
/// empty; one that is no object is an error.
pub open spec fn rooms_of(rooms: JsonModel) -> Result<SyncRoomsView, DecodeError> {
    let invite = match rooms.field("invite"@) {
        None => Some(Seq::empty()),
        Some(list) => list.members(),
    };
    let join = match rooms.field("join"@) {
        None => Some(Seq::empty()),
        Some(list) => list.members(),
    };
    match invite {
        None => Err(lacks(Variant::Sync, Field::Invite)),
        Some(invite) => match join {
            None => Err(lacks(Variant::Sync, Field::Join)),
            Some(join) => Ok(SyncRoomsView { invite: invited_of(invite), join: joined_of(join) }),
        },
    }
}

/// What a reply decodes to. `next_batch` may be absent, `rooms` may not; one that
/// is present must be a string, the other an object.
pub open spec fn sync_of(reply: JsonModel) -> Result<SyncView, DecodeError> {
    let next_batch = match reply.field("next_batch"@) {
        None => Some(None),
        Some(token) => match token.text() {
            None => None,
            Some(token) => Some(Some(token)),
        },
    };
    match next_batch {
        None => Err(lacks(Variant::Sync, Field::NextBatch)),
        Some(next_batch) => match reply.field("rooms"@) {
            None => Err(lacks(Variant::Sync, Field::Rooms)),
            Some(rooms) => if rooms.members() is None {
                Err(lacks(Variant::Sync, Field::Rooms))
            } else {
                match rooms_of(rooms) {
                    Err(e) => Err(e),
                    Ok(rooms) => Ok(SyncView { next_batch, rooms }),
                }
            },
        },
    }
}

/// What a reply in its documentation form decodes to: the reply that stands
/// under `application/json`.
pub open spec fn sync_msg_of(document: JsonModel) -> Result<SyncView, DecodeError> {
    match document.field("application/json"@) {
        None => Err(lacks(Variant::Reply, Field::Json)),
        Some(reply) => sync_of(reply),
    }
}

/// What the body of a reply decodes to: a syntax error where the bytes are no
/// JSON document, else what the document decodes to.
pub open spec fn sync_of_body(body: Seq<u8>) -> Result<SyncView, DecodeError> {
    match document_of(body) {
        None => Err(DecodeError::Syntax),
        Some(reply) => sync_of(reply),
    }
}

/// What a body in the documentation form decodes to.
pub open spec fn sync_msg_of_body(body: Seq<u8>) -> Result<SyncView, DecodeError> {
    match document_of(body) {
        None => Err(DecodeError::Syntax),
        Some(document) => sync_msg_of(document),
    }
}

/// Decoding keeps the order of a timeline: the events of two arrays laid end to
/// end are the events of the first followed by the events of the second.
pub proof fn lemma_events_of_concat(first: Seq<JsonModel>, second: Seq<JsonModel>)
    ensures
        events_of(first + second) == events_of(first) + events_of(second),
    decreases second.len(),
{
    if second.len() == 0 {
        assert(first + second =~= first);
        assert(events_of(first) + events_of(second) =~= events_of(first));
    } else {
        lemma_events_of_concat(first, second.drop_last());
        assert((first + second).drop_last() =~= first + second.drop_last());
        assert((first + second).last() == second.last());
        let before = events_of(first) + events_of(second.drop_last());
        match event_of(second.last()) {
            Ok(Some(event)) => {
                assert(before.push(event) =~= events_of(first) + events_of(
                    second.drop_last(),
                ).push(event));
            },
            _ => {},
        }
    }
}

/// An element that does not decode to an event leaves no trace: the timeline
/// decodes as it would without that element. So an event of an unknown type, or
/// a message of an unknown kind, never disturbs the events around it.
pub proof fn lemma_unknown_event_is_dropped(items: Seq<JsonModel>, at: int)
    requires
        0 <= at < items.len(),
        !(event_of(items[at]) matches Ok(Some(_))),
    ensures
        events_of(items) == events_of(items.remove(at)),
{
    let head = items.take(at);
    let one = seq![items[at]];
    let tail = items.skip(at + 1);
    assert(items =~= (head + one) + tail);
    assert(items.remove(at) =~= head + tail);
    lemma_events_of_concat(head + one, tail);
    lemma_events_of_concat(head, one);
    lemma_events_of_concat(head, tail);
    assert(one.drop_last() =~= Seq::<JsonModel>::empty());
    assert(events_of(one.drop_last()) =~= Seq::<RoomEventView>::empty());
    assert(one.last() == items[at]);
    assert(events_of(one) =~= Seq::<RoomEventView>::empty());
    assert(events_of(head) + Seq::<RoomEventView>::empty() =~= events_of(head));
}

/// An element that decodes to an event stands in the decoded timeline at the end
/// of what came before it.
pub proof fn lemma_known_event_is_kept(items: Seq<JsonModel>, event: RoomEventView)
    requires
        items.len() > 0,
        event_of(items.last()) == Ok::<Option<RoomEventView>, DecodeError>(Some(event)),
    ensures
        events_of(items) == events_of(items.drop_last()).push(event),
{
}

/// The token of a decoded reply is the text of the reply's `next_batch`,
/// character for character, and is absent exactly when the reply has none.
pub proof fn lemma_token_is_verbatim(reply: JsonModel)
    requires
        sync_of(reply) is Ok,
    ensures
        sync_of(reply)->Ok_0.next_batch == reply.text_field("next_batch"@),
        sync_of(reply)->Ok_0.next_batch is None <==> reply.field("next_batch"@) is None,
{
}

/// The invitations decoded from an object keep its names: each comes from a
/// member of that name, and where the object names no member twice, no room is
/// listed twice.
pub proof fn lemma_invited_of_names(members: Seq<(Seq<char>, JsonModel)>)
    ensures
        forall|k: int|
            0 <= k < invited_of(members).len() ==> has_key(members, (#[trigger] invited_of(members)[k]).0),
        distinct_keys(members) ==> distinct_keys(invited_of(members)),
    decreases members.len(),
{
    if members.len() > 0 {
        let front = members.drop_last();
        let before = invited_of(front);
        lemma_invited_of_names(front);
        assert forall|k: int| 0 <= k < before.len() implies has_key(
            members,
            (#[trigger] before[k]).0,
        ) by {
            assert(has_key(front, before[k].0));
            let i = choose|i: int| 0 <= i < front.len() && (#[trigger] front[i]).0 == before[k].0;
            assert(members[i] == front[i]);
        }
        if distinct_keys(members) {
            assert forall|i: int, j: int| 0 <= i < j < front.len() implies (#[trigger] front[i]).0
                != (#[trigger] front[j]).0 by {
                assert(front[i] == members[i] && front[j] == members[j]);
            }
            assert forall|k: int| 0 <= k < before.len() implies (#[trigger] before[k]).0
                != members.last().0 by {
                assert(has_key(front, before[k].0));
                let i = choose|i: int|
                    0 <= i < front.len() && (#[trigger] front[i]).0 == before[k].0;
                assert(front[i] == members[i]);
                assert(members[members.len() - 1] == members.last());
            }
        }
        assert(members[members.len() - 1] == members.last());
    }
}

/// The joined rooms decoded from an object keep its names: each comes from a
/// member of that name, and where the object names no member twice, no room is
/// listed twice.
pub proof fn lemma_joined_of_names(members: Seq<(Seq<char>, JsonModel)>)
    ensures
        forall|k: int|
            0 <= k < joined_of(members).len() ==> has_key(members, (#[trigger] joined_of(members)[k]).0),
        distinct_keys(members) ==> distinct_keys(joined_of(members)),
    decreases members.len(),
{
    if members.len() > 0 {
        let front = members.drop_last();
        let before = joined_of(front);
        lemma_joined_of_names(front);
        assert forall|k: int| 0 <= k < before.len() implies has_key(
            members,
            (#[trigger] before[k]).0,
        ) by {
            assert(has_key(front, before[k].0));
            let i = choose|i: int| 0 <= i < front.len() && (#[trigger] front[i]).0 == before[k].0;
            assert(members[i] == front[i]);
        }
        if distinct_keys(members) {
            assert forall|i: int, j: int| 0 <= i < j < front.len() implies (#[trigger] front[i]).0
                != (#[trigger] front[j]).0 by {
                assert(front[i] == members[i] && front[j] == members[j]);
            }
            assert forall|k: int| 0 <= k < before.len() implies (#[trigger] before[k]).0
                != members.last().0 by {
                assert(has_key(front, before[k].0));
                let i = choose|i: int|
                    0 <= i < front.len() && (#[trigger] front[i]).0 == before[k].0;
                assert(front[i] == members[i]);
                assert(members[members.len() - 1] == members.last());
            }
        }
        assert(members[members.len() - 1] == members.last());
    }
}

/// A reply decoded from a well-formed document lists no room twice, neither
/// among the invitations nor among the joined rooms.
pub proof fn lemma_rooms_listed_once(reply: JsonModel)
    requires
        reply.well_formed(),
        sync_of(reply) is Ok,
    ensures
        sync_of(reply)->Ok_0.rooms.listed_once(),
{
    lemma_field_well_formed(reply, "rooms"@);
    let rooms = reply.field("rooms"@)->Some_0;
    lemma_field_well_formed(rooms, "invite"@);
    lemma_field_well_formed(rooms, "join"@);
    let empty = Seq::<(Seq<char>, JsonModel)>::empty();
    lemma_invited_of_names(empty);
    lemma_joined_of_names(empty);
    match rooms.field("invite"@) {
        Some(list) => lemma_invited_of_names(list.members()->Some_0),
        None => {},
    }
    match rooms.field("join"@) {
        Some(list) => lemma_joined_of_names(list.members()->Some_0),
        None => {},
    }
}

impl MessageKind {
    /// The kind that a `msgtype` names, if it is a known one.
    pub fn of_msgtype(tag: &str) -> (r: Option<MessageKind>)
        ensures
            r == kind_named(tag@),
    {
        if same_text(tag, "m.text") {
            Some(MessageKind::Text)
        } else if same_text(tag, "m.emote") {
            Some(MessageKind::Emote)
        } else if same_text(tag, "m.notice") {
            Some(MessageKind::Notice)
        } else if same_text(tag, "m.file") {
            Some(MessageKind::File)
        } else if same_text(tag, "m.image") {
            Some(MessageKind::Image)
        } else if same_text(tag, "m.video") {
            Some(MessageKind::Video)
        } else if same_text(tag, "m.audio") {
            Some(MessageKind::Audio)
        } else if same_text(tag, "m.location") {
            Some(MessageKind::Location)
        } else {
            None
        }
    }
}

/// Decodes the `content` of a message event.
pub fn decode_content(content: &Json) -> (r: Result<Option<MessageContent>, DecodeError>)
    ensures
        outcome_view(r) == content_of(content@),
{
    let tag = match content.get_str("msgtype") {
        Some(tag) => tag,
        None => { return Ok(None); },
    };
    let kind = match MessageKind::of_msgtype(tag) {
        Some(kind) => kind,
        None => { return Ok(None); },
    };
    let body = match content.get_str("body") {
        Some(body) => body.to_owned(),
        None => {
            return Err(DecodeError::Missing { variant: Variant::Content(kind), field: Field::Body });
        },
    };
    match kind {
        MessageKind::Text => Ok(Some(MessageContent::Text { body })),
        MessageKind::Emote => Ok(Some(MessageContent::Emote { body })),
        MessageKind::Notice => Ok(Some(MessageContent::Notice { body })),
        MessageKind::Location => match content.get_str("geo_uri") {
            Some(geo_uri) => Ok(Some(MessageContent::Location { body, geo_uri: geo_uri.to_owned() })),
            None => Err(
                DecodeError::Missing { variant: Variant::Content(kind), field: Field::GeoUri },
            ),
        },
        _ => match content.get_str("url") {
            Some(url) => {
                let url = url.to_owned();
                Ok(
                    Some(
                        match kind {
                            MessageKind::File => MessageContent::File { body, url },
                            MessageKind::Image => MessageContent::Image { body, url },
                            MessageKind::Video => MessageContent::Video { body, url },
                            _ => MessageContent::Audio { body, url },
                        },
                    ),
                )
            },
            None => Err(DecodeError::Missing { variant: Variant::Content(kind), field: Field::Url }),
        },
    }
}

/// Decodes one event of a timeline.
pub fn decode_event(event: &Json) -> (r: Result<Option<RoomEvent>, DecodeError>)
    ensures
        outcome_view(r) == event_of(event@),
{
    let tag = match event.get_str("type") {
        Some(tag) => tag,
        None => { return Ok(None); },
    };
    if same_text(tag, "m.room.message") {
        let content = match event.get("content") {
            Some(content) => content,
            None => {
                return Err(DecodeError::Missing { variant: Variant::Message, field: Field::Content });
            },
        };
        match decode_content(content) {
            Err(e) => Err(e),
            Ok(None) => Ok(None),
            Ok(Some(content)) => match event.get_str("sender") {
                Some(sender) => Ok(Some(RoomEvent::Message { sender: sender.to_owned(), content })),
                None => Err(
                    DecodeError::Missing { variant: Variant::Message, field: Field::Sender },
                ),
            },
        }
    } else if same_text(tag, "m.room.member") {
        Ok(Some(RoomEvent::Member))
    } else if same_text(tag, "m.room.redaction") {
        Ok(Some(RoomEvent::Redaction))
    } else {
        Ok(None)
    }
}

/// Decodes the events of a timeline, oldest first. An element that is no known
/// event, or that fails to decode, is left out; the others keep their order.
pub fn decode_events(items: &Vec<Json>) -> (events: Vec<RoomEvent>)
    ensures
        events_view(events@) == events_of(docs_view(items@)),
{
    let ghost all = docs_view(items@);
    let mut events: Vec<RoomEvent> = Vec::new();
    let mut i: usize = 0;
    assert(events_view(events@) =~= events_of(all.take(0)));
    while i < items.len()
        invariant
            i <= items.len(),
            all == docs_view(items@),
            events_view(events@) == events_of(all.take(i as int)),
        decreases items.len() - i,
    {
        let ghost before = events@;
        assert(all.take(i as int + 1).drop_last() =~= all.take(i as int));
        assert(all.take(i as int + 1).last() == items@[i as int]@);
        match decode_event(&items[i]) {
            Ok(Some(event)) => {
                events.push(event);
                assert(events_view(events@) =~= events_view(before).push(event@));
            },
            _ => {},
        }
        i += 1;
    }
    assert(all.take(i as int) =~= all);
    events
}

/// Decodes the entry of a joined room.
pub fn decode_join(room: &Json) -> (r: Result<SyncRoomsJoin, DecodeError>)
    ensures
        result_view(r) == join_of(room@),
{
    let timeline = match room.get("timeline") {
        Some(timeline) => timeline,
        None => {
            return Err(DecodeError::Missing { variant: Variant::Join, field: Field::Timeline });
        },
    };
    let items = match timeline.get("events") {
        Some(events) => match events.as_array() {
            Some(items) => items,
            None => {
                return Err(DecodeError::Missing { variant: Variant::Join, field: Field::Events });
            },
        },
        None => {
            return Err(DecodeError::Missing { variant: Variant::Join, field: Field::Events });
        },
    };
    let prev_batch = match timeline.get_str("prev_batch") {
        Some(token) => Some(token.to_owned()),
        None => None,
    };
    Ok(SyncRoomsJoin { timeline: SyncRoomsJoinTimeline { prev_batch, events: decode_events(items) } })
}

/// Decodes the members of `rooms.join`. A room whose entry fails to decode is
/// left out; the others keep their order.
pub fn decode_joined(members: &Vec<Member>) -> (rooms: Vec<(RoomId, SyncRoomsJoin)>)
    ensures
        join_view(rooms@) == joined_of(members_view(members@)),
{
    let ghost all = members_view(members@);
    let mut rooms: Vec<(RoomId, SyncRoomsJoin)> = Vec::new();
    let mut i: usize = 0;
    assert(join_view(rooms@) =~= joined_of(all.take(0)));
    while i < members.len()
        invariant
            i <= members.len(),
            all == members_view(members@),
            join_view(rooms@) == joined_of(all.take(i as int)),
        decreases members.len() - i,
    {
        let ghost before = rooms@;
        assert(all.take(i as int + 1).drop_last() =~= all.take(i as int));
        assert(all.take(i as int + 1).last() == (members@[i as int].key@, members@[i as int].value@));
        match decode_join(&members[i].value) {
            Ok(room) => {
                let id = members[i].key.clone();
                rooms.push((id, room));
                assert(join_view(rooms@) =~= join_view(before).push((id@, room@)));
            },
            Err(_) => {},
        }
        i += 1;
    }
    assert(all.take(i as int) =~= all);
    rooms
}

impl MemberContent {
    /// The standing that a `membership` names, if it is a known one.
    pub fn of_membership(tag: &str) -> (r: Option<MemberContent>)
        ensures
            r == membership_named(tag@),
    {
        if same_text(tag, "invite") {
            Some(MemberContent::Invite)
        } else if same_text(tag, "join") {
            Some(MemberContent::Join)
        } else if same_text(tag, "leave") {
            Some(MemberContent::Leave)
        } else if same_text(tag, "ban") {
            Some(MemberContent::Ban)
        } else if same_text(tag, "knock") {
            Some(MemberContent::Knock)
        } else {
            None
        }
    }
}

/// Decodes one event of an invitation's state.
pub fn decode_stripped(event: &Json) -> (r: Result<Option<StrippedEvent>, DecodeError>)
    ensures
        outcome_view(r) == stripped_of(event@),
{
    let tag = match event.get_str("type") {
        Some(tag) => tag,
        None => { return Ok(None); },
    };
    if same_text(tag, "m.room.member") {
        let content = match event.get("content") {
            Some(content) => content,
            None => {
                return Err(DecodeError::Missing { variant: Variant::Member, field: Field::Content });
            },
        };
        let standing = match content.get_str("membership") {
            Some(standing) => standing,
            None => { return Ok(None); },
        };
        match MemberContent::of_membership(standing) {
            None => Ok(None),
            Some(content) => match event.get_str("sender") {
                Some(sender) => Ok(
                    Some(StrippedEvent::Member(MemberEvent { sender: sender.to_owned(), content })),
                ),
                None => Err(DecodeError::Missing { variant: Variant::Member, field: Field::Sender }),
            },
        }
    } else if same_text(tag, "m.room.name") {
        let content = match event.get("content") {
            Some(content) => content,
            None => {
                return Err(
                    DecodeError::Missing { variant: Variant::RoomName, field: Field::Content },
                );
            },
        };
        let name = match content.get_str("name") {
            Some(name) => name.to_owned(),
            None => {
                return Err(DecodeError::Missing { variant: Variant::RoomName, field: Field::Name });
            },
        };
        match event.get_str("sender") {
            Some(sender) => Ok(
                Some(
                    StrippedEvent::Name(
                        RoomNameEvent { sender: sender.to_owned(), content: RoomNameContent { name } },
                    ),
                ),
            ),
            None => Err(DecodeError::Missing { variant: Variant::RoomName, field: Field::Sender }),
        }
    } else {
        Ok(None)
    }
}

/// Decodes the events of an invitation's state. An element that is no known
/// event, or that fails to decode, is left out; the others keep their order.
pub fn decode_stripped_events(items: &Vec<Json>) -> (events: Vec<StrippedEvent>)
    ensures
        stripped_view(events@) == stripped_events_of(docs_view(items@)),
{
    let ghost all = docs_view(items@);
    let mut events: Vec<StrippedEvent> = Vec::new();
    let mut i: usize = 0;
    assert(stripped_view(events@) =~= stripped_events_of(all.take(0)));
    while i < items.len()
        invariant
            i <= items.len(),
            all == docs_view(items@),
            stripped_view(events@) == stripped_events_of(all.take(i as int)),
        decreases items.len() - i,
    {
        let ghost before = events@;
        assert(all.take(i as int + 1).drop_last() =~= all.take(i as int));
        assert(all.take(i as int + 1).last() == items@[i as int]@);
        match decode_stripped(&items[i]) {
            Ok(Some(event)) => {
                events.push(event);
                assert(stripped_view(events@) =~= stripped_view(before).push(event@));
            },
            _ => {},
        }
        i += 1;
    }
    assert(all.take(i as int) =~= all);
    events
}

/// Decodes the entry of a room that the account is invited to.
pub fn decode_invite(room: &Json) -> (r: Result<SyncRoomsInvite, DecodeError>)
    ensures
        result_view(r) == invite_of(room@),
{
    let state = match room.get("invite_state") {
        Some(state) => state,
        None => {
            return Err(DecodeError::Missing { variant: Variant::Invite, field: Field::InviteState });
        },
    };
    let items = match state.get("events") {
        Some(events) => match events.as_array() {
            Some(items) => items,
            None => {
                return Err(DecodeError::Missing { variant: Variant::Invite, field: Field::Events });
            },
        },
        None => {
            return Err(DecodeError::Missing { variant: Variant::Invite, field: Field::Events });
        },
    };
    Ok(SyncRoomsInvite { invite_state: InviteState { events: decode_stripped_events(items) } })
}

/// Decodes the members of `rooms.invite`. A room whose entry fails to decode is
/// left out; the others keep their order.
pub fn decode_invited(members: &Vec<Member>) -> (rooms: Vec<(RoomId, SyncRoomsInvite)>)
    ensures
        invite_view(rooms@) == invited_of(members_view(members@)),
{
    let ghost all = members_view(members@);
    let mut rooms: Vec<(RoomId, SyncRoomsInvite)> = Vec::new();
    let mut i: usize = 0;
    assert(invite_view(rooms@) =~= invited_of(all.take(0)));
    while i < members.len()
        invariant
            i <= members.len(),
            all == members_view(members@),
            invite_view(rooms@) == invited_of(all.take(i as int)),
        decreases members.len() - i,
    {
        let ghost before = rooms@;
        assert(all.take(i as int + 1).drop_last() =~= all.take(i as int));
        assert(all.take(i as int + 1).last() == (members@[i as int].key@, members@[i as int].value@));
        match decode_invite(&members[i].value) {
            Ok(room) => {
                let id = members[i].key.clone();
                rooms.push((id, room));
                assert(invite_view(rooms@) =~= invite_view(before).push((id@, room@)));
            },
            Err(_) => {},
        }
        i += 1;
    }
    assert(all.take(i as int) =~= all);
    rooms
}

/// Decodes the `rooms` of a reply.
pub fn decode_rooms(rooms: &Json) -> (r: Result<SyncRooms, DecodeError>)
    ensures
        result_view(r) == rooms_of(rooms@),
{
    let invite = match rooms.get("invite") {
        None => Vec::new(),
        Some(list) => match list.as_object() {
            Some(members) => decode_invited(members),
            None => {
                return Err(DecodeError::Missing { variant: Variant::Sync, field: Field::Invite });
            },
        },
    };
    let join = match rooms.get("join") {
        None => Vec::new(),
        Some(list) => match list.as_object() {
            Some(members) => decode_joined(members),
            None => {
                return Err(DecodeError::Missing { variant: Variant::Sync, field: Field::Join });
            },
        },
    };
    proof {
        let empty = Seq::<(Seq<char>, JsonModel)>::empty();
        assert(invited_of(empty) =~= Seq::empty());
        assert(joined_of(empty) =~= Seq::empty());
        assert(rooms@.field("invite"@) is None ==> invite_view(invite@) =~= Seq::empty());
        assert(rooms@.field("join"@) is None ==> join_view(join@) =~= Seq::empty());
    }
    Ok(SyncRooms { invite, join })
}

/// Decodes a sync reply from its JSON document.
pub fn decode_sync(reply: &Json) -> (r: Result<SyncMsgJson, DecodeError>)
    ensures
        result_view(r) == sync_of(reply@),
{
    let next_batch = match reply.get("next_batch") {
        None => None,
        Some(token) => match token.as_str() {
            Some(token) => Some(token.to_owned()),
            None => {
                return Err(DecodeError::Missing { variant: Variant::Sync, field: Field::NextBatch });
            },
        },
    };
    let rooms = match reply.get("rooms") {
        Some(rooms) => rooms,
        None => {
            return Err(DecodeError::Missing { variant: Variant::Sync, field: Field::Rooms });
        },
    };
    if rooms.as_object().is_none() {
        return Err(DecodeError::Missing { variant: Variant::Sync, field: Field::Rooms });
    }
    match decode_rooms(rooms) {
        Ok(rooms) => Ok(SyncMsgJson { next_batch, rooms }),
        Err(e) => Err(e),
    }
}

/// Decodes a sync reply in its documentation form from its JSON document.
pub fn decode_sync_msg(document: &Json) -> (r: Result<SyncMsg, DecodeError>)
    ensures
        result_view(r) == sync_msg_of(document@),
{
    match document.get("application/json") {
        None => Err(DecodeError::Missing { variant: Variant::Reply, field: Field::Json }),
        Some(reply) => match decode_sync(reply) {
            Ok(json) => Ok(SyncMsg { json }),
            Err(e) => Err(e),
        },
    }
}

impl SyncMsgJson {
    /// Decodes a sync reply from the bytes of its body. The reply lists no room
    /// twice.
    pub fn from_body(body: &[u8]) -> (r: Result<SyncMsgJson, DecodeError>)
        ensures
            result_view(r) == sync_of_body(body@),
            r matches Ok(sync) ==> sync@.rooms.listed_once(),
    {
        match Json::parse(body) {
            None => Err(DecodeError::Syntax),
            Some(reply) => {
                let r = decode_sync(&reply);
                proof {
                    if r is Ok {
                        lemma_rooms_listed_once(reply@);
                    }
                }
                r
            },
        }
    }
}

impl SyncMsg {
    /// Decodes a sync reply in its documentation form from the bytes of its body.
    /// The reply lists no room twice.
    pub fn from_body(body: &[u8]) -> (r: Result<SyncMsg, DecodeError>)
        ensures
            result_view(r) == sync_msg_of_body(body@),
            r matches Ok(sync) ==> sync@.rooms.listed_once(),
    {
        match Json::parse(body) {
            None => Err(DecodeError::Syntax),
            Some(document) => {
                let r = decode_sync_msg(&document);
                proof {
                    if r is Ok {
                        lemma_field_well_formed(document@, "application/json"@);
                        lemma_rooms_listed_once(document@.field("application/json"@)->Some_0);
                    }
                }
                r
            },
        }
    }
}

} // verus!
