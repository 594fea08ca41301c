//! Messages as a bot writes and reads them.

use vstd::prelude::*;
use crate::decode::{content_of, kind_named, DecodeError, MessageKind};
use crate::json::{fields_view, lookup, object_of, JsonModel};
use crate::sync;
use crate::sync::{events_view, MessageContent, MessageContentView, RoomEventView};

verus! {

/// A message received from a room, or to be sent to one.
#[derive(Clone, Debug, PartialEq, Eq)]
pub enum Message {
    /// Text. Not meant as a reply to a message.
    Text(String),
    /// An action of the sender.
    Emote(String),
    /// A notice, as automatic replies are. Not meant to be replied to.
    Notice(String),
    /// An image. The URL is that of an upload to the homeserver.
    Image { body: String, url: String },
    /// A file. The URL is that of an upload to the homeserver.
    File { body: String, url: String },
    /// A place. `geo_uri` is a geo URI such as `geo:37.786971,-122.399677`.
    Location { body: String, geo_uri: String },
    /// A video. The URL is that of an upload to the homeserver.
    Video { body: String, url: String },
    /// A sound. The URL is that of an upload to the homeserver.
    Audio { body: String, url: String },
}

impl View for Message {
    type V = MessageContentView;

    open spec fn view(&self) -> MessageContentView {
        match self {
            Message::Text(body) => MessageContentView::Text { body: body@ },
            Message::Emote(body) => MessageContentView::Emote { body: body@ },
            Message::Notice(body) => MessageContentView::Notice { body: body@ },
            Message::Image { body, url } => MessageContentView::Image { body: body@, url: url@ },
            Message::File { body, url } => MessageContentView::File { body: body@, url: url@ },
            Message::Location { body, geo_uri } => MessageContentView::Location {
                body: body@,
                geo_uri: geo_uri@,
            },
            Message::Video { body, url } => MessageContentView::Video { body: body@, url: url@ },
            Message::Audio { body, url } => MessageContentView::Audio { body: body@, url: url@ },
        }
    }
}

/// Something that happened in a room.
#[derive(Clone, Debug, PartialEq, Eq)]
pub enum RoomEvent {
    /// A message in the room.
    Message(Message),
    /// The name of the room.
    Name(String),
    /// The topic of the room.
    Topic(String),
    /// The avatar of the room, an image.
    Avatar { url: String },
}

/// The value of a [`RoomEvent`].
pub enum EventView {
    Message(MessageContentView),
    Name(Seq<char>),
    Topic(Seq<char>),
    Avatar { url: Seq<char> },
}

impl View for RoomEvent {
    type V = EventView;

    open spec fn view(&self) -> EventView {
        match self {
            RoomEvent::Message(message) => EventView::Message(message@),
            RoomEvent::Name(name) => EventView::Name(name@),
            RoomEvent::Topic(topic) => EventView::Topic(topic@),
            RoomEvent::Avatar { url } => EventView::Avatar { url: url@ },
        }
    }
}

/// The values of a list of events, in the list's order.
pub open spec fn received_view(events: Seq<RoomEvent>) -> Seq<EventView> {
    Seq::new(events.len(), |i: int| events[i]@)
}

/// The messages among the events of a timeline, in the timeline's order.
pub open spec fn messages_of(events: Seq<RoomEventView>) -> Seq<EventView>
    decreases events.len(),
{
    if events.len() == 0 {
        Seq::empty()
    } else {
        let before = messages_of(events.drop_last());
        match events.last() {
            RoomEventView::Message { content, .. } => before.push(EventView::Message(content)),
            _ => before,
        }
    }
}

/// The kind of a message.
pub open spec fn kind_of(message: MessageContentView) -> MessageKind {
    match message {
        MessageContentView::Text { .. } => MessageKind::Text,
        MessageContentView::Emote { .. } => MessageKind::Emote,
        MessageContentView::Notice { .. } => MessageKind::Notice,
        MessageContentView::File { .. } => MessageKind::File,
        MessageContentView::Image { .. } => MessageKind::Image,
        MessageContentView::Video { .. } => MessageKind::Video,
        MessageContentView::Audio { .. } => MessageKind::Audio,
        MessageContentView::Location { .. } => MessageKind::Location,
    }
}

/// The `msgtype` that names a kind of message.
pub open spec fn msgtype_of(kind: MessageKind) -> Seq<char> {
    match kind {
        MessageKind::Text => "m.text"@,
        MessageKind::Emote => "m.emote"@,
        MessageKind::Notice => "m.notice"@,
        MessageKind::File => "m.file"@,
        MessageKind::Image => "m.image"@,
        MessageKind::Video => "m.video"@,
        MessageKind::Audio => "m.audio"@,
        MessageKind::Location => "m.location"@,
    }
}

/// The body of a message.
pub open spec fn body_text(message: MessageContentView) -> Seq<char> {
    match message {
        MessageContentView::Text { body } => body,
        MessageContentView::Emote { body } => body,
        MessageContentView::Notice { body } => body,
        MessageContentView::File { body, .. } => body,
        MessageContentView::Image { body, .. } => body,
        MessageContentView::Video { body, .. } => body,
        MessageContentView::Audio { body, .. } => body,
        MessageContentView::Location { body, .. } => body,
    }
}

/// The fields of the content that carries a message: its `msgtype`, its `body`,
/// and what the kind adds to these.
pub open spec fn fields_of(message: MessageContentView) -> Seq<(Seq<char>, Seq<char>)> {
    let common = seq![("msgtype"@, msgtype_of(kind_of(message))), ("body"@, body_text(message))];
    match message {
        MessageContentView::File { url, .. } => common.push(("url"@, url)),
        MessageContentView::Image { url, .. } => common.push(("url"@, url)),
        MessageContentView::Video { url, .. } => common.push(("url"@, url)),
        MessageContentView::Audio { url, .. } => common.push(("url"@, url)),
        MessageContentView::Location { geo_uri, .. } => common.push(("geo_uri"@, geo_uri)),
        _ => common,
    }
}

/// Each kind of message is the one that its own `msgtype` names.
pub proof fn lemma_msgtype_names_kind(kind: MessageKind)
    ensures
        kind_named(msgtype_of(kind)) == Some(kind),
{
    reveal_strlit("m.text");
    reveal_strlit("m.emote");
    reveal_strlit("m.notice");
    reveal_strlit("m.file");
    reveal_strlit("m.image");
    reveal_strlit("m.video");
    reveal_strlit("m.audio");
    reveal_strlit("m.location");
    assert("m.text"@.len() == 6 && "m.file"@.len() == 6);
    assert("m.emote"@.len() == 7 && "m.image"@.len() == 7);
    assert("m.video"@.len() == 7 && "m.audio"@.len() == 7);
    assert("m.notice"@.len() == 8 && "m.location"@.len() == 10);
    assert("m.text"@[2] == 't');
    assert("m.file"@[2] == 'f');
    assert("m.emote"@[2] == 'e');
    assert("m.image"@[2] == 'i');
    assert("m.video"@[2] == 'v');
    assert("m.audio"@[2] == 'a');
}

/// A message that is sent is the message that is read: the content made of a
/// message's fields decodes to that message.
pub proof fn lemma_sent_message_decodes(message: MessageContentView)
    ensures
        content_of(object_of(fields_of(message))) == Ok::<Option<MessageContentView>, DecodeError>(
            Some(message),
        ),
{
    let content = object_of(fields_of(message));
    let members = content->Object_0;
    lemma_msgtype_names_kind(kind_of(message));
    reveal_strlit("msgtype");
    reveal_strlit("body");
    reveal_strlit("url");
    reveal_strlit("geo_uri");
    assert("msgtype"@.len() == 7 && "body"@.len() == 4);
    assert("url"@.len() == 3 && "geo_uri"@.len() == 7);
    assert("msgtype"@[0] == 'm');
    assert("geo_uri"@[0] == 'g');
    assert(members[0].0 == "msgtype"@);
    assert(members[1].0 == "body"@);
    assert(lookup(members, "msgtype"@) == Some(JsonModel::Text(msgtype_of(kind_of(message)))));
    assert(members.drop_first()[0] == members[1]);
    assert(lookup(members.drop_first(), "body"@) == Some(members[1].1));
    assert(lookup(members, "body"@) == Some(JsonModel::Text(body_text(message))));
    if members.len() == 3 {
        assert(members.drop_first().drop_first()[0] == members[2]);
        assert(lookup(members.drop_first().drop_first(), members[2].0) == Some(members[2].1));
        assert(lookup(members.drop_first(), members[2].0) == Some(members[2].1));
        assert(lookup(members, members[2].0) == Some(members[2].1));
    }
}

impl MessageKind {
    /// The `msgtype` that names this kind.
    pub fn msgtype(self) -> (tag: &'static str)
        ensures
            tag@ == msgtype_of(self),
    {
        match self {
            MessageKind::Text => "m.text",
            MessageKind::Emote => "m.emote",
            MessageKind::Notice => "m.notice",
            MessageKind::File => "m.file",
            MessageKind::Image => "m.image",
            MessageKind::Video => "m.video",
            MessageKind::Audio => "m.audio",
            MessageKind::Location => "m.location",
        }
    }
}

impl Message {
    /// The message that a decoded content holds.
    pub fn from_content(content: &MessageContent) -> (message: Message)
        ensures
            message@ == content@,
    {
        match content {
            MessageContent::Text { body } => Message::Text(body.clone()),
            MessageContent::Emote { body } => Message::Emote(body.clone()),
            MessageContent::Notice { body } => Message::Notice(body.clone()),
            MessageContent::File { body, url } => Message::File {
                body: body.clone(),
                url: url.clone(),
            },
            MessageContent::Image { body, url } => Message::Image {
                body: body.clone(),
                url: url.clone(),
            },
            MessageContent::Video { body, url } => Message::Video {
                body: body.clone(),
                url: url.clone(),
            },
            MessageContent::Audio { body, url } => Message::Audio {
                body: body.clone(),
                url: url.clone(),
            },
            MessageContent::Location { body, geo_uri } => Message::Location {
                body: body.clone(),
                geo_uri: geo_uri.clone(),
            },
        }
    }

    /// The kind of this message.
    pub fn kind(&self) -> (kind: MessageKind)
        ensures
            kind == kind_of(self@),
    {
        match self {
            Message::Text(_) => MessageKind::Text,
            Message::Emote(_) => MessageKind::Emote,
            Message::Notice(_) => MessageKind::Notice,
            Message::Image { .. } => MessageKind::Image,
            Message::File { .. } => MessageKind::File,
            Message::Location { .. } => MessageKind::Location,
            Message::Video { .. } => MessageKind::Video,
            Message::Audio { .. } => MessageKind::Audio,
        }
    }

    /// The fields of the content with which this message is sent.
    pub fn fields(&self) -> (fields: Vec<(String, String)>)
        ensures
            fields_view(fields@) == fields_of(self@),
    {
        let mut fields: Vec<(String, String)> = Vec::new();
        fields.push(("msgtype".to_owned(), self.kind().msgtype().to_owned()));
        match self {
            Message::Text(body) | Message::Emote(body) | Message::Notice(body) => {
                fields.push(("body".to_owned(), body.clone()));
            },
            Message::Image { body, url } | Message::File { body, url } | Message::Video {
                body,
                url,
            } | Message::Audio { body, url } => {
                fields.push(("body".to_owned(), body.clone()));
                fields.push(("url".to_owned(), url.clone()));
            },
            Message::Location { body, geo_uri } => {
                fields.push(("body".to_owned(), body.clone()));
                fields.push(("geo_uri".to_owned(), geo_uri.clone()));
            },
        }
        assert(fields_view(fields@) =~= fields_of(self@));
        fields
    }
}

/// The messages among the events of a poll, oldest first. Events that are no
/// message are left out.
pub fn messages(events: &Vec<sync::RoomEvent>) -> (received: Vec<RoomEvent>)
    ensures
        received_view(received@) == messages_of(events_view(events@)),
{
    let ghost all = events_view(events@);
    let mut received: Vec<RoomEvent> = Vec::new();
    let mut i: usize = 0;
    assert(received_view(received@) =~= messages_of(all.take(0)));
    while i < events.len()
        invariant
            i <= events.len(),
            all == events_view(events@),
            received_view(received@) == messages_of(all.take(i as int)),
        decreases events.len() - i,
    {
        let ghost before = received@;
        assert(all.take(i as int + 1).drop_last() =~= all.take(i as int));
        assert(all.take(i as int + 1).last() == events@[i as int]@);
        match &events[i] {
            sync::RoomEvent::Message { content, .. } => {
                let event = RoomEvent::Message(Message::from_content(content));
                received.push(event);
                assert(received_view(received@) =~= received_view(before).push(event@));
            },
            _ => {},
        }
        i += 1;
    }
    assert(all.take(i as int) =~= all);
    received
}

} // verus!
