use dementia::decode::{decode_content, MessageKind};
use dementia::json::{Json, Member};
use dementia::message::{messages, Message, RoomEvent};
use dementia::sync;
use dementia::sync::MessageContent;

fn field(key: &str, value: &str) -> (String, String) {
    (key.to_string(), value.to_string())
}

fn every_message() -> Vec<Message> {
    vec![
        Message::Text("t".into()),
        Message::Emote("e".into()),
        Message::Notice("n".into()),
        Message::Image { body: "i".into(), url: "mxc://i".into() },
        Message::File { body: "f".into(), url: "mxc://f".into() },
        Message::Location { body: "l".into(), geo_uri: "geo:37.786971,-122.399677".into() },
        Message::Video { body: "v".into(), url: "mxc://v".into() },
        Message::Audio { body: "a".into(), url: "mxc://a".into() },
    ]
}

#[test]
fn fields_of_a_notice() {
    assert_eq!(
        Message::Notice("Hallo".to_string()).fields(),
        vec![field("msgtype", "m.notice"), field("body", "Hallo")]
    );
}

#[test]
fn fields_of_an_image() {
    let logo = "https://www.rust-lang.org/logos/rust-logo-128x128.png";
    let message = Message::Image { body: "Rust Logo".to_string(), url: logo.to_string() };
    assert_eq!(
        message.fields(),
        vec![field("msgtype", "m.image"), field("body", "Rust Logo"), field("url", logo)]
    );
}

#[test]
fn fields_of_a_location() {
    let message = Message::Location { body: "here".to_string(), geo_uri: "geo:1,2".to_string() };
    assert_eq!(
        message.fields(),
        vec![field("msgtype", "m.location"), field("body", "here"), field("geo_uri", "geo:1,2")]
    );
}

#[test]
fn every_kind_has_its_own_msgtype() {
    let tags: Vec<&str> = every_message().iter().map(|m| m.kind().msgtype()).collect();
    assert_eq!(
        tags,
        vec!["m.text", "m.emote", "m.notice", "m.image", "m.file", "m.location", "m.video", "m.audio"]
    );
    for message in every_message() {
        assert_eq!(MessageKind::of_msgtype(message.kind().msgtype()), Some(message.kind()));
    }
}

#[test]
fn sent_message_decodes_to_itself() {
    for message in every_message() {
        let members = message
            .fields()
            .into_iter()
            .map(|(key, value)| Member { key, value: Json::Text(value) })
            .collect();
        let content = decode_content(&Json::Object(members)).unwrap().unwrap();
        assert_eq!(Message::from_content(&content), message);
    }
}

#[test]
fn video_content_is_a_video_message() {
    let content = MessageContent::Video { body: "clip".into(), url: "mxc://v".into() };
    assert_eq!(
        Message::from_content(&content),
        Message::Video { body: "clip".into(), url: "mxc://v".into() }
    );
}

#[test]
fn messages_leaves_out_what_is_no_message() {
    let events = vec![
        sync::RoomEvent::Message {
            sender: "@a:b".to_string(),
            content: MessageContent::Text { body: "one".to_string() },
        },
        sync::RoomEvent::Member,
        sync::RoomEvent::Message {
            sender: "@c:d".to_string(),
            content: MessageContent::Emote { body: "two".to_string() },
        },
        sync::RoomEvent::Redaction,
    ];
    assert_eq!(
        messages(&events),
        vec![
            RoomEvent::Message(Message::Text("one".to_string())),
            RoomEvent::Message(Message::Emote("two".to_string())),
        ]
    );
    assert!(messages(&Vec::new()).is_empty());
}
