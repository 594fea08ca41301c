use dementia::decode::{
    decode_content, decode_event, decode_events, decode_invite, decode_join, decode_rooms,
    decode_stripped, decode_sync, decode_sync_msg, DecodeError, Field, MessageKind, Variant,
};
use dementia::json::Json;
use dementia::sync::{
    MemberContent, MemberEvent, MessageContent, RoomEvent, RoomNameContent, RoomNameEvent,
    StrippedEvent, SyncMsg, SyncMsgJson,
};

const SYNC_EXAMPLE_VALUE: &str = r#"{
  "next_batch": "s72595_4483_1934",
  "presence": {
    "events": [
      {
        "content": {"presence": "online", "last_active_ago": 2478593, "currently_active": false},
        "type": "m.presence",
        "sender": "@example:localhost"
      }
    ]
  },
  "rooms": {
    "join": {
      "!726s6s6q:example.com": {
        "state": {
          "events": [
            {
              "content": {"membership": "join", "displayname": "Alice Margatroid"},
              "type": "m.room.member",
              "event_id": "$143273582443PhrSn:example.org",
              "sender": "@example:example.org",
              "origin_server_ts": 1432735824653,
              "state_key": "@alice:example.org"
            }
          ]
        },
        "timeline": {
          "events": [
            {
              "content": {"membership": "join", "displayname": "Alice Margatroid"},
              "type": "m.room.member",
              "event_id": "$143273582443PhrSn:example.org",
              "sender": "@example:example.org",
              "origin_server_ts": 1432735824653,
              "unsigned": {"age": 1234},
              "state_key": "@alice:example.org"
            },
            {
              "content": {
                "body": "This is an example text message",
                "msgtype": "m.text",
                "format": "org.matrix.custom.html",
                "formatted_body": "<b>This is an example text message</b>"
              },
              "type": "m.room.message",
              "event_id": "$143273582443PhrSn:example.org",
              "sender": "@example:example.org",
              "origin_server_ts": 1432735824653,
              "unsigned": {"age": 1234}
            }
          ],
          "limited": true,
          "prev_batch": "t34-23535_0_0"
        },
        "ephemeral": {"events": [{"content": {"user_ids": ["@alice:matrix.org"]}, "type": "m.typing"}]}
      }
    },
    "invite": {
      "!696r7674:example.com": {
        "invite_state": {
          "events": [
            {
              "sender": "@alice:example.com",
              "type": "m.room.name",
              "state_key": "",
              "content": {"name": "My Room Name"}
            },
            {
              "sender": "@alice:example.com",
              "type": "m.room.member",
              "state_key": "@bob:example.com",
              "content": {"membership": "invite"}
            }
          ]
        }
      }
    },
    "leave": {}
  }
}"#;

fn doc(text: &str) -> Json {
    Json::parse(text.as_bytes()).expect("the text is JSON")
}

fn missing(variant: Variant, field: Field) -> DecodeError {
    DecodeError::Missing { variant, field }
}

fn text(body: &str) -> MessageContent {
    MessageContent::Text { body: body.to_string() }
}

#[test]
fn tests_deserialize_example() {
    let wrapped = format!("{{\"application/json\": {}}}", SYNC_EXAMPLE_VALUE);
    let msg: SyncMsg = SyncMsg::from_body(wrapped.as_bytes()).unwrap();

    assert_eq!(msg.json.next_batch, Some("s72595_4483_1934".into()));
}

#[test]
fn matrix_types_deserialize_example() {
    let msg: SyncMsgJson = SyncMsgJson::from_body(SYNC_EXAMPLE_VALUE.as_bytes()).unwrap();

    assert_eq!(msg.next_batch.unwrap(), "s72595_4483_1934");
}

#[test]
fn example_reply_decodes_to_its_rooms() {
    let sync = SyncMsgJson::from_body(SYNC_EXAMPLE_VALUE.as_bytes()).unwrap();
    assert_eq!(sync.rooms.join.len(), 1);
    let (id, room) = &sync.rooms.join[0];
    assert_eq!(id, "!726s6s6q:example.com");
    assert_eq!(room.timeline.prev_batch.as_deref(), Some("t34-23535_0_0"));
    assert_eq!(
        room.timeline.events,
        vec![
            RoomEvent::Member,
            RoomEvent::Message {
                sender: "@example:example.org".to_string(),
                content: text("This is an example text message"),
            },
        ]
    );
    assert_eq!(sync.rooms.invite.len(), 1);
    let (id, invite) = &sync.rooms.invite[0];
    assert_eq!(id, "!696r7674:example.com");
    assert_eq!(
        invite.invite_state.events,
        vec![
            StrippedEvent::Name(RoomNameEvent {
                sender: "@alice:example.com".to_string(),
                content: RoomNameContent { name: "My Room Name".to_string() },
            }),
            StrippedEvent::Member(MemberEvent {
                sender: "@alice:example.com".to_string(),
                content: MemberContent::Invite,
            }),
        ]
    );
}

#[test]
fn documentation_form_needs_its_media_type() {
    assert_eq!(
        SyncMsg::from_body(SYNC_EXAMPLE_VALUE.as_bytes()),
        Err(missing(Variant::Reply, Field::Json))
    );
    assert_eq!(decode_sync_msg(&doc("[]")), Err(missing(Variant::Reply, Field::Json)));
    let inner = decode_sync_msg(&doc(r#"{"application/json": {"rooms": {}}}"#)).unwrap();
    assert_eq!(inner.json.next_batch, None);
}

#[test]
fn content_of_every_kind_decodes() {
    let cases: Vec<(&str, MessageContent)> = vec![
        (r#"{"msgtype": "m.text", "body": "b"}"#, text("b")),
        (r#"{"msgtype": "m.emote", "body": "b"}"#, MessageContent::Emote { body: "b".into() }),
        (r#"{"msgtype": "m.notice", "body": "b"}"#, MessageContent::Notice { body: "b".into() }),
        (
            r#"{"msgtype": "m.file", "body": "b", "url": "mxc://f"}"#,
            MessageContent::File { body: "b".into(), url: "mxc://f".into() },
        ),
        (
            r#"{"msgtype": "m.image", "body": "b", "url": "mxc://i"}"#,
            MessageContent::Image { body: "b".into(), url: "mxc://i".into() },
        ),
        (
            r#"{"msgtype": "m.video", "body": "b", "url": "mxc://v"}"#,
            MessageContent::Video { body: "b".into(), url: "mxc://v".into() },
        ),
        (
            r#"{"msgtype": "m.audio", "body": "b", "url": "mxc://a"}"#,
            MessageContent::Audio { body: "b".into(), url: "mxc://a".into() },
        ),
        (
            r#"{"msgtype": "m.location", "body": "b", "geo_uri": "geo:1,2"}"#,
            MessageContent::Location { body: "b".into(), geo_uri: "geo:1,2".into() },
        ),
    ];
    for (json, expected) in cases {
        assert_eq!(decode_content(&doc(json)), Ok(Some(expected)));
    }
}

#[test]
fn content_without_a_known_msgtype_is_passed_over() {
    assert_eq!(decode_content(&doc(r#"{"msgtype": "m.sticker", "body": "b"}"#)), Ok(None));
    assert_eq!(decode_content(&doc(r#"{"body": "b"}"#)), Ok(None));
    assert_eq!(decode_content(&doc(r#"{"msgtype": 7, "body": "b"}"#)), Ok(None));
    assert_eq!(decode_content(&doc(r#"{}"#)), Ok(None));
    assert_eq!(decode_content(&doc(r#""m.text""#)), Ok(None));
}

#[test]
fn content_of_a_known_kind_needs_its_fields() {
    assert_eq!(
        decode_content(&doc(r#"{"msgtype": "m.text"}"#)),
        Err(missing(Variant::Content(MessageKind::Text), Field::Body))
    );
    assert_eq!(
        decode_content(&doc(r#"{"msgtype": "m.image", "url": "mxc://i"}"#)),
        Err(missing(Variant::Content(MessageKind::Image), Field::Body))
    );
    assert_eq!(
        decode_content(&doc(r#"{"msgtype": "m.image", "body": "b"}"#)),
        Err(missing(Variant::Content(MessageKind::Image), Field::Url))
    );
    assert_eq!(
        decode_content(&doc(r#"{"msgtype": "m.audio", "body": "b", "url": null}"#)),
        Err(missing(Variant::Content(MessageKind::Audio), Field::Url))
    );
    assert_eq!(
        decode_content(&doc(r#"{"msgtype": "m.location", "body": "b", "url": "mxc://x"}"#)),
        Err(missing(Variant::Content(MessageKind::Location), Field::GeoUri))
    );
}

#[test]
fn events_are_told_apart_by_their_type() {
    assert_eq!(decode_event(&doc(r#"{"type": "m.room.member"}"#)), Ok(Some(RoomEvent::Member)));
    assert_eq!(
        decode_event(&doc(r#"{"type": "m.room.redaction", "redacts": "$e"}"#)),
        Ok(Some(RoomEvent::Redaction))
    );
    assert_eq!(decode_event(&doc(r#"{"type": "m.room.unknowntype"}"#)), Ok(None));
    assert_eq!(decode_event(&doc(r#"{"sender": "@a:b"}"#)), Ok(None));
    assert_eq!(
        decode_event(&doc(
            r#"{"type": "m.room.message", "sender": "@a:b", "content": {"msgtype": "m.text", "body": "hi"}}"#
        )),
        Ok(Some(RoomEvent::Message { sender: "@a:b".to_string(), content: text("hi") }))
    );
}

#[test]
fn message_events_need_content_and_sender() {
    assert_eq!(
        decode_event(&doc(r#"{"type": "m.room.message", "sender": "@a:b"}"#)),
        Err(missing(Variant::Message, Field::Content))
    );
    assert_eq!(
        decode_event(&doc(
            r#"{"type": "m.room.message", "content": {"msgtype": "m.text", "body": "hi"}}"#
        )),
        Err(missing(Variant::Message, Field::Sender))
    );
    assert_eq!(
        decode_event(&doc(
            r#"{"type": "m.room.message", "sender": "@a:b", "content": {"msgtype": "m.text"}}"#
        )),
        Err(missing(Variant::Content(MessageKind::Text), Field::Body))
    );
    assert_eq!(
        decode_event(&doc(r#"{"type": "m.room.message", "content": {"msgtype": "m.poll"}}"#)),
        Ok(None)
    );
}

#[test]
fn timeline_keeps_known_events_in_order() {
    let timeline = doc(
        r#"[
            {"type": "m.room.message", "sender": "@a:b", "content": {"msgtype": "m.text", "body": "one"}},
            {"type": "m.room.member", "sender": "@a:b", "content": {"membership": "join"}},
            {"type": "m.room.message", "sender": "@c:d", "content": {"msgtype": "m.emote", "body": "two"}}
        ]"#,
    );
    let events = decode_events(timeline.as_array().unwrap());
    assert_eq!(
        events,
        vec![
            RoomEvent::Message { sender: "@a:b".to_string(), content: text("one") },
            RoomEvent::Member,
            RoomEvent::Message {
                sender: "@c:d".to_string(),
                content: MessageContent::Emote { body: "two".to_string() },
            },
        ]
    );
}

#[test]
fn timeline_drops_unknown_types() {
    let timeline = doc(
        r#"[
            {"type": "m.room.message", "sender": "@a:b", "content": {"msgtype": "m.text", "body": "one"}},
            {"type": "m.room.unknowntype", "content": {"anything": [1, 2, 3]}},
            {"type": "m.room.redaction", "redacts": "$e"}
        ]"#,
    );
    let events = decode_events(timeline.as_array().unwrap());
    assert_eq!(
        events,
        vec![
            RoomEvent::Message { sender: "@a:b".to_string(), content: text("one") },
            RoomEvent::Redaction,
        ]
    );
}

#[test]
fn timeline_drops_events_that_fail_to_decode() {
    let timeline = doc(
        r#"[
            {"type": "m.room.message", "sender": "@a:b", "content": {"msgtype": "m.image", "body": "no url"}},
            7,
            {"type": "m.room.message", "sender": "@a:b", "content": {"msgtype": "m.text", "body": "kept"}}
        ]"#,
    );
    let events = decode_events(timeline.as_array().unwrap());
    assert_eq!(events, vec![RoomEvent::Message { sender: "@a:b".to_string(), content: text("kept") }]);
    assert_eq!(decode_events(&Vec::new()), Vec::new());
}

#[test]
fn joined_room_needs_a_timeline_with_events() {
    assert_eq!(decode_join(&doc(r#"{}"#)), Err(missing(Variant::Join, Field::Timeline)));
    assert_eq!(decode_join(&doc(r#"{"timeline": {}}"#)), Err(missing(Variant::Join, Field::Events)));
    assert_eq!(
        decode_join(&doc(r#"{"timeline": {"events": {}}}"#)),
        Err(missing(Variant::Join, Field::Events))
    );
    let room = decode_join(&doc(r#"{"timeline": {"events": []}}"#)).unwrap();
    assert_eq!(room.timeline.prev_batch, None);
    assert!(room.timeline.events.is_empty());
}

#[test]
fn stripped_events_decode_or_name_what_is_missing() {
    assert_eq!(
        decode_stripped(&doc(
            r#"{"type": "m.room.member", "sender": "@a:b", "content": {"membership": "knock"}}"#
        )),
        Ok(Some(StrippedEvent::Member(MemberEvent {
            sender: "@a:b".to_string(),
            content: MemberContent::Knock,
        })))
    );
    for (tag, standing) in [
        ("invite", MemberContent::Invite),
        ("join", MemberContent::Join),
        ("leave", MemberContent::Leave),
        ("ban", MemberContent::Ban),
        ("knock", MemberContent::Knock),
    ] {
        assert_eq!(MemberContent::of_membership(tag), Some(standing));
    }
    assert_eq!(MemberContent::of_membership("Invite"), None);
    assert_eq!(
        decode_stripped(&doc(
            r#"{"type": "m.room.member", "sender": "@a:b", "content": {"membership": "visit"}}"#
        )),
        Ok(None)
    );
    assert_eq!(decode_stripped(&doc(r#"{"type": "m.room.topic"}"#)), Ok(None));
    assert_eq!(
        decode_stripped(&doc(r#"{"type": "m.room.member", "sender": "@a:b"}"#)),
        Err(missing(Variant::Member, Field::Content))
    );
    assert_eq!(
        decode_stripped(&doc(r#"{"type": "m.room.member", "content": {"membership": "invite"}}"#)),
        Err(missing(Variant::Member, Field::Sender))
    );
    assert_eq!(
        decode_stripped(&doc(r#"{"type": "m.room.name", "sender": "@a:b"}"#)),
        Err(missing(Variant::RoomName, Field::Content))
    );
    assert_eq!(
        decode_stripped(&doc(r#"{"type": "m.room.name", "sender": "@a:b", "content": {}}"#)),
        Err(missing(Variant::RoomName, Field::Name))
    );
    assert_eq!(
        decode_stripped(&doc(r#"{"type": "m.room.name", "content": {"name": "n"}}"#)),
        Err(missing(Variant::RoomName, Field::Sender))
    );
}

#[test]
fn invited_room_needs_its_state() {
    assert_eq!(decode_invite(&doc(r#"{}"#)), Err(missing(Variant::Invite, Field::InviteState)));
    assert_eq!(
        decode_invite(&doc(r#"{"invite_state": {}}"#)),
        Err(missing(Variant::Invite, Field::Events))
    );
    assert_eq!(
        decode_invite(&doc(r#"{"invite_state": {"events": "none"}}"#)),
        Err(missing(Variant::Invite, Field::Events))
    );
}

#[test]
fn rooms_may_leave_out_a_list_but_not_misshape_it() {
    let rooms = decode_rooms(&doc(r#"{}"#)).unwrap();
    assert!(rooms.invite.is_empty());
    assert!(rooms.join.is_empty());
    assert_eq!(decode_rooms(&doc(r#"{"invite": []}"#)), Err(missing(Variant::Sync, Field::Invite)));
    assert_eq!(decode_rooms(&doc(r#"{"join": "x"}"#)), Err(missing(Variant::Sync, Field::Join)));
}

#[test]
fn rooms_that_fail_to_decode_are_left_out() {
    let rooms = decode_rooms(&doc(
        r#"{"join": {"!a:x": {"timeline": {"events": []}}, "!b:x": {}, "!c:x": {"timeline": {"events": []}}},
            "invite": {"!d:x": 1, "!e:x": {"invite_state": {"events": []}}}}"#,
    ))
    .unwrap();
    let joined: Vec<&str> = rooms.join.iter().map(|(id, _)| id.as_str()).collect();
    assert_eq!(joined, vec!["!a:x", "!c:x"]);
    let invited: Vec<&str> = rooms.invite.iter().map(|(id, _)| id.as_str()).collect();
    assert_eq!(invited, vec!["!e:x"]);
}

#[test]
fn reply_needs_rooms_and_a_textual_token() {
    assert_eq!(decode_sync(&doc(r#"{"next_batch": "s1"}"#)), Err(missing(Variant::Sync, Field::Rooms)));
    assert_eq!(
        decode_sync(&doc(r#"{"next_batch": "s1", "rooms": []}"#)),
        Err(missing(Variant::Sync, Field::Rooms))
    );
    assert_eq!(
        decode_sync(&doc(r#"{"next_batch": 5, "rooms": {}}"#)),
        Err(missing(Variant::Sync, Field::NextBatch))
    );
    assert_eq!(decode_sync(&doc(r#"[1, 2]"#)), Err(missing(Variant::Sync, Field::Rooms)));
    let sync = decode_sync(&doc(r#"{"rooms": {}}"#)).unwrap();
    assert_eq!(sync.next_batch, None);
    let sync = decode_sync(&doc(r#"{"next_batch": " s 1é", "rooms": {}}"#)).unwrap();
    assert_eq!(sync.next_batch.as_deref(), Some(" s 1\u{e9}"));
}

#[test]
fn body_that_is_no_json_is_a_syntax_error() {
    assert_eq!(SyncMsgJson::from_body(b"<html>502</html>"), Err(DecodeError::Syntax));
    assert_eq!(SyncMsgJson::from_body(b""), Err(DecodeError::Syntax));
    assert_eq!(SyncMsg::from_body(b"{"), Err(DecodeError::Syntax));
}

#[test]
fn msgtype_names_are_exact() {
    assert_eq!(MessageKind::of_msgtype("m.text"), Some(MessageKind::Text));
    assert_eq!(MessageKind::of_msgtype("m.location"), Some(MessageKind::Location));
    assert_eq!(MessageKind::of_msgtype("m.Text"), None);
    assert_eq!(MessageKind::of_msgtype("m.text "), None);
    assert_eq!(MessageKind::of_msgtype(""), None);
}
