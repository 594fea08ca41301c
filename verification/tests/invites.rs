use dementia::cursor::{SyncRequest, TransportError};
use dementia::invites::InviteScanner;
use dementia::sync::SyncMsgJson;

fn invite(room: &str, memberships: &[&str]) -> String {
    let events: Vec<String> = memberships
        .iter()
        .map(|m| {
            format!(
                "{{\"type\": \"m.room.member\", \"sender\": \"@alice:example.org\", \"content\": {{\"membership\": \"{}\"}}}}",
                m
            )
        })
        .collect();
    format!("\"{}\": {{\"invite_state\": {{\"events\": [{}]}}}}", room, events.join(", "))
}

fn reply(invites: &[String]) -> Result<Vec<u8>, TransportError> {
    Ok(format!("{{\"next_batch\": \"s1\", \"rooms\": {{\"invite\": {{{}}}}}}}", invites.join(", "))
        .into_bytes())
}

#[test]
fn request_is_scoped_to_no_room() {
    assert_eq!(
        InviteScanner::request(),
        SyncRequest { room_scope: None, since: None, timeline_limit: None }
    );
}

#[test]
fn invite_extraction() {
    let rooms = InviteScanner::list_invites(reply(&[invite("!abc:example.org", &["invite"])]));
    assert_eq!(rooms, vec!["!abc:example.org".to_string()]);
}

#[test]
fn room_with_several_invitations_is_listed_once() {
    let rooms =
        InviteScanner::list_invites(reply(&[invite("!abc:example.org", &["join", "invite", "invite"])]));
    assert_eq!(rooms, vec!["!abc:example.org".to_string()]);
}

#[test]
fn room_without_an_invitation_is_not_listed() {
    let rooms = InviteScanner::list_invites(reply(&[
        invite("!a:example.org", &["join"]),
        invite("!b:example.org", &["invite"]),
        invite("!c:example.org", &[]),
        invite("!d:example.org", &["leave", "invite"]),
    ]));
    assert_eq!(rooms, vec!["!b:example.org".to_string(), "!d:example.org".to_string()]);
}

#[test]
fn name_event_alone_is_no_invitation() {
    let body = br#"{"rooms": {"invite": {"!n:example.org": {"invite_state": {"events": [
        {"type": "m.room.name", "sender": "@a:example.org", "content": {"name": "invite"}}
    ]}}}}}"#;
    assert!(InviteScanner::list_invites(Ok(body.to_vec())).is_empty());
}

#[test]
fn listing_twice_gives_the_same_rooms() {
    let body = reply(&[invite("!abc:example.org", &["invite"]), invite("!x:example.org", &["invite"])]);
    let first = InviteScanner::list_invites(body.clone());
    let second = InviteScanner::list_invites(body);
    assert_eq!(first, second);
    assert_eq!(first.len(), 2);
}

#[test]
fn failed_scan_lists_nothing() {
    let failed = Err(TransportError { reason: "timed out".to_string() });
    assert!(InviteScanner::list_invites(failed).is_empty());
    assert!(InviteScanner::list_invites(Ok(b"oops".to_vec())).is_empty());
    assert!(InviteScanner::list_invites(Ok(br#"{"next_batch": "s1"}"#.to_vec())).is_empty());
    assert!(InviteScanner::list_invites(Ok(br#"{"rooms": {"invite": {}}}"#.to_vec())).is_empty());
}

#[test]
fn invited_rooms_reads_a_decoded_reply() {
    let body = reply(&[invite("!abc:example.org", &["invite"])]).unwrap();
    let sync = SyncMsgJson::from_body(&body).unwrap();
    assert!(sync.rooms.invite[0].1.shows_invitation());
    assert_eq!(InviteScanner::invited_rooms(&sync), vec!["!abc:example.org".to_string()]);
}
