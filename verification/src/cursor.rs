//! Polling: the cursor of a joined room, and the scan for invitations.
//!
//! Neither talks to a server. Each says which request to send, and takes what the
//! transport brought back: the body of the reply, or the transport's error. A
//! poll that fails, in the transport or in decoding, changes nothing and yields
//! nothing, so the next poll asks from the same place.

use vstd::prelude::*;
use crate::decode::{sync_of, sync_of_body};
use crate::json::{distinct_keys, document_of, JsonModel};
use crate::sync::{
    events_view, join_view, token_view, RoomEvent, RoomEventView, RoomId, SyncMsgJson,
    SyncRoomsJoin, SyncView, TimelineView,
};

verus! {

/// A failure of the transport. Its text is for people; nothing here reads it.
#[derive(Clone, Debug, PartialEq, Eq)]
pub struct TransportError {
    pub reason: String,
}

/// A sync request, still to be sent.
#[derive(Clone, Debug, PartialEq, Eq)]
pub struct SyncRequest {
    /// The one room to report on; without it, no room's timeline is asked for.
    pub room_scope: Option<RoomId>,
    /// The token to report from; without it, the server starts afresh.
    pub since: Option<String>,
    /// The most events to send for a timeline, where there is a limit.
    pub timeline_limit: Option<u64>,
}

/// The value of a [`SyncRequest`].
pub struct SyncRequestView {
    pub room_scope: Option<Seq<char>>,
    pub since: Option<Seq<char>>,
    pub timeline_limit: Option<u64>,
}

impl View for SyncRequest {
    type V = SyncRequestView;

    open spec fn view(&self) -> SyncRequestView {
        SyncRequestView {
            room_scope: token_view(self.room_scope),
            since: token_view(self.since),
            timeline_limit: self.timeline_limit,
        }
    }
}

/// The place of one joined room in the server's stream of events.
#[derive(Clone, Debug, PartialEq, Eq)]
pub struct RoomCursor {
    room_id: RoomId,
    since: Option<String>,
}

/// The value of a [`RoomCursor`]: without a token it has not polled yet, with
/// one it tracks the room from there.
pub struct CursorView {
    pub room_id: Seq<char>,
    pub since: Option<Seq<char>>,
}

impl View for RoomCursor {
    type V = CursorView;

    closed spec fn view(&self) -> CursorView {
        CursorView { room_id: self.room_id@, since: token_view(self.since) }
    }
}

/// The body that the transport brought, if it brought one.
pub open spec fn body_of(reply: Result<Vec<u8>, TransportError>) -> Option<Seq<u8>> {
    match reply {
        Ok(body) => Some(body@),
        Err(_) => None,
    }
}

/// The request that a cursor sends next: for its room alone; the first time
/// without a token and with a timeline of no events, later from its token.
pub open spec fn request_for(cursor: CursorView) -> SyncRequestView {
    SyncRequestView {
        room_scope: Some(cursor.room_id),
        since: cursor.since,
        timeline_limit: if cursor.since is None {
            Some(0u64)
        } else {
            None
        },
    }
}

/// The events of the room `room_id` among the joined rooms of a reply: those of
/// the first entry under that id, none where there is no such entry.
pub open spec fn timeline_for(join: Seq<(Seq<char>, TimelineView)>, room_id: Seq<char>) -> Seq<
    RoomEventView,
>
    decreases join.len(),
{
    if join.len() == 0 {
        Seq::empty()
    } else if join[0].0 == room_id {
        join[0].1.events
    } else {
        timeline_for(join.drop_first(), room_id)
    }
}

/// A cursor after a decoded reply, and the events that the poll yields. A reply
/// without a token changes nothing and yields nothing. Any other moves the cursor
/// to the reply's token; the first such reply yields nothing, a later one the
/// room's events.
pub open spec fn advanced(cursor: CursorView, sync: SyncView) -> (CursorView, Seq<RoomEventView>) {
    match sync.next_batch {
        None => (cursor, Seq::empty()),
        Some(token) => (
            CursorView { room_id: cursor.room_id, since: Some(token) },
            if cursor.since is None {
                Seq::empty()
            } else {
                timeline_for(sync.rooms.join, cursor.room_id)
            },
        ),
    }
}

/// A cursor after a poll, and the events that the poll yields, given the body
/// that the transport brought.
pub open spec fn fetched(cursor: CursorView, body: Option<Seq<u8>>) -> (
    CursorView,
    Seq<RoomEventView>,
) {
    match body {
        None => (cursor, Seq::empty()),
        Some(body) => match sync_of_body(body) {
            Err(_) => (cursor, Seq::empty()),
            Ok(sync) => advanced(cursor, sync),
        },
    }
}

/// A cursor that has not polled yet yields no event from its first poll, whatever
/// the transport brought; and it tracks the room afterwards exactly when the
/// transport brought a body that decodes to a reply with a token.
pub proof fn lemma_first_poll(cursor: CursorView, body: Option<Seq<u8>>)
    requires
        cursor.since is None,
    ensures
        fetched(cursor, body).1 == Seq::<RoomEventView>::empty(),
        fetched(cursor, body).0.since is Some <==> (body matches Some(b) && sync_of_body(b) matches Ok(
            sync,
        ) && sync.next_batch is Some),
{
}

/// After a poll that succeeds, the cursor holds the token of that reply, and the
/// token is the text of the reply's `next_batch`, character for character. The
/// next request asks from that token, without a limit on the timeline.
pub proof fn lemma_cursor_takes_token(cursor: CursorView, body: Seq<u8>, reply: JsonModel)
    requires
        document_of(body) == Some(reply),
        sync_of(reply) is Ok,
        reply.field("next_batch"@) is Some,
    ensures
        fetched(cursor, Some(body)).0.since == reply.text_field("next_batch"@),
        fetched(cursor, Some(body)).0.since is Some,
        fetched(cursor, Some(body)).0.room_id == cursor.room_id,
        request_for(fetched(cursor, Some(body)).0).since == reply.text_field("next_batch"@),
        request_for(fetched(cursor, Some(body)).0).timeline_limit is None,
{
}

/// A poll whose transport fails leaves the cursor as it was and yields no event;
/// so does one whose body does not decode. The next request is the one that
/// failed, so what the room holds is delayed and not lost.
pub proof fn lemma_failed_poll(cursor: CursorView, body: Option<Seq<u8>>)
    requires
        body matches Some(b) ==> sync_of_body(b) is Err,
    ensures
        fetched(cursor, body) == (cursor, Seq::<RoomEventView>::empty()),
        request_for(fetched(cursor, body).0) == request_for(cursor),
{
}

/// No poll changes the room that a cursor follows, and none takes its token away.
pub proof fn lemma_cursor_keeps_room(cursor: CursorView, body: Option<Seq<u8>>)
    ensures
        fetched(cursor, body).0.room_id == cursor.room_id,
        cursor.since is Some ==> fetched(cursor, body).0.since is Some,
{
}

/// Among joined rooms of which none is listed twice, the events of a listed room
/// are those of its entry.
pub proof fn lemma_timeline_of_listed_room(join: Seq<(Seq<char>, TimelineView)>, at: int)
    requires
        distinct_keys(join),
        0 <= at < join.len(),
    ensures
        timeline_for(join, join[at].0) == join[at].1.events,
    decreases join.len(),
{
    if at > 0 {
        let rest = join.drop_first();
        assert forall|i: int, j: int| 0 <= i < j < rest.len() implies (#[trigger] rest[i]).0
            != (#[trigger] rest[j]).0 by {
            assert(rest[i] == join[i + 1] && rest[j] == join[j + 1]);
        }
        assert(rest[at - 1] == join[at]);
        assert(join[0].0 != join[at].0);
        lemma_timeline_of_listed_room(rest, at - 1);
    }
}

/// A room that is not among the joined rooms of a reply has no events there.
pub proof fn lemma_timeline_of_absent_room(join: Seq<(Seq<char>, TimelineView)>, room_id: Seq<char>)
    requires
        forall|i: int| 0 <= i < join.len() ==> (#[trigger] join[i]).0 != room_id,
    ensures
        timeline_for(join, room_id) == Seq::<RoomEventView>::empty(),
    decreases join.len(),
{
    if join.len() > 0 {
        let rest = join.drop_first();
        assert forall|i: int| 0 <= i < rest.len() implies (#[trigger] rest[i]).0 != room_id by {
            assert(rest[i] == join[i + 1]);
        }
        lemma_timeline_of_absent_room(rest, room_id);
    }
}

/// Takes the events of the room `room_id` out of the joined rooms of a reply.
fn take_timeline(join: Vec<(RoomId, SyncRoomsJoin)>, room_id: &String) -> (events: Vec<RoomEvent>)
    ensures
        events_view(events@) == timeline_for(join_view(join@), room_id@),
{
    let ghost all = join_view(join@);
    let mut rooms = join;
    let mut i: usize = 0;
    assert(all.skip(0) =~= all);
    while i < rooms.len()
        invariant
            i <= rooms.len(),
            all == join_view(rooms@),
            all == join_view(join@),
            timeline_for(all, room_id@) == timeline_for(all.skip(i as int), room_id@),
        decreases rooms.len() - i,
    {
        assert(all.skip(i as int).drop_first() =~= all.skip(i as int + 1));
        assert(all.skip(i as int)[0] == (rooms@[i as int].0@, rooms@[i as int].1@));
        if rooms[i].0 == *room_id {
            let entry = rooms.remove(i);
            return entry.1.timeline.events;
        }
        i += 1;
    }
    assert(events_view(Seq::<RoomEvent>::empty()) =~= Seq::empty());
    Vec::new()
}

impl RoomCursor {
    /// A cursor for a room that was just joined: it has not polled yet.
    pub fn new(room_id: RoomId) -> (cursor: RoomCursor)
        ensures
            cursor@ == (CursorView { room_id: room_id@, since: None }),
    {
        RoomCursor { room_id, since: None }
    }

    /// The room that this cursor follows.
    pub fn room_id(&self) -> (id: &str)
        ensures
            id@ == self@.room_id,
    {
        self.room_id.as_str()
    }

    /// The token from which the next poll asks, once a poll has succeeded.
    pub fn since(&self) -> (token: Option<&str>)
        ensures
            token matches Some(t) ==> self@.since == Some(t@),
            token is None ==> self@.since is None,
    {
        match &self.since {
            Some(token) => Some(token.as_str()),
            None => None,
        }
    }

    /// Whether a poll has succeeded yet.
    pub fn is_tracking(&self) -> (tracking: bool)
        ensures
            tracking == self@.since is Some,
    {
        self.since.is_some()
    }

    /// The request to send for the next poll.
    pub fn next_request(&self) -> (request: SyncRequest)
        ensures
            request@ == request_for(self@),
    {
        match &self.since {
            None => SyncRequest {
                room_scope: Some(self.room_id.clone()),
                since: None,
                timeline_limit: Some(0),
            },
            Some(token) => SyncRequest {
                room_scope: Some(self.room_id.clone()),
                since: Some(token.clone()),
                timeline_limit: None,
            },
        }
    }

    /// Moves the cursor over a decoded reply and returns the events of the poll.
    pub fn advance(&mut self, sync: SyncMsgJson) -> (events: Vec<RoomEvent>)
        ensures
            (final(self)@, events_view(events@)) == advanced(old(self)@, sync@),
    {
        let SyncMsgJson { next_batch, rooms } = sync;
        match next_batch {
            None => {
                assert(events_view(Seq::<RoomEvent>::empty()) =~= Seq::empty());
                Vec::new()
            },
            Some(token) => {
                let first = self.since.is_none();
                self.since = Some(token);
                if first {
                    assert(events_view(Seq::<RoomEvent>::empty()) =~= Seq::empty());
                    Vec::new()
                } else {
                    take_timeline(rooms.join, &self.room_id)
                }
            },
        }
    }

    /// Ends a poll: takes what the transport brought for [`Self::next_request`],
    /// moves the cursor if the reply is a good one, and returns the new events of
    /// the room, oldest first.
    ///
    /// The first good reply only sets the token and yields nothing. A transport
    /// error, a body that does not decode, or a reply without a token leaves the
    /// cursor as it was and yields nothing.
    pub fn fetch_next_batch(&mut self, reply: Result<Vec<u8>, TransportError>) -> (events: Vec<
        RoomEvent,
    >)
        ensures
            (final(self)@, events_view(events@)) == fetched(old(self)@, body_of(reply)),
            final(self)@.room_id == old(self)@.room_id,
            reply is Err ==> final(self)@ == old(self)@ && events@.len() == 0,
            old(self)@.since is None ==> events@.len() == 0,
    {
        let events = match reply {
            Ok(body) => match SyncMsgJson::from_body(body.as_slice()) {
                Ok(sync) => self.advance(sync),
                Err(_) => Vec::new(),
            },
            Err(_) => Vec::new(),
        };
        assert(events_view(events@).len() == events@.len());
        assert(events@.len() == 0 ==> events_view(events@) =~= Seq::empty());
        events
    }
}

} // verus!
