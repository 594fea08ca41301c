//! The scan for invitations: which rooms the account is invited to right now.
//!
//! The scan keeps no token. Every poll asks for the whole state again, so the
//! same invitation is listed until it is answered.

use vstd::prelude::*;
use crate::cursor::{body_of, SyncRequest, SyncRequestView, TransportError};
use crate::decode::sync_of_body;
use crate::json::distinct_keys;
use crate::sync::{
    ids_view, invite_view, MemberContent, RoomId, StrippedEvent, StrippedEventView, SyncMsgJson,
    SyncRoomsInvite,
};

verus! {

/// Polls for invitations.
#[derive(Clone, Copy, Debug)]
pub struct InviteScanner {}

/// Whether an event says that somebody was invited.
pub open spec fn invites(event: StrippedEventView) -> bool {
    event matches StrippedEventView::Member { content, .. } && content == MemberContent::Invite
}

/// Whether the state of an invited room shows an invitation: at least one of
/// its events is a membership event that invites.
pub open spec fn shows_invitation(events: Seq<StrippedEventView>) -> bool {
    exists|i: int| 0 <= i < events.len() && invites(#[trigger] events[i])
}

/// The ids of the rooms whose state shows an invitation, in the list's order.
pub open spec fn invited(rooms: Seq<(Seq<char>, Seq<StrippedEventView>)>) -> Seq<Seq<char>>
    decreases rooms.len(),
{
    if rooms.len() == 0 {
        Seq::empty()
    } else {
        let before = invited(rooms.drop_last());
        if shows_invitation(rooms.last().1) {
            before.push(rooms.last().0)
        } else {
            before
        }
    }
}

/// The invitations that a poll lists, given the body that the transport brought:
/// none where it brought none, or where the body does not decode.
pub open spec fn invites_in(body: Option<Seq<u8>>) -> Seq<Seq<char>> {
    match body {
        None => Seq::empty(),
        Some(body) => match sync_of_body(body) {
            Err(_) => Seq::empty(),
            Ok(sync) => invited(sync.rooms.invite),
        },
    }
}

/// Whether the room `id` stands among `rooms` with a state that shows an
/// invitation.
pub open spec fn is_invited(rooms: Seq<(Seq<char>, Seq<StrippedEventView>)>, id: Seq<char>) -> bool {
    exists|i: int|
        0 <= i < rooms.len() && (#[trigger] rooms[i]).0 == id && shows_invitation(rooms[i].1)
}

/// Every listed room is one of the rooms with an invitation, and where no room
/// stands twice among these, none is listed twice: the list is a set.
pub proof fn lemma_invited_is_a_set(rooms: Seq<(Seq<char>, Seq<StrippedEventView>)>)
    ensures
        forall|k: int|
            0 <= k < invited(rooms).len() ==> is_invited(rooms, #[trigger] invited(rooms)[k]),
        distinct_keys(rooms) ==> invited(rooms).no_duplicates(),
    decreases rooms.len(),
{
    if rooms.len() > 0 {
        let front = rooms.drop_last();
        let before = invited(front);
        lemma_invited_is_a_set(front);
        assert(rooms[rooms.len() - 1] == rooms.last());
        assert forall|k: int| 0 <= k < before.len() implies is_invited(
            rooms,
            #[trigger] before[k],
        ) by {
            assert(is_invited(front, before[k]));
            let i = choose|i: int|
                0 <= i < front.len() && (#[trigger] front[i]).0 == before[k] && shows_invitation(
                    front[i].1,
                );
            assert(rooms[i] == front[i]);
        }
        if distinct_keys(rooms) {
            assert forall|i: int, j: int| 0 <= i < j < front.len() implies (#[trigger] front[i]).0
                != (#[trigger] front[j]).0 by {
                assert(front[i] == rooms[i] && front[j] == rooms[j]);
            }
            assert forall|k: int| 0 <= k < before.len() implies #[trigger] before[k]
                != rooms.last().0 by {
                assert(is_invited(front, before[k]));
                let i = choose|i: int|
                    0 <= i < front.len() && (#[trigger] front[i]).0 == before[k]
                        && shows_invitation(front[i].1);
                assert(front[i] == rooms[i]);
            }
        }
    }
}

/// A room with an invitation is listed.
pub proof fn lemma_invitation_is_listed(rooms: Seq<(Seq<char>, Seq<StrippedEventView>)>, at: int)
    requires
        0 <= at < rooms.len(),
        shows_invitation(rooms[at].1),
    ensures
        invited(rooms).contains(rooms[at].0),
    decreases rooms.len(),
{
    let front = rooms.drop_last();
    let before = invited(front);
    if at == rooms.len() - 1 {
        assert(invited(rooms)[before.len() as int] == rooms[at].0);
    } else {
        assert(front[at] == rooms[at]);
        lemma_invitation_is_listed(front, at);
        let k = choose|k: int| 0 <= k < before.len() && before[k] == rooms[at].0;
        assert(invited(rooms)[k] == rooms[at].0);
    }
}

impl SyncRoomsInvite {
    /// Whether the state of the room shows an invitation.
    pub fn shows_invitation(&self) -> (shown: bool)
        ensures
            shown == shows_invitation(self@),
    {
        let events = &self.invite_state.events;
        let mut i: usize = 0;
        while i < events.len()
            invariant
                i <= events.len(),
                events == &self.invite_state.events,
                forall|j: int| 0 <= j < i ==> !invites(#[trigger] self@[j]),
            decreases events.len() - i,
        {
            assert(self@[i as int] == events@[i as int]@);
            match &events[i] {
                StrippedEvent::Member(event) => {
                    match event.content {
                        MemberContent::Invite => {
                            return true;
                        },
                        _ => {},
                    }
                },
                _ => {},
            }
            i += 1;
        }
        false
    }
}

impl InviteScanner {
    /// The request to send for a poll: for the account as a whole, scoped to no
    /// room, from the beginning.
    pub fn request() -> (request: SyncRequest)
        ensures
            request@ == (SyncRequestView { room_scope: None, since: None, timeline_limit: None }),
    {
        SyncRequest { room_scope: None, since: None, timeline_limit: None }
    }

    /// The rooms of a decoded reply that the account is invited to: each room
    /// whose state shows an invitation, once if the reply lists it once.
    pub fn invited_rooms(sync: &SyncMsgJson) -> (rooms: Vec<RoomId>)
        ensures
            ids_view(rooms@) == invited(sync@.rooms.invite),
            sync@.rooms.listed_once() ==> ids_view(rooms@).no_duplicates(),
    {
        let list = &sync.rooms.invite;
        let ghost all = invite_view(list@);
        let mut rooms: Vec<RoomId> = Vec::new();
        let mut i: usize = 0;
        assert(ids_view(rooms@) =~= invited(all.take(0)));
        while i < list.len()
            invariant
                i <= list.len(),
                all == invite_view(list@),
                ids_view(rooms@) == invited(all.take(i as int)),
            decreases list.len() - i,
        {
            let ghost before = rooms@;
            assert(all.take(i as int + 1).drop_last() =~= all.take(i as int));
            assert(all.take(i as int + 1).last() == (list@[i as int].0@, list@[i as int].1@));
            if list[i].1.shows_invitation() {
                let id = list[i].0.clone();
                rooms.push(id);
                assert(ids_view(rooms@) =~= ids_view(before).push(id@));
            }
            i += 1;
        }
        assert(all.take(i as int) =~= all);
        proof {
            lemma_invited_is_a_set(all);
        }
        rooms
    }

    /// Ends a poll: takes what the transport brought for [`Self::request`] and
    /// returns the set of rooms that the account is invited to, each once. A
    /// transport error or a body that does not decode yields no room.
    pub fn list_invites(reply: Result<Vec<u8>, TransportError>) -> (rooms: Vec<RoomId>)
        ensures
            ids_view(rooms@) == invites_in(body_of(reply)),
            ids_view(rooms@).no_duplicates(),
            reply is Err ==> rooms@.len() == 0,
    {
        let rooms = match reply {
            Ok(body) => match SyncMsgJson::from_body(body.as_slice()) {
                Ok(sync) => Self::invited_rooms(&sync),
                Err(_) => Vec::new(),
            },
            Err(_) => Vec::new(),
        };
        assert(ids_view(rooms@).len() == rooms@.len());
        assert(rooms@.len() == 0 ==> ids_view(rooms@) =~= Seq::empty());
        rooms
    }
}

} // verus!
