//! Properties of the operations over any sequence of requests, proved over
//! the model of the registry.
use vstd::prelude::*;

use crate::model::{ChatError, MessageModel, RoomsModel};
use crate::rules::{
    after_join, after_leave, after_send, join_outcome, member_access, room_or_empty, rooms_wf,
    visible_history,
};

verus! {

/// The rooms after a run of joins to one room, in the order given.
pub open spec fn after_joins(rooms: RoomsModel, users: Seq<Seq<char>>, room: Seq<char>) -> RoomsModel
    decreases users.len(),
{
    if users.len() == 0 {
        rooms
    } else {
        after_join(after_joins(rooms, users.drop_last(), room), users.last(), room)
    }
}

/// The rooms after a run of sends to one room, in the order given; each
/// message gives its author, content and timestamp.
pub open spec fn after_sends(rooms: RoomsModel, room: Seq<char>, messages: Seq<MessageModel>) -> RoomsModel
    decreases messages.len(),
{
    if messages.len() == 0 {
        rooms
    } else {
        let m = messages.last();
        after_send(after_sends(rooms, room, messages.drop_last()), m.0, room, m.1, m.2)
    }
}

/// Joining twice: the second join of the same user to the same room is
/// refused with `Conflict` and changes nothing, whatever the first did; and
/// the first succeeds whenever the user was not yet a member. Membership is a
/// set, so a name is never held twice.
pub proof fn lemma_second_join_conflicts(rooms: RoomsModel, user: Seq<char>, room: Seq<char>)
    ensures
        join_outcome(after_join(rooms, user, room), user, room) == Err::<(), ChatError>(ChatError::Conflict),
        after_join(after_join(rooms, user, room), user, room) == after_join(rooms, user, room),
        !room_or_empty(rooms, room).members.contains(user) ==> join_outcome(rooms, user, room) is Ok,
        after_join(rooms, user, room)[room].members == room_or_empty(rooms, room).members.insert(user),
{
}

/// Any non-empty run of joins to a room name that no room has makes exactly
/// one room under that name, whose members are the joining users, and no
/// other room changes.
pub proof fn lemma_first_joins_make_one_room(rooms: RoomsModel, users: Seq<Seq<char>>, room: Seq<char>)
    requires
        !rooms.contains_key(room),
        users.len() > 0,
    ensures
        after_joins(rooms, users, room).dom() == rooms.dom().insert(room),
        after_joins(rooms, users, room)[room].members == users.to_set(),
        after_joins(rooms, users, room)[room].history == Seq::<MessageModel>::empty(),
        forall|other: Seq<char>| other != room && #[trigger] rooms.contains_key(other)
            ==> after_joins(rooms, users, room)[other] == rooms[other],
    decreases users.len(),
{
    let prefix = users.drop_last();
    if prefix.len() == 0 {
        assert(users.to_set() =~= Set::<Seq<char>>::empty().insert(users.last())) by {
            assert(users =~= prefix.push(users.last()));
            prefix.lemma_push_to_set_commute(users.last());
        }
        assert(after_joins(rooms, prefix, room) == rooms);
        assert(after_joins(rooms, users, room).dom() =~= rooms.dom().insert(room));
    } else {
        lemma_first_joins_make_one_room(rooms, prefix, room);
        let mid = after_joins(rooms, prefix, room);
        assert(users =~= prefix.push(users.last()));
        assert(users.to_set() =~= prefix.to_set().insert(users.last())) by {
            prefix.lemma_push_to_set_commute(users.last());
        }
        assert(after_joins(rooms, users, room).dom() =~= mid.dom());
        assert(after_joins(rooms, users, room)[room].members =~= users.to_set());
    }
}

/// Any run of sends by members of an existing room appends exactly those
/// messages to its history, in order: none is lost and none is repeated.
pub proof fn lemma_sends_append_all(rooms: RoomsModel, room: Seq<char>, messages: Seq<MessageModel>)
    requires
        rooms.contains_key(room),
        forall|i: int| 0 <= i < messages.len() ==> rooms[room].members.contains(#[trigger] messages[i].0),
    ensures
        after_sends(rooms, room, messages).dom() == rooms.dom(),
        after_sends(rooms, room, messages)[room].members == rooms[room].members,
        after_sends(rooms, room, messages)[room].history == rooms[room].history + messages,
        after_sends(rooms, room, messages)[room].history.len() == rooms[room].history.len() + messages.len(),
    decreases messages.len(),
{
    if messages.len() > 0 {
        let prefix = messages.drop_last();
        assert forall|i: int| 0 <= i < prefix.len() implies rooms[room].members.contains(#[trigger] prefix[i].0) by {
            assert(prefix[i] == messages[i]);
        }
        lemma_sends_append_all(rooms, room, prefix);
        let mid = after_sends(rooms, room, prefix);
        let m = messages.last();
        assert(rooms[room].members.contains(messages[messages.len() - 1].0));
        assert(member_access(mid, m.0, room) is Ok);
        assert(after_sends(rooms, room, messages).dom() =~= rooms.dom());
        assert(messages =~= prefix.push(m));
        assert(rooms[room].history + messages =~= (rooms[room].history + prefix).push(m));
    } else {
        assert(rooms[room].history + messages =~= rooms[room].history);
    }
}

/// A successful leave takes exactly one member out of the room; a room left
/// with no member is gone from the registry. Either way the same user can
/// join the room again at once, and no other room changes.
pub proof fn lemma_leave_removes_one(rooms: RoomsModel, user: Seq<char>, room: Seq<char>)
    requires
        rooms_wf(rooms),
        member_access(rooms, user, room) is Ok,
    ensures
        after_leave(rooms, user, room).contains_key(room) ==> {
            &&& after_leave(rooms, user, room)[room].members == rooms[room].members.remove(user)
            &&& after_leave(rooms, user, room)[room].members.len() + 1 == rooms[room].members.len()
            &&& after_leave(rooms, user, room)[room].history == rooms[room].history
        },
        !after_leave(rooms, user, room).contains_key(room) ==> rooms[room].members.len() == 1,
        after_leave(rooms, user, room).dom().remove(room) == rooms.dom().remove(room),
        forall|other: Seq<char>| other != room && #[trigger] rooms.contains_key(other)
            ==> after_leave(rooms, user, room)[other] == rooms[other],
        join_outcome(after_leave(rooms, user, room), user, room) is Ok,
        rooms_wf(after_leave(rooms, user, room)),
{
    let members = rooms[room].members;
    assert(rooms.contains_key(room));
    vstd::set::axiom_set_remove_len(members, user);
    assert(after_leave(rooms, user, room).dom().remove(room) =~= rooms.dom().remove(room));
}

/// Leave, send and list-messages against a room name that no room has are
/// refused with `NotFound`; against a room the user is not a member of, with
/// `Conflict`. Neither refusal changes the registry.
pub proof fn lemma_refusals(
    rooms: RoomsModel,
    user: Seq<char>,
    room: Seq<char>,
    content: Seq<char>,
    timestamp: u64,
)
    ensures
        !rooms.contains_key(room) ==> {
            &&& member_access(rooms, user, room) == Err::<(), ChatError>(ChatError::NotFound)
            &&& visible_history(rooms, user, room) == Err::<Seq<MessageModel>, ChatError>(ChatError::NotFound)
        },
        rooms.contains_key(room) && !rooms[room].members.contains(user) ==> {
            &&& member_access(rooms, user, room) == Err::<(), ChatError>(ChatError::Conflict)
            &&& visible_history(rooms, user, room) == Err::<Seq<MessageModel>, ChatError>(ChatError::Conflict)
        },
        member_access(rooms, user, room) is Err ==> {
            &&& after_leave(rooms, user, room) == rooms
            &&& after_send(rooms, user, room, content, timestamp) == rooms
        },
{
}

} // verus!
