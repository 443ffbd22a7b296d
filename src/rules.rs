//! The registry as a mathematical value, and what each operation does to it.
use vstd::prelude::*;

use crate::model::{empty_room, ChatError, MessageModel, RoomModel, RoomsModel};

verus! {

/// Every room of the registry has a finite, non-empty set of members.
pub open spec fn rooms_wf(rooms: RoomsModel) -> bool {
    forall|name: Seq<char>| #[trigger]
        rooms.contains_key(name) ==> {
            &&& rooms[name].members.finite()
            &&& rooms[name].members != Set::<Seq<char>>::empty()
        }
}

/// What stands in front of leave, send and list-messages: the room must exist,
/// and the user must be one of its members.
pub open spec fn member_access(rooms: RoomsModel, user: Seq<char>, room: Seq<char>) -> Result<(), ChatError> {
    if !rooms.contains_key(room) {
        Err(ChatError::NotFound)
    } else if !rooms[room].members.contains(user) {
        Err(ChatError::Conflict)
    } else {
        Ok(())
    }
}

/// The room of that name, or an empty one where there is none.
pub open spec fn room_or_empty(rooms: RoomsModel, room: Seq<char>) -> RoomModel {
    if rooms.contains_key(room) {
        rooms[room]
    } else {
        empty_room()
    }
}

/// What a join answers: a user who is already a member is refused.
pub open spec fn join_outcome(rooms: RoomsModel, user: Seq<char>, room: Seq<char>) -> Result<(), ChatError> {
    if room_or_empty(rooms, room).members.contains(user) {
        Err(ChatError::Conflict)
    } else {
        Ok(())
    }
}

/// The rooms after a join: the room is made if it is missing, and the user
/// is added to it.
pub open spec fn after_join(rooms: RoomsModel, user: Seq<char>, room: Seq<char>) -> RoomsModel {
    if join_outcome(rooms, user, room) is Ok {
        let base = room_or_empty(rooms, room);
        rooms.insert(room, RoomModel { members: base.members.insert(user), history: base.history })
    } else {
        rooms
    }
}

/// The rooms after a leave: the user is removed, and a room left with no
/// member is removed with all its messages.
pub open spec fn after_leave(rooms: RoomsModel, user: Seq<char>, room: Seq<char>) -> RoomsModel {
    if member_access(rooms, user, room) is Ok {
        let left = rooms[room].members.remove(user);
        if left == Set::<Seq<char>>::empty() {
            rooms.remove(room)
        } else {
            rooms.insert(room, RoomModel { members: left, history: rooms[room].history })
        }
    } else {
        rooms
    }
}

/// The rooms after a send: the message goes at the end of the room's history.
pub open spec fn after_send(
    rooms: RoomsModel,
    user: Seq<char>,
    room: Seq<char>,
    content: Seq<char>,
    timestamp: u64,
) -> RoomsModel {
    if member_access(rooms, user, room) is Ok {
        rooms.insert(
            room,
            RoomModel {
                members: rooms[room].members,
                history: rooms[room].history.push((user, content, timestamp)),
            },
        )
    } else {
        rooms
    }
}

/// What list-messages answers: the room's whole history to a member of it.
pub open spec fn visible_history(rooms: RoomsModel, user: Seq<char>, room: Seq<char>) -> Result<Seq<MessageModel>, ChatError> {
    match member_access(rooms, user, room) {
        Ok(()) => Ok(rooms[room].history),
        Err(e) => Err(e),
    }
}

/// The activity counter one step up, wrapping at the top of `usize`.
pub open spec fn count_up(c: usize) -> usize {
    if c == usize::MAX { 0 } else { (c + 1) as usize }
}

/// The activity counter one step down, wrapping at zero.
pub open spec fn count_down(c: usize) -> usize {
    if c == 0 { usize::MAX } else { (c - 1) as usize }
}

} // verus!
