//! The data of the registry: users, messages and rooms, with the
//! mathematical values that the contracts speak of.
use vstd::prelude::*;

use crate::store::{
    member_keys, members_contains, members_insert, members_is_empty, members_new, members_remove,
};

verus! {

/// A message as the contracts see it: author, content and timestamp.
pub type MessageModel = (Seq<char>, Seq<char>, u64);

/// A room as the contracts see it: the usernames present and the messages
/// in the order in which they arrived.
pub struct RoomModel {
    pub members: Set<Seq<char>>,
    pub history: Seq<MessageModel>,
}

/// Why an operation was refused.
#[derive(Clone, Copy, Debug, PartialEq, Eq, Structural)]
pub enum ChatError {
    /// The user's presence in the room is not what the operation needs.
    Conflict,
    /// No room has that name.
    NotFound,
}

/// The rooms of a registry, keyed by room name.
pub type RoomsModel = Map<Seq<char>, RoomModel>;

/// A user, known only by name.
#[derive(Clone, Debug)]
pub struct User {
    pub username: String,
}

/// A message posted to a room; never changed once made.
#[derive(Clone, Debug)]
pub struct Message {
    pub username: String,
    pub content: String,
    pub timestamp: u64,
}

impl View for Message {
    type V = MessageModel;

    open spec fn view(&self) -> MessageModel {
        (self.username@, self.content@, self.timestamp)
    }
}

impl Message {
    /// A copy of the message, field by field.
    pub fn duplicate(&self) -> (r: Message)
        ensures
            r@ == self@,
    {
        Message {
            username: self.username.clone(),
            content: self.content.clone(),
            timestamp: self.timestamp,
        }
    }
}

/// The models of a sequence of messages, in order.
pub open spec fn messages_model(ms: Seq<Message>) -> Seq<MessageModel> {
    ms.map_values(|m: Message| m@)
}

/// A room: the users present, keyed by username, and its message log.
#[derive(Debug)]
pub struct Room {
    pub users: dashmap::DashMap<String, User>,
    pub messages: Vec<Message>,
}

impl View for Room {
    type V = RoomModel;

    open spec fn view(&self) -> RoomModel {
        RoomModel { members: member_keys(self.users), history: messages_model(self.messages@) }
    }
}

/// A room with no member and no message.
pub open spec fn empty_room() -> RoomModel {
    RoomModel { members: Set::empty(), history: Seq::empty() }
}

impl Room {
    /// A room with no member and no message.
    pub fn new() -> (r: Room)
        ensures
            r@ == empty_room(),
    {
        let r = Room { users: members_new(), messages: Vec::new() };
        assert(r@.history =~= Seq::<MessageModel>::empty());
        r
    }

    /// Whether the user is present in the room.
    pub fn has_member(&self, username: &String) -> (r: bool)
        ensures
            r == self@.members.contains(username@),
    {
        members_contains(&self.users, username)
    }

    /// Whether the room has no member left.
    pub fn is_empty(&self) -> (r: bool)
        ensures
            r == (self@.members == Set::<Seq<char>>::empty()),
    {
        members_is_empty(&self.users)
    }

    /// Adds the user to the room; a user already present is refused with
    /// `Conflict`, and the room does not change.
    pub fn try_add_member(&mut self, username: String) -> (r: Result<(), ChatError>)
        ensures
            old(self)@.members.contains(username@) ==> {
                &&& r == Err::<(), ChatError>(ChatError::Conflict)
                &&& final(self)@ == old(self)@
            },
            !old(self)@.members.contains(username@) ==> {
                &&& r is Ok
                &&& final(self)@ == (RoomModel {
                    members: old(self)@.members.insert(username@),
                    history: old(self)@.history,
                })
            },
    {
        if members_contains(&self.users, &username) {
            return Err(ChatError::Conflict);
        }
        let key = username.clone();
        members_insert(&mut self.users, key, User { username });
        Ok(())
    }

    /// Removes the user from the room; a user who is not present is refused
    /// with `Conflict`, and the room does not change.
    pub fn try_remove_member(&mut self, username: &String) -> (r: Result<(), ChatError>)
        ensures
            !old(self)@.members.contains(username@) ==> {
                &&& r == Err::<(), ChatError>(ChatError::Conflict)
                &&& final(self)@ == old(self)@
            },
            old(self)@.members.contains(username@) ==> {
                &&& r is Ok
                &&& final(self)@ == (RoomModel {
                    members: old(self)@.members.remove(username@),
                    history: old(self)@.history,
                })
            },
    {
        if !members_contains(&self.users, username) {
            return Err(ChatError::Conflict);
        }
        members_remove(&mut self.users, username);
        Ok(())
    }

    /// Appends a message to the end of the history and hands back a copy of
    /// it. Membership is left to the caller to have checked.
    pub fn append_message(&mut self, author: String, content: String, timestamp: u64) -> (r: Message)
        ensures
            r@ == (author@, content@, timestamp),
            final(self)@ == (RoomModel {
                members: old(self)@.members,
                history: old(self)@.history.push(r@),
            }),
    {
        let message = Message { username: author, content, timestamp };
        let copy = message.duplicate();
        self.messages.push(message);
        assert(self@.history =~= old(self)@.history.push(copy@));
        copy
    }

    /// A copy of the whole history, oldest first.
    pub fn snapshot_messages(&self) -> (r: Vec<Message>)
        ensures
            messages_model(r@) == self@.history,
    {
        let mut copy: Vec<Message> = Vec::new();
        let mut i: usize = 0;
        while i < self.messages.len()
            invariant
                i <= self.messages@.len(),
                copy@.len() == i,
                forall|j: int| 0 <= j < i ==> (#[trigger] copy@[j])@ == self.messages@[j]@,
            decreases self.messages@.len() - i,
        {
            copy.push(self.messages[i].duplicate());
            i = i + 1;
        }
        assert(messages_model(copy@) =~= messages_model(self.messages@));
        copy
    }
}

} // verus!
