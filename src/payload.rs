//! The arguments of the operations.
use vstd::prelude::*;

verus! {

/// Who joins which room.
pub struct JoinRoomPayload {
    pub username: String,
    pub room_name: String,
}

/// Who leaves which room.
pub struct LeaveRoomPayload {
    pub username: String,
    pub room_name: String,
}

/// Who posts what to which room.
pub struct SendMessagePayload {
    pub username: String,
    pub room_name: String,
    pub content: String,
}

/// Who reads which room's messages.
pub struct GetMessagesQuery {
    pub username: String,
    pub room_name: String,
}

} // verus!
