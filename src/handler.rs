//! The five operations on the registry: join, leave, send, list messages and
//! list rooms.
use vstd::prelude::*;

use crate::model::{messages_model, ChatError, Message};
use crate::payload::{GetMessagesQuery, JoinRoomPayload, LeaveRoomPayload, SendMessagePayload};
use crate::rules::{
    after_join, after_leave, after_send, count_down, count_up, join_outcome, member_access,
    visible_history,
};
use crate::state::AppState;
use crate::store::{rooms_get_or_create, rooms_put, rooms_take};

verus! {

/// Relies on `chrono::Utc::now` and `DateTime::timestamp`: the seconds since
/// the Unix epoch at the time of the call. Nothing is promised of the value.
#[verifier::external_body]
fn now_seconds() -> (r: u64) {
    chrono::Utc::now().timestamp() as u64
}

/// Adds the user to the room, making the room first if no room has that
/// name. A user who is already a member is refused with `Conflict`, and
/// nothing changes.
pub fn join_room(state: &mut AppState, payload: JoinRoomPayload) -> (r: Result<(), ChatError>)
    requires
        old(state).wf(),
    ensures
        final(state).wf(),
        r == join_outcome(old(state).rooms_model(), payload.username@, payload.room_name@),
        final(state).rooms_model() == after_join(
            old(state).rooms_model(),
            payload.username@,
            payload.room_name@,
        ),
        final(state).user_count == (if r is Ok {
            count_up(old(state).user_count)
        } else {
            old(state).user_count
        }),
{
    let ghost rooms0 = state.rooms_model();
    let ghost user = payload.username@;
    let ghost name = payload.room_name@;
    rooms_get_or_create(&mut state.rooms, payload.room_name.clone());
    let mut room = rooms_take(&mut state.rooms, &payload.room_name).unwrap();
    let r = room.try_add_member(payload.username);
    rooms_put(&mut state.rooms, payload.room_name, room);
    if r.is_err() {
        assert(state.rooms_model() =~= rooms0);
        return r;
    }
    state.increment_activity_counter();
    assert(state.rooms_model() =~= after_join(rooms0, user, name));
    assert forall|k: Seq<char>| #[trigger] state.rooms_model().contains_key(k) implies {
        &&& state.rooms_model()[k].members.finite()
        &&& state.rooms_model()[k].members != Set::<Seq<char>>::empty()
    } by {
        if k == name {
            assert(state.rooms_model()[k].members.contains(user));
        }
    }
    Ok(())
}

/// Removes the user from the room; a room left with no member is removed.
/// A missing room gives `NotFound`, a user who is not a member `Conflict`,
/// and then nothing changes.
pub fn leave_room(state: &mut AppState, payload: LeaveRoomPayload) -> (r: Result<(), ChatError>)
    requires
        old(state).wf(),
    ensures
        final(state).wf(),
        r == member_access(old(state).rooms_model(), payload.username@, payload.room_name@),
        final(state).rooms_model() == after_leave(
            old(state).rooms_model(),
            payload.username@,
            payload.room_name@,
        ),
        final(state).user_count == (if r is Ok {
            count_down(old(state).user_count)
        } else {
            old(state).user_count
        }),
{
    let ghost rooms0 = state.rooms_model();
    let ghost user = payload.username@;
    let ghost name = payload.room_name@;
    match rooms_take(&mut state.rooms, &payload.room_name) {
        None => {
            assert(state.rooms_model() =~= rooms0);
            Err(ChatError::NotFound)
        },
        Some(mut room) => {
            let r = room.try_remove_member(&payload.username);
            if r.is_err() {
                rooms_put(&mut state.rooms, payload.room_name, room);
                assert(state.rooms_model() =~= rooms0);
                return r;
            }
            state.decrement_activity_counter();
            if room.is_empty() {
                assert(state.rooms_model() =~= after_leave(rooms0, user, name));
            } else {
                rooms_put(&mut state.rooms, payload.room_name, room);
                assert(state.rooms_model() =~= after_leave(rooms0, user, name));
            }
            Ok(())
        },
    }
}

/// Appends a message with the given timestamp to the room's history. A
/// missing room gives `NotFound`, a user who is not a member `Conflict`, and
/// then nothing changes.
pub fn send_message_at(state: &mut AppState, payload: SendMessagePayload, timestamp: u64) -> (r:
    Result<(), ChatError>)
    requires
        old(state).wf(),
    ensures
        final(state).wf(),
        r == member_access(old(state).rooms_model(), payload.username@, payload.room_name@),
        final(state).rooms_model() == after_send(
            old(state).rooms_model(),
            payload.username@,
            payload.room_name@,
            payload.content@,
            timestamp,
        ),
        final(state).user_count == old(state).user_count,
{
    let ghost rooms0 = state.rooms_model();
    let ghost user = payload.username@;
    let ghost name = payload.room_name@;
    let ghost content = payload.content@;
    match rooms_take(&mut state.rooms, &payload.room_name) {
        None => {
            assert(state.rooms_model() =~= rooms0);
            Err(ChatError::NotFound)
        },
        Some(mut room) => {
            if !room.has_member(&payload.username) {
                rooms_put(&mut state.rooms, payload.room_name, room);
                assert(state.rooms_model() =~= rooms0);
                return Err(ChatError::Conflict);
            }
            room.append_message(payload.username, payload.content, timestamp);
            rooms_put(&mut state.rooms, payload.room_name, room);
            assert(state.rooms_model() =~= after_send(rooms0, user, name, content, timestamp));
            Ok(())
        },
    }
}

/// Appends a message stamped with the current time, in seconds since the
/// Unix epoch, to the room's history; refused as `send_message_at` is.
pub fn send_message(state: &mut AppState, payload: SendMessagePayload) -> (r: Result<(), ChatError>)
    requires
        old(state).wf(),
    ensures
        final(state).wf(),
        r == member_access(old(state).rooms_model(), payload.username@, payload.room_name@),
        exists|t: u64|
            final(state).rooms_model() == #[trigger] after_send(
                old(state).rooms_model(),
                payload.username@,
                payload.room_name@,
                payload.content@,
                t,
            ),
        final(state).user_count == old(state).user_count,
{
    let timestamp = now_seconds();
    send_message_at(state, payload, timestamp)
}

/// The room's whole history, oldest first. A missing room gives `NotFound`,
/// a user who is not a member `Conflict`. The registry does not change.
pub fn get_messages(state: &mut AppState, query: GetMessagesQuery) -> (r: Result<Vec<Message>, ChatError>)
    requires
        old(state).wf(),
    ensures
        final(state).rooms_model() == old(state).rooms_model(),
        final(state).user_count == old(state).user_count,
        final(state).wf(),
        match (r, visible_history(old(state).rooms_model(), query.username@, query.room_name@)) {
            (Ok(v), Ok(h)) => messages_model(v@) == h,
            (Err(e), Err(f)) => e == f,
            _ => false,
        },
{
    let ghost rooms0 = state.rooms_model();
    match rooms_take(&mut state.rooms, &query.room_name) {
        None => {
            assert(state.rooms_model() =~= rooms0);
            Err(ChatError::NotFound)
        },
        Some(room) => {
            if !room.has_member(&query.username) {
                rooms_put(&mut state.rooms, query.room_name, room);
                assert(state.rooms_model() =~= rooms0);
                return Err(ChatError::Conflict);
            }
            let messages = room.snapshot_messages();
            rooms_put(&mut state.rooms, query.room_name, room);
            assert(state.rooms_model() =~= rooms0);
            Ok(messages)
        },
    }
}

/// The names of all rooms, each once, in no particular order. The activity
/// counter goes one step up.
pub fn get_rooms(state: &mut AppState) -> (r: Vec<String>)
    requires
        old(state).wf(),
    ensures
        final(state).rooms_model() == old(state).rooms_model(),
        final(state).user_count == count_up(old(state).user_count),
        final(state).wf(),
        r@.map_values(|s: String| s@).to_set() == old(state).rooms_model().dom(),
        r@.map_values(|s: String| s@).no_duplicates(),
{
    state.increment_activity_counter();
    state.list_room_names()
}

} // verus!
