use online_chat::handler::{
    get_messages, get_rooms, join_room, leave_room, send_message, send_message_at,
};
use online_chat::model::{ChatError, Message};
use online_chat::payload::{GetMessagesQuery, JoinRoomPayload, LeaveRoomPayload, SendMessagePayload};
use online_chat::state::AppState;

fn join(state: &mut AppState, user: &str, room: &str) -> Result<(), ChatError> {
    join_room(state, JoinRoomPayload { username: user.to_string(), room_name: room.to_string() })
}

fn leave(state: &mut AppState, user: &str, room: &str) -> Result<(), ChatError> {
    leave_room(state, LeaveRoomPayload { username: user.to_string(), room_name: room.to_string() })
}

fn send(state: &mut AppState, user: &str, room: &str, content: &str) -> Result<(), ChatError> {
    send_message(
        state,
        SendMessagePayload {
            username: user.to_string(),
            room_name: room.to_string(),
            content: content.to_string(),
        },
    )
}

fn send_at(state: &mut AppState, user: &str, room: &str, content: &str, t: u64) -> Result<(), ChatError> {
    send_message_at(
        state,
        SendMessagePayload {
            username: user.to_string(),
            room_name: room.to_string(),
            content: content.to_string(),
        },
        t,
    )
}

fn messages(state: &mut AppState, user: &str, room: &str) -> Result<Vec<Message>, ChatError> {
    get_messages(state, GetMessagesQuery { username: user.to_string(), room_name: room.to_string() })
}

fn sorted_rooms(state: &mut AppState) -> Vec<String> {
    let mut names = get_rooms(state);
    names.sort();
    names
}

#[test]
fn scenario_alice_in_the_lobby() {
    let mut state = AppState::new();
    assert_eq!(join(&mut state, "alice", "lobby"), Ok(()));
    assert_eq!(join(&mut state, "alice", "lobby"), Err(ChatError::Conflict));
    assert_eq!(send(&mut state, "alice", "lobby", "hi"), Ok(()));
    let got = messages(&mut state, "alice", "lobby").unwrap();
    assert_eq!(got.len(), 1);
    assert_eq!(got[0].username, "alice");
    assert_eq!(got[0].content, "hi");
    assert!(got[0].timestamp > 1_600_000_000);
    assert_eq!(leave(&mut state, "alice", "lobby"), Ok(()));
    // the last member left, so the room is gone
    assert!(get_rooms(&mut state).is_empty());
}

#[test]
fn second_join_of_same_user_conflicts() {
    let mut state = AppState::new();
    assert_eq!(join(&mut state, "bob", "r"), Ok(()));
    assert_eq!(join(&mut state, "bob", "r"), Err(ChatError::Conflict));
    assert_eq!(join(&mut state, "bob", "other"), Ok(()));
    assert_eq!(state.user_count(), 2);
    assert_eq!(sorted_rooms(&mut state), vec!["other".to_string(), "r".to_string()]);
}

#[test]
fn many_first_joins_make_one_room() {
    let mut state = AppState::default();
    for i in 0..20 {
        assert_eq!(join(&mut state, &format!("user{}", i), "fresh"), Ok(()));
    }
    assert_eq!(get_rooms(&mut state), vec!["fresh".to_string()]);
}

#[test]
fn sends_are_kept_in_order() {
    let mut state = AppState::new();
    join(&mut state, "a", "r").unwrap();
    join(&mut state, "b", "r").unwrap();
    for i in 0..10u64 {
        let author = if i % 2 == 0 { "a" } else { "b" };
        assert_eq!(send_at(&mut state, author, "r", &format!("m{}", i), 100 + i), Ok(()));
    }
    let got = messages(&mut state, "b", "r").unwrap();
    assert_eq!(got.len(), 10);
    for (i, m) in got.iter().enumerate() {
        assert_eq!(m.content, format!("m{}", i));
        assert_eq!(m.timestamp, 100 + i as u64);
        assert_eq!(m.username, if i % 2 == 0 { "a" } else { "b" });
    }
}

#[test]
fn equal_timestamps_keep_arrival_order() {
    let mut state = AppState::new();
    join(&mut state, "a", "r").unwrap();
    send_at(&mut state, "a", "r", "first", 7).unwrap();
    send_at(&mut state, "a", "r", "second", 7).unwrap();
    let got = messages(&mut state, "a", "r").unwrap();
    assert_eq!(got[0].content, "first");
    assert_eq!(got[1].content, "second");
}

#[test]
fn leave_removes_one_member_and_last_leave_removes_room() {
    let mut state = AppState::new();
    join(&mut state, "a", "r").unwrap();
    join(&mut state, "b", "r").unwrap();
    send_at(&mut state, "a", "r", "x", 1).unwrap();
    assert_eq!(leave(&mut state, "a", "r"), Ok(()));
    assert_eq!(get_rooms(&mut state), vec!["r".to_string()]);
    assert_eq!(messages(&mut state, "a", "r").unwrap_err(), ChatError::Conflict);
    assert_eq!(messages(&mut state, "b", "r").unwrap().len(), 1);
    assert_eq!(leave(&mut state, "b", "r"), Ok(()));
    assert!(get_rooms(&mut state).is_empty());
    assert_eq!(join(&mut state, "a", "r"), Ok(()));
    assert!(messages(&mut state, "a", "r").unwrap().is_empty());
}

#[test]
fn unknown_room_is_not_found() {
    let mut state = AppState::new();
    assert_eq!(leave(&mut state, "a", "nowhere"), Err(ChatError::NotFound));
    assert_eq!(send(&mut state, "a", "nowhere", "x"), Err(ChatError::NotFound));
    assert_eq!(messages(&mut state, "a", "nowhere").unwrap_err(), ChatError::NotFound);
    assert!(get_rooms(&mut state).is_empty());
}

#[test]
fn non_member_is_refused_with_conflict() {
    let mut state = AppState::new();
    join(&mut state, "a", "r").unwrap();
    assert_eq!(leave(&mut state, "z", "r"), Err(ChatError::Conflict));
    assert_eq!(send(&mut state, "z", "r", "x"), Err(ChatError::Conflict));
    assert_eq!(messages(&mut state, "z", "r").unwrap_err(), ChatError::Conflict);
    assert!(messages(&mut state, "a", "r").unwrap().is_empty());
    assert_eq!(state.user_count(), 1);
}

#[test]
fn counter_follows_joins_leaves_and_listings() {
    let mut state = AppState::new();
    assert_eq!(state.user_count(), 0);
    join(&mut state, "a", "r").unwrap();
    join(&mut state, "b", "r").unwrap();
    assert_eq!(state.user_count(), 2);
    let _ = join(&mut state, "a", "r");
    assert_eq!(state.user_count(), 2);
    get_rooms(&mut state);
    assert_eq!(state.user_count(), 3);
    leave(&mut state, "a", "r").unwrap();
    assert_eq!(state.user_count(), 2);
    let _ = leave(&mut state, "a", "r");
    assert_eq!(state.user_count(), 2);
}

#[test]
fn counter_wraps_at_both_ends() {
    let mut state = AppState::new();
    state.user_count = usize::MAX;
    join(&mut state, "a", "r").unwrap();
    assert_eq!(state.user_count(), 0);
    leave(&mut state, "a", "r").unwrap();
    assert_eq!(state.user_count(), usize::MAX);
}

#[test]
fn message_duplicate_copies_every_field() {
    let m = Message { username: "u".to_string(), content: "c".to_string(), timestamp: 9 };
    let d = m.duplicate();
    assert_eq!((d.username, d.content, d.timestamp), ("u".to_string(), "c".to_string(), 9));
}
