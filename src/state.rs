//! The registry shared by all operations: the rooms by name and a counter
//! of activity. Every operation takes it by `&mut`, so one that is shared
//! between tasks is held behind a lock and operations apply one at a time,
//! each in full.
use vstd::prelude::*;

use crate::model::{Room, RoomsModel};
use crate::rules::{count_down, count_up, rooms_wf};
use crate::store::{rooms_names, rooms_new, rooms_of};

verus! {

/// The registry: each room under its name, and a counter of joins minus
/// leaves (and room listings) kept for observation only.
#[derive(Debug)]
pub struct AppState {
    pub rooms: dashmap::DashMap<String, Room>,
    pub user_count: usize,
}

impl AppState {
    /// The rooms, keyed by name.
    pub open spec fn rooms_model(&self) -> RoomsModel {
        rooms_of(self.rooms)
    }

    /// Every room has at least one member.
    pub open spec fn wf(&self) -> bool {
        rooms_wf(self.rooms_model())
    }

    /// A registry with no room and a counter at zero.
    pub fn new() -> (r: AppState)
        ensures
            r.rooms_model() == RoomsModel::empty(),
            r.user_count == 0,
            r.wf(),
    {
        AppState { rooms: rooms_new(), user_count: 0 }
    }

    /// Counts one more unit of activity, wrapping at the top of `usize`.
    pub fn increment_activity_counter(&mut self)
        ensures
            final(self).user_count == count_up(old(self).user_count),
            final(self).rooms == old(self).rooms,
    {
        self.user_count = self.user_count.wrapping_add(1);
    }

    /// Counts one unit of activity less, wrapping at zero.
    pub fn decrement_activity_counter(&mut self)
        ensures
            final(self).user_count == count_down(old(self).user_count),
            final(self).rooms == old(self).rooms,
    {
        self.user_count = self.user_count.wrapping_sub(1);
    }

    /// The names of all rooms, each once, in no particular order.
    pub fn list_room_names(&self) -> (r: Vec<String>)
        ensures
            r@.map_values(|s: String| s@).to_set() == self.rooms_model().dom(),
            r@.map_values(|s: String| s@).no_duplicates(),
    {
        rooms_names(&self.rooms)
    }

    /// The activity counter.
    pub fn user_count(&self) -> (r: usize)
        ensures
            r == self.user_count,
    {
        self.user_count
    }
}

impl Default for AppState {
    fn default() -> (r: AppState)
        ensures
            r.rooms_model() == RoomsModel::empty(),
            r.user_count == 0,
            r.wf(),
    {
        AppState::new()
    }
}

} // verus!
