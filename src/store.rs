//! The concurrent map of `dashmap` that holds rooms and their members, with
//! contracts that speak of what each map holds.
use vstd::prelude::*;

use crate::model::{empty_room, Room, RoomsModel, User};

verus! {

#[verifier::external_type_specification]
#[verifier::external_body]
#[verifier::reject_recursive_types(K)]
#[verifier::reject_recursive_types(V)]
#[verifier::reject_recursive_types(S)]
pub struct ExDashMap<K, V, S>(dashmap::DashMap<K, V, S>);

/// The usernames that are keys of a room's member map.
pub uninterp spec fn member_keys(m: dashmap::DashMap<String, User>) -> Set<Seq<char>>;

/// Relies on `DashMap::new`: a new map holds no entry.
#[verifier::external_body]
pub(crate) fn members_new() -> (r: dashmap::DashMap<String, User>)
    ensures
        member_keys(r) == Set::<Seq<char>>::empty(),
{
    dashmap::DashMap::new()
}

/// Relies on `DashMap::contains_key`: whether the key has an entry.
#[verifier::external_body]
pub(crate) fn members_contains(m: &dashmap::DashMap<String, User>, name: &String) -> (r: bool)
    ensures
        r == member_keys(*m).contains(name@),
{
    m.contains_key(name)
}

/// Relies on `DashMap::insert`: afterwards the key has an entry, and no
/// other key changes.
#[verifier::external_body]
pub(crate) fn members_insert(m: &mut dashmap::DashMap<String, User>, name: String, user: User)
    ensures
        member_keys(*final(m)) == member_keys(*old(m)).insert(name@),
{
    m.insert(name, user);
}

/// Relies on `DashMap::remove`: afterwards the key has no entry, and no
/// other key changes.
#[verifier::external_body]
pub(crate) fn members_remove(m: &mut dashmap::DashMap<String, User>, name: &String)
    ensures
        member_keys(*final(m)) == member_keys(*old(m)).remove(name@),
{
    m.remove(name);
}

/// Relies on `DashMap::is_empty`: whether the map holds no entry.
#[verifier::external_body]
pub(crate) fn members_is_empty(m: &dashmap::DashMap<String, User>) -> (r: bool)
    ensures
        r == (member_keys(*m) == Set::<Seq<char>>::empty()),
{
    m.is_empty()
}

/// The rooms held by the registry's map, keyed by room name.
pub uninterp spec fn rooms_of(m: dashmap::DashMap<String, Room>) -> RoomsModel;

/// Relies on `DashMap::new`: a new map holds no entry.
#[verifier::external_body]
pub(crate) fn rooms_new() -> (r: dashmap::DashMap<String, Room>)
    ensures
        rooms_of(r) == RoomsModel::empty(),
{
    dashmap::DashMap::new()
}

/// Relies on `DashMap::entry` and `Entry::or_insert_with`: a key that has an
/// entry keeps it; a key that has none gets a new empty room, in one step.
#[verifier::external_body]
pub(crate) fn rooms_get_or_create(m: &mut dashmap::DashMap<String, Room>, name: String)
    ensures
        rooms_of(*final(m)) == (if rooms_of(*old(m)).contains_key(name@) {
            rooms_of(*old(m))
        } else {
            rooms_of(*old(m)).insert(name@, empty_room())
        }),
{
    m.entry(name).or_insert_with(Room::new);
}

/// Relies on `DashMap::remove`: it hands back the value of the key, if any,
/// and afterwards the key has no entry.
#[verifier::external_body]
pub(crate) fn rooms_take(m: &mut dashmap::DashMap<String, Room>, name: &String) -> (r: Option<Room>)
    ensures
        rooms_of(*final(m)) == rooms_of(*old(m)).remove(name@),
        r is Some <==> rooms_of(*old(m)).contains_key(name@),
        r is Some ==> r->0@ == rooms_of(*old(m))[name@],
{
    m.remove(name).map(|(_, room)| room)
}

/// Relies on `DashMap::insert`: afterwards the key maps to the value, and no
/// other key changes.
#[verifier::external_body]
pub(crate) fn rooms_put(m: &mut dashmap::DashMap<String, Room>, name: String, room: Room)
    ensures
        rooms_of(*final(m)) == rooms_of(*old(m)).insert(name@, room@),
{
    m.insert(name, room);
}

/// Relies on `DashMap::iter`: it visits every entry once; each key is cloned.
#[verifier::external_body]
pub(crate) fn rooms_names(m: &dashmap::DashMap<String, Room>) -> (r: Vec<String>)
    ensures
        r@.map_values(|s: String| s@).to_set() == rooms_of(*m).dom(),
        r@.map_values(|s: String| s@).no_duplicates(),
{
    m.iter().map(|entry| entry.key().clone()).collect()
}

} // verus!
