//! The concurrent maps of dashmap that the index and the note relay keep,
//! both keyed by a coordinate `(latitude, longitude)`.

use vstd::prelude::*;

use dashmap::DashMap;

verus! {

#[verifier::external_type_specification]
#[verifier::external_body]
#[verifier::reject_recursive_types(K)]
#[verifier::reject_recursive_types(V)]
#[verifier::reject_recursive_types(S)]
pub struct ExDashMap<K, V, S>(DashMap<K, V, S>);

/// A coordinate as `(latitude, longitude)`.
pub type Coord = (i32, i32);

/// Exact lookup table: coordinate to position in the feature list.
pub type PositionTable = DashMap<Coord, usize>;

/// The entries of a position table.
pub uninterp spec fn positions(m: PositionTable) -> Map<Coord, usize>;

/// Relies on dashmap's `DashMap::with_capacity`: the new map is empty.
#[verifier::external_body]
pub(crate) fn position_table(capacity: usize) -> (r: PositionTable)
    ensures
        positions(r).dom().is_empty(),
{
    DashMap::with_capacity(capacity)
}

/// Relies on dashmap's `DashMap::insert`: the key now maps to the value, and
/// every other entry is kept.
#[verifier::external_body]
pub(crate) fn set_position(m: &mut PositionTable, key: Coord, value: usize)
    ensures
        positions(*final(m)) == positions(*old(m)).insert(key, value),
{
    m.insert(key, value);
}

/// Relies on dashmap's `DashMap::get`: the value stored under the key, if any.
#[verifier::external_body]
pub(crate) fn position_of(m: &PositionTable, key: Coord) -> (r: Option<usize>)
    ensures
        r == positions(*m).get(key),
{
    m.get(&key).map(|v| *v)
}

/// Note relay: coordinate to the messages left there, oldest first.
pub type NoteTable = DashMap<Coord, Vec<String>>;

/// The entries of a note table.
pub uninterp spec fn note_lists(m: NoteTable) -> Map<Coord, Seq<String>>;

/// Relies on dashmap's `DashMap::new`: the new map is empty.
#[verifier::external_body]
pub(crate) fn note_table() -> (r: NoteTable)
    ensures
        note_lists(r).is_empty(),
{
    DashMap::new()
}

/// Relies on dashmap's `DashMap::insert`: the key now maps to the list, and
/// every other entry is kept.
#[verifier::external_body]
pub(crate) fn set_notes(m: &mut NoteTable, key: Coord, list: Vec<String>)
    ensures
        note_lists(*final(m)) == note_lists(*old(m)).insert(key, list@),
{
    m.insert(key, list);
}

/// Relies on dashmap's `DashMap::get`: a copy of the list stored under the
/// key, if any.
#[verifier::external_body]
pub(crate) fn notes_at(m: &NoteTable, key: Coord) -> (r: Option<Vec<String>>)
    ensures
        match r {
            Some(v) => note_lists(*m).contains_key(key) && v@ == note_lists(*m)[key],
            None => !note_lists(*m).contains_key(key),
        },
{
    m.get(&key).map(|v| v.clone())
}

} // verus!
