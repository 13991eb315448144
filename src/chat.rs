//! The note relay: every note is appended to the list of its location, and
//! the whole list is replayed.
//!
//! A relay belongs to one chat call and is dropped with it, so concurrent
//! calls never share one.

use vstd::prelude::*;

use crate::geometry::Point;
use crate::model::RouteNote;
use crate::tables::{note_lists, note_table, notes_at, set_notes, Coord, NoteTable};

verus! {

/// Why a note was refused.
#[derive(Debug, Clone, Copy, PartialEq, Eq, Structural)]
pub enum ChatError {
    /// The note carries no location.
    MissingLocation,
}

/// The key of a point.
pub open spec fn key_of(p: Point) -> Coord {
    (p.latitude, p.longitude)
}

/// The messages left at `k` so far, oldest first.
pub open spec fn history(m: Map<Coord, Seq<String>>, k: Coord) -> Seq<String> {
    if m.contains_key(k) {
        m[k]
    } else {
        Seq::empty()
    }
}

/// The relay after `msg` is left at `k`.
pub open spec fn posted(m: Map<Coord, Seq<String>>, k: Coord, msg: String) -> Map<Coord, Seq<String>> {
    m.insert(k, history(m, k).push(msg))
}

/// `notes` are the messages `msgs`, in order, each located at `p`.
pub open spec fn replays(notes: Seq<RouteNote>, p: Point, msgs: Seq<String>) -> bool {
    &&& notes.len() == msgs.len()
    &&& forall|i: int|
        0 <= i < notes.len() ==> #[trigger] notes[i] == (RouteNote {
            location: Some(p),
            message: msgs[i],
        })
}

/// Two notes left at one location, where none was before, are replayed
/// together after the second, in the order they came.
pub proof fn lemma_second_note_replays_both(m: Map<Coord, Seq<String>>, k: Coord, a: String, b: String)
    requires
        !m.contains_key(k),
    ensures
        history(posted(posted(m, k, a), k, b), k) == seq![a, b],
{
    assert(history(posted(posted(m, k, a), k, b), k) =~= seq![a, b]);
}

/// A note left at one location leaves the history of every other location
/// as it was.
pub proof fn lemma_other_locations_untouched(m: Map<Coord, Seq<String>>, k: Coord, other: Coord, msg: String)
    requires
        k != other,
    ensures
        history(posted(m, other, msg), k) == history(m, k),
{
}

/// Notes by location, for the lifetime of one chat.
pub struct ChatRelay {
    notes: NoteTable,
}

impl View for ChatRelay {
    type V = Map<Coord, Seq<String>>;

    closed spec fn view(&self) -> Map<Coord, Seq<String>> {
        note_lists(self.notes)
    }
}

impl ChatRelay {
    pub fn new() -> (r: ChatRelay)
        ensures
            r@.is_empty(),
    {
        ChatRelay { notes: note_table() }
    }

    /// Appends the note to the list of its location and returns that whole
    /// list, oldest first; a note without a location is refused and changes
    /// nothing.
    pub fn post(&mut self, note: RouteNote) -> (r: Result<Vec<RouteNote>, ChatError>)
        ensures
            match note.location {
                None => r == Err::<Vec<RouteNote>, ChatError>(ChatError::MissingLocation)
                    && final(self)@ == old(self)@,
                Some(p) => {
                    &&& final(self)@ == posted(old(self)@, key_of(p), note.message)
                    &&& r is Ok
                    &&& replays(r->Ok_0@, p, history(final(self)@, key_of(p)))
                },
            },
    {
        let p = match note.location {
            Some(p) => p,
            None => {
                return Err(ChatError::MissingLocation);
            },
        };
        let key: Coord = (p.latitude, p.longitude);
        let mut list = match notes_at(&self.notes, key) {
            Some(v) => v,
            None => Vec::new(),
        };
        list.push(note.message);
        let mut out: Vec<RouteNote> = Vec::new();
        let mut i: usize = 0;
        while i < list.len()
            invariant
                i <= list.len(),
                out@.len() == i,
                forall|j: int|
                    0 <= j < i ==> #[trigger] out@[j] == (RouteNote {
                        location: Some(p),
                        message: list@[j],
                    }),
            decreases list.len() - i,
        {
            out.push(RouteNote { location: Some(p), message: list[i].clone() });
            i += 1;
        }
        let ghost msgs = list@;
        set_notes(&mut self.notes, key, list);
        proof {
            assert(history(note_lists(self.notes), key) == msgs);
        }
        Ok(out)
    }
}

} // verus!
