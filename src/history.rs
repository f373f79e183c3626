//! A linear history of immutable text snapshots with a cursor, kept in a
//! persistent vector so that saving a version costs no copy of the others.
//!
//! Index 0 is the most recently saved snapshot; a larger index lies further in
//! the past. The cursor names the snapshot that is current.
use crate::persistent::{
    text_items, text_vector_get, text_vector_len, text_vector_new, text_vector_push_front,
};
use vstd::prelude::*;

verus! {

/// `o` with the string it holds, if any, taken as a sequence of characters.
pub open spec fn text_of(o: Option<String>) -> Option<Seq<char>> {
    match o {
        Some(s) => Some(s@),
        None => None,
    }
}

/// The cursor after one undo in a log of `len` entries: one step into the
/// past, unless it already stands at the oldest entry.
pub open spec fn undo_cursor(len: nat, cursor: nat) -> nat {
    if cursor + 1 < len {
        cursor + 1
    } else {
        cursor
    }
}

/// The cursor after one redo: one step towards the present, unless it
/// already stands at the newest entry.
pub open spec fn redo_cursor(cursor: nat) -> nat {
    if cursor > 0 {
        (cursor - 1) as nat
    } else {
        0
    }
}

/// The cursor after `k` undos in a row.
pub open spec fn undo_cursor_n(len: nat, cursor: nat, k: nat) -> nat
    decreases k,
{
    if k == 0 {
        cursor
    } else {
        undo_cursor(len, undo_cursor_n(len, cursor, (k - 1) as nat))
    }
}

/// The cursor after `k` redos in a row.
pub open spec fn redo_cursor_n(cursor: nat, k: nat) -> nat
    decreases k,
{
    if k == 0 {
        cursor
    } else {
        redo_cursor(redo_cursor_n(cursor, (k - 1) as nat))
    }
}

/// The entries after saving `value` into `entries` with the cursor at
/// `cursor`: when the cursor stood in the past, the entry it named is first
/// put back in front, so that saving discards nothing.
pub open spec fn saved_entries(entries: Seq<Seq<char>>, cursor: nat, value: Seq<char>) -> Seq<
    Seq<char>,
> {
    if cursor > 0 {
        seq![value, entries[cursor as int]] + entries
    } else {
        seq![value] + entries
    }
}

/// A linear history of snapshots with a cursor; see the module documentation.
pub struct UndoHistory {
    history: im::Vector<String>,
    current: usize,
}

impl UndoHistory {
    /// The snapshots, most recent first.
    pub closed spec fn entries(&self) -> Seq<Seq<char>> {
        text_items(self.history)
    }

    /// The index of the current snapshot.
    pub closed spec fn cursor(&self) -> nat {
        self.current as nat
    }

    /// The cursor lies inside the log, or at 0 when the log is empty.
    pub open spec fn wf(&self) -> bool {
        if self.entries().len() == 0 {
            self.cursor() == 0
        } else {
            self.cursor() < self.entries().len()
        }
    }

    /// The current snapshot, or `None` for an empty log.
    pub open spec fn current_entry(&self) -> Option<Seq<char>> {
        if self.entries().len() == 0 {
            None
        } else {
            Some(self.entries()[self.cursor() as int])
        }
    }

    /// A log with no snapshot.
    pub fn empty() -> (r: Self)
        ensures
            r.wf(),
            r.entries() == Seq::<Seq<char>>::empty(),
            r.cursor() == 0,
    {
        UndoHistory { history: text_vector_new(), current: 0 }
    }

    /// A log holding `initial_state` alone, which is current.
    pub fn new(initial_state: String) -> (r: Self)
        ensures
            r.wf(),
            r.entries() == seq![initial_state@],
            r.cursor() == 0,
    {
        let mut history = text_vector_new();
        text_vector_push_front(&mut history, initial_state);
        UndoHistory { history, current: 0 }
    }

    /// The snapshot at `index`, or `None` past the end.
    fn get(&self, index: usize) -> (r: Option<String>)
        ensures
            text_of(r) == (if index < self.entries().len() {
                Some(self.entries()[index as int])
            } else {
                None
            }),
    {
        text_vector_get(&self.history, index)
    }

    /// Saves `value` as the new present and moves the cursor to it. When the
    /// cursor stood in the past, the snapshot it named is first saved again,
    /// just behind the new present.
    pub fn save(&mut self, value: String)
        requires
            old(self).wf(),
            old(self).entries().len() + 2 <= usize::MAX,
        ensures
            final(self).wf(),
            final(self).cursor() == 0,
            final(self).entries() == saved_entries(old(self).entries(), old(self).cursor(), value@),
    {
        if self.current > 0 {
            match self.get(self.current) {
                Some(present) => text_vector_push_front(&mut self.history, present),
                None => {},
            }
        }
        text_vector_push_front(&mut self.history, value);
        self.current = 0;
    }

    /// The current snapshot, or `None` for an empty log.
    pub fn current(&self) -> (r: Option<String>)
        requires
            self.wf(),
        ensures
            text_of(r) == self.current_entry(),
    {
        if text_vector_len(&self.history) == 0 {
            return None;
        }
        self.get(self.current)
    }

    /// Moves the cursor one step into the past, unless it stands at the oldest
    /// snapshot, and returns the current snapshot.
    pub fn undo(&mut self) -> (r: Option<String>)
        requires
            old(self).wf(),
        ensures
            final(self).wf(),
            final(self).entries() == old(self).entries(),
            final(self).cursor() == undo_cursor(old(self).entries().len(), old(self).cursor()),
            old(self).cursor() + 1 >= old(self).entries().len() ==> *final(self) == *old(self),
            text_of(r) == final(self).current_entry(),
    {
        let len = text_vector_len(&self.history);
        if self.current + 1 < len {
            self.current = self.current + 1;
        }
        self.current()
    }

    /// Moves the cursor one step towards the present, unless it stands at the
    /// newest snapshot, and returns the current snapshot.
    pub fn redo(&mut self) -> (r: Option<String>)
        requires
            old(self).wf(),
        ensures
            final(self).wf(),
            final(self).entries() == old(self).entries(),
            final(self).cursor() == redo_cursor(old(self).cursor()),
            old(self).cursor() == 0 ==> *final(self) == *old(self),
            text_of(r) == final(self).current_entry(),
    {
        if self.current > 0 {
            self.current = self.current - 1;
        }
        self.current()
    }

    /// Moves the cursor to `index` when the log has such an entry, and leaves
    /// it where it is otherwise; returns the current snapshot.
    pub fn load(&mut self, index: usize) -> (r: Option<String>)
        requires
            old(self).wf(),
        ensures
            final(self).wf(),
            final(self).entries() == old(self).entries(),
            index < old(self).entries().len() ==> final(self).cursor() == index,
            index >= old(self).entries().len() ==> *final(self) == *old(self),
            text_of(r) == final(self).current_entry(),
    {
        if index < text_vector_len(&self.history) {
            self.current = index;
        }
        self.current()
    }
}

/// Undoing `k` times from any cursor of a non-empty log moves it `k` steps
/// into the past but never beyond the oldest entry: once there, further undos
/// keep it there.
pub proof fn undo_stops_at_oldest(len: nat, cursor: nat, k: nat)
    requires
        cursor < len,
    ensures
        undo_cursor_n(len, cursor, k) == (if cursor + k < len {
            cursor + k
        } else {
            (len - 1) as nat
        }),
    decreases k,
{
    if k > 0 {
        undo_stops_at_oldest(len, cursor, (k - 1) as nat);
    }
}

/// Redoing `k` times moves the cursor `k` steps towards the present but never
/// beyond the newest entry: once there, further redos keep it there.
pub proof fn redo_stops_at_newest(cursor: nat, k: nat)
    ensures
        redo_cursor_n(cursor, k) == (if k <= cursor {
            (cursor - k) as nat
        } else {
            0
        }),
    decreases k,
{
    if k > 0 {
        redo_stops_at_newest(cursor, (k - 1) as nat);
    }
}

/// Saving while the cursor stands in the past keeps every earlier entry, in
/// order, behind the new present and the re-saved former current entry.
pub proof fn save_in_past_keeps_everything(
    entries: Seq<Seq<char>>,
    cursor: nat,
    value: Seq<char>,
)
    requires
        0 < cursor < entries.len(),
    ensures
        saved_entries(entries, cursor, value).len() == entries.len() + 2,
        saved_entries(entries, cursor, value)[0] == value,
        saved_entries(entries, cursor, value)[1] == entries[cursor as int],
        saved_entries(entries, cursor, value).subrange(2, entries.len() + 2 as int) == entries,
{
    assert(saved_entries(entries, cursor, value).subrange(2, entries.len() + 2 as int) =~= entries);
}

} // verus!
