//! A plain undo history over owned values, oldest first, where recording a
//! new value discards whatever lay ahead of the cursor.
use vstd::prelude::*;

verus! {

/// A non-empty list of values, oldest first, with a cursor on the current one.
pub struct UndoHistory<T> {
    history: Vec<T>,
    current: usize,
}

impl<T> UndoHistory<T> {
    /// The recorded values, oldest first.
    pub closed spec fn entries(&self) -> Seq<T> {
        self.history@
    }

    /// The index of the current value.
    pub closed spec fn cursor(&self) -> nat {
        self.current as nat
    }

    /// The log is never empty and the cursor lies inside it.
    pub open spec fn wf(&self) -> bool {
        self.cursor() < self.entries().len()
    }

    /// The value under the cursor.
    pub open spec fn current_entry(&self) -> T
        recommends
            self.wf(),
    {
        self.entries()[self.cursor() as int]
    }

    /// A history holding `initial` alone.
    pub fn new(initial: T) -> (r: UndoHistory<T>)
        ensures
            r.wf(),
            r.entries() == seq![initial],
            r.cursor() == 0,
    {
        UndoHistory { history: vec![initial], current: 0 }
    }

    /// The current value.
    pub fn current(&self) -> (r: &T)
        requires
            self.wf(),
        ensures
            *r == self.current_entry(),
    {
        &self.history[self.current]
    }

    /// Steps back to the previous value, unless the cursor is at the oldest.
    pub fn undo(&mut self)
        requires
            old(self).wf(),
        ensures
            final(self).wf(),
            final(self).entries() == old(self).entries(),
            final(self).cursor() == (if old(self).cursor() > 0 {
                (old(self).cursor() - 1) as nat
            } else {
                0
            }),
    {
        if self.current > 0 {
            self.current -= 1;
        }
    }

    /// Steps forward to the next value, unless the cursor is at the newest.
    pub fn redo(&mut self)
        requires
            old(self).wf(),
        ensures
            final(self).wf(),
            final(self).entries() == old(self).entries(),
            final(self).cursor() == (if old(self).cursor() + 1 < old(self).entries().len() {
                old(self).cursor() + 1
            } else {
                old(self).cursor()
            }),
    {
        if self.current < self.history.len() - 1 {
            self.current += 1;
        }
    }

    /// Records `new` just after the current value, dropping the values that
    /// lay ahead of the cursor, and makes it current.
    pub fn push(&mut self, new: T)
        requires
            old(self).wf(),
        ensures
            final(self).wf(),
            final(self).entries() == old(self).entries().subrange(0, old(self).cursor() + 1 as int).push(
                new,
            ),
            final(self).cursor() == old(self).cursor() + 1,
    {
        // the cursor lies below the length, which fits in a usize
        let _len = self.history.len();
        self.history.truncate(self.current + 1);
        self.history.push(new);
        self.current = self.history.len() - 1;
    }

    /// The number of recorded values.
    pub fn len(&self) -> (r: usize)
        ensures
            r == self.entries().len(),
    {
        self.history.len()
    }
}

} // verus!
