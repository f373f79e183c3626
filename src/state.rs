//! A key/value state in which every write keeps the version it replaces.
//!
//! The current bindings live in a persistent map; each `insert` or `remove`
//! first appends the map as it stood to the history. Appending costs no copy:
//! the kept version and the new one share every node that the write left alone.
use crate::persistent::{
    bindings, Bindings, BindingsModel, map_clone, map_get, map_insert, map_items, map_len, map_new, map_remove,
    map_vector_clone, map_vector_len, map_vector_new, map_vector_push_back,
};
use vstd::prelude::*;

verus! {

/// What `key` is bound to in `m`, if anything.
pub open spec fn lookup(m: Map<Seq<char>, i32>, key: Seq<char>) -> Option<i32> {
    if m.contains_key(key) {
        Some(m[key])
    } else {
        None
    }
}

/// The current bindings and every earlier version of them, oldest first.
pub struct State {
    history: im::Vector<Bindings>,
    data: Bindings,
}

impl State {
    /// A state holds finitely many bindings.
    #[verifier::type_invariant]
    spec fn finite_bindings(&self) -> bool {
        bindings(self.data).dom().finite()
    }

    /// The current bindings.
    pub closed spec fn data_view(&self) -> Map<Seq<char>, i32> {
        bindings(self.data)
    }

    /// The earlier versions of the bindings, oldest first.
    pub closed spec fn versions(&self) -> Seq<Map<Seq<char>, i32>> {
        map_items(self.history)
    }

    /// An empty state with no history.
    pub fn new() -> (r: Self)
        ensures
            r.data_view() == BindingsModel::empty(),
            r.versions() == Seq::<BindingsModel>::empty(),
    {
        State { history: map_vector_new(), data: map_new() }
    }

    /// A state made of a history of versions and the current bindings; both
    /// are shared with the arguments, not copied.
    pub fn from_parts(history: &im::Vector<Bindings>, data: &Bindings) -> (r: Self)
        ensures
            r.data_view() == bindings(*data),
            r.versions() == map_items(*history),
    {
        State { history: map_vector_clone(history), data: map_clone(data) }
    }

    /// Binds `key` to `value`, keeping the bindings as they stood as the
    /// newest version of the history.
    pub fn insert(&mut self, key: String, value: i32)
        requires
            old(self).versions().len() < usize::MAX,
        ensures
            final(self).versions() == old(self).versions().push(old(self).data_view()),
            final(self).data_view() == old(self).data_view().insert(key@, value),
            final(self).data_view().len() == old(self).data_view().len() + (if old(
                self,
            ).data_view().contains_key(key@) {
                0int
            } else {
                1int
            }),
    {
        proof {
            use_type_invariant(&*self);
            sizes_after_insert_and_remove(self.data_view(), key@, value);
        }
        let mut history = map_vector_clone(&self.history);
        map_vector_push_back(&mut history, map_clone(&self.data));
        let mut data = map_clone(&self.data);
        map_insert(&mut data, key, value);
        *self = State { history, data };
    }

    /// Drops the binding of `key`, if any, keeping the bindings as they stood
    /// as the newest version of the history.
    pub fn remove(&mut self, key: &str)
        requires
            old(self).versions().len() < usize::MAX,
        ensures
            final(self).versions() == old(self).versions().push(old(self).data_view()),
            final(self).data_view() == old(self).data_view().remove(key@),
            final(self).data_view().len() == old(self).data_view().len() - (if old(
                self,
            ).data_view().contains_key(key@) {
                1int
            } else {
                0int
            }),
    {
        proof {
            use_type_invariant(&*self);
            sizes_after_insert_and_remove(self.data_view(), key@, 0);
        }
        let mut history = map_vector_clone(&self.history);
        map_vector_push_back(&mut history, map_clone(&self.data));
        let mut data = map_clone(&self.data);
        map_remove(&mut data, key);
        *self = State { history, data };
    }

    /// The number of current bindings.
    pub fn len(&self) -> (r: usize)
        ensures
            r == self.data_view().len(),
            self.data_view().dom().finite(),
    {
        proof {
            use_type_invariant(self);
        }
        map_len(&self.data)
    }

    /// The number of versions kept in the history.
    pub fn hist_len(&self) -> (r: usize)
        ensures
            r == self.versions().len(),
    {
        map_vector_len(&self.history)
    }

    /// The value bound to `key`, if any.
    pub fn get(&self, key: &str) -> (r: Option<i32>)
        ensures
            r == lookup(self.data_view(), key@),
    {
        map_get(&self.data, key)
    }

    /// The current bindings as a persistent map, which a reader may keep while
    /// the state moves on.
    pub fn reader(&self) -> (r: &Bindings)
        ensures
            bindings(*r) == self.data_view(),
    {
        &self.data
    }

    /// The earlier versions as a persistent vector, oldest first.
    pub fn history(&self) -> (r: &im::Vector<Bindings>)
        ensures
            map_items(*r) == self.versions(),
    {
        &self.history
    }
}

impl Clone for State {
    /// A copy sharing every node with `self`.
    fn clone(&self) -> (r: Self)
        ensures
            r.data_view() == self.data_view(),
            r.versions() == self.versions(),
    {
        State { history: map_vector_clone(&self.history), data: map_clone(&self.data) }
    }
}

impl Default for State {
    fn default() -> (r: Self)
        ensures
            r.data_view() == BindingsModel::empty(),
            r.versions() == Seq::<BindingsModel>::empty(),
    {
        State::new()
    }
}

/// Binding one key leaves every other key reading as before, and the key
/// itself reads as the new value.
pub proof fn insert_keeps_other_keys(
    m: Map<Seq<char>, i32>,
    key: Seq<char>,
    value: i32,
    other: Seq<char>,
)
    requires
        other != key,
    ensures
        lookup(m.insert(key, value), other) == lookup(m, other),
        lookup(m.insert(key, value), key) == Some(value),
{
}

/// A state written by `insert` keeps every other key reading as before, and
/// a copy taken before the write (a reader's snapshot) still holds the old
/// bindings, which are now the newest entry of the history.
pub proof fn insert_keeps_other_keys_and_old_version(
    before: State,
    snapshot: State,
    after: State,
    key: Seq<char>,
    value: i32,
)
    requires
        snapshot.data_view() == before.data_view(),
        after.versions() == before.versions().push(before.data_view()),
        after.data_view() == before.data_view().insert(key, value),
    ensures
        forall|other: Seq<char>|
            other != key ==> #[trigger] lookup(after.data_view(), other) == lookup(
                before.data_view(),
                other,
            ),
        lookup(after.data_view(), key) == Some(value),
        after.versions().last() == snapshot.data_view(),
        after.versions().drop_last() == before.versions(),
{
    assert(after.versions().drop_last() =~= before.versions());
}

/// The number of bindings grows by one when `insert` binds a new key and stays
/// the same when it rebinds an old one; `remove` shrinks it by one when the key
/// was bound and leaves the bindings as they were otherwise.
pub proof fn sizes_after_insert_and_remove(m: Map<Seq<char>, i32>, key: Seq<char>, value: i32)
    requires
        m.dom().finite(),
    ensures
        m.insert(key, value).dom().finite(),
        m.insert(key, value).len() == m.len() + (if m.contains_key(key) {
            0int
        } else {
            1int
        }),
        m.remove(key).dom().finite(),
        m.remove(key).len() == m.len() - (if m.contains_key(key) {
            1int
        } else {
            0int
        }),
        !m.contains_key(key) ==> m.remove(key) == m,
{
    if !m.contains_key(key) {
        assert(m.remove(key) =~= m);
    }
}

} // verus!
