//! A versioned, single-writer state container: a persistent key/value state
//! whose every write keeps the previous version, linear undo histories with a
//! cursor, a reducer-driven store fed through a channel, and a small set of
//! brand-typed components.
use vstd::prelude::*;

pub mod branded;
pub mod history;
pub mod simple;
pub mod persistent;
pub mod state;
pub mod store;

verus! {

} // verus!
