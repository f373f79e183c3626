//! The persistent collections of `im` that the library builds on: their types
//! declared to the verifier, names for what a value of them holds, and one
//! trusted wrapper per method that the verified code calls.
use vstd::prelude::*;

verus! {

#[verifier::external_type_specification]
#[verifier::external_body]
#[verifier::reject_recursive_types(A)]
pub struct ExVector<A>(im::Vector<A>);

#[verifier::external_type_specification]
#[verifier::external_body]
#[verifier::reject_recursive_types(K)]
#[verifier::reject_recursive_types(V)]
#[verifier::reject_recursive_types(S)]
pub struct ExHashMap<K, V, S>(im::HashMap<K, V, S>);

/// A persistent map from text keys to integers.
pub type Bindings = im::HashMap<String, i32>;

/// The bindings of a persistent map, as a mathematical map.
pub type BindingsModel = Map<Seq<char>, i32>;

/// The snapshots held by a vector of strings, front (index 0) first.
pub uninterp spec fn text_items(v: im::Vector<String>) -> Seq<Seq<char>>;

/// The key/value bindings held by a persistent map.
pub uninterp spec fn bindings(m: im::HashMap<String, i32>) -> Map<Seq<char>, i32>;

/// The maps held by a vector of maps, front (index 0) first, each as its bindings.
pub uninterp spec fn map_items(v: im::Vector<Bindings>) -> Seq<Map<Seq<char>, i32>>;

/// Relies on `im::Vector::new`: a new vector is empty.
#[verifier::external_body]
pub(crate) fn text_vector_new() -> (r: im::Vector<String>)
    ensures
        text_items(r) == Seq::<Seq<char>>::empty(),
{
    im::Vector::new()
}

/// Relies on `im::Vector::push_front`: the value becomes index 0 and the
/// earlier items move one place back.
#[verifier::external_body]
pub(crate) fn text_vector_push_front(v: &mut im::Vector<String>, value: String)
    requires
        text_items(*old(v)).len() < usize::MAX,
    ensures
        text_items(*final(v)) == seq![value@] + text_items(*old(v)),
{
    v.push_front(value)
}

/// Relies on `im::Vector::len`: the number of items.
#[verifier::external_body]
pub(crate) fn text_vector_len(v: &im::Vector<String>) -> (r: usize)
    ensures
        r == text_items(*v).len(),
{
    v.len()
}

/// Relies on `im::Vector::get`: the item at `index`, or `None` past the end.
#[verifier::external_body]
pub(crate) fn text_vector_get(v: &im::Vector<String>, index: usize) -> (r: Option<String>)
    ensures
        index < text_items(*v).len() ==> r is Some && r->0@ == text_items(*v)[index as int],
        index >= text_items(*v).len() ==> r is None,
{
    v.get(index).cloned()
}

/// Relies on `im::HashMap::new`: a new map holds no binding.
#[verifier::external_body]
pub(crate) fn map_new() -> (r: Bindings)
    ensures
        bindings(r) == BindingsModel::empty(),
{
    im::HashMap::new()
}

/// Relies on `im::HashMap`'s `Clone`: the copy shares the original's nodes and
/// holds the same bindings, of which a map holds finitely many.
#[verifier::external_body]
pub(crate) fn map_clone(m: &Bindings) -> (r: Bindings)
    ensures
        bindings(r) == bindings(*m),
        bindings(r).dom().finite(),
{
    m.clone()
}

/// Relies on `im::HashMap::insert`: `key` is bound to `value`, replacing any
/// earlier binding of it; the other bindings stay.
#[verifier::external_body]
pub(crate) fn map_insert(m: &mut Bindings, key: String, value: i32)
    ensures
        bindings(*final(m)) == bindings(*old(m)).insert(key@, value),
{
    m.insert(key, value);
}

/// Relies on `im::HashMap::remove`: the binding of `key`, if any, is gone; the
/// other bindings stay.
#[verifier::external_body]
pub(crate) fn map_remove(m: &mut Bindings, key: &str)
    ensures
        bindings(*final(m)) == bindings(*old(m)).remove(key@),
{
    m.remove(key);
}

/// Relies on `im::HashMap::len`: the number of bindings.
#[verifier::external_body]
pub(crate) fn map_len(m: &Bindings) -> (r: usize)
    ensures
        r == bindings(*m).len(),
{
    m.len()
}

/// Relies on `im::HashMap::get`: the value bound to `key`, if any.
#[verifier::external_body]
pub(crate) fn map_get(m: &Bindings, key: &str) -> (r: Option<i32>)
    ensures
        r == (if bindings(*m).contains_key(key@) {
            Some(bindings(*m)[key@])
        } else {
            None
        }),
{
    m.get(key).cloned()
}

/// Relies on `im::Vector::new`: a new vector is empty.
#[verifier::external_body]
pub(crate) fn map_vector_new() -> (r: im::Vector<Bindings>)
    ensures
        map_items(r) == Seq::<BindingsModel>::empty(),
{
    im::Vector::new()
}

/// Relies on `im::Vector::push_back`: the map becomes the last item.
#[verifier::external_body]
pub(crate) fn map_vector_push_back(
    v: &mut im::Vector<Bindings>,
    value: Bindings,
)
    requires
        map_items(*old(v)).len() < usize::MAX,
    ensures
        map_items(*final(v)) == map_items(*old(v)).push(bindings(value)),
{
    v.push_back(value)
}

/// Relies on `im::Vector`'s `Clone`: the copy shares the original's nodes and
/// holds the same items.
#[verifier::external_body]
pub(crate) fn map_vector_clone(v: &im::Vector<Bindings>) -> (r: im::Vector<Bindings>)
    ensures
        map_items(r) == map_items(*v),
{
    v.clone()
}

/// Relies on `im::Vector::len`: the number of items.
#[verifier::external_body]
pub(crate) fn map_vector_len(v: &im::Vector<Bindings>) -> (r: usize)
    ensures
        r == map_items(*v).len(),
{
    v.len()
}

} // verus!
