//! The concurrent map that carries an invocation's metadata.

use crate::value::TypedValue;
use crate::value::TypedValueView;
use dashmap::DashMap;
use vstd::prelude::*;

verus! {

/// `dashmap::DashMap`, a sharded concurrent hash map.
#[verifier::external_type_specification]
#[verifier::external_body]
#[verifier::reject_recursive_types(K)]
#[verifier::reject_recursive_types(V)]
#[verifier::reject_recursive_types(S)]
pub struct ExDashMap<K, V, S>(DashMap<K, V, S>);

/// What a metadata map holds: for each key that is present, its value.
pub uninterp spec fn entries(map: DashMap<String, TypedValue>) -> Map<Seq<char>, TypedValueView>;

/// `DashMap::new`: a map that holds nothing.
#[verifier::external_body]
pub(crate) fn new_map() -> (map: DashMap<String, TypedValue>)
    ensures
        entries(map) =~= Map::empty(),
{
    DashMap::new()
}

/// `DashMap::insert`: afterwards the key has the given value and every other
/// key is as before; the value that the key had, if it had one, comes back.
#[verifier::external_body]
pub(crate) fn insert(map: &mut DashMap<String, TypedValue>, key: String, value: TypedValue) -> (previous:
    Option<TypedValue>)
    ensures
        entries(*final(map)) == entries(*old(map)).insert(key@, value@),
        previous is Some == entries(*old(map)).contains_key(key@),
        previous matches Some(v) ==> v@ == entries(*old(map))[key@],
{
    map.insert(key, value)
}

/// `DashMap::get`, and a copy of the value it refers to: the value of the
/// key where the key is present, nothing where it is not.
#[verifier::external_body]
pub(crate) fn get(map: &DashMap<String, TypedValue>, key: &str) -> (value: Option<TypedValue>)
    ensures
        value is Some == entries(*map).contains_key(key@),
        value matches Some(v) ==> v@ == entries(*map)[key@],
{
    match map.get(key) {
        Some(entry) => Some(entry.value().clone()),
        None => None,
    }
}

/// `DashMap::contains_key`: whether the key is present.
#[verifier::external_body]
pub(crate) fn contains_key(map: &DashMap<String, TypedValue>, key: &str) -> (present: bool)
    ensures
        present == entries(*map).contains_key(key@),
{
    map.contains_key(key)
}

/// `DashMap::clone`: a second map that holds what this one holds.
#[verifier::external_body]
pub(crate) fn snapshot(map: &DashMap<String, TypedValue>) -> (copy: DashMap<String, TypedValue>)
    ensures
        entries(copy) == entries(*map),
{
    map.clone()
}

} // verus!
