//! Names and the slots that they stand for, in a `dashmap::DashMap`.

use dashmap::DashMap;
use vstd::prelude::*;

verus! {

/// `dashmap::DashMap`.
#[verifier::external_type_specification]
#[verifier::external_body]
#[verifier::reject_recursive_types(K)]
#[verifier::reject_recursive_types(V)]
#[verifier::reject_recursive_types(S)]
pub struct ExDashMap<K, V, S>(DashMap<K, V, S>);

/// The slot of each name that a map holds.
pub uninterp spec fn slots(names: DashMap<String, usize>) -> Map<Seq<char>, usize>;

/// `DashMap::new`. Trusted: the map is empty.
#[verifier::external_body]
pub(crate) fn no_names() -> (names: DashMap<String, usize>)
    ensures
        (slots(names) == Map::<Seq<char>, usize>::empty()),
{
    DashMap::new()
}

/// `DashMap::get`. Trusted: it finds the value that the map holds for the key, if any.
#[verifier::external_body]
pub(crate) fn slot_of(names: &DashMap<String, usize>, name: &str) -> (slot: Option<usize>)
    ensures
        slot == if slots(*names).contains_key(name@) {
            Some(slots(*names)[name@])
        } else {
            None
        },
{
    names.get(name).map(|entry| *entry.value())
}

/// `DashMap::contains_key`. Trusted: it tells whether the map holds the key.
#[verifier::external_body]
pub(crate) fn has_name(names: &DashMap<String, usize>, name: &str) -> (has: bool)
    ensures
        has == slots(*names).contains_key(name@),
{
    names.contains_key(name)
}

/// `DashMap::insert`, on a map that nobody else holds. Trusted: afterwards the map holds the
/// value for the key, and for every other key what it held before.
#[verifier::external_body]
pub(crate) fn add_name(names: &mut DashMap<String, usize>, name: String, slot: usize)
    ensures
        slots(*final(names)) == slots(*old(names)).insert(name@, slot),
{
    names.insert(name, slot);
}

} // verus!
