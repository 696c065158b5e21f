//! The hashed collections of the rustc_hash crate, as far as the printer uses them.

use rustc_hash::FxBuildHasher;
use std::collections::{HashMap, HashSet};
use vstd::prelude::*;

verus! {

/// `FxBuildHasher` of the rustc_hash crate: the hasher of the maps and sets that the
/// printer is handed. Nothing is said of it.
#[verifier::external_type_specification]
#[verifier::external_body]
pub struct ExFxBuildHasher(FxBuildHasher);

/// What a map from strings to strings holds.
pub uninterp spec fn fx_map_entries(map: HashMap<String, String, FxBuildHasher>) -> Map<
    Seq<char>,
    Seq<char>,
>;

/// What a set of strings holds.
pub uninterp spec fn fx_set_members(set: HashSet<String, FxBuildHasher>) -> Set<Seq<char>>;

/// `HashMap::get` on a map of rustc_hash: the value that the map holds for the key, and
/// `None` where it holds none.
#[verifier::external_body]
pub(crate) fn fx_map_get<'a>(map: &'a HashMap<String, String, FxBuildHasher>, key: &str) -> (value:
    Option<&'a String>)
    ensures
        match value {
            Some(v) => fx_map_entries(*map).contains_key(key@) && fx_map_entries(*map)[key@]
                == v@,
            None => !fx_map_entries(*map).contains_key(key@),
        },
{
    map.get(key)
}

/// `HashSet::default` for a set of rustc_hash: a set that holds nothing.
#[verifier::external_body]
pub(crate) fn fx_set_new() -> (set: HashSet<String, FxBuildHasher>)
    ensures
        fx_set_members(set) == Set::<Seq<char>>::empty(),
{
    HashSet::default()
}

/// `HashSet::insert` on a set of rustc_hash: the value is in the set afterwards, and the
/// answer says whether it was new.
#[verifier::external_body]
pub(crate) fn fx_set_insert(set: &mut HashSet<String, FxBuildHasher>, value: String) -> (fresh:
    bool)
    ensures
        fx_set_members(*final(set)) == fx_set_members(*old(set)).insert(value@),
        fresh == !fx_set_members(*old(set)).contains(value@),
{
    set.insert(value)
}

} // verus!
