//! The `indexmap` crate's `IndexMap`, as used by the volume list: its contents
//! are named, and each method that the list calls has a wrapper whose contract
//! states what that method does to the contents.

use vstd::prelude::*;

verus! {

/// `indexmap::IndexMap`, an insertion-ordered hash map.
#[verifier::external_type_specification]
#[verifier::external_body]
#[verifier::reject_recursive_types(K)]
#[verifier::reject_recursive_types(V)]
#[verifier::reject_recursive_types(S)]
pub struct ExIndexMap<K, V, S>(indexmap::IndexMap<K, V, S>);

/// The entries of a map from volume names to volume handles, in the map's order:
/// each entry is a key (by its characters) and its value.
pub uninterp spec fn index_map_entries(m: indexmap::IndexMap<String, u64>) -> Seq<(Seq<char>, u64)>;

/// The position of an entry whose key is `name`, or -1 where there is none
/// (the keys of an `IndexMap` are distinct, so the position is that of the entry).
pub open spec fn position_of_name(s: Seq<(Seq<char>, u64)>, name: Seq<char>) -> int {
    if exists|i: int| 0 <= i < s.len() && #[trigger] s[i].0 == name {
        choose|i: int| 0 <= i < s.len() && #[trigger] s[i].0 == name
    } else {
        -1
    }
}

/// The entries after `name` is inserted with `value`: an entry with that key
/// keeps its place and takes the new value; otherwise the entry is appended.
pub open spec fn inserted(s: Seq<(Seq<char>, u64)>, name: Seq<char>, value: u64) -> Seq<(Seq<char>, u64)> {
    let j = position_of_name(s, name);
    if j >= 0 {
        s.update(j, (s[j].0, value))
    } else {
        s.push((name, value))
    }
}

/// The entries after the entry with key `name` is taken out, the others keeping
/// their order; unchanged where there is no such entry.
pub open spec fn removed(s: Seq<(Seq<char>, u64)>, name: Seq<char>) -> Seq<(Seq<char>, u64)> {
    let j = position_of_name(s, name);
    if j >= 0 {
        s.remove(j)
    } else {
        s
    }
}

/// `IndexMap::new`: claims that the new map has no entries.
#[verifier::external_body]
pub(crate) fn index_map_new() -> (m: indexmap::IndexMap<String, u64>)
    ensures
        index_map_entries(m) == Seq::<(Seq<char>, u64)>::empty(),
{
    indexmap::IndexMap::new()
}

/// `IndexMap::len`: claims that the result is the number of entries.
#[verifier::external_body]
pub(crate) fn index_map_len(m: &indexmap::IndexMap<String, u64>) -> (n: usize)
    ensures
        n == index_map_entries(*m).len(),
{
    m.len()
}

/// `IndexMap::get_index`, keeping the value: claims that the result is the value
/// of the entry at `index`, and `None` where `index` is past the last entry.
#[verifier::external_body]
pub(crate) fn index_map_get_index(m: &indexmap::IndexMap<String, u64>, index: usize) -> (r: Option<u64>)
    ensures
        index < index_map_entries(*m).len() ==> r == Some(index_map_entries(*m)[index as int].1),
        index >= index_map_entries(*m).len() ==> r is None,
{
    m.get_index(index).map(|(_, v)| *v)
}

/// `IndexMap::insert_full`: claims that an entry with an equal key keeps its
/// place and key, takes `value`, and that its position and old value come back;
/// otherwise the entry is appended and its position comes back with `None`.
#[verifier::external_body]
pub(crate) fn index_map_insert_full(m: &mut indexmap::IndexMap<String, u64>, key: String, value: u64) -> (r: (usize, Option<u64>))
    ensures
        index_map_entries(*final(m)) == inserted(index_map_entries(*old(m)), key@, value),
        position_of_name(index_map_entries(*old(m)), key@) >= 0 ==> {
            &&& r.0 == position_of_name(index_map_entries(*old(m)), key@)
            &&& r.1 == Some(index_map_entries(*old(m))[r.0 as int].1)
        },
        position_of_name(index_map_entries(*old(m)), key@) < 0 ==> {
            &&& r.0 == index_map_entries(*old(m)).len()
            &&& r.1 is None
        },
{
    m.insert_full(key, value)
}

/// `IndexMap::shift_remove_full`: claims that the entry with key `key` is taken
/// out, the entries after it moving up one place in the same order, and that its
/// position, key and value come back; `None` and no change where there is none.
#[verifier::external_body]
pub(crate) fn index_map_shift_remove_full(m: &mut indexmap::IndexMap<String, u64>, key: &str) -> (r: Option<(usize, String, u64)>)
    ensures
        index_map_entries(*final(m)) == removed(index_map_entries(*old(m)), key@),
        position_of_name(index_map_entries(*old(m)), key@) >= 0 ==> (r matches Some((i, k, v)) && {
            &&& i == position_of_name(index_map_entries(*old(m)), key@)
            &&& k@ == key@
            &&& v == index_map_entries(*old(m))[i as int].1
        }),
        position_of_name(index_map_entries(*old(m)), key@) < 0 ==> r is None,
{
    m.shift_remove_full(key)
}

} // verus!
