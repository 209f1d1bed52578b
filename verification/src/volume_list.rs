//! The list of volumes that a volume group shows: volumes keyed by their name,
//! in the order in which they were first added.
//!
//! Each entry holds the volume's name and a handle by which the caller finds the
//! volume object again. Whether that object is still alive is the caller's to
//! say: the list is told it, as one flag per position, where it counts the
//! volumes in use.

use vstd::prelude::*;
use crate::index_map::{index_map_entries, index_map_get_index, index_map_insert_full, index_map_len, index_map_new, index_map_shift_remove_full, inserted, position_of_name, removed};

verus! {

/// The keys of the entries are pairwise distinct.
pub open spec fn names_unique(s: Seq<(Seq<char>, u64)>) -> bool {
    forall|i: int, j: int| 0 <= i < s.len() && 0 <= j < s.len() && i != j ==> #[trigger] s[i].0 != #[trigger] s[j].0
}

/// Whether the entries hold one with key `name`.
pub open spec fn has_name(s: Seq<(Seq<char>, u64)>, name: Seq<char>) -> bool {
    exists|i: int| 0 <= i < s.len() && #[trigger] s[i].0 == name
}

/// The number of flags set in `alive`.
pub open spec fn count_alive(alive: Seq<bool>) -> nat
    decreases alive.len(),
{
    if alive.len() == 0 {
        0
    } else {
        count_alive(alive.drop_last()) + if alive.last() { 1nat } else { 0nat }
    }
}

/// A change of the list's items as a list model reports it: at `position`,
/// `removed` items went and `added` items came.
#[derive(Clone, Copy, Debug, PartialEq, Eq)]
pub struct ItemsChanged {
    pub position: u32,
    pub removed: u32,
    pub added: u32,
}

/// The two read-only properties of a volume list.
#[derive(Clone, Copy, Debug, PartialEq, Eq)]
pub enum ListProperty {
    /// The number of volumes.
    Len,
    /// The number of volumes whose object is still alive.
    Used,
}

/// The volumes of a list, keyed by name.
pub struct SimpleVolumeList {
    entries: indexmap::IndexMap<String, u64>,
}

impl View for SimpleVolumeList {
    type V = Seq<(Seq<char>, u64)>;

    closed spec fn view(&self) -> Seq<(Seq<char>, u64)> {
        index_map_entries(self.entries)
    }
}

/// In entries with distinct keys, the position of a key is where it stands.
pub proof fn lemma_position_of_present(s: Seq<(Seq<char>, u64)>, name: Seq<char>, i: int)
    requires
        names_unique(s),
        0 <= i < s.len(),
        s[i].0 == name,
    ensures
        position_of_name(s, name) == i,
{
}

proof fn lemma_position_of_absent(s: Seq<(Seq<char>, u64)>, name: Seq<char>)
    ensures
        position_of_name(s, name) < 0 <==> !has_name(s, name),
        position_of_name(s, name) >= 0 ==> {
            let j = position_of_name(s, name);
            0 <= j < s.len() && s[j].0 == name
        },
{
}

/// Inserting keeps the keys distinct.
proof fn lemma_inserted_unique(s: Seq<(Seq<char>, u64)>, name: Seq<char>, value: u64)
    requires
        names_unique(s),
    ensures
        names_unique(inserted(s, name, value)),
        has_name(inserted(s, name, value), name),
{
    lemma_position_of_absent(s, name);
    let t = inserted(s, name, value);
    let j = position_of_name(s, name);
    if j >= 0 {
        assert(t[j].0 == name);
    } else {
        assert(t[s.len() as int].0 == name);
    }
}

/// Removing keeps the keys distinct, and the key is gone.
proof fn lemma_removed_unique(s: Seq<(Seq<char>, u64)>, name: Seq<char>)
    requires
        names_unique(s),
    ensures
        names_unique(removed(s, name)),
        !has_name(removed(s, name), name),
{
    lemma_position_of_absent(s, name);
    let j = position_of_name(s, name);
    if j >= 0 {
        let t = s.remove(j);
        assert forall|a: int, b: int| 0 <= a < t.len() && 0 <= b < t.len() && a != b implies #[trigger] t[a].0 != #[trigger] t[b].0 by {
            let sa = if a < j { a } else { a + 1 };
            let sb = if b < j { b } else { b + 1 };
            assert(t[a] == s[sa]);
            assert(t[b] == s[sb]);
        }
        assert forall|a: int| 0 <= a < t.len() implies #[trigger] t[a].0 != name by {
            let sa = if a < j { a } else { a + 1 };
            assert(t[a] == s[sa]);
        }
    }
}


/// Removing a volume that was just added under a new name gives back the list
/// as it was before the addition.
pub proof fn lemma_remove_undoes_add(s: Seq<(Seq<char>, u64)>, name: Seq<char>, handle: u64)
    requires
        names_unique(s),
        !has_name(s, name),
    ensures
        removed(inserted(s, name, handle), name) == s,
{
    lemma_position_of_absent(s, name);
    let t = s.push((name, handle));
    assert(inserted(s, name, handle) == t);
    lemma_inserted_unique(s, name, handle);
    lemma_position_of_present(t, name, s.len() as int);
    assert(t.remove(s.len() as int) =~= s);
}

/// Adding a volume under a name it already has keeps one entry, in its place,
/// with the later handle.
pub proof fn lemma_add_twice_keeps_last(s: Seq<(Seq<char>, u64)>, name: Seq<char>, first: u64, second: u64)
    requires
        names_unique(s),
    ensures
        inserted(inserted(s, name, first), name, second) == inserted(s, name, second),
{
    lemma_position_of_absent(s, name);
    lemma_inserted_unique(s, name, first);
    let t = inserted(s, name, first);
    let j = position_of_name(s, name);
    if j >= 0 {
        lemma_position_of_present(t, name, j);
        assert(inserted(t, name, second) =~= inserted(s, name, second));
    } else {
        lemma_position_of_present(t, name, s.len() as int);
        assert(inserted(t, name, second) =~= inserted(s, name, second));
    }
}

/// Adding a volume leaves the other names as they were, and removing one takes
/// out that name alone.
pub proof fn lemma_other_names_untouched(s: Seq<(Seq<char>, u64)>, name: Seq<char>, other: Seq<char>, handle: u64)
    requires
        names_unique(s),
        other != name,
    ensures
        has_name(inserted(s, name, handle), other) == has_name(s, other),
        has_name(removed(s, name), other) == has_name(s, other),
{
    lemma_position_of_absent(s, name);
    let j = position_of_name(s, name);
    let t = inserted(s, name, handle);
    if has_name(s, other) {
        let k = choose|k: int| 0 <= k < s.len() && #[trigger] s[k].0 == other;
        assert(t[k].0 == other);
        if j >= 0 {
            let r = s.remove(j);
            let rk = if k < j { k } else { k - 1 };
            assert(r[rk] == s[k]);
        }
    }
    if has_name(t, other) {
        let k = choose|k: int| 0 <= k < t.len() && #[trigger] t[k].0 == other;
        if j < 0 && k == s.len() {
            assert(t[k].0 == name);
        } else {
            assert(s[k].0 == other);
        }
    }
    if j >= 0 && has_name(s.remove(j), other) {
        let r = s.remove(j);
        let k = choose|k: int| 0 <= k < r.len() && #[trigger] r[k].0 == other;
        let sk = if k < j { k } else { k + 1 };
        assert(s[sk].0 == other);
    }
}

/// The number in use counts every live volume: none in an empty list, one for a
/// single live volume and none for a single dead one, and the counts of two
/// parts of a list add up to that of the whole.
pub proof fn lemma_used_counts_each_alive(a: Seq<bool>, b: Seq<bool>, flag: bool)
    ensures
        count_alive(Seq::<bool>::empty()) == 0,
        count_alive(seq![flag]) == if flag { 1nat } else { 0nat },
        count_alive(a + b) == count_alive(a) + count_alive(b),
    decreases b.len(),
{
    assert(seq![flag].drop_last() =~= Seq::<bool>::empty());
    if b.len() == 0 {
        assert(a + b =~= a);
    } else {
        lemma_used_counts_each_alive(a, b.drop_last(), flag);
        assert((a + b).drop_last() =~= a + b.drop_last());
        assert((a + b).last() == b.last());
    }
}

/// The number in use is the number of live volumes: the length of the flags
/// that are set.
pub proof fn lemma_used_is_filter_len(alive: Seq<bool>)
    ensures
        count_alive(alive) == alive.filter(|x: bool| x).len(),
    decreases alive.len(),
{
    reveal(Seq::filter);
    if alive.len() > 0 {
        lemma_used_is_filter_len(alive.drop_last());
    }
}

/// No more volumes are in use than the list holds.
pub proof fn lemma_used_at_most_len(alive: Seq<bool>)
    ensures
        count_alive(alive) <= alive.len(),
    decreases alive.len(),
{
    if alive.len() > 0 {
        lemma_used_at_most_len(alive.drop_last());
    }
}

/// Every volume of the list is in use (so that the list model hands out an item
/// at every position) exactly when the number in use is the length of the list.
pub proof fn lemma_all_used_iff_full(alive: Seq<bool>)
    ensures
        count_alive(alive) == alive.len() <==> forall|i: int| 0 <= i < alive.len() ==> #[trigger] alive[i],
    decreases alive.len(),
{
    if alive.len() > 0 {
        let init = alive.drop_last();
        lemma_all_used_iff_full(init);
        lemma_used_at_most_len(init);
        if count_alive(alive) == alive.len() {
            assert forall|i: int| 0 <= i < alive.len() implies #[trigger] alive[i] by {
                if i < init.len() {
                    assert(init[i] == alive[i]);
                }
            }
        }
        if forall|i: int| 0 <= i < alive.len() ==> #[trigger] alive[i] {
            assert forall|i: int| 0 <= i < init.len() implies #[trigger] init[i] by {
                assert(init[i] == alive[i]);
            }
            assert(alive[alive.len() - 1]);
        }
    }
}

impl SimpleVolumeList {
    /// The list is well formed: no two volumes share a name.
    pub open spec fn wf(&self) -> bool {
        names_unique(self@)
    }

    /// An empty list.
    pub fn new() -> (list: Self)
        ensures
            list.wf(),
            list@ == Seq::<(Seq<char>, u64)>::empty(),
    {
        SimpleVolumeList { entries: index_map_new() }
    }

    /// The number of items, as the list model reports it (truncated to 32 bits).
    pub fn n_items(&self) -> (n: u32)
        ensures
            n == self@.len() as u32,
    {
        index_map_len(&self.entries) as u32
    }

    /// The number of volumes, as the `len` property reports it.
    pub fn len(&self) -> (n: u32)
        ensures
            n == self@.len() as u32,
    {
        self.n_items()
    }

    /// The handle of the volume at `index`, `None` past the end.
    pub fn get(&self, index: usize) -> (r: Option<u64>)
        ensures
            index < self@.len() ==> r == Some(self@[index as int].1),
            index >= self@.len() ==> r is None,
    {
        index_map_get_index(&self.entries, index)
    }

    /// The handle of the item at `position`, as the list model hands it out.
    pub fn item(&self, position: u32) -> (r: Option<u64>)
        ensures
            position < self@.len() ==> r == Some(self@[position as int].1),
            position >= self@.len() ==> r is None,
    {
        self.get(position as usize)
    }

    /// Adds the volume `name` with `handle`. A volume of that name keeps its
    /// place and takes the new handle, and its former handle comes back;
    /// otherwise the volume is appended. The change reported is always one item
    /// added at the volume's position.
    pub fn add_volume(&mut self, name: String, handle: u64) -> (r: (ItemsChanged, Option<u64>))
        requires
            old(self).wf(),
        ensures
            final(self).wf(),
            final(self)@ == inserted(old(self)@, name@, handle),
            has_name(old(self)@, name@) ==> final(self)@.len() == old(self)@.len(),
            !has_name(old(self)@, name@) ==> final(self)@.len() == old(self)@.len() + 1,
            0 <= position_of_name(final(self)@, name@) < final(self)@.len(),
            final(self)@[position_of_name(final(self)@, name@)] == (name@, handle),
            r.0 == (ItemsChanged {
                position: position_of_name(final(self)@, name@) as u32,
                removed: 0,
                added: 1,
            }),
            has_name(old(self)@, name@) ==> r.1 == Some(old(self)@[position_of_name(old(self)@, name@)].1),
            !has_name(old(self)@, name@) ==> r.1 is None,
            has_name(old(self)@, name@) ==> position_of_name(final(self)@, name@) == position_of_name(old(self)@, name@),
            !has_name(old(self)@, name@) ==> position_of_name(final(self)@, name@) == old(self)@.len(),
    {
        let ghost s = self@;
        let ghost n = name@;
        let (index, replaced) = index_map_insert_full(&mut self.entries, name, handle);
        proof {
            lemma_position_of_absent(s, n);
            lemma_inserted_unique(s, n, handle);
            let j = position_of_name(s, n);
            if j >= 0 {
                lemma_position_of_present(self@, n, j);
            } else {
                lemma_position_of_present(self@, n, s.len() as int);
            }
        }
        (ItemsChanged { position: index as u32, removed: 0, added: 1 }, replaced)
    }

    /// Removes the volume `name`, the volumes after it moving up one place. Gives
    /// back the change (one item removed at its former position) and its handle;
    /// `None`, and no change, where there is no volume of that name.
    pub fn remove_volume(&mut self, name: &str) -> (r: Option<(ItemsChanged, u64)>)
        requires
            old(self).wf(),
        ensures
            final(self).wf(),
            final(self)@ == removed(old(self)@, name@),
            !has_name(final(self)@, name@),
            has_name(old(self)@, name@) ==> {
                let j = position_of_name(old(self)@, name@);
                &&& 0 <= j < old(self)@.len()
                &&& old(self)@[j].0 == name@
                &&& final(self)@.len() == old(self)@.len() - 1
                &&& r == Some((ItemsChanged { position: j as u32, removed: 1, added: 0 }, old(self)@[j].1))
            },
            !has_name(old(self)@, name@) ==> r is None && final(self)@ == old(self)@,
    {
        let ghost s = self@;
        proof {
            lemma_position_of_absent(s, name@);
            lemma_removed_unique(s, name@);
        }
        match index_map_shift_remove_full(&mut self.entries, name) {
            Some((index, _, handle)) => Some((ItemsChanged { position: index as u32, removed: 1, added: 0 }, handle)),
            None => None,
        }
    }

    /// The number of volumes whose object is alive, `alive` giving one flag per
    /// position (truncated to 32 bits, as the `used` property reports it).
    pub fn used(&self, alive: &Vec<bool>) -> (n: u32)
        requires
            alive@.len() == self@.len(),
        ensures
            n == #[verifier::truncate] (count_alive(alive@) as u32),
            n == #[verifier::truncate] (alive@.filter(|x: bool| x).len() as u32),
    {
        proof {
            lemma_used_is_filter_len(alive@);
        }
        let len = alive.len();
        let mut count: usize = 0;
        let mut i: usize = 0;
        while i < len
            invariant
                len == alive@.len(),
                i <= len,
                count == count_alive(alive@.take(i as int)),
                count <= i,
            decreases len - i,
        {
            proof {
                assert(alive@.take(i + 1).drop_last() =~= alive@.take(i as int));
            }
            if alive[i] {
                count = count + 1;
            }
            i = i + 1;
        }
        proof {
            assert(alive@.take(len as int) =~= alive@);
        }
        #[verifier::truncate] (count as u32)
    }

    /// The value of `prop`: the number of volumes, or of those in use.
    pub fn property(&self, prop: ListProperty, alive: &Vec<bool>) -> (n: u32)
        requires
            alive@.len() == self@.len(),
        ensures
            prop == ListProperty::Len ==> n == self@.len() as u32,
            prop == ListProperty::Used ==> n == #[verifier::truncate] (count_alive(alive@) as u32),
    {
        match prop {
            ListProperty::Len => self.len(),
            ListProperty::Used => self.used(alive),
        }
    }
}

/// The properties whose values change when the items change, in the order in
/// which they are notified.
pub fn notified_on_items_changed() -> (props: Vec<ListProperty>)
    ensures
        props@ == seq![ListProperty::Len, ListProperty::Used],
{
    vec![ListProperty::Len, ListProperty::Used]
}

} // verus!
