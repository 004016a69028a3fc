//! Binding-set layouts of a pipeline and the filtering of candidate bindings
//! against them.
use crate::binding::BindGroupLayoutEntry;
use crate::listing::is_key_listing;
use crate::listing::is_listing;
use crate::listing::listed_keys;
use crate::table::table_view;
use crate::table::SlotMap;
use crate::table::TableMap;
use std::collections::BTreeMap;
use std::collections::HashSet;
use vstd::prelude::*;

verus! {

/// One candidate binding: the slot it is meant for and the resource to bind.
pub struct BindGroupEntry<R> {
    pub binding: u32,
    pub resource: R,
}

/// Layout of one binding set: the entries of its slots, in increasing order
/// of the slots under which the table holds them, and the slot ids that
/// they declare.
pub struct SetLayout {
    pub entries: Vec<BindGroupLayoutEntry>,
    pub binding_ids: HashSet<u32>,
}

/// The layouts of all binding sets of a pipeline, by their set ids. The
/// place of a set among the set ids in increasing order is its index in the
/// pipeline layout.
pub struct BindGroupLayouts {
    inner: BTreeMap<u32, SetLayout>,
}

/// The layouts of the binding sets, as a mathematical map.
pub type LayoutMap = Map<u32, SetLayout>;

/// Whether `entries` lists the values of `slots` in increasing order of their
/// keys.
pub open spec fn lists_slots(slots: SlotMap, entries: Seq<BindGroupLayoutEntry>) -> bool {
    exists|keys: Seq<u32>| is_listing(slots, keys, entries)
}

/// Whether some entry of `entries` has the slot id `slot`.
pub open spec fn lists_slot(entries: Seq<BindGroupLayoutEntry>, slot: u32) -> bool {
    exists|j: int| 0 <= j < entries.len() && (#[trigger] entries[j]).binding == slot
}

/// Whether `layout` is the layout of a set with the slots `slots`: its
/// entries list the slots, and its slot ids are those of its entries.
pub open spec fn lays_out(layout: SetLayout, slots: SlotMap) -> bool {
    &&& lists_slots(slots, layout.entries@)
    &&& forall|slot: u32| #[trigger]
        layout.binding_ids@.contains(slot) <==> lists_slot(layout.entries@, slot)
}

/// Whether `layouts` describes the table `table`: one layout for each set,
/// each laying out the slots of its set.
pub open spec fn describes(layouts: LayoutMap, table: TableMap) -> bool {
    &&& forall|set: u32| #[trigger] layouts.contains_key(set) <==> table.contains_key(set)
    &&& forall|set: u32| #[trigger] layouts.contains_key(set) ==> lays_out(layouts[set], table[set])
}

/// Whether a layout exists for `set`.
pub open spec fn has_set(layouts: LayoutMap, set: u32) -> bool {
    layouts.contains_key(set)
}

/// Whether the layout of `set` declares the slot id `slot`.
pub open spec fn declares(layouts: LayoutMap, set: u32, slot: u32) -> bool {
    layouts.contains_key(set) && layouts[set].binding_ids@.contains(slot)
}

/// The entries of `slots` in increasing order of their keys.
fn listed_entries(slots: &BTreeMap<u32, BindGroupLayoutEntry>) -> (entries: Vec<BindGroupLayoutEntry>)
    ensures
        lists_slots(slots@, entries@),
{
    let keys = listed_keys(slots);
    let mut entries: Vec<BindGroupLayoutEntry> = Vec::new();
    let mut j: usize = 0;
    while j < keys.len()
        invariant
            j <= keys.len(),
            is_key_listing(slots@, keys@),
            entries@.len() == j,
            forall|k: int| 0 <= k < j ==> entries@[k] == slots@[#[trigger] keys@[k]],
        decreases keys.len() - j,
    {
        assert(keys@.contains(keys@[j as int]));
        match slots.get(&keys[j]) {
            Some(entry) => entries.push(*entry),
            None => {
                assert(false);
            },
        }
        j = j + 1;
    }
    assert(is_listing(slots@, keys@, entries@));
    entries
}

/// The slot ids of `entries`.
fn slot_ids(entries: &Vec<BindGroupLayoutEntry>) -> (ids: HashSet<u32>)
    ensures
        forall|slot: u32| #[trigger] ids@.contains(slot) <==> lists_slot(entries@, slot),
{
    let mut ids: HashSet<u32> = HashSet::new();
    let mut j: usize = 0;
    while j < entries.len()
        invariant
            j <= entries.len(),
            forall|slot: u32| #[trigger]
                ids@.contains(slot) <==> lists_slot(entries@.take(j as int), slot),
        decreases entries.len() - j,
    {
        let ghost before = entries@.take(j as int);
        let ghost after = entries@.take(j as int + 1);
        ids.insert(entries[j].binding);
        assert forall|slot: u32| #[trigger] ids@.contains(slot) <==> lists_slot(after, slot) by {
            if lists_slot(before, slot) {
                let k = choose|k: int| 0 <= k < before.len() && (#[trigger] before[k]).binding == slot;
                assert(after[k].binding == slot);
            }
            if slot == entries@[j as int].binding {
                assert(after[j as int].binding == slot);
            }
            if lists_slot(after, slot) {
                let k = choose|k: int| 0 <= k < after.len() && (#[trigger] after[k]).binding == slot;
                if k < j {
                    assert(before[k].binding == slot);
                }
            }
        }
        j = j + 1;
    }
    assert(entries@.take(j as int) =~= entries@);
    ids
}

impl BindGroupLayouts {
    /// The layouts, by their set ids.
    pub closed spec fn spec_layouts(self) -> LayoutMap {
        self.inner@
    }

    /// Builds the layout of every binding set of `bindings`: for each set the
    /// entries of its slots in increasing order of the slots, and the slot
    /// ids that these entries declare.
    pub fn new(bindings: &BTreeMap<u32, BTreeMap<u32, BindGroupLayoutEntry>>) -> (layouts: Self)
        ensures
            describes(layouts.spec_layouts(), table_view(*bindings)),
    {
        let sets = listed_keys(bindings);
        let mut inner: BTreeMap<u32, SetLayout> = BTreeMap::new();
        let mut i: usize = 0;
        while i < sets.len()
            invariant
                i <= sets.len(),
                is_key_listing(bindings@, sets@),
                forall|set: u32| #[trigger]
                    inner@.contains_key(set) <==> sets@.take(i as int).contains(set),
                forall|set: u32| #[trigger]
                    inner@.contains_key(set) ==> lays_out(inner@[set], table_view(*bindings)[set]),
            decreases sets.len() - i,
        {
            let set = sets[i];
            assert(sets@.contains(set));
            let ghost before = sets@.take(i as int);
            let ghost after = sets@.take(i as int + 1);
            assert(after =~= before.push(set));
            match bindings.get(&set) {
                Some(slots) => {
                    let entries = listed_entries(slots);
                    let binding_ids = slot_ids(&entries);
                    inner.insert(set, SetLayout { entries, binding_ids });
                },
                None => {
                    assert(false);
                },
            }
            assert forall|other: u32| #[trigger] inner@.contains_key(other) <==> after.contains(
                other,
            ) by {
                if before.contains(other) {
                    let k = choose|k: int| 0 <= k < before.len() && before[k] == other;
                    assert(after[k] == other);
                }
                if other == set {
                    assert(after[i as int] == set);
                }
                if after.contains(other) {
                    let k = choose|k: int| 0 <= k < after.len() && after[k] == other;
                    if k < i {
                        assert(before[k] == other);
                    }
                }
            }
            i = i + 1;
        }
        assert(sets@.take(i as int) =~= sets@);
        assert forall|set: u32| #[trigger] inner@.contains_key(set) <==> table_view(
            *bindings,
        ).contains_key(set) by {
            assert(table_view(*bindings).contains_key(set) == bindings@.contains_key(set));
        }
        BindGroupLayouts { inner }
    }

    /// The layouts, by their set ids.
    pub fn layouts(&self) -> (layouts: &BTreeMap<u32, SetLayout>)
        ensures
            layouts@ == self.spec_layouts(),
    {
        &self.inner
    }

    /// Whether a layout exists for `set`.
    pub fn has_set(&self, set: u32) -> (found: bool)
        ensures
            found == has_set(self.spec_layouts(), set),
    {
        self.inner.contains_key(&set)
    }

    /// Whether the layout of `set` declares the slot id `slot`.
    pub fn declares(&self, set: u32, slot: u32) -> (found: bool)
        ensures
            found == declares(self.spec_layouts(), set, slot),
    {
        match self.inner.get(&set) {
            Some(layout) => layout.binding_ids.contains(&slot),
            None => false,
        }
    }
}

/// The candidates of `entries` that the layout of `set` takes: those whose
/// slot id it declares, in their order.
pub open spec fn retained<R>(layouts: LayoutMap, set: u32, entries: Seq<BindGroupEntry<R>>) -> Seq<
    BindGroupEntry<R>,
> {
    entries.filter(|entry: BindGroupEntry<R>| declares(layouts, set, entry.binding))
}

impl BindGroupLayouts {
    /// Narrows the candidate bindings `entries` to those that the layout of
    /// `set` declares, keeping their order. What is left is what the backend
    /// is to instantiate the binding set from.
    pub fn create_bind_group<R>(&self, set: u32, entries: &mut Vec<BindGroupEntry<R>>)
        requires
            has_set(self.spec_layouts(), set),
        ensures
            final(entries)@ == retained(self.spec_layouts(), set, old(entries)@),
    {
        let ghost keep = |entry: BindGroupEntry<R>|
            declares(self.spec_layouts(), set, entry.binding);
        let ghost all = entries@;
        let ghost mut seen: int = 0;
        let mut i: usize = 0;
        assert(all.take(0).filter(keep) =~= Seq::<BindGroupEntry<R>>::empty()) by {
            reveal(Seq::filter);
        }
        while i < entries.len()
            invariant
                all == old(entries)@,
                keep == (|entry: BindGroupEntry<R>|
                    declares(self.spec_layouts(), set, entry.binding)),
                0 <= seen <= all.len(),
                i <= entries@.len(),
                entries@.len() - i == all.len() - seen,
                entries@.take(i as int) == all.take(seen).filter(keep),
                entries@.skip(i as int) == all.skip(seen),
            decreases entries.len() - i,
        {
            let ghost current = entries@[i as int];
            assert(current == all.skip(seen)[0]);
            assert(all.take(seen + 1) =~= all.take(seen).push(current));
            proof {
                all.take(seen).lemma_filter_push(current, keep);
            }
            let ghost before = entries@;
            assert forall|j: int| 0 <= j < before.len() - i implies (#[trigger] before.skip(
                i as int,
            )[j]) == all[seen + j] by {
                assert(before.skip(i as int)[j] == all.skip(seen)[j]);
            }
            if self.declares(set, entries[i].binding) {
                assert(before.take(i as int + 1) =~= before.take(i as int).push(current));
                let ghost left = before.skip(i as int + 1);
                let ghost right = all.skip(seen + 1);
                assert forall|j: int| 0 <= j < left.len() implies #[trigger] left[j] == right[j] by {
                    assert(before.skip(i as int)[j + 1] == all[seen + (j + 1)]);
                }
                assert(before.skip(i as int + 1) =~= all.skip(seen + 1));
                i = i + 1;
            } else {
                let _ = entries.remove(i);
                assert(entries@.take(i as int) =~= before.take(i as int));
                let ghost left = entries@.skip(i as int);
                let ghost right = all.skip(seen + 1);
                assert forall|j: int| 0 <= j < left.len() implies #[trigger] left[j] == right[j] by {
                    assert(before.skip(i as int)[j + 1] == all[seen + (j + 1)]);
                }
                assert(entries@.skip(i as int) =~= all.skip(seen + 1));
            }
            proof {
                seen = seen + 1;
            }
        }
        assert(all.take(seen) =~= all);
        assert(entries@.take(i as int) =~= entries@);
    }
}

} // verus!
