//! Binding tables: for each binding set, the layout entry of each slot.
use crate::binding::BindGroupLayoutEntry;
use crate::binding::ShaderStages;
use std::collections::BTreeMap;
use vstd::prelude::*;

verus! {

/// Slots of one binding set, as a mathematical map.
pub type SlotMap = Map<u32, BindGroupLayoutEntry>;

/// Binding sets of one shader stage or pipeline, as a mathematical map.
pub type TableMap = Map<u32, SlotMap>;

/// The mathematical map that a binding table stands for.
pub open spec fn table_view(t: BTreeMap<u32, BTreeMap<u32, BindGroupLayoutEntry>>) -> TableMap {
    Map::new(|set: u32| t@.contains_key(set), |set: u32| t@[set]@)
}

/// Union of the slots of one binding set as two stages see it. A slot that
/// both declare is visible to the stages of both; its description is that
/// of `a`, which is that of `b` as well where the two agree.
pub open spec fn merge_slots(a: SlotMap, b: SlotMap) -> SlotMap {
    Map::new(
        |slot: u32| a.contains_key(slot) || b.contains_key(slot),
        |slot: u32|
            if a.contains_key(slot) {
                if b.contains_key(slot) {
                    a[slot].spec_with_stages(b[slot].visibility)
                } else {
                    a[slot]
                }
            } else {
                b[slot]
            },
    )
}

/// Union of two binding tables, set by set.
pub open spec fn merge_tables(a: TableMap, b: TableMap) -> TableMap {
    Map::new(
        |set: u32| a.contains_key(set) || b.contains_key(set),
        |set: u32|
            if a.contains_key(set) {
                if b.contains_key(set) {
                    merge_slots(a[set], b[set])
                } else {
                    a[set]
                }
            } else {
                b[set]
            },
    )
}

/// Whether every slot that both sets declare describes the same resource in
/// both: same slot id, resource kind and count.
pub open spec fn slots_agree(a: SlotMap, b: SlotMap) -> bool {
    forall|slot: u32|
        a.contains_key(slot) && b.contains_key(slot) ==> (#[trigger] a[slot]).spec_same_resource(
            b[slot],
        )
}

/// Whether two tables are free of conflicts: every slot that both declare
/// describes the same resource in both.
pub open spec fn tables_agree(a: TableMap, b: TableMap) -> bool {
    forall|set: u32|
        a.contains_key(set) && b.contains_key(set) ==> slots_agree(#[trigger] a[set], b[set])
}

/// Taking the union of two stage sets does not depend on their order.
pub proof fn lemma_stage_union_commutes(x: ShaderStages, y: ShaderStages)
    ensures
        x.spec_union(y) == y.spec_union(x),
{
    let a = x.bits;
    let b = y.bits;
    assert(a | b == b | a) by (bit_vector);
}

/// Taking the union of three stage sets does not depend on the grouping.
pub proof fn lemma_stage_union_associates(x: ShaderStages, y: ShaderStages, z: ShaderStages)
    ensures
        x.spec_union(y).spec_union(z) == x.spec_union(y.spec_union(z)),
{
    let a = x.bits;
    let b = y.bits;
    let c = z.bits;
    assert((a | b) | c == a | (b | c)) by (bit_vector);
}

/// Merging the slots of one set is commutative where the two sides agree.
pub proof fn lemma_merge_slots_commutes(a: SlotMap, b: SlotMap)
    requires
        slots_agree(a, b),
    ensures
        merge_slots(a, b) == merge_slots(b, a),
{
    assert forall|slot: u32| a.contains_key(slot) && b.contains_key(slot) implies merge_slots(
        a,
        b,
    )[slot] == merge_slots(b, a)[slot] by {
        assert(a[slot].spec_same_resource(b[slot]));
        lemma_stage_union_commutes(a[slot].visibility, b[slot].visibility);
    }
    assert(merge_slots(a, b) =~= merge_slots(b, a));
}

/// Merging the slots of one set is associative.
pub proof fn lemma_merge_slots_associates(a: SlotMap, b: SlotMap, c: SlotMap)
    ensures
        merge_slots(merge_slots(a, b), c) == merge_slots(a, merge_slots(b, c)),
{
    assert forall|slot: u32|
        a.contains_key(slot) || b.contains_key(slot) || c.contains_key(slot) implies merge_slots(
        merge_slots(a, b),
        c,
    )[slot] == merge_slots(a, merge_slots(b, c))[slot] by {
        if a.contains_key(slot) && b.contains_key(slot) && c.contains_key(slot) {
            lemma_stage_union_associates(a[slot].visibility, b[slot].visibility, c[slot].visibility);
        }
    }
    assert(merge_slots(merge_slots(a, b), c) =~= merge_slots(a, merge_slots(b, c)));
}

/// Merging two binding tables that are free of conflicts gives the same table
/// whichever of the two comes first.
pub proof fn lemma_merge_commutes(a: TableMap, b: TableMap)
    requires
        tables_agree(a, b),
    ensures
        merge_tables(a, b) == merge_tables(b, a),
{
    assert forall|set: u32| a.contains_key(set) && b.contains_key(set) implies merge_tables(
        a,
        b,
    )[set] == merge_tables(b, a)[set] by {
        assert(slots_agree(a[set], b[set]));
        lemma_merge_slots_commutes(a[set], b[set]);
    }
    assert(merge_tables(a, b) =~= merge_tables(b, a));
}

/// Merging three binding tables gives the same table however the merges are
/// grouped, so the order in which stages are visited does not matter.
pub proof fn lemma_merge_associates(a: TableMap, b: TableMap, c: TableMap)
    ensures
        merge_tables(merge_tables(a, b), c) == merge_tables(a, merge_tables(b, c)),
{
    assert forall|set: u32|
        a.contains_key(set) || b.contains_key(set) || c.contains_key(set) implies merge_tables(
        merge_tables(a, b),
        c,
    )[set] == merge_tables(a, merge_tables(b, c))[set] by {
        if a.contains_key(set) && b.contains_key(set) && c.contains_key(set) {
            lemma_merge_slots_associates(a[set], b[set], c[set]);
        }
    }
    assert(merge_tables(merge_tables(a, b), c) =~= merge_tables(a, merge_tables(b, c)));
}

/// Adds the slots of `b` to `a`.
fn merge_slots_into(
    a: BTreeMap<u32, BindGroupLayoutEntry>,
    b: &BTreeMap<u32, BindGroupLayoutEntry>,
) -> (r: BTreeMap<u32, BindGroupLayoutEntry>)
    ensures
        r@ == merge_slots(a@, b@),
{
    let mut r = a;
    let ghost a0 = r@;
    for kv in it: b.iter()
        invariant
            it.seq().no_duplicates(),
            forall|i: int| 0 <= i < it.seq().len() ==> b@.contains_key(*(#[trigger] it.seq()[i]).0)
                && b@[*it.seq()[i].0] == *it.seq()[i].1,
            forall|slot: u32| #[trigger] r@.contains_key(slot) ==> a0.contains_key(slot) || b@.contains_key(slot),
            forall|slot: u32| #[trigger] a0.contains_key(slot) ==> r@.contains_key(slot),
            forall|slot: u32| r@.contains_key(slot) && !b@.contains_key(slot) ==> #[trigger] r@[slot] == a0[slot],
            forall|i: int| 0 <= i < it.index() ==> r@.contains_key(*(#[trigger] it.seq()[i]).0)
                && r@[*it.seq()[i].0] == merge_slots(a0, b@)[*it.seq()[i].0],
            forall|i: int| it.index() <= i < it.seq().len() && a0.contains_key(*(#[trigger] it.seq()[i]).0)
                ==> r@[*it.seq()[i].0] == a0[*it.seq()[i].0],
            forall|i: int| it.index() <= i < it.seq().len() && !a0.contains_key(*(#[trigger] it.seq()[i]).0)
                ==> !r@.contains_key(*it.seq()[i].0),
    {
        let (slot, incoming) = kv;
        assert forall|i: int| it.index() < i < it.seq().len() implies *(#[trigger] it.seq()[i]).0 != *slot by {
            if *it.seq()[i].0 == *slot {
                assert(it.seq()[i] == it.seq()[it.index() as int]);
            }
        }
        let merged = match r.get(slot) {
            Some(present) => present.with_stages(incoming.visibility),
            None => *incoming,
        };
        r.insert(*slot, merged);
    }
    assert(r@ =~= merge_slots(a0, b@));
    r
}

/// Union of two per-stage binding tables that are free of conflicts: every
/// slot that both declare must describe the same resource on both sides,
/// which `binding_tables_agree` tells. A set or slot that only one side
/// declares is copied; a slot that both declare keeps its description and
/// becomes visible to the stages of both.
pub fn merge_bind_group_layout_entries(
    a: &BTreeMap<u32, BTreeMap<u32, BindGroupLayoutEntry>>,
    b: &BTreeMap<u32, BTreeMap<u32, BindGroupLayoutEntry>>,
) -> (output: BTreeMap<u32, BTreeMap<u32, BindGroupLayoutEntry>>)
    requires
        tables_agree(table_view(*a), table_view(*b)),
    ensures
        table_view(output) == merge_tables(table_view(*a), table_view(*b)),
        table_view(output) == merge_tables(table_view(*b), table_view(*a)),
{
    proof {
        lemma_merge_commutes(table_view(*a), table_view(*b));
    }
    let mut output = a.clone();
    let ghost a0 = table_view(*a);
    let ghost want = merge_tables(a0, table_view(*b));
    assert(table_view(output) =~= a0);
    for kv in it: b.iter()
        invariant
            a0 == table_view(*a),
            want == merge_tables(a0, table_view(*b)),
            it.seq().no_duplicates(),
            forall|i: int| 0 <= i < it.seq().len() ==> b@.contains_key(*(#[trigger] it.seq()[i]).0)
                && b@[*it.seq()[i].0] == *it.seq()[i].1,
            forall|set: u32| #[trigger] output@.contains_key(set) ==> a0.contains_key(set) || b@.contains_key(set),
            forall|set: u32| #[trigger] a0.contains_key(set) ==> output@.contains_key(set),
            forall|set: u32| output@.contains_key(set) && !b@.contains_key(set) ==> #[trigger] output@[set]@ == a0[set],
            forall|i: int| 0 <= i < it.index() ==> output@.contains_key(*(#[trigger] it.seq()[i]).0)
                && output@[*it.seq()[i].0]@ == want[*it.seq()[i].0],
            forall|i: int| it.index() <= i < it.seq().len() && a0.contains_key(*(#[trigger] it.seq()[i]).0)
                ==> output@[*it.seq()[i].0]@ == a0[*it.seq()[i].0],
            forall|i: int| it.index() <= i < it.seq().len() && !a0.contains_key(*(#[trigger] it.seq()[i]).0)
                ==> !output@.contains_key(*it.seq()[i].0),
    {
        let (set, entries) = kv;
        assert forall|i: int| it.index() < i < it.seq().len() implies *(#[trigger] it.seq()[i]).0 != *set by {
            if *it.seq()[i].0 == *set {
                assert(it.seq()[i] == it.seq()[it.index() as int]);
            }
        }
        let present = match output.remove(set) {
            Some(slots) => slots,
            None => BTreeMap::new(),
        };
        let merged = merge_slots_into(present, entries);
        assert(merged@ =~= want[*set]);
        output.insert(*set, merged);
    }
    assert(table_view(output) =~= want);
    output
}

/// Whether every slot that both sets declare describes the same resource.
fn slot_maps_agree(
    a: &BTreeMap<u32, BindGroupLayoutEntry>,
    b: &BTreeMap<u32, BindGroupLayoutEntry>,
) -> (agree: bool)
    ensures
        agree == slots_agree(a@, b@),
{
    let ghost mut visited: Set<u32> = Set::empty();
    for kv in it: a.iter()
        invariant
            forall|i: int| 0 <= i < it.seq().len() ==> a@.contains_key(*(#[trigger] it.seq()[i]).0)
                && a@[*it.seq()[i].0] == *it.seq()[i].1,
            forall|slot: u32| #[trigger] a@.contains_key(slot) ==> it.seq().contains((&slot, &a@[slot])),
            forall|i: int| 0 <= i < it.index() ==> visited.contains(*(#[trigger] it.seq()[i]).0),
            forall|slot: u32| #[trigger] visited.contains(slot) && b@.contains_key(slot)
                ==> a@[slot].spec_same_resource(b@[slot]),
    {
        let (slot, entry) = kv;
        proof {
            visited = visited.insert(*slot);
        }
        match b.get(slot) {
            Some(other) => {
                if !entry.same_resource(other) {
                    assert(!a@[*slot].spec_same_resource(b@[*slot]));
                    return false;
                }
            },
            None => {},
        }
    }
    assert forall|slot: u32| a@.contains_key(slot) && b@.contains_key(slot) implies (#[trigger] a@[slot]).spec_same_resource(
        b@[slot],
    ) by {
        assert(visited.contains(slot));
    }
    true
}

/// Whether two binding tables are free of conflicts, so that merging them
/// loses nothing: every slot that both declare has the same slot id, resource
/// kind and count in both.
pub fn binding_tables_agree(
    a: &BTreeMap<u32, BTreeMap<u32, BindGroupLayoutEntry>>,
    b: &BTreeMap<u32, BTreeMap<u32, BindGroupLayoutEntry>>,
) -> (agree: bool)
    ensures
        agree == tables_agree(table_view(*a), table_view(*b)),
{
    let ghost mut visited: Set<u32> = Set::empty();
    for kv in it: a.iter()
        invariant
            forall|i: int| 0 <= i < it.seq().len() ==> a@.contains_key(*(#[trigger] it.seq()[i]).0)
                && a@[*it.seq()[i].0] == *it.seq()[i].1,
            forall|set: u32| #[trigger] a@.contains_key(set) ==> it.seq().contains((&set, &a@[set])),
            forall|i: int| 0 <= i < it.index() ==> visited.contains(*(#[trigger] it.seq()[i]).0),
            forall|set: u32| #[trigger] visited.contains(set) && b@.contains_key(set)
                ==> slots_agree(a@[set]@, b@[set]@),
    {
        let (set, slots) = kv;
        proof {
            visited = visited.insert(*set);
        }
        match b.get(set) {
            Some(other) => {
                if !slot_maps_agree(slots, other) {
                    assert(!slots_agree(table_view(*a)[*set], table_view(*b)[*set]));
                    return false;
                }
            },
            None => {},
        }
    }
    assert forall|set: u32|
        table_view(*a).contains_key(set) && table_view(*b).contains_key(set) implies slots_agree(
        #[trigger] table_view(*a)[set],
        table_view(*b)[set],
    ) by {
        assert(a@.contains_key(set));
        assert(visited.contains(set));
    }
    true
}

} // verus!
