//! What reflection guarantees of its result, stated over the variables of the
//! module rather than over the order in which they are taken.
use crate::binding::ShaderStages;
use crate::reflection::absorb_descriptor;
use crate::reflection::absorb_entry_point;
use crate::reflection::absorb_entry_points;
use crate::reflection::absorb_variable;
use crate::reflection::absorb_variables;
use crate::reflection::initial_state;
use crate::reflection::reflect_spec;
use crate::reflection::spec_push_constant_max;
use crate::reflection::spec_stage_of;
use crate::reflection::ReflectError;
use crate::reflection::ReflectState;
use crate::reflection::ReflectionSettings;
use crate::shader::ShaderEntryPoint;
use crate::shader::ShaderVariable;
use crate::table::TableMap;
use vstd::prelude::*;

verus! {

/// Whether `bindings` declares the slot `bind` of the set `set`.
pub open spec fn slot_declared(bindings: TableMap, set: u32, bind: u32) -> bool {
    bindings.contains_key(set) && bindings[set].contains_key(bind)
}

/// Whether `var` is a resource at the slot `bind` of the set `set`.
pub open spec fn is_resource_at(var: ShaderVariable, set: u32, bind: u32) -> bool {
    var matches ShaderVariable::Descriptor { set: s, bind: b, .. } && s == set && b == bind
}

/// Whether `var` is a push-constant block of `size` bytes.
pub open spec fn is_push_constant_of(var: ShaderVariable, size: usize) -> bool {
    var matches ShaderVariable::PushConstant { ty } && ty.spec_block_size() == Some(size)
}

/// Whether some variable of `vars` is a resource at the slot.
pub open spec fn vars_declare(vars: Seq<ShaderVariable>, set: u32, bind: u32) -> bool {
    exists|i: int| 0 <= i < vars.len() && is_resource_at(#[trigger] vars[i], set, bind)
}

/// Whether some variable of `vars` is a push-constant block of `size` bytes.
pub open spec fn vars_push(vars: Seq<ShaderVariable>, size: usize) -> bool {
    exists|i: int| 0 <= i < vars.len() && is_push_constant_of(#[trigger] vars[i], size)
}

/// Whether some entry point of `entry_points` has a resource at the slot.
pub open spec fn module_declares(entry_points: Seq<ShaderEntryPoint>, set: u32, bind: u32) -> bool {
    exists|e: int|
        0 <= e < entry_points.len() && vars_declare((#[trigger] entry_points[e]).vars@, set, bind)
}

/// Whether some entry point of `entry_points` has a push-constant block of
/// `size` bytes.
pub open spec fn module_pushes(entry_points: Seq<ShaderEntryPoint>, size: usize) -> bool {
    exists|e: int| 0 <= e < entry_points.len() && vars_push((#[trigger] entry_points[e]).vars@, size)
}

/// Whether `after` keeps every slot of `before`, with the same resource and
/// at least the same visibility.
pub open spec fn keeps_slots(before: TableMap, after: TableMap) -> bool {
    forall|set: u32, bind: u32| #[trigger]
        slot_declared(before, set, bind) ==> slot_declared(after, set, bind)
            && after[set][bind].ty == before[set][bind].ty && after[set][bind].count
            == before[set][bind].count && after[set][bind].binding == before[set][bind].binding
            && after[set][bind].visibility.spec_contains(before[set][bind].visibility)
}

/// Whether every entry of `bindings` carries the slot id under which it is
/// held.
pub open spec fn well_keyed(bindings: TableMap) -> bool {
    forall|set: u32, bind: u32| #[trigger]
        slot_declared(bindings, set, bind) ==> bindings[set][bind].binding == bind
}

proof fn lemma_stage_union_covers(x: ShaderStages, y: ShaderStages)
    ensures
        x.spec_union(y).spec_contains(x),
        x.spec_union(y).spec_contains(y),
        x.spec_contains(x),
{
    let a = x.bits;
    let b = y.bits;
    assert((a | b) & a == a && (a | b) & b == b && a & a == a) by (bit_vector);
}

proof fn lemma_stage_covers_transitive(x: ShaderStages, y: ShaderStages, z: ShaderStages)
    requires
        x.spec_contains(y),
        y.spec_contains(z),
    ensures
        x.spec_contains(z),
{
    let a = x.bits;
    let b = y.bits;
    let c = z.bits;
    assert(a & b == b && b & c == c ==> a & c == c) by (bit_vector);
}

/// What one variable changes.
proof fn lemma_absorb_variable(st: ReflectState, stage: ShaderStages, var: ShaderVariable)
    requires
        absorb_variable(st, stage, var) is Ok,
    ensures
        ({
            let after = absorb_variable(st, stage, var)->Ok_0;
            &&& keeps_slots(st.bindings, after.bindings)
            &&& well_keyed(st.bindings) ==> well_keyed(after.bindings)
            &&& forall|set: u32, bind: u32| #[trigger]
                slot_declared(after.bindings, set, bind) <==> slot_declared(st.bindings, set, bind)
                    || is_resource_at(var, set, bind)
            &&& forall|set: u32, bind: u32|
                is_resource_at(var, set, bind) ==> (#[trigger] after.bindings[set][bind]).visibility.spec_contains(
                    stage,
                )
            &&& after.max_push_constant_size >= st.max_push_constant_size
            &&& forall|size: usize| #[trigger]
                is_push_constant_of(var, size) ==> size <= after.max_push_constant_size
            &&& after.max_push_constant_size == st.max_push_constant_size || is_push_constant_of(
                var,
                after.max_push_constant_size,
            )
        }),
{
    let after = absorb_variable(st, stage, var)->Ok_0;
    match var {
        ShaderVariable::Descriptor { set, bind, desc_ty, ty, nbind } => {
            assert(after == absorb_descriptor(st, stage, set, bind, desc_ty, ty, nbind)->Ok_0);
            assert forall|s: u32, b: u32| #[trigger] slot_declared(st.bindings, s, b) implies slot_declared(
                after.bindings,
                s,
                b,
            ) && after.bindings[s][b].ty == st.bindings[s][b].ty && after.bindings[s][b].count
                == st.bindings[s][b].count && after.bindings[s][b].binding
                == st.bindings[s][b].binding && after.bindings[s][b].visibility.spec_contains(
                st.bindings[s][b].visibility,
            ) by {
                lemma_stage_union_covers(st.bindings[s][b].visibility, stage);
            }
            if slot_declared(st.bindings, set, bind) {
                lemma_stage_union_covers(st.bindings[set][bind].visibility, stage);
            } else {
                lemma_stage_union_covers(stage, stage);
            }
            assert forall|s: u32, b: u32| #[trigger]
                slot_declared(after.bindings, s, b) <==> slot_declared(st.bindings, s, b)
                    || is_resource_at(var, s, b) by {
            }
        },
        ShaderVariable::PushConstant { ty } => {
            assert(after.bindings == st.bindings);
            assert forall|s: u32, b: u32| #[trigger] slot_declared(st.bindings, s, b) implies st.bindings[s][b].visibility.spec_contains(
            st.bindings[s][b].visibility) by {
                lemma_stage_union_covers(st.bindings[s][b].visibility, stage);
            }
            assert(after.max_push_constant_size == spec_push_constant_max(
                st.max_push_constant_size,
                ty,
            ));
        },
        _ => {
            assert(after == st);
            assert forall|s: u32, b: u32| #[trigger] slot_declared(st.bindings, s, b) implies st.bindings[s][b].visibility.spec_contains(
            st.bindings[s][b].visibility) by {
                lemma_stage_union_covers(st.bindings[s][b].visibility, stage);
            }
        },
    }
}

/// What a run of variables of one stage changes.
pub open spec fn vars_absorbed(
    st: ReflectState,
    after: ReflectState,
    stage: ShaderStages,
    vars: Seq<ShaderVariable>,
) -> bool {
    &&& keeps_slots(st.bindings, after.bindings)
    &&& well_keyed(st.bindings) ==> well_keyed(after.bindings)
    &&& forall|set: u32, bind: u32| #[trigger]
        slot_declared(after.bindings, set, bind) <==> slot_declared(st.bindings, set, bind)
            || vars_declare(vars, set, bind)
    &&& forall|set: u32, bind: u32| #[trigger]
        vars_declare(vars, set, bind) ==> after.bindings[set][bind].visibility.spec_contains(stage)
    &&& after.max_push_constant_size >= st.max_push_constant_size
    &&& forall|size: usize| #[trigger] vars_push(vars, size) ==> size <= after.max_push_constant_size
    &&& after.max_push_constant_size == st.max_push_constant_size || vars_push(
        vars,
        after.max_push_constant_size,
    )
}

proof fn lemma_keeps_slots_reflexive(bindings: TableMap)
    ensures
        keeps_slots(bindings, bindings),
{
    assert forall|set: u32, bind: u32| #[trigger] slot_declared(bindings, set, bind) implies bindings[set][bind].visibility.spec_contains(
    bindings[set][bind].visibility) by {
        lemma_stage_union_covers(bindings[set][bind].visibility, bindings[set][bind].visibility);
    }
}

proof fn lemma_keeps_slots_transitive(a: TableMap, b: TableMap, c: TableMap)
    requires
        keeps_slots(a, b),
        keeps_slots(b, c),
    ensures
        keeps_slots(a, c),
{
    assert forall|set: u32, bind: u32| #[trigger] slot_declared(a, set, bind) implies slot_declared(
        c,
        set,
        bind,
    ) && c[set][bind].ty == a[set][bind].ty && c[set][bind].count == a[set][bind].count
        && c[set][bind].binding == a[set][bind].binding && c[set][bind].visibility.spec_contains(
        a[set][bind].visibility,
    ) by {
        assert(slot_declared(b, set, bind));
        lemma_stage_covers_transitive(
            c[set][bind].visibility,
            b[set][bind].visibility,
            a[set][bind].visibility,
        );
    }
}

proof fn lemma_absorb_variables(st: ReflectState, stage: ShaderStages, vars: Seq<ShaderVariable>)
    requires
        absorb_variables(st, stage, vars) is Ok,
    ensures
        vars_absorbed(st, absorb_variables(st, stage, vars)->Ok_0, stage, vars),
    decreases vars.len(),
{
    let after = absorb_variables(st, stage, vars)->Ok_0;
    if vars.len() == 0 {
        lemma_keeps_slots_reflexive(st.bindings);
    } else {
        let prefix = vars.drop_last();
        let last = vars.last();
        let mid = absorb_variables(st, stage, prefix)->Ok_0;
        lemma_absorb_variables(st, stage, prefix);
        lemma_absorb_variable(mid, stage, last);
        lemma_keeps_slots_transitive(st.bindings, mid.bindings, after.bindings);
        assert forall|set: u32, bind: u32| #[trigger]
            vars_declare(vars, set, bind) <==> vars_declare(prefix, set, bind) || is_resource_at(
                last,
                set,
                bind,
            ) by {
            if vars_declare(vars, set, bind) {
                let i = choose|i: int| 0 <= i < vars.len() && is_resource_at(#[trigger] vars[i], set, bind);
                if i < prefix.len() {
                    assert(prefix[i] == vars[i]);
                }
            }
            if vars_declare(prefix, set, bind) {
                let i = choose|i: int|
                    0 <= i < prefix.len() && is_resource_at(#[trigger] prefix[i], set, bind);
                assert(vars[i] == prefix[i]);
            }
            if is_resource_at(last, set, bind) {
                assert(vars[vars.len() - 1] == last);
            }
        }
        assert forall|size: usize| #[trigger]
            vars_push(vars, size) <==> vars_push(prefix, size) || is_push_constant_of(last, size) by {
            if vars_push(vars, size) {
                let i = choose|i: int| 0 <= i < vars.len() && is_push_constant_of(#[trigger] vars[i], size);
                if i < prefix.len() {
                    assert(prefix[i] == vars[i]);
                }
            }
            if vars_push(prefix, size) {
                let i = choose|i: int|
                    0 <= i < prefix.len() && is_push_constant_of(#[trigger] prefix[i], size);
                assert(vars[i] == prefix[i]);
            }
            if is_push_constant_of(last, size) {
                assert(vars[vars.len() - 1] == last);
            }
        }
        assert forall|set: u32, bind: u32| #[trigger] vars_declare(vars, set, bind) implies after.bindings[set][bind].visibility.spec_contains(
        stage) by {
            if !is_resource_at(last, set, bind) {
                assert(vars_declare(prefix, set, bind));
                assert(slot_declared(mid.bindings, set, bind));
                lemma_stage_covers_transitive(
                    after.bindings[set][bind].visibility,
                    mid.bindings[set][bind].visibility,
                    stage,
                );
            }
        }
        assert forall|set: u32, bind: u32| #[trigger]
            slot_declared(after.bindings, set, bind) <==> slot_declared(st.bindings, set, bind)
                || vars_declare(vars, set, bind) by {
            assert(slot_declared(mid.bindings, set, bind) <==> slot_declared(st.bindings, set, bind)
                || vars_declare(prefix, set, bind));
        }
        if after.max_push_constant_size != st.max_push_constant_size {
            if after.max_push_constant_size == mid.max_push_constant_size {
                assert(vars_push(prefix, after.max_push_constant_size));
            }
            assert(vars_push(vars, after.max_push_constant_size));
        }
    }
}

/// Whether the stage of the entry point at `e` can see the slot, where that
/// entry point has a resource there.
pub open spec fn seen_by(
    bindings: TableMap,
    entry_points: Seq<ShaderEntryPoint>,
    e: int,
    set: u32,
    bind: u32,
) -> bool {
    vars_declare(entry_points[e].vars@, set, bind) ==> match spec_stage_of(
        entry_points[e].exec_model,
    ) {
        Some(stage) => bindings[set][bind].visibility.spec_contains(stage),
        None => false,
    }
}

/// What a run of entry points changes.
pub open spec fn entry_points_absorbed(
    st: ReflectState,
    after: ReflectState,
    entry_points: Seq<ShaderEntryPoint>,
) -> bool {
    &&& keeps_slots(st.bindings, after.bindings)
    &&& well_keyed(st.bindings) ==> well_keyed(after.bindings)
    &&& forall|set: u32, bind: u32| #[trigger]
        slot_declared(after.bindings, set, bind) <==> slot_declared(st.bindings, set, bind)
            || module_declares(entry_points, set, bind)
    &&& forall|e: int, set: u32, bind: u32|
        0 <= e < entry_points.len() ==> #[trigger] seen_by(
            after.bindings,
            entry_points,
            e,
            set,
            bind,
        )
    &&& after.max_push_constant_size >= st.max_push_constant_size
    &&& forall|size: usize| #[trigger]
        module_pushes(entry_points, size) ==> size <= after.max_push_constant_size
    &&& after.max_push_constant_size == st.max_push_constant_size || module_pushes(
        entry_points,
        after.max_push_constant_size,
    )
}

proof fn lemma_absorb_entry_points(st: ReflectState, entry_points: Seq<ShaderEntryPoint>)
    requires
        absorb_entry_points(st, entry_points) is Ok,
    ensures
        entry_points_absorbed(st, absorb_entry_points(st, entry_points)->Ok_0, entry_points),
    decreases entry_points.len(),
{
    let after = absorb_entry_points(st, entry_points)->Ok_0;
    if entry_points.len() == 0 {
        lemma_keeps_slots_reflexive(st.bindings);
    } else {
        let prefix = entry_points.drop_last();
        let last = entry_points.last();
        let mid = absorb_entry_points(st, prefix)->Ok_0;
        lemma_absorb_entry_points(st, prefix);
        assert(absorb_entry_point(mid, last) is Ok);
        let stage = spec_stage_of(last.exec_model)->Some_0;
        lemma_absorb_variables(mid, stage, last.vars@);
        lemma_keeps_slots_transitive(st.bindings, mid.bindings, after.bindings);
        assert forall|set: u32, bind: u32| #[trigger]
            module_declares(entry_points, set, bind) <==> module_declares(prefix, set, bind)
                || vars_declare(last.vars@, set, bind) by {
            if module_declares(entry_points, set, bind) {
                let e = choose|e: int|
                    0 <= e < entry_points.len() && vars_declare(
                        (#[trigger] entry_points[e]).vars@,
                        set,
                        bind,
                    );
                if e < prefix.len() {
                    assert(prefix[e] == entry_points[e]);
                }
            }
            if module_declares(prefix, set, bind) {
                let e = choose|e: int|
                    0 <= e < prefix.len() && vars_declare((#[trigger] prefix[e]).vars@, set, bind);
                assert(entry_points[e] == prefix[e]);
            }
            if vars_declare(last.vars@, set, bind) {
                assert(entry_points[entry_points.len() - 1] == last);
            }
        }
        assert forall|size: usize| #[trigger]
            module_pushes(entry_points, size) <==> module_pushes(prefix, size) || vars_push(
                last.vars@,
                size,
            ) by {
            if module_pushes(entry_points, size) {
                let e = choose|e: int|
                    0 <= e < entry_points.len() && vars_push((#[trigger] entry_points[e]).vars@, size);
                if e < prefix.len() {
                    assert(prefix[e] == entry_points[e]);
                }
            }
            if module_pushes(prefix, size) {
                let e = choose|e: int|
                    0 <= e < prefix.len() && vars_push((#[trigger] prefix[e]).vars@, size);
                assert(entry_points[e] == prefix[e]);
            }
            if vars_push(last.vars@, size) {
                assert(entry_points[entry_points.len() - 1] == last);
            }
        }
        assert forall|e: int, set: u32, bind: u32| 0 <= e < entry_points.len() implies #[trigger] seen_by(
            after.bindings,
            entry_points,
            e,
            set,
            bind,
        ) by {
            if vars_declare(entry_points[e].vars@, set, bind) {
                if e < prefix.len() {
                    assert(prefix[e] == entry_points[e]);
                    assert(seen_by(mid.bindings, prefix, e, set, bind));
                    assert(module_declares(prefix, set, bind));
                    assert(slot_declared(mid.bindings, set, bind));
                    lemma_stage_covers_transitive(
                        after.bindings[set][bind].visibility,
                        mid.bindings[set][bind].visibility,
                        spec_stage_of(entry_points[e].exec_model)->Some_0,
                    );
                }
            }
        }
        assert forall|set: u32, bind: u32| #[trigger]
            slot_declared(after.bindings, set, bind) <==> slot_declared(st.bindings, set, bind)
                || module_declares(entry_points, set, bind) by {
            assert(slot_declared(mid.bindings, set, bind) <==> slot_declared(st.bindings, set, bind)
                || module_declares(prefix, set, bind));
            assert(slot_declared(after.bindings, set, bind) <==> slot_declared(
                mid.bindings,
                set,
                bind,
            ) || vars_declare(last.vars@, set, bind));
        }
        if after.max_push_constant_size != st.max_push_constant_size {
            if after.max_push_constant_size == mid.max_push_constant_size {
                assert(module_pushes(prefix, after.max_push_constant_size));
            } else {
                assert(vars_push(last.vars@, after.max_push_constant_size));
            }
            assert(module_pushes(entry_points, after.max_push_constant_size));
        }
    }
}

/// Where reflection succeeds, its result does not depend on more than the
/// variables themselves: a slot is declared exactly where some entry point
/// has a resource at it; every entry carries its own slot id; every stage
/// that has a resource at a slot can see it; and the push-constant size is
/// the size of the largest push-constant block, 0 where there is none.
pub proof fn lemma_reflection_covers_the_module(
    entry_points: Seq<ShaderEntryPoint>,
    settings: ReflectionSettings,
)
    requires
        reflect_spec(entry_points, settings) is Ok,
    ensures
        ({
            let state = reflect_spec(entry_points, settings)->Ok_0;
            &&& forall|set: u32, bind: u32| #[trigger]
                slot_declared(state.bindings, set, bind) <==> module_declares(
                    entry_points,
                    set,
                    bind,
                )
            &&& well_keyed(state.bindings)
            &&& forall|e: int, set: u32, bind: u32|
                0 <= e < entry_points.len() ==> #[trigger] seen_by(
                    state.bindings,
                    entry_points,
                    e,
                    set,
                    bind,
                )
            &&& forall|size: usize| #[trigger]
                module_pushes(entry_points, size) ==> size <= state.max_push_constant_size
            &&& state.max_push_constant_size == 0 || module_pushes(
                entry_points,
                state.max_push_constant_size,
            )
        }),
{
    lemma_absorb_entry_points(initial_state(settings), entry_points);
}

/// Whether two lists of entry points hold the same interface: as many
/// entry points, each with the same execution model and the same variables.
pub open spec fn same_interface(a: Seq<ShaderEntryPoint>, b: Seq<ShaderEntryPoint>) -> bool {
    &&& a.len() == b.len()
    &&& forall|i: int|
        0 <= i < a.len() ==> (#[trigger] a[i]).exec_model == b[i].exec_model && a[i].vars@
            == b[i].vars@
}

proof fn lemma_absorb_entry_points_by_interface(
    st: ReflectState,
    a: Seq<ShaderEntryPoint>,
    b: Seq<ShaderEntryPoint>,
)
    requires
        same_interface(a, b),
    ensures
        absorb_entry_points(st, a) == absorb_entry_points(st, b),
    decreases a.len(),
{
    if a.len() > 0 {
        assert(same_interface(a.drop_last(), b.drop_last())) by {
            assert forall|i: int| 0 <= i < a.drop_last().len() implies (#[trigger] a.drop_last()[i]).exec_model
                == b.drop_last()[i].exec_model && a.drop_last()[i].vars@ == b.drop_last()[i].vars@ by {
                assert(a[i].exec_model == b[i].exec_model);
            }
        }
        lemma_absorb_entry_points_by_interface(st, a.drop_last(), b.drop_last());
        assert(a[a.len() - 1].exec_model == b[a.len() - 1].exec_model);
    }
}

/// Reflection looks at nothing but the execution model and the variables of
/// each entry point: two lists that hold the same interface reflect alike.
pub proof fn lemma_reflection_by_interface(
    a: Seq<ShaderEntryPoint>,
    b: Seq<ShaderEntryPoint>,
    settings: ReflectionSettings,
)
    requires
        same_interface(a, b),
    ensures
        reflect_spec(a, settings) == reflect_spec(b, settings),
{
    lemma_absorb_entry_points_by_interface(initial_state(settings), a, b);
}

proof fn lemma_variables_never_malformed(st: ReflectState, stage: ShaderStages, vars: Seq<ShaderVariable>)
    ensures
        absorb_variables(st, stage, vars) != Err::<ReflectState, ReflectError>(
            ReflectError::MalformedModule,
        ),
    decreases vars.len(),
{
    if vars.len() > 0 {
        lemma_variables_never_malformed(st, stage, vars.drop_last());
    }
}

proof fn lemma_entry_points_never_malformed(st: ReflectState, entry_points: Seq<ShaderEntryPoint>)
    ensures
        absorb_entry_points(st, entry_points) != Err::<ReflectState, ReflectError>(
            ReflectError::MalformedModule,
        ),
    decreases entry_points.len(),
{
    if entry_points.len() > 0 {
        lemma_entry_points_never_malformed(st, entry_points.drop_last());
        let before = absorb_entry_points(st, entry_points.drop_last());
        if before is Ok {
            let stage = spec_stage_of(entry_points.last().exec_model);
            if stage is Some {
                lemma_variables_never_malformed(
                    before->Ok_0,
                    stage->Some_0,
                    entry_points.last().vars@,
                );
            }
        }
    }
}

/// The rules of reflection never call a module malformed: that error is
/// kept for bytes that give no entry points at all.
pub proof fn lemma_reflection_never_malformed(
    entry_points: Seq<ShaderEntryPoint>,
    settings: ReflectionSettings,
)
    ensures
        reflect_spec(entry_points, settings) != Err::<ReflectState, ReflectError>(
            ReflectError::MalformedModule,
        ),
{
    lemma_entry_points_never_malformed(initial_state(settings), entry_points);
}

} // verus!
