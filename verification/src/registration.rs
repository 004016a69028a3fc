//! Matching of the nodes that a graph program declares with the callbacks
//! that the bridge has for them.
use vstd::prelude::*;

verus! {

/// Whether `name` is one of the nodes that the bridge serves by itself.
pub open spec fn spec_is_builtin(name: Seq<char>) -> bool {
    name == "clear_color"@ || name == "clear_depth_stencil"@
}

/// Whether `name` is among the first `before` names of `names`.
pub open spec fn occurs(names: Seq<String>, name: Seq<char>, before: int) -> bool {
    exists|j: int| 0 <= j < before && j < names.len() && (#[trigger] names[j])@ == name
}

/// Whether the callback at `i` is bound: the program declares a node of its
/// name, the bridge does not serve that node by itself, and no earlier
/// callback has the name.
pub open spec fn should_bind(declared: Seq<String>, registered: Seq<String>, i: int) -> bool {
    &&& !spec_is_builtin(registered[i]@)
    &&& occurs(declared, registered[i]@, declared.len() as int)
    &&& !occurs(registered, registered[i]@, i)
}

/// Whether the declared node at `d` is reported as unbound: no callback has
/// its name, the bridge does not serve it by itself, and it is not declared
/// earlier as well.
pub open spec fn is_unbound(declared: Seq<String>, registered: Seq<String>, d: int) -> bool {
    &&& !spec_is_builtin(declared[d]@)
    &&& !occurs(registered, declared[d]@, registered.len() as int)
    &&& !occurs(declared, declared[d]@, d)
}

/// Whether `picked` holds, in increasing order, exactly the indices below `n`
/// of which `wanted` holds.
pub open spec fn selects(picked: Seq<usize>, n: int, wanted: spec_fn(int) -> bool) -> bool {
    &&& forall|k: int| 0 <= k < picked.len() ==> 0 <= (#[trigger] picked[k]) < n && wanted(picked[k] as int)
    &&& forall|j: int, k: int| 0 <= j < k < picked.len() ==> (#[trigger] picked[j]) < (#[trigger] picked[k])
    &&& forall|i: int| 0 <= i < n && wanted(i) ==> #[trigger] picked.contains(i as usize)
}

/// Which callbacks to bind and which declared nodes to report.
pub struct NodeBindings {
    /// Indices of the callbacks to bind, in increasing order.
    pub bind: Vec<usize>,
    /// Indices of the declared nodes without a callback, in increasing order.
    pub unbound: Vec<usize>,
}

/// Whether `name` is one of the nodes that the bridge serves by itself.
pub fn is_builtin(name: &String) -> (builtin: bool)
    ensures
        builtin == spec_is_builtin(name@),
{
    let color = "clear_color".to_owned();
    let depth_stencil = "clear_depth_stencil".to_owned();
    *name == color || *name == depth_stencil
}

/// Whether `name` is among the first `before` names of `names`.
fn name_occurs(names: &Vec<String>, name: &String, before: usize) -> (found: bool)
    requires
        before <= names@.len(),
    ensures
        found == occurs(names@, name@, before as int),
{
    let mut j: usize = 0;
    while j < before
        invariant
            j <= before <= names@.len(),
            forall|k: int| 0 <= k < j ==> (#[trigger] names@[k])@ != name@,
        decreases before - j,
    {
        if names[j] == *name {
            return true;
        }
        j = j + 1;
    }
    false
}

/// Decides which callbacks are bound to nodes of the program and which
/// declared nodes are left without one. A node without a callback is
/// reported and otherwise left to the scheduler; it is no failure.
pub fn plan_node_bindings(declared: &Vec<String>, registered: &Vec<String>) -> (plan: NodeBindings)
    ensures
        selects(
            plan.bind@,
            registered@.len() as int,
            |i: int| should_bind(declared@, registered@, i),
        ),
        selects(
            plan.unbound@,
            declared@.len() as int,
            |d: int| is_unbound(declared@, registered@, d),
        ),
{
    let ghost bound = |i: int| should_bind(declared@, registered@, i);
    let ghost loose = |d: int| is_unbound(declared@, registered@, d);
    let mut bind: Vec<usize> = Vec::new();
    let mut i: usize = 0;
    while i < registered.len()
        invariant
            i <= registered.len(),
            bound == (|i: int| should_bind(declared@, registered@, i)),
            selects(bind@, i as int, bound),
        decreases registered.len() - i,
    {
        let ghost before = bind@;
        let name = &registered[i];
        if !is_builtin(name) && name_occurs(declared, name, declared.len()) && !name_occurs(
            registered,
            name,
            i,
        ) {
            bind.push(i);
            assert(bind@[before.len() as int] == i);
        }
        proof {
            lemma_selects_step(before, bind@, i as int, bound);
        }
        i = i + 1;
    }
    let mut unbound: Vec<usize> = Vec::new();
    let mut d: usize = 0;
    while d < declared.len()
        invariant
            d <= declared.len(),
            loose == (|d: int| is_unbound(declared@, registered@, d)),
            selects(unbound@, d as int, loose),
        decreases declared.len() - d,
    {
        let ghost before = unbound@;
        let name = &declared[d];
        if !is_builtin(name) && !name_occurs(registered, name, registered.len()) && !name_occurs(
            declared,
            name,
            d,
        ) {
            unbound.push(d);
            assert(unbound@[before.len() as int] == d);
        }
        proof {
            lemma_selects_step(before, unbound@, d as int, loose);
        }
        d = d + 1;
    }
    NodeBindings { bind, unbound }
}

/// A selection among the first `n` indices becomes one among the first
/// `n + 1` by taking `n` in exactly where it is wanted.
proof fn lemma_selects_step(
    before: Seq<usize>,
    after: Seq<usize>,
    n: int,
    wanted: spec_fn(int) -> bool,
)
    requires
        0 <= n <= usize::MAX,
        selects(before, n, wanted),
        after == (if wanted(n) {
            before.push(n as usize)
        } else {
            before
        }),
    ensures
        selects(after, n + 1, wanted),
{
    assert forall|i: int| 0 <= i < n + 1 && wanted(i) implies #[trigger] after.contains(i as usize) by {
        if i < n {
            assert(before.contains(i as usize));
            let k = choose|k: int| 0 <= k < before.len() && before[k] == i as usize;
            assert(after[k] == i as usize);
        } else {
            assert(after[before.len() as int] == n as usize);
        }
    }
}

} // verus!
