//! Workgroup counts for compute dispatches.
use vstd::prelude::*;

verus! {

/// Edge length, in pixels, of the square tile that one workgroup covers.
pub const TILE_SIZE: u32 = 8;

/// The least number of groups of `group_size` items that cover `num` items.
pub open spec fn spec_dispatch_count(num: int, group_size: int) -> int {
    (num + group_size - 1) / group_size
}

/// Number of workgroups needed to cover `num` items with groups of
/// `group_size`: the quotient rounded up, so a partial last group is counted.
pub fn dispatch_count(num: u32, group_size: u32) -> (count: u32)
    requires
        group_size > 0,
    ensures
        count == spec_dispatch_count(num as int, group_size as int),
        count * group_size >= num,
        count * group_size < num + group_size,
{
    proof {
        lemma_dispatch_count_covers(num as int, group_size as int);
    }
    if num == 0 {
        0
    } else {
        (num - 1) / group_size + 1
    }
}

/// The rounded-up quotient covers every item and wastes less than one group.
pub proof fn lemma_dispatch_count_covers(num: int, group_size: int)
    requires
        num >= 0,
        group_size > 0,
    ensures
        spec_dispatch_count(num, group_size) * group_size >= num,
        spec_dispatch_count(num, group_size) * group_size < num + group_size,
        0 <= spec_dispatch_count(num, group_size) <= num,
        num > 0 ==> spec_dispatch_count(num, group_size) == (num - 1) / group_size + 1,
        num == 0 ==> spec_dispatch_count(num, group_size) == 0,
{
    let m = num + group_size - 1;
    let q = m / group_size;
    assert(m == group_size * q + m % group_size && 0 <= m % group_size < group_size) by {
        vstd::arithmetic::div_mod::lemma_fundamental_div_mod(m, group_size);
        vstd::arithmetic::div_mod::lemma_mod_bound(m, group_size);
    }
    assert(q * group_size == group_size * q) by (nonlinear_arith);
    if num > 0 {
        let m1 = num - 1;
        assert((m1 + group_size) / group_size == m1 / group_size + 1) by {
            vstd::arithmetic::div_mod::lemma_div_plus_one(m1, group_size);
        }
        assert(m1 / group_size >= 0 && m1 / group_size <= m1) by {
            vstd::arithmetic::div_mod::lemma_div_pos_is_pos(m1, group_size);
            vstd::arithmetic::div_mod::lemma_div_is_ordered_by_denominator(m1, 1, group_size);
            vstd::arithmetic::div_mod::lemma_div_basics(m1);
        }
    } else {
        assert(m / group_size == 0) by {
            vstd::arithmetic::div_mod::lemma_basic_div(m, group_size);
        }
    }
}

} // verus!
