//! Layout of the two-stage luminance sum reduction: how many workgroups
//! each stage dispatches, and so how many partial sums the CPU adds up.
use vstd::prelude::*;

verus! {

/// Number of workgroups of `group_size` invocations that cover `n` items.
pub open spec fn groups_for(n: int, group_size: int) -> int {
    (n + group_size - 1) / group_size
}

/// The dispatch sizes of both stages.
#[derive(Clone, Copy, Debug, PartialEq, Eq, Structural)]
pub struct ReductionPlan {
    /// Pixels summed by the first stage.
    pub pixels: u32,
    /// Invocations per workgroup; each workgroup writes one partial sum.
    pub group_size: u32,
    /// Partial sums the first stage writes.
    pub stage1_groups: u32,
    /// Partial sums the second stage writes, which the CPU adds up.
    pub stage2_groups: u32,
}

/// Both stages of the reduction over `pixels` luminance values: the first
/// reduces the pixels to one partial sum per workgroup, the second reduces
/// those partial sums in the same way.
pub fn reduction_plan(pixels: u32, group_size: u32) -> (r: ReductionPlan)
    requires
        group_size > 0,
    ensures
        r.pixels == pixels,
        r.group_size == group_size,
        r.stage1_groups == groups_for(pixels as int, group_size as int),
        r.stage2_groups == groups_for(r.stage1_groups as int, group_size as int),
{
    proof {
        lemma_groups_exec(pixels as int, group_size as int);
    }
    let stage1: u32 = pixels / group_size + if pixels % group_size == 0 { 0 } else { 1 };
    proof {
        lemma_groups_exec(stage1 as int, group_size as int);
    }
    let stage2: u32 = stage1 / group_size + if stage1 % group_size == 0 { 0 } else { 1 };
    ReductionPlan { pixels, group_size, stage1_groups: stage1, stage2_groups: stage2 }
}

proof fn lemma_groups_exec(n: int, g: int)
    requires
        0 <= n,
        0 < g,
    ensures
        groups_for(n, g) == n / g + if n % g == 0 { 0int } else { 1int },
        groups_for(n, g) <= n,
{
    assert(groups_for(n, g) == n / g + if n % g == 0 { 0int } else { 1int }) by (nonlinear_arith)
        requires
            0 <= n,
            0 < g,
    ;
    assert(groups_for(n, g) <= n) by (nonlinear_arith)
        requires
            0 <= n,
            0 < g,
            groups_for(n, g) == n / g + if n % g == 0 { 0int } else { 1int },
    ;
}

/// Each stage covers its whole input with no spare workgroup, and no stage
/// produces more values than it reads.
pub proof fn lemma_stages_cover_input(n: int, g: int)
    requires
        0 < n,
        0 < g,
    ensures
        groups_for(n, g) * g >= n,
        (groups_for(n, g) - 1) * g < n,
        0 < groups_for(n, g) <= n,
{
    lemma_groups_exec(n, g);
    assert(groups_for(n, g) * g >= n && (groups_for(n, g) - 1) * g < n && 0 < groups_for(n, g))
        by (nonlinear_arith)
        requires
            0 < n,
            0 < g,
            groups_for(n, g) == n / g + if n % g == 0 { 0int } else { 1int },
    ;
}

} // verus!
