//! Compute-dispatch sizing.
//!
//! Every GPU dispatch in the pipeline covers an index space `[0, len)` with
//! workgroups of a fixed size: the element count is padded up to the next
//! multiple of the group size and the number of groups is the quotient.
//! Invocations past `len` are discarded by a bounds check inside the GPU
//! programs, so covering with minimal overshoot is all that is needed.

use vstd::arithmetic::div_mod::{
    lemma_fundamental_div_mod, lemma_fundamental_div_mod_converse_div,
    lemma_mod_division_less_than_divisor, lemma_mod_self_0, lemma_small_mod,
};
use vstd::prelude::*;

verus! {

/// Invocations in one workgroup of the GPU programs' compute entry points.
pub const WORKGROUP_SIZE: u32 = 256;

/// Idle invocations appended to `len` so that whole workgroups cover it.
pub open spec fn spec_padding(len: int, group: int) -> int {
    (group - len % group) % group
}

/// Workgroups dispatched to cover `len` elements with groups of `group`.
pub open spec fn spec_dispatch_count(len: int, group: int) -> int {
    (len + spec_padding(len, group)) / group
}

/// The dispatch covers the whole index space and overshoots it by less
/// than one workgroup: `count * group` lands in `[len, len + group)`.
pub proof fn lemma_dispatch_covers(len: int, group: int)
    requires
        0 <= len,
        1 <= group,
    ensures
        spec_dispatch_count(len, group) * group >= len,
        spec_dispatch_count(len, group) * group - len < group,
{
    let q = len / group;
    let m = len % group;
    lemma_fundamental_div_mod(len, group);
    lemma_mod_division_less_than_divisor(len, group);
    if m == 0 {
        lemma_mod_self_0(group);
        assert(spec_padding(len, group) == 0);
        assert(spec_dispatch_count(len, group) == q);
        assert(q * group == len) by (nonlinear_arith)
            requires len == group * q,
        ;
    } else {
        lemma_small_mod((group - m) as nat, group as nat);
        assert(spec_padding(len, group) == group - m);
        assert(len + (group - m) == (q + 1) * group) by (nonlinear_arith)
            requires len == group * q + m,
        ;
        lemma_fundamental_div_mod_converse_div(len + (group - m), group, q + 1, 0);
        assert(spec_dispatch_count(len, group) == q + 1);
        assert((q + 1) * group == len + (group - m));
    }
}

/// Number of workgroups that covers `len` elements with groups of `group`.
pub fn dispatch_count(len: u32, group: u32) -> (count: u32)
    requires
        group >= 1,
    ensures
        count == spec_dispatch_count(len as int, group as int),
        count * group >= len,
        count * group - len < group,
{
    proof {
        lemma_dispatch_covers(len as int, group as int);
    }
    let q: u32 = len / group;
    let r: u32 = len % group;
    if r == 0 {
        proof {
            lemma_fundamental_div_mod(len as int, group as int);
            lemma_mod_self_0(group as int);
        }
        q
    } else {
        proof {
            lemma_fundamental_div_mod(len as int, group as int);
            lemma_mod_division_less_than_divisor(len as int, group as int);
            lemma_small_mod((group - r) as nat, group as nat);
            assert((len + (group - r)) == (q + 1) * (group as int)) by (nonlinear_arith)
                requires
                    len == group * q + r,
            ;
            lemma_fundamental_div_mod_converse_div(
                len as int + (group - r), group as int, q as int + 1, 0,
            );
            assert(q < u32::MAX) by (nonlinear_arith)
                requires
                    len == group * q + r,
                    0 < r < group,
                    len <= u32::MAX,
                    q >= 0,
                    group >= 1,
            ;
        }
        q + 1
    }
}

/// Workgroups needed to cover `len` elements at the pipeline's fixed
/// workgroup size; used for the seeding, field-sampling and integration
/// dispatches alike.
pub fn dispatch_size(len: u32) -> (count: u32)
    ensures
        count == spec_dispatch_count(len as int, WORKGROUP_SIZE as int),
        count * WORKGROUP_SIZE >= len,
        count * WORKGROUP_SIZE - len < WORKGROUP_SIZE,
{
    dispatch_count(len, WORKGROUP_SIZE)
}

} // verus!
