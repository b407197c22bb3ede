//! The review steps page: steps listed in their order, moved up or down one
//! place at a time.

use vstd::prelude::*;
use crate::api::Step;

verus! {

/// Steps listed by non-decreasing `step_order`.
pub open spec fn sorted_by_order(s: Seq<Step>) -> bool {
    forall|i: int, j: int| 0 <= i <= j < s.len() ==> #[trigger] s[i].step_order <= #[trigger] s[j].step_order
}

/// `out` lists the steps of `input` (the one at position `k` being
/// `input[perm[k]]`, each taken once) sorted by `step_order`, steps with the
/// same order keeping their order in `input`.
pub open spec fn is_stable_arrangement(out: Seq<Step>, input: Seq<Step>, perm: Seq<int>) -> bool {
    &&& perm.len() == out.len()
    &&& out.len() == input.len()
    &&& forall|k: int| 0 <= k < perm.len() ==> 0 <= #[trigger] perm[k] < input.len()
    &&& forall|k: int| 0 <= k < perm.len() ==> #[trigger] out[k] == input[perm[k]]
    &&& forall|a: int, b: int| 0 <= a < b < perm.len() ==> #[trigger] perm[a] != #[trigger] perm[b]
    &&& sorted_by_order(out)
    &&& forall|a: int, b: int|
        0 <= a < b < out.len() && #[trigger] out[a].step_order == #[trigger] out[b].step_order
            ==> perm[a] < perm[b]
}

/// `out` is the stable sort of `input` by `step_order`.
pub open spec fn is_stable_sort_of(out: Seq<Step>, input: Seq<Step>) -> bool {
    exists|perm: Seq<int>| is_stable_arrangement(out, input, perm)
}

/// The steps sorted by `step_order`, steps with equal orders keeping their
/// relative order (what `sort_by_key` gives).
pub fn sort_steps(steps: Vec<Step>) -> (r: Vec<Step>)
    ensures
        is_stable_sort_of(r@, steps@),
{
    let ghost input = steps@;
    let mut rest = steps;
    let mut out: Vec<Step> = Vec::new();
    let ghost mut perm: Seq<int> = Seq::empty();
    let ghost mut k: int = 0;
    while rest.len() > 0
        invariant
            0 <= k <= input.len(),
            rest@ == input.skip(k),
            is_stable_arrangement(out@, input.take(k), perm),
        decreases rest@.len(),
    {
        let x = rest.remove(0);
        assert(x == input[k]);
        let mut p: usize = 0;
        while p < out.len() && out[p].step_order <= x.step_order
            invariant
                p <= out@.len(),
                forall|j: int| 0 <= j < p ==> #[trigger] out@[j].step_order <= x.step_order,
            decreases out@.len() - p,
        {
            p = p + 1;
        }
        let ghost old_out = out@;
        let ghost old_perm = perm;
        out.insert(p, x);
        proof {
            let np = old_perm.insert(p as int, k);
            let ni = input.take(k + 1);
            assert(ni[k] == x);
            assert forall|j: int| 0 <= j < np.len() implies 0 <= #[trigger] np[j] < ni.len() && out@[j]
                == ni[np[j]] by {
                if j < p {
                    assert(np[j] == old_perm[j]);
                    assert(out@[j] == old_out[j]);
                } else if j == p {
                } else {
                    assert(np[j] == old_perm[j - 1]);
                    assert(out@[j] == old_out[j - 1]);
                }
            }
            assert forall|a: int, b: int| 0 <= a < b < np.len() implies #[trigger] np[a]
                != #[trigger] np[b] by {
                if a < p && b > p {
                    assert(np[b] == old_perm[b - 1]);
                } else if a > p {
                    assert(np[a] == old_perm[a - 1]);
                    assert(np[b] == old_perm[b - 1]);
                } else if b < p {
                } else if a == p {
                    assert(np[b] == old_perm[b - 1]);
                    assert(old_perm[b - 1] < k);
                } else {
                    assert(old_perm[a] < k);
                }
            }
            assert forall|i: int, j: int| 0 <= i <= j < out@.len() implies #[trigger] out@[i].step_order
                <= #[trigger] out@[j].step_order by {
                let oi = if i < p { i } else { i - 1 };
                let oj = if j <= p { j } else { j - 1 };
                if i < p && j < p {
                    assert(old_out[i].step_order <= old_out[j].step_order);
                } else if i < p && j == p {
                    assert(out@[i] == old_out[i]);
                } else if i < p && j > p {
                    assert(old_out[i].step_order <= old_out[j - 1].step_order);
                } else if i == p && j > p {
                    assert(old_out[p as int].step_order > x.step_order);
                    assert(old_out[p as int].step_order <= old_out[j - 1].step_order);
                } else if i > p {
                    assert(old_out[i - 1].step_order <= old_out[j - 1].step_order);
                }
            }
            assert forall|a: int, b: int|
                0 <= a < b < out@.len() && #[trigger] out@[a].step_order
                    == #[trigger] out@[b].step_order implies np[a] < np[b] by {
                if a < p && b > p {
                    assert(out@[b] == old_out[b - 1]);
                    assert(old_out[a].step_order == old_out[b - 1].step_order);
                } else if a > p {
                    assert(old_out[a - 1].step_order == old_out[b - 1].step_order);
                } else if b < p {
                } else if a == p {
                    assert(old_out[p as int].step_order > x.step_order);
                    assert(old_out[p as int].step_order <= old_out[b - 1].step_order);
                } else {
                    assert(old_perm[a] < k);
                }
            }
            perm = np;
            k = k + 1;
        }
    }
    proof {
        assert(input.take(k) =~= input);
    }
    out
}

/// What the arrow buttons of a step send as its new order: one place up
/// (`delta` -1) or down (`delta` 1).
pub fn moved_order(step_order: i64, delta: i64) -> (r: i64)
    requires
        i64::MIN <= step_order + delta <= i64::MAX,
    ensures
        r == step_order + delta,
{
    step_order + delta
}

} // verus!
