//! The bounded-recursion calibration: branch probabilities as exact integer
//! weights, and the shape of the layered generator a recursive strategy is
//! unrolled into.

use vstd::prelude::*;

verus! {

/// Total relative weight split between the two alternatives of one layer.
pub const WEIGHT_TOTAL: u32 = 1_000_000;

/// Largest weight the recursive alternative of a layer may receive: nine
/// tenths of the total, so the terminal alternative always keeps at least
/// one tenth.
pub const BRANCH_WEIGHT_CAP: u32 = 900_000;

/// The shape of a generator, as far as this crate builds it: a generator
/// taken as given, one application of a recursion step, or a weighted choice
/// between a terminal and a recursive alternative.
pub enum Shape {
    /// A generator handed in from outside; nothing of its inner structure is
    /// tracked.
    Leaf,
    /// The outcome of applying the recursion-step function once to a
    /// generator of the inner shape.
    Step(Box<Shape>),
    /// A weighted choice: with relative weight `leaf_weight` the terminal
    /// alternative `leaf`, with relative weight `branch_weight` the recursive
    /// alternative `branch`.
    Choice {
        /// Relative weight of the terminal alternative.
        leaf_weight: u32,
        /// Relative weight of the recursive alternative.
        branch_weight: u32,
        /// The terminal alternative.
        leaf: Box<Shape>,
        /// The recursive alternative.
        branch: Box<Shape>,
    },
}

/// Saturation at the largest `u64`, the cap the divisor accumulation uses.
pub open spec fn saturated_64(x: nat) -> nat {
    if x > u64::MAX { u64::MAX as nat } else { x }
}

/// The divisor used for the branch probability of layer `i` (outermost layer
/// first): starting from twice the expected branch size, each deeper layer
/// multiplies by that factor again, saturating instead of wrapping.
pub open spec fn k_at(expected_branch_size: u32, i: nat) -> nat
    decreases i,
{
    if i == 0 {
        2 * (expected_branch_size as nat)
    } else {
        saturated_64(k_at(expected_branch_size, (i - 1) as nat) * (2 * (expected_branch_size as nat)))
    }
}

/// The weight of the recursive alternative for probability `desired_size / k`,
/// as a share of `WEIGHT_TOTAL`, rounded to nearest and clamped to
/// `BRANCH_WEIGHT_CAP`. A divisor of zero degrades to weight zero.
pub open spec fn branch_weight_of(desired_size: u32, k: nat) -> nat {
    if k == 0 {
        0
    } else {
        let q = ((desired_size as nat) * (WEIGHT_TOTAL as nat) + k / 2) / k;
        if q > BRANCH_WEIGHT_CAP as nat {
            BRANCH_WEIGHT_CAP as nat
        } else {
            q
        }
    }
}

/// The `(branch, leaf)` weight pair of layer `i`.
pub open spec fn weight_pair_at(desired_size: u32, expected_branch_size: u32, i: nat) -> (u32, u32) {
    let bw = branch_weight_of(desired_size, k_at(expected_branch_size, i));
    (bw as u32, (WEIGHT_TOTAL as nat - bw) as u32)
}

/// The weight pairs of all `depth` layers, outermost first.
pub open spec fn weight_seq(depth: nat, desired_size: u32, expected_branch_size: u32) -> Seq<(u32, u32)> {
    Seq::new(depth, |i: int| weight_pair_at(desired_size, expected_branch_size, i as nat))
}

/// The shape of the generator the layered construction yields from a base
/// shape and the weight pairs `ws`, outermost first: each layer with a
/// positive branch weight wraps the shallower approximation in a weighted
/// choice between it and one recursion step around it; a layer with branch
/// weight zero adds nothing.
pub open spec fn layered(base: Shape, ws: Seq<(u32, u32)>) -> Shape
    decreases ws.len(),
{
    if ws.len() == 0 {
        base
    } else {
        let inner = layered(base, ws.drop_first());
        if ws[0].0 == 0 {
            inner
        } else {
            Shape::Choice {
                leaf_weight: ws[0].1,
                branch_weight: ws[0].0,
                leaf: Box::new(inner),
                branch: Box::new(Shape::Step(Box::new(inner))),
            }
        }
    }
}

/// How many recursion steps a shape nests, at worst: the recursive-construction
/// depth the layered generator can reach.
pub open spec fn shape_depth(s: Shape) -> nat
    decreases s,
{
    match s {
        Shape::Leaf => 0,
        Shape::Step(inner) => 1 + shape_depth(*inner),
        Shape::Choice { leaf, branch, .. } => {
            let a = shape_depth(*leaf);
            let b = shape_depth(*branch);
            if a >= b {
                a
            } else {
                b
            }
        },
    }
}

/// Whether a value free of further recursion steps can be drawn from a shape:
/// every choice on the way down to a leaf keeps a positive terminal weight.
pub open spec fn leaf_reachable(s: Shape) -> bool
    decreases s,
{
    match s {
        Shape::Leaf => true,
        Shape::Step(inner) => leaf_reachable(*inner),
        Shape::Choice { leaf_weight, leaf, .. } => leaf_weight > 0 && leaf_reachable(*leaf),
    }
}

/// The weight pair for probability `desired_size / k`: the recursive
/// alternative's weight first, the terminal one's second. They always sum to
/// `WEIGHT_TOTAL`.
pub fn weight_pair(desired_size: u32, k: u64) -> (r: (u32, u32))
    ensures
        r.0 as nat == branch_weight_of(desired_size, k as nat),
        r.0 + r.1 == WEIGHT_TOTAL,
        r.0 <= BRANCH_WEIGHT_CAP,
{
    if k == 0 {
        (0, WEIGHT_TOTAL)
    } else {
        assert((desired_size as u64) * (WEIGHT_TOTAL as u64) <= (u32::MAX as u64) * (WEIGHT_TOTAL as u64))
            by (nonlinear_arith)
            requires desired_size <= u32::MAX;
        let num: u64 = (desired_size as u64) * (WEIGHT_TOTAL as u64) + k / 2;
        let q: u64 = num / k;
        let bw: u64 = if q > (BRANCH_WEIGHT_CAP as u64) {
            BRANCH_WEIGHT_CAP as u64
        } else {
            q
        };
        (bw as u32, WEIGHT_TOTAL - (bw as u32))
    }
}

/// The weight pairs of all `depth` layers, outermost first, with the divisor
/// accumulated by saturating multiplication.
pub fn branch_weights(depth: u32, desired_size: u32, expected_branch_size: u32) -> (r: Vec<(u32, u32)>)
    ensures
        r@ == weight_seq(depth as nat, desired_size, expected_branch_size),
{
    let factor: u64 = (expected_branch_size as u64) * 2;
    let mut out: Vec<(u32, u32)> = Vec::new();
    let mut k: u64 = factor;
    let mut i: u32 = 0;
    while i < depth
        invariant
            i <= depth,
            factor == 2 * (expected_branch_size as nat),
            k as nat == k_at(expected_branch_size, i as nat),
            out@.len() == i as nat,
            forall|j: int| 0 <= j < i as int ==> out@[j]
                == weight_pair_at(desired_size, expected_branch_size, j as nat),
        decreases depth - i,
    {
        out.push(weight_pair(desired_size, k));
        if factor == 0 {
            k = 0;
        } else if k > u64::MAX / factor {
            assert(k as nat * factor as nat > u64::MAX) by (nonlinear_arith)
                requires k as nat > (u64::MAX as nat) / (factor as nat), factor as nat >= 1;
            k = u64::MAX;
        } else {
            assert(k as nat * factor as nat <= u64::MAX) by (nonlinear_arith)
                requires k as nat <= (u64::MAX as nat) / (factor as nat), factor as nat >= 1;
            k = k * factor;
        }
        i = i + 1;
    }
    proof {
        assert(out@ =~= weight_seq(depth as nat, desired_size, expected_branch_size));
    }
    out
}

/// Law: every branch weight handed to a layer is at most `BRANCH_WEIGHT_CAP`,
/// so the probability of the recursive alternative never exceeds nine tenths,
/// and the terminal alternative always keeps at least one tenth of the total.
pub proof fn lemma_weight_seq_clamped(depth: nat, desired_size: u32, expected_branch_size: u32)
    ensures
        forall|i: int| 0 <= i < depth ==> {
            let p = #[trigger] weight_seq(depth, desired_size, expected_branch_size)[i];
            p.0 <= BRANCH_WEIGHT_CAP
                && p.0 + p.1 == WEIGHT_TOTAL
                && p.1 >= WEIGHT_TOTAL - BRANCH_WEIGHT_CAP
        },
{
}

/// Law: the probability-to-weight conversion is monotonic in the probability:
/// over one divisor, a larger size hint never yields a smaller branch weight.
pub proof fn lemma_branch_weight_monotone(s1: u32, s2: u32, k: nat)
    requires
        s1 <= s2,
    ensures
        branch_weight_of(s1, k) <= branch_weight_of(s2, k),
{
    if k > 0 {
        let n1 = (s1 as nat) * (WEIGHT_TOTAL as nat) + k / 2;
        let n2 = (s2 as nat) * (WEIGHT_TOTAL as nat) + k / 2;
        assert((s1 as nat) * (WEIGHT_TOTAL as nat) <= (s2 as nat) * (WEIGHT_TOTAL as nat))
            by (nonlinear_arith)
            requires s1 <= s2;
        vstd::arithmetic::div_mod::lemma_div_is_ordered(n1 as int, n2 as int, k as int);
    }
}

/// Law: the conversion is exact at probability zero: a size hint of zero
/// yields branch weight zero over every divisor, so the choice degrades to
/// the terminal alternative alone.
pub proof fn lemma_branch_weight_exact_at_zero(k: nat)
    ensures
        branch_weight_of(0, k) == 0,
{
    if k > 0 {
        assert(k / 2 < k);
        vstd::arithmetic::div_mod::lemma_basic_div((k / 2) as int, k as int);
        assert((0 * (WEIGHT_TOTAL as nat) + k / 2) / k == 0);
    }
}

/// Law: unrolling adds at most one recursion step per layer, so the depth of
/// the layered shape is bounded by the base's depth plus the number of layers.
pub proof fn lemma_layered_depth(base: Shape, ws: Seq<(u32, u32)>)
    ensures
        shape_depth(layered(base, ws)) <= shape_depth(base) + ws.len(),
    decreases ws.len(),
{
    if ws.len() > 0 {
        lemma_layered_depth(base, ws.drop_first());
        let inner = layered(base, ws.drop_first());
        if ws[0].0 != 0 {
            assert(shape_depth(Shape::Step(Box::new(inner))) == 1 + shape_depth(inner));
            assert(shape_depth(layered(base, ws)) == 1 + shape_depth(inner));
        }
    }
}

/// Law: the depth of the generator built for a bound `depth` never exceeds the
/// base generator's depth plus `depth`, whatever the size and branch hints.
pub proof fn lemma_depth_bound(base: Shape, depth: nat, desired_size: u32, expected_branch_size: u32)
    ensures
        shape_depth(layered(base, weight_seq(depth, desired_size, expected_branch_size)))
            <= shape_depth(base) + depth,
{
    lemma_layered_depth(base, weight_seq(depth, desired_size, expected_branch_size));
}

/// Law: as long as every layer with a recursive alternative keeps a positive
/// terminal weight, a value of the base generator stays reachable from the
/// layered generator.
pub proof fn lemma_layered_leaf_reachable(base: Shape, ws: Seq<(u32, u32)>)
    requires
        leaf_reachable(base),
        forall|i: int| 0 <= i < ws.len() ==> (#[trigger] ws[i]).1 > 0 || ws[i].0 == 0,
    ensures
        leaf_reachable(layered(base, ws)),
    decreases ws.len(),
{
    if ws.len() > 0 {
        assert(forall|i: int| 0 <= i < ws.drop_first().len()
            ==> (#[trigger] ws.drop_first()[i]).1 > 0 || ws.drop_first()[i].0 == 0);
        lemma_layered_leaf_reachable(base, ws.drop_first());
    }
}

/// Law: with the weights this crate computes, the terminal alternative stays
/// reachable at every layer of the construction.
pub proof fn lemma_leaf_always_reachable(base: Shape, depth: nat, desired_size: u32, expected_branch_size: u32)
    requires
        leaf_reachable(base),
    ensures
        leaf_reachable(layered(base, weight_seq(depth, desired_size, expected_branch_size))),
{
    lemma_weight_seq_clamped(depth, desired_size, expected_branch_size);
    lemma_layered_leaf_reachable(base, weight_seq(depth, desired_size, expected_branch_size));
}

/// Helper: layers whose branch weight is zero add nothing, so a weight
/// sequence of zero branch weights leaves the base shape unchanged.
pub proof fn lemma_layered_all_zero(base: Shape, ws: Seq<(u32, u32)>)
    requires
        forall|i: int| 0 <= i < ws.len() ==> (#[trigger] ws[i]).0 == 0,
    ensures
        layered(base, ws) == base,
    decreases ws.len(),
{
    if ws.len() > 0 {
        assert(forall|i: int| 0 <= i < ws.drop_first().len()
            ==> (#[trigger] ws.drop_first()[i]).0 == 0);
        lemma_layered_all_zero(base, ws.drop_first());
    }
}

/// Law: a depth bound of zero unrolls no layer at all; the generator is the
/// base generator.
pub proof fn lemma_degenerate_zero_depth(base: Shape, desired_size: u32, expected_branch_size: u32)
    ensures
        layered(base, weight_seq(0, desired_size, expected_branch_size)) == base,
{
    lemma_layered_all_zero(base, weight_seq(0, desired_size, expected_branch_size));
}

/// Law: a desired size of zero drives every branch weight to zero, so the
/// generator degrades to the base generator whatever the depth and branch
/// hints are.
pub proof fn lemma_degenerate_zero_size(base: Shape, depth: nat, expected_branch_size: u32)
    ensures
        layered(base, weight_seq(depth, 0, expected_branch_size)) == base,
{
    assert forall|i: int| 0 <= i < depth implies
        (#[trigger] weight_seq(depth, 0, expected_branch_size)[i]).0 == 0 by {
        lemma_branch_weight_exact_at_zero(k_at(expected_branch_size, i as nat));
    }
    lemma_layered_all_zero(base, weight_seq(depth, 0, expected_branch_size));
}

/// Helper: with an expected branch size of zero every divisor is zero.
pub proof fn lemma_k_at_zero_branch(i: nat)
    ensures
        k_at(0, i) == 0,
    decreases i,
{
    if i > 0 {
        lemma_k_at_zero_branch((i - 1) as nat);
        assert(k_at(0, (i - 1) as nat) * (2 * (0u32 as nat)) == 0);
        assert(k_at(0, i) == saturated_64(0));
    }
}

/// Law: an expected branch size of zero drives every divisor, and with it
/// every branch weight, to zero: the generator degrades to the base generator.
pub proof fn lemma_degenerate_zero_branch(base: Shape, depth: nat, desired_size: u32)
    ensures
        layered(base, weight_seq(depth, desired_size, 0)) == base,
{
    assert forall|i: int| 0 <= i < depth implies
        (#[trigger] weight_seq(depth, desired_size, 0)[i]).0 == 0 by {
        lemma_k_at_zero_branch(i as nat);
    }
    lemma_layered_all_zero(base, weight_seq(depth, desired_size, 0));
}

} // verus!
