//! Properties that hold across the metrics, proved over their specifications.
use vstd::prelude::*;

use crate::cluster_rolls::{cluster_eligible, ClusterRolls};
use crate::key::{finger_distance, Finger, LayerKey};
use crate::movement_pattern::MovementPattern;
use crate::position_penalties::PositionPenalties;
use crate::roll_stats::{center_south_roll, inward_roll, outward_roll};
use crate::scissoring::{ScissorBucket, Scissoring};

verus! {

/// Every factor that the metrics hand out is one of their configured values:
/// whatever holds of all configured costs and multipliers (for instance, that
/// they are not negative) holds of what is charged for any key or bigram.
pub proof fn lemma_costs_come_from_configuration<C: Copy>(
    cluster: ClusterRolls<C>,
    movement: MovementPattern<C>,
    scissoring: Scissoring<C>,
    penalties: PositionPenalties<C>,
    k1: LayerKey,
    k2: LayerKey,
    ok: spec_fn(C) -> bool,
)
    requires
        forall|from, to| ok(#[trigger] cluster.cost(from, to)),
        forall|f| (#[trigger] cluster.multiplier(f)) matches Some(m) ==> ok(m),
        forall|from, to| (#[trigger] movement.switch_cost(from, to)) matches Some(c) ==> ok(c),
        forall|b: ScissorBucket| ok(#[trigger] scissoring.bucket_cost(b)),
        forall|s, p| (#[trigger] penalties.penalty_at(s, p)) matches Some(c) ==> ok(c),
    ensures
        cluster.factors_of(k1, k2) matches Some((c, m)) ==> ok(c) && (m matches Some(x) ==> ok(
            x,
        )),
        movement.base_cost_of(k1, k2) matches Some(c) ==> ok(c),
        scissoring.base_cost_of(k1, k2) matches Some(c) ==> ok(c),
        penalties.penalty_at(k1.symbol, k1.key.matrix_position) matches Some(c) ==> ok(c),
{
    if cluster_eligible(k1, k2) {
        assert(ok(cluster.cost(k1.key.direction, k2.key.direction)));
        assert(cluster.multiplier(k1.key.finger) matches Some(m) ==> ok(m));
    }
    assert(movement.switch_cost((k1.key.hand, k1.key.finger), (k2.key.hand, k2.key.finger)) matches Some(c) ==> ok(c));
}

/// A bigram across the two hands costs nothing under cluster rolls, movement
/// patterns and scissoring.
pub proof fn lemma_different_hands_cost_nothing<C: Copy>(
    cluster: ClusterRolls<C>,
    movement: MovementPattern<C>,
    scissoring: Scissoring<C>,
    k1: LayerKey,
    k2: LayerKey,
)
    requires
        k1.key.hand != k2.key.hand,
    ensures
        cluster.factors_of(k1, k2) is None,
        movement.base_cost_of(k1, k2) is None,
        scissoring.base_cost_of(k1, k2) is None,
{
}

/// A modifier key-occurrence followed by itself costs nothing under cluster
/// rolls.
pub proof fn lemma_repeated_modifier_costs_nothing<C: Copy>(cluster: ClusterRolls<C>, k: LayerKey)
    requires
        k.is_modifier is Some,
    ensures
        cluster.factors_of(k, k) is None,
{
}

/// On one hand, a bigram either uses one finger twice (only cluster rolls may
/// price it), or two different fingers neither of which is the thumb (only
/// movement patterns may price it), or two different fingers one of which is
/// the thumb (neither prices it); exactly one of the three holds.
pub proof fn lemma_cluster_and_movement_exclusive<C: Copy>(
    cluster: ClusterRolls<C>,
    movement: MovementPattern<C>,
    k1: LayerKey,
    k2: LayerKey,
)
    requires
        k1.key.hand == k2.key.hand,
    ensures
        ({
            let same = k1.key.finger == k2.key.finger;
            let thumb = k1.key.finger == Finger::Thumb || k2.key.finger == Finger::Thumb;
            let different_fingers = !same && !thumb;
            let thumb_pair = !same && thumb;
            &&& same || different_fingers || thumb_pair
            &&& !(same && different_fingers) && !(same && thumb_pair) && !(different_fingers
                && thumb_pair)
            &&& same ==> movement.base_cost_of(k1, k2) is None
            &&& different_fingers ==> cluster.factors_of(k1, k2) is None
            &&& thumb_pair ==> cluster.factors_of(k1, k2) is None && movement.base_cost_of(
                k1,
                k2,
            ) is None
        }),
        !(cluster.factors_of(k1, k2) is Some && movement.base_cost_of(k1, k2) is Some),
{
}

/// Scissoring costs nothing unless the two fingers are adjacent and neither
/// is the thumb.
pub proof fn lemma_scissoring_needs_adjacent_fingers<C: Copy>(
    scissoring: Scissoring<C>,
    k1: LayerKey,
    k2: LayerKey,
)
    requires
        finger_distance(k1.key.finger, k2.key.finger) != 1 || k1.key.finger == Finger::Thumb
            || k2.key.finger == Finger::Thumb,
    ensures
        scissoring.base_cost_of(k1, k2) is None,
{
}

/// The metrics are functions of their inputs: equal inputs give equal costs,
/// however often they are asked.
pub proof fn lemma_costs_are_deterministic<C: Copy>(
    cluster: ClusterRolls<C>,
    movement: MovementPattern<C>,
    scissoring: Scissoring<C>,
    penalties: PositionPenalties<C>,
    k1: LayerKey,
    k2: LayerKey,
    l1: LayerKey,
    l2: LayerKey,
)
    requires
        k1 == l1,
        k2 == l2,
    ensures
        cluster.factors_of(k1, k2) == cluster.factors_of(l1, l2),
        movement.base_cost_of(k1, k2) == movement.base_cost_of(l1, l2),
        scissoring.base_cost_of(k1, k2) == scissoring.base_cost_of(l1, l2),
        penalties.penalty_at(k1.symbol, k1.key.matrix_position) == penalties.penalty_at(
            l1.symbol,
            l1.key.matrix_position,
        ),
{
}

/// The three roll kinds never overlap, so the order in which a bigram is
/// tested against them does not matter.
pub proof fn lemma_roll_kinds_exclusive(k1: LayerKey, k2: LayerKey)
    ensures
        !(inward_roll(k1, k2) && outward_roll(k1, k2)),
        !(inward_roll(k1, k2) && center_south_roll(k1, k2)),
        !(outward_roll(k1, k2) && center_south_roll(k1, k2)),
{
}

} // verus!
