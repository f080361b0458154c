//! [`ClusterRolls`] prices how an intra-cluster roll feels: two symbols reached
//! by the same finger of the same hand, priced by the pair of directions they
//! are reached from and scaled by a per-finger multiplier.
use vstd::prelude::*;

use crate::key::{
    direction_index, finger_index, Direction, Finger, LayerKey, NUM_DIRECTIONS, NUM_FINGERS,
};
use crate::table::PairTable;

verus! {

/// Configuration of a [`ClusterRolls`].
#[derive(Clone, Debug)]
pub struct Parameters<C> {
    /// Cost of a direction pair that `costs` does not name.
    pub default_cost: C,
    /// Cost of going from the first direction to the second; a later entry
    /// for the same pair replaces an earlier one.
    pub costs: Vec<(Direction, Direction, C)>,
    /// Multiplier of a finger; a finger not named here has the neutral
    /// multiplier (one). A later entry replaces an earlier one.
    pub finger_multipliers: Vec<(Finger, C)>,
}

#[derive(Debug)]
pub struct ClusterRolls<C> {
    /// Base costs by direction pair, with the default in every pair that the
    /// configuration does not name.
    costs: PairTable<C>,
    finger_multipliers: Vec<Option<C>>,
}

/// The cost that a list of entries gives to a direction pair: that of the
/// last entry for the pair, else the default.
pub open spec fn configured_cost<C>(
    entries: Seq<(Direction, Direction, C)>,
    from: Direction,
    to: Direction,
    default: C,
) -> C
    decreases entries.len(),
{
    if entries.len() == 0 {
        default
    } else if entries.last().0 == from && entries.last().1 == to {
        entries.last().2
    } else {
        configured_cost(entries.drop_last(), from, to, default)
    }
}

/// The multiplier that a list of entries gives to a finger: that of the last
/// entry for the finger, if there is one.
pub open spec fn configured_multiplier<C>(entries: Seq<(Finger, C)>, f: Finger) -> Option<C>
    decreases entries.len(),
{
    if entries.len() == 0 {
        None
    } else if entries.last().0 == f {
        Some(entries.last().1)
    } else {
        configured_multiplier(entries.drop_last(), f)
    }
}

/// The bigram is an intra-cluster roll: same hand, same finger, and not a held
/// modifier pressed twice.
pub open spec fn cluster_eligible(k1: LayerKey, k2: LayerKey) -> bool {
    &&& !(k1 == k2 && k1.is_modifier.is_some())
    &&& k1.key.hand == k2.key.hand
    &&& k1.key.finger == k2.key.finger
}

impl<C> ClusterRolls<C> {
    #[verifier::type_invariant]
    closed spec fn inv(&self) -> bool {
        &&& self.costs.wf()
        &&& self.costs.size() == NUM_DIRECTIONS
        &&& self.finger_multipliers@.len() == NUM_FINGERS
    }

    /// The base cost of going from one direction to another.
    pub closed spec fn cost(&self, from: Direction, to: Direction) -> C {
        self.costs.cell(direction_index(from) as int, direction_index(to) as int)
    }

    /// The configured multiplier of a finger; `None` stands for one.
    pub closed spec fn multiplier(&self, f: Finger) -> Option<C> {
        self.finger_multipliers@[finger_index(f) as int]
    }

    /// The base cost and the finger multiplier of a bigram, whose product
    /// times the weight is its cost; `None` when it costs nothing.
    pub open spec fn factors_of(&self, k1: LayerKey, k2: LayerKey) -> Option<(C, Option<C>)> {
        if cluster_eligible(k1, k2) {
            Some((self.cost(k1.key.direction, k2.key.direction), self.multiplier(k1.key.finger)))
        } else {
            None
        }
    }
}

impl<C: Copy> ClusterRolls<C> {
    pub fn new(params: &Parameters<C>) -> (r: Self)
        ensures
            forall|from: Direction, to: Direction|
                #[trigger] r.cost(from, to) == configured_cost(
                    params.costs@,
                    from,
                    to,
                    params.default_cost,
                ),
            forall|f: Finger|
                #[trigger] r.multiplier(f) == configured_multiplier(params.finger_multipliers@, f),
    {
        let mut costs = PairTable::filled(NUM_DIRECTIONS, params.default_cost);
        let mut i: usize = 0;
        while i < params.costs.len()
            invariant
                i <= params.costs@.len(),
                costs.wf(),
                costs.size() == NUM_DIRECTIONS,
                forall|from: Direction, to: Direction|
                    #[trigger] costs.cell(direction_index(from) as int, direction_index(to) as int)
                        == configured_cost(
                        params.costs@.take(i as int),
                        from,
                        to,
                        params.default_cost,
                    ),
            decreases params.costs@.len() - i,
        {
            let (from, to, cost) = params.costs[i];
            costs.set(from.numeric_index(), to.numeric_index(), cost);
            assert(params.costs@.take(i + 1).drop_last() =~= params.costs@.take(i as int));
            i += 1;
        }
        assert(params.costs@.take(i as int) =~= params.costs@);

        let mut finger_multipliers: Vec<Option<C>> = Vec::new();
        let mut k: usize = 0;
        while k < NUM_FINGERS
            invariant
                k <= NUM_FINGERS,
                finger_multipliers@.len() == k,
                forall|m: int| 0 <= m < k ==> finger_multipliers@[m] == None::<C>,
            decreases NUM_FINGERS - k,
        {
            finger_multipliers.push(None);
            k += 1;
        }
        let mut j: usize = 0;
        while j < params.finger_multipliers.len()
            invariant
                j <= params.finger_multipliers@.len(),
                finger_multipliers@.len() == NUM_FINGERS,
                forall|f: Finger|
                    #[trigger] finger_multipliers@[finger_index(f) as int] == configured_multiplier(
                        params.finger_multipliers@.take(j as int),
                        f,
                    ),
            decreases params.finger_multipliers@.len() - j,
        {
            let (f, m) = params.finger_multipliers[j];
            finger_multipliers.set(f.numeric_index(), Some(m));
            assert(params.finger_multipliers@.take(j + 1).drop_last()
                =~= params.finger_multipliers@.take(j as int));
            j += 1;
        }
        assert(params.finger_multipliers@.take(j as int) =~= params.finger_multipliers@);
        ClusterRolls { costs, finger_multipliers }
    }

    pub fn name(&self) -> (r: &'static str) {
        "Cluster Rolls"
    }

    /// The base cost and the finger multiplier of a bigram, which the caller
    /// multiplies with its weight (a missing multiplier counts as one);
    /// `None` when the bigram costs nothing.
    pub fn cost_factors(&self, k1: &LayerKey, k2: &LayerKey) -> (r: Option<(C, Option<C>)>)
        ensures
            r == self.factors_of(*k1, *k2),
    {
        proof {
            use_type_invariant(self);
        }
        if (*k1 == *k2 && k1.is_modifier.is_some()) || k1.key.hand != k2.key.hand
            || k1.key.finger != k2.key.finger {
            return None;
        }
        let finger = k1.key.finger;
        let dir_from = k1.key.direction;
        let dir_to = k2.key.direction;
        let base_cost = self.costs.get(dir_from.numeric_index(), dir_to.numeric_index());
        let multiplier = self.finger_multipliers[finger.numeric_index()];
        Some((base_cost, multiplier))
    }
}

} // verus!
