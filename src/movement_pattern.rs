//! [`MovementPattern`] puts a cost on each bigram between two different
//! fingers of the same hand, thumbs excepted. Which finger combinations come
//! with which costs is configurable, and the cost of a combination depends on
//! its direction.
use vstd::prelude::*;

use crate::key::{hand_finger_index, hand_finger_position, Finger, Hand, LayerKey, NUM_FINGERS};
use crate::table::PairTable;

verus! {

/// The cost of going from one finger to another.
#[derive(Debug)]
pub struct FingerSwitchCost<C> {
    pub from: (Hand, Finger),
    pub to: (Hand, Finger),
    pub cost: C,
}

/// Configuration of a [`MovementPattern`].
#[derive(Debug)]
pub struct Parameters<C> {
    /// Cost of bigrams from a finger to another one; a later entry for the
    /// same pair replaces an earlier one, and a pair named nowhere costs nothing.
    pub finger_switch_factor: Vec<FingerSwitchCost<C>>,
}

#[derive(Debug)]
pub struct MovementPattern<C> {
    finger_switch_factor: PairTable<Option<C>>,
}

/// The cost that a list of entries gives to going from one finger to another:
/// that of the last entry for the pair, if there is one.
pub open spec fn configured_switch_cost<C>(
    entries: Seq<FingerSwitchCost<C>>,
    from: (Hand, Finger),
    to: (Hand, Finger),
) -> Option<C>
    decreases entries.len(),
{
    if entries.len() == 0 {
        None
    } else if entries.last().from == from && entries.last().to == to {
        Some(entries.last().cost)
    } else {
        configured_switch_cost(entries.drop_last(), from, to)
    }
}

/// The bigram is a movement between two different non-thumb fingers of one hand.
pub open spec fn movement_eligible(k1: LayerKey, k2: LayerKey) -> bool {
    &&& k1.key.finger != Finger::Thumb
    &&& k2.key.finger != Finger::Thumb
    &&& k1.key.hand == k2.key.hand
    &&& k1.key.finger != k2.key.finger
}

impl<C> MovementPattern<C> {
    #[verifier::type_invariant]
    closed spec fn inv(&self) -> bool {
        &&& self.finger_switch_factor.wf()
        &&& self.finger_switch_factor.size() == 2 * NUM_FINGERS
    }

    /// The configured cost of going from one finger to another; `None` when
    /// the pair is not configured, which stands for zero cost.
    pub closed spec fn switch_cost(&self, from: (Hand, Finger), to: (Hand, Finger)) -> Option<C> {
        self.finger_switch_factor.cell(
            hand_finger_index(from.0, from.1) as int,
            hand_finger_index(to.0, to.1) as int,
        )
    }

    /// The base cost of a bigram, whose product with the weight is its cost;
    /// `None` when it costs nothing.
    pub open spec fn base_cost_of(&self, k1: LayerKey, k2: LayerKey) -> Option<C> {
        if movement_eligible(k1, k2) {
            self.switch_cost((k1.key.hand, k1.key.finger), (k2.key.hand, k2.key.finger))
        } else {
            None
        }
    }
}

impl<C: Copy> MovementPattern<C> {
    pub fn new(params: &Parameters<C>) -> (r: Self)
        ensures
            forall|from: (Hand, Finger), to: (Hand, Finger)|
                #[trigger] r.switch_cost(from, to) == configured_switch_cost(
                    params.finger_switch_factor@,
                    from,
                    to,
                ),
    {
        let mut table: PairTable<Option<C>> = PairTable::filled(2 * NUM_FINGERS, None);
        let mut i: usize = 0;
        while i < params.finger_switch_factor.len()
            invariant
                i <= params.finger_switch_factor@.len(),
                table.wf(),
                table.size() == 2 * NUM_FINGERS,
                forall|h1: Hand, f1: Finger, h2: Hand, f2: Finger|
                    #[trigger] table.cell(
                        hand_finger_index(h1, f1) as int,
                        hand_finger_index(h2, f2) as int,
                    ) == configured_switch_cost(
                        params.finger_switch_factor@.take(i as int),
                        (h1, f1),
                        (h2, f2),
                    ),
            decreases params.finger_switch_factor@.len() - i,
        {
            let fsc = &params.finger_switch_factor[i];
            let from = hand_finger_position(fsc.from.0, fsc.from.1);
            let to = hand_finger_position(fsc.to.0, fsc.to.1);
            table.set(from, to, Some(fsc.cost));
            assert(params.finger_switch_factor@.take(i + 1).drop_last()
                =~= params.finger_switch_factor@.take(i as int));
            i += 1;
        }
        assert(params.finger_switch_factor@.take(i as int) =~= params.finger_switch_factor@);
        let r = MovementPattern { finger_switch_factor: table };
        assert forall|from: (Hand, Finger), to: (Hand, Finger)|
            #[trigger] r.switch_cost(from, to) == configured_switch_cost(
                params.finger_switch_factor@,
                from,
                to,
            ) by {
            assert(table.cell(
                hand_finger_index(from.0, from.1) as int,
                hand_finger_index(to.0, to.1) as int,
            ) == configured_switch_cost(params.finger_switch_factor@, (from.0, from.1), (to.0, to.1)));
        }
        r
    }

    pub fn name(&self) -> (r: &'static str) {
        "Movement Pattern"
    }

    /// The base cost of a bigram, which the caller multiplies by the bigram's
    /// weight; `None` when the bigram costs nothing.
    pub fn base_cost(&self, k1: &LayerKey, k2: &LayerKey) -> (r: Option<C>)
        ensures
            r == self.base_cost_of(*k1, *k2),
    {
        proof {
            use_type_invariant(self);
        }
        let f1 = k1.key.finger;
        let f2 = k2.key.finger;
        let h1 = k1.key.hand;
        let h2 = k2.key.hand;
        if f1 == Finger::Thumb || f2 == Finger::Thumb || h1 != h2 || f1 == f2 {
            return None;
        }
        self.finger_switch_factor.get(hand_finger_position(h1, f1), hand_finger_position(h2, f2))
    }
}

} // verus!
