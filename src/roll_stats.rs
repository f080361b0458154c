//! [`RollStats`] classifies bigrams into inward rolls, outward rolls and
//! center-to-south rolls. It is informational: it prices nothing, and the
//! caller reports the weighted share of each kind.
use vstd::prelude::*;

use crate::key::{Finger, Hand, LayerKey, CENTER_ROW, SOUTH_ROW};

verus! {

/// Which keys a [`RollStats`] leaves out of its statistics.
#[derive(Clone, Copy, Debug)]
pub struct Parameters {
    pub ignore_modifiers: bool,
    pub ignore_thumbs: bool,
}

#[derive(Clone, Copy, Debug)]
pub struct RollStats {
    ignore_modifiers: bool,
    ignore_thumbs: bool,
}

/// The kind of a bigram, as far as rolls are concerned.
#[derive(Clone, Copy, PartialEq, Eq, Structural, Debug)]
pub enum RollKind {
    /// One of the keys is left out; the bigram does not count at all.
    Ignored,
    Inward,
    Outward,
    CenterSouth,
    /// Counts towards the total weight, but is no roll.
    NoRoll,
}

/// Same hand, different fingers, and the column moves towards the index finger.
pub open spec fn inward_roll(k1: LayerKey, k2: LayerKey) -> bool {
    &&& k1.key.hand == k2.key.hand
    &&& k1.key.finger != k2.key.finger
    &&& match k1.key.hand {
        Hand::Left => k1.key.matrix_position.0 < k2.key.matrix_position.0,
        Hand::Right => k1.key.matrix_position.0 > k2.key.matrix_position.0,
    }
}

/// Same hand, different fingers, and the column moves towards the pinky.
pub open spec fn outward_roll(k1: LayerKey, k2: LayerKey) -> bool {
    &&& k1.key.hand == k2.key.hand
    &&& k1.key.finger != k2.key.finger
    &&& match k1.key.hand {
        Hand::Left => k1.key.matrix_position.0 > k2.key.matrix_position.0,
        Hand::Right => k1.key.matrix_position.0 < k2.key.matrix_position.0,
    }
}

/// Same finger and column, from the center row down to the south row.
pub open spec fn center_south_roll(k1: LayerKey, k2: LayerKey) -> bool {
    &&& k1.key.finger == k2.key.finger
    &&& k1.key.matrix_position.0 == k2.key.matrix_position.0
    &&& k1.key.matrix_position.1 == CENTER_ROW
    &&& k2.key.matrix_position.1 == SOUTH_ROW
}

impl RollStats {
    pub closed spec fn ignores_modifiers(&self) -> bool {
        self.ignore_modifiers
    }

    pub closed spec fn ignores_thumbs(&self) -> bool {
        self.ignore_thumbs
    }

    pub open spec fn ignored_key(&self, key: LayerKey) -> bool {
        (self.ignores_thumbs() && key.key.finger == Finger::Thumb) || (self.ignores_modifiers()
            && key.is_modifier.is_some())
    }

    /// The kind of a bigram; the roll kinds are tried in the order inward,
    /// outward, center-to-south.
    pub open spec fn roll_kind(&self, k1: LayerKey, k2: LayerKey) -> RollKind {
        if self.ignored_key(k1) || self.ignored_key(k2) {
            RollKind::Ignored
        } else if inward_roll(k1, k2) {
            RollKind::Inward
        } else if outward_roll(k1, k2) {
            RollKind::Outward
        } else if center_south_roll(k1, k2) {
            RollKind::CenterSouth
        } else {
            RollKind::NoRoll
        }
    }

    pub fn new(params: &Parameters) -> (r: Self)
        ensures
            r.ignores_modifiers() == params.ignore_modifiers,
            r.ignores_thumbs() == params.ignore_thumbs,
    {
        Self { ignore_modifiers: params.ignore_modifiers, ignore_thumbs: params.ignore_thumbs }
    }

    fn should_ignore_key(&self, key: &LayerKey) -> (r: bool)
        ensures
            r == self.ignored_key(*key),
    {
        (self.ignore_thumbs && key.key.finger == Finger::Thumb) || (self.ignore_modifiers
            && key.is_modifier.is_some())
    }

    fn is_inward_roll(&self, k1: &LayerKey, k2: &LayerKey) -> (r: bool)
        ensures
            r == inward_roll(*k1, *k2),
    {
        if k1.key.hand != k2.key.hand || k1.key.finger == k2.key.finger {
            return false;
        }
        match k1.key.hand {
            Hand::Left => k1.key.matrix_position.0 < k2.key.matrix_position.0,
            Hand::Right => k1.key.matrix_position.0 > k2.key.matrix_position.0,
        }
    }

    fn is_outward_roll(&self, k1: &LayerKey, k2: &LayerKey) -> (r: bool)
        ensures
            r == outward_roll(*k1, *k2),
    {
        if k1.key.hand != k2.key.hand || k1.key.finger == k2.key.finger {
            return false;
        }
        match k1.key.hand {
            Hand::Left => k1.key.matrix_position.0 > k2.key.matrix_position.0,
            Hand::Right => k1.key.matrix_position.0 < k2.key.matrix_position.0,
        }
    }

    fn is_center_south_roll(&self, k1: &LayerKey, k2: &LayerKey) -> (r: bool)
        ensures
            r == center_south_roll(*k1, *k2),
    {
        k1.key.finger == k2.key.finger && k1.key.matrix_position.0 == k2.key.matrix_position.0
            && k1.key.matrix_position.1 == CENTER_ROW && k2.key.matrix_position.1 == SOUTH_ROW
    }

    pub fn name(&self) -> (r: &'static str) {
        "Roll Statistics"
    }

    /// The kind of one bigram.
    pub fn classify(&self, k1: &LayerKey, k2: &LayerKey) -> (r: RollKind)
        ensures
            r == self.roll_kind(*k1, *k2),
    {
        if self.should_ignore_key(k1) || self.should_ignore_key(k2) {
            RollKind::Ignored
        } else if self.is_inward_roll(k1, k2) {
            RollKind::Inward
        } else if self.is_outward_roll(k1, k2) {
            RollKind::Outward
        } else if self.is_center_south_roll(k1, k2) {
            RollKind::CenterSouth
        } else {
            RollKind::NoRoll
        }
    }

    /// The kind of each bigram of a corpus, in corpus order.
    pub fn classify_all(&self, bigrams: &[(LayerKey, LayerKey)]) -> (r: Vec<RollKind>)
        ensures
            r@.len() == bigrams@.len(),
            forall|i: int|
                0 <= i < bigrams@.len() ==> r@[i] == #[trigger] self.roll_kind(
                    bigrams@[i].0,
                    bigrams@[i].1,
                ),
    {
        let mut r: Vec<RollKind> = Vec::new();
        let mut i: usize = 0;
        while i < bigrams.len()
            invariant
                i <= bigrams@.len(),
                r@.len() == i,
                forall|j: int|
                    0 <= j < i ==> r@[j] == #[trigger] self.roll_kind(bigrams@[j].0, bigrams@[j].1),
            decreases bigrams@.len() - i,
        {
            let kind = self.classify(&bigrams[i].0, &bigrams[i].1);
            r.push(kind);
            i += 1;
        }
        r
    }
}

} // verus!
