//! [`Scissoring`] prices awkward transitions between adjacent fingers of one
//! hand by the directions that the two keys are reached from.
use vstd::prelude::*;

use crate::key::{finger_distance, finger_index, Direction, Finger, LayerKey};

verus! {

/// The five costs of a [`Scissoring`].
#[derive(Clone, Copy, Debug)]
pub struct Parameters<C> {
    pub south_north_cost: C,
    pub lateral_squeeze_cost: C,
    pub lateral_splay_cost: C,
    pub lateral_series_cost: C,
    pub lateral_center_cost: C,
}

#[derive(Clone, Copy, Debug)]
pub struct Scissoring<C> {
    south_north_cost: C,
    lateral_squeeze_cost: C,
    lateral_splay_cost: C,
    lateral_series_cost: C,
    lateral_center_cost: C,
}

/// Which of the five costs a bigram is charged, if any.
#[derive(Clone, Copy, PartialEq, Eq, Structural, Debug)]
pub enum ScissorBucket {
    /// South to north, or north to south.
    SouthNorth,
    /// In to in, or out to out.
    LateralSeries,
    /// In or out paired with center, either way round.
    LateralCenter,
    /// In and out that close towards each other.
    LateralSqueeze,
    /// In and out that open away from each other.
    LateralSplay,
}

/// The bigram is one that scissoring is about: the same hand, two adjacent
/// fingers, neither of them the thumb, and not a held modifier pressed twice.
pub open spec fn scissor_eligible(k1: LayerKey, k2: LayerKey) -> bool {
    &&& !(k1 == k2 && k1.is_modifier.is_some())
    &&& k1.key.hand == k2.key.hand
    &&& finger_distance(k1.key.finger, k2.key.finger) == 1
    &&& k1.key.finger != Finger::Thumb
    &&& k2.key.finger != Finger::Thumb
}

/// A lateral in/out pair is a squeeze when the motion towards the index finger
/// differs from whether it starts out.
pub open spec fn is_squeeze(f_from: Finger, f_to: Finger, d_from: Direction) -> bool {
    (finger_index(f_from) > finger_index(f_to)) != (d_from == Direction::Out)
}

/// The cost bucket of a bigram between two eligible keys.
pub open spec fn direction_bucket(
    f_from: Finger,
    f_to: Finger,
    d_from: Direction,
    d_to: Direction,
) -> Option<ScissorBucket> {
    match (d_from, d_to) {
        (Direction::South, Direction::North) | (Direction::North, Direction::South) => Some(
            ScissorBucket::SouthNorth,
        ),
        (Direction::In, Direction::In) | (Direction::Out, Direction::Out) => Some(
            ScissorBucket::LateralSeries,
        ),
        (Direction::In, Direction::Center)
        | (Direction::Out, Direction::Center)
        | (Direction::Center, Direction::In)
        | (Direction::Center, Direction::Out) => Some(ScissorBucket::LateralCenter),
        (Direction::In, Direction::Out) | (Direction::Out, Direction::In) => if is_squeeze(
            f_from,
            f_to,
            d_from,
        ) {
            Some(ScissorBucket::LateralSqueeze)
        } else {
            Some(ScissorBucket::LateralSplay)
        },
        _ => None,
    }
}

/// The cost bucket of any bigram; `None` when it costs nothing.
pub open spec fn scissor_bucket(k1: LayerKey, k2: LayerKey) -> Option<ScissorBucket> {
    if scissor_eligible(k1, k2) {
        direction_bucket(k1.key.finger, k2.key.finger, k1.key.direction, k2.key.direction)
    } else {
        None
    }
}

impl<C: Copy> Scissoring<C> {
    /// The configured cost of a bucket.
    pub closed spec fn bucket_cost(&self, b: ScissorBucket) -> C {
        match b {
            ScissorBucket::SouthNorth => self.south_north_cost,
            ScissorBucket::LateralSeries => self.lateral_series_cost,
            ScissorBucket::LateralCenter => self.lateral_center_cost,
            ScissorBucket::LateralSqueeze => self.lateral_squeeze_cost,
            ScissorBucket::LateralSplay => self.lateral_splay_cost,
        }
    }

    /// The base cost charged for a bigram; `None` stands for zero cost.
    pub open spec fn base_cost_of(&self, k1: LayerKey, k2: LayerKey) -> Option<C> {
        match scissor_bucket(k1, k2) {
            Some(b) => Some(self.bucket_cost(b)),
            None => None,
        }
    }

    pub fn new(params: &Parameters<C>) -> (r: Self)
        ensures
            r.bucket_cost(ScissorBucket::SouthNorth) == params.south_north_cost,
            r.bucket_cost(ScissorBucket::LateralSqueeze) == params.lateral_squeeze_cost,
            r.bucket_cost(ScissorBucket::LateralSplay) == params.lateral_splay_cost,
            r.bucket_cost(ScissorBucket::LateralSeries) == params.lateral_series_cost,
            r.bucket_cost(ScissorBucket::LateralCenter) == params.lateral_center_cost,
    {
        Self {
            south_north_cost: params.south_north_cost,
            lateral_squeeze_cost: params.lateral_squeeze_cost,
            lateral_splay_cost: params.lateral_splay_cost,
            lateral_series_cost: params.lateral_series_cost,
            lateral_center_cost: params.lateral_center_cost,
        }
    }

    pub fn name(&self) -> (r: &'static str) {
        "Scissoring"
    }

    /// The cost bucket of a bigram; `None` when it costs nothing.
    pub fn bucket(k1: &LayerKey, k2: &LayerKey) -> (r: Option<ScissorBucket>)
        ensures
            r == scissor_bucket(*k1, *k2),
    {
        if (*k1 == *k2 && k1.is_modifier.is_some()) || k1.key.hand != k2.key.hand
            || k1.key.finger.distance(&k2.key.finger) != 1 || k1.key.finger == Finger::Thumb
            || k2.key.finger == Finger::Thumb {
            return None;
        }
        let finger_from = k1.key.finger;
        let finger_to = k2.key.finger;
        let dir_from = k1.key.direction;
        let dir_to = k2.key.direction;
        match (dir_from, dir_to) {
            (Direction::South, Direction::North) | (Direction::North, Direction::South) => Some(
                ScissorBucket::SouthNorth,
            ),
            (Direction::In, Direction::In) | (Direction::Out, Direction::Out) => Some(
                ScissorBucket::LateralSeries,
            ),
            (Direction::In, Direction::Center)
            | (Direction::Out, Direction::Center)
            | (Direction::Center, Direction::In)
            | (Direction::Center, Direction::Out) => Some(ScissorBucket::LateralCenter),
            (Direction::In, Direction::Out) | (Direction::Out, Direction::In) => {
                let inward_motion: bool = finger_from.numeric_index() > finger_to.numeric_index();
                let squeeze: bool = inward_motion != (dir_from == Direction::Out);
                if squeeze {
                    Some(ScissorBucket::LateralSqueeze)
                } else {
                    Some(ScissorBucket::LateralSplay)
                }
            },
            _ => None,
        }
    }

    /// The base cost of a bigram, which the caller multiplies by the bigram's
    /// weight; `None` when the bigram costs nothing.
    pub fn base_cost(&self, k1: &LayerKey, k2: &LayerKey) -> (r: Option<C>)
        ensures
            r == self.base_cost_of(*k1, *k2),
    {
        match Self::bucket(k1, k2) {
            Some(ScissorBucket::SouthNorth) => Some(self.south_north_cost),
            Some(ScissorBucket::LateralSeries) => Some(self.lateral_series_cost),
            Some(ScissorBucket::LateralCenter) => Some(self.lateral_center_cost),
            Some(ScissorBucket::LateralSqueeze) => Some(self.lateral_squeeze_cost),
            Some(ScissorBucket::LateralSplay) => Some(self.lateral_splay_cost),
            None => None,
        }
    }
}

} // verus!
