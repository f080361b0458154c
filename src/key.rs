//! The physical and ergonomic data model shared by all metrics.
use vstd::prelude::*;

verus! {

/// The hand that operates a key.
#[derive(Clone, Copy, PartialEq, Eq, Structural, Debug, Hash)]
pub enum Hand {
    Left,
    Right,
}

/// The finger that operates a key.
#[derive(Clone, Copy, PartialEq, Eq, Structural, Debug, Hash)]
pub enum Finger {
    Thumb,
    Index,
    Middle,
    Ring,
    Pinky,
}

/// Where on its physical key a symbol is reached from.
#[derive(Clone, Copy, PartialEq, Eq, Structural, Debug, Hash)]
pub enum Direction {
    Center,
    North,
    South,
    In,
    Out,
    Up,
    Down,
    Pad,
    Nail,
    Knuckle,
}

/// How a modifier key acts while it is held or tapped.
#[derive(Clone, Copy, PartialEq, Eq, Structural, Debug, Hash)]
pub enum LayerModifierType {
    Hold,
    OneShot,
    LongPress,
}

/// Number of fingers of one hand.
pub const NUM_FINGERS: usize = 5;

/// Number of directions a key can be reached from.
pub const NUM_DIRECTIONS: usize = 10;

/// Column and row of a physical key in the switch matrix.
#[derive(Clone, Copy, PartialEq, Eq, Structural, Debug, Hash)]
pub struct MatrixPosition(pub u8, pub u8);

/// Matrix row designated as the center row.
pub const CENTER_ROW: u8 = 2;

/// Matrix row designated as the south row.
pub const SOUTH_ROW: u8 = 3;

/// A physical key: who presses it, how, and where it sits.
#[derive(Clone, Copy, PartialEq, Eq, Structural, Debug, Hash)]
pub struct Key {
    pub hand: Hand,
    pub finger: Finger,
    pub direction: Direction,
    pub matrix_position: MatrixPosition,
}

/// A symbol placed on a physical key on a given layer.
#[derive(Clone, Copy, PartialEq, Eq, Structural, Debug, Hash)]
pub struct LayerKey {
    pub layer: u8,
    pub symbol: char,
    pub key: Key,
    /// Present when this occurrence is itself a modifier.
    pub is_modifier: Option<LayerModifierType>,
}

pub open spec fn finger_index(f: Finger) -> nat {
    match f {
        Finger::Thumb => 0,
        Finger::Index => 1,
        Finger::Middle => 2,
        Finger::Ring => 3,
        Finger::Pinky => 4,
    }
}

pub open spec fn finger_distance(f1: Finger, f2: Finger) -> nat {
    if finger_index(f1) >= finger_index(f2) {
        (finger_index(f1) - finger_index(f2)) as nat
    } else {
        (finger_index(f2) - finger_index(f1)) as nat
    }
}

pub open spec fn direction_index(d: Direction) -> nat {
    match d {
        Direction::Center => 0,
        Direction::North => 1,
        Direction::South => 2,
        Direction::In => 3,
        Direction::Out => 4,
        Direction::Up => 5,
        Direction::Down => 6,
        Direction::Pad => 7,
        Direction::Nail => 8,
        Direction::Knuckle => 9,
    }
}

pub open spec fn hand_index(h: Hand) -> nat {
    match h {
        Hand::Left => 0,
        Hand::Right => 1,
    }
}

/// Position of a (hand, finger) pair among all ten fingers.
pub open spec fn hand_finger_index(h: Hand, f: Finger) -> nat {
    hand_index(h) * NUM_FINGERS as nat + finger_index(f)
}

impl Finger {
    /// Position of the finger, counted from the thumb towards the pinky.
    pub fn numeric_index(&self) -> (r: usize)
        ensures
            r == finger_index(*self),
    {
        match self {
            Finger::Thumb => 0,
            Finger::Index => 1,
            Finger::Middle => 2,
            Finger::Ring => 3,
            Finger::Pinky => 4,
        }
    }

    /// How many finger positions lie between two fingers.
    pub fn distance(&self, other: &Finger) -> (r: usize)
        ensures
            r == finger_distance(*self, *other),
    {
        let a = self.numeric_index();
        let b = other.numeric_index();
        if a >= b {
            a - b
        } else {
            b - a
        }
    }
}

impl Direction {
    /// Position of the direction in a table indexed by direction.
    pub fn numeric_index(&self) -> (r: usize)
        ensures
            r == direction_index(*self),
            r < NUM_DIRECTIONS,
    {
        match self {
            Direction::Center => 0,
            Direction::North => 1,
            Direction::South => 2,
            Direction::In => 3,
            Direction::Out => 4,
            Direction::Up => 5,
            Direction::Down => 6,
            Direction::Pad => 7,
            Direction::Nail => 8,
            Direction::Knuckle => 9,
        }
    }
}

/// Position of a (hand, finger) pair in a table over all ten fingers.
pub fn hand_finger_position(h: Hand, f: Finger) -> (r: usize)
    ensures
        r == hand_finger_index(h, f),
        r < 2 * NUM_FINGERS,
{
    let hi: usize = match h {
        Hand::Left => 0,
        Hand::Right => 1,
    };
    hi * NUM_FINGERS + f.numeric_index()
}

} // verus!
