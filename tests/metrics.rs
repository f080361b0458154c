use layout_evaluation::cluster_rolls::{self, ClusterRolls};
use layout_evaluation::key::{
    Direction, Finger, Hand, Key, LayerKey, LayerModifierType, MatrixPosition,
};
use layout_evaluation::movement_pattern::{self, FingerSwitchCost, MovementPattern};
use layout_evaluation::position_penalties::{self, PositionPenalties};
use layout_evaluation::roll_stats::{self, RollKind, RollStats};
use layout_evaluation::scissoring::{self, ScissorBucket, Scissoring};

fn lk(symbol: char, hand: Hand, finger: Finger, direction: Direction, col: u8, row: u8) -> LayerKey {
    LayerKey {
        layer: 0,
        symbol,
        key: Key { hand, finger, direction, matrix_position: MatrixPosition(col, row) },
        is_modifier: None,
    }
}

fn scissoring_params() -> scissoring::Parameters<f64> {
    scissoring::Parameters {
        south_north_cost: 1.0,
        lateral_squeeze_cost: 2.0,
        lateral_splay_cost: 3.0,
        lateral_series_cost: 4.0,
        lateral_center_cost: 5.0,
    }
}

fn cluster_params() -> cluster_rolls::Parameters<f64> {
    cluster_rolls::Parameters {
        default_cost: 10.0,
        costs: vec![
            (Direction::Center, Direction::South, 0.5),
            (Direction::Center, Direction::In, 2.0),
            (Direction::Center, Direction::South, 0.25),
        ],
        finger_multipliers: vec![(Finger::Pinky, 1.5)],
    }
}

#[test]
fn finger_distance_and_index() {
    assert_eq!(Finger::Thumb.numeric_index(), 0);
    assert_eq!(Finger::Index.numeric_index(), 1);
    assert_eq!(Finger::Pinky.numeric_index(), 4);
    assert_eq!(Finger::Index.distance(&Finger::Ring), 2);
    assert_eq!(Finger::Ring.distance(&Finger::Index), 2);
    assert_eq!(Finger::Middle.distance(&Finger::Middle), 0);
}

#[test]
fn scissoring_squeeze_and_splay() {
    let s = Scissoring::new(&scissoring_params());
    // from index (out) to middle (in): no motion towards the index finger, starts out
    let a = lk('a', Hand::Left, Finger::Index, Direction::Out, 3, 2);
    let b = lk('b', Hand::Left, Finger::Middle, Direction::In, 2, 2);
    assert_eq!(Scissoring::<f64>::bucket(&a, &b), Some(ScissorBucket::LateralSqueeze));
    assert_eq!(s.base_cost(&a, &b), Some(2.0));
    // from middle (out) to index (in): motion towards the index finger, starts out
    let c = lk('c', Hand::Left, Finger::Middle, Direction::Out, 2, 2);
    let d = lk('d', Hand::Left, Finger::Index, Direction::In, 3, 2);
    assert_eq!(Scissoring::<f64>::bucket(&c, &d), Some(ScissorBucket::LateralSplay));
    assert_eq!(s.base_cost(&c, &d), Some(3.0));
    // from index (in) to middle (out): neither
    let e = lk('e', Hand::Left, Finger::Index, Direction::In, 3, 2);
    let f = lk('f', Hand::Left, Finger::Middle, Direction::Out, 2, 2);
    assert_eq!(s.base_cost(&e, &f), Some(3.0));
}

#[test]
fn scissoring_buckets() {
    let s = Scissoring::new(&scissoring_params());
    let ring_s = lk('a', Hand::Right, Finger::Ring, Direction::South, 8, 3);
    let middle_n = lk('b', Hand::Right, Finger::Middle, Direction::North, 7, 1);
    assert_eq!(s.base_cost(&ring_s, &middle_n), Some(1.0));
    let ring_in = lk('c', Hand::Right, Finger::Ring, Direction::In, 8, 2);
    let middle_in = lk('d', Hand::Right, Finger::Middle, Direction::In, 7, 2);
    assert_eq!(s.base_cost(&ring_in, &middle_in), Some(4.0));
    let middle_c = lk('e', Hand::Right, Finger::Middle, Direction::Center, 7, 2);
    assert_eq!(s.base_cost(&ring_in, &middle_c), Some(5.0));
    assert_eq!(s.base_cost(&middle_c, &ring_in), Some(5.0));
    // center to center is not modelled
    let ring_c = lk('f', Hand::Right, Finger::Ring, Direction::Center, 8, 2);
    assert_eq!(s.base_cost(&ring_c, &middle_c), None);
}

#[test]
fn scissoring_needs_adjacent_non_thumb_fingers() {
    let s = Scissoring::new(&scissoring_params());
    let pinky_s = lk('a', Hand::Left, Finger::Pinky, Direction::South, 0, 3);
    let middle_n = lk('b', Hand::Left, Finger::Middle, Direction::North, 2, 1);
    assert_eq!(s.base_cost(&pinky_s, &middle_n), None);
    let thumb_s = lk('c', Hand::Left, Finger::Thumb, Direction::South, 4, 4);
    let index_n = lk('d', Hand::Left, Finger::Index, Direction::North, 3, 1);
    assert_eq!(s.base_cost(&thumb_s, &index_n), None);
    let other_hand = lk('e', Hand::Right, Finger::Ring, Direction::North, 8, 1);
    let ring_s = lk('f', Hand::Left, Finger::Ring, Direction::South, 1, 3);
    assert_eq!(s.base_cost(&ring_s, &other_hand), None);
    assert_eq!(s.base_cost(&middle_n, &ring_s), Some(1.0));
}

#[test]
fn cluster_rolls_table_default_and_multiplier() {
    let m = ClusterRolls::new(&cluster_params());
    let c = lk('a', Hand::Left, Finger::Index, Direction::Center, 3, 2);
    let s = lk('b', Hand::Left, Finger::Index, Direction::South, 3, 3);
    let n = lk('c', Hand::Left, Finger::Index, Direction::North, 3, 1);
    // the later entry for center to south wins
    assert_eq!(m.cost_factors(&c, &s), Some((0.25, None)));
    // an unconfigured pair falls back to the default
    assert_eq!(m.cost_factors(&s, &n), Some((10.0, None)));
    let pc = lk('d', Hand::Left, Finger::Pinky, Direction::Center, 0, 2);
    let pi = lk('e', Hand::Left, Finger::Pinky, Direction::In, 0, 2);
    assert_eq!(m.cost_factors(&pc, &pi), Some((2.0, Some(1.5))));
}

#[test]
fn cluster_rolls_zero_cases() {
    let m = ClusterRolls::new(&cluster_params());
    let c = lk('a', Hand::Left, Finger::Index, Direction::Center, 3, 2);
    let other_hand = lk('b', Hand::Right, Finger::Index, Direction::South, 6, 3);
    assert_eq!(m.cost_factors(&c, &other_hand), None);
    let other_finger = lk('c', Hand::Left, Finger::Middle, Direction::South, 2, 3);
    assert_eq!(m.cost_factors(&c, &other_finger), None);
    let mut modifier = c;
    modifier.is_modifier = Some(LayerModifierType::Hold);
    assert_eq!(m.cost_factors(&modifier, &modifier), None);
    // the same plain key twice is priced by the table
    assert_eq!(m.cost_factors(&c, &c), Some((10.0, None)));
}

#[test]
fn movement_pattern_is_directional() {
    let params = movement_pattern::Parameters {
        finger_switch_factor: vec![
            FingerSwitchCost { from: (Hand::Left, Finger::Index), to: (Hand::Left, Finger::Middle), cost: 3.0 },
            FingerSwitchCost { from: (Hand::Left, Finger::Middle), to: (Hand::Left, Finger::Index), cost: 1.0 },
            FingerSwitchCost { from: (Hand::Left, Finger::Index), to: (Hand::Left, Finger::Thumb), cost: 9.0 },
        ],
    };
    let m = MovementPattern::new(&params);
    let index = lk('a', Hand::Left, Finger::Index, Direction::Center, 3, 2);
    let middle = lk('b', Hand::Left, Finger::Middle, Direction::Center, 2, 2);
    let ring = lk('c', Hand::Left, Finger::Ring, Direction::Center, 1, 2);
    let thumb = lk('d', Hand::Left, Finger::Thumb, Direction::Center, 4, 4);
    let right_middle = lk('e', Hand::Right, Finger::Middle, Direction::Center, 7, 2);
    assert_eq!(m.base_cost(&index, &middle), Some(3.0));
    assert_eq!(m.base_cost(&middle, &index), Some(1.0));
    assert_eq!(m.base_cost(&index, &ring), None);
    assert_eq!(m.base_cost(&index, &thumb), None);
    assert_eq!(m.base_cost(&index, &index), None);
    assert_eq!(m.base_cost(&index, &right_middle), None);
}

#[test]
fn position_penalties_lookup() {
    let params = position_penalties::Parameters {
        penalty_positions: vec![('q', vec![(MatrixPosition(0, 1), 2.5), (MatrixPosition(0, 3), 4.0)])],
    };
    let p = PositionPenalties::new(&params);
    let hit = lk('q', Hand::Left, Finger::Pinky, Direction::Center, 0, 1);
    assert_eq!(p.penalty(&hit), Some(2.5));
    let other_position = lk('q', Hand::Left, Finger::Pinky, Direction::Center, 1, 1);
    assert_eq!(p.penalty(&other_position), None);
    let other_symbol = lk('z', Hand::Left, Finger::Pinky, Direction::Center, 0, 1);
    assert_eq!(p.penalty(&other_symbol), None);
    let weight = 10.0;
    assert_eq!(weight * p.penalty(&hit).unwrap_or(0.0), 25.0);
}

#[test]
fn roll_stats_three_bigrams() {
    let r = RollStats::new(&roll_stats::Parameters { ignore_modifiers: false, ignore_thumbs: false });
    let left_pinky = lk('a', Hand::Left, Finger::Pinky, Direction::Center, 0, 2);
    let left_index = lk('f', Hand::Left, Finger::Index, Direction::Center, 3, 2);
    let right_index = lk('j', Hand::Right, Finger::Index, Direction::Center, 6, 2);
    let bigrams = vec![(left_pinky, left_index), (left_index, left_pinky), (left_index, right_index)];
    assert_eq!(
        r.classify_all(&bigrams),
        vec![RollKind::Inward, RollKind::Outward, RollKind::NoRoll]
    );
}

#[test]
fn roll_stats_right_hand_and_center_south() {
    let r = RollStats::new(&roll_stats::Parameters { ignore_modifiers: false, ignore_thumbs: false });
    let right_pinky = lk('a', Hand::Right, Finger::Pinky, Direction::Center, 9, 2);
    let right_index = lk('b', Hand::Right, Finger::Index, Direction::Center, 6, 2);
    assert_eq!(r.classify(&right_pinky, &right_index), RollKind::Inward);
    assert_eq!(r.classify(&right_index, &right_pinky), RollKind::Outward);
    let center = lk('c', Hand::Right, Finger::Index, Direction::Center, 6, 2);
    let south = lk('d', Hand::Right, Finger::Index, Direction::South, 6, 3);
    assert_eq!(r.classify(&center, &south), RollKind::CenterSouth);
    assert_eq!(r.classify(&south, &center), RollKind::NoRoll);
}

#[test]
fn roll_stats_ignored_keys_and_empty_corpus() {
    let r = RollStats::new(&roll_stats::Parameters { ignore_modifiers: true, ignore_thumbs: true });
    let thumb = lk('a', Hand::Left, Finger::Thumb, Direction::Center, 4, 4);
    let index = lk('b', Hand::Left, Finger::Index, Direction::Center, 3, 2);
    assert_eq!(r.classify(&thumb, &index), RollKind::Ignored);
    let mut modifier = index;
    modifier.is_modifier = Some(LayerModifierType::OneShot);
    assert_eq!(r.classify(&index, &modifier), RollKind::Ignored);
    let keep = RollStats::new(&roll_stats::Parameters { ignore_modifiers: false, ignore_thumbs: false });
    assert_eq!(keep.classify(&thumb, &index), RollKind::Outward);
    assert!(r.classify_all(&[]).is_empty());
}

#[test]
fn repeated_queries_agree() {
    let s = Scissoring::new(&scissoring_params());
    let m = ClusterRolls::new(&cluster_params());
    let a = lk('a', Hand::Left, Finger::Index, Direction::Out, 3, 2);
    let b = lk('b', Hand::Left, Finger::Middle, Direction::In, 2, 2);
    assert_eq!(s.base_cost(&a, &b), s.base_cost(&a, &b));
    assert_eq!(m.cost_factors(&a, &a), m.cost_factors(&a, &a));
}

#[test]
fn metric_names() {
    let r = RollStats::new(&roll_stats::Parameters { ignore_modifiers: false, ignore_thumbs: false });
    assert_eq!(r.name(), "Roll Statistics");
    assert_eq!(Scissoring::new(&scissoring_params()).name(), "Scissoring");
    assert_eq!(ClusterRolls::new(&cluster_params()).name(), "Cluster Rolls");
}

#[test]
fn non_negative_configuration_gives_non_negative_costs() {
    let s = Scissoring::new(&scissoring_params());
    let m = ClusterRolls::new(&cluster_params());
    let fingers = [Finger::Thumb, Finger::Index, Finger::Middle, Finger::Ring, Finger::Pinky];
    let directions = [Direction::Center, Direction::North, Direction::South, Direction::In, Direction::Out];
    for f1 in fingers {
        for f2 in fingers {
            for d1 in directions {
                for d2 in directions {
                    let a = lk('a', Hand::Left, f1, d1, 0, 2);
                    let b = lk('b', Hand::Left, f2, d2, 1, 2);
                    let weight = 2.0;
                    let scissor = weight * s.base_cost(&a, &b).unwrap_or(0.0);
                    assert!(scissor >= 0.0);
                    let cluster = match m.cost_factors(&a, &b) {
                        Some((c, mult)) => weight * c * mult.unwrap_or(1.0),
                        None => 0.0,
                    };
                    assert!(cluster >= 0.0);
                }
            }
        }
    }
}
