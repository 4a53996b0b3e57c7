use rand::SeedableRng;
use std::collections::HashSet;

use blockvy::pieces::{
    Rotation, RotationDirection, SevenBag, TetrominoKind, blocks_for, srs_wall_kicks,
};
use blockvy::Coord;

const ROTATIONS: [Rotation; 4] = [
    Rotation::North,
    Rotation::East,
    Rotation::South,
    Rotation::West,
];

const VALID_TRANSITIONS: [(Rotation, Rotation); 8] = [
    (Rotation::North, Rotation::East),
    (Rotation::East, Rotation::North),
    (Rotation::East, Rotation::South),
    (Rotation::South, Rotation::East),
    (Rotation::South, Rotation::West),
    (Rotation::West, Rotation::South),
    (Rotation::West, Rotation::North),
    (Rotation::North, Rotation::West),
];

fn v(x: i32, y: i32) -> Coord {
    Coord::new(x, y)
}

fn sorted(mut blocks: [Coord; 4]) -> [Coord; 4] {
    blocks.sort_by_key(|v| (v.y, v.x));
    blocks
}

#[test]
fn clockwise_cycle() {
    let mut r = Rotation::North;
    for expected in [Rotation::East, Rotation::South, Rotation::West, Rotation::North] {
        r = r.rotated(RotationDirection::Clockwise);
        assert_eq!(r, expected);
    }
}

#[test]
fn counterclockwise_cycle() {
    let mut r = Rotation::North;
    for expected in [Rotation::West, Rotation::South, Rotation::East, Rotation::North] {
        r = r.rotated(RotationDirection::CounterClockwise);
        assert_eq!(r, expected);
    }
}

#[test]
fn cw_then_ccw_is_identity() {
    for start in [Rotation::North, Rotation::East, Rotation::South, Rotation::West] {
        let round_trip = start
            .rotated(RotationDirection::Clockwise)
            .rotated(RotationDirection::CounterClockwise);
        assert_eq!(round_trip, start);
    }
}

#[test]
fn ccw_then_cw_is_identity() {
    for start in ROTATIONS {
        let round_trip = start
            .rotated(RotationDirection::CounterClockwise)
            .rotated(RotationDirection::Clockwise);
        assert_eq!(round_trip, start);
    }
}

#[test]
fn every_piece_has_four_distinct_blocks_in_every_rotation() {
    for kind in TetrominoKind::ALL {
        for rotation in ROTATIONS {
            let blocks = blocks_for(kind, rotation);
            let unique: HashSet<_> = blocks.iter().collect();
            assert_eq!(
                unique.len(),
                4,
                "duplicate cell in {:?} {:?}: {:?}",
                kind,
                rotation,
                blocks
            );
        }
    }
}

#[test]
fn blocks_stay_within_bounding_box() {
    for kind in TetrominoKind::ALL {
        let box_size = match kind {
            TetrominoKind::I => 4,
            _ => 3,
        };
        for rotation in ROTATIONS {
            for block in blocks_for(kind, rotation) {
                assert!(
                    block.x >= 0 && block.x < box_size,
                    "x out of box for {:?} {:?}: {:?}",
                    kind,
                    rotation,
                    block
                );
                assert!(
                    block.y >= 0 && block.y < box_size,
                    "y out of box for {:?} {:?}: {:?}",
                    kind,
                    rotation,
                    block
                );
            }
        }
    }
}

#[test]
fn o_piece_is_rotation_invariant() {
    let reference = blocks_for(TetrominoKind::O, Rotation::North);
    for rotation in ROTATIONS {
        let blocks = blocks_for(TetrominoKind::O, rotation);
        assert_eq!(sorted(blocks), sorted(reference));
    }
}

#[test]
fn t_north_matches_canonical_shape() {
    let blocks = sorted(blocks_for(TetrominoKind::T, Rotation::North));
    let expected = sorted([v(0, 1), v(1, 1), v(2, 1), v(1, 2)]);
    assert_eq!(blocks, expected);
}

#[test]
fn i_north_is_horizontal_row() {
    let blocks = sorted(blocks_for(TetrominoKind::I, Rotation::North));
    let expected = sorted([v(0, 2), v(1, 2), v(2, 2), v(3, 2)]);
    assert_eq!(blocks, expected);
}

#[test]
fn s_west_matches_table() {
    assert_eq!(
        blocks_for(TetrominoKind::S, Rotation::West),
        [v(0, 2), v(0, 1), v(1, 1), v(1, 0)]
    );
}

#[test]
fn spawn_origin_places_lowest_block_in_buffer() {
    for kind in TetrominoKind::ALL {
        let origin = kind.spawn_origin();
        let lowest_y = blocks_for(kind, Rotation::North)
            .iter()
            .map(|b| origin.y + b.y)
            .min()
            .unwrap();
        assert_eq!(lowest_y, 20, "{:?} lowest spawn block y", kind);
    }
}

#[test]
fn spawn_columns_match_srs_canonical_layout() {
    let columns = |kind: TetrominoKind| {
        let origin = kind.spawn_origin();
        let mut xs: Vec<i32> = blocks_for(kind, Rotation::North)
            .iter()
            .map(|b| origin.x + b.x)
            .collect();
        xs.sort();
        xs.dedup();
        xs
    };
    assert_eq!(columns(TetrominoKind::I), vec![3, 4, 5, 6]);
    assert_eq!(columns(TetrominoKind::O), vec![4, 5]);
    assert_eq!(columns(TetrominoKind::T), vec![3, 4, 5]);
}

#[test]
fn spawn_origin_values() {
    assert_eq!(TetrominoKind::I.spawn_origin(), Coord::new(3, 18));
    assert_eq!(TetrominoKind::L.spawn_origin(), Coord::new(3, 19));
}

#[test]
fn jlstz_has_five_offsets_per_valid_transition() {
    for kind in [
        TetrominoKind::J,
        TetrominoKind::L,
        TetrominoKind::S,
        TetrominoKind::T,
        TetrominoKind::Z,
    ] {
        for (from, to) in VALID_TRANSITIONS {
            let kicks = srs_wall_kicks(kind, from, to);
            assert_eq!(
                kicks.len(),
                5,
                "{:?} {:?} -> {:?} should have 5 kicks",
                kind,
                from,
                to
            );
            assert_eq!(kicks[0], Coord::new(0, 0), "first kick must be (0, 0)");
        }
    }
}

#[test]
fn i_has_five_offsets_per_valid_transition() {
    for (from, to) in VALID_TRANSITIONS {
        let kicks = srs_wall_kicks(TetrominoKind::I, from, to);
        assert_eq!(kicks.len(), 5);
        assert_eq!(kicks[0], Coord::new(0, 0));
    }
}

#[test]
fn o_has_no_kicks() {
    for (from, to) in VALID_TRANSITIONS {
        assert!(srs_wall_kicks(TetrominoKind::O, from, to).is_empty());
    }
}

#[test]
fn unsupported_transitions_return_empty() {
    assert!(srs_wall_kicks(TetrominoKind::T, Rotation::North, Rotation::South).is_empty());
    assert!(srs_wall_kicks(TetrominoKind::I, Rotation::East, Rotation::West).is_empty());
    assert!(srs_wall_kicks(TetrominoKind::J, Rotation::North, Rotation::North).is_empty());
}

#[test]
fn jlstz_n_to_e_matches_canonical() {
    let kicks = srs_wall_kicks(TetrominoKind::T, Rotation::North, Rotation::East);
    assert_eq!(
        kicks,
        vec![
            Coord::new(0, 0),
            Coord::new(-1, 0),
            Coord::new(-1, -1),
            Coord::new(0, 2),
            Coord::new(-1, 2),
        ]
    );
}

#[test]
fn i_n_to_e_matches_canonical() {
    let kicks = srs_wall_kicks(TetrominoKind::I, Rotation::North, Rotation::East);
    assert_eq!(
        kicks,
        vec![
            Coord::new(0, 0),
            Coord::new(-2, 0),
            Coord::new(1, 0),
            Coord::new(-2, 1),
            Coord::new(1, -2),
        ]
    );
}

#[test]
fn reverse_transition_kicks_are_negated() {
    for kind in TetrominoKind::ALL {
        for (from, to) in VALID_TRANSITIONS {
            let forward = srs_wall_kicks(kind, from, to);
            let back = srs_wall_kicks(kind, to, from);
            assert_eq!(forward.len(), back.len());
            for (f, b) in forward.iter().zip(back.iter()) {
                assert_eq!((f.x, f.y), (-b.x, -b.y));
            }
        }
    }
}

#[test]
fn every_seven_pieces_contain_each_kind_once() {
    let mut bag = SevenBag::from_seed(42);
    for _ in 0..5 {
        let mut drawn: HashSet<TetrominoKind> = HashSet::new();
        for _ in 0..7 {
            drawn.insert(bag.next());
        }
        assert_eq!(drawn.len(), 7, "missing a kind in this bag: {:?}", drawn);
    }
}

#[test]
fn same_seed_produces_same_sequence() {
    let mut a = SevenBag::from_seed(123);
    let mut b = SevenBag::from_seed(123);
    for _ in 0..20 {
        assert_eq!(a.next(), b.next());
    }
}

#[test]
fn peek_next_returns_head_without_consuming() {
    let mut bag = SevenBag::from_seed(99);
    let first = bag.peek_next();
    let again = bag.peek_next();
    let drawn = bag.next();
    assert_eq!(first, again);
    assert_eq!(first, drawn);
}

#[test]
fn peek_does_not_consume() {
    let mut bag = SevenBag::from_seed(7);
    let preview = bag.peek(5);
    let drawn: Vec<_> = (0..5).map(|_| bag.next()).collect();
    assert_eq!(preview, drawn);
}

#[test]
fn peek_can_cross_bag_boundary() {
    let mut bag = SevenBag::from_seed(7);
    let preview = bag.peek(10);
    assert_eq!(preview.len(), 10);
    let drawn: Vec<_> = (0..10).map(|_| bag.next()).collect();
    assert_eq!(preview, drawn);
}

#[test]
fn peek_zero_is_empty() {
    let mut bag = SevenBag::from_seed(3);
    assert!(bag.peek(0).is_empty());
}

#[test]
fn entropy_seeded_bag_still_deals_whole_bags() {
    let mut bag = SevenBag::new().expect("the test machine supplies entropy");
    let first: HashSet<TetrominoKind> = (0..7).map(|_| bag.next()).collect();
    assert_eq!(first.len(), 7);
}

#[test]
fn peek_after_partial_draw_stays_aligned_with_draws() {
    let mut bag = SevenBag::from_seed(5);
    bag.next();
    bag.next();
    let preview = bag.peek(12);
    let drawn: Vec<_> = (0..12).map(|_| bag.next()).collect();
    assert_eq!(preview, drawn);
    let window: HashSet<TetrominoKind> = drawn[5..12].iter().copied().collect();
    assert_eq!(window.len(), 7);
}

#[test]
fn bags_are_shuffled() {
    let mut bag = SevenBag::from_seed(42);
    let canonical = TetrominoKind::ALL.to_vec();
    let mut saw_other_order = false;
    for _ in 0..6 {
        let drawn: Vec<TetrominoKind> = (0..7).map(|_| bag.next()).collect();
        let mut sorted_kinds = drawn.clone();
        sorted_kinds.sort_by_key(|k| TetrominoKind::ALL.iter().position(|a| a == k));
        assert_eq!(sorted_kinds, canonical);
        if drawn != canonical {
            saw_other_order = true;
        }
    }
    assert!(saw_other_order);
}

#[test]
fn same_seed_agrees_over_many_bags() {
    let mut a = SevenBag::from_seed(2024);
    let mut b = SevenBag::from_seed(2024);
    let first: Vec<TetrominoKind> = (0..70).map(|_| a.next()).collect();
    let second: Vec<TetrominoKind> = (0..70).map(|_| b.next()).collect();
    assert_eq!(first, second);
}

#[test]
fn seed_chooses_the_sequence() {
    let runs: Vec<Vec<TetrominoKind>> = (0..8u64)
        .map(|seed| {
            let mut bag = SevenBag::from_seed(seed);
            (0..14).map(|_| bag.next()).collect()
        })
        .collect();
    assert!(runs.iter().any(|r| *r != runs[0]));
}

#[test]
fn from_rng_matches_from_seed() {
    let mut a = SevenBag::from_rng(rand::rngs::StdRng::seed_from_u64(31));
    let mut b = SevenBag::from_seed(31);
    let first: Vec<TetrominoKind> = (0..21).map(|_| a.next()).collect();
    let second: Vec<TetrominoKind> = (0..21).map(|_| b.next()).collect();
    assert_eq!(first, second);
}

#[test]
fn peeks_do_not_change_the_draws() {
    let mut plain = SevenBag::from_seed(17);
    let mut peeked = SevenBag::from_seed(17);
    let expected: Vec<TetrominoKind> = (0..40).map(|_| plain.next()).collect();
    let mut got = Vec::new();
    for i in 0..40 {
        if i % 3 == 0 {
            peeked.peek(12);
        }
        if i % 5 == 0 {
            peeked.peek_next();
        }
        got.push(peeked.next());
    }
    assert_eq!(got, expected);
}

#[test]
fn every_seven_draws_with_peeks_between_hold_each_kind() {
    let mut bag = SevenBag::from_seed(64);
    for round in 0..8 {
        let mut seen = HashSet::new();
        for i in 0..7 {
            if (round + i) % 2 == 0 {
                bag.peek(round * 3 + i);
            } else {
                bag.peek_next();
            }
            seen.insert(bag.next());
        }
        assert_eq!(seen.len(), 7);
    }
}
