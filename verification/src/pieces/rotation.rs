use vstd::prelude::*;

verus! {

/// The four SRS orientation states, in clockwise order starting from spawn.
#[derive(Clone, Copy, Debug, Default, PartialEq, Eq, Hash, Structural)]
pub enum Rotation {
    #[default]
    North,
    East,
    South,
    West,
}

#[derive(Clone, Copy, Debug, PartialEq, Eq, Hash, Structural)]
pub enum RotationDirection {
    Clockwise,
    CounterClockwise,
}

/// Controls how rotation handles collisions against walls or the stack.
///
/// `Off` is a stricter mode: a rotation that doesn't fit in place is rejected.
/// `Srs` applies the official SRS kick tables to find a valid offset.
#[derive(Clone, Copy, Debug, Default, PartialEq, Eq, Structural)]
pub enum WallKickMode {
    Off,
    #[default]
    Srs,
}

/// Position of an orientation in the clockwise cycle North, East, South, West.
pub open spec fn rotation_index(r: Rotation) -> int {
    match r {
        Rotation::North => 0,
        Rotation::East => 1,
        Rotation::South => 2,
        Rotation::West => 3,
    }
}

/// Signed quarter-turn count of a direction: +1 clockwise, -1 counter-clockwise.
pub open spec fn direction_step(d: RotationDirection) -> int {
    match d {
        RotationDirection::Clockwise => 1,
        RotationDirection::CounterClockwise => -1,
    }
}

/// The orientation one quarter turn away from `r` in direction `d`.
pub open spec fn spec_rotated(r: Rotation, d: RotationDirection) -> Rotation {
    let i = (rotation_index(r) + direction_step(d)) % 4;
    if i == 0 {
        Rotation::North
    } else if i == 1 {
        Rotation::East
    } else if i == 2 {
        Rotation::South
    } else {
        Rotation::West
    }
}

impl Rotation {
    pub fn rotated(self, direction: RotationDirection) -> (r: Rotation)
        ensures
            r == spec_rotated(self, direction),
            rotation_index(r) == (rotation_index(self) + direction_step(direction)) % 4,
    {
        match (self, direction) {
            (Rotation::North, RotationDirection::Clockwise) => Rotation::East,
            (Rotation::East, RotationDirection::Clockwise) => Rotation::South,
            (Rotation::South, RotationDirection::Clockwise) => Rotation::West,
            (Rotation::West, RotationDirection::Clockwise) => Rotation::North,
            (Rotation::North, RotationDirection::CounterClockwise) => Rotation::West,
            (Rotation::East, RotationDirection::CounterClockwise) => Rotation::North,
            (Rotation::South, RotationDirection::CounterClockwise) => Rotation::East,
            (Rotation::West, RotationDirection::CounterClockwise) => Rotation::South,
        }
    }
}

/// A clockwise quarter turn followed by a counter-clockwise one (or the other
/// way round) gives back the starting orientation.
pub proof fn lemma_rotation_round_trip(r: Rotation, d: RotationDirection)
    ensures
        spec_rotated(spec_rotated(r, d), opposite_direction(d)) == r,
{
}

/// Four quarter turns in the same direction give back the starting orientation.
pub proof fn lemma_four_turns_identity(r: Rotation, d: RotationDirection)
    ensures
        spec_rotated(spec_rotated(spec_rotated(spec_rotated(r, d), d), d), d) == r,
{
}

/// The other direction of turning.
pub open spec fn opposite_direction(d: RotationDirection) -> RotationDirection {
    match d {
        RotationDirection::Clockwise => RotationDirection::CounterClockwise,
        RotationDirection::CounterClockwise => RotationDirection::Clockwise,
    }
}

} // verus!
