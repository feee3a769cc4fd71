use vstd::prelude::*;

use crate::enums::Direction;

verus! {

/// Angles are measured in thousandths of a degree.
pub const MILLIDEGREES_PER_DEGREE: i32 = 1000;

/// Below this many millidegrees between viewer and sprite the sprite shows its back.
pub const BACK_ANGLE_THRESHOLD: i32 = 65_000;

/// From this many millidegrees on the sprite shows its front; in between, a side.
pub const SIDE_ANGLE_THRESHOLD: i32 = 155_000;

/// Magnitude of a signed angle.
pub open spec fn magnitude(a: int) -> int {
    if a < 0 {
        -a
    } else {
        a
    }
}

/// The view shown for a signed angle (in millidegrees) from the camera's horizontal
/// forward to the sprite's horizontal forward, measured around the up axis.
pub open spec fn facing_for(a: int) -> Direction {
    if magnitude(a) < BACK_ANGLE_THRESHOLD {
        Direction::Back
    } else if magnitude(a) < SIDE_ANGLE_THRESHOLD {
        if a > 0 {
            Direction::Right
        } else {
            Direction::Left
        }
    } else {
        Direction::Front
    }
}

/// The view shown for a measurement; `None` stands for a degenerate one, where the
/// camera or the sprite looks straight up or down and no horizontal angle exists.
pub open spec fn facing_of(signed_angle: Option<i32>) -> Direction {
    match signed_angle {
        Some(a) => facing_for(a as int),
        None => Direction::Front,
    }
}

/// Maps the signed horizontal angle between camera and sprite to the view the sprite
/// shows. The angle is in millidegrees, truncated toward zero from the exact value,
/// which keeps every threshold comparison exact. A degenerate measurement gives
/// `Direction::Front`.
pub fn calculate_angle(signed_angle: Option<i32>) -> (r: Direction)
    ensures
        r == facing_of(signed_angle),
        signed_angle is None ==> r == Direction::Front,
        forall|a: i32|
            signed_angle == Some(a) ==> {
                &&& magnitude(a as int) < BACK_ANGLE_THRESHOLD ==> r == Direction::Back
                &&& BACK_ANGLE_THRESHOLD <= magnitude(a as int) < SIDE_ANGLE_THRESHOLD && a > 0
                    ==> r == Direction::Right
                &&& BACK_ANGLE_THRESHOLD <= magnitude(a as int) < SIDE_ANGLE_THRESHOLD && a < 0
                    ==> r == Direction::Left
                &&& SIDE_ANGLE_THRESHOLD <= magnitude(a as int) ==> r == Direction::Front
                &&& magnitude(a as int) == BACK_ANGLE_THRESHOLD ==> (r == Direction::Right || r
                    == Direction::Left)
                &&& magnitude(a as int) == SIDE_ANGLE_THRESHOLD ==> r == Direction::Front
            },
{
    match signed_angle {
        None => Direction::Front,
        Some(a) => {
            let m: i64 = if a < 0 {
                -(a as i64)
            } else {
                a as i64
            };
            if m < BACK_ANGLE_THRESHOLD as i64 {
                Direction::Back
            } else if m < SIDE_ANGLE_THRESHOLD as i64 {
                if a > 0 {
                    Direction::Right
                } else {
                    Direction::Left
                }
            } else {
                Direction::Front
            }
        },
    }
}

} // verus!
