use vstd::prelude::*;

verus! {

/// The keys that steer the player in one frame.
#[derive(Clone, Copy, Debug, PartialEq, Eq, Structural)]
pub struct MovementKeys {
    /// Held: move forward.
    pub forward: bool,
    /// Held: move backward.
    pub backward: bool,
    /// Held: turn counter-clockwise.
    pub turn_left: bool,
    /// Held: turn clockwise.
    pub turn_right: bool,
    /// Pressed this very frame: dash.
    pub dash: bool,
}

/// What the player does in one frame.
#[derive(Clone, Copy, Debug, PartialEq, Eq, Structural)]
pub enum Motion {
    /// A fixed jump along the facing direction that costs stamina; the player
    /// does not turn.
    Dash,
    /// Ordinary movement: `movement_factor` scales the walking speed along the
    /// facing direction and `rotation_factor` the turning speed (positive is
    /// counter-clockwise), each -1, 0 or 1.
    Walk { movement_factor: i8, rotation_factor: i8 },
}

/// One axis of input from two opposing keys; the positive key wins when both
/// are held.
pub open spec fn spec_axis(positive: bool, negative: bool) -> i8 {
    if positive {
        1i8
    } else if negative {
        -1i8
    } else {
        0i8
    }
}

/// The frame's motion: a dash when it was asked for and can be paid,
/// walking otherwise.
pub open spec fn spec_motion(keys: MovementKeys, can_afford_dash: bool) -> Motion {
    if keys.dash && can_afford_dash {
        Motion::Dash
    } else {
        Motion::Walk {
            movement_factor: spec_axis(keys.forward, keys.backward),
            rotation_factor: spec_axis(keys.turn_left, keys.turn_right),
        }
    }
}

/// Reads one axis from two opposing keys.
pub fn axis(positive: bool, negative: bool) -> (r: i8)
    ensures
        r == spec_axis(positive, negative),
        -1 <= r <= 1,
{
    if positive {
        1
    } else if negative {
        -1
    } else {
        0
    }
}

/// Decides the player's motion for a frame from the keys and from whether
/// the stamina covers a dash.
pub fn player_motion(keys: MovementKeys, can_afford_dash: bool) -> (r: Motion)
    ensures
        r == spec_motion(keys, can_afford_dash),
{
    if keys.dash && can_afford_dash {
        Motion::Dash
    } else {
        Motion::Walk {
            movement_factor: axis(keys.forward, keys.backward),
            rotation_factor: axis(keys.turn_left, keys.turn_right),
        }
    }
}

} // verus!
