//! The closed sets of approaches and manoeuvres of the greedy model.

use vstd::prelude::*;

verus! {

/// The manoeuvre a vehicle makes at the intersection. It is fixed when the
/// vehicle is spawned.
#[derive(Debug, Clone, Copy, PartialEq, Eq, Hash, Structural)]
pub enum Route {
    Right,
    Left,
    Straight,
}

/// The approach lane of a vehicle.
///
/// `South` and `North` name the edge a vehicle enters from (a `South` vehicle
/// drives up the screen); `East` and `West` name the way it first drives (an
/// `East` vehicle enters at the left edge and drives right).
#[derive(Debug, Clone, Copy, PartialEq, Eq, Hash, Structural)]
pub enum Origin {
    North,
    South,
    West,
    East,
}

impl Origin {
    /// Unit vector of the direction in which a vehicle of this approach
    /// drives before it turns, in screen coordinates (`y` grows downwards).
    pub open spec fn heading(self) -> (int, int) {
        match self {
            Origin::North => (0, 1),
            Origin::South => (0, -1),
            Origin::East => (1, 0),
            Origin::West => (-1, 0),
        }
    }
}

impl Route {
    /// The heading `h` after this manoeuvre: unchanged when going straight,
    /// a quarter turn clockwise on the screen for a right turn and
    /// anticlockwise for a left turn.
    pub open spec fn turn(self, h: (int, int)) -> (int, int) {
        match self {
            Route::Straight => h,
            Route::Right => (-h.1, h.0),
            Route::Left => (h.1, -h.0),
        }
    }
}

} // verus!
