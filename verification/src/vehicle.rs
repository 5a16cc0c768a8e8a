//! A vehicle of the phased model.
//!
//! A vehicle approaches the intersection along its lane, waits at the stop
//! line for green, crosses on a quadratic Bézier curve whose control point
//! is the centre of the intersection, and drives out in the direction that
//! its route gives. Its life is `Approaching`, `InIntersection`, `Exiting`,
//! `Done`, in this order and without a way back.

use vstd::prelude::*;
use crate::geometry::{
    coord_ok, dist_sq, distance_squared, is_floor_sqrt, isqrt, lemma_axis_step_keeps_distance,
    point_ok, Point, COORD_MAX, PX,
};
use crate::traffic_light::TrafficLightSystem;

verus! {

pub const WINDOW_W: i64 = 800 * PX;

pub const WINDOW_H: i64 = 600 * PX;

pub const CENTER_X: i64 = 400 * PX;

pub const CENTER_Y: i64 = 300 * PX;

/// Half the width of a road.
pub const ROAD_HALF: i64 = 60 * PX;

/// Distance of the middle of a lane from the centre line of its road.
pub const LANE_OFFSET: i64 = 30 * PX;

/// Distance a vehicle covers in one tick (two and a half pixels).
pub const VEHICLE_SPEED: i64 = 5120;

/// Smallest distance to the vehicle ahead at which a vehicle still drives.
pub const SAFE_DIST: i64 = 50 * PX;

pub const VEHICLE_W: i64 = 20 * PX;

pub const VEHICLE_H: i64 = 34 * PX;

/// Number of ticks that a crossing takes, whatever the route: the length of
/// eighty pixels at [`VEHICLE_SPEED`].
pub const TURN_STEPS: u32 = 32;

/// Distance of the spawn points beyond the edge of the window.
pub const SPAWN_MARGIN: i64 = 20 * PX;

/// How far beyond the window a vehicle drives before it is done.
pub const DESPAWN_MARGIN: i64 = 50 * PX;

/// The way a vehicle drives when it enters. `North` is up the screen.
#[derive(Clone, Copy, PartialEq, Eq, Debug, Structural)]
pub enum Direction {
    North,
    South,
    East,
    West,
}

impl Direction {
    /// Unit vector of the direction, in screen coordinates (`y` grows
    /// downwards).
    pub open spec fn heading(self) -> (int, int) {
        match self {
            Direction::North => (0, -1),
            Direction::South => (0, 1),
            Direction::East => (1, 0),
            Direction::West => (-1, 0),
        }
    }

    /// The direction a quarter turn to the right.
    pub open spec fn right_of(self) -> Direction {
        match self {
            Direction::North => Direction::East,
            Direction::East => Direction::South,
            Direction::South => Direction::West,
            Direction::West => Direction::North,
        }
    }

    /// The direction a quarter turn to the left.
    pub open spec fn left_of(self) -> Direction {
        match self {
            Direction::North => Direction::West,
            Direction::West => Direction::South,
            Direction::South => Direction::East,
            Direction::East => Direction::North,
        }
    }

    /// The number that stands for the direction where a key is needed.
    pub open spec fn code(self) -> u8 {
        match self {
            Direction::North => 0,
            Direction::South => 1,
            Direction::East => 2,
            Direction::West => 3,
        }
    }

    /// A number below four that tells the directions apart.
    pub fn as_u8(&self) -> (n: u8)
        ensures
            n == self.code(),
            n < 4,
    {
        match self {
            Direction::North => 0,
            Direction::South => 1,
            Direction::East => 2,
            Direction::West => 3,
        }
    }
}

/// Different directions have different codes.
pub proof fn lemma_code_injective(a: Direction, b: Direction)
    requires
        a.code() == b.code(),
    ensures
        a == b,
{
}

/// The manoeuvre a vehicle makes at the intersection.
#[derive(Clone, Copy, PartialEq, Eq, Debug, Structural)]
pub enum Route {
    Straight,
    TurnLeft,
    TurnRight,
}

impl Route {
    /// The route that the tick count `tick` selects: the routes take turns
    /// in the order straight, left, right.
    pub open spec fn of_tick(tick: u32) -> Route {
        if tick % 3 == 0 {
            Route::Straight
        } else if tick % 3 == 1 {
            Route::TurnLeft
        } else {
            Route::TurnRight
        }
    }

    /// Red, green and blue of the colour in which a vehicle of this route is
    /// drawn: yellow straight on, blue to the left, orange to the right.
    pub open spec fn shade(self) -> (u8, u8, u8) {
        match self {
            Route::Straight => (255, 255, 80),
            Route::TurnLeft => (80, 180, 255),
            Route::TurnRight => (255, 140, 0),
        }
    }

    /// The direction in which a vehicle that entered in `dir` leaves.
    pub open spec fn exit_direction(self, dir: Direction) -> Direction {
        match self {
            Route::Straight => dir,
            Route::TurnRight => dir.right_of(),
            Route::TurnLeft => dir.left_of(),
        }
    }

    /// A route picked by a tick count.
    pub fn random(tick: u32) -> (route: Route)
        ensures
            route == Route::of_tick(tick),
    {
        match tick % 3 {
            0 => Route::Straight,
            1 => Route::TurnLeft,
            _ => Route::TurnRight,
        }
    }

    /// Red, green and blue of the colour in which a vehicle of this route is
    /// drawn.
    pub fn color(&self) -> (rgb: (u8, u8, u8))
        ensures
            rgb == self.shade(),
    {
        match self {
            Route::Straight => (255, 255, 80),
            Route::TurnLeft => (80, 180, 255),
            Route::TurnRight => (255, 140, 0),
        }
    }
}

#[derive(Clone, Copy, PartialEq, Eq, Debug, Structural)]
pub enum VehicleState {
    Approaching,
    InIntersection,
    Exiting,
    Done,
}

impl VehicleState {
    /// Place of the state in the life of a vehicle.
    pub open spec fn rank(self) -> nat {
        match self {
            VehicleState::Approaching => 0,
            VehicleState::InIntersection => 1,
            VehicleState::Exiting => 2,
            VehicleState::Done => 3,
        }
    }
}

/// Where the vehicles that drive in `dir` enter: [`SPAWN_MARGIN`] beyond the
/// edge of the window that they drive away from, in the middle of their
/// lane.
pub open spec fn spawn_point(dir: Direction) -> Point {
    match dir {
        Direction::North => ((CENTER_X + LANE_OFFSET) as i64, (WINDOW_H + SPAWN_MARGIN) as i64),
        Direction::South => ((CENTER_X - LANE_OFFSET) as i64, (-SPAWN_MARGIN) as i64),
        Direction::East => ((-SPAWN_MARGIN) as i64, (CENTER_Y + LANE_OFFSET) as i64),
        Direction::West => ((WINDOW_W + SPAWN_MARGIN) as i64, (CENTER_Y - LANE_OFFSET) as i64),
    }
}

/// The coordinate, along the axis on which `dir` runs, of the stop line for
/// vehicles driving in `dir`: [`ROAD_HALF`] short of the centre.
pub open spec fn stop_line(dir: Direction) -> int {
    let h = dir.heading();
    match dir {
        Direction::North | Direction::South => CENTER_Y - ROAD_HALF * h.1,
        Direction::East | Direction::West => CENTER_X - ROAD_HALF * h.0,
    }
}

/// Direction and point at which a vehicle that entered in `dir` leaves the
/// intersection on `route`.
///
/// The point lies [`ROAD_HALF`] from the centre in the direction of exit.
/// Across that direction it lies [`LANE_OFFSET`] from the centre: straight
/// on, in the lane in which the vehicle came; after a right turn, on the
/// side the vehicle was driving towards; after a left turn, on the side it
/// came from. After a turn the point is therefore not in the lane in which
/// vehicles of the exit direction enter, but in the one beside it.
pub open spec fn exit_of(dir: Direction, route: Route) -> (Direction, Point) {
    let out = route.exit_direction(dir);
    let e = out.heading();
    let h = dir.heading();
    let side = match route {
        Route::Straight => dir.right_of().heading(),
        Route::TurnRight => h,
        Route::TurnLeft => (-h.0, -h.1),
    };
    (
        out,
        (
            (CENTER_X + ROAD_HALF * e.0 + LANE_OFFSET * side.0) as i64,
            (CENTER_Y + ROAD_HALF * e.1 + LANE_OFFSET * side.1) as i64,
        ),
    )
}

/// One coordinate of the point of a quadratic Bézier curve at the parameter
/// `k / TURN_STEPS`, for the coordinates `start`, `control` and `end` of its
/// three points, rounded down to a whole unit.
pub open spec fn bezier(k: int, start: int, control: int, end: int) -> int {
    bezier_numerator(k, start, control, end) / (TURN_STEPS * TURN_STEPS)
}

/// The point of the curve after `k` steps, times the square of
/// [`TURN_STEPS`]: the three points weighted by the Bernstein polynomials
/// of degree two.
pub open spec fn bezier_numerator(k: int, start: int, control: int, end: int) -> int {
    let m = TURN_STEPS - k;
    m * m * start + 2 * m * k * control + k * k * end
}

/// Both coordinates of `p` are at most `limit` in magnitude.
pub open spec fn within(p: Point, limit: int) -> bool {
    -limit <= p.0 <= limit && -limit <= p.1 <= limit
}

#[derive(Clone, Copy, Debug, PartialEq, Eq)]
pub struct Vehicle {
    pub x: i64,
    pub y: i64,
    pub direction: Direction,
    pub route: Route,
    pub state: VehicleState,
    /// Whether the vehicle stands at the stop line for a red signal.
    pub waiting: bool,
    /// Ticks spent in the intersection, out of [`TURN_STEPS`].
    pub turn_progress: u32,
    pub turn_start_x: i64,
    pub turn_start_y: i64,
    pub turn_end_x: i64,
    pub turn_end_y: i64,
    pub exit_dir: Direction,
}

impl Vehicle {
    /// Position of the vehicle.
    pub open spec fn pos(self) -> Point {
        (self.x, self.y)
    }

    /// The vehicle is within the machine limits of the model: a vehicle that
    /// is not done has a full step of room before [`COORD_MAX`], and so have
    /// the ends of the curve of a vehicle in the intersection.
    pub open spec fn wf(&self) -> bool {
        &&& point_ok(self.pos())
        &&& self.turn_progress <= TURN_STEPS
        &&& self.state != VehicleState::Done ==> within(self.pos(), COORD_MAX - VEHICLE_SPEED)
        &&& self.state == VehicleState::InIntersection ==> {
            &&& within((self.turn_start_x, self.turn_start_y), COORD_MAX - VEHICLE_SPEED)
            &&& within((self.turn_end_x, self.turn_end_y), COORD_MAX - VEHICLE_SPEED)
        }
    }

    /// Squared distance of the vehicle from the spawn point of its lane.
    pub open spec fn spawn_dist_sq(self) -> int {
        dist_sq(self.pos(), spawn_point(self.direction))
    }

    /// Distance still to drive to the stop line; negative beyond it.
    pub open spec fn to_stop_line(self) -> int {
        let h = self.direction.heading();
        match self.direction {
            Direction::North | Direction::South => (stop_line(self.direction) - self.y) * h.1,
            Direction::East | Direction::West => (stop_line(self.direction) - self.x) * h.0,
        }
    }

    /// The vehicle has reached the stop line zone: the line is at most
    /// [`VEHICLE_H`] ahead.
    pub open spec fn at_stop(self) -> bool {
        self.to_stop_line() <= VEHICLE_H
    }

    /// The vehicle ahead, if there is one, is closer than [`SAFE_DIST`].
    pub open spec fn too_close(self, ahead: Option<Point>) -> bool {
        match ahead {
            Some(p) => dist_sq(self.pos(), p) < SAFE_DIST * SAFE_DIST,
            None => false,
        }
    }

    /// The vehicle one step of [`VEHICLE_SPEED`] further in `dir`.
    pub open spec fn moved(self, dir: Direction) -> Vehicle {
        let h = dir.heading();
        Vehicle {
            x: (self.x + VEHICLE_SPEED * h.0) as i64,
            y: (self.y + VEHICLE_SPEED * h.1) as i64,
            ..self
        }
    }

    /// The vehicle as it enters the intersection: the curve starts where the
    /// vehicle is and ends where [`exit_of`] says.
    pub open spec fn entering(self) -> Vehicle {
        let (exit_dir, end) = exit_of(self.direction, self.route);
        Vehicle {
            state: VehicleState::InIntersection,
            turn_start_x: self.x,
            turn_start_y: self.y,
            turn_progress: 0,
            exit_dir,
            turn_end_x: end.0,
            turn_end_y: end.1,
            ..self
        }
    }

    /// A tick of an approaching vehicle. It waits exactly when it is at the
    /// stop line without green. It stands still when it waits or is too
    /// close to the vehicle ahead; else it enters the intersection when it
    /// is at the stop line, and drives on when it is not.
    pub open spec fn approach(self, green: bool, ahead: Option<Point>) -> Vehicle {
        let held = Vehicle { waiting: self.at_stop() && !green, ..self };
        if self.too_close(ahead) || (self.at_stop() && !green) {
            held
        } else if self.at_stop() {
            held.entering()
        } else {
            held.moved(self.direction)
        }
    }

    /// A tick of a vehicle in the intersection: one step along the curve,
    /// which at the last step lands on the end of the curve and turns the
    /// vehicle to exiting.
    pub open spec fn cross(self) -> Vehicle {
        if self.turn_progress + 1 >= TURN_STEPS {
            Vehicle {
                turn_progress: TURN_STEPS,
                x: self.turn_end_x,
                y: self.turn_end_y,
                state: VehicleState::Exiting,
                ..self
            }
        } else {
            let k = self.turn_progress + 1;
            Vehicle {
                turn_progress: k as u32,
                x: bezier(k, self.turn_start_x as int, CENTER_X as int, self.turn_end_x as int) as i64,
                y: bezier(k, self.turn_start_y as int, CENTER_Y as int, self.turn_end_y as int) as i64,
                ..self
            }
        }
    }

    /// The point `p` is more than [`DESPAWN_MARGIN`] outside the window.
    pub open spec fn off_screen(p: Point) -> bool {
        ||| p.0 < -DESPAWN_MARGIN
        ||| p.0 > WINDOW_W + DESPAWN_MARGIN
        ||| p.1 < -DESPAWN_MARGIN
        ||| p.1 > WINDOW_H + DESPAWN_MARGIN
    }

    /// A tick of an exiting vehicle: one step in the direction of exit,
    /// after which the vehicle is done if it is off the screen.
    pub open spec fn leave(self) -> Vehicle {
        let m = self.moved(self.exit_dir);
        if Self::off_screen(m.pos()) {
            Vehicle { state: VehicleState::Done, ..m }
        } else {
            m
        }
    }

    /// The vehicle after one tick, with or without green for its direction
    /// and with the vehicle ahead at `ahead`.
    pub open spec fn step(self, green: bool, ahead: Option<Point>) -> Vehicle {
        match self.state {
            VehicleState::Approaching => self.approach(green, ahead),
            VehicleState::InIntersection => self.cross(),
            VehicleState::Exiting => self.leave(),
            VehicleState::Done => self,
        }
    }

    /// Whether the vehicle is within the machine limits of the model. For
    /// callers that cannot show it otherwise.
    pub fn is_wf(&self) -> (ok: bool)
        ensures
            ok == self.wf(),
    {
        let room = COORD_MAX - VEHICLE_SPEED;
        let in_plane = has_room((self.x, self.y), COORD_MAX);
        let has_step = match self.state {
            VehicleState::Done => true,
            _ => has_room((self.x, self.y), room),
        };
        let curve_has_step = match self.state {
            VehicleState::InIntersection => has_room((self.turn_start_x, self.turn_start_y), room)
                && has_room((self.turn_end_x, self.turn_end_y), room),
            _ => true,
        };
        in_plane && self.turn_progress <= TURN_STEPS && has_step && curve_has_step
    }

    /// The vehicle that enters in `dir` to take `route`: at the spawn point
    /// of its lane, approaching and not waiting, with no curve laid out.
    pub open spec fn fresh(dir: Direction, route: Route) -> Vehicle {
        Vehicle {
            x: spawn_point(dir).0,
            y: spawn_point(dir).1,
            direction: dir,
            route,
            state: VehicleState::Approaching,
            waiting: false,
            turn_progress: 0,
            turn_start_x: 0,
            turn_start_y: 0,
            turn_end_x: 0,
            turn_end_y: 0,
            exit_dir: Direction::North,
        }
    }

    /// A vehicle at the spawn point of its lane.
    pub fn new(dir: Direction, route: Route) -> (v: Vehicle)
        ensures
            v == Self::fresh(dir, route),
            v.wf(),
    {
        let (x, y) = spawn_pos(&dir);
        Vehicle {
            x,
            y,
            direction: dir,
            route,
            state: VehicleState::Approaching,
            waiting: false,
            turn_progress: 0,
            turn_start_x: 0,
            turn_start_y: 0,
            turn_end_x: 0,
            turn_end_y: 0,
            exit_dir: Direction::North,
        }
    }

    /// Squared distance from the spawn point of the lane.
    pub fn distance_from_spawn_squared(&self) -> (d: u64)
        requires
            point_ok(self.pos()),
        ensures
            d == self.spawn_dist_sq(),
    {
        let s = spawn_pos(&self.direction);
        distance_squared((self.x, self.y), s)
    }

    /// Distance from the spawn point of the lane, rounded down to a whole
    /// unit.
    pub fn distance_from_spawn(&self) -> (d: u64)
        requires
            point_ok(self.pos()),
        ensures
            is_floor_sqrt(self.spawn_dist_sq(), d as int),
    {
        isqrt(self.distance_from_spawn_squared())
    }

    /// Whether the vehicle is still part of the simulation.
    pub fn is_alive(&self) -> (alive: bool)
        ensures
            alive == (self.state != VehicleState::Done),
    {
        self.state != VehicleState::Done
    }

    /// Lets the vehicle live through one tick.
    ///
    /// An approaching vehicle enters the intersection only at the stop line
    /// and with green. No vehicle goes back in its life or skips a state,
    /// and the progress of a turn never decreases.
    pub fn update(&mut self, lights: &TrafficLightSystem, vehicle_ahead: Option<Point>)
        requires
            old(self).wf(),
            vehicle_ahead matches Some(p) ==> point_ok(p),
        ensures
            *final(self) == old(self).step(lights.grants(old(self).direction), vehicle_ahead),
            final(self).wf(),
            final(self).direction == old(self).direction,
            final(self).route == old(self).route,
            old(self).state == VehicleState::Approaching && final(self).state
                != VehicleState::Approaching ==> final(self).state == VehicleState::InIntersection
                && old(self).at_stop() && lights.grants(old(self).direction),
            final(self).state.rank() == old(self).state.rank() || final(self).state.rank() == old(
                self,
            ).state.rank() + 1,
            final(self).state == VehicleState::InIntersection ==> final(self).turn_progress >= old(
                self,
            ).turn_progress || old(self).state == VehicleState::Approaching,
    {
        match self.state {
            VehicleState::Approaching => self.update_approaching(lights, vehicle_ahead),
            VehicleState::InIntersection => self.update_in_intersection(),
            VehicleState::Exiting => self.update_exiting(),
            VehicleState::Done => {},
        }
    }

    /// A tick of an approaching vehicle.
    pub fn update_approaching(&mut self, lights: &TrafficLightSystem, ahead: Option<Point>)
        requires
            old(self).wf(),
            old(self).state == VehicleState::Approaching,
            ahead matches Some(p) ==> point_ok(p),
        ensures
            *final(self) == old(self).approach(lights.grants(old(self).direction), ahead),
            final(self).wf(),
    {
        let stop_line = stop_line_pos(&self.direction);

        let at_stop = match self.direction {
            Direction::North => self.y <= stop_line + VEHICLE_H,
            Direction::South => self.y >= stop_line - VEHICLE_H,
            Direction::East => self.x >= stop_line - VEHICLE_H,
            Direction::West => self.x <= stop_line + VEHICLE_H,
        };

        let blocked_by_ahead = match ahead {
            Some(p) => distance_squared((self.x, self.y), p) < (SAFE_DIST * SAFE_DIST) as u64,
            None => false,
        };

        let green = lights.is_green(&self.direction);

        let should_stop = blocked_by_ahead || (at_stop && !green);
        self.waiting = at_stop && !green;

        if should_stop {
            return ;
        }
        if at_stop && green {
            self.state = VehicleState::InIntersection;
            self.setup_turn();
            return ;
        }
        self.move_forward();
    }

    /// Lays out the curve through the intersection from where the vehicle
    /// is.
    pub fn setup_turn(&mut self)
        ensures
            *final(self) == (Vehicle { state: final(self).state, ..old(self).entering() }),
            final(self).state == old(self).state,
    {
        self.turn_start_x = self.x;
        self.turn_start_y = self.y;
        self.turn_progress = 0;

        let (exit_dir, ex, ey) = exit_info(&self.direction, &self.route);
        self.exit_dir = exit_dir;
        self.turn_end_x = ex;
        self.turn_end_y = ey;
    }

    /// A tick of a vehicle in the intersection.
    pub fn update_in_intersection(&mut self)
        requires
            old(self).wf(),
            old(self).state == VehicleState::InIntersection,
        ensures
            *final(self) == old(self).cross(),
            final(self).wf(),
    {
        self.turn_progress += 1;
        if self.turn_progress >= TURN_STEPS {
            self.turn_progress = TURN_STEPS;
            self.x = self.turn_end_x;
            self.y = self.turn_end_y;
            self.state = VehicleState::Exiting;
            return ;
        }
        let k = self.turn_progress;
        proof {
            let limit = COORD_MAX - VEHICLE_SPEED;
            lemma_bezier_between(k as int, self.turn_start_x as int, CENTER_X as int, self.turn_end_x as int, -limit, limit);
            lemma_bezier_between(k as int, self.turn_start_y as int, CENTER_Y as int, self.turn_end_y as int, -limit, limit);
        }
        self.x = bezier_coord(k, self.turn_start_x, CENTER_X, self.turn_end_x);
        self.y = bezier_coord(k, self.turn_start_y, CENTER_Y, self.turn_end_y);
    }

    /// A tick of an exiting vehicle.
    pub fn update_exiting(&mut self)
        requires
            old(self).wf(),
            old(self).state == VehicleState::Exiting,
        ensures
            *final(self) == old(self).leave(),
            final(self).wf(),
    {
        match self.exit_dir {
            Direction::North => self.y -= VEHICLE_SPEED,
            Direction::South => self.y += VEHICLE_SPEED,
            Direction::East => self.x += VEHICLE_SPEED,
            Direction::West => self.x -= VEHICLE_SPEED,
        }
        if self.x < -DESPAWN_MARGIN || self.x > WINDOW_W + DESPAWN_MARGIN || self.y
            < -DESPAWN_MARGIN || self.y > WINDOW_H + DESPAWN_MARGIN {
            self.state = VehicleState::Done;
        }
    }

    /// One step along the lane.
    pub fn move_forward(&mut self)
        requires
            within(old(self).pos(), COORD_MAX - VEHICLE_SPEED),
        ensures
            *final(self) == old(self).moved(old(self).direction),
    {
        match self.direction {
            Direction::North => self.y -= VEHICLE_SPEED,
            Direction::South => self.y += VEHICLE_SPEED,
            Direction::East => self.x += VEHICLE_SPEED,
            Direction::West => self.x -= VEHICLE_SPEED,
        }
    }

    /// Extent of the vehicle along the `x` axis: its length when it entered
    /// east or west, its breadth otherwise.
    pub fn width(&self) -> (w: i64)
        ensures
            w == (if self.direction.heading().0 != 0 {
                VEHICLE_H
            } else {
                VEHICLE_W
            }),
    {
        match self.direction {
            Direction::North | Direction::South => VEHICLE_W,
            Direction::East | Direction::West => VEHICLE_H,
        }
    }

    /// Extent of the vehicle along the `y` axis: its length when it entered
    /// north or south, its breadth otherwise.
    pub fn height(&self) -> (h: i64)
        ensures
            h == (if self.direction.heading().1 != 0 {
                VEHICLE_H
            } else {
                VEHICLE_W
            }),
    {
        match self.direction {
            Direction::North | Direction::South => VEHICLE_H,
            Direction::East | Direction::West => VEHICLE_W,
        }
    }
}

/// Whether both coordinates of `p` are at most `limit` in magnitude.
pub fn has_room(p: Point, limit: i64) -> (ok: bool)
    requires
        0 <= limit,
    ensures
        ok == within(p, limit as int),
{
    -limit <= p.0 && p.0 <= limit && -limit <= p.1 && p.1 <= limit
}

/// The constants are sound: a step is positive and shorter than the safe
/// distance and than the stop zone, a crossing of [`TURN_STEPS`] steps is
/// eighty pixels long, the roads fit the window, and the lanes lie inside
/// their roads.
///
/// A change of a constant that breaks one of these is reported here, before
/// any simulation runs.
pub proof fn lemma_constants_sound()
    ensures
        0 < VEHICLE_SPEED < SAFE_DIST,
        VEHICLE_SPEED < VEHICLE_H,
        TURN_STEPS * VEHICLE_SPEED == 80 * PX,
        0 < TURN_STEPS,
        2 * CENTER_X == WINDOW_W,
        2 * CENTER_Y == WINDOW_H,
        0 < LANE_OFFSET < ROAD_HALF,
        ROAD_HALF < CENTER_X,
        ROAD_HALF < CENTER_Y,
        WINDOW_W + DESPAWN_MARGIN + VEHICLE_SPEED <= COORD_MAX,
        WINDOW_H + DESPAWN_MARGIN + VEHICLE_SPEED <= COORD_MAX,
{
}

/// The spawn point of the lane of `dir`.
pub fn spawn_pos(dir: &Direction) -> (p: Point)
    ensures
        p == spawn_point(*dir),
        within(p, COORD_MAX - VEHICLE_SPEED),
{
    match dir {
        Direction::North => (CENTER_X + LANE_OFFSET, WINDOW_H + SPAWN_MARGIN),
        Direction::South => (CENTER_X - LANE_OFFSET, -SPAWN_MARGIN),
        Direction::East => (-SPAWN_MARGIN, CENTER_Y + LANE_OFFSET),
        Direction::West => (WINDOW_W + SPAWN_MARGIN, CENTER_Y - LANE_OFFSET),
    }
}

/// The stop line of the lane of `dir`, as a coordinate along the lane.
pub fn stop_line_pos(dir: &Direction) -> (line: i64)
    ensures
        line == stop_line(*dir),
{
    match dir {
        Direction::North => CENTER_Y + ROAD_HALF,
        Direction::South => CENTER_Y - ROAD_HALF,
        Direction::East => CENTER_X - ROAD_HALF,
        Direction::West => CENTER_X + ROAD_HALF,
    }
}

/// Direction and point of exit for each of the twelve pairs of direction and
/// route.
pub fn exit_info(dir: &Direction, route: &Route) -> (exit: (Direction, i64, i64))
    ensures
        (exit.0, (exit.1, exit.2)) == exit_of(*dir, *route),
        within((exit.1, exit.2), COORD_MAX - VEHICLE_SPEED),
{
    match (dir, route) {
        (Direction::North, Route::Straight) => (Direction::North, CENTER_X + LANE_OFFSET, CENTER_Y - ROAD_HALF),
        (Direction::North, Route::TurnRight) => (Direction::East, CENTER_X + ROAD_HALF, CENTER_Y - LANE_OFFSET),
        (Direction::North, Route::TurnLeft) => (Direction::West, CENTER_X - ROAD_HALF, CENTER_Y + LANE_OFFSET),
        (Direction::South, Route::Straight) => (Direction::South, CENTER_X - LANE_OFFSET, CENTER_Y + ROAD_HALF),
        (Direction::South, Route::TurnRight) => (Direction::West, CENTER_X - ROAD_HALF, CENTER_Y + LANE_OFFSET),
        (Direction::South, Route::TurnLeft) => (Direction::East, CENTER_X + ROAD_HALF, CENTER_Y - LANE_OFFSET),
        (Direction::East, Route::Straight) => (Direction::East, CENTER_X + ROAD_HALF, CENTER_Y + LANE_OFFSET),
        (Direction::East, Route::TurnRight) => (Direction::South, CENTER_X + LANE_OFFSET, CENTER_Y + ROAD_HALF),
        (Direction::East, Route::TurnLeft) => (Direction::North, CENTER_X - LANE_OFFSET, CENTER_Y - ROAD_HALF),
        (Direction::West, Route::Straight) => (Direction::West, CENTER_X - ROAD_HALF, CENTER_Y - LANE_OFFSET),
        (Direction::West, Route::TurnRight) => (Direction::North, CENTER_X - LANE_OFFSET, CENTER_Y - ROAD_HALF),
        (Direction::West, Route::TurnLeft) => (Direction::South, CENTER_X + LANE_OFFSET, CENTER_Y + ROAD_HALF),
    }
}

/// One coordinate of the point of the curve after `k` steps.
pub fn bezier_coord(k: u32, start: i64, control: i64, end: i64) -> (c: i64)
    requires
        k <= TURN_STEPS,
        coord_ok(start as int),
        coord_ok(control as int),
        coord_ok(end as int),
    ensures
        c == bezier(k as int, start as int, control as int, end as int),
{
    let n: i64 = TURN_STEPS as i64;
    let t: i64 = k as i64;
    let mt: i64 = n - t;
    let den: i64 = n * n;
    proof {
        lemma_weights(n as int, t as int);
    }
    let w0: i64 = mt * mt;
    let w1: i64 = 2 * mt * t;
    let w2: i64 = t * t;
    proof {
        lemma_weighted_bound(w0 as int, start as int, den as int);
        lemma_weighted_bound(w1 as int, control as int, den as int);
        lemma_weighted_bound(w2 as int, end as int, den as int);
        lemma_numerator_between(
            k as int,
            start as int,
            control as int,
            end as int,
            -COORD_MAX,
            COORD_MAX as int,
        );
    }
    let num: i64 = w0 * start + w1 * control + w2 * end;
    // Shifted by a multiple of the denominator, the numerator is not
    // negative, and the division of the machine rounds down.
    let shifted: i64 = num + COORD_MAX * den;
    proof {
        assert(num == bezier_numerator(k as int, start as int, control as int, end as int));
        vstd::arithmetic::div_mod::lemma_hoist_over_denominator(
            num as int,
            COORD_MAX as int,
            den as nat,
        );
    }
    shifted / den - COORD_MAX
}

/// An approaching vehicle does not tunnel through the distance check.
///
/// With `p` the position of the vehicle ahead: a vehicle closer than
/// [`SAFE_DIST`] to `p` stands still. One that is not comes no closer than
/// [`SAFE_DIST`] less one step of [`VEHICLE_SPEED`], so that the next tick
/// finds it still short of `p`; and one that was a step and more beyond
/// [`SAFE_DIST`] stays at least [`SAFE_DIST`] away.
pub proof fn lemma_no_tunneling(v: Vehicle, green: bool, p: Point)
    requires
        v.state == VehicleState::Approaching,
        v.wf(),
        point_ok(p),
    ensures
        v.too_close(Some(p)) ==> v.approach(green, Some(p)).pos() == v.pos(),
        !v.too_close(Some(p)) ==> dist_sq(v.approach(green, Some(p)).pos(), p) >= (SAFE_DIST
            - VEHICLE_SPEED) * (SAFE_DIST - VEHICLE_SPEED),
        dist_sq(v.pos(), p) >= (SAFE_DIST + VEHICLE_SPEED) * (SAFE_DIST + VEHICLE_SPEED) ==> dist_sq(
            v.approach(green, Some(p)).pos(),
            p,
        ) >= SAFE_DIST * SAFE_DIST,
{
    let after = v.approach(green, Some(p));
    let s = VEHICLE_SPEED as int;
    let r = SAFE_DIST as int;
    assert(after.pos() == v.pos() || after.pos() == v.moved(v.direction).pos());
    if !v.too_close(Some(p)) {
        assert((r - 0) * (r - 0) == r * r);
        lemma_axis_step_keeps_distance(v.pos(), after.pos(), p, s, r);
    }
    if dist_sq(v.pos(), p) >= (r + s) * (r + s) {
        assert(r + s - s == r);
        lemma_axis_step_keeps_distance(v.pos(), after.pos(), p, s, r + s);
    }
}

/// The three weights of a point of the curve are not negative and add up
/// to the square of the number of steps.
pub proof fn lemma_weights(n: int, k: int)
    requires
        0 <= k <= n,
    ensures
        0 <= (n - k) * (n - k) <= n * n,
        0 <= 2 * (n - k) * k <= n * n,
        0 <= k * k <= n * n,
        (n - k) * (n - k) + 2 * (n - k) * k + k * k == n * n,
{
    let m = n - k;
    assert(0 <= m * m && 0 <= 2 * m * k && 0 <= k * k && m * m + 2 * m * k + k * k == n * n) by (nonlinear_arith)
        requires
            0 <= k <= n,
            m == n - k,
    ;
}

/// A coordinate weighted by at most `den` is at most `den * COORD_MAX` in
/// magnitude.
pub proof fn lemma_weighted_bound(w: int, c: int, den: int)
    requires
        0 <= w <= den,
        coord_ok(c),
    ensures
        -(den * COORD_MAX) <= w * c <= den * COORD_MAX,
{
    let limit = COORD_MAX as int;
    assert(-(den * limit) <= w * c <= den * limit) by (nonlinear_arith)
        requires
            0 <= w <= den,
            -limit <= c <= limit,
    ;
}

/// The curve starts at its first point and ends at its last, exactly.
pub proof fn lemma_bezier_endpoints(start: int, control: int, end: int)
    ensures
        bezier(0, start, control, end) == start,
        bezier(TURN_STEPS as int, start, control, end) == end,
{
    let n = TURN_STEPS as int;
    let den = n * n;
    assert(bezier_numerator(0, start, control, end) == den * start && bezier_numerator(
        n,
        start,
        control,
        end,
    ) == den * end && den > 0) by (nonlinear_arith)
        requires
            n > 0,
            den == n * n,
            bezier_numerator(0, start, control, end) == (n - 0) * (n - 0) * start + 2 * (n - 0) * 0
                * control + 0 * 0 * end,
            bezier_numerator(n, start, control, end) == (n - n) * (n - n) * start + 2 * (n - n) * n
                * control + n * n * end,
    ;
    vstd::arithmetic::div_mod::lemma_div_multiples_vanish(start, den);
    vstd::arithmetic::div_mod::lemma_div_multiples_vanish(end, den);
}

/// The numerator of a point of the curve lies between the numerators of the
/// least and the greatest of its three points.
pub proof fn lemma_numerator_between(k: int, start: int, control: int, end: int, lo: int, hi: int)
    requires
        0 <= k <= TURN_STEPS,
        lo <= start <= hi,
        lo <= control <= hi,
        lo <= end <= hi,
    ensures
        TURN_STEPS * TURN_STEPS * lo <= bezier_numerator(k, start, control, end) <= TURN_STEPS
            * TURN_STEPS * hi,
{
    let n = TURN_STEPS as int;
    let m = n - k;
    let w0 = m * m;
    let w1 = 2 * m * k;
    let w2 = k * k;
    let den = n * n;
    let num = bezier_numerator(k, start, control, end);
    assert(num == w0 * start + w1 * control + w2 * end);
    lemma_weights(n, k);
    assert(w0 * lo <= w0 * start <= w0 * hi) by (nonlinear_arith)
        requires
            0 <= w0,
            lo <= start <= hi,
    ;
    assert(w1 * lo <= w1 * control <= w1 * hi) by (nonlinear_arith)
        requires
            0 <= w1,
            lo <= control <= hi,
    ;
    assert(w2 * lo <= w2 * end <= w2 * hi) by (nonlinear_arith)
        requires
            0 <= w2,
            lo <= end <= hi,
    ;
    assert(w0 * lo + w1 * lo + w2 * lo == den * lo && w0 * hi + w1 * hi + w2 * hi == den * hi) by (nonlinear_arith)
        requires
            w0 + w1 + w2 == den,
    ;
}

/// Every point of the curve lies between the least and the greatest of its
/// three points.
pub proof fn lemma_bezier_between(k: int, start: int, control: int, end: int, lo: int, hi: int)
    requires
        0 <= k <= TURN_STEPS,
        lo <= start <= hi,
        lo <= control <= hi,
        lo <= end <= hi,
    ensures
        lo <= bezier(k, start, control, end) <= hi,
{
    let den = TURN_STEPS * TURN_STEPS;
    let num = bezier_numerator(k, start, control, end);
    lemma_numerator_between(k, start, control, end, lo, hi);
    assert(den > 0) by (nonlinear_arith)
        requires
            den == TURN_STEPS * TURN_STEPS,
            TURN_STEPS > 0,
    ;
    vstd::arithmetic::div_mod::lemma_div_multiples_vanish(lo, den);
    vstd::arithmetic::div_mod::lemma_div_multiples_vanish(hi, den);
    vstd::arithmetic::div_mod::lemma_div_is_ordered(den * lo, num, den);
    vstd::arithmetic::div_mod::lemma_div_is_ordered(num, den * hi, den);
}

} // verus!
