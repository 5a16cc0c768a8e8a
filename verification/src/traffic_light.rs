//! The signal of the phased model: green alternates between the two road
//! axes.
//!
//! A phase lasts [`BASE_GREEN`]; it is held up to [`EXTENDED_GREEN`] while
//! at least [`CONGESTION_THRESHOLD`] vehicles wait on the green axis, and
//! it ends early, though never before [`MIN_GREEN`], when more vehicles
//! wait on the other axis than on the green one.

use vstd::prelude::*;
use crate::vehicle::{Direction, Vehicle};

verus! {

/// Shortest duration of a phase, in milliseconds.
pub const MIN_GREEN: u64 = 3000;

/// Duration of a phase on an axis that is not congested.
pub const BASE_GREEN: u64 = 5000;

/// Duration of a phase on a congested axis.
pub const EXTENDED_GREEN: u64 = 10000;

/// Number of waiting vehicles from which an axis counts as congested.
pub const CONGESTION_THRESHOLD: usize = 6;

/// The road axis that has green.
#[derive(Debug, Clone, Copy, PartialEq, Eq, Structural)]
pub enum Phase {
    NorthSouth,
    EastWest,
}

impl Phase {
    /// The phase of the other axis.
    pub open spec fn other(self) -> Phase {
        match self {
            Phase::NorthSouth => Phase::EastWest,
            Phase::EastWest => Phase::NorthSouth,
        }
    }

    /// The phase in which vehicles driving in `dir` have green.
    pub open spec fn of(dir: Direction) -> Phase {
        match dir {
            Direction::North | Direction::South => Phase::NorthSouth,
            Direction::East | Direction::West => Phase::EastWest,
        }
    }
}

/// The vehicles that wait at a red signal on the axis of `phase`.
pub open spec fn waiting_on(phase: Phase) -> spec_fn(Vehicle) -> bool {
    |v: Vehicle| Phase::of(v.direction) == phase && v.waiting
}

/// Number of vehicles that wait at a red signal on the axis of `phase`.
pub open spec fn waiting_count(vehicles: Seq<Vehicle>, phase: Phase) -> nat {
    vehicles.filter(waiting_on(phase)).len()
}

/// Whether a phase that has lasted `elapsed` milliseconds ends, with
/// `current` vehicles waiting on the green axis and `other` on the red one.
pub open spec fn phase_ends(current: nat, other: nat, elapsed: u64) -> bool {
    let max_green = if current >= CONGESTION_THRESHOLD {
        EXTENDED_GREEN
    } else {
        BASE_GREEN
    };
    elapsed >= max_green || (elapsed >= MIN_GREEN && other > current)
}

#[derive(Debug, Clone, Copy)]
pub struct TrafficLightSystem {
    pub phase: Phase,
    /// Time of the last change of phase, in milliseconds of the clock that
    /// the caller reads.
    pub last_switch: u64,
}

impl TrafficLightSystem {
    /// Vehicles driving in `dir` have green.
    pub open spec fn grants(self, dir: Direction) -> bool {
        self.phase == Phase::of(dir)
    }

    /// Milliseconds that the phase has lasted at the time `now`. A clock
    /// that reads less than at the last change of phase counts as no time
    /// passed.
    pub open spec fn elapsed(self, now: u64) -> u64 {
        if now >= self.last_switch {
            (now - self.last_switch) as u64
        } else {
            0
        }
    }

    /// Whether the phase ends at the time `now`.
    pub open spec fn switches(self, vehicles: Seq<Vehicle>, now: u64) -> bool {
        phase_ends(
            waiting_count(vehicles, self.phase),
            waiting_count(vehicles, self.phase.other()),
            self.elapsed(now),
        )
    }

    /// The signal after it has been updated at the time `now`.
    pub open spec fn updated(self, vehicles: Seq<Vehicle>, now: u64) -> TrafficLightSystem {
        if self.switches(vehicles, now) {
            TrafficLightSystem { phase: self.phase.other(), last_switch: now }
        } else {
            self
        }
    }

    /// The signal as it starts at the time `now`: north and south have
    /// green.
    pub open spec fn new_spec(now: u64) -> TrafficLightSystem {
        TrafficLightSystem { phase: Phase::NorthSouth, last_switch: now }
    }

    /// A signal whose north-south phase begins at the time `now`.
    pub fn new(now: u64) -> (lights: TrafficLightSystem)
        ensures
            lights == Self::new_spec(now),
    {
        TrafficLightSystem { phase: Phase::NorthSouth, last_switch: now }
    }

    /// Number of vehicles that wait on the axis of `phase`.
    pub fn count_waiting(vehicles: &[Vehicle], phase: Phase) -> (n: usize)
        ensures
            n == waiting_count(vehicles@, phase),
    {
        let mut n: usize = 0;
        let mut i: usize = 0;
        proof {
            reveal(Seq::filter);
            assert(vehicles@.take(0) =~= Seq::<Vehicle>::empty());
        }
        while i < vehicles.len()
            invariant
                i <= vehicles@.len(),
                n <= i,
                n == waiting_count(vehicles@.take(i as int), phase),
            decreases vehicles@.len() - i,
        {
            proof {
                reveal(Seq::filter);
                assert(vehicles@.take(i + 1).drop_last() =~= vehicles@.take(i as int));
            }
            let v = &vehicles[i];
            let on_axis = match v.direction {
                Direction::North | Direction::South => phase == Phase::NorthSouth,
                Direction::East | Direction::West => phase == Phase::EastWest,
            };
            if on_axis && v.waiting {
                n += 1;
            }
            i += 1;
        }
        proof {
            assert(vehicles@.take(vehicles@.len() as int) =~= vehicles@);
        }
        n
    }

    /// Ends the phase at the time `now` if it is due.
    ///
    /// A phase never ends before it has lasted [`MIN_GREEN`].
    pub fn update(&mut self, vehicles: &[Vehicle], now: u64)
        ensures
            *final(self) == old(self).updated(vehicles@, now),
            final(self).phase != old(self).phase ==> old(self).elapsed(now) >= MIN_GREEN,
    {
        let ns_waiting = Self::count_waiting(vehicles, Phase::NorthSouth);
        let ew_waiting = Self::count_waiting(vehicles, Phase::EastWest);

        let elapsed = now.saturating_sub(self.last_switch);

        let current_congested = match self.phase {
            Phase::NorthSouth => ns_waiting >= CONGESTION_THRESHOLD,
            Phase::EastWest => ew_waiting >= CONGESTION_THRESHOLD,
        };

        let max_green = if current_congested {
            EXTENDED_GREEN
        } else {
            BASE_GREEN
        };

        let other_has_more = match self.phase {
            Phase::NorthSouth => ew_waiting > ns_waiting,
            Phase::EastWest => ns_waiting > ew_waiting,
        };

        let should_switch = elapsed >= max_green || (elapsed >= MIN_GREEN && other_has_more);

        if should_switch {
            self.phase = match self.phase {
                Phase::NorthSouth => Phase::EastWest,
                Phase::EastWest => Phase::NorthSouth,
            };
            self.last_switch = now;
        }
    }

    /// Whether vehicles driving in `dir` have green.
    pub fn is_green(&self, dir: &Direction) -> (green: bool)
        ensures
            green == self.grants(*dir),
    {
        match dir {
            Direction::North | Direction::South => self.phase == Phase::NorthSouth,
            Direction::East | Direction::West => self.phase == Phase::EastWest,
        }
    }
}

/// Exactly one road axis has green at a time: two directions have green
/// together exactly when they share an axis, and of two directions on
/// different axes exactly one has green.
pub proof fn lemma_one_axis_green(lights: TrafficLightSystem, a: Direction, b: Direction)
    ensures
        lights.grants(a) && lights.grants(b) ==> Phase::of(a) == Phase::of(b),
        Phase::of(a) != Phase::of(b) ==> (lights.grants(a) <==> !lights.grants(b)),
{
}

} // verus!
