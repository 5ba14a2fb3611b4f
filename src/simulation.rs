use vstd::prelude::*;
use crate::door::Direction;
use crate::estimator::{advance, advanced, elapsed_between, elapsed_since};

verus! {

/// Abstract state of the simulated door.
pub ghost struct SimulationView {
    /// Position in milliseconds of travel from fully closed.
    pub position: u64,
    /// Current motion; `Neutral` when stopped.
    pub velocity: Direction,
    pub last_coupler_state: bool,
    /// Direction of the last motion that was started.
    pub last_direction: Direction,
    pub last_update_time: u64,
    /// Time for a full traverse, and the position of a fully open door.
    pub travel_ms: u64,
}

/// A deterministic kinematic model of a door behind a toggle relay, moving at
/// one full traverse per `travel_ms`, for running without hardware.
pub struct DoorSimulation {
    position: u64,
    velocity: Direction,
    last_coupler_state: bool,
    last_direction: Direction,
    last_update_time: u64,
    travel_ms: u64,
}

impl View for DoorSimulation {
    type V = SimulationView;

    closed spec fn view(&self) -> SimulationView {
        SimulationView {
            position: self.position,
            velocity: self.velocity,
            last_coupler_state: self.last_coupler_state,
            last_direction: self.last_direction,
            last_update_time: self.last_update_time,
            travel_ms: self.travel_ms,
        }
    }
}

/// The motion after the relay is pressed: a moving door stops; a stopped door
/// moves up from the bottom, down from the top, and otherwise opposite to its
/// last motion (up if it never moved).
pub open spec fn pressed_velocity(velocity: Direction, position: u64, last_direction: Direction, travel: u64) -> Direction {
    if velocity != Direction::Neutral {
        Direction::Neutral
    } else if position == 0 {
        Direction::Up
    } else if position >= travel {
        Direction::Down
    } else if last_direction == Direction::Up {
        Direction::Down
    } else {
        Direction::Up
    }
}

/// The motion after moving to `position`: stopped on reaching the limit it
/// was heading for.
pub open spec fn velocity_after_move(velocity: Direction, position: int, travel: int) -> Direction {
    if (velocity == Direction::Down && position == 0) || (velocity == Direction::Up && position == travel) {
        Direction::Neutral
    } else {
        velocity
    }
}

/// The simulated door after the relay level `coupler_state` is seen at `now`.
pub open spec fn simulated(v: SimulationView, coupler_state: bool, now: u64) -> SimulationView {
    let dt = elapsed_since(now, v.last_update_time);
    let pressed = coupler_state && !v.last_coupler_state;
    let velocity = if pressed {
        pressed_velocity(v.velocity, v.position, v.last_direction, v.travel_ms)
    } else {
        v.velocity
    };
    let last_direction = if pressed && velocity != Direction::Neutral {
        velocity
    } else {
        v.last_direction
    };
    let position = advanced(v.position as int, velocity, dt, v.travel_ms as int);
    SimulationView {
        position: position as u64,
        velocity: velocity_after_move(velocity, position, v.travel_ms as int),
        last_coupler_state: coupler_state,
        last_direction,
        last_update_time: now,
        travel_ms: v.travel_ms,
    }
}

impl DoorSimulation {
    pub open spec fn wf(&self) -> bool {
        self@.position <= self@.travel_ms
    }

    /// A closed, stopped door with no motion history, at time `now`.
    pub fn new(travel_ms: u64, now: u64) -> (r: DoorSimulation)
        ensures
            r.wf(),
            r@ == (SimulationView {
                position: 0,
                velocity: Direction::Neutral,
                last_coupler_state: false,
                last_direction: Direction::Neutral,
                last_update_time: now,
                travel_ms,
            }),
    {
        DoorSimulation {
            position: 0,
            velocity: Direction::Neutral,
            last_coupler_state: false,
            last_direction: Direction::Neutral,
            last_update_time: now,
            travel_ms,
        }
    }

    /// Advances the simulation to `now`. A rising edge of the relay level
    /// presses the opener's button; the door then moves for the elapsed time,
    /// stopping at either end.
    pub fn update(&mut self, coupler_state: bool, now: u64)
        requires
            old(self).wf(),
        ensures
            final(self).wf(),
            final(self)@ == simulated(old(self)@, coupler_state, now),
    {
        let dt = elapsed_between(now, self.last_update_time);
        self.last_update_time = now;
        if coupler_state && !self.last_coupler_state {
            let new_velocity = if self.velocity != Direction::Neutral {
                Direction::Neutral
            } else if self.position == 0 {
                Direction::Up
            } else if self.position >= self.travel_ms {
                Direction::Down
            } else if self.last_direction == Direction::Up {
                Direction::Down
            } else {
                Direction::Up
            };
            self.velocity = new_velocity;
            if new_velocity != Direction::Neutral {
                self.last_direction = new_velocity;
            }
        }
        self.last_coupler_state = coupler_state;
        self.position = advance(self.position, self.velocity, dt, self.travel_ms);
        if (self.velocity == Direction::Down && self.position == 0) || (self.velocity == Direction::Up
            && self.position == self.travel_ms) {
            self.velocity = Direction::Neutral;
        }
    }

    /// Position in milliseconds of travel from fully closed.
    pub fn get_position(&self) -> (r: u64)
        ensures
            r == self@.position,
    {
        self.position
    }

    /// Levels of the close and open limit switch pins. The switches pull
    /// their pin low when pressed: the close switch only when fully closed,
    /// the open switch only when fully open.
    pub fn limit_levels(&self) -> (r: (bool, bool))
        ensures
            r.0 == (self@.position > 0),
            r.1 == (self@.position < self@.travel_ms),
    {
        (self.position > 0, self.position < self.travel_ms)
    }
}

} // verus!
