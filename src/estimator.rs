use vstd::prelude::*;
use crate::door::{Direction, DoorState, DoorStatus};

verus! {

/// Bookkeeping the control loop carries from tick to tick besides the door
/// state: the last known direction and when each limit was last reached.
#[derive(Clone, Copy, Debug, PartialEq, Eq, Structural)]
pub struct Tracking {
    pub direction: Direction,
    pub last_full_open: u64,
    pub last_full_close: u64,
}

/// Time from `then` to `now`; a clock that reads earlier counts as no time.
pub open spec fn elapsed_since(now: u64, then: u64) -> int {
    if now >= then {
        now - then
    } else {
        0
    }
}

pub open spec fn clamp(x: int, lo: int, hi: int) -> int {
    if x < lo {
        lo
    } else if x > hi {
        hi
    } else {
        x
    }
}

/// Dead reckoning: the position moved by `elapsed` in `direction`, kept
/// within `[0, travel]`.
pub open spec fn advanced(position: int, direction: Direction, elapsed: int, travel: int) -> int {
    clamp(position + direction.sign() * elapsed, 0, travel)
}

/// The status of a door that has left both limits, given the status before.
pub open spec fn in_transit(prior: DoorStatus) -> DoorStatus {
    match prior {
        DoorStatus::Closed | DoorStatus::MovingUp => DoorStatus::MovingUp,
        DoorStatus::Open | DoorStatus::MovingDown => DoorStatus::MovingDown,
        DoorStatus::Ajar => DoorStatus::Ajar,
    }
}

/// The next door state and bookkeeping from the limit switch readings.
pub open spec fn estimated(
    close_asserted: bool,
    open_asserted: bool,
    prior: DoorState,
    track: Tracking,
    now: u64,
    elapsed: u64,
    travel: u64,
    cooldown: u64,
) -> (DoorState, Tracking) {
    if close_asserted && open_asserted {
        (DoorState { status: DoorStatus::Ajar, ..prior }, track)
    } else if close_asserted {
        if elapsed_since(now, track.last_full_open) < cooldown {
            (prior, track)
        } else {
            (
                DoorState { status: DoorStatus::Closed, setpoint: prior.setpoint, position: 0 },
                Tracking { direction: Direction::Down, last_full_close: now, ..track },
            )
        }
    } else if open_asserted {
        if elapsed_since(now, track.last_full_close) < cooldown {
            (prior, track)
        } else {
            (
                DoorState { status: DoorStatus::Open, setpoint: prior.setpoint, position: travel },
                Tracking { direction: Direction::Up, last_full_open: now, ..track },
            )
        }
    } else if prior.status == DoorStatus::Ajar {
        (prior, track)
    } else {
        (
            DoorState {
                status: in_transit(prior.status),
                setpoint: prior.setpoint,
                position: advanced(
                    prior.position as int,
                    track.direction,
                    elapsed as int,
                    travel as int,
                ) as u64,
            },
            track,
        )
    }
}

/// Time from `then` to `now`, or zero if the clock reads earlier.
pub fn elapsed_between(now: u64, then: u64) -> (r: u64)
    ensures
        r == elapsed_since(now, then),
{
    if now >= then {
        now - then
    } else {
        0
    }
}

/// Moves `position` by `elapsed` in `direction`, clamped to `[0, travel]`.
pub fn advance(position: u64, direction: Direction, elapsed: u64, travel: u64) -> (r: u64)
    requires
        position <= travel,
    ensures
        r == advanced(position as int, direction, elapsed as int, travel as int),
        r <= travel,
{
    match direction {
        Direction::Up => {
            if elapsed >= travel - position {
                travel
            } else {
                position + elapsed
            }
        },
        Direction::Down => {
            if elapsed >= position {
                0
            } else {
                position - elapsed
            }
        },
        Direction::Neutral => position,
    }
}

/// Estimates the door's next state from the two limit switches and the time
/// elapsed since the previous tick.
///
/// Both switches asserted is a sensor contradiction: the status becomes
/// `Ajar`. A single limit asserted within `cooldown` of reaching the opposite
/// limit is treated as noise and changes nothing. Otherwise a limit
/// resynchronises the position exactly and records when it was reached.
/// With neither asserted the door is assumed to travel in the last direction.
pub fn estimate(
    close_asserted: bool,
    open_asserted: bool,
    prior: DoorState,
    track: Tracking,
    now: u64,
    elapsed: u64,
    travel: u64,
    cooldown: u64,
) -> (r: (DoorState, Tracking))
    requires
        prior.position <= travel,
    ensures
        r == estimated(close_asserted, open_asserted, prior, track, now, elapsed, travel, cooldown),
        r.0.position <= travel,
        close_asserted && !open_asserted && elapsed_since(now, track.last_full_open) < cooldown
            ==> r.0 == prior,
        open_asserted && !close_asserted && elapsed_since(now, track.last_full_close) < cooldown
            ==> r.0 == prior,
{
    if close_asserted && open_asserted {
        (DoorState { status: DoorStatus::Ajar, setpoint: prior.setpoint, position: prior.position }, track)
    } else if close_asserted {
        if elapsed_between(now, track.last_full_open) < cooldown {
            (prior, track)
        } else {
            (
                DoorState { status: DoorStatus::Closed, setpoint: prior.setpoint, position: 0 },
                Tracking {
                    direction: Direction::Down,
                    last_full_open: track.last_full_open,
                    last_full_close: now,
                },
            )
        }
    } else if open_asserted {
        if elapsed_between(now, track.last_full_close) < cooldown {
            (prior, track)
        } else {
            (
                DoorState { status: DoorStatus::Open, setpoint: prior.setpoint, position: travel },
                Tracking {
                    direction: Direction::Up,
                    last_full_open: now,
                    last_full_close: track.last_full_close,
                },
            )
        }
    } else {
        let status = match prior.status {
            DoorStatus::Closed | DoorStatus::MovingUp => DoorStatus::MovingUp,
            DoorStatus::Open | DoorStatus::MovingDown => DoorStatus::MovingDown,
            DoorStatus::Ajar => {
                return (prior, track);
            },
        };
        let position = advance(prior.position, track.direction, elapsed, travel);
        (DoorState { status, setpoint: prior.setpoint, position }, track)
    }
}

} // verus!
