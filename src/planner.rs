use vstd::prelude::*;
use crate::door::{Direction, DoorSetpoint, DoorState, DoorStatus, GpioCommand};
use crate::estimator::Tracking;

verus! {

/// One element of a pulse plan: a press of the relay, or a rest between
/// presses.
#[derive(Clone, Copy, Debug, PartialEq, Eq, Structural)]
pub enum Step {
    Press,
    Rest,
}

/// The result of planning a command: the presses to make and the provisional
/// state and bookkeeping assumed once they are made.
pub struct Plan {
    pub steps: Vec<Step>,
    pub state: DoorState,
    pub track: Tracking,
}

pub open spec fn one_press() -> Seq<Step> {
    seq![Step::Press]
}

/// Stop, rest, then start again in the other direction.
pub open spec fn reverse_presses() -> Seq<Step> {
    seq![Step::Press, Step::Rest, Step::Press]
}

/// Start in the direction last travelled, stop, rest, then start again the
/// other way.
pub open spec fn double_reverse_presses() -> Seq<Step> {
    seq![Step::Press, Step::Press, Step::Rest, Step::Press]
}

/// The presses the relay needs for `command`, given the current status and
/// the last direction of travel.
pub open spec fn planned_steps(command: GpioCommand, status: DoorStatus, direction: Direction) -> Seq<Step> {
    match command {
        GpioCommand::Toggle => one_press(),
        GpioCommand::Open => match status {
            DoorStatus::MovingDown => reverse_presses(),
            DoorStatus::Ajar => if direction == Direction::Up {
                double_reverse_presses()
            } else {
                one_press()
            },
            DoorStatus::Closed => one_press(),
            DoorStatus::Open | DoorStatus::MovingUp => Seq::empty(),
        },
        GpioCommand::Close => match status {
            DoorStatus::MovingUp => reverse_presses(),
            DoorStatus::Ajar => if direction == Direction::Down {
                double_reverse_presses()
            } else {
                one_press()
            },
            DoorStatus::Open => one_press(),
            DoorStatus::Closed | DoorStatus::MovingDown => Seq::empty(),
        },
    }
}

pub open spec fn heading_up(state: DoorState) -> DoorState {
    DoorState { status: DoorStatus::MovingUp, setpoint: DoorSetpoint::Open, position: state.position }
}

pub open spec fn heading_down(state: DoorState) -> DoorState {
    DoorState { status: DoorStatus::MovingDown, setpoint: DoorSetpoint::Closed, position: state.position }
}

/// The provisional state and bookkeeping after planning `command`. Direction
/// and limit timestamps are updated when the command is issued.
pub open spec fn planned_outcome(command: GpioCommand, state: DoorState, track: Tracking, now: u64) -> (DoorState, Tracking) {
    match command {
        GpioCommand::Toggle => match state.status {
            DoorStatus::Closed => (
                heading_up(state),
                Tracking { direction: Direction::Up, last_full_open: now, ..track },
            ),
            DoorStatus::Open => (
                heading_down(state),
                Tracking { direction: Direction::Down, last_full_close: now, ..track },
            ),
            DoorStatus::MovingUp | DoorStatus::MovingDown => (
                DoorState { status: DoorStatus::Ajar, setpoint: DoorSetpoint::Ajar, position: state.position },
                track,
            ),
            DoorStatus::Ajar => if track.direction == Direction::Up {
                (heading_down(state), Tracking { direction: Direction::Down, ..track })
            } else {
                (heading_up(state), Tracking { direction: Direction::Up, ..track })
            },
        },
        GpioCommand::Open => match state.status {
            DoorStatus::MovingDown | DoorStatus::Ajar => (
                heading_up(state),
                Tracking { direction: Direction::Up, ..track },
            ),
            DoorStatus::Closed => (
                heading_up(state),
                Tracking { direction: Direction::Up, last_full_open: now, ..track },
            ),
            DoorStatus::Open | DoorStatus::MovingUp => (
                DoorState { setpoint: DoorSetpoint::Open, ..state },
                Tracking { direction: Direction::Up, ..track },
            ),
        },
        GpioCommand::Close => match state.status {
            DoorStatus::MovingUp | DoorStatus::Ajar => (
                heading_down(state),
                Tracking { direction: Direction::Down, ..track },
            ),
            DoorStatus::Open => (
                heading_down(state),
                Tracking { direction: Direction::Down, last_full_close: now, ..track },
            ),
            DoorStatus::Closed | DoorStatus::MovingDown => (
                DoorState { setpoint: DoorSetpoint::Closed, ..state },
                Tracking { direction: Direction::Down, ..track },
            ),
        },
    }
}

fn up_from(state: DoorState) -> (r: DoorState)
    ensures
        r == heading_up(state),
{
    DoorState { status: DoorStatus::MovingUp, setpoint: DoorSetpoint::Open, position: state.position }
}

fn down_from(state: DoorState) -> (r: DoorState)
    ensures
        r == heading_down(state),
{
    DoorState { status: DoorStatus::MovingDown, setpoint: DoorSetpoint::Closed, position: state.position }
}

fn with_direction(track: Tracking, direction: Direction) -> (r: Tracking)
    ensures
        r == (Tracking { direction, ..track }),
{
    Tracking { direction, last_full_open: track.last_full_open, last_full_close: track.last_full_close }
}

/// Translates a command into the relay presses it needs and the state the
/// door is then assumed to be in.
///
/// A toggle is always exactly one press. Open and close count the presses
/// from the current motion: none if the door already goes that way, one from
/// rest at the opposite limit or when the last travel was the other way, a
/// stop-rest-start sequence to reverse a moving door, and four steps when a
/// stopped door would first move the wrong way.
pub fn plan(command: GpioCommand, state: DoorState, track: Tracking, now: u64) -> (r: Plan)
    ensures
        r.steps@ == planned_steps(command, state.status, track.direction),
        (r.state, r.track) == planned_outcome(command, state, track, now),
        r.state.position == state.position,
        command == GpioCommand::Toggle ==> r.steps@ == one_press(),
        command == GpioCommand::Open && state.status == DoorStatus::MovingDown
            ==> r.steps@ == reverse_presses(),
        command == GpioCommand::Open && (state.status == DoorStatus::Open || state.status
            == DoorStatus::MovingUp) ==> r.steps@.len() == 0,
{
    match command {
        GpioCommand::Toggle => {
            let steps = vec![Step::Press];
            let (next, next_track) = match state.status {
                DoorStatus::Closed => (
                    up_from(state),
                    Tracking { direction: Direction::Up, last_full_open: now, last_full_close: track.last_full_close },
                ),
                DoorStatus::Open => (
                    down_from(state),
                    Tracking { direction: Direction::Down, last_full_open: track.last_full_open, last_full_close: now },
                ),
                DoorStatus::MovingUp | DoorStatus::MovingDown => (
                    DoorState { status: DoorStatus::Ajar, setpoint: DoorSetpoint::Ajar, position: state.position },
                    track,
                ),
                DoorStatus::Ajar => {
                    if track.direction == Direction::Up {
                        (down_from(state), with_direction(track, Direction::Down))
                    } else {
                        (up_from(state), with_direction(track, Direction::Up))
                    }
                },
            };
            Plan { steps, state: next, track: next_track }
        },
        GpioCommand::Open => {
            let up = with_direction(track, Direction::Up);
            match state.status {
                DoorStatus::MovingDown => Plan {
                    steps: vec![Step::Press, Step::Rest, Step::Press],
                    state: up_from(state),
                    track: up,
                },
                DoorStatus::Ajar => {
                    let steps = if track.direction == Direction::Up {
                        vec![Step::Press, Step::Press, Step::Rest, Step::Press]
                    } else {
                        vec![Step::Press]
                    };
                    Plan { steps, state: up_from(state), track: up }
                },
                DoorStatus::Closed => Plan {
                    steps: vec![Step::Press],
                    state: up_from(state),
                    track: Tracking { direction: Direction::Up, last_full_open: now, last_full_close: track.last_full_close },
                },
                DoorStatus::Open | DoorStatus::MovingUp => Plan {
                    steps: Vec::new(),
                    state: DoorState { status: state.status, setpoint: DoorSetpoint::Open, position: state.position },
                    track: up,
                },
            }
        },
        GpioCommand::Close => {
            let down = with_direction(track, Direction::Down);
            match state.status {
                DoorStatus::MovingUp => Plan {
                    steps: vec![Step::Press, Step::Rest, Step::Press],
                    state: down_from(state),
                    track: down,
                },
                DoorStatus::Ajar => {
                    let steps = if track.direction == Direction::Down {
                        vec![Step::Press, Step::Press, Step::Rest, Step::Press]
                    } else {
                        vec![Step::Press]
                    };
                    Plan { steps, state: down_from(state), track: down }
                },
                DoorStatus::Open => Plan {
                    steps: vec![Step::Press],
                    state: down_from(state),
                    track: Tracking { direction: Direction::Down, last_full_open: track.last_full_open, last_full_close: now },
                },
                DoorStatus::Closed | DoorStatus::MovingDown => Plan {
                    steps: Vec::new(),
                    state: DoorState { status: state.status, setpoint: DoorSetpoint::Closed, position: state.position },
                    track: down,
                },
            }
        },
    }
}

} // verus!
