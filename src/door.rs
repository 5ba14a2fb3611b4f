use vstd::prelude::*;

verus! {

/// Observed or estimated status of the door.
#[derive(Clone, Copy, Debug, PartialEq, Eq, Structural)]
pub enum DoorStatus {
    Closed,
    Open,
    Ajar,
    MovingUp,
    MovingDown,
}

/// The last intended end state of the door.
#[derive(Clone, Copy, Debug, PartialEq, Eq, Structural)]
pub enum DoorSetpoint {
    Closed,
    Open,
    Ajar,
}

/// Last known or intended direction of travel.
#[derive(Clone, Copy, Debug, PartialEq, Eq, Structural)]
pub enum Direction {
    Up,
    Down,
    Neutral,
}

/// A request from outside: an intended outcome, not a raw pulse.
#[derive(Clone, Copy, Debug, PartialEq, Eq, Structural)]
pub enum GpioCommand {
    Toggle,
    Open,
    Close,
}

/// A snapshot of the door: status, setpoint, and position in milliseconds of
/// travel from fully closed.
#[derive(Clone, Copy, Debug, PartialEq, Eq, Structural)]
pub struct DoorState {
    pub status: DoorStatus,
    pub setpoint: DoorSetpoint,
    pub position: u64,
}

pub open spec fn status_name(s: DoorStatus) -> Seq<char> {
    match s {
        DoorStatus::Closed => "closed"@,
        DoorStatus::Open => "open"@,
        DoorStatus::Ajar => "ajar"@,
        DoorStatus::MovingUp => "moving_up"@,
        DoorStatus::MovingDown => "moving_down"@,
    }
}

pub open spec fn setpoint_name(s: DoorSetpoint) -> Seq<char> {
    match s {
        DoorSetpoint::Closed => "closed"@,
        DoorSetpoint::Open => "open"@,
        DoorSetpoint::Ajar => "ajar"@,
    }
}

impl DoorStatus {
    /// The lower-case name under which the status is published.
    pub fn value(&self) -> (r: &'static str)
        ensures
            r@ == status_name(*self),
    {
        match self {
            DoorStatus::Closed => "closed",
            DoorStatus::Open => "open",
            DoorStatus::Ajar => "ajar",
            DoorStatus::MovingUp => "moving_up",
            DoorStatus::MovingDown => "moving_down",
        }
    }
}

impl DoorSetpoint {
    /// The lower-case name under which the setpoint is published.
    pub fn value(&self) -> (r: &'static str)
        ensures
            r@ == setpoint_name(*self),
    {
        match self {
            DoorSetpoint::Closed => "closed",
            DoorSetpoint::Open => "open",
            DoorSetpoint::Ajar => "ajar",
        }
    }
}

impl Direction {
    /// The direction as a signed unit: `+1` up, `-1` down, `0` unknown.
    pub open spec fn sign(self) -> int {
        match self {
            Direction::Up => 1,
            Direction::Down => -1,
            Direction::Neutral => 0,
        }
    }
}

} // verus!
