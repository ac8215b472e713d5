//! The parts of the car that commands act on, and the status derived from them.

use vstd::prelude::*;

verus! {

/// Number of floors the car serves; floors are numbered from 1.
pub const FLOORS: usize = 5;

/// Ticks the car needs to travel from one floor to the next.
pub const TICKS_PER_FLOOR: usize = 30;

/// Ticks the door needs to go from open to closed.
pub const TICKS_FOR_CLOSING: usize = 20;

/// Mode of the hoist motor.
#[derive(Clone, Copy, Debug, PartialEq, Eq, Structural)]
pub enum Motor {
    Up,
    Down,
    Off,
}

/// Mode of the car door.
#[derive(Clone, Copy, Debug, PartialEq, Eq, Structural)]
pub enum Door {
    Open,
    Closing,
    Closed,
}

/// What the direction indicator shows.
#[derive(Clone, Copy, Debug, PartialEq, Eq, Structural)]
pub enum Indicator {
    Up,
    Down,
    Off,
}

/// Operating status of the elevator. Every status but `Initial` and `Crashed`
/// is derived from the motor and the door; `Crashed` carries the reason of the
/// fault and stays until the elevator is reset.
#[derive(Clone, Debug, PartialEq, Eq)]
pub enum Status {
    Initial,
    MoveUp,
    MoveDown,
    Open,
    Closing,
    Closed,
    Crashed(String),
}

/// A `Status` as a mathematical value: the reason of a crash is a sequence of
/// characters.
pub enum StatusView {
    Initial,
    MoveUp,
    MoveDown,
    Open,
    Closing,
    Closed,
    Crashed(Seq<char>),
}

impl View for Status {
    type V = StatusView;

    open spec fn view(&self) -> StatusView {
        match self {
            Status::Initial => StatusView::Initial,
            Status::MoveUp => StatusView::MoveUp,
            Status::MoveDown => StatusView::MoveDown,
            Status::Open => StatusView::Open,
            Status::Closing => StatusView::Closing,
            Status::Closed => StatusView::Closed,
            Status::Crashed(reason) => StatusView::Crashed(reason@),
        }
    }
}

/// The status that a motor mode and a door mode stand for. A motor that runs
/// while the door is not closed is a fault.
pub open spec fn derived_status(motor: Motor, door: Door) -> StatusView {
    match (motor, door) {
        (Motor::Up, Door::Closed) => StatusView::MoveUp,
        (Motor::Down, Door::Closed) => StatusView::MoveDown,
        (Motor::Off, Door::Closing) => StatusView::Closing,
        (Motor::Off, Door::Closed) => StatusView::Closed,
        (Motor::Off, Door::Open) => StatusView::Open,
        (_, Door::Open) => StatusView::Crashed("Moving with the door open"@),
        (_, Door::Closing) => StatusView::Crashed("Moving before the door has closed"@),
    }
}

impl Status {
    /// Whether this status records a fault.
    pub fn is_crashed(&self) -> (crashed: bool)
        ensures
            crashed == (self@ is Crashed),
    {
        match self {
            Status::Crashed(_) => true,
            _ => false,
        }
    }

    /// Whether this is the status of an elevator that has not been reset
    /// yet.
    pub fn is_initial(&self) -> (initial: bool)
        ensures
            initial == (self@ is Initial),
    {
        match self {
            Status::Initial => true,
            _ => false,
        }
    }

    /// The reason of the fault, if this status records one.
    pub fn reason(&self) -> (reason: Option<&String>)
        ensures
            match reason {
                Some(text) => self@ == StatusView::Crashed(text@),
                None => !(self@ is Crashed),
            },
    {
        match self {
            Status::Crashed(text) => Some(text),
            _ => None,
        }
    }
}

} // verus!
