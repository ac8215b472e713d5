//! The elevator as a mathematical state machine. Every operation of
//! [`crate::elevator::Elevator`] is specified by the function of the same
//! name here.

use crate::hardware::{
    derived_status, Door, Indicator, Motor, StatusView, FLOORS, TICKS_FOR_CLOSING, TICKS_PER_FLOOR,
};
use crate::protocol::{any_floor, decode, has_down, has_up, Command, Event};
use vstd::prelude::*;

verus! {

/// The floors whose flag is set, the first flag being that of floor 1.
pub open spec fn lit_floors(flags: Seq<bool>) -> Set<int> {
    Set::new(|n: int| 1 <= n <= flags.len() && flags[n - 1])
}

/// The state of the elevator: where the car is, which buttons are lit, what
/// the indicator shows, and the modes of motor and door with the status
/// derived from them.
pub struct ElevatorView {
    /// Floor the car is on.
    pub floor: int,
    /// Floors whose button in the car is lit.
    pub panel: Set<int>,
    /// Floors whose up button is lit.
    pub up: Set<int>,
    /// Floors whose down button is lit.
    pub down: Set<int>,
    /// What the direction indicator shows.
    pub indicator: Indicator,
    /// Floor whose indicator was set last. The light is seen only while the
    /// car is on that floor.
    pub indicator_floor: int,
    /// Ticks counted since the motor or the door last changed its mode.
    pub clock: nat,
    pub motor: Motor,
    pub door: Door,
    pub status: StatusView,
}

impl ElevatorView {
    /// The state in which an elevator is created: car on the first floor,
    /// everything off and the door closed. Until a first command is
    /// performed, presses and ticks pass unheeded.
    pub open spec fn initial() -> Self {
        ElevatorView {
            floor: 1,
            panel: Set::empty(),
            up: Set::empty(),
            down: Set::empty(),
            indicator: Indicator::Off,
            indicator_floor: 1,
            clock: 0,
            motor: Motor::Off,
            door: Door::Closed,
            status: StatusView::Initial,
        }
    }

    /// The state after a reset, whatever the state before it was: the start
    /// configuration, ready for commands.
    pub open spec fn reset(self) -> Self {
        ElevatorView { status: StatusView::Closed, ..Self::initial() }
    }

    /// Floors and buttons are those of the building.
    pub open spec fn wf(self) -> bool {
        &&& any_floor(self.floor)
        &&& any_floor(self.indicator_floor)
        &&& forall|n: int| self.panel.contains(n) ==> any_floor(n)
        &&& forall|n: int| self.up.contains(n) ==> has_up(n)
        &&& forall|n: int| self.down.contains(n) ==> has_down(n)
    }

    /// The status is the one that motor and door stand for, and a trip or a
    /// closing door has not been counting longer than it takes. An elevator
    /// in its first status stands with the motor off and the door closed.
    /// This holds of every state that commands lead to.
    pub open spec fn coherent(self) -> bool {
        &&& self.status is Initial || self.status is Crashed || self.status == derived_status(
            self.motor,
            self.door,
        )
        &&& self.status is Initial ==> self.motor == Motor::Off && self.door == Door::Closed
        &&& self.status is MoveUp || self.status is MoveDown ==> self.clock <= TICKS_PER_FLOOR
        &&& self.status is Closing ==> self.clock <= TICKS_FOR_CLOSING
    }

    /// Whether the elevator leaves `cmd` aside. A crashed elevator does so
    /// with every command. One that has not been reset yet does so with the
    /// presses of its buttons and with the ticks of the clock.
    pub open spec fn ignores(self, cmd: Command) -> bool {
        ||| self.status is Crashed
        ||| self.status is Initial && cmd.valid() && (cmd.is_press() || cmd == Command::Tick)
    }

    /// Whether the direction indicator is lit.
    pub open spec fn lit(self) -> bool {
        self.indicator != Indicator::Off
    }

    /// Records a fault. Nothing but the status changes.
    pub open spec fn crash(self, reason: Seq<char>) -> Self {
        ElevatorView { status: StatusView::Crashed(reason), ..self }
    }

    /// Derives the status from motor and door again. A crash stays.
    pub open spec fn update_status(self) -> Self {
        if self.status is Crashed {
            self
        } else {
            ElevatorView { status: derived_status(self.motor, self.door), ..self }
        }
    }

    pub open spec fn set_panel_button(self, floor: int) -> Self {
        ElevatorView { panel: self.panel.insert(floor), ..self }
    }

    /// Turns a panel button off. To clear one that is not lit is a fault.
    pub open spec fn clear_panel_button(self, floor: int) -> Self {
        if self.panel.contains(floor) {
            ElevatorView { panel: self.panel.remove(floor), ..self }
        } else {
            self.crash("panel button not previously set"@)
        }
    }

    pub open spec fn set_up_button(self, floor: int) -> Self {
        ElevatorView { up: self.up.insert(floor), ..self }
    }

    /// Turns an up button off. To clear one that is not lit is a fault.
    pub open spec fn clear_up_button(self, floor: int) -> Self {
        if self.up.contains(floor) {
            ElevatorView { up: self.up.remove(floor), ..self }
        } else {
            self.crash("up button not previously set"@)
        }
    }

    pub open spec fn set_down_button(self, floor: int) -> Self {
        ElevatorView { down: self.down.insert(floor), ..self }
    }

    /// Turns a down button off. To clear one that is not lit is a fault.
    pub open spec fn clear_down_button(self, floor: int) -> Self {
        if self.down.contains(floor) {
            ElevatorView { down: self.down.remove(floor), ..self }
        } else {
            self.crash("down button not previously set"@)
        }
    }

    /// Sets the indicator of `floor`. It is a fault to do so while the car is
    /// on another floor, or while the indicator is still lit for another
    /// floor: then the fault is recorded and the indicator left as it is.
    pub open spec fn set_indicator(self, floor: int, shows: Indicator) -> Self {
        if self.floor != floor {
            self.crash("direction indicator: elevator not on this floor"@)
        } else if self.indicator_floor != floor && self.lit() {
            self.crash("direction indicator still illuminated for a different floor"@)
        } else {
            ElevatorView { indicator: shows, indicator_floor: floor, ..self }
        }
    }

    /// Puts the motor into `mode` and starts counting ticks anew.
    pub open spec fn set_motor(self, mode: Motor) -> Self {
        ElevatorView { motor: mode, clock: 0, ..self }.update_status()
    }

    /// Stops the motor. To stop a running motor after the first tick of a
    /// trip leaves the car between floors: a fault.
    pub open spec fn stop(self) -> Self {
        if self.clock >= 1 && self.motor != Motor::Off {
            self.crash("stopped between floors!"@).set_motor(Motor::Off)
        } else {
            self.set_motor(Motor::Off)
        }
    }

    /// Puts the door into `mode` and starts counting ticks anew. To start
    /// closing a door that is closing already is a fault.
    pub open spec fn set_door(self, mode: Door) -> Self {
        if mode == Door::Closing && self.status is Closing {
            self.crash("door already closing"@)
        } else {
            ElevatorView { door: mode, clock: 0, ..self }.update_status()
        }
    }

    /// The state with one more tick counted.
    pub open spec fn count(self) -> Self {
        ElevatorView { clock: self.clock + 1, ..self }
    }

    /// The state after the moving car has reached `floor`.
    pub open spec fn arrive(self, floor: int) -> Self {
        ElevatorView { floor, clock: 0, ..self }
    }

    /// One tick of the clock. A moving car arrives at the next floor on the
    /// tick after `TICKS_PER_FLOOR`, and runs into the end of the shaft where
    /// there is no next floor. A closing door is closed on the tick after
    /// `TICKS_FOR_CLOSING`. The status is not derived again: it changes only
    /// where the car crashes.
    pub open spec fn tick(self) -> (Self, Option<Event>) {
        let due = self.clock + 1;
        match self.status {
            StatusView::MoveUp => {
                if self.floor >= FLOORS {
                    (self.count().crash("Hit the roof!"@), None)
                } else if due > TICKS_PER_FLOOR {
                    (self.arrive(self.floor + 1), Some(Event::Floor((self.floor + 1) as usize)))
                } else {
                    (self.count(), None)
                }
            },
            StatusView::MoveDown => {
                if self.floor <= 1 {
                    (self.count().crash("Hit the ground!"@), None)
                } else if due > TICKS_PER_FLOOR {
                    (self.arrive(self.floor - 1), Some(Event::Floor((self.floor - 1) as usize)))
                } else {
                    (self.count(), None)
                }
            },
            StatusView::Closing => {
                if due > TICKS_FOR_CLOSING {
                    (
                        ElevatorView { door: Door::Closed, clock: 0, ..self },
                        Some(Event::DoorClosed(self.floor as usize)),
                    )
                } else {
                    (self.count(), None)
                }
            },
            _ => (self.count(), None),
        }
    }

    /// What a command does to an elevator that accepts it, before the status
    /// is derived again.
    pub open spec fn perform(self, cmd: Command) -> (Self, Option<Event>) {
        if !cmd.valid() {
            (self.unrecognized(), None)
        } else {
            match cmd {
                Command::Reset => (self.reset(), None),
                Command::PressPanel(n) => (self.set_panel_button(n as int), Some(Event::Panel(n))),
                Command::PressUp(n) => (self.set_up_button(n as int), Some(Event::Up(n))),
                Command::PressDown(n) => (self.set_down_button(n as int), Some(Event::Down(n))),
                Command::ClearPanel(n) => (self.clear_panel_button(n as int), None),
                Command::ClearUp(n) => (self.clear_up_button(n as int), None),
                Command::ClearDown(n) => (self.clear_down_button(n as int), None),
                Command::IndicateUp(n) => (self.set_indicator(n as int, Indicator::Up), None),
                Command::IndicateDown(n) => (self.set_indicator(n as int, Indicator::Down), None),
                Command::ClearIndicator(n) => (self.set_indicator(n as int, Indicator::Off), None),
                Command::MotorUp => (self.set_motor(Motor::Up), None),
                Command::MotorDown => (self.set_motor(Motor::Down), None),
                Command::Stop => (self.stop(), None),
                Command::DoorOpen => (self.set_door(Door::Open), None),
                Command::DoorClose => (self.set_door(Door::Closing), None),
                Command::Tick => self.tick(),
            }
        }
    }

    /// The fault of a command that the elevator does not know.
    pub open spec fn unrecognized(self) -> Self {
        self.crash("Unrecognized command"@)
    }

    /// One step of the machine: the state after `cmd` and the event emitted.
    /// A reset is always taken. A command that the elevator ignores changes
    /// nothing. Every other command is performed and the status derived
    /// again.
    pub open spec fn step(self, cmd: Command) -> (Self, Option<Event>) {
        if cmd == Command::Reset {
            (self.reset(), None)
        } else if self.ignores(cmd) {
            (self, None)
        } else {
            let (next, event) = self.perform(cmd);
            (next.update_status(), event)
        }
    }

    /// One step of the machine on a token from the wire. A token that stands
    /// for no valid command is a fault, unless the elevator has crashed
    /// already.
    pub open spec fn handle(self, token: Seq<char>) -> (Self, Option<Event>) {
        match decode(token) {
            Some(cmd) => self.step(cmd),
            None => if self.status is Crashed {
                (self, None)
            } else {
                (self.unrecognized(), None)
            },
        }
    }

    /// The machine run over a sequence of commands: the state after the last
    /// of them, and the events emitted on the way, in order.
    pub open spec fn run(self, cmds: Seq<Command>) -> (Self, Seq<Event>)
        decreases cmds.len(),
    {
        if cmds.len() == 0 {
            (self, Seq::empty())
        } else {
            let (next, event) = self.step(cmds.first());
            let (last, events) = next.run(cmds.drop_first());
            (
                last,
                match event {
                    Some(e) => seq![e] + events,
                    None => events,
                },
            )
        }
    }

    /// Whether `cmd` makes this state count a tick.
    pub open spec fn counts(self, cmd: Command) -> bool {
        cmd == Command::Tick && !self.ignores(cmd)
    }
}

/// `n` ticks of the clock.
pub open spec fn ticks(n: nat) -> Seq<Command> {
    Seq::new(n, |i: int| Command::Tick)
}

/// The token of the event, where there is one.
pub open spec fn wire(event: Option<Event>) -> Option<Seq<char>> {
    match event {
        Some(e) => Some(e.token()),
        None => None,
    }
}

} // verus!
