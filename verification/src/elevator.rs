//! The elevator itself: the one record of the hardware's state, and the
//! interpreter that applies commands to it.

use crate::display::{indicator_column, push_button_row, status_column};
use crate::hardware::{Door, Indicator, Motor, Status, TICKS_FOR_CLOSING, TICKS_PER_FLOOR};
use crate::model::{lit_floors, wire, ElevatorView};
use crate::protocol::{any_floor, decode, floor_digit, has_down, has_up, Command, Event};
use vstd::prelude::*;
use vstd::string::*;

verus! {

/// The token that was emitted, as a sequence of characters.
pub open spec fn emitted(token: Option<String>) -> Option<Seq<char>> {
    match token {
        Some(text) => Some(text@),
        None => None,
    }
}

/// A simulated elevator. Its state is read through the methods named after
/// the fields, and changed only by commands.
#[derive(Debug, PartialEq, Eq)]
pub struct Elevator {
    floor: usize,
    panel_buttons: [bool; 5],
    up_buttons: [bool; 5],
    down_buttons: [bool; 5],
    indicator: Indicator,
    indicator_floor: usize,
    clock: usize,
    motor: Motor,
    door: Door,
    status: Status,
}

impl View for Elevator {
    type V = ElevatorView;

    closed spec fn view(&self) -> ElevatorView {
        ElevatorView {
            floor: self.floor as int,
            panel: lit_floors(self.panel_buttons@),
            up: lit_floors(self.up_buttons@),
            down: lit_floors(self.down_buttons@),
            indicator: self.indicator,
            indicator_floor: self.indicator_floor as int,
            clock: self.clock as nat,
            motor: self.motor,
            door: self.door,
            status: self.status@,
        }
    }
}

impl Elevator {
    /// The car is on a floor of the building, and so is the indicator that
    /// was set last; the top floor has no up button and the bottom floor no
    /// down button.
    #[verifier::type_invariant]
    spec fn inv(self) -> bool {
        &&& 1 <= self.floor <= 5
        &&& 1 <= self.indicator_floor <= 5
        &&& !self.up_buttons[4]
        &&& !self.down_buttons[0]
    }

    /// An elevator as the hardware starts up: car on the first floor,
    /// everything off, the door closed.
    pub fn new() -> (elevator: Elevator)
        ensures
            elevator@ == ElevatorView::initial(),
    {
        let elevator = Elevator {
            floor: 1,
            panel_buttons: [false, false, false, false, false],
            up_buttons: [false, false, false, false, false],
            down_buttons: [false, false, false, false, false],
            indicator: Indicator::Off,
            indicator_floor: 1,
            clock: 0,
            motor: Motor::Off,
            door: Door::Closed,
            status: Status::Initial,
        };
        assert(elevator@.panel =~= Set::<int>::empty());
        assert(elevator@.up =~= Set::<int>::empty());
        assert(elevator@.down =~= Set::<int>::empty());
        elevator
    }

    /// Puts every part back into the start configuration and takes commands
    /// from then on, whatever the state was, a crash included.
    pub fn reset(&mut self)
        ensures
            final(self)@ == old(self)@.reset(),
            final(self)@.wf(),
    {
        proof {
            use_type_invariant(&*self);
        }
        self.floor = 1;
        self.panel_buttons = [false, false, false, false, false];
        self.up_buttons = [false, false, false, false, false];
        self.down_buttons = [false, false, false, false, false];
        self.indicator = Indicator::Off;
        self.indicator_floor = 1;
        self.clock = 0;
        self.motor = Motor::Off;
        self.door = Door::Closed;
        self.status = Status::Closed;
        assert(self@.panel =~= Set::<int>::empty());
        assert(self@.up =~= Set::<int>::empty());
        assert(self@.down =~= Set::<int>::empty());
    }

    /// Records a fault with its reason. Every other part stays as it is.
    pub fn crash(&mut self, reason: &str)
        ensures
            final(self)@ == old(self)@.crash(reason@),
            final(self)@.wf(),
    {
        proof {
            use_type_invariant(&*self);
        }
        self.status = Status::Crashed(reason.to_owned());
    }

    /// Derives the status from the motor and the door. A motor that runs
    /// while the door is not closed is a fault; a fault recorded before
    /// stays.
    pub fn update_status(&mut self)
        ensures
            final(self)@ == old(self)@.update_status(),
            final(self)@.wf(),
    {
        proof {
            use_type_invariant(&*self);
        }
        if self.status.is_crashed() {
            return ;
        }
        match (self.motor, self.door) {
            (Motor::Up, Door::Closed) => {
                self.status = Status::MoveUp;
            },
            (Motor::Down, Door::Closed) => {
                self.status = Status::MoveDown;
            },
            (Motor::Off, Door::Closing) => {
                self.status = Status::Closing;
            },
            (Motor::Off, Door::Closed) => {
                self.status = Status::Closed;
            },
            (Motor::Off, Door::Open) => {
                self.status = Status::Open;
            },
            (_, Door::Open) => {
                self.crash("Moving with the door open");
            },
            (_, Door::Closing) => {
                self.crash("Moving before the door has closed");
            },
        }
    }

    /// Lights the button for `floor` inside the car.
    pub fn set_panel_button(&mut self, floor: usize)
        requires
            any_floor(floor as int),
        ensures
            final(self)@ == old(self)@.set_panel_button(floor as int),
            final(self)@.wf(),
    {
        proof {
            use_type_invariant(&*self);
        }
        self.panel_buttons[floor - 1] = true;
        assert(self@.panel =~= old(self)@.panel.insert(floor as int));
    }

    /// Turns the button for `floor` inside the car off. It is a fault to
    /// clear a button that is not lit.
    pub fn clear_panel_button(&mut self, floor: usize)
        requires
            any_floor(floor as int),
        ensures
            final(self)@ == old(self)@.clear_panel_button(floor as int),
            final(self)@.wf(),
    {
        proof {
            use_type_invariant(&*self);
        }
        if !self.panel_buttons[floor - 1] {
            self.crash("panel button not previously set");
        } else {
            self.panel_buttons[floor - 1] = false;
            assert(self@.panel =~= old(self)@.panel.remove(floor as int));
        }
    }

    /// Lights the up button on `floor`.
    pub fn set_up_button(&mut self, floor: usize)
        requires
            has_up(floor as int),
        ensures
            final(self)@ == old(self)@.set_up_button(floor as int),
            final(self)@.wf(),
    {
        proof {
            use_type_invariant(&*self);
        }
        self.up_buttons[floor - 1] = true;
        assert(self@.up =~= old(self)@.up.insert(floor as int));
    }

    /// Turns the up button on `floor` off. It is a fault to clear a button
    /// that is not lit.
    pub fn clear_up_button(&mut self, floor: usize)
        requires
            has_up(floor as int),
        ensures
            final(self)@ == old(self)@.clear_up_button(floor as int),
            final(self)@.wf(),
    {
        proof {
            use_type_invariant(&*self);
        }
        if !self.up_buttons[floor - 1] {
            self.crash("up button not previously set");
        } else {
            self.up_buttons[floor - 1] = false;
            assert(self@.up =~= old(self)@.up.remove(floor as int));
        }
    }

    /// Lights the down button on `floor`.
    pub fn set_down_button(&mut self, floor: usize)
        requires
            has_down(floor as int),
        ensures
            final(self)@ == old(self)@.set_down_button(floor as int),
            final(self)@.wf(),
    {
        proof {
            use_type_invariant(&*self);
        }
        self.down_buttons[floor - 1] = true;
        assert(self@.down =~= old(self)@.down.insert(floor as int));
    }

    /// Turns the down button on `floor` off. It is a fault to clear a button
    /// that is not lit.
    pub fn clear_down_button(&mut self, floor: usize)
        requires
            has_down(floor as int),
        ensures
            final(self)@ == old(self)@.clear_down_button(floor as int),
            final(self)@.wf(),
    {
        proof {
            use_type_invariant(&*self);
        }
        if !self.down_buttons[floor - 1] {
            self.crash("down button not previously set");
        } else {
            self.down_buttons[floor - 1] = false;
            assert(self@.down =~= old(self)@.down.remove(floor as int));
        }
    }

    /// Sets the direction indicator of `floor`. It is a fault to do so while
    /// the car is on another floor, or while the indicator is still lit for
    /// another floor: then the fault is recorded and the indicator left as
    /// it is.
    pub fn set_indicator(&mut self, floor: usize, shows: Indicator)
        ensures
            final(self)@ == old(self)@.set_indicator(floor as int, shows),
            final(self)@.wf(),
    {
        proof {
            use_type_invariant(&*self);
        }
        if self.floor != floor {
            self.crash("direction indicator: elevator not on this floor");
            return ;
        }
        if self.indicator_floor != floor && self.indicator != Indicator::Off {
            self.crash("direction indicator still illuminated for a different floor");
            return ;
        }
        self.indicator = shows;
        self.indicator_floor = floor;
    }

    /// Puts the motor into `mode`, starts counting ticks anew and derives the
    /// status.
    pub fn set_motor(&mut self, mode: Motor)
        ensures
            final(self)@ == old(self)@.set_motor(mode),
            final(self)@.wf(),
    {
        proof {
            use_type_invariant(&*self);
        }
        self.motor = mode;
        self.clock = 0;
        self.update_status();
    }

    /// Puts the door into `mode`, starts counting ticks anew and derives the
    /// status. It is a fault to start closing a door that is closing already.
    pub fn set_door(&mut self, mode: Door)
        ensures
            final(self)@ == old(self)@.set_door(mode),
            final(self)@.wf(),
    {
        proof {
            use_type_invariant(&*self);
        }
        if mode == Door::Closing && self.is_closing() {
            self.crash("door already closing");
            return ;
        }
        self.door = mode;
        self.clock = 0;
        self.update_status();
    }

    fn is_closing(&self) -> (closing: bool)
        ensures
            closing == (self@.status is Closing),
    {
        match self.status {
            Status::Closing => true,
            _ => false,
        }
    }

    /// Counts one tick and lets time act on the car and the door: the moving
    /// car arrives at the next floor, or runs into the end of the shaft; the
    /// closing door is closed. Reports the arrival or the closed door. The
    /// status is not derived again: it changes only where the car crashes.
    pub fn tick(&mut self) -> (event: Option<Event>)
        requires
            old(self)@.clock < usize::MAX,
        ensures
            final(self)@ == old(self)@.tick().0,
            event == old(self)@.tick().1,
            event matches Some(e) ==> e.valid(),
            final(self)@.wf(),
    {
        proof {
            use_type_invariant(&*self);
        }
        self.clock += 1;
        match self.status {
            Status::MoveUp => {
                if self.floor < 5 && self.clock > TICKS_PER_FLOOR {
                    self.floor += 1;
                    self.clock = 0;
                    return Some(Event::Floor(self.floor));
                } else if self.floor >= 5 {
                    self.crash("Hit the roof!");
                }
            },
            Status::MoveDown => {
                if self.floor > 1 && self.clock > TICKS_PER_FLOOR {
                    self.floor -= 1;
                    self.clock = 0;
                    return Some(Event::Floor(self.floor));
                } else if self.floor <= 1 {
                    self.crash("Hit the ground!");
                }
            },
            Status::Closing => {
                if self.clock > TICKS_FOR_CLOSING {
                    self.clock = 0;
                    self.door = Door::Closed;
                    return Some(Event::DoorClosed(self.floor));
                }
            },
            _ => {},
        }
        None
    }

    /// Counts one tick as `tick` does, and reports the event as its token.
    pub fn handle_tick(&mut self) -> (token: Option<String>)
        requires
            old(self)@.clock < usize::MAX,
        ensures
            final(self)@ == old(self)@.tick().0,
            emitted(token) == wire(old(self)@.tick().1),
            final(self)@.wf(),
    {
        match self.tick() {
            Some(event) => Some(event.to_token()),
            None => None,
        }
    }

    /// Applies one command and reports the event that it gives rise to. A
    /// reset is always taken. A crashed elevator ignores every other command,
    /// and one that has not been reset yet the presses of its buttons and the
    /// ticks of the clock. Else the command is performed, where a command
    /// with a floor it cannot name counts as unrecognized, and the status is
    /// derived again.
    pub fn apply(&mut self, cmd: Command) -> (event: Option<Event>)
        requires
            old(self)@.counts(cmd) ==> old(self)@.clock < usize::MAX,
        ensures
            final(self)@ == old(self)@.step(cmd).0,
            event == old(self)@.step(cmd).1,
            event matches Some(e) ==> e.valid(),
            final(self)@.wf(),
    {
        proof {
            use_type_invariant(&*self);
        }
        if cmd == Command::Reset {
            self.reset();
            return None;
        }
        if self.status.is_crashed() {
            return None;
        }
        let valid = cmd.is_valid();
        if self.status.is_initial() && valid {
            match cmd {
                Command::PressPanel(_)
                | Command::PressUp(_)
                | Command::PressDown(_)
                | Command::Tick => {
                    return None;
                },
                _ => {},
            }
        }
        let event = if !valid {
            self.crash("Unrecognized command");
            None
        } else {
            match cmd {
                Command::Reset => {
                    self.reset();
                    None
                },
                Command::PressPanel(n) => {
                    self.set_panel_button(n);
                    Some(Event::Panel(n))
                },
                Command::PressUp(n) => {
                    self.set_up_button(n);
                    Some(Event::Up(n))
                },
                Command::PressDown(n) => {
                    self.set_down_button(n);
                    Some(Event::Down(n))
                },
                Command::ClearPanel(n) => {
                    self.clear_panel_button(n);
                    None
                },
                Command::ClearUp(n) => {
                    self.clear_up_button(n);
                    None
                },
                Command::ClearDown(n) => {
                    self.clear_down_button(n);
                    None
                },
                Command::IndicateUp(n) => {
                    self.set_indicator(n, Indicator::Up);
                    None
                },
                Command::IndicateDown(n) => {
                    self.set_indicator(n, Indicator::Down);
                    None
                },
                Command::ClearIndicator(n) => {
                    self.set_indicator(n, Indicator::Off);
                    None
                },
                Command::MotorUp => {
                    self.set_motor(Motor::Up);
                    None
                },
                Command::MotorDown => {
                    self.set_motor(Motor::Down);
                    None
                },
                Command::Stop => {
                    if self.clock >= 1 && self.motor != Motor::Off {
                        self.crash("stopped between floors!");
                    }
                    self.set_motor(Motor::Off);
                    None
                },
                Command::DoorOpen => {
                    self.set_door(Door::Open);
                    None
                },
                Command::DoorClose => {
                    self.set_door(Door::Closing);
                    None
                },
                Command::Tick => self.tick(),
            }
        };
        self.update_status();
        event
    }

    /// Takes one token from the wire, applies the command it stands for and
    /// reports the emitted event as its token. A token that stands for no
    /// valid command is a fault, unless the elevator has crashed already.
    pub fn handle_command(&mut self, cmd: &str) -> (token: Option<String>)
        requires
            decode(cmd@) == Some(Command::Tick) && old(self)@.counts(Command::Tick) ==> old(
                self,
            )@.clock < usize::MAX,
        ensures
            final(self)@ == old(self)@.handle(cmd@).0,
            emitted(token) == wire(old(self)@.handle(cmd@).1),
            final(self)@.wf(),
    {
        proof {
            use_type_invariant(&*self);
        }
        match Command::parse(cmd) {
            Some(command) => {
                match self.apply(command) {
                    Some(event) => Some(event.to_token()),
                    None => None,
                }
            },
            None => {
                if !self.status.is_crashed() {
                    self.crash("Unrecognized command");
                }
                None
            },
        }
    }

    /// The state as one line of text: the floor, the status, the indicator
    /// as seen on the car's floor, and the three rows of buttons.
    pub fn as_string(&self) -> (line: String)
        ensures
            line@ == self@.status_line(),
    {
        proof {
            use_type_invariant(self);
        }
        let shown = self.visible_indicator();
        let mut line = String::from_str("[ FLOOR ");
        line.append(floor_digit(self.floor));
        line.append(" | ");
        line.append(status_column(&self.status));
        line.append(" ");
        line.append(indicator_column(shown));
        line.append(" | P:");
        push_button_row(&mut line, &self.panel_buttons);
        line.append(" | U:");
        push_button_row(&mut line, &self.up_buttons);
        line.append(" | D:");
        push_button_row(&mut line, &self.down_buttons);
        line.append(" ]");
        line
    }

    /// Floor the car is on.
    pub fn floor(&self) -> (floor: usize)
        ensures
            floor == self@.floor,
    {
        self.floor
    }

    /// Whether the button for `floor` inside the car is lit.
    pub fn panel_button(&self, floor: usize) -> (lit: bool)
        ensures
            lit == self@.panel.contains(floor as int),
    {
        1 <= floor && floor <= 5 && self.panel_buttons[floor - 1]
    }

    /// Whether the up button on `floor` is lit.
    pub fn up_button(&self, floor: usize) -> (lit: bool)
        ensures
            lit == self@.up.contains(floor as int),
    {
        1 <= floor && floor <= 5 && self.up_buttons[floor - 1]
    }

    /// Whether the down button on `floor` is lit.
    pub fn down_button(&self, floor: usize) -> (lit: bool)
        ensures
            lit == self@.down.contains(floor as int),
    {
        1 <= floor && floor <= 5 && self.down_buttons[floor - 1]
    }

    /// What the direction indicator was last set to.
    pub fn indicator(&self) -> (shows: Indicator)
        ensures
            shows == self@.indicator,
    {
        self.indicator
    }

    /// What the indicator shows to someone on the car's floor: it is dark
    /// unless it was set for that floor.
    pub fn visible_indicator(&self) -> (shows: Indicator)
        ensures
            shows == self@.visible_indicator(),
    {
        if self.indicator_floor == self.floor {
            self.indicator
        } else {
            Indicator::Off
        }
    }

    /// Floor whose indicator was set last.
    pub fn indicator_floor(&self) -> (floor: usize)
        ensures
            floor == self@.indicator_floor,
    {
        self.indicator_floor
    }

    /// Ticks counted since the motor or the door last changed its mode.
    pub fn clock(&self) -> (ticks: usize)
        ensures
            ticks == self@.clock,
    {
        self.clock
    }

    /// Mode of the hoist motor.
    pub fn motor(&self) -> (mode: Motor)
        ensures
            mode == self@.motor,
    {
        self.motor
    }

    /// Mode of the door.
    pub fn door(&self) -> (mode: Door)
        ensures
            mode == self@.door,
    {
        self.door
    }

    /// The operating status.
    pub fn status(&self) -> (status: &Status)
        ensures
            status@ == self@.status,
    {
        &self.status
    }
}

} // verus!
