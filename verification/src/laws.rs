//! What holds of the state machine as a whole, proved from its definition.

use crate::hardware::{Door, Indicator, StatusView, TICKS_FOR_CLOSING, TICKS_PER_FLOOR};
use crate::model::{ticks, ElevatorView};
use crate::protocol::{decode_inverts_token, decode_is_sound, Command, Event};
use vstd::prelude::*;

verus! {

/// A reset leads from every state, a crashed one included, to one and the
/// same state, emits nothing, and changes nothing when repeated.
pub proof fn reset_is_canonical(s: ElevatorView)
    ensures
        s.step(Command::Reset) == (ElevatorView::initial().reset(), None::<Event>),
        s.handle(Command::Reset.token()) == s.step(Command::Reset),
        s.reset().reset() == s.reset(),
        s.reset().wf(),
        s.reset().coherent(),
        s.reset().status is Closed,
{
    decode_inverts_token(Command::Reset);
}

/// A command leaves floors and buttons within the building, and what it
/// emits names a floor of the building.
pub proof fn step_keeps_wf(s: ElevatorView, cmd: Command)
    requires
        s.wf(),
    ensures
        s.step(cmd).0.wf(),
        s.step(cmd).1 matches Some(e) ==> e.valid(),
{
}

/// A command leaves the status in step with motor and door, and the tick
/// counter within the time of a trip or of closing the door.
pub proof fn step_keeps_coherent(s: ElevatorView, cmd: Command)
    requires
        s.coherent(),
    ensures
        s.step(cmd).0.coherent(),
{
}

/// Whenever a command changes the mode of the motor or of the door, the tick
/// counter starts from 0.
pub proof fn transition_restarts_clock(s: ElevatorView, cmd: Command)
    ensures
        ({
            let next = s.step(cmd).0;
            next.motor != s.motor || next.door != s.door ==> next.clock == 0
        }),
{
}

/// A crash is latched: a crashed elevator ignores every command but a reset.
pub proof fn crashed_ignores_commands(s: ElevatorView, cmd: Command)
    requires
        s.status is Crashed,
        cmd != Command::Reset,
    ensures
        s.step(cmd) == (s, None::<Event>),
{
}

/// A crashed elevator ignores every token but that of a reset, recognized or
/// not.
pub proof fn crashed_ignores_tokens(s: ElevatorView, token: Seq<char>)
    requires
        s.status is Crashed,
        token != Command::Reset.token(),
    ensures
        s.handle(token) == (s, None::<Event>),
{
    decode_is_sound(token);
}

/// No sequence of commands without a reset gets a crashed elevator to change
/// or to emit anything.
pub proof fn crashed_ignores_runs(s: ElevatorView, cmds: Seq<Command>)
    requires
        s.status is Crashed,
        !cmds.contains(Command::Reset),
    ensures
        s.run(cmds) == (s, Seq::<Event>::empty()),
    decreases cmds.len(),
{
    if cmds.len() > 0 {
        assert(cmds.contains(cmds.first()));
        let rest = cmds.drop_first();
        assert forall|c: Command| rest.contains(c) implies cmds.contains(c) by {
            let i = choose|i: int| 0 <= i < rest.len() && rest[i] == c;
            assert(cmds[i + 1] == c);
        }
        crashed_ignores_runs(s, rest);
    }
}

/// An elevator that has not been reset yet lets the presses of its buttons
/// and the ticks of the clock pass: nothing changes and nothing is emitted.
/// Every other command it performs as one that was reset does, and with
/// that it leaves its first status for good.
pub proof fn before_the_first_reset(s: ElevatorView, cmd: Command)
    requires
        s.status is Initial,
        cmd != Command::Reset,
    ensures
        cmd.valid() && (cmd.is_press() || cmd == Command::Tick) ==> s.step(cmd) == (
            s,
            None::<Event>,
        ),
        !(cmd.valid() && (cmd.is_press() || cmd == Command::Tick)) ==> {
            &&& s.step(cmd) == (s.perform(cmd).0.update_status(), s.perform(cmd).1)
            &&& !(s.step(cmd).0.status is Initial)
        },
{
}

/// No command leads back to the status of an elevator that has not been
/// reset yet.
pub proof fn first_status_is_left_for_good(s: ElevatorView, cmd: Command)
    requires
        !(s.status is Initial),
    ensures
        !(s.step(cmd).0.status is Initial),
{
}

/// Setting the indicator of one floor while it is lit for another is a
/// fault, wherever the car is and whatever the indicator is set to. Nothing
/// but the status changes: the indicator stays lit as it was.
pub proof fn indicator_is_exclusive(s: ElevatorView, floor: int, shows: Indicator)
    requires
        s.lit(),
        s.indicator_floor != floor,
    ensures
        ({
            let next = s.set_indicator(floor, shows);
            &&& next.status is Crashed
            &&& ElevatorView { status: s.status, ..next } == s
        }),
{
}

/// An indicator command for one floor crashes the elevator that takes it
/// while the indicator is lit for another floor, and leaves the indicator
/// as it was.
pub proof fn indicator_command_is_exclusive(s: ElevatorView, cmd: Command)
    requires
        !(s.status is Crashed),
        cmd is IndicateUp || cmd is IndicateDown || cmd is ClearIndicator,
        s.lit(),
        s.indicator_floor != cmd.floor(),
    ensures
        ({
            let (next, event) = s.step(cmd);
            &&& next.status is Crashed
            &&& ElevatorView { status: s.status, ..next } == s
            &&& event is None
        }),
{
}

/// One of the three families of buttons.
pub enum Button {
    /// The buttons inside the car.
    Panel,
    /// The up buttons on the floors.
    Up,
    /// The down buttons on the floors.
    Down,
}

impl Button {
    /// The command that reports a press of this family's button on `floor`.
    pub open spec fn press(self, floor: usize) -> Command {
        match self {
            Button::Panel => Command::PressPanel(floor),
            Button::Up => Command::PressUp(floor),
            Button::Down => Command::PressDown(floor),
        }
    }

    /// The command that clears this family's button on `floor`.
    pub open spec fn clear(self, floor: usize) -> Command {
        match self {
            Button::Panel => Command::ClearPanel(floor),
            Button::Up => Command::ClearUp(floor),
            Button::Down => Command::ClearDown(floor),
        }
    }

    /// The floors on which this family's button is lit.
    pub open spec fn lit(self, s: ElevatorView) -> Set<int> {
        match self {
            Button::Panel => s.panel,
            Button::Up => s.up,
            Button::Down => s.down,
        }
    }
}

/// Whether a button is lit after one command when it was lit `before`, told
/// from the command alone: a press lights it, and a clear or a reset turns
/// it off.
pub open spec fn lit_then(first: Command, press: Command, clear: Command, before: bool) -> bool {
    if first == press {
        true
    } else if first == clear || first == Command::Reset {
        false
    } else {
        before
    }
}

/// Whether a button is lit after `cmds` when it was lit `before`, told from
/// the commands alone: the last of them that presses it, clears it or resets
/// the elevator decides.
pub open spec fn lit_after(cmds: Seq<Command>, press: Command, clear: Command, before: bool) -> bool
    decreases cmds.len(),
{
    if cmds.len() == 0 {
        before
    } else {
        lit_after(cmds.drop_first(), press, clear, lit_then(cmds.first(), press, clear, before))
    }
}

/// Pressing a button lights it and reports the press. Clearing a button
/// succeeds if and only if it is lit, and turns it off; clearing one that is
/// not lit crashes the elevator. Neither touches another button.
pub proof fn clear_succeeds_iff_lit(s: ElevatorView, which: Button, floor: usize)
    requires
        s.coherent(),
        !(s.status is Initial),
        !(s.status is Crashed),
        which.clear(floor).valid(),
    ensures
        ({
            let (pressed, report) = s.step(which.press(floor));
            &&& !(pressed.status is Crashed)
            &&& which.lit(pressed) == which.lit(s).insert(floor as int)
            &&& report is Some
        }),
        ({
            let (cleared, report) = s.step(which.clear(floor));
            &&& report is None
            &&& cleared.status is Crashed <==> !which.lit(s).contains(floor as int)
            &&& !(cleared.status is Crashed) ==> which.lit(cleared) == which.lit(s).remove(
                floor as int,
            )
            &&& cleared.status is Crashed ==> which.lit(cleared) == which.lit(s)
        }),
{
}

/// A button is lit exactly when it was pressed and has not been cleared
/// since: once the elevator has left its first status, after any commands
/// that do not leave it crashed the button is lit if and only if the last
/// command that pressed it, cleared it or reset the elevator was a press.
pub proof fn button_follows_commands(
    s: ElevatorView,
    cmds: Seq<Command>,
    which: Button,
    floor: usize,
)
    requires
        !(s.status is Initial),
    ensures
        ({
            let last = s.run(cmds).0;
            !(last.status is Crashed) ==> (which.lit(last).contains(floor as int) <==> lit_after(
                cmds,
                which.press(floor),
                which.clear(floor),
                which.lit(s).contains(floor as int),
            ))
        }),
{
    button_tracks_commands(s, cmds, which, floor, which.lit(s).contains(floor as int));
}

proof fn button_tracks_command(
    s: ElevatorView,
    cmd: Command,
    which: Button,
    floor: usize,
    before: bool,
)
    requires
        !(s.status is Initial),
        s.status is Crashed || which.lit(s).contains(floor as int) == before,
    ensures
        ({
            let next = s.step(cmd).0;
            &&& !(next.status is Initial)
            &&& next.status is Crashed || which.lit(next).contains(floor as int) == lit_then(
                cmd,
                which.press(floor),
                which.clear(floor),
                before,
            )
        }),
{
    if cmd != Command::Reset && !(s.status is Crashed) {
        let done = s.perform(cmd).0;
        assert(s.step(cmd).0 == done.update_status());
        assert(which.lit(done.update_status()) == which.lit(done));
        match which {
            Button::Panel => {},
            Button::Up => {},
            Button::Down => {},
        }
    }
}

proof fn button_tracks_commands(
    s: ElevatorView,
    cmds: Seq<Command>,
    which: Button,
    floor: usize,
    before: bool,
)
    requires
        !(s.status is Initial),
        s.status is Crashed || which.lit(s).contains(floor as int) == before,
    ensures
        ({
            let last = s.run(cmds).0;
            last.status is Crashed || which.lit(last).contains(floor as int) == lit_after(
                cmds,
                which.press(floor),
                which.clear(floor),
                before,
            )
        }),
    decreases cmds.len(),
{
    if cmds.len() > 0 {
        let first = cmds.first();
        let then = lit_then(first, which.press(floor), which.clear(floor), before);
        button_tracks_command(s, first, which, floor, before);
        button_tracks_commands(s.step(first).0, cmds.drop_first(), which, floor, then);
    }
}

/// A car that goes up reports every floor it comes to exactly once: over
/// any number of ticks the floors reported are those above the floor it
/// started from, one by one and in order, up to the floor it has reached.
pub proof fn arrivals_going_up(s: ElevatorView, n: nat)
    requires
        s.wf(),
        s.coherent(),
        s.status is MoveUp,
    ensures
        ({
            let (last, events) = s.run(ticks(n));
            &&& events.len() == last.floor - s.floor
            &&& forall|i: int|
                0 <= i < events.len() ==> events[i] == Event::Floor((s.floor + 1 + i) as usize)
        }),
{
    climb(s, n);
}

proof fn climb(s: ElevatorView, n: nat)
    requires
        s.wf(),
        s.coherent(),
        s.status is MoveUp || s.status is Crashed,
    ensures
        ({
            let (last, events) = s.run(ticks(n));
            &&& events.len() == last.floor - s.floor
            &&& forall|i: int|
                0 <= i < events.len() ==> events[i] == Event::Floor((s.floor + 1 + i) as usize)
        }),
    decreases n,
{
    if n > 0 {
        let (next, event) = s.step(Command::Tick);
        assert(ticks(n).first() == Command::Tick);
        assert(ticks(n).drop_first() =~= ticks((n - 1) as nat));
        climb(next, (n - 1) as nat);
    }
}

/// A car that goes down reports every floor it comes to exactly once: over
/// any number of ticks the floors reported are those below the floor it
/// started from, one by one and in order, down to the floor it has reached.
pub proof fn arrivals_going_down(s: ElevatorView, n: nat)
    requires
        s.wf(),
        s.coherent(),
        s.status is MoveDown,
    ensures
        ({
            let (last, events) = s.run(ticks(n));
            &&& events.len() == s.floor - last.floor
            &&& forall|i: int|
                0 <= i < events.len() ==> events[i] == Event::Floor((s.floor - 1 - i) as usize)
        }),
{
    descend(s, n);
}

proof fn descend(s: ElevatorView, n: nat)
    requires
        s.wf(),
        s.coherent(),
        s.status is MoveDown || s.status is Crashed,
    ensures
        ({
            let (last, events) = s.run(ticks(n));
            &&& events.len() == s.floor - last.floor
            &&& forall|i: int|
                0 <= i < events.len() ==> events[i] == Event::Floor((s.floor - 1 - i) as usize)
        }),
    decreases n,
{
    if n > 0 {
        let (next, event) = s.step(Command::Tick);
        assert(ticks(n).first() == Command::Tick);
        assert(ticks(n).drop_first() =~= ticks((n - 1) as nat));
        descend(next, (n - 1) as nat);
    }
}

/// While a trip or the closing of the door is under way and its time is not
/// up, ticks are only counted: nothing else changes and nothing is emitted.
pub proof fn ticks_before_time_is_up(s: ElevatorView, n: nat)
    requires
        s.coherent(),
        (s.status is MoveUp && s.floor < 5 || s.status is MoveDown && s.floor > 1) && s.clock + n
            <= TICKS_PER_FLOOR || s.status is Closing && s.clock + n <= TICKS_FOR_CLOSING,
    ensures
        s.run(ticks(n)) == (ElevatorView { clock: s.clock + n, ..s }, Seq::<Event>::empty()),
    decreases n,
{
    if n > 0 {
        assert(ticks(n).first() == Command::Tick);
        assert(ticks(n).drop_first() =~= ticks((n - 1) as nat));
        ticks_before_time_is_up(s.step(Command::Tick).0, (n - 1) as nat);
    }
}

/// On the tick after the time of a trip is up the car is on the next floor
/// and reports it, and goes on moving with the count at 0.
pub proof fn tick_after_trip_arrives(s: ElevatorView)
    requires
        s.coherent(),
        s.status is MoveUp && s.floor < 5 || s.status is MoveDown && s.floor > 1,
        s.clock == TICKS_PER_FLOOR,
    ensures
        ({
            let to = if s.status is MoveUp {
                s.floor + 1
            } else {
                s.floor - 1
            };
            s.step(Command::Tick) == (s.arrive(to), Some(Event::Floor(to as usize)))
        }),
{
}

/// On the tick after the time of closing is up the door is closed on the
/// car's floor, which is reported, and the status is that of a closed door.
pub proof fn tick_after_closing_closes(s: ElevatorView)
    requires
        s.coherent(),
        s.status is Closing,
        s.clock == TICKS_FOR_CLOSING,
    ensures
        s.step(Command::Tick) == (
            ElevatorView { door: Door::Closed, clock: 0, status: StatusView::Closed, ..s },
            Some(Event::DoorClosed(s.floor as usize)),
        ),
{
}

/// A car that is told to move on where the shaft ends crashes on the next
/// tick.
pub proof fn tick_at_end_of_shaft_crashes(s: ElevatorView)
    requires
        s.coherent(),
        s.status is MoveUp && s.floor >= 5 || s.status is MoveDown && s.floor <= 1,
    ensures
        s.step(Command::Tick).0.status is Crashed,
        s.step(Command::Tick).0.floor == s.floor,
        s.step(Command::Tick).1 is None,
{
}

} // verus!
