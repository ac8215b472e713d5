//! The wire vocabulary: the commands the elevator takes, the events it emits,
//! and the token that stands for each of them.

use vstd::prelude::*;
use vstd::string::*;

verus! {

/// The character of a decimal digit.
pub open spec fn digit(n: int) -> char {
    ('0' as u8 + n) as u8 as char
}

/// Different digits have different characters.
pub proof fn digit_is_unique(a: int, b: int)
    requires
        0 <= a <= 9,
        0 <= b <= 9,
        digit(a) == digit(b),
    ensures
        a == b,
{
}

/// A command to the elevator. A floor that the command cannot name on the
/// wire makes it invalid, and an invalid command is treated like an
/// unrecognized token.
#[derive(Clone, Copy, Debug, PartialEq, Eq, Structural)]
pub enum Command {
    /// `R`: back to the start configuration.
    Reset,
    /// `Pn`: the button for floor `n` was pressed inside the car.
    PressPanel(usize),
    /// `Un`: the up button on floor `n` was pressed.
    PressUp(usize),
    /// `Dn`: the down button on floor `n` was pressed.
    PressDown(usize),
    /// `CPn`: turn the panel button for floor `n` off.
    ClearPanel(usize),
    /// `CUn`: turn the up button on floor `n` off.
    ClearUp(usize),
    /// `CDn`: turn the down button on floor `n` off.
    ClearDown(usize),
    /// `IUn`: show "up" on the indicator of floor `n`.
    IndicateUp(usize),
    /// `IDn`: show "down" on the indicator of floor `n`.
    IndicateDown(usize),
    /// `CIn`: turn the indicator of floor `n` off.
    ClearIndicator(usize),
    /// `MU`: run the motor upwards.
    MotorUp,
    /// `MD`: run the motor downwards.
    MotorDown,
    /// `S`: stop the motor.
    Stop,
    /// `DO`: open the door.
    DoorOpen,
    /// `DC`: start closing the door.
    DoorClose,
    /// `T`: one tick of the clock.
    Tick,
}

/// An event that the elevator reports.
#[derive(Clone, Copy, Debug, PartialEq, Eq, Structural)]
pub enum Event {
    /// `Pn`: panel button `n` was pressed.
    Panel(usize),
    /// `Un`: the up button on floor `n` was pressed.
    Up(usize),
    /// `Dn`: the down button on floor `n` was pressed.
    Down(usize),
    /// `Fn`: the moving car has arrived at floor `n`.
    Floor(usize),
    /// `Cn`: the door has finished closing on floor `n`.
    DoorClosed(usize),
}

/// Floors that have a panel button and an indicator: all of them.
pub open spec fn any_floor(n: int) -> bool {
    1 <= n <= 5
}

/// Floors from which the car can go up: all but the top one.
pub open spec fn has_up(n: int) -> bool {
    1 <= n <= 4
}

/// Floors from which the car can go down: all but the bottom one.
pub open spec fn has_down(n: int) -> bool {
    2 <= n <= 5
}

impl Command {
    /// Whether the command names a floor that has the button or light it
    /// speaks of.
    pub open spec fn valid(self) -> bool {
        match self {
            Command::PressPanel(n) | Command::ClearPanel(n) | Command::ClearIndicator(n) =>
                any_floor(n as int),
            Command::PressUp(n) | Command::ClearUp(n) | Command::IndicateUp(n) => has_up(n as int),
            Command::PressDown(n) | Command::ClearDown(n) | Command::IndicateDown(n) => has_down(
                n as int,
            ),
            _ => true,
        }
    }

    /// Whether the command reports that a button was pressed.
    pub open spec fn is_press(self) -> bool {
        self is PressPanel || self is PressUp || self is PressDown
    }

    /// The floor that the command names; 0 where it names none.
    pub open spec fn floor(self) -> int {
        match self {
            Command::PressPanel(n)
            | Command::PressUp(n)
            | Command::PressDown(n)
            | Command::ClearPanel(n)
            | Command::ClearUp(n)
            | Command::ClearDown(n)
            | Command::IndicateUp(n)
            | Command::IndicateDown(n)
            | Command::ClearIndicator(n) => n as int,
            _ => 0,
        }
    }

    /// The token that stands for the command on the wire.
    pub open spec fn token(self) -> Seq<char> {
        match self {
            Command::Reset => seq!['R'],
            Command::PressPanel(n) => seq!['P', digit(n as int)],
            Command::PressUp(n) => seq!['U', digit(n as int)],
            Command::PressDown(n) => seq!['D', digit(n as int)],
            Command::ClearPanel(n) => seq!['C', 'P', digit(n as int)],
            Command::ClearUp(n) => seq!['C', 'U', digit(n as int)],
            Command::ClearDown(n) => seq!['C', 'D', digit(n as int)],
            Command::IndicateUp(n) => seq!['I', 'U', digit(n as int)],
            Command::IndicateDown(n) => seq!['I', 'D', digit(n as int)],
            Command::ClearIndicator(n) => seq!['C', 'I', digit(n as int)],
            Command::MotorUp => seq!['M', 'U'],
            Command::MotorDown => seq!['M', 'D'],
            Command::Stop => seq!['S'],
            Command::DoorOpen => seq!['D', 'O'],
            Command::DoorClose => seq!['D', 'C'],
            Command::Tick => seq!['T'],
        }
    }
}

/// Whether `token` stands for a valid command.
pub open spec fn recognized(token: Seq<char>) -> bool {
    exists|cmd: Command| cmd.valid() && #[trigger] cmd.token() == token
}

/// The valid command that `token` stands for, if there is one.
pub open spec fn decode(token: Seq<char>) -> Option<Command> {
    if recognized(token) {
        Some(choose|cmd: Command| cmd.valid() && #[trigger] cmd.token() == token)
    } else {
        None
    }
}

/// What a token decodes to is a valid command, and the token is its own.
pub proof fn decode_is_sound(token: Seq<char>)
    ensures
        decode(token) matches Some(cmd) ==> cmd.valid() && cmd.token() == token,
{
}

/// No two valid commands share a token.
pub proof fn token_is_unique(a: Command, b: Command)
    requires
        a.valid(),
        b.valid(),
        a.token() == b.token(),
    ensures
        a == b,
{
    let s = a.token();
    let t = b.token();
    assert(s.len() == t.len());
    assert(s[0] == t[0]);
    if s.len() >= 2 {
        assert(s[1] == t[1]);
    }
    if s.len() >= 3 {
        assert(s[2] == t[2]);
    }
    assert(a.floor() == b.floor()) by {
        if a.floor() != 0 && b.floor() != 0 {
            assert(digit(a.floor()) == s.last());
            assert(digit(b.floor()) == t.last());
            digit_is_unique(a.floor(), b.floor());
        }
    }
}

/// A valid command is what its own token decodes to.
pub proof fn decode_inverts_token(cmd: Command)
    requires
        cmd.valid(),
    ensures
        decode(cmd.token()) == Some(cmd),
{
    let found = choose|other: Command| other.valid() && #[trigger] other.token() == cmd.token();
    token_is_unique(found, cmd);
}

/// Whether `found` is the outcome of decoding `token`, said without `choose`.
spec fn stands_for(token: Seq<char>, found: Option<Command>) -> bool {
    match found {
        Some(cmd) => cmd.valid() && cmd.token() == token,
        None => forall|cmd: Command| cmd.valid() ==> #[trigger] cmd.token() != token,
    }
}

proof fn stands_for_is_decode(token: Seq<char>, found: Option<Command>)
    requires
        stands_for(token, found),
    ensures
        found == decode(token),
{
    if let Some(cmd) = found {
        decode_inverts_token(cmd);
    }
}

/// The floor that a digit names.
fn floor_of(c: char) -> (floor: Option<usize>)
    ensures
        match floor {
            Some(n) => any_floor(n as int) && digit(n as int) == c,
            None => forall|n: int| any_floor(n) ==> digit(n) != c,
        },
{
    let code = c as u32;
    if 49 <= code && code <= 53 {
        Some((code - 48) as usize)
    } else {
        None
    }
}

/// The command that a token of one character stands for.
fn word_of_one(a: char) -> (found: Option<Command>)
    ensures
        stands_for(seq![a], found),
{
    let found = if a == 'R' {
        Some(Command::Reset)
    } else if a == 'S' {
        Some(Command::Stop)
    } else if a == 'T' {
        Some(Command::Tick)
    } else {
        None
    };
    proof {
        let token = seq![a];
        if found is None {
            assert forall|cmd: Command| cmd.valid() implies #[trigger] cmd.token() != token by {
                if cmd.token() == token {
                    assert(cmd.token().len() == 1);
                    assert(cmd.token()[0] == a);
                }
            }
        }
    }
    found
}

/// The command that a token of two characters stands for.
fn word_of_two(a: char, b: char) -> (found: Option<Command>)
    ensures
        stands_for(seq![a, b], found),
{
    let floor = floor_of(b);
    let found = if a == 'M' && b == 'U' {
        Some(Command::MotorUp)
    } else if a == 'M' && b == 'D' {
        Some(Command::MotorDown)
    } else if a == 'D' && b == 'O' {
        Some(Command::DoorOpen)
    } else if a == 'D' && b == 'C' {
        Some(Command::DoorClose)
    } else {
        match floor {
            Some(n) => {
                if a == 'P' {
                    Some(Command::PressPanel(n))
                } else if a == 'U' && n <= 4 {
                    Some(Command::PressUp(n))
                } else if a == 'D' && n >= 2 {
                    Some(Command::PressDown(n))
                } else {
                    None
                }
            },
            None => None,
        }
    };
    proof {
        let token = seq![a, b];
        if found is None {
            assert forall|cmd: Command| cmd.valid() implies #[trigger] cmd.token() != token by {
                if cmd.token() == token {
                    assert(cmd.token().len() == 2);
                    assert(cmd.token()[0] == a);
                    assert(cmd.token()[1] == b);
                }
            }
        }
    }
    found
}

/// The command that a token of three characters stands for.
fn word_of_three(a: char, b: char, c: char) -> (found: Option<Command>)
    ensures
        stands_for(seq![a, b, c], found),
{
    let found = match floor_of(c) {
        Some(n) => {
            if a == 'C' && b == 'P' {
                Some(Command::ClearPanel(n))
            } else if a == 'C' && b == 'U' && n <= 4 {
                Some(Command::ClearUp(n))
            } else if a == 'C' && b == 'D' && n >= 2 {
                Some(Command::ClearDown(n))
            } else if a == 'C' && b == 'I' {
                Some(Command::ClearIndicator(n))
            } else if a == 'I' && b == 'U' && n <= 4 {
                Some(Command::IndicateUp(n))
            } else if a == 'I' && b == 'D' && n >= 2 {
                Some(Command::IndicateDown(n))
            } else {
                None
            }
        },
        None => None,
    };
    proof {
        let token = seq![a, b, c];
        if found is None {
            assert forall|cmd: Command| cmd.valid() implies #[trigger] cmd.token() != token by {
                if cmd.token() == token {
                    assert(cmd.token().len() == 3);
                    assert(cmd.token()[0] == a);
                    assert(cmd.token()[1] == b);
                    assert(cmd.token()[2] == c);
                }
            }
        }
    }
    found
}

impl Command {
    /// Whether the command names a floor that has the button or light it
    /// speaks of.
    pub fn is_valid(&self) -> (valid: bool)
        ensures
            valid == self.valid(),
    {
        match self {
            Command::PressPanel(n) | Command::ClearPanel(n) | Command::ClearIndicator(n) => {
                1 <= *n && *n <= 5
            },
            Command::PressUp(n) | Command::ClearUp(n) | Command::IndicateUp(n) => {
                1 <= *n && *n <= 4
            },
            Command::PressDown(n) | Command::ClearDown(n) | Command::IndicateDown(n) => {
                2 <= *n && *n <= 5
            },
            _ => true,
        }
    }

    /// Reads a token: the valid command it stands for, or `None` where it
    /// stands for none.
    pub fn parse(token: &str) -> (cmd: Option<Command>)
        ensures
            cmd == decode(token@),
    {
        let len = token.unicode_len();
        let found = if len == 1 {
            let a = token.get_char(0);
            assert(token@ =~= seq![a]);
            word_of_one(a)
        } else if len == 2 {
            let a = token.get_char(0);
            let b = token.get_char(1);
            assert(token@ =~= seq![a, b]);
            word_of_two(a, b)
        } else if len == 3 {
            let a = token.get_char(0);
            let b = token.get_char(1);
            let c = token.get_char(2);
            assert(token@ =~= seq![a, b, c]);
            word_of_three(a, b, c)
        } else {
            assert forall|cmd: Command| cmd.valid() implies #[trigger] cmd.token() != token@ by {
                assert(1 <= cmd.token().len() <= 3);
            }
            None
        };
        proof {
            stands_for_is_decode(token@, found);
        }
        found
    }
}

impl Event {
    /// The floor that the event is about.
    pub open spec fn floor(self) -> int {
        match self {
            Event::Panel(n) | Event::Up(n) | Event::Down(n) | Event::Floor(n) | Event::DoorClosed(
                n,
            ) => n as int,
        }
    }

    /// Whether the event names a floor that it can be about.
    pub open spec fn valid(self) -> bool {
        match self {
            Event::Up(n) => has_up(n as int),
            Event::Down(n) => has_down(n as int),
            _ => any_floor(self.floor()),
        }
    }

    /// The token that stands for the event on the wire.
    pub open spec fn token(self) -> Seq<char> {
        match self {
            Event::Panel(n) => seq!['P', digit(n as int)],
            Event::Up(n) => seq!['U', digit(n as int)],
            Event::Down(n) => seq!['D', digit(n as int)],
            Event::Floor(n) => seq!['F', digit(n as int)],
            Event::DoorClosed(n) => seq!['C', digit(n as int)],
        }
    }

    /// Writes the event as its token.
    pub fn to_token(&self) -> (token: String)
        requires
            self.valid(),
        ensures
            token@ == self.token(),
    {
        proof {
            reveal_strlit("P");
            reveal_strlit("U");
            reveal_strlit("D");
            reveal_strlit("F");
            reveal_strlit("C");
        }
        let (letter, n) = match self {
            Event::Panel(n) => ("P", *n),
            Event::Up(n) => ("U", *n),
            Event::Down(n) => ("D", *n),
            Event::Floor(n) => ("F", *n),
            Event::DoorClosed(n) => ("C", *n),
        };
        let mut token = String::from_str(letter);
        token.append(floor_digit(n));
        token
    }
}

/// The digit of a floor, as a string of one character.
pub fn floor_digit(n: usize) -> (s: &'static str)
    requires
        any_floor(n as int),
    ensures
        s@ == seq![digit(n as int)],
{
    proof {
        reveal_strlit("1");
        reveal_strlit("2");
        reveal_strlit("3");
        reveal_strlit("4");
        reveal_strlit("5");
    }
    if n == 1 {
        "1"
    } else if n == 2 {
        "2"
    } else if n == 3 {
        "3"
    } else if n == 4 {
        "4"
    } else {
        "5"
    }
}

} // verus!
