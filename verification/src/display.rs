//! The status line: the state of the elevator as one line of text of fixed
//! width.

use crate::hardware::{Indicator, Status, StatusView};
use crate::model::{lit_floors, ElevatorView};
use crate::protocol::{digit, floor_digit};
use vstd::prelude::*;
use vstd::string::*;

verus! {

/// Width of the column that holds the status.
pub const STATUS_WIDTH: usize = 8;

/// The word that the status line shows for a status.
pub open spec fn status_name(status: StatusView) -> Seq<char> {
    match status {
        StatusView::Initial => "INIT"@,
        StatusView::MoveUp => "UP"@,
        StatusView::MoveDown => "DOWN"@,
        StatusView::Open => "OPEN"@,
        StatusView::Closing => "CLOSING"@,
        StatusView::Closed => "CLOSED"@,
        StatusView::Crashed(_) => "CRASH"@,
    }
}

/// `text` with blanks after it up to `width` characters.
pub open spec fn pad_right(text: Seq<char>, width: nat) -> Seq<char> {
    if text.len() >= width {
        text
    } else {
        text + Seq::new((width - text.len()) as nat, |i: int| ' ')
    }
}

/// The two characters that the status line shows for the indicator.
pub open spec fn indicator_mark(shows: Indicator) -> Seq<char> {
    match shows {
        Indicator::Up => "^^"@,
        Indicator::Down => "vv"@,
        Indicator::Off => "--"@,
    }
}

/// One character for each floor from the first up: the floor's digit where
/// its button is lit, a dash where it is not.
pub open spec fn button_row(lit: Set<int>) -> Seq<char> {
    Seq::new(
        5,
        |i: int|
            if lit.contains(i + 1) {
                digit(i + 1)
            } else {
                '-'
            },
    )
}

impl ElevatorView {
    /// What the indicator shows to someone on the car's floor: it is dark
    /// unless it was set for that floor.
    pub open spec fn visible_indicator(self) -> Indicator {
        if self.indicator_floor == self.floor {
            self.indicator
        } else {
            Indicator::Off
        }
    }

    /// The status line.
    pub open spec fn status_line(self) -> Seq<char> {
        "[ FLOOR "@ + seq![digit(self.floor)] + " | "@ + pad_right(
            status_name(self.status),
            STATUS_WIDTH as nat,
        ) + " "@ + indicator_mark(self.visible_indicator()) + " | P:"@ + button_row(self.panel)
            + " | U:"@ + button_row(self.up) + " | D:"@ + button_row(self.down) + " ]"@
    }
}

/// The status column of the status line.
pub fn status_column(status: &Status) -> (text: &'static str)
    ensures
        text@ == pad_right(status_name(status@), STATUS_WIDTH as nat),
{
    proof {
        reveal_strlit("INIT");
        reveal_strlit("UP");
        reveal_strlit("DOWN");
        reveal_strlit("OPEN");
        reveal_strlit("CLOSING");
        reveal_strlit("CLOSED");
        reveal_strlit("CRASH");
        reveal_strlit("INIT    ");
        reveal_strlit("UP      ");
        reveal_strlit("DOWN    ");
        reveal_strlit("OPEN    ");
        reveal_strlit("CLOSING ");
        reveal_strlit("CLOSED  ");
        reveal_strlit("CRASH   ");
    }
    let text = match status {
        Status::Initial => "INIT    ",
        Status::MoveUp => "UP      ",
        Status::MoveDown => "DOWN    ",
        Status::Open => "OPEN    ",
        Status::Closing => "CLOSING ",
        Status::Closed => "CLOSED  ",
        Status::Crashed(_) => "CRASH   ",
    };
    assert(text@ =~= pad_right(status_name(status@), STATUS_WIDTH as nat));
    text
}

/// The indicator column of the status line.
pub fn indicator_column(shows: Indicator) -> (text: &'static str)
    ensures
        text@ == indicator_mark(shows),
{
    match shows {
        Indicator::Up => "^^",
        Indicator::Down => "vv",
        Indicator::Off => "--",
    }
}

/// Writes one row of buttons behind `line`, the first flag being that of
/// floor 1.
pub(crate) fn push_button_row(line: &mut String, flags: &[bool; 5])
    ensures
        final(line)@ == old(line)@ + button_row(lit_floors(flags@)),
{
    let ghost lit = lit_floors(flags@);
    let mut i: usize = 0;
    while i < 5
        invariant
            i <= 5,
            lit == lit_floors(flags@),
            line@ == old(line)@ + button_row(lit).subrange(0, i as int),
        decreases 5 - i,
    {
        let ghost before = line@;
        if flags[i] {
            line.append(floor_digit(i + 1));
        } else {
            proof {
                reveal_strlit("-");
            }
            line.append("-");
        }
        assert(line@ =~= before + seq![button_row(lit)[i as int]]);
        assert(button_row(lit).subrange(0, i + 1) =~= button_row(lit).subrange(0, i as int)
            + seq![button_row(lit)[i as int]]);
        i += 1;
    }
    assert(button_row(lit).subrange(0, 5) =~= button_row(lit));
}

} // verus!
