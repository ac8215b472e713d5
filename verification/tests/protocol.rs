use lifty::protocol::{floor_digit, Command, Event};

#[test]
fn parse_reads_the_whole_vocabulary() {
    assert_eq!(Command::parse("R"), Some(Command::Reset));
    assert_eq!(Command::parse("MU"), Some(Command::MotorUp));
    assert_eq!(Command::parse("MD"), Some(Command::MotorDown));
    assert_eq!(Command::parse("S"), Some(Command::Stop));
    assert_eq!(Command::parse("DO"), Some(Command::DoorOpen));
    assert_eq!(Command::parse("DC"), Some(Command::DoorClose));
    assert_eq!(Command::parse("T"), Some(Command::Tick));
    for floor in 1..=5 {
        assert_eq!(Command::parse(&format!("P{}", floor)), Some(Command::PressPanel(floor)));
        assert_eq!(Command::parse(&format!("CP{}", floor)), Some(Command::ClearPanel(floor)));
        assert_eq!(Command::parse(&format!("CI{}", floor)), Some(Command::ClearIndicator(floor)));
    }
    for floor in 1..=4 {
        assert_eq!(Command::parse(&format!("U{}", floor)), Some(Command::PressUp(floor)));
        assert_eq!(Command::parse(&format!("CU{}", floor)), Some(Command::ClearUp(floor)));
        assert_eq!(Command::parse(&format!("IU{}", floor)), Some(Command::IndicateUp(floor)));
    }
    for floor in 2..=5 {
        assert_eq!(Command::parse(&format!("D{}", floor)), Some(Command::PressDown(floor)));
        assert_eq!(Command::parse(&format!("CD{}", floor)), Some(Command::ClearDown(floor)));
        assert_eq!(Command::parse(&format!("ID{}", floor)), Some(Command::IndicateDown(floor)));
    }
}

#[test]
fn parse_refuses_what_is_not_in_the_vocabulary() {
    for token in [
        "", " ", "X", "P", "U", "D", "C", "I", "M", "P0", "P6", "P9", "U0", "U5", "D1", "D6",
        "CP0", "CP6", "CU0", "CU5", "CD1", "CD6", "IU0", "IU5", "ID1", "ID6", "CI0", "CI6", "IP1",
        "II1", "CC1", "MM", "MS", "DD", "OD", "UM", "RR", "SS", "TT", "r", "s", "t", "mu", "md",
        "do", "dc", "p1", "cp1", "R ", " R", "P1 ", " P1", "P 1", "CP1\n", "CP11", "PP1", "F1",
        "C1", "CF1", "P\u{0661}", "\u{ff30}1", "MU\u{0}",
    ] {
        assert_eq!(Command::parse(token), None, "{:?}", token);
    }
}

#[test]
fn validity_is_told_by_the_floor() {
    for floor in [0, 1, 2, 3, 4, 5, 6, 100, usize::MAX] {
        let any = 1 <= floor && floor <= 5;
        let up = 1 <= floor && floor <= 4;
        let down = 2 <= floor && floor <= 5;
        assert_eq!(Command::PressPanel(floor).is_valid(), any);
        assert_eq!(Command::ClearPanel(floor).is_valid(), any);
        assert_eq!(Command::ClearIndicator(floor).is_valid(), any);
        assert_eq!(Command::PressUp(floor).is_valid(), up);
        assert_eq!(Command::ClearUp(floor).is_valid(), up);
        assert_eq!(Command::IndicateUp(floor).is_valid(), up);
        assert_eq!(Command::PressDown(floor).is_valid(), down);
        assert_eq!(Command::ClearDown(floor).is_valid(), down);
        assert_eq!(Command::IndicateDown(floor).is_valid(), down);
    }
    for command in [
        Command::Reset,
        Command::MotorUp,
        Command::MotorDown,
        Command::Stop,
        Command::DoorOpen,
        Command::DoorClose,
        Command::Tick,
    ] {
        assert!(command.is_valid());
    }
}

#[test]
fn events_are_written_as_letter_and_floor() {
    assert_eq!(Event::Panel(1).to_token(), "P1");
    assert_eq!(Event::Panel(5).to_token(), "P5");
    assert_eq!(Event::Up(1).to_token(), "U1");
    assert_eq!(Event::Up(4).to_token(), "U4");
    assert_eq!(Event::Down(2).to_token(), "D2");
    assert_eq!(Event::Down(5).to_token(), "D5");
    assert_eq!(Event::Floor(1).to_token(), "F1");
    assert_eq!(Event::Floor(3).to_token(), "F3");
    assert_eq!(Event::Floor(5).to_token(), "F5");
    assert_eq!(Event::DoorClosed(2).to_token(), "C2");
    assert_eq!(Event::DoorClosed(4).to_token(), "C4");
}

#[test]
fn button_events_echo_the_command_token() {
    for floor in 1..=5 {
        let token = Event::Panel(floor).to_token();
        assert_eq!(Command::parse(&token), Some(Command::PressPanel(floor)));
    }
    for floor in 1..=4 {
        let token = Event::Up(floor).to_token();
        assert_eq!(Command::parse(&token), Some(Command::PressUp(floor)));
    }
    for floor in 2..=5 {
        let token = Event::Down(floor).to_token();
        assert_eq!(Command::parse(&token), Some(Command::PressDown(floor)));
    }
}

#[test]
fn floors_have_their_digit() {
    assert_eq!(floor_digit(1), "1");
    assert_eq!(floor_digit(2), "2");
    assert_eq!(floor_digit(3), "3");
    assert_eq!(floor_digit(4), "4");
    assert_eq!(floor_digit(5), "5");
}
