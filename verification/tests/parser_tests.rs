use gadget_nes::debugger::parser::{command, Command, CommandError};

fn parse(s: &str) -> Result<Command, CommandError> {
    s.parse::<Command>()
}

#[test]
fn step_commands() {
    assert_eq!(parse("s"), Ok(Command::Step(1)));
    assert_eq!(parse("s 5"), Ok(Command::Step(5)));
    assert_eq!(parse("s12"), Ok(Command::Step(12)));
    // "s" is tried before "step", and what follows it is no number.
    assert_eq!(parse("step 5"), Ok(Command::Step(1)));
}

#[test]
fn run_commands() {
    assert_eq!(parse("r"), Ok(Command::Run));
    assert_eq!(parse("c"), Ok(Command::Run));
    assert_eq!(parse("continue"), Ok(Command::Run));
    // "cb" starts with "c", which run takes first.
    assert_eq!(parse("cb 2"), Ok(Command::Run));
}

#[test]
fn breakpoint_commands() {
    assert_eq!(parse("b 100"), Ok(Command::Breakpoint(100)));
    assert_eq!(parse("b49152"), Ok(Command::Breakpoint(49152)));
    // "b" matches, and "reak" is no number.
    assert_eq!(parse("break 100"), Err(CommandError::Unparsable));
}

#[test]
fn print_commands() {
    assert_eq!(parse("p 10"), Ok(Command::Print(10)));
    assert_eq!(parse("pr 1:2"), Ok(Command::PrintRange(1, 2)));
    assert_eq!(parse("pr 3 , 4"), Ok(Command::PrintRange(3, 4)));
}

#[test]
fn other_commands() {
    assert_eq!(parse("l"), Ok(Command::ListBreakPoints));
    assert_eq!(parse("h"), Ok(Command::Help));
    assert_eq!(parse("q"), Ok(Command::Quit));
    assert_eq!(parse("x"), Err(CommandError::Unparsable));
}

#[test]
fn command_on_bytes() {
    assert_eq!(command(b"q"), Some(Command::Quit));
    assert_eq!(command(b"zz"), None);
}
