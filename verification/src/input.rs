use vstd::prelude::*;

use vstd::string::StringExecFns;

use crate::text::push_char;
use crate::timer::TimerCommand;

verus! {

/// A key press as the engine cares about it: the escape key, a printable
/// character, or anything else.
#[derive(Clone, Copy, PartialEq, Eq, Structural, Debug)]
pub enum Key {
    Escape,
    Char(char),
    Other,
}

/// The key binding, as a total function: escape and 'q' end the session,
/// space toggles the countdown, 'n' and 'p' move between phases, 'y'
/// confirms, and every other key declines.
pub open spec fn spec_command_for_key(k: Key) -> TimerCommand {
    match k {
        Key::Escape => TimerCommand::Exit,
        Key::Char(c) => if c == 'q' {
            TimerCommand::Exit
        } else if c == ' ' {
            TimerCommand::Play
        } else if c == 'n' {
            TimerCommand::Next
        } else if c == 'p' {
            TimerCommand::Prev
        } else if c == 'y' {
            TimerCommand::Confirm(true)
        } else {
            TimerCommand::Confirm(false)
        },
        Key::Other => TimerCommand::Confirm(false),
    }
}

/// Maps every key press to exactly one command. The fallback to
/// `Confirm(false)` is a deliberate safety default, not an omission: while
/// a confirmation is pending, any stray keystroke declines it.
pub fn command_for_key(k: Key) -> (c: TimerCommand)
    ensures
        c == spec_command_for_key(k),
{
    match k {
        Key::Escape => TimerCommand::Exit,
        Key::Char('q') => TimerCommand::Exit,
        Key::Char(' ') => TimerCommand::Play,
        Key::Char('n') => TimerCommand::Next,
        Key::Char('p') => TimerCommand::Prev,
        Key::Char('y') => TimerCommand::Confirm(true),
        _ => TimerCommand::Confirm(false),
    }
}

/// The echo text for a key press, shown on the display's bottom line.
pub open spec fn spec_key_echo(k: Key) -> Seq<char> {
    match k {
        Key::Escape => "Escape"@,
        Key::Char(c) => "Char('"@ + seq![c] + "')"@,
        Key::Other => "Other"@,
    }
}

pub fn key_echo(k: Key) -> (r: String)
    ensures
        r@ == spec_key_echo(k),
{
    match k {
        Key::Escape => String::from_str("Escape"),
        Key::Char(c) => {
            let mut s = String::from_str("Char('");
            push_char(&mut s, c);
            s.append("')");
            s
        },
        Key::Other => String::from_str("Other"),
    }
}

} // verus!
