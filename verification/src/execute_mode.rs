//! The command-line mode: its keys and the grammar of its input.
//!
//! ```text
//! command   := ':' (quit | save | save_as)
//! quit      := 'q'
//! save      := 'w'
//! save_as   := 'w' ' ' filename
//! ```
//!
//! A filename is one or more characters, taken verbatim. The whole input has
//! to match.

use crate::command::{command_view, Command, CommandView, ExecuteMode};
use crate::key::Key;
use vstd::prelude::*;

verus! {

/// The answer of a parser that does not accept its input.
#[derive(Debug, Clone, Copy, PartialEq, Eq, Structural)]
pub struct NoMatch;

/// Whether `input` is the quit command's text, without the prompt.
pub open spec fn is_quit(input: Seq<char>) -> bool {
    input.len() == 1 && input[0] == 'q'
}

/// Whether `input` is the save command's text, without the prompt.
pub open spec fn is_save(input: Seq<char>) -> bool {
    input.len() == 1 && input[0] == 'w'
}

/// Whether `input` is a save-as command's text, without the prompt: a `w`,
/// a space and a name of at least one character.
pub open spec fn is_save_as(input: Seq<char>) -> bool {
    input.len() >= 3 && input[0] == 'w' && input[1] == ' '
}

/// What a command line says: the command that the grammar gives to `input`,
/// or `None` where the grammar does not accept it.
pub open spec fn command_line_meaning(input: Seq<char>) -> Option<CommandView> {
    if input.len() == 0 || input[0] != ':' {
        None
    } else if is_quit(input.skip(1)) {
        Some(CommandView::Quit)
    } else if is_save(input.skip(1)) {
        Some(CommandView::Save)
    } else if is_save_as(input.skip(1)) {
        Some(CommandView::SaveAs(input.skip(3)))
    } else {
        None
    }
}

/// The command that a key stands for in command-line mode.
pub open spec fn key_meaning(key: Key) -> Option<CommandView> {
    match key {
        Key::Enter => Some(CommandView::EndCommandLineInput),
        Key::Char(ch) => Some(CommandView::InsertChar(ch)),
        Key::Left => Some(CommandView::MoveCursorLeft(1)),
        Key::Right => Some(CommandView::MoveCursorRight(1)),
        Key::Backspace => Some(CommandView::DeleteCharBackward),
        Key::Delete => Some(CommandView::DeleteCharForward),
        Key::Home => Some(CommandView::MoveCursorLineStart),
        Key::End => Some(CommandView::MoveCursorLineEnd),
        Key::Esc => Some(CommandView::AbortCommandLineInput),
        _ => None,
    }
}

/// The command that a key stands for in command-line mode.
pub fn command_for_key(key: Key) -> (command: Option<Command>)
    ensures
        command_view(command) == key_meaning(key),
{
    match key {
        Key::Enter => Some(Command::EndCommandLineInput),
        Key::Char(ch) => Some(Command::InsertChar(ch)),
        Key::Left => Some(Command::MoveCursorLeft(1)),
        Key::Right => Some(Command::MoveCursorRight(1)),
        Key::Backspace => Some(Command::DeleteCharBackward),
        Key::Delete => Some(Command::DeleteCharForward),
        Key::Home => Some(Command::MoveCursorLineStart),
        Key::End => Some(Command::MoveCursorLineEnd),
        Key::Esc => Some(Command::AbortCommandLineInput),
        _ => None,
    }
}

impl ExecuteMode {
    /// The command that `key` stands for. The mode itself stays as it is: the
    /// command line that the commands edit is kept by the editor.
    pub fn handle(&mut self, key: Key) -> (command: Option<Command>)
        ensures
            final(self)@ == old(self)@,
            command_view(command) == key_meaning(key),
    {
        command_for_key(key)
    }

    /// Parse the text of a finished command line.
    pub fn parse(&self, command_string: &str) -> (command: Option<Command>)
        ensures
            command_view(command) == command_line_meaning(command_string@),
    {
        command_for_input(command_string)
    }
}

/// Whether `input` is exactly the one character `expected`.
fn is_single(input: &str, expected: char) -> (matches: bool)
    ensures
        matches == (input@.len() == 1 && input@[0] == expected),
{
    input.unicode_len() == 1 && input.get_char(0) == expected
}

/// Parse the quit command, without the prompt: the whole input is `q`.
pub fn quit<'a>(input: &'a str) -> (parsed: Result<(&'a str, Command), NoMatch>)
    ensures
        parsed.is_ok() == is_quit(input@),
        parsed matches Ok((rest, command)) ==> rest@.len() == 0 && command@ == CommandView::Quit,
{
    if is_single(input, 'q') {
        Ok((input.substring_char(1, 1), Command::Quit))
    } else {
        Err(NoMatch)
    }
}

/// Parse the save command, without the prompt: the whole input is `w`.
pub fn save<'a>(input: &'a str) -> (parsed: Result<(&'a str, Command), NoMatch>)
    ensures
        parsed.is_ok() == is_save(input@),
        parsed matches Ok((rest, command)) ==> rest@.len() == 0 && command@ == CommandView::Save,
{
    if is_single(input, 'w') {
        Ok((input.substring_char(1, 1), Command::Save))
    } else {
        Err(NoMatch)
    }
}

/// Parse a save-as command, without the prompt: `w`, a space, and a name of
/// one or more characters that runs to the end of the input.
pub fn save_as<'a>(input: &'a str) -> (parsed: Result<(&'a str, Command), NoMatch>)
    ensures
        parsed.is_ok() == is_save_as(input@),
        parsed matches Ok((rest, command)) ==> rest@.len() == 0 && command@
            == CommandView::SaveAs(input@.skip(2)),
{
    let len = input.unicode_len();
    if len >= 3 && input.get_char(0) == 'w' && input.get_char(1) == ' ' {
        let name = input.substring_char(2, len).to_owned();
        assert(name@ =~= input@.skip(2));
        Ok((input.substring_char(len, len), Command::SaveAs(name)))
    } else {
        Err(NoMatch)
    }
}

/// Parse a whole command line: the prompt `:` followed by one of the
/// commands. `None` where the line is not a command.
pub fn command_for_input(input: &str) -> (command: Option<Command>)
    ensures
        command_view(command) == command_line_meaning(input@),
{
    let len = input.unicode_len();
    if len == 0 || input.get_char(0) != ':' {
        return None;
    }
    let body = input.substring_char(1, len);
    assert(body@ =~= input@.skip(1));
    assert(is_save_as(body@) ==> input@.skip(1).skip(2) =~= input@.skip(3));
    match quit(body) {
        Ok((_, command)) => Some(command),
        Err(_) => match save(body) {
            Ok((_, command)) => Some(command),
            Err(_) => match save_as(body) {
                Ok((_, command)) => Some(command),
                Err(_) => None,
            },
        },
    }
}

} // verus!
