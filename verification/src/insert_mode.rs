//! The insert mode: every key is a command by itself.

use crate::command::{command_view, Command, CommandView, InsertMode, Mode, ModeView, NormalMode};
use crate::key::Key;
use vstd::prelude::*;

verus! {

/// The command that a key stands for in insert mode.
pub open spec fn key_meaning(key: Key) -> Option<CommandView> {
    match key {
        Key::Up => Some(CommandView::MoveCursorUp(1)),
        Key::Down => Some(CommandView::MoveCursorDown(1)),
        Key::Left => Some(CommandView::MoveCursorLeft(1)),
        Key::Right => Some(CommandView::MoveCursorRight(1)),
        Key::Home => Some(CommandView::MoveCursorLineStart),
        Key::End => Some(CommandView::MoveCursorLineEnd),
        Key::PageUp => Some(CommandView::MoveCursorPageUp),
        Key::PageDown => Some(CommandView::MoveCursorPageDown),
        Key::Delete => Some(CommandView::DeleteCharForward),
        Key::Backspace => Some(CommandView::DeleteCharBackward),
        Key::Enter => Some(CommandView::InsertLineBreak),
        Key::Char(ch) => Some(CommandView::InsertChar(ch)),
        Key::Esc => Some(CommandView::EnterMode(ModeView::fresh_normal())),
        _ => None,
    }
}

/// The command that a key stands for in insert mode.
pub fn command_for_key_press(key: Key) -> (command: Option<Command>)
    ensures
        command_view(command) == key_meaning(key),
{
    match key {
        Key::Up => Some(Command::MoveCursorUp(1)),
        Key::Down => Some(Command::MoveCursorDown(1)),
        Key::Left => Some(Command::MoveCursorLeft(1)),
        Key::Right => Some(Command::MoveCursorRight(1)),
        Key::Home => Some(Command::MoveCursorLineStart),
        Key::End => Some(Command::MoveCursorLineEnd),
        Key::PageUp => Some(Command::MoveCursorPageUp),
        Key::PageDown => Some(Command::MoveCursorPageDown),
        Key::Delete => Some(Command::DeleteCharForward),
        Key::Backspace => Some(Command::DeleteCharBackward),
        Key::Enter => Some(Command::InsertLineBreak),
        Key::Char(ch) => Some(Command::InsertChar(ch)),
        Key::Esc => Some(Command::EnterMode(Mode::Normal(NormalMode::default()))),
        _ => None,
    }
}

impl InsertMode {
    /// The command that `key` stands for.
    pub fn handle(&mut self, key: Key) -> (command: Option<Command>)
        ensures
            command_view(command) == key_meaning(key),
    {
        command_for_key_press(key)
    }
}

} // verus!
