//! The command line: the row at the bottom of the screen in which commands
//! such as `:w` and `:q` are typed.

use crate::command::{command_view, Command, CommandView, Mode, ModeView, NormalMode};
use crate::component::Component;
use crate::execute_mode;
use crate::frame::{FrameBuffer, OutOfBoundsError};
use crate::key::Key;
use crate::layout::{saturating_difference, saturating_sum, Position, Rect};
use crate::row::{cluster_count, deleted, inserted, Row};
use crate::segmentation::grapheme_clusters;
use crate::style::Style;
use vstd::prelude::*;

verus! {

/// What a command line holds: where it is shown, the text typed so far
/// (prompt included) and the cursor within that text.
pub ghost struct CommandLineView {
    pub area: Rect,
    pub text: Seq<char>,
    pub cursor: Position,
}

/// The text of an empty prompt.
pub open spec fn prompt() -> Seq<char> {
    seq![':']
}

impl CommandLineView {
    /// This command line with an empty prompt and the cursor behind it.
    pub open spec fn reset(self) -> CommandLineView {
        CommandLineView { text: prompt(), cursor: Position { col: 1, ..self.cursor }, ..self }
    }

    /// This command line with the cursor in column `col`.
    pub open spec fn with_cursor_col(self, col: usize) -> CommandLineView {
        CommandLineView { cursor: Position { col, ..self.cursor }, ..self }
    }

    /// This command line after a deletion left it with `text` and the cursor
    /// in column `col`: where no more than the prompt is left, input is over,
    /// the line is reset and the editor is sent back to normal mode.
    pub open spec fn after_deletion(self, text: Seq<char>, col: usize) -> (
        CommandLineView,
        Option<CommandView>,
    ) {
        if cluster_count(text) <= 1 {
            (self.reset(), Some(CommandView::EnterMode(ModeView::fresh_normal())))
        } else {
            (CommandLineView { text, ..self.with_cursor_col(col) }, None)
        }
    }

    /// The command line after `command` was applied to it, and the command
    /// that it answers with.
    pub open spec fn applied(self, command: CommandView) -> (CommandLineView, Option<CommandView>) {
        let col = self.cursor.col;
        match command {
            CommandView::EndCommandLineInput => (
                self.reset(),
                Some(CommandView::ParseCommandLineInput(self.text)),
            ),
            CommandView::AbortCommandLineInput => (
                self.reset(),
                Some(CommandView::EnterMode(ModeView::fresh_normal())),
            ),
            CommandView::InsertChar(ch) => (
                CommandLineView {
                    text: inserted(self.text, col as int, ch),
                    ..self.with_cursor_col(saturating_sum(col, 1))
                },
                None,
            ),
            CommandView::MoveCursorLeft(n) => (
                if col > 1 {
                    self.with_cursor_col(saturating_difference(col, n))
                } else {
                    self
                },
                None,
            ),
            CommandView::MoveCursorRight(n) => (
                if col != cluster_count(self.text) {
                    self.with_cursor_col(saturating_sum(col, n))
                } else {
                    self
                },
                None,
            ),
            CommandView::MoveCursorLineStart => (self.with_cursor_col(1), None),
            CommandView::MoveCursorLineEnd => (
                self.with_cursor_col(cluster_count(self.text) as usize),
                None,
            ),
            CommandView::DeleteCharForward => self.after_deletion(
                deleted(self.text, col as int),
                col,
            ),
            CommandView::DeleteCharBackward => self.after_deletion(
                deleted(self.text, saturating_difference(col, 1) as int),
                saturating_difference(col, 1),
            ),
            _ => (self, None),
        }
    }

    /// The command line after `key` was pressed, and the command that it
    /// answers with: Enter has the line parsed, and leaves it as it is; any
    /// other key is applied as the command that it stands for.
    pub open spec fn pressed(self, key: Key) -> (CommandLineView, Option<CommandView>) {
        if key == Key::Enter {
            (self, execute_mode::command_line_meaning(self.text))
        } else {
            match execute_mode::key_meaning(key) {
                Some(command) => self.applied(command),
                None => (self, None),
            }
        }
    }
}

/// The command line at the bottom of the editor.
#[derive(Debug)]
pub struct CommandLine {
    area: Rect,
    row: Row,
    cursor_position: Position,
}

impl View for CommandLine {
    type V = CommandLineView;

    closed spec fn view(&self) -> CommandLineView {
        CommandLineView { area: self.area, text: self.row@, cursor: self.cursor_position }
    }
}

impl CommandLine {
    /// Create a command line that is shown in `area`, with an empty prompt.
    pub fn new(area: Rect) -> (command_line: Self)
        ensures
            command_line@ == (CommandLineView {
                area,
                text: prompt(),
                cursor: Position { col: 1, row: 0 },
            }),
    {
        let mut command_line = CommandLine {
            area,
            row: Row::default(),
            cursor_position: Position::new(0, 0),
        };
        command_line.reset();
        command_line
    }

    /// Apply `command` to the command line. The answer is a command for the
    /// editor: the finished input to parse, or the way back to normal mode.
    pub fn execute_command(&mut self, command: Command) -> (answer: Option<Command>)
        ensures
            (final(self)@, command_view(answer)) == old(self)@.applied(command@),
    {
        let col = self.cursor_position.col;
        match command {
            Command::EndCommandLineInput => {
                let answer = Some(Command::ParseCommandLineInput(self.row.contents()));
                self.reset();
                answer
            },
            Command::AbortCommandLineInput => {
                self.reset();
                Some(Command::EnterMode(Mode::Normal(NormalMode::default())))
            },
            Command::InsertChar(ch) => {
                self.row.insert(col, ch);
                self.cursor_position.col = col.saturating_add(1);
                None
            },
            Command::MoveCursorLeft(n) => {
                if col > 1 {
                    self.cursor_position.col = col.saturating_sub(n);
                }
                None
            },
            Command::MoveCursorRight(n) => {
                if col != self.row.len() {
                    self.cursor_position.col = col.saturating_add(n);
                }
                None
            },
            Command::MoveCursorLineStart => {
                self.cursor_position.col = 1;
                None
            },
            Command::MoveCursorLineEnd => {
                self.cursor_position.col = self.row.len();
                None
            },
            Command::DeleteCharForward => {
                self.row.delete(col);
                self.finish_deletion()
            },
            Command::DeleteCharBackward => {
                self.cursor_position.col = col.saturating_sub(1);
                self.row.delete(self.cursor_position.col);
                self.finish_deletion()
            },
            _ => None,
        }
    }

    /// After a deletion: where no more than the prompt is left, reset the
    /// line and answer with the way back to normal mode.
    fn finish_deletion(&mut self) -> (answer: Option<Command>)
        ensures
            (final(self)@, command_view(answer)) == old(self)@.after_deletion(
                old(self)@.text,
                old(self)@.cursor.col,
            ),
    {
        if self.row.len() <= 1 {
            self.reset();
            Some(Command::EnterMode(Mode::Normal(NormalMode::default())))
        } else {
            None
        }
    }

    /// Take a key press: Enter has the line parsed as it stands, any other
    /// key is applied to the line as the command that it stands for.
    pub fn matched_command_for(&mut self, key: Key) -> (answer: Option<Command>)
        ensures
            (final(self)@, command_view(answer)) == old(self)@.pressed(key),
    {
        if let Key::Enter = key {
            let contents = self.row.contents();
            return execute_mode::command_for_input(contents.as_str());
        }
        match execute_mode::command_for_key(key) {
            Some(command) => self.execute_command(command),
            None => None,
        }
    }

    /// Where the cursor is on the screen: its place in the line, moved by
    /// the origin of the line's area and held at the largest coordinate.
    pub fn cursor_position(&self) -> (position: Position)
        ensures
            position == (Position {
                col: saturating_sum(self@.area.position.col, self@.cursor.col),
                row: saturating_sum(self@.area.position.row, self@.cursor.row),
            }),
    {
        Position::new(
            self.area.position.col.saturating_add(self.cursor_position.col),
            self.area.position.row.saturating_add(self.cursor_position.row),
        )
    }

    /// The text of the line, prompt included.
    pub fn command_string(&self) -> (text: String)
        ensures
            text@ == self@.text,
    {
        self.row.contents()
    }

    /// Put the line back to an empty prompt with the cursor behind it.
    pub fn reset(&mut self)
        ensures
            final(self)@ == old(self)@.reset(),
    {
        proof {
            reveal_strlit(":");
        }
        self.row = Row::from(":");
        assert(self.row@ =~= prompt());
        self.cursor_position.col = self.row.len();
    }

    /// Start a prompt: an empty prompt with the cursor behind it.
    pub fn start_prompt(&mut self)
        ensures
            final(self)@ == old(self)@.reset(),
    {
        self.reset();
    }

    /// Empty the line, prompt included. The cursor stays where it is.
    pub fn clear(&mut self)
        ensures
            final(self)@ == (CommandLineView { text: Seq::empty(), ..old(self)@ }),
    {
        self.row = Row::default();
    }

    /// Show `message` in the line. The cursor stays where it is.
    pub fn set_message(&mut self, message: &str)
        ensures
            final(self)@ == (CommandLineView { text: message@, ..old(self)@ }),
    {
        self.row = Row::from(message);
    }
}

impl Default for CommandLine {
    fn default() -> (command_line: Self)
        ensures
            command_line@ == (CommandLineView {
                area: Rect { width: 0, height: 0, position: Position { col: 0, row: 0 } },
                text: prompt(),
                cursor: Position { col: 1, row: 0 },
            }),
    {
        CommandLine::new(Rect::new(0, 0))
    }
}

impl Component for CommandLine {
    /// Write the line into the row of the buffer that the top of the line's
    /// area names. Where the buffer has no such row, nothing is drawn and
    /// the buffer's error is returned.
    fn render(&self, buffer: &mut FrameBuffer) -> (rendered: Result<(), OutOfBoundsError>)
        ensures
            rendered.is_ok() == (self@.area.position.row < old(buffer)@.area.height),
            final(buffer)@ == old(buffer)@.written(
                self@.area.position.row,
                grapheme_clusters(self@.text),
                Style::plain(),
            ),
    {
        let contents = self.row.contents();
        buffer.write_line(self.area.top(), contents.as_str(), &Style::default())
    }
}

} // verus!
