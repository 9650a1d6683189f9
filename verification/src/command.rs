//! Modes and the commands that key presses resolve to.

use crate::layout::Position;
use crate::row::Row;
use vstd::prelude::*;

verus! {

/// The kind of a mode, without the state that the mode carries.
#[derive(Debug, Clone, Copy, PartialEq, Eq, Hash, Structural)]
pub enum Descriptor {
    Insert,
    Normal,
    Command,
}

/// State of the command-line mode.
#[derive(Debug, PartialEq, Eq)]
pub struct ExecuteMode {
    row: Row,
    cursor_position: Position,
}

/// State of the insert mode: there is none.
#[derive(Debug, Default, Clone, Copy, PartialEq, Eq, Structural)]
pub struct InsertMode;

/// State of the normal mode: the characters typed since the last command.
#[derive(Debug, PartialEq, Eq)]
pub struct NormalMode {
    input_buffer: String,
}

/// The modal-editing state that governs how keys are interpreted.
#[derive(Debug, PartialEq, Eq)]
pub enum Mode {
    Execute(ExecuteMode),
    Insert(InsertMode),
    Normal(NormalMode),
}

/// What a mode holds.
pub ghost enum ModeView {
    Execute { text: Seq<char>, cursor: Position },
    Insert,
    Normal { pending: Seq<char> },
}

impl ModeView {
    /// The mode that the editor starts in and goes back to: normal, with
    /// nothing typed yet.
    pub open spec fn fresh_normal() -> ModeView {
        ModeView::Normal { pending: Seq::empty() }
    }

    /// The command-line mode as it is entered.
    pub open spec fn fresh_execute() -> ModeView {
        ModeView::Execute { text: Seq::empty(), cursor: Position { col: 0, row: 0 } }
    }

    /// The kind of the mode.
    pub open spec fn descriptor(self) -> Descriptor {
        match self {
            ModeView::Execute { .. } => Descriptor::Command,
            ModeView::Insert => Descriptor::Insert,
            ModeView::Normal { .. } => Descriptor::Normal,
        }
    }
}

impl View for ExecuteMode {
    type V = ModeView;

    closed spec fn view(&self) -> ModeView {
        ModeView::Execute { text: self.row@, cursor: self.cursor_position }
    }
}

impl View for NormalMode {
    type V = ModeView;

    closed spec fn view(&self) -> ModeView {
        ModeView::Normal { pending: self.input_buffer@ }
    }
}

impl View for Mode {
    type V = ModeView;

    open spec fn view(&self) -> ModeView {
        match self {
            Mode::Execute(mode) => mode@,
            Mode::Insert(_) => ModeView::Insert,
            Mode::Normal(mode) => mode@,
        }
    }
}

impl ExecuteMode {
    /// A view of this kind is a command-line mode's.
    pub proof fn lemma_view_is_execute(&self)
        ensures
            self@ is Execute,
    {
    }
}

impl NormalMode {
    /// The characters typed since the last command.
    pub closed spec fn pending(&self) -> Seq<char> {
        self.input_buffer@
    }

    /// A view of this kind is a normal mode's, and holds the pending input.
    pub proof fn lemma_view_is_normal(&self)
        ensures
            self@ == (ModeView::Normal { pending: self.pending() }),
    {
    }

    /// The characters typed since the last command.
    pub fn input(&self) -> (input: &String)
        ensures
            input@ == self.pending(),
    {
        &self.input_buffer
    }

    /// Replace the pending input.
    pub(crate) fn set_input(&mut self, input: String)
        ensures
            final(self).pending() == input@,
    {
        self.input_buffer = input;
    }
}

impl Default for ExecuteMode {
    fn default() -> (mode: Self)
        ensures
            mode@ == ModeView::fresh_execute(),
    {
        Self { row: Row::default(), cursor_position: Position::new(0, 0) }
    }
}

impl Default for NormalMode {
    fn default() -> (mode: Self)
        ensures
            mode@ == ModeView::fresh_normal(),
    {
        Self { input_buffer: String::new() }
    }
}

impl Default for Mode {
    fn default() -> (mode: Self)
        ensures
            mode@ == ModeView::fresh_normal(),
    {
        Mode::Normal(NormalMode::default())
    }
}

impl Clone for ExecuteMode {
    fn clone(&self) -> (mode: Self)
        ensures
            mode@ == self@,
    {
        Self { row: self.row.clone(), cursor_position: self.cursor_position }
    }
}

impl Clone for NormalMode {
    fn clone(&self) -> (mode: Self)
        ensures
            mode@ == self@,
    {
        Self { input_buffer: self.input_buffer.clone() }
    }
}

impl Clone for Mode {
    fn clone(&self) -> (mode: Self)
        ensures
            mode@ == self@,
    {
        match self {
            Mode::Execute(mode) => Mode::Execute(mode.clone()),
            Mode::Insert(_) => Mode::Insert(InsertMode),
            Mode::Normal(mode) => Mode::Normal(mode.clone()),
        }
    }
}

impl Mode {
    /// The kind of the mode.
    pub fn descriptor(&self) -> (descriptor: Descriptor)
        ensures
            descriptor == self@.descriptor(),
    {
        match self {
            Mode::Execute(mode) => {
                proof {
                    mode.lemma_view_is_execute();
                }
                Descriptor::Command
            },
            Mode::Insert(_) => Descriptor::Insert,
            Mode::Normal(mode) => {
                proof {
                    mode.lemma_view_is_normal();
                }
                Descriptor::Normal
            },
        }
    }

    /// The name under which the mode is shown to the user.
    pub fn to_string(&self) -> (name: String)
        ensures
            name@ == self@.descriptor().name(),
    {
        self.descriptor().to_string()
    }
}

impl Descriptor {
    /// The name under which a mode of this kind is shown to the user.
    pub open spec fn name(self) -> Seq<char> {
        match self {
            Descriptor::Command => "COMMAND"@,
            Descriptor::Insert => "INSERT"@,
            Descriptor::Normal => "NORMAL"@,
        }
    }

    /// The name under which a mode of this kind is shown to the user.
    pub fn to_string(&self) -> (name: String)
        ensures
            name@ == self.name(),
    {
        match self {
            Descriptor::Command => "COMMAND".to_owned(),
            Descriptor::Insert => "INSERT".to_owned(),
            Descriptor::Normal => "NORMAL".to_owned(),
        }
    }
}

impl Default for Descriptor {
    fn default() -> (descriptor: Self)
        ensures
            descriptor == Descriptor::Normal,
    {
        Descriptor::Normal
    }
}

/// A discrete editing intent, produced from key presses and consumed by
/// whoever owns the document.
#[derive(Debug, PartialEq, Eq)]
pub enum Command {
    EndCommandLineInput,
    AbortCommandLineInput,
    ParseCommandLineInput(String),
    CommandLineBeginInput(char),
    CommandLineUpdateInput(String),
    CommandLineInputAborted,
    CommandLineExecute(Box<Command>),
    CommandLineInputNotRecognised(String),
    EnterMode(Mode),
    InsertChar(char),
    InsertLineBreak,
    DeleteCharForward,
    DeleteCharBackward,
    MoveCursorUp(usize),
    MoveCursorDown(usize),
    MoveCursorLeft(usize),
    MoveCursorRight(usize),
    MoveCursorLineStart,
    MoveCursorLineEnd,
    MoveCursorPageUp,
    MoveCursorPageDown,
    Save,
    SaveAs(String),
    Quit,
}

/// What a command says.
pub ghost enum CommandView {
    EndCommandLineInput,
    AbortCommandLineInput,
    ParseCommandLineInput(Seq<char>),
    CommandLineBeginInput(char),
    CommandLineUpdateInput(Seq<char>),
    CommandLineInputAborted,
    CommandLineExecute(Box<CommandView>),
    CommandLineInputNotRecognised(Seq<char>),
    EnterMode(ModeView),
    InsertChar(char),
    InsertLineBreak,
    DeleteCharForward,
    DeleteCharBackward,
    MoveCursorUp(usize),
    MoveCursorDown(usize),
    MoveCursorLeft(usize),
    MoveCursorRight(usize),
    MoveCursorLineStart,
    MoveCursorLineEnd,
    MoveCursorPageUp,
    MoveCursorPageDown,
    Save,
    SaveAs(Seq<char>),
    Quit,
}

impl View for Command {
    type V = CommandView;

    open spec fn view(&self) -> CommandView
        decreases self,
    {
        match self {
            Command::EndCommandLineInput => CommandView::EndCommandLineInput,
            Command::AbortCommandLineInput => CommandView::AbortCommandLineInput,
            Command::ParseCommandLineInput(input) => CommandView::ParseCommandLineInput(input@),
            Command::CommandLineBeginInput(ch) => CommandView::CommandLineBeginInput(*ch),
            Command::CommandLineUpdateInput(input) => CommandView::CommandLineUpdateInput(input@),
            Command::CommandLineInputAborted => CommandView::CommandLineInputAborted,
            Command::CommandLineExecute(command) => CommandView::CommandLineExecute(
                Box::new((**command)@),
            ),
            Command::CommandLineInputNotRecognised(input) => {
                CommandView::CommandLineInputNotRecognised(input@)
            },
            Command::EnterMode(mode) => CommandView::EnterMode(mode@),
            Command::InsertChar(ch) => CommandView::InsertChar(*ch),
            Command::InsertLineBreak => CommandView::InsertLineBreak,
            Command::DeleteCharForward => CommandView::DeleteCharForward,
            Command::DeleteCharBackward => CommandView::DeleteCharBackward,
            Command::MoveCursorUp(count) => CommandView::MoveCursorUp(*count),
            Command::MoveCursorDown(count) => CommandView::MoveCursorDown(*count),
            Command::MoveCursorLeft(count) => CommandView::MoveCursorLeft(*count),
            Command::MoveCursorRight(count) => CommandView::MoveCursorRight(*count),
            Command::MoveCursorLineStart => CommandView::MoveCursorLineStart,
            Command::MoveCursorLineEnd => CommandView::MoveCursorLineEnd,
            Command::MoveCursorPageUp => CommandView::MoveCursorPageUp,
            Command::MoveCursorPageDown => CommandView::MoveCursorPageDown,
            Command::Save => CommandView::Save,
            Command::SaveAs(name) => CommandView::SaveAs(name@),
            Command::Quit => CommandView::Quit,
        }
    }
}

/// The view of an optional command.
pub open spec fn command_view(command: Option<Command>) -> Option<CommandView> {
    match command {
        Some(command) => Some(command@),
        None => None,
    }
}

impl Clone for Command {
    fn clone(&self) -> (command: Self)
        ensures
            command@ == self@,
        decreases self,
    {
        match self {
            Command::EndCommandLineInput => Command::EndCommandLineInput,
            Command::AbortCommandLineInput => Command::AbortCommandLineInput,
            Command::ParseCommandLineInput(input) => Command::ParseCommandLineInput(input.clone()),
            Command::CommandLineBeginInput(ch) => Command::CommandLineBeginInput(*ch),
            Command::CommandLineUpdateInput(input) => {
                Command::CommandLineUpdateInput(input.clone())
            },
            Command::CommandLineInputAborted => Command::CommandLineInputAborted,
            Command::CommandLineExecute(command) => {
                let inner: &Command = &**command;
                Command::CommandLineExecute(Box::new(inner.clone()))
            },
            Command::CommandLineInputNotRecognised(input) => {
                Command::CommandLineInputNotRecognised(input.clone())
            },
            Command::EnterMode(mode) => Command::EnterMode(mode.clone()),
            Command::InsertChar(ch) => Command::InsertChar(*ch),
            Command::InsertLineBreak => Command::InsertLineBreak,
            Command::DeleteCharForward => Command::DeleteCharForward,
            Command::DeleteCharBackward => Command::DeleteCharBackward,
            Command::MoveCursorUp(count) => Command::MoveCursorUp(*count),
            Command::MoveCursorDown(count) => Command::MoveCursorDown(*count),
            Command::MoveCursorLeft(count) => Command::MoveCursorLeft(*count),
            Command::MoveCursorRight(count) => Command::MoveCursorRight(*count),
            Command::MoveCursorLineStart => Command::MoveCursorLineStart,
            Command::MoveCursorLineEnd => Command::MoveCursorLineEnd,
            Command::MoveCursorPageUp => Command::MoveCursorPageUp,
            Command::MoveCursorPageDown => Command::MoveCursorPageDown,
            Command::Save => Command::Save,
            Command::SaveAs(name) => Command::SaveAs(name.clone()),
            Command::Quit => Command::Quit,
        }
    }
}

} // verus!
