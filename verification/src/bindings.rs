//! Key bindings: a parser that resolves key presses against tables of bound
//! sequences.
//!
//! In normal mode the typed characters are gathered until they spell a bound
//! sequence. In command-line mode they are gathered until Enter, and then
//! looked up as a whole. A binding may allow input: once its sequence was
//! typed and a space follows, what is typed after the space is handed to the
//! binding's command when Enter is pressed.

use crate::command::{command_view, Command, CommandView, Descriptor, Mode, ModeView, NormalMode};
use crate::key::Key;
use crate::segmentation::{grapheme_clusters, join_clusters, joined, split_graphemes, texts};
use vstd::prelude::*;

verus! {

/// What a binding holds.
pub ghost struct BindingView {
    pub command: CommandView,
    pub sequence: Seq<char>,
    pub input_capture_allowed: bool,
}

/// A sequence of characters bound to a command.
#[derive(Debug)]
pub struct Binding {
    command: Command,
    sequence: String,
    input_capture_allowed: bool,
}

impl View for Binding {
    type V = BindingView;

    closed spec fn view(&self) -> BindingView {
        BindingView {
            command: self.command@,
            sequence: self.sequence@,
            input_capture_allowed: self.input_capture_allowed,
        }
    }
}

impl Clone for Binding {
    fn clone(&self) -> (binding: Self)
        ensures
            binding@ == self@,
    {
        Self {
            command: self.command.clone(),
            sequence: self.sequence.clone(),
            input_capture_allowed: self.input_capture_allowed,
        }
    }
}

impl Binding {
    /// Bind `sequence` to `command`. The binding takes no input.
    pub fn new(sequence: &str, command: Command) -> (binding: Self)
        ensures
            binding@ == (BindingView {
                command: command@,
                sequence: sequence@,
                input_capture_allowed: false,
            }),
    {
        Self { sequence: sequence.to_owned(), command, input_capture_allowed: false }
    }

    /// Bind `sequence` to `command`. The binding takes input.
    pub fn new_with_input(sequence: &str, command: Command) -> (binding: Self)
        ensures
            binding@ == (BindingView {
                command: command@,
                sequence: sequence@,
                input_capture_allowed: true,
            }),
    {
        let mut binding = Self::new(sequence, command);
        binding.input_capture_allowed = true;
        binding
    }
}

/// `command` with `input` handed to it: a save-as takes it as its name, and
/// any other command has no use for it.
pub open spec fn supplied(command: CommandView, input: Seq<char>) -> CommandView {
    match command {
        CommandView::SaveAs(_) => CommandView::SaveAs(input),
        _ => command,
    }
}

impl Command {
    /// Hand `input` to the command.
    pub fn with_input(&mut self, input: &str)
        ensures
            final(self)@ == supplied(old(self)@, input@),
    {
        match self {
            Command::SaveAs(_) => {
                *self = Command::SaveAs(input.to_owned());
            },
            _ => {},
        }
    }
}

/// The views of `bindings`, in order.
pub open spec fn binding_views(bindings: Seq<Binding>) -> Seq<BindingView> {
    Seq::new(bindings.len(), |i: int| bindings[i]@)
}

/// The first binding of `bindings` from offset `from` on whose sequence is `sequence`.
pub open spec fn first_bound(bindings: Seq<BindingView>, sequence: Seq<char>, from: int) -> Option<
    BindingView,
>
    decreases bindings.len() - from,
{
    if from < 0 || from >= bindings.len() {
        None
    } else if bindings[from].sequence == sequence {
        Some(bindings[from])
    } else {
        first_bound(bindings, sequence, from + 1)
    }
}

/// The last binding among the first `count` of `bindings` that takes input
/// and whose sequence is `sequence`.
pub open spec fn last_capturing(bindings: Seq<BindingView>, sequence: Seq<char>, count: int)
    -> Option<BindingView>
    decreases count,
{
    if count <= 0 || count > bindings.len() {
        None
    } else if bindings[count - 1].sequence == sequence && bindings[count - 1].input_capture_allowed {
        Some(bindings[count - 1])
    } else {
        last_capturing(bindings, sequence, count - 1)
    }
}

/// What was typed after the sequence of a binding and the space that
/// follows it: the clusters of `buffer` behind those of `sequence` and one more.
pub open spec fn captured_input(buffer: Seq<char>, sequence: Seq<char>) -> Seq<char> {
    let clusters = grapheme_clusters(buffer);
    let skip = grapheme_clusters(sequence).len() + 1;
    joined(clusters, skip as int, clusters.len() as int)
}

/// What a parser holds: the characters gathered so far, the two tables, and
/// the binding that waits for its input, if any.
pub ghost struct ParserView {
    pub buffer: Seq<char>,
    pub normal_bindings: Seq<BindingView>,
    pub command_bindings: Seq<BindingView>,
    pub active_binding: Option<BindingView>,
}

impl ParserView {
    /// The parser with nothing gathered.
    pub open spec fn cleared(self) -> ParserView {
        ParserView { buffer: Seq::empty(), ..self }
    }

    /// The parser after `key` was pressed in a mode of kind `mode`, and the
    /// command that the key resolves to.
    pub open spec fn parsed(self, key: Key, mode: Descriptor) -> (ParserView, Option<CommandView>) {
        match mode {
            Descriptor::Command => self.parsed_in_command_line(key),
            Descriptor::Insert => self.parsed_in_insert(key),
            Descriptor::Normal => self.parsed_in_normal(key),
        }
    }

    /// In command-line mode: characters are gathered, and a space after the
    /// sequence of a binding that takes input makes that binding wait for
    /// its input. Esc gives the input up. Enter resolves what was gathered:
    /// to the waiting binding's command with its input, else to the command
    /// of the first binding with that sequence, else to a report that the
    /// input was not recognised.
    pub open spec fn parsed_in_command_line(self, key: Key) -> (ParserView, Option<CommandView>) {
        match key {
            Key::Char(ch) => {
                let buffer = self.buffer.push(ch);
                let active_binding = if ch == ' ' {
                    match last_capturing(
                        self.command_bindings,
                        self.buffer,
                        self.command_bindings.len() as int,
                    ) {
                        Some(binding) => Some(binding),
                        None => self.active_binding,
                    }
                } else {
                    self.active_binding
                };
                (
                    ParserView { buffer, active_binding, ..self },
                    Some(CommandView::CommandLineUpdateInput(buffer)),
                )
            },
            Key::Esc => (
                ParserView { active_binding: None, ..self.cleared() },
                Some(CommandView::CommandLineInputAborted),
            ),
            Key::Enter => match self.active_binding {
                Some(binding) => (
                    ParserView { active_binding: None, ..self.cleared() },
                    Some(
                        CommandView::CommandLineExecute(
                            Box::new(
                                supplied(
                                    binding.command,
                                    captured_input(self.buffer, binding.sequence),
                                ),
                            ),
                        ),
                    ),
                ),
                None => match first_bound(self.command_bindings, self.buffer, 0) {
                    Some(binding) => (
                        self.cleared(),
                        Some(CommandView::CommandLineExecute(Box::new(binding.command))),
                    ),
                    None => (
                        self.cleared(),
                        Some(CommandView::CommandLineInputNotRecognised(self.buffer)),
                    ),
                },
            },
            _ => (self, None),
        }
    }

    /// In insert mode: characters are inserted, Enter breaks the line,
    /// Backspace and Delete delete, and Esc leads back to normal mode with
    /// nothing gathered.
    pub open spec fn parsed_in_insert(self, key: Key) -> (ParserView, Option<CommandView>) {
        match key {
            Key::Char(ch) => (self, Some(CommandView::InsertChar(ch))),
            Key::Enter => (self, Some(CommandView::InsertLineBreak)),
            Key::Backspace => (self, Some(CommandView::DeleteCharBackward)),
            Key::Delete => (self, Some(CommandView::DeleteCharForward)),
            Key::Esc => (self.cleared(), Some(CommandView::EnterMode(ModeView::fresh_normal()))),
            _ => (self, None),
        }
    }

    /// In normal mode: `:` begins the input of a command line, and any
    /// other character is gathered until what was gathered is the sequence
    /// of a binding, whose command it then resolves to.
    pub open spec fn parsed_in_normal(self, key: Key) -> (ParserView, Option<CommandView>) {
        match key {
            Key::Char(ch) => {
                let buffer = self.buffer.push(ch);
                if ch == ':' {
                    (
                        ParserView { buffer, ..self },
                        Some(CommandView::CommandLineBeginInput(':')),
                    )
                } else {
                    match first_bound(self.normal_bindings, buffer, 0) {
                        Some(binding) => (self.cleared(), Some(binding.command)),
                        None => (ParserView { buffer, ..self }, None),
                    }
                }
            },
            _ => (self, None),
        }
    }
}

/// The first binding of `bindings` whose sequence is `sequence`.
pub fn find_binding<'a>(bindings: &'a Vec<Binding>, sequence: &String) -> (found: Option<
    &'a Binding,
>)
    ensures
        match found {
            Some(binding) => Some(binding@),
            None => None,
        } == first_bound(binding_views(bindings@), sequence@, 0),
{
    let ghost views = binding_views(bindings@);
    let mut i: usize = 0;
    while i < bindings.len()
        invariant
            i <= bindings@.len(),
            views == binding_views(bindings@),
            first_bound(views, sequence@, i as int) == first_bound(views, sequence@, 0),
        decreases bindings@.len() - i,
    {
        if bindings[i].sequence == *sequence {
            return Some(&bindings[i]);
        }
        i += 1;
    }
    None
}

/// The last binding of `bindings` that takes input and whose sequence is `sequence`.
pub fn find_capturing<'a>(bindings: &'a Vec<Binding>, sequence: &String) -> (found: Option<
    &'a Binding,
>)
    ensures
        match found {
            Some(binding) => Some(binding@),
            None => None,
        } == last_capturing(binding_views(bindings@), sequence@, bindings@.len() as int),
{
    let ghost views = binding_views(bindings@);
    let mut found: Option<&'a Binding> = None;
    let mut i: usize = 0;
    while i < bindings.len()
        invariant
            i <= bindings@.len(),
            views == binding_views(bindings@),
            match found {
                Some(binding) => Some(binding@),
                None => None,
            } == last_capturing(views, sequence@, i as int),
        decreases bindings@.len() - i,
    {
        if bindings[i].sequence == *sequence && bindings[i].input_capture_allowed {
            found = Some(&bindings[i]);
        }
        i += 1;
    }
    found
}

/// The parser of key presses.
#[derive(Debug)]
pub struct Parser {
    buffer: String,
    normal_bindings: Vec<Binding>,
    command_bindings: Vec<Binding>,
    active_binding: Option<Binding>,
}

impl View for Parser {
    type V = ParserView;

    closed spec fn view(&self) -> ParserView {
        ParserView {
            buffer: self.buffer@,
            normal_bindings: binding_views(self.normal_bindings@),
            command_bindings: binding_views(self.command_bindings@),
            active_binding: match self.active_binding {
                Some(binding) => Some(binding@),
                None => None,
            },
        }
    }
}

/// The bindings of normal mode that a parser starts with.
pub open spec fn default_normal_bindings() -> Seq<BindingView> {
    seq![
        BindingView {
            command: CommandView::MoveCursorUp(1),
            sequence: "k"@,
            input_capture_allowed: false,
        },
        BindingView {
            command: CommandView::MoveCursorDown(1),
            sequence: "j"@,
            input_capture_allowed: false,
        },
        BindingView {
            command: CommandView::MoveCursorLeft(1),
            sequence: "h"@,
            input_capture_allowed: false,
        },
        BindingView {
            command: CommandView::MoveCursorRight(1),
            sequence: "l"@,
            input_capture_allowed: false,
        },
        BindingView {
            command: CommandView::MoveCursorLineStart,
            sequence: "^"@,
            input_capture_allowed: false,
        },
        BindingView {
            command: CommandView::MoveCursorLineEnd,
            sequence: "$"@,
            input_capture_allowed: false,
        },
        BindingView {
            command: CommandView::DeleteCharForward,
            sequence: "x"@,
            input_capture_allowed: false,
        },
        BindingView {
            command: CommandView::EnterMode(ModeView::Insert),
            sequence: "i"@,
            input_capture_allowed: false,
        },
    ]
}

/// The bindings of command-line mode that a parser starts with.
pub open spec fn default_command_bindings() -> Seq<BindingView> {
    seq![
        BindingView { command: CommandView::Quit, sequence: ":q"@, input_capture_allowed: false },
        BindingView { command: CommandView::Save, sequence: ":w"@, input_capture_allowed: false },
        BindingView {
            command: CommandView::SaveAs(Seq::empty()),
            sequence: ":w"@,
            input_capture_allowed: true,
        },
    ]
}

impl Parser {
    /// Take a key press in a mode of kind `mode`.
    pub fn parse(&mut self, key: Key, mode: Descriptor) -> (command: Option<Command>)
        ensures
            (final(self)@, command_view(command)) == old(self)@.parsed(key, mode),
    {
        match mode {
            Descriptor::Command => self.parse_in_command_line(key),
            Descriptor::Insert => self.parse_in_insert(key),
            Descriptor::Normal => self.parse_in_normal(key),
        }
    }

    fn parse_in_command_line(&mut self, key: Key) -> (command: Option<Command>)
        ensures
            (final(self)@, command_view(command)) == old(self)@.parsed_in_command_line(key),
    {
        match key {
            Key::Char(ch) => {
                if ch == ' ' {
                    if let Some(binding) = find_capturing(&self.command_bindings, &self.buffer) {
                        self.active_binding = Some(binding.clone());
                    }
                }
                self.buffer.push(ch);
                Some(Command::CommandLineUpdateInput(self.buffer.clone()))
            },
            Key::Esc => {
                self.buffer = String::new();
                self.active_binding = None;
                Some(Command::CommandLineInputAborted)
            },
            Key::Enter => {
                let active = self.active_binding.take();
                if let Some(binding) = active {
                    let mut command = binding.command;
                    let clusters = split_graphemes(self.buffer.as_str());
                    let sequence = split_graphemes(binding.sequence.as_str());
                    assert(texts(clusters@).len() == clusters@.len());
                    assert(texts(sequence@).len() == sequence@.len());
                    let input = join_clusters(
                        &clusters,
                        sequence.len().saturating_add(1),
                        clusters.len(),
                    );
                    proof {
                        let all = texts(clusters@);
                        let skip = sequence@.len() + 1;
                        if skip > usize::MAX {
                            assert(joined(all, usize::MAX as int, all.len() as int) == joined(
                                all,
                                skip as int,
                                all.len() as int,
                            ));
                        }
                    }
                    command.with_input(input.as_str());
                    self.buffer = String::new();
                    return Some(Command::CommandLineExecute(Box::new(command)));
                }
                let found = match find_binding(&self.command_bindings, &self.buffer) {
                    Some(binding) => Some(binding.command.clone()),
                    None => None,
                };
                let command = match found {
                    Some(command) => Command::CommandLineExecute(Box::new(command)),
                    None => Command::CommandLineInputNotRecognised(self.buffer.clone()),
                };
                self.buffer = String::new();
                Some(command)
            },
            _ => None,
        }
    }

    fn parse_in_insert(&mut self, key: Key) -> (command: Option<Command>)
        ensures
            (final(self)@, command_view(command)) == old(self)@.parsed_in_insert(key),
    {
        match key {
            Key::Char(ch) => Some(Command::InsertChar(ch)),
            Key::Enter => Some(Command::InsertLineBreak),
            Key::Backspace => Some(Command::DeleteCharBackward),
            Key::Delete => Some(Command::DeleteCharForward),
            Key::Esc => {
                self.buffer = String::new();
                Some(Command::EnterMode(Mode::Normal(NormalMode::default())))
            },
            _ => None,
        }
    }

    fn parse_in_normal(&mut self, key: Key) -> (command: Option<Command>)
        ensures
            (final(self)@, command_view(command)) == old(self)@.parsed_in_normal(key),
    {
        match key {
            Key::Char(ch) => {
                self.buffer.push(ch);
                if ch == ':' {
                    return Some(Command::CommandLineBeginInput(':'));
                }
                let found = match find_binding(&self.normal_bindings, &self.buffer) {
                    Some(binding) => Some(binding.command.clone()),
                    None => None,
                };
                if found.is_some() {
                    self.buffer = String::new();
                }
                found
            },
            _ => None,
        }
    }
}

impl Default for Parser {
    fn default() -> (parser: Self)
        ensures
            parser@ == (ParserView {
                buffer: Seq::empty(),
                normal_bindings: default_normal_bindings(),
                command_bindings: default_command_bindings(),
                active_binding: None,
            }),
    {
        let mut normal_bindings: Vec<Binding> = Vec::new();
        normal_bindings.push(Binding::new("k", Command::MoveCursorUp(1)));
        normal_bindings.push(Binding::new("j", Command::MoveCursorDown(1)));
        normal_bindings.push(Binding::new("h", Command::MoveCursorLeft(1)));
        normal_bindings.push(Binding::new("l", Command::MoveCursorRight(1)));
        normal_bindings.push(Binding::new("^", Command::MoveCursorLineStart));
        normal_bindings.push(Binding::new("$", Command::MoveCursorLineEnd));
        normal_bindings.push(Binding::new("x", Command::DeleteCharForward));
        normal_bindings.push(
            Binding::new("i", Command::EnterMode(Mode::Insert(crate::command::InsertMode))),
        );

        let mut command_bindings: Vec<Binding> = Vec::new();
        command_bindings.push(Binding::new(":q", Command::Quit));
        command_bindings.push(Binding::new(":w", Command::Save));
        command_bindings.push(Binding::new_with_input(":w", Command::SaveAs(String::new())));

        let parser = Self {
            buffer: String::new(),
            normal_bindings,
            command_bindings,
            active_binding: None,
        };
        assert(parser@.normal_bindings =~= default_normal_bindings());
        assert(parser@.command_bindings =~= default_command_bindings());
        parser
    }
}

} // verus!
