//! The editor: the state machine that turns key presses into commands, and
//! one turn of its main loop.
//!
//! The editor is in exactly one mode at a time. A key press is handed to the
//! mode, which answers with a command or with nothing. Commands that change
//! the mode, end the run or edit the command line are applied by the editor
//! itself; what is left is for whoever owns the document.

use crate::backend::{Canvas, CanvasRequest, Event, EventLoop};
use crate::command::{command_view, Command, CommandView, Descriptor, Mode, ModeView, NormalMode};
use crate::command_line::{CommandLine, CommandLineView};
use crate::component::Component;
use crate::execute_mode;
use crate::frame::OutOfBoundsError;
use crate::insert_mode;
use crate::key::Key;
use crate::layout::{saturating_difference, saturating_sum, Position, Rect};
use crate::normal_mode;
use crate::segmentation::grapheme_clusters;
use crate::status_bar::{StatusBar, StatusBarView};
use crate::style::Style;
use crate::viewport::{
    after_render, CloseError, DrawError, Frame, FrameView, Viewport, ViewportError, ViewportView,
};
use vstd::prelude::*;

verus! {

/// The mode after `key` was pressed in `mode`, and the command that the
/// mode answers the key with.
pub open spec fn key_answer(mode: ModeView, key: Key) -> (ModeView, Option<CommandView>) {
    match mode {
        ModeView::Execute { .. } => (mode, execute_mode::key_meaning(key)),
        ModeView::Insert => (mode, insert_mode::key_meaning(key)),
        ModeView::Normal { pending } => (
            ModeView::Normal { pending: normal_mode::remaining(pending, key) },
            normal_mode::answer(pending, key),
        ),
    }
}

impl Mode {
    /// Take a key press in this mode.
    pub fn handle(&mut self, key: Key) -> (command: Option<Command>)
        ensures
            (final(self)@, command_view(command)) == key_answer(old(self)@, key),
    {
        match self {
            Mode::Execute(mode) => {
                proof {
                    mode.lemma_view_is_execute();
                }
                mode.handle(key)
            },
            Mode::Insert(mode) => mode.handle(key),
            Mode::Normal(mode) => {
                proof {
                    mode.lemma_view_is_normal();
                }
                let command = mode.handle(key);
                proof {
                    mode.lemma_view_is_normal();
                }
                command
            },
        }
    }
}

/// What the editor's state machine holds: the active mode, the command
/// line, and whether the run is over.
pub ghost struct EngineView {
    pub mode: ModeView,
    pub command_line: CommandLineView,
    pub should_quit: bool,
}

impl EngineView {
    /// The state when the editor starts: normal mode, an empty prompt in
    /// `area`, and a run that is not over.
    pub open spec fn initial(area: Rect) -> EngineView {
        EngineView {
            mode: ModeView::fresh_normal(),
            command_line: CommandLineView {
                area,
                text: crate::command_line::prompt(),
                cursor: Position { col: 1, row: 0 },
            },
            should_quit: false,
        }
    }

    /// The state after the command line answered with `answer`, and the
    /// command that the editor passes on.
    ///
    /// A finished input is parsed and sends the editor back to normal mode,
    /// whatever it says: a command that the grammar knows is passed on, and
    /// any other input is reported as not recognised.
    pub open spec fn after_answer(self, answer: Option<CommandView>) -> (
        EngineView,
        Option<CommandView>,
    ) {
        match answer {
            Some(CommandView::ParseCommandLineInput(input)) => {
                let normal = EngineView { mode: ModeView::fresh_normal(), ..self };
                match execute_mode::command_line_meaning(input) {
                    Some(CommandView::Quit) => (
                        EngineView { should_quit: true, ..normal },
                        Some(CommandView::Quit),
                    ),
                    Some(command) => (normal, Some(command)),
                    None => (normal, Some(CommandView::CommandLineInputNotRecognised(input))),
                }
            },
            Some(CommandView::EnterMode(mode)) => (
                EngineView { mode, ..self },
                Some(CommandView::EnterMode(mode)),
            ),
            Some(CommandView::Quit) => (
                EngineView { should_quit: true, ..self },
                Some(CommandView::Quit),
            ),
            other => (self, other),
        }
    }

    /// The state after `command` was handled, and the command that the
    /// editor passes on.
    ///
    /// Quit ends the run and a change of mode replaces the mode. In
    /// command-line mode every other command goes to the command line.
    /// In the other modes it is passed on untouched.
    pub open spec fn after_command(self, command: CommandView) -> (EngineView, Option<CommandView>) {
        match command {
            CommandView::Quit => (EngineView { should_quit: true, ..self }, Some(command)),
            CommandView::EnterMode(mode) => (EngineView { mode, ..self }, Some(command)),
            _ => if self.mode is Execute {
                let (command_line, answer) = self.command_line.applied(command);
                (EngineView { command_line, ..self }).after_answer(answer)
            } else {
                (self, Some(command))
            },
        }
    }

    /// The state after `key` was pressed, and the command that the editor
    /// passes on.
    pub open spec fn after_key(self, key: Key) -> (EngineView, Option<CommandView>) {
        let (mode, command) = key_answer(self.mode, key);
        let keyed = EngineView { mode, ..self };
        match command {
            Some(command) => keyed.after_command(command),
            None => (keyed, None),
        }
    }
}

/// The frame that the editor renders when its state machine holds `engine`
/// and its viewport covers `area`, from the frame that it is given: the
/// status bar in the last row but one and, in command-line mode, the command
/// line in its row and the cursor behind what was typed.
pub open spec fn rendered_frame(engine: EngineView, area: Rect, frame: FrameView) -> FrameView {
    let bottom = area.bottom_edge() as usize;
    let status_bar = StatusBarView {
        viewport: Rect {
            width: area.width,
            height: 1,
            position: Position { col: 0, row: saturating_difference(bottom, 2) },
        },
        mode: engine.mode.descriptor(),
        line_count: 0,
        cursor_position: Position { col: 0, row: 0 },
        file_name: ""@,
    };
    let with_status = frame.buffer.written(
        status_bar.viewport.position.row,
        grapheme_clusters(status_bar.text()),
        StatusBarView::style(),
    );
    if engine.mode is Execute {
        FrameView {
            cursor: Position {
                col: saturating_sum(
                    area.position.col,
                    saturating_sum(
                        engine.command_line.area.position.col,
                        engine.command_line.cursor.col,
                    ),
                ),
                row: saturating_difference(bottom, 1),
            },
            buffer: with_status.written(
                engine.command_line.area.position.row,
                grapheme_clusters(engine.command_line.text),
                Style::plain(),
            ),
        }
    } else {
        FrameView { buffer: with_status, ..frame }
    }
}

/// Whether the editor's frame has room in a viewport that covers `area`:
/// the viewport has two rows at least, and the rows of the status bar and,
/// in command-line mode, of the command line are rows of the viewport.
pub open spec fn renderable(engine: EngineView, area: Rect) -> bool {
    &&& area.height >= 2
    &&& saturating_difference(area.bottom_edge() as usize, 2) < area.height
    &&& engine.mode is Execute ==> engine.command_line.area.position.row < area.height
}

/// The viewport after the editor was drawn with `drawn` as the result,
/// when the state machine held `engine` and the viewport `before`.
///
/// Unless hiding the cursor failed or the viewport has less than two rows,
/// the frame is rendered into the current buffer, as far as the buffer has
/// the rows for it. The canvas is asked for the requests of a whole draw up
/// to the first that failed, and for none after a rendering that failed.
/// Only a draw that went well swaps the buffers.
pub open spec fn drawing(engine: EngineView, before: ViewportView, drawn: Result<(), EditorError>)
    -> ViewportView {
    let fresh = FrameView { cursor: Position { col: 0, row: 0 }, buffer: before.current_buffer() };
    let frame = if before.area.height >= 2 {
        rendered_frame(engine, before.area, fresh)
    } else {
        fresh
    };
    match drawn {
        Ok(_) => after_render(before, frame, Ok::<(), DrawError<OutOfBoundsError>>(())),
        Err(EditorError::Render(DrawError::HideCursor(_))) => ViewportView {
            requests: before.requests.push(CanvasRequest::HideCursor),
            ..before
        },
        Err(EditorError::Render(error)) => after_render(before, frame, Err(error)),
        Err(_) => before,
    }
}

/// Whether one turn of the main loop leads from the state machine `engine`
/// and the viewport `viewport` to `after_engine` and `after_viewport` with
/// the result `stepped`, when the event source answered `read`.
///
/// A key press is handled by the state machine and a tick changes nothing;
/// after either the editor is drawn, and the command that is left from the
/// key press is the result unless the drawing failed. An error of the event
/// source, be it the answer or the event, is passed on, and nothing is
/// changed or drawn.
pub open spec fn turn(
    engine: EngineView,
    viewport: ViewportView,
    read: Result<Event, std::io::Error>,
    after_engine: EngineView,
    after_viewport: ViewportView,
    stepped: Result<Option<Command>, EditorError>,
) -> bool {
    let drawn: Result<(), EditorError> = match stepped {
        Ok(_) => Ok(()),
        Err(error) => Err(error),
    };
    let painted = (stepped is Ok || stepped matches Err(EditorError::Render(_)))
        && after_viewport == drawing(after_engine, viewport, drawn);
    match read {
        Ok(Event::Input(key)) => {
            &&& after_engine == engine.after_key(key).0
            &&& stepped matches Ok(command) ==> command_view(command) == engine.after_key(key).1
            &&& painted
        },
        Ok(Event::Tick) => {
            &&& after_engine == engine
            &&& stepped matches Ok(command) ==> command is None
            &&& painted
        },
        Ok(Event::Error(error)) => {
            &&& stepped matches Err(EditorError::Io(passed)) && passed == error
            &&& after_engine == engine
            &&& after_viewport == viewport
        },
        Err(error) => {
            &&& stepped matches Err(EditorError::Io(passed)) && passed == error
            &&& after_engine == engine
            &&& after_viewport == viewport
        },
    }
}

/// Why the editor gave up.
#[derive(Debug)]
pub enum EditorError {
    /// There was an issue communicating with the underlying backend.
    Io(std::io::Error),
    /// The viewport could not be set up.
    Viewport(ViewportError),
    /// There was an issue drawing to the viewport.
    Render(DrawError<OutOfBoundsError>),
    /// There was an issue leaving the screen clean.
    Close(CloseError),
}

impl EditorError {
    /// The message that describes the error.
    pub fn message(&self) -> (text: String)
        ensures
            text@ == match self {
                EditorError::Io(_) => {
                    "there was an issue communicating with the underlying backend"@
                },
                EditorError::Viewport(_) => "there was an issue setting up the viewport"@,
                EditorError::Render(_) => "there was an issue drawing to the viewport"@,
                EditorError::Close(_) => "there was an issue leaving the screen clean"@,
            },
    {
        match self {
            EditorError::Io(_) => {
                "there was an issue communicating with the underlying backend".to_owned()
            },
            EditorError::Viewport(_) => "there was an issue setting up the viewport".to_owned(),
            EditorError::Render(_) => "there was an issue drawing to the viewport".to_owned(),
            EditorError::Close(_) => "there was an issue leaving the screen clean".to_owned(),
        }
    }
}

/// The main application state.
pub struct Editor<'a, E: EventLoop, C: Canvas> {
    command_line: CommandLine,
    event_loop: E,
    mode: Mode,
    should_quit: bool,
    viewport: Viewport<'a, C>,
    answers: Ghost<Seq<Result<Event, std::io::Error>>>,
}

impl<'a, E: EventLoop, C: Canvas> Editor<'a, E, C> {
    /// Every answer that the event source has given to the editor so far,
    /// in the order in which they came.
    pub closed spec fn answers(&self) -> Seq<Result<Event, std::io::Error>> {
        self.answers@
    }

    /// The state of the editor's state machine.
    pub closed spec fn engine(&self) -> EngineView {
        EngineView {
            mode: self.mode@,
            command_line: self.command_line@,
            should_quit: self.should_quit,
        }
    }

    /// What the editor's viewport holds.
    pub closed spec fn viewport_view(&self) -> ViewportView {
        self.viewport@
    }

    /// Whether the editor's invariant holds: its viewport is well formed.
    pub open spec fn wf(&self) -> bool {
        self.viewport_view().wf()
    }

    /// The area of the one row at offset `from_bottom` above the last row of `area`.
    pub open spec fn row_area(area: Rect, from_bottom: usize) -> Rect {
        Rect {
            width: area.width,
            height: 1,
            position: Position {
                col: 0,
                row: if area.bottom_edge() > from_bottom {
                    (area.bottom_edge() - from_bottom - 1) as usize
                } else {
                    0
                },
            },
        }
    }

    /// Create a new Editor: in normal mode, with the command line in the
    /// last row of the canvas.
    pub fn new(event_loop: E, canvas: &'a mut C) -> (editor: Result<Self, EditorError>)
        ensures
            editor matches Ok(editor) ==> {
                &&& editor.wf()
                &&& editor.engine() == EngineView::initial(
                    Self::row_area(editor.viewport_view().area, 0),
                )
                &&& editor.viewport_view() == ViewportView::initial(editor.viewport_view().area)
                &&& editor.answers().len() == 0
            },
            editor matches Err(error) ==> error is Viewport,
    {
        match Viewport::new(canvas) {
            Ok(viewport) => Ok(Self::with_viewport(event_loop, viewport)),
            Err(error) => Err(EditorError::Viewport(error)),
        }
    }

    /// Create a new Editor that draws to `viewport`: in normal mode, with the
    /// command line in the last row of the viewport.
    pub fn with_viewport(event_loop: E, viewport: Viewport<'a, C>) -> (editor: Self)
        requires
            viewport.wf(),
        ensures
            editor.wf(),
            editor.engine() == EngineView::initial(Self::row_area(viewport@.area, 0)),
            editor.viewport_view() == viewport@,
            editor.answers().len() == 0,
    {
        let area = viewport.area();
        let row = area.bottom().saturating_sub(1);
        Self {
            command_line: CommandLine::new(Rect::positioned(area.width, 1, 0, row)),
            event_loop,
            mode: Mode::default(),
            should_quit: false,
            viewport,
            answers: Ghost(Seq::empty()),
        }
    }

    /// Whether the run is over.
    pub fn should_quit(&self) -> (over: bool)
        ensures
            over == self.engine().should_quit,
    {
        self.should_quit
    }

    /// The active mode.
    pub fn mode(&self) -> (mode: &Mode)
        ensures
            mode@ == self.engine().mode,
    {
        &self.mode
    }

    /// The command line.
    pub fn command_line(&self) -> (command_line: &CommandLine)
        ensures
            command_line@ == self.engine().command_line,
    {
        &self.command_line
    }

    /// Take a key press: hand it to the active mode and handle the command
    /// that the mode answers with. The result is the command that is left
    /// for the owner of the document, if any.
    pub fn handle_key(&mut self, key: Key) -> (command: Option<Command>)
        ensures
            (final(self).engine(), command_view(command)) == old(self).engine().after_key(key),
            final(self).viewport_view() == old(self).viewport_view(),
            final(self).answers() == old(self).answers(),
    {
        match self.mode.handle(key) {
            Some(command) => self.handle_command(command),
            None => None,
        }
    }

    /// Handle a command. The result is the command that is left for the
    /// owner of the document, if any.
    pub fn handle_command(&mut self, command: Command) -> (passed_on: Option<Command>)
        ensures
            (final(self).engine(), command_view(passed_on)) == old(self).engine().after_command(
                command@,
            ),
            final(self).viewport_view() == old(self).viewport_view(),
            final(self).answers() == old(self).answers(),
    {
        match command {
            Command::Quit => {
                self.should_quit = true;
                Some(Command::Quit)
            },
            Command::EnterMode(mode) => {
                self.mode = mode.clone();
                Some(Command::EnterMode(mode))
            },
            command => {
                if let Descriptor::Command = self.mode.descriptor() {
                    let answer = self.command_line.execute_command(command);
                    self.handle_answer(answer)
                } else {
                    Some(command)
                }
            },
        }
    }

    /// Handle what the command line answered with.
    fn handle_answer(&mut self, answer: Option<Command>) -> (passed_on: Option<Command>)
        ensures
            (final(self).engine(), command_view(passed_on)) == old(self).engine().after_answer(
                command_view(answer),
            ),
            final(self).viewport_view() == old(self).viewport_view(),
            final(self).answers() == old(self).answers(),
    {
        match answer {
            Some(Command::ParseCommandLineInput(input)) => {
                let parsed = execute_mode::command_for_input(input.as_str());
                self.mode = Mode::Normal(NormalMode::default());
                match parsed {
                    Some(Command::Quit) => {
                        self.should_quit = true;
                        Some(Command::Quit)
                    },
                    Some(command) => Some(command),
                    None => Some(Command::CommandLineInputNotRecognised(input)),
                }
            },
            Some(Command::EnterMode(mode)) => {
                self.mode = mode.clone();
                Some(Command::EnterMode(mode))
            },
            Some(Command::Quit) => {
                self.should_quit = true;
                Some(Command::Quit)
            },
            other => other,
        }
    }

    /// Handle an event: a key press is taken as by `handle_key`, a tick
    /// changes nothing, and an error of the event source is returned.
    pub fn handle_event(&mut self, event: Event) -> (handled: Result<Option<Command>, EditorError>)
        ensures
            final(self).viewport_view() == old(self).viewport_view(),
            final(self).answers() == old(self).answers(),
            match event {
                Event::Input(key) => handled matches Ok(command) && (
                    final(self).engine(),
                    command_view(command),
                ) == old(self).engine().after_key(key),
                Event::Tick => handled matches Ok(None) && final(self).engine() == old(
                    self,
                ).engine(),
                Event::Error(error) => handled matches Err(EditorError::Io(passed)) && passed
                    == error && final(self).engine() == old(self).engine(),
            },
    {
        match event {
            Event::Input(key) => Ok(self.handle_key(key)),
            Event::Tick => Ok(None),
            Event::Error(error) => Err(EditorError::Io(error)),
        }
    }

    /// Draw the editor: the status bar in the last row but one and, in
    /// command-line mode, the command line in its row with the cursor behind
    /// what was typed. A viewport that has no room for that is an error of
    /// the rendering and nothing is sent to the canvas but the request to
    /// hide the cursor. The state machine is untouched; the buffers are
    /// swapped by a draw that went well and by no other.
    pub fn draw(&mut self) -> (drawn: Result<(), EditorError>)
        requires
            old(self).wf(),
        ensures
            final(self).wf(),
            final(self).engine() == old(self).engine(),
            final(self).answers() == old(self).answers(),
            final(self).viewport_view() == drawing(
                old(self).engine(),
                old(self).viewport_view(),
                drawn,
            ),
            drawn matches Err(error) ==> error is Render,
            !renderable(old(self).engine(), old(self).viewport_view().area) ==> drawn matches Err(
                EditorError::Render(DrawError::HideCursor(_)),
            ) || drawn matches Err(EditorError::Render(DrawError::Render(_))),
            renderable(old(self).engine(), old(self).viewport_view().area) ==> !(drawn matches Err(
                EditorError::Render(DrawError::Render(_)),
            )),
    {
        let area = self.viewport.area();
        let descriptor = self.mode.descriptor();
        let command_line = &self.command_line;
        let ghost engine = self.engine();
        let ghost before = self.viewport@;
        let roomy = area.height >= 2;
        let bottom = area.bottom();
        let drawn = self.viewport.draw(
            |frame: &mut Frame| -> (rendered: Result<(), OutOfBoundsError>)
                requires
                    (*old(frame)).wf(),
                ensures
                    (*final(frame)).wf(),
                    (*final(frame))@.buffer.area == (*old(frame))@.buffer.area,
                    (*old(frame))@.buffer.area == area ==> rendered.is_ok() == renderable(
                        engine,
                        area,
                    ),
                    roomy ==> (*final(frame))@ == rendered_frame(engine, area, (*old(frame))@),
                    !roomy ==> (*final(frame))@ == (*old(frame))@
                {
                    if !roomy {
                        return Err(OutOfBoundsError);
                    }
                    let mut status_bar = StatusBar::new(
                        Rect::positioned(area.width, 1, 0, bottom.saturating_sub(2)),
                    );
                    status_bar.update(descriptor, 0, Position::new(0, 0), "");
                    let mut rendered = status_bar.render(frame.buffer_mut());
                    if let Descriptor::Command = descriptor {
                        frame.set_cursor_position(
                            Position::new(
                                area.position.col.saturating_add(command_line.cursor_position().col),
                                bottom.saturating_sub(1),
                            ),
                        );
                        let line = command_line.render(frame.buffer_mut());
                        if rendered.is_ok() {
                            rendered = line;
                        }
                    }
                    rendered
                },
        );
        match drawn {
            Ok(_) => Ok(()),
            Err(error) => Err(EditorError::Render(error)),
        }
    }

    /// One turn of the main loop: ask the event source for the next event
    /// once, handle its answer, and draw. The result is the command that is
    /// left for the owner of the document, if any. The answer is the last
    /// of the editor's answers afterwards, and what the turn does is what
    /// `turn` says of it.
    pub fn step(&mut self) -> (stepped: Result<Option<Command>, EditorError>)
        requires
            old(self).wf(),
        ensures
            final(self).wf(),
            final(self).viewport_view().area == old(self).viewport_view().area,
            final(self).answers().len() == old(self).answers().len() + 1,
            final(self).answers().drop_last() == old(self).answers(),
            turn(
                old(self).engine(),
                old(self).viewport_view(),
                final(self).answers().last(),
                final(self).engine(),
                final(self).viewport_view(),
                stepped,
            ),
    {
        let read = self.event_loop.read_event();
        let ghost answer = read;
        let stepped = self.advance(read);
        self.answers = Ghost(self.answers@.push(answer));
        assert(self.answers().drop_last() =~= old(self).answers());
        stepped
    }

    /// One turn of the main loop, from what the event source answered: an
    /// event is handled and the editor is drawn, and an error of the event
    /// source, be it the answer or the event, is returned before anything
    /// is changed or drawn.
    pub fn advance(&mut self, read: Result<Event, std::io::Error>) -> (stepped: Result<
        Option<Command>,
        EditorError,
    >)
        requires
            old(self).wf(),
        ensures
            final(self).wf(),
            final(self).viewport_view().area == old(self).viewport_view().area,
            final(self).answers() == old(self).answers(),
            turn(
                old(self).engine(),
                old(self).viewport_view(),
                read,
                final(self).engine(),
                final(self).viewport_view(),
                stepped,
            ),
            stepped matches Err(EditorError::Render(_)) ==> final(self).viewport_view().current
                == old(self).viewport_view().current && final(self).viewport_view().previous_buffer()
                == old(self).viewport_view().previous_buffer(),
            stepped is Ok ==> final(self).viewport_view().current == 1 - old(
                self,
            ).viewport_view().current && final(self).viewport_view().current_buffer() == old(
                self,
            ).viewport_view().previous_buffer().erased(),
    {
        let event = match read {
            Ok(event) => event,
            Err(error) => {
                return Err(EditorError::Io(error));
            },
        };
        let command = match self.handle_event(event) {
            Ok(command) => command,
            Err(error) => {
                return Err(error);
            },
        };
        match self.draw() {
            Ok(_) => Ok(command),
            Err(error) => Err(error),
        }
    }

    /// End the editor: leave the screen clean by asking the canvas to clear
    /// and then to flush. The first failure ends the closing and is
    /// returned with the request that failed. The state machine and the
    /// buffers are not touched.
    pub fn close(&mut self) -> (closed: Result<(), EditorError>)
        ensures
            final(self).engine() == old(self).engine(),
            final(self).answers() == old(self).answers(),
            closed is Ok ==> final(self).viewport_view() == old(self).viewport_view().closed(
                Ok(()),
            ),
            closed matches Err(error) ==> error matches EditorError::Close(failure) && final(self).viewport_view() == old(self).viewport_view().closed(Err(failure)),
    {
        match self.viewport.close() {
            Ok(_) => Ok(()),
            Err(error) => Err(EditorError::Close(error)),
        }
    }
}

/// From normal mode with nothing pending, `:` changes to command-line mode:
/// the editor passes that change on and is in command-line mode afterwards.
pub proof fn lemma_colon_enters_command_line(state: EngineView)
    requires
        state.mode == ModeView::fresh_normal(),
    ensures
        state.after_key(Key::Char(':')) == (
            EngineView { mode: ModeView::fresh_execute(), ..state },
            Some(CommandView::EnterMode(ModeView::fresh_execute())),
        ),
{
    assert(Seq::<char>::empty().push(':') =~= seq![':']);
}

/// From insert mode, Esc changes to normal mode, and the normal mode that is
/// entered has nothing pending.
pub proof fn lemma_escape_leaves_insert_mode(state: EngineView)
    requires
        state.mode is Insert,
    ensures
        state.after_key(Key::Esc) == (
            EngineView { mode: ModeView::fresh_normal(), ..state },
            Some(CommandView::EnterMode(ModeView::fresh_normal())),
        ),
        state.after_key(Key::Esc).0.mode == (ModeView::Normal { pending: Seq::empty() }),
{
}

/// In command-line mode, Enter always leads back to normal mode with a fresh
/// prompt: the input is passed on as the command it spells, or reported as
/// not recognised, and a quit among them ends the run.
pub proof fn lemma_enter_ends_command_line_input(state: EngineView)
    requires
        state.mode is Execute,
    ensures
        state.after_key(Key::Enter).0.mode == ModeView::fresh_normal(),
        state.after_key(Key::Enter).0.command_line == state.command_line.reset(),
        state.after_key(Key::Enter).1 == Some(
            match execute_mode::command_line_meaning(state.command_line.text) {
                Some(command) => command,
                None => CommandView::CommandLineInputNotRecognised(state.command_line.text),
            },
        ),
        state.after_key(Key::Enter).0.should_quit == (state.should_quit
            || execute_mode::command_line_meaning(state.command_line.text) == Some(
            CommandView::Quit,
        )),
{
}

/// In command-line mode, Esc gives the input up: the prompt is fresh again
/// and the editor is back in normal mode.
pub proof fn lemma_escape_aborts_command_line_input(state: EngineView)
    requires
        state.mode is Execute,
    ensures
        state.after_key(Key::Esc) == (
            EngineView {
                mode: ModeView::fresh_normal(),
                command_line: state.command_line.reset(),
                ..state
            },
            Some(CommandView::EnterMode(ModeView::fresh_normal())),
        ),
{
}

/// A key press yields at most one command, and the run is only ever ended
/// by a quit that is passed on.
pub proof fn lemma_only_quit_ends_the_run(state: EngineView, key: Key)
    requires
        !state.should_quit,
    ensures
        state.after_key(key).0.should_quit <==> state.after_key(key).1 == Some(CommandView::Quit),
{
}

} // verus!
