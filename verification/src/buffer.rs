//! The editing buffer: a document with a cursor in it and a window on it.

use crate::command::{Command, CommandView};
use crate::component::Component;
use crate::document::{Document, DocumentText, InsertError};
use crate::document_view::{draw_window, window_drawn};
use crate::frame::{FrameBuffer, OutOfBoundsError};
use crate::layout::{saturating_difference, saturating_sum, Position, Rect};
use crate::row::cluster_count;
use vstd::prelude::*;

verus! {

/// The ways in which the cursor moves through a document.
#[derive(Debug, Clone, Copy, PartialEq, Eq, Structural)]
pub enum Motion {
    Up,
    Down,
    Left,
    Right,
    PageUp,
    PageDown,
    LineStart,
    LineEnd,
    Stay,
}

/// What is left for the owner of the buffer to do after a command.
#[derive(Debug, Clone, Copy, PartialEq, Eq, Structural)]
pub enum Effect {
    /// Nothing.
    Nothing,
    /// The document is to be stored.
    Save,
}

/// The motion that `command` asks for, and how many times.
pub open spec fn motion_of(command: CommandView) -> (Motion, usize) {
    match command {
        CommandView::MoveCursorUp(n) => (Motion::Up, n),
        CommandView::MoveCursorDown(n) => (Motion::Down, n),
        CommandView::MoveCursorLeft(n) => (Motion::Left, n),
        CommandView::MoveCursorRight(n) => (Motion::Right, n),
        CommandView::MoveCursorPageUp => (Motion::PageUp, 1),
        CommandView::MoveCursorPageDown => (Motion::PageDown, 1),
        CommandView::MoveCursorLineStart => (Motion::LineStart, 1),
        CommandView::MoveCursorLineEnd => (Motion::LineEnd, 1),
        _ => (Motion::Stay, 1),
    }
}

/// What an editing buffer holds: the document, the part of the screen it is
/// shown in, the cursor in the document and the offset of the window.
pub ghost struct BufferView {
    pub document: DocumentText,
    pub viewport: Rect,
    pub cursor: Position,
    pub offset: Position,
}

impl BufferView {
    /// The number of clusters in row `row`, or zero where there is no such row.
    pub open spec fn width_of(self, row: usize) -> usize {
        if row < self.document.rows.len() {
            cluster_count(self.document.rows[row as int]) as usize
        } else {
            0
        }
    }

    /// The number of rows that a page holds: the viewport's height without
    /// the two rows of status bar and command line.
    pub open spec fn page(self) -> usize {
        saturating_difference(self.viewport.height, 2)
    }

    /// Where one step of `motion` leads from the cursor, before the column
    /// is held to the width of the row.
    pub open spec fn target(self, motion: Motion) -> Position {
        let col = self.cursor.col;
        let row = self.cursor.row;
        let height = self.document.rows.len();
        let width = self.width_of(row);
        match motion {
            Motion::Up => Position { col, row: saturating_difference(row, 1) },
            Motion::Down => if row < height {
                Position { col, row: saturating_sum(row, 1) }
            } else {
                self.cursor
            },
            Motion::Left => if col > 0 {
                Position { col: (col - 1) as usize, row }
            } else if row > 0 {
                Position { col: width, row: (row - 1) as usize }
            } else {
                self.cursor
            },
            Motion::Right => if col < width {
                Position { col: (col + 1) as usize, row }
            } else if row < height {
                Position { col: 0, row: saturating_sum(row, 1) }
            } else {
                self.cursor
            },
            Motion::PageUp => Position { col, row: saturating_difference(row, self.page()) },
            Motion::PageDown => if saturating_sum(row, self.page()) < height {
                Position { col, row: saturating_sum(row, self.page()) }
            } else {
                Position { col, row: height as usize }
            },
            Motion::LineStart => Position { col: 0, row },
            Motion::LineEnd => Position { col: width, row },
            Motion::Stay => self.cursor,
        }
    }

    /// The buffer after one step of `motion`: the cursor is at the target,
    /// its column held to the width of the row it came to.
    pub open spec fn step(self, motion: Motion) -> BufferView {
        let target = self.target(motion);
        let width = self.width_of(target.row);
        BufferView {
            cursor: Position {
                col: if target.col > width {
                    width
                } else {
                    target.col
                },
                row: target.row,
            },
            ..self
        }
    }

    /// The buffer after `count` steps of `motion`.
    pub open spec fn steps(self, motion: Motion, count: nat) -> BufferView
        decreases count,
    {
        if count == 0 {
            self
        } else {
            self.step(motion).steps(motion, (count - 1) as nat)
        }
    }

    /// The buffer after the cursor was moved as `command` asks.
    pub open spec fn moved(self, command: CommandView) -> BufferView {
        self.steps(motion_of(command).0, motion_of(command).1 as nat)
    }

    /// The buffer after its window followed the cursor.
    pub open spec fn scrolled(self) -> BufferView {
        let col = self.cursor.col;
        let row = self.cursor.row;
        let offset_row = if row < self.offset.row {
            row
        } else if row >= saturating_sum(self.offset.row, self.page()) {
            saturating_sum(saturating_difference(row, self.page()), 1)
        } else {
            self.offset.row
        };
        let offset_col = if col < self.offset.col {
            col
        } else if col >= saturating_sum(self.offset.col, self.viewport.width) {
            saturating_sum(saturating_sum(col, self.viewport.width), 1)
        } else {
            self.offset.col
        };
        BufferView { offset: Position { col: offset_col, row: offset_row }, ..self }
    }

    /// The buffer with `document` in place of its document.
    pub open spec fn with_document(self, document: DocumentText) -> BufferView {
        BufferView { document, ..self }
    }

    /// The buffer after `command` was processed, and what is left to do.
    /// Editing commands change the document at the cursor and move the
    /// cursor along, any other command moves the cursor, and in the end the
    /// window follows the cursor. An insertion below the row after the last
    /// is an error and changes nothing.
    pub open spec fn processed(self, command: CommandView) -> (
        BufferView,
        Result<Effect, InsertError>,
    ) {
        match command {
            CommandView::InsertChar(ch) => if self.cursor.row > self.document.rows.len() {
                (self, Err(InsertError))
            } else {
                (
                    self.with_document(self.document.inserted(self.cursor, ch)).steps(
                        Motion::Right,
                        1,
                    ).scrolled(),
                    Ok(Effect::Nothing),
                )
            },
            CommandView::InsertLineBreak => (
                self.with_document(self.document.broken(self.cursor)).steps(Motion::Down, 1).steps(
                    Motion::LineStart,
                    1,
                ).scrolled(),
                Ok(Effect::Nothing),
            ),
            CommandView::DeleteCharForward => (
                self.with_document(self.document.deleted(self.cursor)).scrolled(),
                Ok(Effect::Nothing),
            ),
            CommandView::DeleteCharBackward => if self.cursor.col > 0 || self.cursor.row > 0 {
                let left = self.steps(Motion::Left, 1);
                (
                    left.with_document(left.document.deleted(left.cursor)).scrolled(),
                    Ok(Effect::Nothing),
                )
            } else {
                (self.scrolled(), Ok(Effect::Nothing))
            },
            CommandView::Save => (self.scrolled(), Ok(Effect::Save)),
            _ => (self.moved(command).scrolled(), Ok(Effect::Nothing)),
        }
    }
}

/// A step that leads nowhere leads nowhere however often it is taken.
pub proof fn lemma_steps_at_rest(buffer: BufferView, motion: Motion, count: nat)
    requires
        buffer.step(motion) == buffer,
    ensures
        buffer.steps(motion, count) == buffer,
    decreases count,
{
    if count > 0 {
        lemma_steps_at_rest(buffer, motion, (count - 1) as nat);
    }
}

/// Steps can be counted from either end: one more step after `count` steps
/// is `count + 1` steps.
pub proof fn lemma_steps_then_step(buffer: BufferView, motion: Motion, count: nat)
    ensures
        buffer.steps(motion, count).step(motion) == buffer.steps(motion, count + 1),
    decreases count,
{
    if count > 0 {
        lemma_steps_then_step(buffer.step(motion), motion, (count - 1) as nat);
        assert(buffer.steps(motion, count) == buffer.step(motion).steps(
            motion,
            (count - 1) as nat,
        ));
        assert(buffer.steps(motion, count + 1) == buffer.step(motion).steps(motion, count));
    } else {
        assert(buffer.steps(motion, 1) == buffer.step(motion).steps(motion, 0));
    }
}

/// The motion that `command` asks for, and how many times.
pub fn motion_for(command: &Command) -> (motion: (Motion, usize))
    ensures
        motion == motion_of(command@),
{
    match command {
        Command::MoveCursorUp(n) => (Motion::Up, *n),
        Command::MoveCursorDown(n) => (Motion::Down, *n),
        Command::MoveCursorLeft(n) => (Motion::Left, *n),
        Command::MoveCursorRight(n) => (Motion::Right, *n),
        Command::MoveCursorPageUp => (Motion::PageUp, 1),
        Command::MoveCursorPageDown => (Motion::PageDown, 1),
        Command::MoveCursorLineStart => (Motion::LineStart, 1),
        Command::MoveCursorLineEnd => (Motion::LineEnd, 1),
        _ => (Motion::Stay, 1),
    }
}

/// A document with a cursor in it, shown through a window.
#[derive(Debug)]
pub struct Buffer {
    document: Document,
    viewport: Rect,
    cursor_position: Position,
    offset: Position,
}

impl View for Buffer {
    type V = BufferView;

    closed spec fn view(&self) -> BufferView {
        BufferView {
            document: self.document@,
            viewport: self.viewport,
            cursor: self.cursor_position,
            offset: self.offset,
        }
    }
}

impl Buffer {
    /// Create a buffer for `document` that is shown in `viewport`, with the
    /// cursor and the window at the start of the document.
    pub fn new(document: Document, viewport: Rect) -> (buffer: Self)
        ensures
            buffer@ == (BufferView {
                document: document@,
                viewport,
                cursor: Position { col: 0, row: 0 },
                offset: Position { col: 0, row: 0 },
            }),
    {
        Self {
            document,
            viewport,
            cursor_position: Position::new(0, 0),
            offset: Position::new(0, 0),
        }
    }

    /// The name of the document's file, or `[No Name]` where it has none.
    pub fn document_name(&self) -> (name: String)
        ensures
            name@ == match self@.document.file_name {
                Some(name) => name,
                None => "[No Name]"@,
            },
    {
        match self.document.file_name() {
            Some(name) => name.clone(),
            None => "[No Name]".to_owned(),
        }
    }

    /// Where the cursor is in the window.
    pub fn cursor_position(&self) -> (position: Position)
        ensures
            position == (Position {
                col: saturating_difference(self@.cursor.col, self@.offset.col),
                row: saturating_difference(self@.cursor.row, self@.offset.row),
            }),
    {
        Position::new(
            self.cursor_position.col.saturating_sub(self.offset.col),
            self.cursor_position.row.saturating_sub(self.offset.row),
        )
    }

    /// The number of rows in the document.
    pub fn lines_in_document(&self) -> (lines: usize)
        ensures
            lines == self@.document.rows.len(),
    {
        self.document.len()
    }

    /// The document.
    pub fn document(&self) -> (document: &Document)
        ensures
            document@ == self@.document,
    {
        &self.document
    }

    /// The number of clusters in row `row`, or zero where there is no such row.
    fn width_of(&self, row: usize) -> (width: usize)
        ensures
            width == self@.width_of(row),
    {
        match self.document.row(row) {
            Some(row) => row.len(),
            None => 0,
        }
    }

    /// Take one step of `motion` with the cursor.
    fn step(&mut self, motion: Motion)
        ensures
            final(self)@ == old(self)@.step(motion),
    {
        let col = self.cursor_position.col;
        let row = self.cursor_position.row;
        let height = self.document.len();
        let width = self.width_of(row);
        let page = self.viewport.height.saturating_sub(2);
        let target = match motion {
            Motion::Up => Position::new(col, row.saturating_sub(1)),
            Motion::Down => if row < height {
                Position::new(col, row.saturating_add(1))
            } else {
                Position::new(col, row)
            },
            Motion::Left => if col > 0 {
                Position::new(col - 1, row)
            } else if row > 0 {
                Position::new(width, row - 1)
            } else {
                Position::new(col, row)
            },
            Motion::Right => if col < width {
                Position::new(col + 1, row)
            } else if row < height {
                Position::new(0, row.saturating_add(1))
            } else {
                Position::new(col, row)
            },
            Motion::PageUp => Position::new(col, row.saturating_sub(page)),
            Motion::PageDown => if row.saturating_add(page) < height {
                Position::new(col, row.saturating_add(page))
            } else {
                Position::new(col, height)
            },
            Motion::LineStart => Position::new(0, row),
            Motion::LineEnd => Position::new(width, row),
            Motion::Stay => Position::new(col, row),
        };
        let new_width = self.width_of(target.row);
        self.cursor_position = Position::new(
            if target.col > new_width {
                new_width
            } else {
                target.col
            },
            target.row,
        );
    }

    /// Move the cursor as `command` asks: as many steps of its motion as it
    /// counts. A command that is no movement only holds the cursor's column
    /// to the width of its row.
    pub fn move_cursor(&mut self, command: &Command)
        ensures
            final(self)@ == old(self)@.moved(command@),
    {
        let (motion, count) = motion_for(command);
        let mut taken: usize = 0;
        while taken < count
            invariant
                taken <= count,
                (motion, count) == motion_of(command@),
                self@ == old(self)@.steps(motion, taken as nat),
            decreases count - taken,
        {
            let before = self.cursor_position;
            let ghost resting = self@;
            self.step(motion);
            proof {
                lemma_steps_then_step(old(self)@, motion, taken as nat);
            }
            taken += 1;
            if self.cursor_position == before {
                proof {
                    assert(self@ == resting);
                    lemma_steps_at_rest(resting, motion, (count - taken) as nat);
                    lemma_steps_split(old(self)@, motion, taken as nat, (count - taken) as nat);
                }
                return ;
            }
        }
    }

    /// Let the window follow the cursor.
    pub fn scroll(&mut self)
        ensures
            final(self)@ == old(self)@.scrolled(),
    {
        let col = self.cursor_position.col;
        let row = self.cursor_position.row;
        let width = self.viewport.width;
        let page = self.viewport.height.saturating_sub(2);
        let offset_row = if row < self.offset.row {
            row
        } else if row >= self.offset.row.saturating_add(page) {
            row.saturating_sub(page).saturating_add(1)
        } else {
            self.offset.row
        };
        let offset_col = if col < self.offset.col {
            col
        } else if col >= self.offset.col.saturating_add(width) {
            col.saturating_add(width).saturating_add(1)
        } else {
            self.offset.col
        };
        self.offset = Position::new(offset_col, offset_row);
    }

    /// Process `command`: edit the document at the cursor, or move the
    /// cursor, and let the window follow. The answer tells what is left to
    /// do for the owner of the buffer, who alone can store the document.
    pub fn proccess_command(&mut self, command: Command) -> (done: Result<Effect, InsertError>)
        ensures
            (final(self)@, done) == old(self)@.processed(command@),
    {
        let mut effect = Effect::Nothing;
        match command {
            Command::InsertChar(ch) => {
                let at = self.cursor_position;
                match self.document.insert(&at, ch) {
                    Ok(_) => {},
                    Err(error) => {
                        return Err(error);
                    },
                }
                self.move_cursor(&Command::MoveCursorRight(1));
            },
            Command::InsertLineBreak => {
                let at = self.cursor_position;
                self.document.insert_newline(&at);
                self.move_cursor(&Command::MoveCursorDown(1));
                self.move_cursor(&Command::MoveCursorLineStart);
            },
            Command::DeleteCharForward => {
                let at = self.cursor_position;
                self.document.delete(&at);
            },
            Command::DeleteCharBackward => {
                if self.cursor_position.col > 0 || self.cursor_position.row > 0 {
                    self.move_cursor(&Command::MoveCursorLeft(1));
                    let at = self.cursor_position;
                    self.document.delete(&at);
                }
            },
            Command::Save => {
                effect = Effect::Save;
            },
            command => {
                self.move_cursor(&command);
            },
        }
        self.scroll();
        Ok(effect)
    }
}

/// Steps add up: `first` steps and then `second` steps are `first + second` steps.
pub proof fn lemma_steps_split(buffer: BufferView, motion: Motion, first: nat, second: nat)
    ensures
        buffer.steps(motion, first).steps(motion, second) == buffer.steps(motion, first + second),
    decreases first,
{
    if first > 0 {
        lemma_steps_split(buffer.step(motion), motion, (first - 1) as nat, second);
        assert(buffer.steps(motion, first) == buffer.step(motion).steps(
            motion,
            (first - 1) as nat,
        ));
        assert(buffer.steps(motion, first + second) == buffer.step(motion).steps(
            motion,
            (first - 1 + second) as nat,
        ));
    }
}

impl Component for Buffer {
    /// Draw the rows of the document that show through the window, one for
    /// each row of the viewport, and `~` where the document has ended. Where
    /// the buffer has fewer rows than the viewport, those rows are drawn and
    /// the buffer's error is returned.
    fn render(&self, buffer: &mut FrameBuffer) -> (rendered: Result<(), OutOfBoundsError>)
        ensures
            rendered.is_ok() == (self@.viewport.height <= old(buffer)@.area.height),
            final(buffer)@ == window_drawn(
                self@.document,
                self@.offset,
                self@.viewport.width,
                old(buffer)@,
                self@.viewport.height as nat,
            ),
    {
        draw_window(
            &self.document,
            self.offset,
            self.viewport.width,
            self.viewport.height,
            buffer,
        )
    }
}

} // verus!
