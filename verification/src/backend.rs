//! What the editor asks of its surroundings: a canvas to draw on and a
//! source of events. Both are implemented outside of this library.

use crate::cell::{Cell, CellView};
use crate::key::Key;
use crate::layout::Rect;
use vstd::prelude::*;

verus! {

/// The standard library's `std::io::Error`, the error of canvases and event
/// loops. The library looks at no such value: it only passes them on.
#[verifier::external_type_specification]
#[verifier::external_body]
pub struct ExIoError(std::io::Error);

/// Events are dispatched from the backend to allow the application to handle input.
#[derive(Debug)]
pub enum Event {
    /// Input was received from the backend.
    Input(Key),
    /// No input received, do something else for now.
    Tick,
    /// An error occurred reading events.
    Error(std::io::Error),
}

/// EventLoop handles the dispatching of input within the application. When no input is ready,
/// the Tick event should be triggered to allow the application to do other work.
pub trait EventLoop {
    /// Read and wait for the next event.
    fn read_event(&mut self) -> Result<Event, std::io::Error>;
}

/// Canvas is an interface to the ui. It could be the terminal or web ui.
///
/// Nothing is assumed of an implementation: every operation may fail, and
/// the library only relies on what it handed over, never on what came of it.
pub trait Canvas {
    /// Clear the ui.
    fn clear(&mut self) -> Result<(), std::io::Error>;

    /// Draw the given cells in the ui's current buffer.
    fn draw(&mut self, cells: &[&Cell]) -> Result<(), std::io::Error>;

    /// Flush the ui's current buffer.
    fn flush(&mut self) -> Result<(), std::io::Error>;

    /// Hide the cursor.
    fn hide_cursor(&mut self) -> Result<(), std::io::Error>;

    /// Position the cursor at the given row and column.
    fn position_cursor(&mut self, row: usize, col: usize) -> Result<(), std::io::Error>;

    /// Show the cursor.
    fn show_cursor(&mut self) -> Result<(), std::io::Error>;

    /// Get the size of the ui.
    fn size(&self) -> Result<Rect, std::io::Error>;
}

/// One request made of a canvas, with what was handed over.
pub ghost enum CanvasRequest {
    Clear,
    Draw(Seq<CellView>),
    Flush,
    HideCursor,
    PositionCursor { row: usize, col: usize },
    ShowCursor,
    Size,
}

} // verus!
