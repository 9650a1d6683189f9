//! Showing a document through a window.

use crate::component::Component;
use crate::document::{Document, DocumentText};
use crate::frame::{FrameBuffer, FrameBufferView, OutOfBoundsError};
use crate::layout::{saturating_sum, Position};
use crate::row::window;
use crate::segmentation::{grapheme_clusters, shown};
use crate::style::Style;
use vstd::prelude::*;

verus! {

/// The text of `row` as it shows through a window of `width` columns that
/// starts at column `from`.
pub open spec fn row_shown(row: Seq<char>, from: usize, width: usize) -> Seq<char> {
    let to = saturating_sum(from, width) as int;
    shown(grapheme_clusters(row), window(row, from as int, to).0, window(row, from as int, to).1)
}

/// The frame buffer after the first `count` rows of a window on `document`
/// were drawn into `buffer`. The window is `width` columns wide and starts at
/// `offset`. Each row of the document is drawn as it shows through the
/// window, and `~` where the document has ended. Rows that the buffer does
/// not have are not drawn.
pub open spec fn window_drawn(
    document: DocumentText,
    offset: Position,
    width: usize,
    buffer: FrameBufferView,
    count: nat,
) -> FrameBufferView
    decreases count,
{
    if count == 0 {
        buffer
    } else {
        let line = (count - 1) as nat;
        let earlier = window_drawn(document, offset, width, buffer, line);
        if line >= earlier.area.height {
            earlier
        } else if line + offset.row < document.rows.len() {
            earlier.with_line(
                line as int,
                grapheme_clusters(row_shown(document.rows[line + offset.row], offset.col, width)),
                Style::plain(),
            )
        } else {
            earlier.with_line(line as int, grapheme_clusters("~"@), Style::plain())
        }
    }
}

/// Drawing rows leaves the buffer covering its area, and the rows that the
/// buffer does not have change nothing: what is drawn with `count` rows is
/// drawn with as many rows as the buffer has.
pub proof fn lemma_window_drawn_within(
    document: DocumentText,
    offset: Position,
    width: usize,
    buffer: FrameBufferView,
    count: nat,
)
    ensures
        window_drawn(document, offset, width, buffer, count).area == buffer.area,
        count >= buffer.area.height ==> window_drawn(document, offset, width, buffer, count)
            == window_drawn(document, offset, width, buffer, buffer.area.height as nat),
    decreases count,
{
    if count > 0 {
        lemma_window_drawn_within(document, offset, width, buffer, (count - 1) as nat);
    }
}

/// Draw the first `height` rows of a window on `document` into `buffer`. The
/// window is `width` columns wide and starts at `offset`. The rows that the
/// buffer has are drawn; where it has not all of them, its error is
/// returned.
pub fn draw_window(
    document: &Document,
    offset: Position,
    width: usize,
    height: usize,
    buffer: &mut FrameBuffer,
) -> (drawn: Result<(), OutOfBoundsError>)
    requires
        old(buffer).wf(),
    ensures
        final(buffer).wf(),
        final(buffer)@.area == old(buffer)@.area,
        drawn.is_ok() == (height <= old(buffer)@.area.height),
        final(buffer)@ == window_drawn(document@, offset, width, old(buffer)@, height as nat),
{
    let rows = document.len();
    let mut terminal_row: usize = 0;
    while terminal_row < height
        invariant
            terminal_row <= height,
            terminal_row <= buffer@.area.height,
            rows == document@.rows.len(),
            buffer.wf(),
            buffer@.area == old(buffer)@.area,
            buffer@ == window_drawn(document@, offset, width, old(buffer)@, terminal_row as nat),
        decreases height - terminal_row,
    {
        let row = match terminal_row.checked_add(offset.row) {
            Some(index) => document.row(index),
            None => None,
        };
        let written = match row {
            Some(row) => {
                let text = row.to_string(offset.col, offset.col.saturating_add(width));
                buffer.write_line(terminal_row, text.as_str(), &Style::default())
            },
            None => buffer.write_line(terminal_row, "~", &Style::default()),
        };
        assert(buffer@ == window_drawn(
            document@,
            offset,
            width,
            old(buffer)@,
            (terminal_row + 1) as nat,
        ));
        if let Err(error) = written {
            proof {
                lemma_window_drawn_within(
                    document@,
                    offset,
                    width,
                    old(buffer)@,
                    (terminal_row + 1) as nat,
                );
                lemma_window_drawn_within(document@, offset, width, old(buffer)@, height as nat);
            }
            return Err(error);
        }
        terminal_row += 1;
    }
    Ok(())
}

/// A document as it is shown in a frame: through a window that starts at an
/// offset and is as large as the frame.
pub struct DocumentView<'a> {
    document: &'a Document,
    offset: Position,
}

impl<'a> DocumentView<'a> {
    /// The document that is shown.
    pub closed spec fn document(&self) -> DocumentText {
        self.document@
    }

    /// Where the window starts.
    pub closed spec fn offset(&self) -> Position {
        self.offset
    }

    /// Create a view of `document` whose window starts at `offset`.
    pub fn new(document: &'a Document, offset: Position) -> (view: Self)
        ensures
            view.document() == document@,
            view.offset() == offset,
    {
        Self { document, offset }
    }
}

impl<'a> Component for DocumentView<'a> {
    /// Draw the document into every row of the buffer.
    fn render(&self, buffer: &mut FrameBuffer) -> (rendered: Result<(), OutOfBoundsError>)
        ensures
            rendered.is_ok(),
            final(buffer)@ == window_drawn(
                self.document(),
                self.offset(),
                old(buffer)@.area.width,
                old(buffer)@,
                old(buffer)@.area.height as nat,
            ),
    {
        let area = buffer.area();
        draw_window(self.document, self.offset, area.width, area.height, buffer)
    }
}

} // verus!
