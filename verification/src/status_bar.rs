//! The status bar: one row that tells the mode, the file and the cursor.

use crate::command::Descriptor;
use crate::component::Component;
use crate::frame::{FrameBuffer, OutOfBoundsError};
use crate::layout::{Position, Rect};
use crate::segmentation::grapheme_clusters;
use crate::style::{Color, Style};
use crate::text::{cut, decimal, decimal_string, pad, spaces, truncated};
use vstd::prelude::*;

verus! {

/// What a status bar holds.
pub ghost struct StatusBarView {
    pub viewport: Rect,
    pub mode: Descriptor,
    pub line_count: usize,
    pub cursor_position: Position,
    pub file_name: Seq<char>,
}

impl StatusBarView {
    /// The left part of the status line: the mode and the file.
    pub open spec fn status(self) -> Seq<char> {
        "Mode: ["@ + self.mode.name() + "]    File: "@ + self.file_name
    }

    /// The right part of the status line: the cursor's line, the number of
    /// lines, and the cursor's column counted from one.
    pub open spec fn line_indicator(self) -> Seq<char> {
        "L: "@ + decimal(self.cursor_position.row as nat) + "/"@ + decimal(self.line_count as nat)
            + " C: "@ + decimal((self.cursor_position.col + 1) as nat)
    }

    /// The whole status line: the left part, padded with spaces so that the
    /// right part ends at the viewport's last column, then the right part,
    /// all cut to the viewport's width.
    pub open spec fn text(self) -> Seq<char> {
        let len = self.status().len() + self.line_indicator().len();
        let padding = if self.viewport.width > len {
            spaces((self.viewport.width - len) as nat)
        } else {
            Seq::empty()
        };
        cut(self.status() + padding + self.line_indicator(), self.viewport.width as nat)
    }

    /// The colors of the status line.
    pub open spec fn style() -> Style {
        Style { foreground: Color::Rgb(63, 63, 63), background: Color::Rgb(239, 239, 239) }
    }
}

/// The status bar of the editor.
#[derive(Debug)]
pub struct StatusBar {
    viewport: Rect,
    mode: Descriptor,
    line_count: usize,
    cursor_position: Position,
    file_name: String,
}

impl View for StatusBar {
    type V = StatusBarView;

    closed spec fn view(&self) -> StatusBarView {
        StatusBarView {
            viewport: self.viewport,
            mode: self.mode,
            line_count: self.line_count,
            cursor_position: self.cursor_position,
            file_name: self.file_name@,
        }
    }
}

impl StatusBar {
    /// Create a status bar that is shown in `viewport`: normal mode, no
    /// lines, the cursor at the origin and no file name.
    pub fn new(viewport: Rect) -> (status_bar: Self)
        ensures
            status_bar@ == (StatusBarView {
                viewport,
                mode: Descriptor::Normal,
                line_count: 0,
                cursor_position: Position { col: 0, row: 0 },
                file_name: Seq::empty(),
            }),
    {
        Self {
            viewport,
            mode: Descriptor::Normal,
            line_count: 0,
            cursor_position: Position::new(0, 0),
            file_name: String::new(),
        }
    }

    /// Tell the status bar what to show from now on.
    pub fn update(
        &mut self,
        mode: Descriptor,
        line_count: usize,
        cursor_position: Position,
        file_name: &str,
    )
        ensures
            final(self)@ == (StatusBarView {
                viewport: old(self)@.viewport,
                mode,
                line_count,
                cursor_position,
                file_name: file_name@,
            }),
    {
        self.mode = mode;
        self.line_count = line_count;
        self.cursor_position = cursor_position;
        self.file_name = file_name.to_owned();
    }

    /// The text of the status line.
    pub fn status(&self) -> (text: String)
        ensures
            text@ == self@.text(),
    {
        let mut status = "Mode: [".to_owned();
        status.append(self.mode.to_string().as_str());
        status.append("]    File: ");
        status.append(self.file_name.as_str());
        assert(status@ =~= self@.status());

        let mut line_indicator = "L: ".to_owned();
        line_indicator.append(decimal_string(self.cursor_position.row as u128).as_str());
        line_indicator.append("/");
        line_indicator.append(decimal_string(self.line_count as u128).as_str());
        line_indicator.append(" C: ");
        line_indicator.append(decimal_string(self.cursor_position.col as u128 + 1).as_str());
        assert(line_indicator@ =~= self@.line_indicator());

        let status_len = status.as_str().unicode_len();
        let indicator_len = line_indicator.as_str().unicode_len();
        let width = self.viewport.width;
        if width > status_len && width - status_len > indicator_len {
            pad(&mut status, width - status_len - indicator_len);
        } else {
            assert(status@ =~= self@.status() + Seq::<char>::empty());
        }
        status.append(line_indicator.as_str());
        truncated(status.as_str(), width)
    }
}

impl Component for StatusBar {
    /// Write the status line into the row of the buffer that the top of the
    /// bar's viewport names. Where the buffer has no such row, nothing is
    /// drawn and the buffer's error is returned.
    fn render(&self, buffer: &mut FrameBuffer) -> (rendered: Result<(), OutOfBoundsError>)
        ensures
            rendered.is_ok() == (self@.viewport.position.row < old(buffer)@.area.height),
            final(buffer)@ == old(buffer)@.written(
                self@.viewport.position.row,
                grapheme_clusters(self@.text()),
                StatusBarView::style(),
            ),
    {
        let status = self.status();
        let style = Style::new(Color::Rgb(63, 63, 63), Color::Rgb(239, 239, 239));
        buffer.write_line(self.viewport.top(), status.as_str(), &style)
    }
}

} // verus!
