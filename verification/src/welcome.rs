//! The welcome screen.

use crate::component::Component;
use crate::frame::{FrameBuffer, FrameBufferView, OutOfBoundsError};
use crate::segmentation::grapheme_clusters;
use crate::style::Style;
use crate::text::{cut, pad, spaces, truncated};
use vstd::prelude::*;

verus! {

/// The version of the editor that the welcome screen names.
pub const VERSION: &'static str = "0.1.0";

/// The welcome message for a screen of `width` columns: a `~`, then the
/// greeting, moved towards the middle of the row by spaces, all cut to the
/// width of the screen.
pub open spec fn welcome_message(width: usize) -> Seq<char> {
    let greeting = "Vie editor -- version "@ + VERSION@;
    let room = if width > greeting.len() {
        width - greeting.len()
    } else {
        0
    };
    let padding = if room / 2 > 0 {
        room / 2 - 1
    } else {
        0
    };
    cut("~"@ + spaces(padding as nat) + greeting, width as nat)
}

/// The frame buffer after the first `count` rows of the welcome screen were
/// drawn into `buffer`: the welcome message a third of the way down, and `~`
/// in every other row.
pub open spec fn welcome_drawn(buffer: FrameBufferView, count: nat) -> FrameBufferView
    decreases count,
{
    if count == 0 {
        buffer
    } else {
        let line = (count - 1) as nat;
        let earlier = welcome_drawn(buffer, line);
        if line >= earlier.area.height {
            earlier
        } else if line == earlier.area.height / 3 {
            earlier.with_line(
                line as int,
                grapheme_clusters(welcome_message(earlier.area.width)),
                Style::plain(),
            )
        } else {
            earlier.with_line(line as int, grapheme_clusters("~"@), Style::plain())
        }
    }
}

/// The welcome message for a screen of `width` columns.
pub fn welcome(width: usize) -> (message: String)
    ensures
        message@ == welcome_message(width),
{
    let mut greeting = "Vie editor -- version ".to_owned();
    greeting.append(VERSION);
    let len = greeting.as_str().unicode_len();
    let padding = (width.saturating_sub(len) / 2).saturating_sub(1);
    let mut message = "~".to_owned();
    pad(&mut message, padding);
    message.append(greeting.as_str());
    truncated(message.as_str(), width)
}

/// The screen that greets the user of an empty editor.
#[derive(Debug, Default, Clone, Copy, PartialEq, Eq, Structural)]
pub struct Screen {}

impl Component for Screen {
    /// Draw the welcome screen into every row of the buffer.
    fn render(&self, buffer: &mut FrameBuffer) -> (rendered: Result<(), OutOfBoundsError>)
        ensures
            rendered.is_ok(),
            final(buffer)@ == welcome_drawn(old(buffer)@, old(buffer)@.area.height as nat),
    {
        let area = buffer.area();
        let mut terminal_row: usize = 0;
        while terminal_row < area.height
            invariant
                terminal_row <= area.height,
                buffer.wf(),
                buffer@.area == old(buffer)@.area,
                area == old(buffer)@.area,
                buffer@ == welcome_drawn(old(buffer)@, terminal_row as nat),
            decreases area.height - terminal_row,
        {
            let written = if terminal_row == area.height / 3 {
                let message = welcome(area.width);
                buffer.write_line(terminal_row, message.as_str(), &Style::default())
            } else {
                buffer.write_line(terminal_row, "~", &Style::default())
            };
            assert(buffer@ == welcome_drawn(old(buffer)@, (terminal_row + 1) as nat));
            assert(written.is_ok());
            terminal_row += 1;
        }
        Ok(())
    }
}

} // verus!
