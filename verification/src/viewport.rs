//! The viewport: the double-buffered draw cycle.
//!
//! A viewport owns two frame buffers. Each draw renders into the current
//! one, sends the canvas only the cells that differ from the previous one,
//! and then swaps the two, so that the next frame starts from a blank buffer
//! while the other keeps what is on the screen.

use crate::backend::{Canvas, CanvasRequest};
use crate::cell::cell_ref_views;
use crate::component::Component;
use crate::frame::{
    changed_cells, lemma_erased_is_erased, FrameBuffer, FrameBufferView, OutOfBoundsError,
};
use crate::layout::{Position, Rect};
use vstd::prelude::*;

verus! {

/// What a frame holds while it is rendered: the buffer drawn into and the
/// place asked for the cursor.
pub ghost struct FrameView {
    pub cursor: Position,
    pub buffer: FrameBufferView,
}

/// The next frame to be rendered to the screen. Used in the draw callback to allow the caller
/// to set the cursor position and render components to the current buffer.
pub struct Frame {
    cursor_position: Position,
    current_buffer: FrameBuffer,
}

impl View for Frame {
    type V = FrameView;

    closed spec fn view(&self) -> FrameView {
        FrameView { cursor: self.cursor_position, buffer: self.current_buffer@ }
    }
}

impl Frame {
    /// Whether the frame's buffer is well formed.
    pub open spec fn wf(&self) -> bool {
        self@.buffer.wf()
    }

    /// Create a new frame for the given buffer, with the cursor at its default position.
    fn new(current_buffer: FrameBuffer) -> (frame: Self)
        ensures
            frame@ == (FrameView {
                cursor: Position { col: 0, row: 0 },
                buffer: current_buffer@,
            }),
    {
        Self { cursor_position: Position::new(0, 0), current_buffer }
    }

    /// The area that the frame covers.
    pub fn area(&self) -> (area: Rect)
        ensures
            area == self@.buffer.area,
    {
        self.current_buffer.area()
    }

    /// Render the given component into the current buffer: the buffer is
    /// left as the component's own `render` leaves it, the cursor stays, and
    /// the result is that `render`'s result, its error where it gives up.
    pub fn render<C: Component>(&mut self, component: C) -> (rendered: Result<
        (),
        OutOfBoundsError,
    >)
        requires
            old(self).wf(),
        ensures
            final(self).wf(),
            final(self)@.buffer.area == old(self)@.buffer.area,
            final(self)@.cursor == old(self)@.cursor,
            exists|buffer: &mut FrameBuffer|
                {
                    &&& (*buffer)@ == old(self)@.buffer
                    &&& (*final(buffer))@ == final(self)@.buffer
                    &&& #[trigger] call_ensures(C::render, (&component, buffer), rendered)
                },
    {
        component.render(&mut self.current_buffer)
    }

    /// The buffer of the frame, to draw into directly.
    pub fn buffer_mut(&mut self) -> (buffer: &mut FrameBuffer)
        ensures
            (*buffer)@ == old(self)@.buffer,
            final(self)@ == (FrameView { buffer: (*final(buffer))@, ..old(self)@ }),
    {
        &mut self.current_buffer
    }

    /// Set the cursor position for the final frame render.
    pub fn set_cursor_position(&mut self, position: Position)
        ensures
            final(self)@ == (FrameView { cursor: position, ..old(self)@ }),
    {
        self.cursor_position = position;
    }
}

/// Why a viewport could not be created.
#[derive(Debug)]
pub enum ViewportError {
    /// The canvas could not tell its size.
    Size(std::io::Error),
    /// The canvas is larger than a buffer of cells can be on this machine.
    Oversized(Rect),
}

/// Why a draw was given up. Each step of the cycle has its own error, which
/// holds what the canvas or the callback answered.
#[derive(Debug)]
pub enum DrawError<E> {
    HideCursor(std::io::Error),
    Render(E),
    Draw(std::io::Error),
    PositionCursor(std::io::Error),
    ShowCursor(std::io::Error),
    Flush(std::io::Error),
}

impl<E> DrawError<E> {
    /// The number of requests that were made of the canvas before a draw
    /// was given up with this error, the failed one included.
    pub open spec fn requests_made(self) -> int {
        match self {
            DrawError::HideCursor(_) => 1,
            DrawError::Render(_) => 1,
            DrawError::Draw(_) => 2,
            DrawError::PositionCursor(_) => 3,
            DrawError::ShowCursor(_) => 4,
            DrawError::Flush(_) => 5,
        }
    }
}

/// Why the screen could not be left clean: the request that failed, with
/// what the canvas answered.
#[derive(Debug)]
pub enum CloseError {
    Clear(std::io::Error),
    Flush(std::io::Error),
}

impl CloseError {
    /// The number of requests that were made of the canvas before the
    /// closing was given up with this error, the failed one included.
    pub open spec fn requests_made(self) -> int {
        match self {
            CloseError::Clear(_) => 1,
            CloseError::Flush(_) => 2,
        }
    }
}

/// The requests that a whole closing makes of the canvas, in order.
pub open spec fn close_requests() -> Seq<CanvasRequest> {
    seq![CanvasRequest::Clear, CanvasRequest::Flush]
}

/// What a viewport holds: its area, its two buffers, which of them is drawn
/// into next, and every request that it has made of its canvas so far.
pub ghost struct ViewportView {
    pub area: Rect,
    pub buffers: Seq<FrameBufferView>,
    pub current: int,
    pub requests: Seq<CanvasRequest>,
}

impl ViewportView {
    /// The viewport's invariant: two well-formed buffers that cover the
    /// viewport's area, one of them current, and the current one blank, so
    /// that every frame starts from a blank buffer.
    pub open spec fn wf(self) -> bool {
        &&& self.shaped()
        &&& self.current_buffer().is_erased()
    }

    /// The part of the invariant that holds while a frame is rendered too:
    /// two well-formed buffers that cover the viewport's area, one of them
    /// current.
    pub open spec fn shaped(self) -> bool {
        &&& self.buffers.len() == 2
        &&& 0 <= self.current < 2
        &&& self.buffers[0].wf()
        &&& self.buffers[1].wf()
        &&& self.buffers[0].area == self.area
        &&& self.buffers[1].area == self.area
    }

    /// A viewport of `area` before its first draw: two blank buffers, the
    /// first of them current, and a canvas that was asked for its size.
    pub open spec fn initial(area: Rect) -> ViewportView {
        ViewportView {
            area,
            buffers: seq![FrameBufferView::blank(area), FrameBufferView::blank(area)],
            current: 0,
            requests: seq![CanvasRequest::Size],
        }
    }

    /// The viewport after a closing that ended with `closed`: the canvas
    /// was asked for the requests of a whole closing up to the first that
    /// failed, and nothing else has changed.
    pub open spec fn closed(self, closed: Result<(), CloseError>) -> ViewportView {
        ViewportView {
            requests: self.requests + close_requests().take(
                match closed {
                    Ok(_) => 2,
                    Err(error) => error.requests_made(),
                },
            ),
            ..self
        }
    }

    /// The buffer that the next frame is rendered into.
    pub open spec fn current_buffer(self) -> FrameBufferView {
        self.buffers[self.current]
    }

    /// The buffer that holds what was last drawn.
    pub open spec fn previous_buffer(self) -> FrameBufferView {
        self.buffers[1 - self.current]
    }

    /// The viewport after its buffers were swapped: what was drawn last is
    /// erased and becomes the buffer to draw into.
    pub open spec fn swapped(self) -> ViewportView {
        ViewportView {
            buffers: self.buffers.update(1 - self.current, self.previous_buffer().erased()),
            current: 1 - self.current,
            ..self
        }
    }

}

/// The requests that one whole draw makes of the canvas, in order, when
/// the rendered frame is `frame` and `previous` was drawn before.
pub open spec fn draw_requests(previous: FrameBufferView, frame: FrameView) -> Seq<CanvasRequest> {
    seq![
        CanvasRequest::HideCursor,
        CanvasRequest::Draw(changed_cells(previous.cells, frame.buffer.cells)),
        CanvasRequest::PositionCursor { row: frame.cursor.row, col: frame.cursor.col },
        CanvasRequest::ShowCursor,
        CanvasRequest::Flush,
    ]
}

/// Whether `answer` is what the callback answered in a draw that ended with
/// `drawn`: its error where the draw ended with that, and success otherwise.
pub open spec fn rendering_answer<E>(answer: Result<(), E>, drawn: Result<(), DrawError<E>>) -> bool {
    match drawn {
        Err(DrawError::Render(error)) => answer == Err::<(), E>(error),
        _ => answer is Ok,
    }
}

/// The viewport after a draw that ended with `drawn`, when it held `before`
/// and the callback left the frame holding `frame`.
///
/// The canvas was asked for the requests of a whole draw up to the first
/// that failed. After a draw that went well the rendered buffer is the
/// previous one and the other, erased, is current. After a failure the
/// buffers keep their roles, the previous one is as it was, and what was
/// rendered is erased.
pub open spec fn after_render<E>(
    before: ViewportView,
    frame: FrameView,
    drawn: Result<(), DrawError<E>>,
) -> ViewportView {
    let script = draw_requests(before.previous_buffer(), frame);
    match drawn {
        Ok(_) => (ViewportView {
            buffers: before.buffers.update(before.current, frame.buffer),
            requests: before.requests + script,
            ..before
        }).swapped(),
        Err(error) => ViewportView {
            buffers: before.buffers.update(before.current, frame.buffer.erased()),
            requests: before.requests + script.take(error.requests_made()),
            ..before
        },
    }
}

/// The area of the screen that we can draw to. The Viewport is responsible for handling
/// interactions with the backend and drawing.
pub struct Viewport<'a, C: Canvas> {
    area: Rect,
    canvas: &'a mut C,
    buffers: [FrameBuffer; 2],
    current_buffer_idx: usize,
    requests: Ghost<Seq<CanvasRequest>>,
}

impl<'a, C: Canvas> View for Viewport<'a, C> {
    type V = ViewportView;

    closed spec fn view(&self) -> ViewportView {
        ViewportView {
            area: self.area,
            buffers: seq![self.buffers[0]@, self.buffers[1]@],
            current: self.current_buffer_idx as int,
            requests: self.requests@,
        }
    }
}

impl<'a, C: Canvas> Viewport<'a, C> {
    /// Whether the viewport's invariant holds.
    pub open spec fn wf(&self) -> bool {
        self@.wf()
    }

    /// Create a new Viewport for the provided Canvas: as large as the canvas
    /// says it is, with two blank buffers, the first of them current.
    pub fn new(canvas: &'a mut C) -> (viewport: Result<Self, ViewportError>)
        ensures
            viewport matches Ok(viewport) ==> {
                &&& viewport.wf()
                &&& viewport@ == ViewportView::initial(viewport@.area)
            },
            viewport matches Err(ViewportError::Oversized(area)) ==> !area.addressable(),
    {
        let size = canvas.size();
        Self::sized(canvas, size)
    }

    /// Create a new Viewport for `canvas` from what the canvas answered when
    /// it was asked for its size. An answer that is an error is passed on,
    /// and so is an area that is too large for a buffer of cells. Any other
    /// area becomes the area of the viewport.
    pub fn sized(canvas: &'a mut C, size: Result<Rect, std::io::Error>) -> (viewport: Result<
        Self,
        ViewportError,
    >)
        ensures
            match size {
                Ok(area) => if area.addressable() {
                    viewport matches Ok(viewport) && viewport.wf() && viewport@
                        == ViewportView::initial(area)
                } else {
                    viewport matches Err(ViewportError::Oversized(refused)) && refused == area
                },
                Err(error) => viewport matches Err(ViewportError::Size(passed)) && passed == error,
            },
    {
        let area = match size {
            Ok(area) => area,
            Err(error) => {
                return Err(ViewportError::Size(error));
            },
        };
        if !area.is_addressable() {
            return Err(ViewportError::Oversized(area));
        }
        let ghost asked = seq![CanvasRequest::Size];
        let viewport = Self {
            area,
            canvas,
            buffers: [FrameBuffer::empty(area), FrameBuffer::empty(area)],
            current_buffer_idx: 0,
            requests: Ghost(asked),
        };
        assert(viewport@.buffers =~= ViewportView::initial(area).buffers);
        Ok(viewport)
    }

    /// The area represented by the viewport.
    pub fn area(&self) -> (area: Rect)
        ensures
            area == self@.area,
    {
        self.area
    }

    /// Draw the current buffer to the screen. This calls the given callback,
    /// which renders the frame and may place the cursor. The canvas is then
    /// asked, in this order, to hide the cursor (before the callback runs), to
    /// draw the cells in which the frame differs from the previous one, to
    /// position the cursor, to show it and to flush. Once all of that went
    /// well the buffers are swapped. The first failure ends the draw: no
    /// further request is made, the buffers are not swapped, and the
    /// previous buffer is as it was.
    pub fn draw<E, F>(&mut self, f: F) -> (drawn: Result<(), DrawError<E>>) where
        F: FnOnce(&mut Frame) -> Result<(), E>,

        requires
            old(self).wf(),
            forall|frame: &mut Frame| (*frame).wf() ==> call_requires(f, (frame,)),
            forall|frame: &mut Frame, rendered: Result<(), E>|
                (*frame).wf() && call_ensures(f, (frame,), rendered) ==> (*final(frame)).wf() && (
                *final(frame))@.buffer.area == (*frame)@.buffer.area,
        ensures
            final(self).wf(),
            final(self)@.area == old(self)@.area,
            drawn matches Err(DrawError::HideCursor(_)) ==> final(self)@ == (ViewportView {
                requests: old(self)@.requests.push(CanvasRequest::HideCursor),
                ..old(self)@
            }),
            !(drawn matches Err(DrawError::HideCursor(_))) ==> exists|
                frame: &mut Frame,
                answer: Result<(), E>,
            |
                {
                    &&& (*frame)@ == (FrameView {
                        cursor: Position { col: 0, row: 0 },
                        buffer: old(self)@.current_buffer(),
                    })
                    &&& #[trigger] call_ensures(f, (frame,), answer)
                    &&& rendering_answer(answer, drawn)
                    &&& final(self)@ == after_render(old(self)@, (*final(frame))@, drawn)
                },
    {
        let ghost before = self@;
        let current = self.current_buffer_idx;
        let previous = 1 - current;

        self.requests = Ghost(self.requests@.push(CanvasRequest::HideCursor));
        if let Err(error) = self.canvas.hide_cursor() {
            proof {
                assert(self@.buffers =~= before.buffers);
            }
            return Err(DrawError::HideCursor(error));
        }
        let nothing = Rect::new(0, 0);
        assert(nothing.addressable()) by (nonlinear_arith)
            requires
                nothing.width == 0,
                nothing.height == 0,
                nothing.position.col == 0,
                nothing.position.row == 0,
        ;
        let mut buffer = FrameBuffer::empty(nothing);
        assert(self.buffers[current as int]@ == before.current_buffer());
        core::mem::swap(&mut self.buffers[current], &mut buffer);
        assert(buffer@ == before.current_buffer());
        assert(self.buffers[previous as int]@ == before.previous_buffer());
        let mut frame = Frame::new(buffer);
        let ghost fresh = frame@;
        assert(frame.wf());
        let rendered = f(&mut frame);
        let ghost answer = rendered;
        let cursor = frame.cursor_position;
        let ghost rendered_frame = frame@;
        self.buffers[current] = frame.current_buffer;
        let ghost script = draw_requests(before.previous_buffer(), rendered_frame);
        assert(self@.buffers =~= before.buffers.update(before.current, rendered_frame.buffer));
        let sent = match rendered {
            Ok(_) => self.send(cursor),
            Err(error) => Err(DrawError::Render(error)),
        };
        proof {
            lemma_erased_is_erased(rendered_frame.buffer);
            lemma_erased_is_erased(before.previous_buffer());
            assert(rendering_answer(answer, sent));
            if sent is Ok {
                assert(self@.requests =~= before.requests + script);
            } else {
                assert(self@.requests =~= before.requests + script.take(
                    sent->Err_0.requests_made(),
                ));
            }
        }
        match sent {
            Ok(_) => {
                self.swap_buffers();
            },
            Err(_) => {
                self.buffers[current].reset();
                assert(self@.buffers =~= before.buffers.update(
                    before.current,
                    rendered_frame.buffer.erased(),
                ));
            },
        }
        assert(self@ == after_render(before, rendered_frame, sent));
        sent
    }

    /// Send the canvas what a rendered frame asks for: the cells in which
    /// the current buffer differs from the previous one, the cursor's
    /// position, and the requests to show the cursor and to flush. The
    /// first failure ends the sending.
    fn send<E>(&mut self, cursor: Position) -> (sent: Result<(), DrawError<E>>)
        requires
            old(self)@.shaped(),
        ensures
            final(self)@ == (ViewportView {
                requests: old(self)@.requests + draw_requests(
                    old(self)@.previous_buffer(),
                    FrameView { cursor, buffer: old(self)@.current_buffer() },
                ).subrange(
                    1,
                    match sent {
                        Ok(_) => 5,
                        Err(error) => error.requests_made(),
                    },
                ),
                ..old(self)@
            }),
            sent matches Err(error) ==> !(error is HideCursor) && !(error is Render),
    {
        let ghost before = self@;
        let ghost script = draw_requests(
            before.previous_buffer(),
            FrameView { cursor, buffer: before.current_buffer() },
        );
        let current = self.current_buffer_idx;
        let previous = 1 - current;
        let changes = self.buffers[previous].diff(&self.buffers[current]);
        self.requests = Ghost(
            self.requests@.push(CanvasRequest::Draw(cell_ref_views(changes@))),
        );
        assert(self@.requests =~= before.requests + script.subrange(1, 2));
        if let Err(error) = self.canvas.draw(changes.as_slice()) {
            return Err(DrawError::Draw(error));
        }
        self.requests = Ghost(
            self.requests@.push(CanvasRequest::PositionCursor { row: cursor.row, col: cursor.col }),
        );
        assert(self@.requests =~= before.requests + script.subrange(1, 3));
        if let Err(error) = self.canvas.position_cursor(cursor.row, cursor.col) {
            return Err(DrawError::PositionCursor(error));
        }
        self.requests = Ghost(self.requests@.push(CanvasRequest::ShowCursor));
        assert(self@.requests =~= before.requests + script.subrange(1, 4));
        if let Err(error) = self.canvas.show_cursor() {
            return Err(DrawError::ShowCursor(error));
        }
        self.requests = Ghost(self.requests@.push(CanvasRequest::Flush));
        assert(self@.requests =~= before.requests + script.subrange(1, 5));
        match self.canvas.flush() {
            Ok(_) => Ok(()),
            Err(error) => Err(DrawError::Flush(error)),
        }
    }

    /// Swap the buffers: erase what was drawn last and draw into it next.
    pub fn swap_buffers(&mut self)
        requires
            old(self)@.shaped(),
        ensures
            final(self).wf(),
            final(self)@ == old(self)@.swapped(),
    {
        let previous = 1 - self.current_buffer_idx;
        self.buffers[previous].reset();
        self.current_buffer_idx = previous;
        assert(self@.buffers =~= old(self)@.swapped().buffers);
    }

    /// Leave the screen clean: ask the canvas to clear and then to flush.
    /// The first failure ends the closing and is returned with the request
    /// that failed, after which no further request is made. The buffers are
    /// not touched.
    pub fn close(&mut self) -> (closed: Result<(), CloseError>)
        ensures
            final(self)@ == old(self)@.closed(closed),
    {
        let ghost before = self@;
        self.requests = Ghost(self.requests@.push(CanvasRequest::Clear));
        assert(self@.requests =~= before.requests + close_requests().take(1));
        if let Err(error) = self.canvas.clear() {
            return Err(CloseError::Clear(error));
        }
        self.requests = Ghost(self.requests@.push(CanvasRequest::Flush));
        assert(self@.requests =~= before.requests + close_requests().take(2));
        match self.canvas.flush() {
            Ok(_) => Ok(()),
            Err(error) => Err(CloseError::Flush(error)),
        }
    }
}

} // verus!
