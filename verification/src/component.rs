//! The rendering contract between the editor and its widgets.

use crate::frame::{FrameBuffer, OutOfBoundsError};
use vstd::prelude::*;

verus! {

/// A part of the ui that can be rendered to the screen. This allows for widgets/components to
/// be responsible for their own drawing to the current frame buffer.
///
/// A component draws into the buffer it is given and leaves it covering the
/// same area. Where it would have to draw outside of the buffer it gives up
/// with the buffer's error. An implementation outside of this library is
/// held to the contract by nothing but this declaration.
pub trait Component {
    fn render(&self, buffer: &mut FrameBuffer) -> (rendered: Result<(), OutOfBoundsError>)
        requires
            old(buffer).wf(),
        ensures
            final(buffer).wf(),
            final(buffer)@.area == old(buffer)@.area,
    ;
}

/// A reference to a component renders as the component does: the buffer is
/// left as the component's own `render` leaves it, and the result is that
/// `render`'s result.
impl<T: Component> Component for &T {
    fn render(&self, buffer: &mut FrameBuffer) -> (rendered: Result<(), OutOfBoundsError>)
        ensures
            exists|drawn_into: &mut FrameBuffer|
                {
                    &&& *drawn_into == *old(buffer)
                    &&& *final(drawn_into) == *final(buffer)
                    &&& #[trigger] call_ensures(T::render, (*self, drawn_into), rendered)
                },
    {
        (**self).render(buffer)
    }
}

} // verus!
