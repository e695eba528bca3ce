//! `libwmctl` implements a subset of the Extended Window Manager Hints (EWMH) specification as
//! a way to integrate with EWMH compatible window managers. This crate holds its logic: the
//! window model, the interpretation of the X server's replies, and the translation of
//! pre-defined shapes and positions into window sizes and coordinates. Talking to the X server
//! is left to the caller, which hands the replies' values to these functions and applies what
//! they compute.
pub mod atoms;
pub mod error;
pub mod model;
pub mod placement;
pub mod reply;
pub mod text;
pub mod window;
mod x11;

pub use atoms::AtomCollection;
pub use error::{PositionError, ShapeError, WinError, WmCtlError};
pub use model::{
    Border, Class, Coord, CoordOpt, Display, Gravity, Info, Kind, MapState, MoveResizeWindowFlags,
    Position, Property, Rect, Shape, State, Win, WinClass, WinGravity, WinKind, WinMap, WinState,
    WindowStateAction, MOVE_RESIZE_WINDOW_HEIGHT, MOVE_RESIZE_WINDOW_WIDTH, MOVE_RESIZE_WINDOW_X,
    MOVE_RESIZE_WINDOW_Y, WINDOW_STATE_ACTION_ADD, WINDOW_STATE_ACTION_REMOVE,
};
pub use placement::{translate_placement, translate_pos, translate_shape, MoveResize};
pub use window::Window;

use vstd::prelude::*;

verus! {

/// Get the window by id, or the active window when no id is given
///
/// ### Arguments
/// * `id` - id of the window or None
/// * `active` - id of the active window
pub fn window(id: Option<u32>, active: u32) -> (w: Window)
    ensures
        w@ == (id.unwrap_or(active), None::<Shape>, None::<Position>),
{
    match id {
        Some(id) => Window::new(id),
        None => Window::new(active),
    }
}

/// The windows of the given ids, in the same order, without directives
pub fn windows(ids: &Vec<u32>) -> (r: Vec<Window>)
    ensures
        r@.len() == ids@.len(),
        forall|i: int| 0 <= i < ids@.len() ==> #[trigger] r@[i]@ == (ids@[i], None::<Shape>, None::<Position>),
{
    let mut r: Vec<Window> = Vec::new();
    let mut i: usize = 0;
    while i < ids.len()
        invariant
            i <= ids@.len(),
            r@.len() == i,
            forall|j: int| 0 <= j < i ==> #[trigger] r@[j]@ == (ids@[j], None::<Shape>, None::<Position>),
        decreases ids@.len() - i,
    {
        r.push(Window::new(ids[i]));
        i += 1;
    }
    r
}

} // verus!
