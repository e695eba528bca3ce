//! Models for working with X11 windows
pub mod border;
pub mod class;
pub mod gravity;
pub mod info;
pub mod kind;
pub mod map_state;
pub mod position;
pub mod property;
pub mod rect;
pub mod shape;
pub mod state;
pub mod win;

pub use border::Border;
pub use class::{Class, class_number, class_of, class_text};
pub use gravity::{Gravity, gravity_number, gravity_of, gravity_text};
pub use info::Info;
pub use kind::{WinKind, kind_atom, kind_from_atom_result, kind_rank, kind_text};
pub use map_state::{MapState, map_state_number, map_state_of, map_state_text};
pub use position::{Position, position_named, position_text};
pub use property::Property;
pub use rect::{Coord, CoordOpt, Display, Rect};
pub use shape::{Shape, shape_named, shape_text};
pub use win::Win;
pub use state::{State, state_atom, state_from_atom_result, state_rank, state_text};

use vstd::prelude::*;

verus! {

/// Flags of a move resize request. The second byte of the 32 bit value flags each value that
/// has been changed and needs to be acted upon.
pub type MoveResizeWindowFlags = u32;

pub const MOVE_RESIZE_WINDOW_X: MoveResizeWindowFlags = 1 << 8;

pub const MOVE_RESIZE_WINDOW_Y: MoveResizeWindowFlags = 1 << 9;

pub const MOVE_RESIZE_WINDOW_WIDTH: MoveResizeWindowFlags = 1 << 10;

pub const MOVE_RESIZE_WINDOW_HEIGHT: MoveResizeWindowFlags = 1 << 11;

/// Action of a window state change request
pub type WindowStateAction = u32;

pub const WINDOW_STATE_ACTION_REMOVE: WindowStateAction = 0;

pub const WINDOW_STATE_ACTION_ADD: WindowStateAction = 1;

/// Earlier name of [`Gravity`]
pub type WinGravity = Gravity;

/// Earlier name of [`Class`]
pub type WinClass = Class;

/// Earlier name of [`MapState`]
pub type WinMap = MapState;

/// Earlier name of [`State`]
pub type WinState = State;

/// Shorter name of [`WinKind`]
pub type Kind = WinKind;

} // verus!
