//! Atoms are the numbers by which the X server names properties, types and states. The server
//! assigns them when a client interns their names, so the library receives them from whoever
//! holds the connection.
use vstd::prelude::*;

verus! {

/// The atoms that window states, window types and window state changes are identified by
#[allow(non_snake_case)]
#[derive(Debug, Clone, Copy, PartialEq, Eq, Structural)]
pub struct AtomCollection {
    pub _NET_WM_STATE: u32,
    pub _NET_WM_STATE_ABOVE: u32,
    pub _NET_WM_STATE_BELOW: u32,
    pub _NET_WM_STATE_DEMANDS_ATTENTION: u32,
    pub _NET_WM_STATE_FOCUSED: u32,
    pub _NET_WM_STATE_FULLSCREEN: u32,
    pub _NET_WM_STATE_HIDDEN: u32,
    pub _NET_WM_STATE_MAXIMIZED_HORZ: u32,
    pub _NET_WM_STATE_MAXIMIZED_VERT: u32,
    pub _NET_WM_STATE_MODAL: u32,
    pub _NET_WM_STATE_SHADED: u32,
    pub _NET_WM_STATE_SKIP_PAGER: u32,
    pub _NET_WM_STATE_SKIP_TASKBAR: u32,
    pub _NET_WM_STATE_STICKY: u32,
    pub _NET_WM_WINDOW_TYPE_COMBO: u32,
    pub _NET_WM_WINDOW_TYPE_DESKTOP: u32,
    pub _NET_WM_WINDOW_TYPE_DIALOG: u32,
    pub _NET_WM_WINDOW_TYPE_DND: u32,
    pub _NET_WM_WINDOW_TYPE_DOCK: u32,
    pub _NET_WM_WINDOW_TYPE_DROPDOWN_MENU: u32,
    pub _NET_WM_WINDOW_TYPE_MENU: u32,
    pub _NET_WM_WINDOW_TYPE_NORMAL: u32,
    pub _NET_WM_WINDOW_TYPE_NOTIFICATION: u32,
    pub _NET_WM_WINDOW_TYPE_POPUP_MENU: u32,
    pub _NET_WM_WINDOW_TYPE_SPLASH: u32,
    pub _NET_WM_WINDOW_TYPE_TOOLBAR: u32,
    pub _NET_WM_WINDOW_TYPE_TOOLTIP: u32,
    pub _NET_WM_WINDOW_TYPE_UTILITY: u32,
}

} // verus!
