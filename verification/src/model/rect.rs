use vstd::prelude::*;

verus! {

/// Rect provides a simple way to store the width and height of an area
#[derive(Debug, Clone, Copy, PartialEq, Eq, Structural)]
pub struct Rect {
    pub w: u32,
    pub h: u32,
}

impl Rect {
    /// Create an area of the given width and height
    pub fn new(w: u32, h: u32) -> (r: Self)
        ensures
            r == (Rect { w, h }),
    {
        Self { w, h }
    }
}

impl Default for Rect {
    /// An empty area
    fn default() -> (r: Self)
        ensures
            r == (Rect { w: 0, h: 0 }),
    {
        Rect { w: 0, h: 0 }
    }
}

/// Coord provides a simple way to store x, y coordinates
#[derive(Debug, Clone, Copy, PartialEq, Eq, Structural)]
pub struct Coord {
    pub x: u32,
    pub y: u32,
}

/// CoordOpt provides a simple way to store optional x, y coordinates
#[derive(Debug, Clone, Copy, PartialEq, Eq, Structural)]
pub struct CoordOpt {
    pub x: Option<u32>,
    pub y: Option<u32>,
}

/// Display holds the size and number of a display
#[derive(Debug, Clone, Copy, PartialEq, Eq, Structural)]
pub struct Display {
    pub width: u16,
    pub height: u16,
    pub number: usize,
}

} // verus!
