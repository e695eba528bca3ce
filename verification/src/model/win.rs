use vstd::prelude::*;

verus! {

/// A window's id together with its position and size
#[derive(Debug, Clone, Copy, PartialEq, Eq, Structural)]
pub struct Win {
    pub id: u32,
    pub x: i32,
    pub y: i32,
    pub w: i32,
    pub h: i32,
}

impl Default for Win {
    /// Window 0 at (0, 0) with no size
    fn default() -> (r: Self)
        ensures
            r == (Win { id: 0, x: 0, y: 0, w: 0, h: 0 }),
    {
        Self { id: 0, x: 0, y: 0, w: 0, h: 0 }
    }
}

} // verus!
