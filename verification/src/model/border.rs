use vstd::prelude::*;

verus! {

/// Border provides a simple way to store border values
#[derive(Debug, Clone, Copy, PartialEq, Eq, Structural)]
pub struct Border {
    pub l: u32,
    pub r: u32,
    pub t: u32,
    pub b: u32,
}

impl Border {
    /// Create a border from its left, right, top and bottom values
    pub fn new(l: u32, r: u32, t: u32, b: u32) -> (border: Self)
        ensures
            border == (Border { l, r, t, b }),
    {
        Self { l, r, t, b }
    }

    /// True when any side is non zero
    pub open spec fn has_any(self) -> bool {
        self.l > 0 || self.r > 0 || self.t > 0 || self.b > 0
    }

    /// Check if any values are non zero
    pub fn any(&self) -> (r: bool)
        ensures
            r == self.has_any(),
    {
        self.l > 0 || self.r > 0 || self.t > 0 || self.b > 0
    }

    /// Summed left and right borders as a single value
    pub fn w(&self) -> (r: u32)
        requires
            self.l + self.r <= u32::MAX,
        ensures
            r == self.l + self.r,
    {
        self.l + self.r
    }

    /// Summed top and bottom borders as a single value
    pub fn h(&self) -> (r: u32)
        requires
            self.t + self.b <= u32::MAX,
        ensures
            r == self.t + self.b,
    {
        self.t + self.b
    }
}

impl Default for Border {
    /// A border of zero on every side
    fn default() -> (b: Self)
        ensures
            b == (Border { l: 0, r: 0, t: 0, b: 0 }),
    {
        Border { l: 0, r: 0, t: 0, b: 0 }
    }
}

} // verus!
