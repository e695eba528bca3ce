use vstd::prelude::*;
use vstd::std_specs::convert::FromSpecImpl;

verus! {

/// When windows are resized, subwindows may be repositioned automatically relative to some
/// position in the window. This attraction of a subwindow to some part of its parent is known
/// as window gravity.
///
/// Gravity is defined as the lower byte of the move resize flags 32bit value
/// <https://tronche.com/gui/x/xlib/window/attributes/gravity.html>
#[derive(Debug, Clone, Copy, PartialEq, Eq, Structural)]
pub enum Gravity {
    Unmap,
    Center,
}

/// The X11 number of a gravity.
pub open spec fn gravity_number(g: Gravity) -> u32 {
    match g {
        Gravity::Center => 5,
        Gravity::Unmap => 0,
    }
}

/// The gravity that an X11 number names; every number but 5 reads as `Unmap`.
pub open spec fn gravity_of(v: u32) -> Gravity {
    if v == 5 { Gravity::Center } else { Gravity::Unmap }
}

/// Lowercase name of a gravity.
pub open spec fn gravity_text(g: Gravity) -> Seq<char> {
    match g {
        Gravity::Unmap => "unmap"@,
        Gravity::Center => "center"@,
    }
}

impl Gravity {
    /// Lowercase name of the gravity
    pub fn to_string(&self) -> (r: String)
        ensures
            r@ == gravity_text(*self),
    {
        match self {
            Gravity::Unmap => "unmap".to_owned(),
            Gravity::Center => "center".to_owned(),
        }
    }
}

impl From<u32> for Gravity {
    fn from(val: u32) -> (g: Self) {
        if val == 5 {
            Gravity::Center
        } else {
            Gravity::Unmap
        }
    }
}

impl FromSpecImpl<u32> for Gravity {
    open spec fn obeys_from_spec() -> bool {
        true
    }

    open spec fn from_spec(v: u32) -> Self {
        gravity_of(v)
    }
}

impl From<Gravity> for u32 {
    fn from(val: Gravity) -> (v: Self) {
        match val {
            Gravity::Center => 5,
            Gravity::Unmap => 0,
        }
    }
}

impl FromSpecImpl<Gravity> for u32 {
    open spec fn obeys_from_spec() -> bool {
        true
    }

    open spec fn from_spec(v: Gravity) -> Self {
        gravity_number(v)
    }
}

/// Reading back the number of a gravity gives the same gravity.
pub proof fn lemma_gravity_round_trip(g: Gravity)
    ensures
        gravity_of(gravity_number(g)) == g,
{
}

/// A number reads back to itself through a gravity exactly when it is one of the two numbers
/// that name a gravity, 0 and 5.
pub proof fn lemma_gravity_number_round_trip(v: u32)
    ensures
        gravity_number(gravity_of(v)) == v <==> (v == 0 || v == 5),
{
}

} // verus!
