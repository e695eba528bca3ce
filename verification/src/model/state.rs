use vstd::prelude::*;

use crate::atoms::AtomCollection;
use crate::error::WmCtlError;

verus! {

/// State provides an easy way to identify the different window states
#[derive(Debug, Clone, Copy, PartialEq, Eq, Structural)]
pub enum State {
    Above,            // show the window above others
    Below,            // show the window below others
    DemandsAttention, // same as the urgent flag
    Focused,          // the window has input focus
    Fullscreen,       // show the window fullscreen
    Hidden,           // the window is unmapped
    MaxHorz,          // the window is maximized horizontally
    MaxVert,          // the window is maximized vertically
    Modal,            // the window is a modal dialog
    Shaded,           // the window is rolled up
    SkipPager,        // the window should not be shown on a pager
    SkipTaskbar,      // the window should be ignored by a taskbar
    Sticky,           // the window should be shown on all virtual desktops
    Invalid,          // made up value to track missing
}

/// The atom that identifies a state, `None` for `Invalid`.
pub open spec fn state_atom(atoms: AtomCollection, k: State) -> Option<u32> {
    match k {
        State::Above => Some(atoms._NET_WM_STATE_ABOVE),
        State::Below => Some(atoms._NET_WM_STATE_BELOW),
        State::DemandsAttention => Some(atoms._NET_WM_STATE_DEMANDS_ATTENTION),
        State::Focused => Some(atoms._NET_WM_STATE_FOCUSED),
        State::Fullscreen => Some(atoms._NET_WM_STATE_FULLSCREEN),
        State::Hidden => Some(atoms._NET_WM_STATE_HIDDEN),
        State::MaxHorz => Some(atoms._NET_WM_STATE_MAXIMIZED_HORZ),
        State::MaxVert => Some(atoms._NET_WM_STATE_MAXIMIZED_VERT),
        State::Modal => Some(atoms._NET_WM_STATE_MODAL),
        State::Shaded => Some(atoms._NET_WM_STATE_SHADED),
        State::SkipPager => Some(atoms._NET_WM_STATE_SKIP_PAGER),
        State::SkipTaskbar => Some(atoms._NET_WM_STATE_SKIP_TASKBAR),
        State::Sticky => Some(atoms._NET_WM_STATE_STICKY),
        State::Invalid => None,
    }
}

/// The place of a state in the order in which atoms are matched.
pub open spec fn state_rank(k: State) -> int {
    match k {
        State::Above => 0,
        State::Below => 1,
        State::DemandsAttention => 2,
        State::Focused => 3,
        State::Fullscreen => 4,
        State::Hidden => 5,
        State::MaxHorz => 6,
        State::MaxVert => 7,
        State::Modal => 8,
        State::Shaded => 9,
        State::SkipPager => 10,
        State::SkipTaskbar => 11,
        State::Sticky => 12,
        State::Invalid => 13,
    }
}

/// The lowercase name of a state; `Invalid` has the empty name.
pub open spec fn state_text(k: State) -> Seq<char> {
    match k {
        State::Above => "above"@,
        State::Below => "below"@,
        State::DemandsAttention => "demandsattention"@,
        State::Focused => "focused"@,
        State::Fullscreen => "fullscreen"@,
        State::Hidden => "hidden"@,
        State::MaxHorz => "maxhorz"@,
        State::MaxVert => "maxvert"@,
        State::Modal => "modal"@,
        State::Shaded => "shaded"@,
        State::SkipPager => "skippager"@,
        State::SkipTaskbar => "skiptaskbar"@,
        State::Sticky => "sticky"@,
        State::Invalid => ""@,
    }
}

/// True when no two states are identified by the same atom, as the X server guarantees for
/// atoms of distinct names.
pub open spec fn state_atoms_distinct(atoms: AtomCollection) -> bool {
    forall|a: State, b: State| #![trigger state_atom(atoms, a), state_atom(atoms, b)]
        a != b && !(a is Invalid) && !(b is Invalid) ==> state_atom(atoms, a) != state_atom(atoms, b)
}

/// What converting the atom `val` may give: the first state in matching order that `val`
/// identifies, or an error that reports `val` when none does.
pub open spec fn state_from_atom_result(atoms: AtomCollection, val: u32, r: Result<State, WmCtlError>) -> bool {
    match r {
        Ok(k) => state_atom(atoms, k) == Some(val) && forall|t: State| #[trigger] state_rank(t) < state_rank(k) ==> state_atom(atoms, t) != Some(val),
        Err(e) => e == WmCtlError::InvalidWinState(val) && forall|t: State| #[trigger] state_atom(atoms, t) != Some(val),
    }
}

impl State {
    /// Convert an atom into the state it identifies; when several share the atom the first in
    /// matching order is taken
    pub fn from(atoms: &AtomCollection, val: u32) -> (r: Result<State, WmCtlError>)
        ensures
            state_from_atom_result(*atoms, val, r),
    {
        if val == atoms._NET_WM_STATE_ABOVE {
            Ok(State::Above)
        } else if val == atoms._NET_WM_STATE_BELOW {
            Ok(State::Below)
        } else if val == atoms._NET_WM_STATE_DEMANDS_ATTENTION {
            Ok(State::DemandsAttention)
        } else if val == atoms._NET_WM_STATE_FOCUSED {
            Ok(State::Focused)
        } else if val == atoms._NET_WM_STATE_FULLSCREEN {
            Ok(State::Fullscreen)
        } else if val == atoms._NET_WM_STATE_HIDDEN {
            Ok(State::Hidden)
        } else if val == atoms._NET_WM_STATE_MAXIMIZED_HORZ {
            Ok(State::MaxHorz)
        } else if val == atoms._NET_WM_STATE_MAXIMIZED_VERT {
            Ok(State::MaxVert)
        } else if val == atoms._NET_WM_STATE_MODAL {
            Ok(State::Modal)
        } else if val == atoms._NET_WM_STATE_SHADED {
            Ok(State::Shaded)
        } else if val == atoms._NET_WM_STATE_SKIP_PAGER {
            Ok(State::SkipPager)
        } else if val == atoms._NET_WM_STATE_SKIP_TASKBAR {
            Ok(State::SkipTaskbar)
        } else if val == atoms._NET_WM_STATE_STICKY {
            Ok(State::Sticky)
        } else {
            Err(WmCtlError::InvalidWinState(val))
        }
    }

    /// Lowercase name of the state, empty for `Invalid`
    pub fn to_string(&self) -> (r: String)
        ensures
            r@ == state_text(*self),
    {
        match self {
            State::Above => "above".to_owned(),
            State::Below => "below".to_owned(),
            State::DemandsAttention => "demandsattention".to_owned(),
            State::Focused => "focused".to_owned(),
            State::Fullscreen => "fullscreen".to_owned(),
            State::Hidden => "hidden".to_owned(),
            State::MaxHorz => "maxhorz".to_owned(),
            State::MaxVert => "maxvert".to_owned(),
            State::Modal => "modal".to_owned(),
            State::Shaded => "shaded".to_owned(),
            State::SkipPager => "skippager".to_owned(),
            State::SkipTaskbar => "skiptaskbar".to_owned(),
            State::Sticky => "sticky".to_owned(),
            State::Invalid => "".to_owned(),
        }
    }
}

/// When no two states share an atom, converting the atom of a state gives back exactly that state.
pub proof fn lemma_state_from_atom(atoms: AtomCollection, k: State, r: Result<State, WmCtlError>)
    requires
        state_atoms_distinct(atoms),
        !(k is Invalid),
    ensures
        state_from_atom_result(atoms, state_atom(atoms, k)->0, r) <==> r == Ok::<State, WmCtlError>(k),
{
    let val = state_atom(atoms, k)->0;
    assert forall|t: State| #[trigger] state_rank(t) < state_rank(k) implies state_atom(atoms, t) != Some(val) by {
        assert(t != k);
        if !(t is Invalid) {
            assert(state_atom(atoms, t) != state_atom(atoms, k));
        }
    }
    if state_from_atom_result(atoms, val, r) {
        match r {
            Ok(j) => {
                if j != k {
                    assert(state_atom(atoms, j) != state_atom(atoms, k));
                }
            },
            Err(_) => {
                assert(state_atom(atoms, k) != Some(val));
            },
        }
    }
}

} // verus!
