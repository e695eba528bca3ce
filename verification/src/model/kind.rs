use vstd::prelude::*;

use crate::atoms::AtomCollection;
use crate::error::WmCtlError;

verus! {

/// WinKind provides an easy way to identify the different window types
#[derive(Debug, Clone, Copy, PartialEq, Eq, Structural)]
pub enum WinKind {
    Combo,
    Desktop,
    Dialog,
    DND,
    Dock,
    DropDownMenu,
    Menu,
    Normal,
    Notification,
    PopupMenu,
    Splash,
    Toolbar,
    ToolTip,
    Utility,
    Invalid, // made up value to track missing
}

/// The atom that identifies a window type, `None` for `Invalid`.
pub open spec fn kind_atom(atoms: AtomCollection, k: WinKind) -> Option<u32> {
    match k {
        WinKind::Combo => Some(atoms._NET_WM_WINDOW_TYPE_COMBO),
        WinKind::Desktop => Some(atoms._NET_WM_WINDOW_TYPE_DESKTOP),
        WinKind::Dialog => Some(atoms._NET_WM_WINDOW_TYPE_DIALOG),
        WinKind::DND => Some(atoms._NET_WM_WINDOW_TYPE_DND),
        WinKind::Dock => Some(atoms._NET_WM_WINDOW_TYPE_DOCK),
        WinKind::DropDownMenu => Some(atoms._NET_WM_WINDOW_TYPE_DROPDOWN_MENU),
        WinKind::Menu => Some(atoms._NET_WM_WINDOW_TYPE_MENU),
        WinKind::Normal => Some(atoms._NET_WM_WINDOW_TYPE_NORMAL),
        WinKind::Notification => Some(atoms._NET_WM_WINDOW_TYPE_NOTIFICATION),
        WinKind::PopupMenu => Some(atoms._NET_WM_WINDOW_TYPE_POPUP_MENU),
        WinKind::Splash => Some(atoms._NET_WM_WINDOW_TYPE_SPLASH),
        WinKind::Toolbar => Some(atoms._NET_WM_WINDOW_TYPE_TOOLBAR),
        WinKind::ToolTip => Some(atoms._NET_WM_WINDOW_TYPE_TOOLTIP),
        WinKind::Utility => Some(atoms._NET_WM_WINDOW_TYPE_UTILITY),
        WinKind::Invalid => None,
    }
}

/// The place of a kind in the order in which atoms are matched.
pub open spec fn kind_rank(k: WinKind) -> int {
    match k {
        WinKind::Combo => 0,
        WinKind::Desktop => 1,
        WinKind::Dialog => 2,
        WinKind::DND => 3,
        WinKind::Dock => 4,
        WinKind::DropDownMenu => 5,
        WinKind::Menu => 6,
        WinKind::Normal => 7,
        WinKind::Notification => 8,
        WinKind::PopupMenu => 9,
        WinKind::Splash => 10,
        WinKind::Toolbar => 11,
        WinKind::ToolTip => 12,
        WinKind::Utility => 13,
        WinKind::Invalid => 14,
    }
}

/// The lowercase name of a kind; `Invalid` has the empty name.
pub open spec fn kind_text(k: WinKind) -> Seq<char> {
    match k {
        WinKind::Combo => "combo"@,
        WinKind::Desktop => "desktop"@,
        WinKind::Dialog => "dialog"@,
        WinKind::DND => "dnd"@,
        WinKind::Dock => "dock"@,
        WinKind::DropDownMenu => "dropdownmenu"@,
        WinKind::Menu => "menu"@,
        WinKind::Normal => "normal"@,
        WinKind::Notification => "notification"@,
        WinKind::PopupMenu => "popupmenu"@,
        WinKind::Splash => "splash"@,
        WinKind::Toolbar => "toolbar"@,
        WinKind::ToolTip => "tooltip"@,
        WinKind::Utility => "utility"@,
        WinKind::Invalid => ""@,
    }
}

/// True when no two kinds are identified by the same atom, as the X server guarantees for
/// atoms of distinct names.
pub open spec fn kind_atoms_distinct(atoms: AtomCollection) -> bool {
    forall|a: WinKind, b: WinKind| #![trigger kind_atom(atoms, a), kind_atom(atoms, b)]
        a != b && !(a is Invalid) && !(b is Invalid) ==> kind_atom(atoms, a) != kind_atom(atoms, b)
}

/// What converting the atom `val` may give: the first kind in matching order that `val`
/// identifies, or an error that reports `val` when none does.
pub open spec fn kind_from_atom_result(atoms: AtomCollection, val: u32, r: Result<WinKind, WmCtlError>) -> bool {
    match r {
        Ok(k) => kind_atom(atoms, k) == Some(val) && forall|t: WinKind| #[trigger] kind_rank(t) < kind_rank(k) ==> kind_atom(atoms, t) != Some(val),
        Err(e) => e == WmCtlError::InvalidWinType(val) && forall|t: WinKind| #[trigger] kind_atom(atoms, t) != Some(val),
    }
}

impl WinKind {
    /// Convert an atom into the kind it identifies; when several share the atom the first in
    /// matching order is taken
    pub fn from(atoms: &AtomCollection, val: u32) -> (r: Result<WinKind, WmCtlError>)
        ensures
            kind_from_atom_result(*atoms, val, r),
    {
        if val == atoms._NET_WM_WINDOW_TYPE_COMBO {
            Ok(WinKind::Combo)
        } else if val == atoms._NET_WM_WINDOW_TYPE_DESKTOP {
            Ok(WinKind::Desktop)
        } else if val == atoms._NET_WM_WINDOW_TYPE_DIALOG {
            Ok(WinKind::Dialog)
        } else if val == atoms._NET_WM_WINDOW_TYPE_DND {
            Ok(WinKind::DND)
        } else if val == atoms._NET_WM_WINDOW_TYPE_DOCK {
            Ok(WinKind::Dock)
        } else if val == atoms._NET_WM_WINDOW_TYPE_DROPDOWN_MENU {
            Ok(WinKind::DropDownMenu)
        } else if val == atoms._NET_WM_WINDOW_TYPE_MENU {
            Ok(WinKind::Menu)
        } else if val == atoms._NET_WM_WINDOW_TYPE_NORMAL {
            Ok(WinKind::Normal)
        } else if val == atoms._NET_WM_WINDOW_TYPE_NOTIFICATION {
            Ok(WinKind::Notification)
        } else if val == atoms._NET_WM_WINDOW_TYPE_POPUP_MENU {
            Ok(WinKind::PopupMenu)
        } else if val == atoms._NET_WM_WINDOW_TYPE_SPLASH {
            Ok(WinKind::Splash)
        } else if val == atoms._NET_WM_WINDOW_TYPE_TOOLBAR {
            Ok(WinKind::Toolbar)
        } else if val == atoms._NET_WM_WINDOW_TYPE_TOOLTIP {
            Ok(WinKind::ToolTip)
        } else if val == atoms._NET_WM_WINDOW_TYPE_UTILITY {
            Ok(WinKind::Utility)
        } else {
            Err(WmCtlError::InvalidWinType(val))
        }
    }

    /// Lowercase name of the kind, empty for `Invalid`
    pub fn to_string(&self) -> (r: String)
        ensures
            r@ == kind_text(*self),
    {
        match self {
            WinKind::Combo => "combo".to_owned(),
            WinKind::Desktop => "desktop".to_owned(),
            WinKind::Dialog => "dialog".to_owned(),
            WinKind::DND => "dnd".to_owned(),
            WinKind::Dock => "dock".to_owned(),
            WinKind::DropDownMenu => "dropdownmenu".to_owned(),
            WinKind::Menu => "menu".to_owned(),
            WinKind::Normal => "normal".to_owned(),
            WinKind::Notification => "notification".to_owned(),
            WinKind::PopupMenu => "popupmenu".to_owned(),
            WinKind::Splash => "splash".to_owned(),
            WinKind::Toolbar => "toolbar".to_owned(),
            WinKind::ToolTip => "tooltip".to_owned(),
            WinKind::Utility => "utility".to_owned(),
            WinKind::Invalid => "".to_owned(),
        }
    }
}

/// When no two kinds share an atom, converting the atom of a kind gives back exactly that kind.
pub proof fn lemma_kind_from_atom(atoms: AtomCollection, k: WinKind, r: Result<WinKind, WmCtlError>)
    requires
        kind_atoms_distinct(atoms),
        !(k is Invalid),
    ensures
        kind_from_atom_result(atoms, kind_atom(atoms, k)->0, r) <==> r == Ok::<WinKind, WmCtlError>(k),
{
    let val = kind_atom(atoms, k)->0;
    assert forall|t: WinKind| #[trigger] kind_rank(t) < kind_rank(k) implies kind_atom(atoms, t) != Some(val) by {
        assert(t != k);
        if !(t is Invalid) {
            assert(kind_atom(atoms, t) != kind_atom(atoms, k));
        }
    }
    if kind_from_atom_result(atoms, val, r) {
        match r {
            Ok(j) => {
                if j != k {
                    assert(kind_atom(atoms, j) != kind_atom(atoms, k));
                }
            },
            Err(_) => {
                assert(kind_atom(atoms, k) != Some(val));
            },
        }
    }
}

} // verus!
