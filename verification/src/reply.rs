//! Interpretation of the X server's replies. Whoever holds the connection asks the X server for
//! a property or a window's attributes and hands the reply's values to these functions, which
//! turn them into the library's model.
//!
//! A property reply carries its values as 32 bit numbers only when its format is 32; the
//! functions take those numbers as `None` otherwise.
use std::collections::HashMap;
use vstd::prelude::*;
use vstd::string::StringSliceAdditionalSpecFns;
use vstd::utf8::{decode_utf8, encode_utf8, valid_utf8};

use crate::atoms::AtomCollection;
use crate::error::WmCtlError;
use crate::model::{Border, Property, State, WinKind, kind_from_atom_result, state_from_atom_result};
use crate::text::{nat_text, usize_text, utf8_text};
use crate::x11::none;

verus! {

/// True when `r` is the error that reports the property `name` as not found.
pub open spec fn not_found<T>(r: Result<T, WmCtlError>, name: Seq<char>) -> bool {
    r matches Err(WmCtlError::PropertyNotFound(s)) && s@ == name
}

/// The `i`th 32 bit value of a reply, if the reply has 32 bit values and that many.
pub open spec fn value_at(values: Option<Vec<u32>>, i: int) -> Option<u32> {
    match values {
        Some(v) => if 0 <= i < v@.len() { Some(v@[i]) } else { None },
        None => None,
    }
}

/// The first 32 bit value of a reply, or an error reporting the property `name`.
fn first_value(values: &Option<Vec<u32>>, name: &str) -> (r: Result<u32, WmCtlError>)
    ensures
        match value_at(*values, 0) {
            Some(v) => r == Ok::<u32, WmCtlError>(v),
            None => not_found(r, name@),
        },
{
    match values {
        Some(v) if v.len() > 0 => Ok(v[0]),
        _ => Err(WmCtlError::PropertyNotFound(name.to_owned())),
    }
}

/// The active window id from the root window's `_NET_ACTIVE_WINDOW` property (WINDOW/32)
pub fn active_window(values: &Option<Vec<u32>>) -> (r: Result<u32, WmCtlError>)
    ensures
        match value_at(*values, 0) {
            Some(v) => r == Ok::<u32, WmCtlError>(v),
            None => not_found(r, "_NET_ACTIVE_WINDOW"@),
        },
{
    first_value(values, "_NET_ACTIVE_WINDOW")
}

/// The number of desktops from the root window's `_NET_NUMBER_OF_DESKTOPS` property
/// (CARDINAL/32)
pub fn desktops(values: &Option<Vec<u32>>) -> (r: Result<u32, WmCtlError>)
    ensures
        match value_at(*values, 0) {
            Some(v) => r == Ok::<u32, WmCtlError>(v),
            None => not_found(r, "_NET_NUMBER_OF_DESKTOPS"@),
        },
{
    first_value(values, "_NET_NUMBER_OF_DESKTOPS")
}

/// The window manager's window id from the root window's `_NET_SUPPORTING_WM_CHECK` property
/// (WINDOW/32)
pub fn winmgr_id(values: &Option<Vec<u32>>) -> (r: Result<u32, WmCtlError>)
    ensures
        match value_at(*values, 0) {
            Some(v) => r == Ok::<u32, WmCtlError>(v),
            None => not_found(r, "_NET_SUPPORTING_WM_CHECK"@),
        },
{
    first_value(values, "_NET_SUPPORTING_WM_CHECK")
}

/// All 32 bit values of a reply, or an error reporting the property `name`.
fn all_values(values: &Option<Vec<u32>>, name: &str) -> (r: Result<Vec<u32>, WmCtlError>)
    ensures
        match *values {
            Some(v) => r matches Ok(ids) && ids@ == v@,
            None => not_found(r, name@),
        },
{
    match values {
        Some(v) => Ok(v.clone()),
        None => Err(WmCtlError::PropertyNotFound(name.to_owned())),
    }
}

/// The atoms of the functions the window manager supports, from the root window's
/// `_NET_SUPPORTED` property (ATOM[]/32)
pub fn supported_ids(values: &Option<Vec<u32>>) -> (r: Result<Vec<u32>, WmCtlError>)
    ensures
        match *values {
            Some(v) => r matches Ok(ids) && ids@ == v@,
            None => not_found(r, "_NET_SUPPORTED"@),
        },
{
    all_values(values, "_NET_SUPPORTED")
}

/// The ids of the windows the window manager manages, from the root window's
/// `_NET_CLIENT_LIST` property (WINDOW[]/32)
pub fn client_list(values: &Option<Vec<u32>>) -> (r: Result<Vec<u32>, WmCtlError>)
    ensures
        match *values {
            Some(v) => r matches Ok(ids) && ids@ == v@,
            None => not_found(r, "_NET_CLIENT_LIST"@),
        },
{
    all_values(values, "_NET_CLIENT_LIST")
}

/// A 32 bit number read as a two's complement `i32`.
pub open spec fn as_signed(v: u32) -> int {
    if v <= i32::MAX { v as int } else { v - 0x1_0000_0000 }
}

/// `v as i32`, the two's complement reading of `v`.
fn signed(v: u32) -> (r: i32)
    ensures
        r == as_signed(v),
{
    let r = v as i32;
    assert(r == (if v <= 0x7fff_ffff { v as int } else { v - 0x1_0000_0000 })) by (bit_vector)
        requires
            r == v as i32;
    r
}

/// The window's process id from its `_NET_WM_PID` property (CARDINAL/32), read as an `i32`
pub fn window_pid(values: &Option<Vec<u32>>) -> (r: Result<i32, WmCtlError>)
    ensures
        match value_at(*values, 0) {
            Some(v) => r matches Ok(pid) && pid == as_signed(v),
            None => not_found(r, "_NET_WM_PID"@),
        },
{
    match first_value(values, "_NET_WM_PID") {
        Ok(pid) => Ok(signed(pid)),
        Err(e) => Err(e),
    }
}

/// The window's kind from its `_NET_WM_WINDOW_TYPE` property (ATOM[]/32): the first type atom
pub fn window_kind(atoms: &AtomCollection, values: &Option<Vec<u32>>) -> (r: Result<WinKind, WmCtlError>)
    ensures
        match value_at(*values, 0) {
            Some(v) => kind_from_atom_result(*atoms, v, r),
            None => not_found(r, "_NET_WM_WINDOW_TYPE"@),
        },
{
    match first_value(values, "_NET_WM_WINDOW_TYPE") {
        Ok(typ) => WinKind::from(atoms, typ),
        Err(e) => Err(e),
    }
}

/// The window's desktop number from its `_NET_WM_DESKTOP` property: 1 based, or -1 when the
/// window has none.
pub open spec fn desktop_number(first: Option<u32>) -> int {
    match first {
        Some(v) => if as_signed(v) == -1 { -1 } else { as_signed(v) + 1 },
        None => -1,
    }
}

/// The window's desktop from its `_NET_WM_DESKTOP` property (CARDINAL/32), numbered from 1 as
/// desktops are typically numbered; -1 when the window has no desktop
pub fn window_desktop(values: &Option<Vec<u32>>) -> (r: i32)
    requires
        value_at(*values, 0) != Some(i32::MAX as u32),
    ensures
        r == desktop_number(value_at(*values, 0)),
{
    let mut desktop: i32 = match values {
        Some(v) if v.len() > 0 => signed(v[0]),
        _ => -1,
    };

    // Offset to align with how desktops are typically numbered
    if desktop != -1 {
        desktop += 1;
    }
    desktop
}

/// Four 32 bit values of a reply, or an error reporting the property `name` or, when the reply
/// has fewer values, the first missing value's name.
fn four_values(values: &Option<Vec<u32>>, name: &str, names: [&str; 4]) -> (r: Result<(u32, u32, u32, u32), WmCtlError>)
    ensures
        match *values {
            None => not_found(r, name@),
            Some(v) => if v@.len() >= 4 {
                r == Ok::<(u32, u32, u32, u32), WmCtlError>((v@[0], v@[1], v@[2], v@[3]))
            } else {
                not_found(r, names@[v@.len() as int]@)
            },
        },
{
    match values {
        None => Err(WmCtlError::PropertyNotFound(name.to_owned())),
        Some(v) => {
            if v.len() < 4 {
                let missing = names[v.len()];
                Err(WmCtlError::PropertyNotFound(missing.to_owned()))
            } else {
                Ok((v[0], v[1], v[2], v[3]))
            }
        },
    }
}

/// True when `r` is a border read from the 32 bit values of a frame extents property named
/// `name`: left, right, top and bottom, or the error for the first missing one.
pub open spec fn border_reply(values: Option<Vec<u32>>, r: Result<Border, WmCtlError>, name: Seq<char>) -> bool {
    match values {
        None => not_found(r, name),
        Some(v) => if v@.len() >= 4 {
            r == Ok::<Border, WmCtlError>(Border { l: v@[0], r: v@[1], t: v@[2], b: v@[3] })
        } else if v@.len() == 0 {
            not_found(r, name + " left"@)
        } else if v@.len() == 1 {
            not_found(r, name + " right"@)
        } else if v@.len() == 2 {
            not_found(r, name + " top"@)
        } else {
            not_found(r, name + " bottom"@)
        },
    }
}

/// The frame borders the window manager decorates the window with, from the window's
/// `_NET_FRAME_EXTENTS` property: left, right, top, bottom, CARDINAL[4]/32
pub fn window_borders(values: &Option<Vec<u32>>) -> (r: Result<Border, WmCtlError>)
    ensures
        border_reply(*values, r, "_NET_FRAME_EXTENTS"@),
{
    let names = [
        "_NET_FRAME_EXTENTS left",
        "_NET_FRAME_EXTENTS right",
        "_NET_FRAME_EXTENTS top",
        "_NET_FRAME_EXTENTS bottom",
    ];
    proof {
        reveal_strlit("_NET_FRAME_EXTENTS");
        reveal_strlit(" left");
        reveal_strlit(" right");
        reveal_strlit(" top");
        reveal_strlit(" bottom");
        reveal_strlit("_NET_FRAME_EXTENTS left");
        reveal_strlit("_NET_FRAME_EXTENTS right");
        reveal_strlit("_NET_FRAME_EXTENTS top");
        reveal_strlit("_NET_FRAME_EXTENTS bottom");
        assert("_NET_FRAME_EXTENTS"@ + " left"@ =~= "_NET_FRAME_EXTENTS left"@);
        assert("_NET_FRAME_EXTENTS"@ + " right"@ =~= "_NET_FRAME_EXTENTS right"@);
        assert("_NET_FRAME_EXTENTS"@ + " top"@ =~= "_NET_FRAME_EXTENTS top"@);
        assert("_NET_FRAME_EXTENTS"@ + " bottom"@ =~= "_NET_FRAME_EXTENTS bottom"@);
    }
    match four_values(values, "_NET_FRAME_EXTENTS", names) {
        Ok((l, r, t, b)) => Ok(Border { l, r, t, b }),
        Err(e) => Err(e),
    }
}

/// The borders a client side decorated (GTK) application draws around its window, from the
/// window's `_GTK_FRAME_EXTENTS` property: left, right, top, bottom, CARDINAL[4]/32. The
/// property is optional: when its value is empty (`value_empty`) the borders are zero.
pub fn window_gtk_borders(value_empty: bool, values: &Option<Vec<u32>>) -> (r: Result<Border, WmCtlError>)
    ensures
        value_empty ==> r == Ok::<Border, WmCtlError>(Border { l: 0, r: 0, t: 0, b: 0 }),
        !value_empty ==> border_reply(*values, r, "_GTK_FRAME_EXTENTS"@),
{
    // Don't abort if the property is not found as it's not required
    if value_empty {
        return Ok(Border { l: 0, r: 0, t: 0, b: 0 });
    }
    let names = [
        "_GTK_FRAME_EXTENTS left",
        "_GTK_FRAME_EXTENTS right",
        "_GTK_FRAME_EXTENTS top",
        "_GTK_FRAME_EXTENTS bottom",
    ];
    proof {
        reveal_strlit("_GTK_FRAME_EXTENTS");
        reveal_strlit(" left");
        reveal_strlit(" right");
        reveal_strlit(" top");
        reveal_strlit(" bottom");
        reveal_strlit("_GTK_FRAME_EXTENTS left");
        reveal_strlit("_GTK_FRAME_EXTENTS right");
        reveal_strlit("_GTK_FRAME_EXTENTS top");
        reveal_strlit("_GTK_FRAME_EXTENTS bottom");
        assert("_GTK_FRAME_EXTENTS"@ + " left"@ =~= "_GTK_FRAME_EXTENTS left"@);
        assert("_GTK_FRAME_EXTENTS"@ + " right"@ =~= "_GTK_FRAME_EXTENTS right"@);
        assert("_GTK_FRAME_EXTENTS"@ + " top"@ =~= "_GTK_FRAME_EXTENTS top"@);
        assert("_GTK_FRAME_EXTENTS"@ + " bottom"@ =~= "_GTK_FRAME_EXTENTS bottom"@);
    }
    match four_values(values, "_GTK_FRAME_EXTENTS", names) {
        Ok((l, r, t, b)) => Ok(Border { l, r, t, b }),
        Err(e) => Err(e),
    }
}

/// The work area's (width, height) from the root window's `_NET_WORKAREA` property
/// (x, y, width, height, CARDINAL[][4]/32): the width and height of the first desktop, each
/// truncated to 16 bits, or the error for the property or its first missing value.
pub fn workarea(values: &Option<Vec<u32>>) -> (r: Result<(u16, u16), WmCtlError>)
    ensures
        match *values {
            None => not_found(r, "_NET_WORKAREA"@),
            Some(v) => if v@.len() >= 4 {
                r == Ok::<(u16, u16), WmCtlError>(((v@[2] % 0x1_0000) as u16, (v@[3] % 0x1_0000) as u16))
            } else if v@.len() == 0 {
                not_found(r, "_NET_WORKAREA x"@)
            } else if v@.len() == 1 {
                not_found(r, "_NET_WORKAREA y"@)
            } else if v@.len() == 2 {
                not_found(r, "_NET_WORKAREA width"@)
            } else {
                not_found(r, "_NET_WORKAREA height"@)
            },
        },
{
    let names = ["_NET_WORKAREA x", "_NET_WORKAREA y", "_NET_WORKAREA width", "_NET_WORKAREA height"];
    match four_values(values, "_NET_WORKAREA", names) {
        // x and y are always zero so dropping them
        Ok((_x, _y, w, h)) => {
            let (w16, h16) = (w as u16, h as u16);
            assert(w16 == (w % 0x1_0000) as u16 && h16 == (h % 0x1_0000) as u16) by (bit_vector)
                requires
                    w16 == w as u16,
                    h16 == h as u16;
            Ok((w16, h16))
        },
        Err(e) => Err(e),
    }
}

/// True when the atom `v` identifies some window state.
pub open spec fn is_state_atom(atoms: AtomCollection, v: u32) -> bool {
    exists|t: State| #[trigger] crate::model::state_atom(atoms, t) == Some(v)
}

/// True when `r` is what reading the states of a `_NET_WM_STATE` property gives: no states
/// for an empty property; otherwise the state of each atom, or the error of the first atom
/// that identifies no state.
pub open spec fn states_reply(atoms: AtomCollection, value_len: u32, values: Option<Vec<u32>>, r: Result<Vec<State>, WmCtlError>) -> bool {
    if value_len == 0 {
        r matches Ok(states) && states@.len() == 0
    } else {
        match values {
            None => not_found(r, "_NET_WM_STATE"@),
            Some(v) => {
                &&& r is Ok <==> forall|i: int| 0 <= i < v@.len() ==> is_state_atom(atoms, #[trigger] v@[i])
                &&& r matches Ok(states) ==> {
                    &&& states@.len() == v@.len()
                    &&& forall|i: int| 0 <= i < v@.len() ==> state_from_atom_result(atoms, v@[i], Ok(#[trigger] states@[i]))
                }
                &&& r matches Err(e) ==> exists|i: int| {
                    &&& 0 <= i < v@.len()
                    &&& forall|j: int| 0 <= j < i ==> is_state_atom(atoms, #[trigger] v@[j])
                    &&& state_from_atom_result(atoms, #[trigger] v@[i], Err(e))
                }
            },
        }
    }
}

/// The window's states from its `_NET_WM_STATE` property (ATOM[]), given the property's value
/// length and its 32 bit values
pub fn window_state(atoms: &AtomCollection, value_len: u32, values: &Option<Vec<u32>>) -> (r: Result<Vec<State>, WmCtlError>)
    ensures
        states_reply(*atoms, value_len, *values, r),
{
    let mut states: Vec<State> = Vec::new();
    if value_len > 0 {
        let vals = match values {
            Some(v) => v,
            None => return Err(WmCtlError::PropertyNotFound("_NET_WM_STATE".to_owned())),
        };
        let mut i: usize = 0;
        while i < vals.len()
            invariant
                *values == Some(*vals),
                value_len > 0,
                i <= vals@.len(),
                states@.len() == i,
                forall|j: int| 0 <= j < i ==> state_from_atom_result(*atoms, vals@[j], Ok(#[trigger] states@[j])),
                forall|j: int| 0 <= j < i ==> is_state_atom(*atoms, #[trigger] vals@[j]),
            decreases vals@.len() - i,
        {
            match State::from(atoms, vals[i]) {
                Ok(state) => {
                    states.push(state);
                },
                Err(e) => {
                    proof {
                        let k = i as int;
                        assert(!is_state_atom(*atoms, vals@[k]));
                        assert(!(forall|j: int| 0 <= j < vals@.len() ==> is_state_atom(*atoms, #[trigger] vals@[j])));
                        assert(0 <= k < vals@.len() && (forall|j: int| 0 <= j < k ==> is_state_atom(*atoms, #[trigger] vals@[j]))
                            && state_from_atom_result(*atoms, vals@[k], Err(e)));
                        let r: Result<Vec<State>, WmCtlError> = Err(e);
                        assert(!(r is Ok));
                        assert(r matches Err(e2) ==> exists|i: int| {
                            &&& 0 <= i < vals@.len()
                            &&& forall|j: int| 0 <= j < i ==> is_state_atom(*atoms, #[trigger] vals@[j])
                            &&& state_from_atom_result(*atoms, #[trigger] vals@[i], Err(e2))
                        });
                        let v = values->0;
                        assert(v@ == vals@);
                        assert((r is Ok) <==> (forall|i: int| 0 <= i < v@.len() ==> is_state_atom(*atoms, #[trigger] v@[i])));
                        assert(r matches Err(e2) ==> exists|i: int| {
                            &&& 0 <= i < v@.len()
                            &&& forall|j: int| 0 <= j < i ==> is_state_atom(*atoms, #[trigger] v@[j])
                            &&& state_from_atom_result(*atoms, #[trigger] v@[i], Err(e2))
                        });
                        assert(states_reply(*atoms, value_len, *values, r));
                    }
                    return Err(e);
                },
            }
            i += 1;
        }
    }
    Ok(states)
}

/// True when GTK borders were read and are not all zero, i.e. the window draws client side
/// decorations.
pub open spec fn csd_decorated(gtk_borders: Option<Border>) -> bool {
    gtk_borders matches Some(g) && g.has_any()
}

/// True when the visual geometry of a window can be computed: with client side decorations
/// they fit in the window and shift its position within `i32`, otherwise the window manager's
/// borders can be added to the window's size and subtracted from its position.
pub open spec fn visual_geometry_ok(geometry: (i32, i32, u32, u32), gtk_borders: Option<Border>, borders: Option<Border>) -> bool {
    let (x, y, w, h) = geometry;
    if csd_decorated(gtk_borders) {
        let g = gtk_borders->0;
        &&& g.l + g.r <= w
        &&& g.t + g.b <= h
        &&& g.l <= i32::MAX && x + g.l <= i32::MAX
        &&& g.t <= i32::MAX && y + g.t <= i32::MAX
    } else {
        match borders {
            Some(b) => {
                &&& w + b.l + b.r <= u32::MAX
                &&& h + b.t + b.b <= u32::MAX
                &&& b.l <= i32::MAX && x - b.l >= i32::MIN
                &&& b.t <= i32::MAX && y - b.t >= i32::MIN
            },
            None => true,
        }
    }
}

/// The visual geometry of a window: with client side decorations (non zero GTK borders) the
/// window minus those decorations, otherwise the window plus the window manager's borders when
/// they are known.
pub open spec fn visual_geometry_of(geometry: (i32, i32, u32, u32), gtk_borders: Option<Border>, borders: Option<Border>) -> (int, int, int, int) {
    let (x, y, w, h) = geometry;
    if csd_decorated(gtk_borders) {
        let g = gtk_borders->0;
        (x + g.l, y + g.t, w - g.l - g.r, h - g.t - g.b)
    } else {
        match borders {
            Some(b) => (x - b.l, y - b.t, w + b.l + b.r, h + b.t + b.b),
            None => (x as int, y as int, w as int, h as int),
        }
    }
}

/// Check that the visual geometry of a window can be computed
pub fn visual_geometry_fits(geometry: (i32, i32, u32, u32), gtk_borders: &Option<Border>, borders: &Option<Border>) -> (r: bool)
    ensures
        r == visual_geometry_ok(geometry, *gtk_borders, *borders),
{
    let (x, y, w, h) = geometry;
    let (x, y, w, h) = (x as i64, y as i64, w as u64, h as u64);
    if let Some(g) = gtk_borders {
        if g.any() {
            let (l, r, t, b) = (g.l as u64, g.r as u64, g.t as u64, g.b as u64);
            return l + r <= w && t + b <= h && l <= 0x7fff_ffff && x + l as i64 <= 0x7fff_ffff
                && t <= 0x7fff_ffff && y + t as i64 <= 0x7fff_ffff;
        }
    }
    if let Some(b) = borders {
        let (l, r, t, bt) = (b.l as u64, b.r as u64, b.t as u64, b.b as u64);
        w + l + r <= 0xffff_ffff && h + t + bt <= 0xffff_ffff && l <= 0x7fff_ffff
            && x - l as i64 >= -0x8000_0000 && t <= 0x7fff_ffff && y - t as i64 >= -0x8000_0000
    } else {
        true
    }
}

/// Get the window's visual geometry. It represents the window's size and position including
/// its frame or visually perceived frame.
///
/// * For window manager decorated windows this is the window's size plus the window manager's
///   border decorations, and its position moved by the borders.
/// * For client side decorated (CSD) windows, e.g. GTK apps with a semi-transparent border that
///   is reported as part of the window's size but isn't visible, this is the window's size
///   minus those borders, and its position moved in by them.
///
/// ### Arguments
/// * `geometry` - the window's (x, y, w, h) as the window manager reports it
/// * `gtk_borders` - the window's GTK borders, when they could be read
/// * `borders` - the window manager's borders of the window, when they could be read
pub fn window_visual_geometry(geometry: (i32, i32, u32, u32), gtk_borders: &Option<Border>, borders: &Option<Border>) -> (r: (i32, i32, u32, u32))
    requires
        visual_geometry_ok(geometry, *gtk_borders, *borders),
    ensures
        (r.0 as int, r.1 as int, r.2 as int, r.3 as int) == visual_geometry_of(geometry, *gtk_borders, *borders),
{
    let (mut x, mut y, mut w, mut h) = geometry;

    // Account for CSD borders
    let mut is_gtk = false;
    if let Some(g) = gtk_borders {
        if g.l > 0 || g.r > 0 || g.t > 0 || g.b > 0 {
            w = w - g.l - g.r;
            h = h - g.t - g.b;
            x = x + g.l as i32;
            y = y + g.t as i32;
            is_gtk = true;
        }
    }
    if !is_gtk {
        if let Some(b) = borders {
            w = w + b.l + b.r;
            h = h + b.t + b.b;
            x = x - b.l as i32;
            y = y - b.t as i32;
        }
    }
    (x, y, w, h)
}

/// Offset of the first zero byte of `s`, or its length when it holds none.
pub open spec fn first_nul(s: Seq<u8>) -> int
    decreases s.len(),
{
    if s.len() == 0 {
        0
    } else if s[0] == 0 {
        0
    } else {
        1 + first_nul(s.drop_first())
    }
}

/// The second of the zero terminated strings of a `WM_CLASS` value: what follows the first
/// zero byte, up to the next zero byte or the end.
pub open spec fn wm_class_second(s: Seq<u8>) -> Seq<u8> {
    let rest = if first_nul(s) < s.len() { s.subrange(first_nul(s) + 1, s.len() as int) } else { Seq::<u8>::empty() };
    rest.subrange(0, first_nul(rest))
}

proof fn lemma_first_nul(s: Seq<u8>)
    ensures
        0 <= first_nul(s) <= s.len(),
        forall|i: int| 0 <= i < first_nul(s) ==> s[i] != 0,
        first_nul(s) < s.len() ==> s[first_nul(s)] == 0,
    decreases s.len(),
{
    if s.len() > 0 && s[0] != 0 {
        lemma_first_nul(s.drop_first());
        assert forall|i: int| 0 <= i < first_nul(s) implies s[i] != 0 by {
            if i > 0 {
                assert(s[i] == s.drop_first()[i - 1]);
            }
        }
    }
}

proof fn lemma_first_nul_unique(s: Seq<u8>, k: int)
    requires
        0 <= k <= s.len(),
        forall|i: int| 0 <= i < k ==> s[i] != 0,
        k < s.len() ==> s[k] == 0,
    ensures
        first_nul(s) == k,
    decreases s.len(),
{
    if s.len() > 0 && s[0] != 0 {
        assert forall|i: int| 0 <= i < k - 1 implies s.drop_first()[i] != 0 by {
            assert(s.drop_first()[i] == s[i + 1]);
        }
        lemma_first_nul_unique(s.drop_first(), k - 1);
    }
}

/// Offset of the first zero byte of `bytes` at or after `start`, or its length.
fn find_nul(bytes: &Vec<u8>, start: usize) -> (r: usize)
    requires
        start <= bytes@.len(),
    ensures
        start <= r <= bytes@.len(),
        forall|i: int| start <= i < r ==> bytes@[i] != 0,
        r < bytes@.len() ==> bytes@[r as int] == 0,
{
    let mut i = start;
    while i < bytes.len() && bytes[i] != 0
        invariant
            start <= i <= bytes@.len(),
            forall|j: int| start <= j < i ==> bytes@[j] != 0,
        decreases bytes@.len() - i,
    {
        i += 1;
    }
    i
}

/// The window's class, which is typically the application's name, from its `WM_CLASS`
/// property (STRING): the second of the property's zero terminated strings, or the error of
/// decoding it as UTF-8
pub fn window_class(value: &Vec<u8>) -> (r: Result<String, std::str::Utf8Error>)
    ensures
        r is Ok <==> valid_utf8(wm_class_second(value@)),
        r matches Ok(c) ==> c@ == decode_utf8(wm_class_second(value@)),
{
    // Skip the first null terminated string and extract the second
    let first = find_nul(value, 0);
    let start = if first < value.len() { first + 1 } else { value.len() };
    let end = find_nul(value, start);
    let mut class: Vec<u8> = Vec::new();
    let mut i = start;
    while i < end
        invariant
            start <= i <= end <= value@.len(),
            class@ == value@.subrange(start as int, i as int),
        decreases end - i,
    {
        class.push(value[i]);
        i += 1;
        proof {
            assert(class@ =~= value@.subrange(start as int, i as int));
        }
    }
    proof {
        let s = value@;
        lemma_first_nul_unique(s, first as int);
        let rest = if first < s.len() { s.subrange(first + 1, s.len() as int) } else { Seq::<u8>::empty() };
        assert(rest =~= s.subrange(start as int, s.len() as int));
        assert forall|j: int| 0 <= j < end - start implies rest[j] != 0 by {
            assert(rest[j] == s[start + j]);
        }
        if end < s.len() {
            assert(rest[end - start] == s[end as int]);
        }
        lemma_first_nul_unique(rest, end - start);
        assert(class@ =~= wm_class_second(s));
    }
    utf8_text(class.as_slice())
}

/// The name a window name property gives: its text when the property exists (its type is not
/// `NONE`), is valid UTF-8 and is not empty.
pub open spec fn reply_name(type_: u32, value: Seq<u8>) -> Option<Seq<char>> {
    if type_ != 0 && valid_utf8(value) && decode_utf8(value).len() > 0 {
        Some(decode_utf8(value))
    } else {
        None
    }
}

/// The window name that a name property reply (`_NET_WM_VISIBLE_NAME`, `_NET_WM_NAME` or
/// `WM_NAME`) gives, if any; `type_` is the reply's type and `value` its bytes
pub fn name_from_reply(type_: u32, value: &Vec<u8>) -> (r: Option<String>)
    ensures
        match reply_name(type_, value@) {
            Some(n) => r matches Some(s) && s@ == n,
            None => r is None,
        },
{
    if type_ != none() {
        if let Ok(name) = utf8_text(value.as_slice()) {
            proof {
                if value@.len() == 0 {
                    assert(value@ =~= Seq::<u8>::empty());
                    assert(decode_utf8(value@) =~= Seq::<char>::empty());
                } else {
                    vstd::utf8::decode_utf8_encode_utf8(value@);
                    if decode_utf8(value@).len() == 0 {
                        assert(decode_utf8(value@) =~= Seq::<char>::empty());
                        assert(vstd::utf8::encode_utf8(decode_utf8(value@)) =~= Seq::<u8>::empty());
                    }
                }
            }
            // the text is empty exactly when its bytes are
            let len = value.len();
            if len > 0 {
                return Some(name);
            }
        }
    }
    None
}

/// A window name property reply names the window by its text whenever the property exists,
/// whatever its type (`STRING` for `WM_NAME`, `UTF8_STRING` for the EWMH names), and its bytes
/// are valid, non-empty UTF-8; a missing property (type `NONE`), invalid UTF-8 or an empty value
/// names nothing. A name that is given encodes back to exactly the reply's bytes.
pub proof fn lemma_reply_name(type_: u32, other: u32, value: Seq<u8>)
    ensures
        type_ != 0 && valid_utf8(value) && value.len() > 0 ==> reply_name(type_, value) == Some(decode_utf8(value)),
        type_ == 0 || !valid_utf8(value) || value.len() == 0 ==> reply_name(type_, value) is None,
        type_ != 0 && other != 0 ==> reply_name(type_, value) == reply_name(other, value),
        reply_name(type_, value) matches Some(n) ==> n.len() > 0 && encode_utf8(n) == value,
{
    if value.len() == 0 {
        assert(value =~= Seq::<u8>::empty());
        assert(decode_utf8(value) =~= Seq::<char>::empty());
    } else if valid_utf8(value) {
        vstd::utf8::decode_utf8_encode_utf8(value);
        if decode_utf8(value).len() == 0 {
            assert(decode_utf8(value) =~= Seq::<char>::empty());
            assert(encode_utf8(decode_utf8(value)) =~= Seq::<u8>::empty());
        }
    }
}

/// The name of an atom from a `GetAtomName` reply: its text, or empty when it isn't valid UTF-8
pub fn atom_name(name: &Vec<u8>) -> (r: String)
    ensures
        valid_utf8(name@) ==> r@ == decode_utf8(name@),
        !valid_utf8(name@) ==> r@ == Seq::<char>::empty(),
{
    match utf8_text(name.as_slice()) {
        Ok(value) => value,
        Err(_) => String::new(),
    }
}

/// The data of a `_NET_WM_STATE` client message that adds (`action` 1) or removes (`action` 0)
/// the maximized horizontally and vertically states.
pub fn max_state_data(atoms: &AtomCollection, action: u32) -> (r: [u32; 5])
    ensures
        r@ == seq![action, atoms._NET_WM_STATE_MAXIMIZED_HORZ, atoms._NET_WM_STATE_MAXIMIZED_VERT, 0u32, 0u32],
{
    let r = [action, atoms._NET_WM_STATE_MAXIMIZED_HORZ, atoms._NET_WM_STATE_MAXIMIZED_VERT, 0, 0];
    assert(r@ =~= seq![action, atoms._NET_WM_STATE_MAXIMIZED_HORZ, atoms._NET_WM_STATE_MAXIMIZED_VERT, 0u32, 0u32]);
    r
}

/// The names of atoms from their `GetAtomName` replies: each atom whose name is valid UTF-8
/// maps to that name's text; an atom given more than once keeps its last valid name.
pub open spec fn atom_names(ids: Seq<u32>, names: Seq<Seq<u8>>) -> Map<u32, Seq<char>>
    decreases ids.len(),
{
    if ids.len() == 0 || names.len() == 0 {
        Map::empty()
    } else {
        let rest = atom_names(ids.drop_last(), names.drop_last());
        if valid_utf8(names.last()) {
            rest.insert(ids.last(), decode_utf8(names.last()))
        } else {
            rest
        }
    }
}

/// The bytes of each vector.
pub open spec fn byte_seqs(v: Seq<Vec<u8>>) -> Seq<Seq<u8>> {
    v.map_values(|b: Vec<u8>| b@)
}

/// The texts of a map's strings.
pub open spec fn texts(m: Map<u32, String>) -> Map<u32, Seq<char>> {
    m.map_values(|s: String| s@)
}

/// Convert atoms into a map of id => name, given the name bytes of each atom's `GetAtomName`
/// reply in the same order. Atoms whose names are not valid UTF-8 are left out.
pub fn atom_map(ids: &Vec<u32>, names: &Vec<Vec<u8>>) -> (r: HashMap<u32, String>)
    requires
        ids@.len() == names@.len(),
    ensures
        texts(r@) == atom_names(ids@, byte_seqs(names@)),
{
    broadcast use vstd::std_specs::hash::group_hash_axioms;
    let mut atoms: HashMap<u32, String> = HashMap::new();
    let mut i: usize = 0;
    proof {
        assert(ids@.take(0) =~= Seq::<u32>::empty());
        assert(texts(atoms@) =~= atom_names(ids@.take(0), byte_seqs(names@).take(0)));
    }
    while i < ids.len()
        invariant
            ids@.len() == names@.len(),
            i <= ids@.len(),
            texts(atoms@) == atom_names(ids@.take(i as int), byte_seqs(names@).take(i as int)),
        decreases ids@.len() - i,
    {
        let ghost before = atoms@;
        let ghost (ids_i, names_i) = (ids@.take(i + 1), byte_seqs(names@).take(i + 1));
        proof {
            assert(ids_i.drop_last() =~= ids@.take(i as int));
            assert(names_i.drop_last() =~= byte_seqs(names@).take(i as int));
            assert(names_i.last() == names@[i as int]@);
        }
        if let Ok(name) = utf8_text(names[i].as_slice()) {
            atoms.insert(ids[i], name);
            proof {
                assert(texts(atoms@) =~= texts(before).insert(ids@[i as int], decode_utf8(names@[i as int]@)));
            }
        }
        i += 1;
    }
    proof {
        assert(ids@.take(ids@.len() as int) =~= ids@);
        assert(byte_seqs(names@).take(names@.len() as int) =~= byte_seqs(names@));
    }
    atoms
}

/// The name of the selection that a compositing manager owns for the screen `screen`:
/// `_NET_WM_CM_S` followed by the screen number. A compositing manager runs exactly when the
/// selection has an owner.
pub fn compositing_selection(screen: usize) -> (r: String)
    ensures
        r@ == "_NET_WM_CM_S"@ + nat_text(screen as nat),
{
    let mut r = "_NET_WM_CM_S".to_owned();
    r.append(usize_text(screen).as_str());
    r
}

/// True when a selection's owner, as a `GetSelectionOwner` reply gives it, is a window rather
/// than `NONE`
pub fn has_owner(owner: u32) -> (r: bool)
    ensures
        r == (owner != 0),
{
    owner != none()
}

/// Lexicographic order of byte strings, the order of Rust strings: `a` comes before `b` or
/// equals it.
pub open spec fn bytes_le(a: Seq<u8>, b: Seq<u8>) -> bool
    decreases a.len(),
{
    if a.len() == 0 {
        true
    } else if b.len() == 0 {
        false
    } else if a[0] != b[0] {
        a[0] < b[0]
    } else {
        bytes_le(a.drop_first(), b.drop_first())
    }
}

/// Any two byte strings are ordered one way or the other.
pub proof fn lemma_bytes_le_total(a: Seq<u8>, b: Seq<u8>)
    ensures
        bytes_le(a, b) || bytes_le(b, a),
    decreases a.len(),
{
    if a.len() > 0 && b.len() > 0 && a[0] == b[0] {
        lemma_bytes_le_total(a.drop_first(), b.drop_first());
    }
}

/// The order of byte strings is transitive.
pub proof fn lemma_bytes_le_transitive(a: Seq<u8>, b: Seq<u8>, c: Seq<u8>)
    requires
        bytes_le(a, b),
        bytes_le(b, c),
    ensures
        bytes_le(a, c),
    decreases a.len(),
{
    if a.len() > 0 && b.len() > 0 && c.len() > 0 && a[0] == b[0] && b[0] == c[0] {
        lemma_bytes_le_transitive(a.drop_first(), b.drop_first(), c.drop_first());
    }
}

proof fn lemma_bytes_le_skip(a: Seq<u8>, b: Seq<u8>, i: int)
    requires
        0 <= i <= a.len(),
        i <= b.len(),
        forall|j: int| 0 <= j < i ==> a[j] == b[j],
    ensures
        bytes_le(a, b) == bytes_le(a.skip(i), b.skip(i)),
    decreases i,
{
    if i > 0 {
        assert forall|j: int| 0 <= j < i - 1 implies a.drop_first()[j] == b.drop_first()[j] by {
            assert(a.drop_first()[j] == a[j + 1]);
            assert(b.drop_first()[j] == b[j + 1]);
        }
        lemma_bytes_le_skip(a.drop_first(), b.drop_first(), i - 1);
        assert(a.drop_first().skip(i - 1) =~= a.skip(i));
        assert(b.drop_first().skip(i - 1) =~= b.skip(i));
    } else {
        assert(a.skip(0) =~= a);
        assert(b.skip(0) =~= b);
    }
}

/// True when the name `a` sorts before the name `b` or equals it, comparing their bytes
fn name_le(a: &str, b: &str) -> (r: bool)
    ensures
        r == bytes_le(a.spec_bytes(), b.spec_bytes()),
{
    let (x, y) = (a.as_bytes(), b.as_bytes());
    let mut i: usize = 0;
    while i < x.len() && i < y.len() && x[i] == y[i]
        invariant
            i <= x@.len(),
            i <= y@.len(),
            forall|j: int| 0 <= j < i ==> x@[j] == y@[j],
        decreases x@.len() - i,
    {
        i += 1;
    }
    proof {
        lemma_bytes_le_skip(x@, y@, i as int);
        assert(x@.skip(i as int).len() == x@.len() - i);
        if i < x@.len() && i < y@.len() {
            assert(x@.skip(i as int)[0] == x@[i as int]);
            assert(y@.skip(i as int)[0] == y@[i as int]);
        }
    }
    if i == x.len() {
        true
    } else if i == y.len() {
        false
    } else {
        x[i] < y[i]
    }
}

/// The bytes of a property's name.
pub open spec fn name_bytes(p: Property) -> Seq<u8> {
    encode_utf8(p.name@)
}

/// A property's atom id and name text.
pub open spec fn property_key(p: Property) -> (u32, Seq<char>) {
    (p.id, p.name@)
}

/// An atom's id and name text.
pub open spec fn atom_key(a: (u32, String)) -> (u32, Seq<char>) {
    (a.0, a.1@)
}

/// True when properties are sorted by name.
pub open spec fn sorted_by_name(props: Seq<Property>) -> bool {
    forall|i: int, j: int| 0 <= i < j < props.len() ==> bytes_le(name_bytes(#[trigger] props[i]), name_bytes(#[trigger] props[j]))
}

/// The properties of a window from its atoms' (id, name) pairs, sorted by name; each
/// property's value is empty. Atoms of equal names keep their order.
pub fn window_properties(atoms: &Vec<(u32, String)>) -> (r: Vec<Property>)
    ensures
        r@.map_values(|p: Property| property_key(p)).to_multiset() == atoms@.map_values(|a: (u32, String)| atom_key(a)).to_multiset(),
        sorted_by_name(r@),
        forall|i: int| 0 <= i < r@.len() ==> (#[trigger] r@[i]).value@ == Seq::<char>::empty(),
{
    let mut props: Vec<Property> = Vec::new();
    let mut n: usize = 0;
    proof {
        assert(props@.map_values(|p: Property| property_key(p)) =~= atoms@.take(0).map_values(|a: (u32, String)| atom_key(a)));
    }
    while n < atoms.len()
        invariant
            n <= atoms@.len(),
            props@.map_values(|p: Property| property_key(p)).to_multiset() == atoms@.take(n as int).map_values(|a: (u32, String)| atom_key(a)).to_multiset(),
            sorted_by_name(props@),
            forall|i: int| 0 <= i < props@.len() ==> (#[trigger] props@[i]).value@ == Seq::<char>::empty(),
        decreases atoms@.len() - n,
    {
        let (id, name) = (atoms[n].0, &atoms[n].1);
        let prop = Property::new(id, name.as_str());

        // insert after the properties whose names sort before or equal this one
        let mut k: usize = 0;
        loop
            invariant
                k <= props@.len(),
                name@ == prop.name@,
                forall|i: int| 0 <= i < k ==> bytes_le(name_bytes(#[trigger] props@[i]), name_bytes(prop)),
            ensures
                k <= props@.len(),
                forall|i: int| 0 <= i < k ==> bytes_le(name_bytes(#[trigger] props@[i]), name_bytes(prop)),
                k < props@.len() ==> !bytes_le(name_bytes(props@[k as int]), name_bytes(prop)),
            decreases props@.len() - k,
        {
            if k >= props.len() {
                break;
            }
            if !name_le(props[k].name.as_str(), name.as_str()) {
                break;
            }
            k += 1;
        }
        let ghost old_props = props@;
        proof {
            if k < old_props.len() {
                lemma_bytes_le_total(name_bytes(old_props[k as int]), name_bytes(prop));
            }
            assert(property_key(prop) == atom_key(atoms@[n as int]));
        }
        props.insert(k, prop);
        proof {
            let new_props = props@;
            assert forall|i: int, j: int| 0 <= i < j < new_props.len() implies bytes_le(name_bytes(#[trigger] new_props[i]), name_bytes(#[trigger] new_props[j])) by {
                if j < k {
                    assert(new_props[i] == old_props[i] && new_props[j] == old_props[j]);
                } else if j == k {
                    assert(new_props[i] == old_props[i]);
                } else if i > k {
                    assert(new_props[i] == old_props[i - 1] && new_props[j] == old_props[j - 1]);
                } else if i == k {
                    assert(new_props[j] == old_props[j - 1]);
                    if j - 1 > k {
                        lemma_bytes_le_transitive(name_bytes(prop), name_bytes(old_props[k as int]), name_bytes(old_props[j - 1]));
                    }
                } else {
                    assert(new_props[i] == old_props[i] && new_props[j] == old_props[j - 1]);
                    if j - 1 > k {
                        lemma_bytes_le_transitive(name_bytes(prop), name_bytes(old_props[k as int]), name_bytes(old_props[j - 1]));
                    }
                    lemma_bytes_le_transitive(name_bytes(old_props[i]), name_bytes(prop), name_bytes(old_props[j - 1]));
                }
            }
            assert(new_props.map_values(|p: Property| property_key(p)) =~= old_props.map_values(|p: Property| property_key(p)).insert(k as int, property_key(prop)));
            assert(atoms@.take(n + 1).map_values(|a: (u32, String)| atom_key(a)) =~= atoms@.take(n as int).map_values(|a: (u32, String)| atom_key(a)).push(atom_key(atoms@[n as int])));
            vstd::seq_lib::to_multiset_insert(old_props.map_values(|p: Property| property_key(p)), k as int, property_key(prop));
            vstd::seq_lib::to_multiset_build(atoms@.take(n as int).map_values(|a: (u32, String)| atom_key(a)), atom_key(atoms@[n as int]));
            assert forall|i: int| 0 <= i < new_props.len() implies (#[trigger] new_props[i]).value@ == Seq::<char>::empty() by {
                if i < k {
                    assert(new_props[i] == old_props[i]);
                } else if i > k {
                    assert(new_props[i] == old_props[i - 1]);
                }
            }
        }
        n += 1;
    }
    proof {
        assert(atoms@.take(atoms@.len() as int) =~= atoms@);
    }
    props
}

} // verus!
