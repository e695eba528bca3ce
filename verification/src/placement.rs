//! Translation of the pre-defined positions and shapes into the coordinates and sizes that a
//! window is moved and resized to. Nothing here touches a window: the caller reads the window's
//! size and borders and the window manager's work area, and applies the result.
use vstd::prelude::*;

use crate::error::WmCtlError;
use crate::model::{Border, Position, Rect, Shape};

verus! {

/// `v / 2` rounded toward zero, as converting a halved value to an integer does.
pub open spec fn half_toward_zero(v: int) -> int {
    if v >= 0 {
        v / 2
    } else {
        -((-v) / 2)
    }
}

/// True when the inputs of a position translation are within what the translation can
/// compute: screen and window sizes are valid `i32` coordinates, and the client side
/// decorations of a decorated window can be added to its size.
pub open spec fn position_inputs_ok(size: Rect, border: Border, csd: Border, area: Rect) -> bool {
    &&& size.w <= i32::MAX
    &&& size.h <= i32::MAX
    &&& area.w <= i32::MAX
    &&& area.h <= i32::MAX
    &&& csd.has_any() ==> {
        &&& size.w + csd.l + csd.r <= u32::MAX
        &&& size.h + csd.t + csd.b <= u32::MAX
        &&& csd.t <= i32::MAX
    }
}

/// Left x coordinate at which the window appears horizontally centered.
///
/// * with client side decorations: half the work area minus half the window and its
///   decorations, which may be negative
/// * otherwise: half the work area minus half the window and its left border, or 0 when that
///   would push the window off the screen
pub open spec fn center_x(size: Rect, border: Border, csd: Border, area: Rect) -> int {
    if csd.has_any() {
        half_toward_zero(area.w - (size.w + csd.l + csd.r))
    } else if (size.w + border.l) / 2 >= area.w / 2 {
        0
    } else {
        (area.w - (size.w + border.l)) / 2
    }
}

/// Top y coordinate at which the window appears vertically centered.
pub open spec fn center_y(size: Rect, border: Border, csd: Border, area: Rect) -> int {
    if csd.has_any() {
        half_toward_zero(area.h - (size.h + csd.t + csd.b))
    } else if (size.h + border.t) / 2 >= area.h / 2 {
        0
    } else {
        (area.h - (size.h + border.t)) / 2
    }
}

/// Left x coordinate at which the window appears flush with the right edge of the work area,
/// or 0 when the window and its left border are as wide as the work area.
pub open spec fn right_x(size: Rect, border: Border, csd: Border, area: Rect) -> int {
    if csd.has_any() {
        area.w - size.w
    } else if size.w + border.l >= area.w {
        0
    } else {
        area.w - size.w - border.l
    }
}

/// Top y coordinate at which the window appears flush with the bottom edge of the work area,
/// or 0 when the window and its top border are as high as the work area. A window with client
/// side decorations is moved up by its top decoration instead.
pub open spec fn bottom_y(size: Rect, border: Border, csd: Border, area: Rect) -> int {
    if csd.has_any() {
        -(csd.t as int)
    } else if size.h + border.t >= area.h {
        0
    } else {
        area.h - size.h - border.t
    }
}

/// The (x, y) coordinates that a position translates to; `None` leaves that coordinate as it
/// is.
pub open spec fn position_coords(size: Rect, border: Border, csd: Border, area: Rect, pos: Position) -> (Option<int>, Option<int>) {
    let cx = center_x(size, border, csd, area);
    let cy = center_y(size, border, csd, area);
    let lx = right_x(size, border, csd, area);
    let ty = bottom_y(size, border, csd, area);
    match pos {
        Position::Center => (Some(cx), Some(cy)),
        Position::Left => (Some(0), None),
        Position::Right => (Some(lx), None),
        Position::Top => (None, Some(0)),
        Position::Bottom => (None, Some(ty)),
        Position::TopLeft => (Some(0), Some(0)),
        Position::TopRight => (Some(lx), Some(0)),
        Position::BottomLeft => (Some(0), Some(ty)),
        Position::BottomRight => (Some(lx), Some(ty)),
        Position::LeftCenter => (Some(0), Some(cy)),
        Position::RightCenter => (Some(lx), Some(cy)),
        Position::TopCenter => (Some(cx), Some(0)),
        Position::BottomCenter => (Some(cx), Some(ty)),
        Position::Static(x, y) => (Some(x as int), Some(y as int)),
    }
}

/// An optional coordinate as a mathematical integer.
pub open spec fn opt_int(v: Option<i32>) -> Option<int> {
    match v {
        Some(x) => Some(x as int),
        None => None,
    }
}

/// Check that the inputs of a position translation are within what it can compute
pub fn position_inputs_fit(size: &Rect, border: &Border, csd: &Border, area: &Rect) -> (r: bool)
    ensures
        r == position_inputs_ok(*size, *border, *csd, *area),
{
    let fits = size.w <= 0x7fff_ffff && size.h <= 0x7fff_ffff && area.w <= 0x7fff_ffff
        && area.h <= 0x7fff_ffff;
    if !fits {
        return false;
    }
    if csd.any() {
        (size.w as u64) + (csd.l as u64) + (csd.r as u64) <= 0xffff_ffff
            && (size.h as u64) + (csd.t as u64) + (csd.b as u64) <= 0xffff_ffff
            && csd.t <= 0x7fff_ffff
    } else {
        true
    }
}

/// `(a - b) / 2` rounded toward zero for `a`, `b` in `0..2^33`.
fn half_difference(a: u64, b: u64) -> (r: i64)
    requires
        a < 0x2_0000_0000,
        b < 0x2_0000_0000,
    ensures
        r == half_toward_zero(a - b),
{
    if a >= b {
        ((a - b) / 2) as i64
    } else {
        -(((b - a) / 2) as i64)
    }
}

/// Translate position enum values into (x, y) coordinates but take no direct action on the
/// window. The window should already be unmaximized before calling this function.
///
/// ### Arguments
/// * `size` - Window's current width and height
/// * `border` - Window's border left, right, top, and bottom
/// * `csd_border` - Client side border left, right, top, and bottom
/// * `area` - Window manager's work area width and height
/// * `pos` - Position to translate
///
/// ### Returns
/// * `(x, y)` coordinates where `None` means no change
pub fn translate_pos(size: &Rect, border: &Border, csd_border: &Border, area: &Rect, pos: &Position) -> (r: Result<(Option<i32>, Option<i32>), WmCtlError>)
    requires
        position_inputs_ok(*size, *border, *csd_border, *area),
    ensures
        r matches Ok((x, y)) && (opt_int(x), opt_int(y)) == position_coords(*size, *border, *csd_border, *area, *pos),
{
    let csd = csd_border.any();
    let (sw, sh, aw, ah) = (size.w as u64, size.h as u64, area.w as u64, area.h as u64);
    let (bl, bt) = (border.l as u64, border.t as u64);

    // left x coordinate of the window such that it appears horizontally centered
    let cx: i32 = if csd {
        half_difference(aw, sw + csd_border.l as u64 + csd_border.r as u64) as i32
    } else if (sw + bl) / 2 >= aw / 2 {
        0
    } else {
        ((aw - (sw + bl)) / 2) as i32
    };

    // top y coordinate of the window such that it appears vertically centered
    let cy: i32 = if csd {
        half_difference(ah, sh + csd_border.t as u64 + csd_border.b as u64) as i32
    } else if (sh + bt) / 2 >= ah / 2 {
        0
    } else {
        ((ah - (sh + bt)) / 2) as i32
    };

    // left x coordinate of the window such that it appears all the way to the right
    let lx: i32 = if csd {
        area.w as i32 - size.w as i32
    } else if sw + bl >= aw {
        0
    } else {
        (aw - sw - bl) as i32
    };

    // top y coordinate of the window such that it appears all the way to the bottom
    let ty: i32 = if csd {
        0 - csd_border.t as i32
    } else if sh + bt >= ah {
        0
    } else {
        (ah - sh - bt) as i32
    };

    Ok(match pos {
        Position::Center => (Some(cx), Some(cy)),
        Position::Left => (Some(0), None),
        Position::Right => (Some(lx), None),
        Position::Top => (None, Some(0)),
        Position::Bottom => (None, Some(ty)),
        Position::TopLeft => (Some(0), Some(0)),
        Position::TopRight => (Some(lx), Some(0)),
        Position::BottomLeft => (Some(0), Some(ty)),
        Position::BottomRight => (Some(lx), Some(ty)),
        Position::LeftCenter => (Some(0), Some(cy)),
        Position::RightCenter => (Some(lx), Some(cy)),
        Position::TopCenter => (Some(cx), Some(0)),
        Position::BottomCenter => (Some(cx), Some(ty)),
        Position::Static(x, y) => (Some(*x), Some(*y)),
    })
}

/// True when the inputs of a shape translation are within what the translation can compute,
/// that is when none of its sums overflows and none of its differences goes below zero: the
/// borders of a window manager decorated window fit in half the work area and, to grow or
/// shrink it, in the window itself; the decorations of a client side decorated window can be
/// added to the work area and, to grow, shrink or statically size it, to the window's size.
pub open spec fn shape_inputs_ok(size: Rect, border: Border, csd: Border, area: Rect, shape: Shape) -> bool {
    match shape {
        Shape::Max | Shape::UnMax => true,
        _ => {
            &&& if csd.has_any() {
                &&& area.w + csd.l + csd.r <= u32::MAX
                &&& area.h + csd.t + csd.b <= u32::MAX
            } else {
                &&& border.l + border.r <= area.w / 2
                &&& border.t + border.b <= area.h / 2
            }
            &&& (shape is Grow || shape is Shrink) ==> if csd.has_any() {
                &&& size.w + csd.l + csd.r <= u32::MAX
                &&& size.h + csd.t + csd.b <= u32::MAX
            } else {
                &&& border.l + border.r <= size.w
                &&& border.t + border.b <= size.h
            }
            &&& match shape {
                Shape::Static(w, h) => csd.has_any() ==> {
                    &&& w + csd.l + csd.r <= u32::MAX
                    &&& h + csd.t + csd.b <= u32::MAX
                },
                _ => true,
            }
        },
    }
}

/// Largest `u32` when `v` is larger, else `v`, as a float to `u32` conversion saturates.
pub open spec fn saturate(v: int) -> int {
    if v > u32::MAX { u32::MAX as int } else { v }
}

/// Full width available to the window: the work area plus client side decorations, or minus
/// the window manager's borders.
pub open spec fn full_w(border: Border, csd: Border, area: Rect) -> int {
    if csd.has_any() { area.w + csd.l + csd.r } else { area.w - (border.l + border.r) }
}

/// Full height available to the window.
pub open spec fn full_h(border: Border, csd: Border, area: Rect) -> int {
    if csd.has_any() { area.h + csd.t + csd.b } else { area.h - (border.t + border.b) }
}

/// Half the width of the work area plus client side decorations, or minus the borders.
pub open spec fn half_w(border: Border, csd: Border, area: Rect) -> int {
    if csd.has_any() { area.w / 2 + csd.l + csd.r } else { area.w / 2 - (border.l + border.r) }
}

/// Half the height of the work area plus client side decorations, or minus the borders.
pub open spec fn half_h(border: Border, csd: Border, area: Rect) -> int {
    if csd.has_any() { area.h / 2 + csd.t + csd.b } else { area.h / 2 - (border.t + border.b) }
}

/// The window's current width as the window manager sizes it: with client side decorations
/// added, or without the window manager's borders.
pub open spec fn current_w(size: Rect, border: Border, csd: Border) -> int {
    if csd.has_any() { size.w + csd.l + csd.r } else { size.w - (border.l + border.r) }
}

/// The window's current height as the window manager sizes it.
pub open spec fn current_h(size: Rect, border: Border, csd: Border) -> int {
    if csd.has_any() { size.h + csd.t + csd.b } else { size.h - (border.t + border.b) }
}

/// A dimension grown by 1 % (rounded down) but no larger than `full`.
pub open spec fn grown(current: int, full: int) -> int {
    if current * 101 / 100 >= full { full } else { current * 101 / 100 }
}

/// A dimension shrunk by 1 % (rounded down) but no smaller than 100.
pub open spec fn shrunk(current: int) -> int {
    if current * 99 / 100 < 100 { 100 } else { current * 99 / 100 }
}

/// The (width, height) of the `Medium` shape: 3/4 of the short side of the full area, and the
/// long side 4/3 of that.
pub open spec fn medium_size(fw: int, fh: int, area: Rect) -> (int, int) {
    if area.h < area.w { (fh, fh * 3 / 4) } else { (fw * 3 / 4, fw) }
}

/// The (width, height) of the `Large` shape: the full short side, and the long side 4/3 of it.
pub open spec fn large_size(fw: int, fh: int, area: Rect) -> (int, int) {
    if area.h < area.w { (saturate(fh * 4 / 3), fh) } else { (fw, saturate(fw * 4 / 3)) }
}

/// The (gravity, width, height) that a shape translates to; `None` leaves that value as it is,
/// and a size of 0 by 0 maximizes the window.
pub open spec fn shape_size(size: Rect, border: Border, csd: Border, area: Rect, shape: Shape) -> (Option<u32>, Option<int>, Option<int>) {
    let fw = full_w(border, csd, area);
    let fh = full_h(border, csd, area);
    let hw = half_w(border, csd, area);
    let hh = half_h(border, csd, area);
    match shape {
        Shape::Max => (None, Some(0), Some(0)),
        Shape::UnMax => (None, None, None),
        Shape::Grow => (Some(5), Some(grown(current_w(size, border, csd), fw)), Some(grown(current_h(size, border, csd), fh))),
        Shape::Halfw => (None, Some(hw), Some(fh)),
        Shape::Halfh => (None, Some(fw), Some(hh)),
        Shape::Small => (None, Some(hw), Some(hh)),
        Shape::Medium => (None, Some(medium_size(fw, fh, area).0), Some(medium_size(fw, fh, area).1)),
        Shape::Large => (None, Some(large_size(fw, fh, area).0), Some(large_size(fw, fh, area).1)),
        Shape::Shrink => (Some(5), Some(shrunk(current_w(size, border, csd))), Some(shrunk(current_h(size, border, csd)))),
        Shape::Static(w, h) => if csd.has_any() {
            (None, Some(w + csd.l + csd.r), Some(h + csd.t + csd.b))
        } else {
            (None, Some(w as int), Some(h as int))
        },
        Shape::Square => (None, None, None),
    }
}

/// An optional size as a mathematical integer.
pub open spec fn opt_nat(v: Option<u32>) -> Option<int> {
    match v {
        Some(x) => Some(x as int),
        None => None,
    }
}

/// Check that the inputs of a shape translation are within what it can compute
pub fn shape_inputs_fit(size: &Rect, border: &Border, csd: &Border, area: &Rect, shape: &Shape) -> (r: bool)
    ensures
        r == shape_inputs_ok(*size, *border, *csd, *area, *shape),
{
    match shape {
        Shape::Max | Shape::UnMax => return true,
        _ => {},
    }
    let has_csd = csd.any();
    let (cl, cr, ct, cb) = (csd.l as u64, csd.r as u64, csd.t as u64, csd.b as u64);
    let (bl, br, bt, bb) = (border.l as u64, border.r as u64, border.t as u64, border.b as u64);
    let max: u64 = 0xffff_ffff;
    let area_ok = if has_csd {
        area.w as u64 + cl + cr <= max && area.h as u64 + ct + cb <= max
    } else {
        bl + br <= (area.w / 2) as u64 && bt + bb <= (area.h / 2) as u64
    };
    let resize_ok = match shape {
        Shape::Grow | Shape::Shrink => if has_csd {
            size.w as u64 + cl + cr <= max && size.h as u64 + ct + cb <= max
        } else {
            bl + br <= size.w as u64 && bt + bb <= size.h as u64
        },
        _ => true,
    };
    let static_ok = match shape {
        Shape::Static(w, h) => !has_csd || (*w as u64 + cl + cr <= max && *h as u64 + ct + cb <= max),
        _ => true,
    };
    area_ok && resize_ok && static_ok
}

/// Translate the given shape into a new window (w, h) size to be applied to the window but take
/// no direct action on the window. The window should already be unmaximized before calling this.
///
/// Return values do not include the border sizes for window manager decorated windows, as the
/// window manager adds its borders, but do include client side decorations, which the window
/// manager doesn't know about.
///
/// ### Arguments
/// * `size` - Window's current (width, height)
/// * `border` - Window Manager's borders left, right, top, bottom
/// * `csd_border` - Client side decorations left, right, top, bottom
/// * `area` - Window manager's work area (width, height)
/// * `shape` - Desired shape to make the window
///
/// ### Returns
/// * `(g, w, h)` size, or (None, 0, 0) for maximize, or (None, None, None) for no change
pub fn translate_shape(size: &Rect, border: &Border, csd_border: &Border, area: &Rect, shape: &Shape) -> (r: Result<(Option<u32>, Option<u32>, Option<u32>), WmCtlError>)
    requires
        shape_inputs_ok(*size, *border, *csd_border, *area, *shape),
    ensures
        r matches Ok((g, w, h)) && (g, opt_nat(w), opt_nat(h)) == shape_size(*size, *border, *csd_border, *area, *shape),
{
    match shape {
        Shape::Max => return Ok((None, Some(0), Some(0))),
        Shape::UnMax => return Ok((None, None, None)),
        _ => {},
    }

    // Determine if the window has CSD borders
    let csd = csd_border.any();
    let (cw, ch) = (csd_border.l as u64 + csd_border.r as u64, csd_border.t as u64 + csd_border.b as u64);
    let (bw, bh) = (border.l as u64 + border.r as u64, border.t as u64 + border.b as u64);
    let (aw, ah) = (area.w as u64, area.h as u64);

    // full width and height: the work area plus CSD borders, or minus the borders
    let fw: u64 = if csd { aw + cw } else { aw - bw };
    let fh: u64 = if csd { ah + ch } else { ah - bh };

    // half width and height: half the work area plus CSD borders, or minus the borders
    let hw: u64 = if csd { aw / 2 + cw } else { aw / 2 - bw };
    let hh: u64 = if csd { ah / 2 + ch } else { ah / 2 - bh };

    let (g, w, h): (Option<u32>, u64, u64) = match shape {
        // Grow the existing dimensions by 1% until full size, in all directions
        Shape::Grow => {
            let cur_w: u64 = if csd { size.w as u64 + cw } else { size.w as u64 - bw };
            let cur_h: u64 = if csd { size.h as u64 + ch } else { size.h as u64 - bh };
            let mut w = cur_w * 101 / 100;
            if w >= fw {
                w = fw;
            }
            let mut h = cur_h * 101 / 100;
            if h >= fh {
                h = fh;
            }
            (Some(5), w, h)
        },
        // Half width x full height
        Shape::Halfw => (None, hw, fh),
        // Full width x half height
        Shape::Halfh => (None, fw, hh),
        // Half width x half height
        Shape::Small => (None, hw, hh),
        // 3/4 short side x 4x3 sized long side
        Shape::Medium => if ah < aw {
            (None, fh, fh * 3 / 4)
        } else {
            (None, fw * 3 / 4, fw)
        },
        // Full short side x 4x3 sized long side
        Shape::Large => if ah < aw {
            let w = fh * 4 / 3;
            (None, if w > 0xffff_ffff { 0xffff_ffff } else { w }, fh)
        } else {
            let h = fw * 4 / 3;
            (None, fw, if h > 0xffff_ffff { 0xffff_ffff } else { h })
        },
        // Shrink the existing dimensions by 1% down to no smaller than 100x100
        Shape::Shrink => {
            let cur_w: u64 = if csd { size.w as u64 + cw } else { size.w as u64 - bw };
            let cur_h: u64 = if csd { size.h as u64 + ch } else { size.h as u64 - bh };
            let mut w = cur_w * 99 / 100;
            if w < 100 {
                w = 100;
            }
            let mut h = cur_h * 99 / 100;
            if h < 100 {
                h = 100;
            }
            (Some(5), w, h)
        },
        // Use the static size given, with the client side decorations added
        Shape::Static(w, h) => if csd {
            (None, *w as u64 + cw, *h as u64 + ch)
        } else {
            (None, *w as u64, *h as u64)
        },
        // Don't change anything by default
        _ => return Ok((None, None, None)),
    };
    Ok((g, Some(w as u32), Some(h as u32)))
}

/// The move and resize that placing a window comes down to; `None` leaves that value as it is.
#[derive(Debug, Clone, Copy, PartialEq, Eq, Structural)]
pub struct MoveResize {
    /// gravity the window grows or shrinks with
    pub gravity: Option<u32>,
    pub x: Option<i32>,
    pub y: Option<i32>,
    pub w: Option<u32>,
    pub h: Option<u32>,
}

/// True when the inputs of a placement are within what the translations can compute.
pub open spec fn placement_inputs_ok(size: Rect, border: Border, csd: Border, area: Rect, shape: Option<Shape>, pos: Option<Position>) -> bool {
    &&& shape matches Some(s) ==> shape_inputs_ok(size, border, csd, area, s)
    &&& pos is Some ==> position_inputs_ok(size, border, csd, area)
}

/// The move and resize that a shape and a position directive come to. The shape's gravity is
/// only used when no position is given, as positioning needs the default gravity.
pub open spec fn placement_of(size: Rect, border: Border, csd: Border, area: Rect, shape: Option<Shape>, pos: Option<Position>) -> (Option<u32>, Option<int>, Option<int>, Option<int>, Option<int>) {
    let (g, w, h) = match shape {
        Some(s) => shape_size(size, border, csd, area, s),
        None => (None, None, None),
    };
    let (x, y) = match pos {
        Some(p) => position_coords(size, border, csd, area, p),
        None => (None, None),
    };
    (if pos is Some { None } else { g }, x, y, w, h)
}

/// A move and resize request as mathematical integers.
pub open spec fn move_resize_view(m: MoveResize) -> (Option<u32>, Option<int>, Option<int>, Option<int>, Option<int>) {
    (m.gravity, opt_int(m.x), opt_int(m.y), opt_nat(m.w), opt_nat(m.h))
}

/// Check that the inputs of a placement are within what the translations can compute
pub fn placement_inputs_fit(size: &Rect, border: &Border, csd: &Border, area: &Rect, shape: &Option<Shape>, pos: &Option<Position>) -> (r: bool)
    ensures
        r == placement_inputs_ok(*size, *border, *csd, *area, *shape, *pos),
{
    let shape_ok = match shape {
        Some(s) => shape_inputs_fit(size, border, csd, area, s),
        None => true,
    };
    let pos_ok = match pos {
        Some(_) => position_inputs_fit(size, border, csd, area),
        None => true,
    };
    shape_ok && pos_ok
}

/// Combine a shape and a position directive into the move and resize to apply to a window,
/// but take no direct action on the window. The window should already be unmaximized.
///
/// ### Arguments
/// * `size` - Window's current width and height
/// * `border` - Window's border left, right, top, and bottom
/// * `csd_border` - Client side border left, right, top, and bottom
/// * `area` - Window manager's work area width and height
/// * `shape` - Shape to make the window, if any
/// * `pos` - Position to move the window to, if any
pub fn translate_placement(size: &Rect, border: &Border, csd_border: &Border, area: &Rect, shape: &Option<Shape>, pos: &Option<Position>) -> (r: Result<MoveResize, WmCtlError>)
    requires
        placement_inputs_ok(*size, *border, *csd_border, *area, *shape, *pos),
    ensures
        r matches Ok(m) && move_resize_view(m) == placement_of(*size, *border, *csd_border, *area, *shape, *pos),
{
    // Shape the window as directed
    let (gravity, w, h) = if let Some(shape) = shape {
        let (gravity, w, h) = translate_shape(size, border, csd_border, area, shape)?;

        // Don't use gravity if positioning is required
        if pos.is_some() {
            (None, w, h)
        } else {
            (gravity, w, h)
        }
    } else {
        (None, None, None)
    };

    // Position the window if directed
    let (x, y) = if let Some(pos) = pos {
        translate_pos(size, border, csd_border, area, pos)?
    } else {
        (None, None)
    };
    Ok(MoveResize { gravity, x, y, w, h })
}

/// A window manager decorated window stays usable on screen: every coordinate that a
/// pre-defined position gives it is 0, flush with the left or top edge, or keeps the window
/// and its leading border within the work area. Right and bottom positions put the window flush
/// with the right and bottom edges whenever it fits, and centering leaves gaps on both sides
/// that differ by at most one pixel.
pub proof fn lemma_decorated_positions_on_screen(size: Rect, border: Border, csd: Border, area: Rect, pos: Position)
    requires
        !csd.has_any(),
        !(pos is Static),
    ensures
        position_coords(size, border, csd, area, pos).0 matches Some(x) ==> x == 0 || (0 <= x && x + size.w + border.l <= area.w),
        position_coords(size, border, csd, area, pos).1 matches Some(y) ==> y == 0 || (0 <= y && y + size.h + border.t <= area.h),
        size.w + border.l < area.w ==> right_x(size, border, csd, area) + size.w + border.l == area.w,
        size.h + border.t < area.h ==> bottom_y(size, border, csd, area) + size.h + border.t == area.h,
        center_x(size, border, csd, area) > 0 ==> {
            let gap = area.w - (center_x(size, border, csd, area) + size.w + border.l);
            center_x(size, border, csd, area) <= gap <= center_x(size, border, csd, area) + 1
        },
        center_y(size, border, csd, area) > 0 ==> {
            let gap = area.h - (center_y(size, border, csd, area) + size.h + border.t);
            center_y(size, border, csd, area) <= gap <= center_y(size, border, csd, area) + 1
        },
{
}

/// The corner and edge-center positions combine the coordinates of the plain positions: the
/// left, right and center x of `Left`, `Right` and `TopCenter`, with the top, bottom and center y
/// of `Top`, `Bottom` and `LeftCenter`.
pub proof fn lemma_positions_combine(size: Rect, border: Border, csd: Border, area: Rect)
    ensures
        ({
            let at = |p: Position| position_coords(size, border, csd, area, p);
            &&& at(Position::TopLeft) == (at(Position::Left).0, at(Position::Top).1)
            &&& at(Position::TopRight) == (at(Position::Right).0, at(Position::Top).1)
            &&& at(Position::BottomLeft) == (at(Position::Left).0, at(Position::Bottom).1)
            &&& at(Position::BottomRight) == (at(Position::Right).0, at(Position::Bottom).1)
            &&& at(Position::LeftCenter) == (at(Position::Left).0, at(Position::Center).1)
            &&& at(Position::RightCenter) == (at(Position::Right).0, at(Position::Center).1)
            &&& at(Position::TopCenter) == (at(Position::Center).0, at(Position::Top).1)
            &&& at(Position::BottomCenter) == (at(Position::Center).0, at(Position::Bottom).1)
        }),
{
}

/// Growing never makes a window larger than the full size available, and never smaller than
/// it was when it fit.
pub proof fn lemma_grow_bounds(current: int, full: int)
    requires
        0 <= current,
    ensures
        grown(current, full) <= full,
        current <= full ==> current <= grown(current, full),
{
}

/// Shrinking never makes a window smaller than 100 pixels, and never larger than it was when
/// it was at least that large.
pub proof fn lemma_shrink_bounds(current: int)
    requires
        0 <= current,
    ensures
        shrunk(current) >= 100,
        current >= 100 ==> shrunk(current) <= current,
{
}

/// The medium and large shapes are 4 by 3: their long side is 4/3 of their short side, to the
/// pixel, as long as that fits in 32 bits.
pub proof fn lemma_medium_large_four_by_three(fw: int, fh: int, area: Rect)
    requires
        0 <= fw,
        0 <= fh,
    ensures
        area.h < area.w ==> {
            let (w, h) = medium_size(fw, fh, area);
            4 * h <= 3 * w < 4 * h + 4
        },
        area.h >= area.w ==> {
            let (w, h) = medium_size(fw, fh, area);
            4 * w <= 3 * h < 4 * w + 4
        },
        area.h < area.w && fh * 4 / 3 <= u32::MAX ==> {
            let (w, h) = large_size(fw, fh, area);
            3 * w <= 4 * h < 3 * w + 3
        },
        area.h >= area.w && fw * 4 / 3 <= u32::MAX ==> {
            let (w, h) = large_size(fw, fh, area);
            3 * h <= 4 * w < 3 * h + 3
        },
{
}

/// The small shape is half the width of `Halfw` and half the height of `Halfh`; both halves
/// keep the full size in the other direction.
pub proof fn lemma_half_shapes(size: Rect, border: Border, csd: Border, area: Rect)
    ensures
        shape_size(size, border, csd, area, Shape::Small) == (None::<u32>, shape_size(size, border, csd, area, Shape::Halfw).1, shape_size(size, border, csd, area, Shape::Halfh).2),
        shape_size(size, border, csd, area, Shape::Halfw).2 == Some(full_h(border, csd, area)),
        shape_size(size, border, csd, area, Shape::Halfh).1 == Some(full_w(border, csd, area)),
{
}

/// Placing a window with a position moves it without the gravity of its shape, so that the
/// position is where the window ends up; with a shape only, the shape's gravity is used. The
/// size comes from the shape and the coordinates from the position in either case.
pub proof fn lemma_placement_gravity(size: Rect, border: Border, csd: Border, area: Rect, shape: Option<Shape>, pos: Option<Position>)
    ensures
        pos is Some ==> placement_of(size, border, csd, area, shape, pos).0 is None,
        pos is None ==> (shape matches Some(s) ==> placement_of(size, border, csd, area, shape, pos).0 == shape_size(size, border, csd, area, s).0),
        shape matches Some(s) ==> placement_of(size, border, csd, area, shape, pos).3 == shape_size(size, border, csd, area, s).1
            && placement_of(size, border, csd, area, shape, pos).4 == shape_size(size, border, csd, area, s).2,
        pos matches Some(p) ==> placement_of(size, border, csd, area, shape, pos).1 == position_coords(size, border, csd, area, p).0
            && placement_of(size, border, csd, area, shape, pos).2 == position_coords(size, border, csd, area, p).1,
        shape is None && pos is None ==> placement_of(size, border, csd, area, shape, pos) == (None::<u32>, None::<int>, None::<int>, None::<int>, None::<int>),
{
}

/// Centering a window manager decorated window that fits in half the work area leaves equal
/// gaps on both sides, to the pixel: the window and its leading border start at `x >= 0` and
/// the gap after them is `x` or `x + 1`. The same holds vertically.
pub proof fn lemma_decorated_center_balanced(size: Rect, border: Border, csd: Border, area: Rect)
    requires
        !csd.has_any(),
    ensures
        (size.w + border.l) / 2 < area.w / 2 ==> (position_coords(size, border, csd, area, Position::Center).0 matches Some(x) && {
            let gap = area.w - (x + size.w + border.l);
            0 <= x && x <= gap <= x + 1
        }),
        (size.h + border.t) / 2 < area.h / 2 ==> (position_coords(size, border, csd, area, Position::Center).1 matches Some(y) && {
            let gap = area.h - (y + size.h + border.t);
            0 <= y && y <= gap <= y + 1
        }),
        (size.w + border.l) / 2 >= area.w / 2 ==> position_coords(size, border, csd, area, Position::Center).0 == Some(0int),
        (size.h + border.t) / 2 >= area.h / 2 ==> position_coords(size, border, csd, area, Position::Center).1 == Some(0int),
{
}

/// Centering a client side decorated window centers the window with its decorations: the gaps
/// before and after it differ by at most one pixel, whether or not it fits.
pub proof fn lemma_decorated_csd_center_balanced(size: Rect, border: Border, csd: Border, area: Rect)
    requires
        csd.l > 0 || csd.r > 0 || csd.t > 0 || csd.b > 0,
    ensures
        position_coords(size, border, csd, area, Position::Center).0 matches Some(x) && {
            let gap = area.w - (x + size.w + csd.l + csd.r);
            x - 1 <= gap <= x + 1
        },
        position_coords(size, border, csd, area, Position::Center).1 matches Some(y) && {
            let gap = area.h - (y + size.h + csd.t + csd.b);
            y - 1 <= gap <= y + 1
        },
{
}

/// A client side decorated window is moved right until its right edge meets the work area's,
/// and down to the bottom with only its top decoration pushed above the screen edge.
pub proof fn lemma_csd_right_and_bottom(size: Rect, border: Border, csd: Border, area: Rect)
    requires
        csd.l > 0 || csd.r > 0 || csd.t > 0 || csd.b > 0,
    ensures
        position_coords(size, border, csd, area, Position::Right).0 matches Some(x) && x + size.w == area.w,
        position_coords(size, border, csd, area, Position::Bottom).1 matches Some(y) && y + csd.t == 0,
{
}

/// The edge positions leave the other coordinate alone and a static position is taken as given.
pub proof fn lemma_edge_and_static_positions(size: Rect, border: Border, csd: Border, area: Rect, x: i32, y: i32)
    ensures
        position_coords(size, border, csd, area, Position::Left) == (Some(0int), None::<int>),
        position_coords(size, border, csd, area, Position::Top) == (None::<int>, Some(0int)),
        position_coords(size, border, csd, area, Position::Right).1 is None,
        position_coords(size, border, csd, area, Position::Bottom).0 is None,
        position_coords(size, border, csd, area, Position::Static(x, y)) == (Some(x as int), Some(y as int)),
{
}

/// Growing takes a window's current size (with client side decorations added, or without the
/// window manager's borders) up by 1 % rounded down, and stops at the full size of the work
/// area: each dimension is the smaller of the two, with center gravity (5). A window that fits
/// never gets smaller.
pub proof fn lemma_grow_one_percent(size: Rect, border: Border, csd: Border, area: Rect)
    ensures
        ({
            let d = csd.l > 0 || csd.r > 0 || csd.t > 0 || csd.b > 0;
            let cw: int = if d { size.w + csd.l + csd.r } else { size.w - border.l - border.r };
            let ch: int = if d { size.h + csd.t + csd.b } else { size.h - border.t - border.b };
            let fw: int = if d { area.w + csd.l + csd.r } else { area.w - border.l - border.r };
            let fh: int = if d { area.h + csd.t + csd.b } else { area.h - border.t - border.b };
            shape_size(size, border, csd, area, Shape::Grow) matches (g, Some(w), Some(h)) && {
                &&& g == Some(5u32)
                &&& w <= fw && w <= cw * 101 / 100 && (w == fw || w == cw * 101 / 100)
                &&& h <= fh && h <= ch * 101 / 100 && (h == fh || h == ch * 101 / 100)
                &&& 0 <= cw <= fw ==> cw <= w
                &&& 0 <= ch <= fh ==> ch <= h
            }
        }),
{
    let d = csd.l > 0 || csd.r > 0 || csd.t > 0 || csd.b > 0;
    let cw: int = if d { size.w + csd.l + csd.r } else { size.w - border.l - border.r };
    let ch: int = if d { size.h + csd.t + csd.b } else { size.h - border.t - border.b };
    assert(0 <= cw ==> cw <= cw * 101 / 100) by (nonlinear_arith);
    assert(0 <= ch ==> ch <= ch * 101 / 100) by (nonlinear_arith);
}

/// Shrinking takes a window's current size down by 1 % rounded down, and stops at 100 pixels:
/// each dimension is the larger of the two, with center gravity (5). A window of at least 100
/// pixels never gets larger.
pub proof fn lemma_shrink_one_percent(size: Rect, border: Border, csd: Border, area: Rect)
    ensures
        ({
            let d = csd.l > 0 || csd.r > 0 || csd.t > 0 || csd.b > 0;
            let cw: int = if d { size.w + csd.l + csd.r } else { size.w - border.l - border.r };
            let ch: int = if d { size.h + csd.t + csd.b } else { size.h - border.t - border.b };
            shape_size(size, border, csd, area, Shape::Shrink) matches (g, Some(w), Some(h)) && {
                &&& g == Some(5u32)
                &&& w >= 100 && w >= cw * 99 / 100 && (w == 100 || w == cw * 99 / 100)
                &&& h >= 100 && h >= ch * 99 / 100 && (h == 100 || h == ch * 99 / 100)
                &&& cw >= 100 ==> w <= cw
                &&& ch >= 100 ==> h <= ch
            }
        }),
{
    let d = csd.l > 0 || csd.r > 0 || csd.t > 0 || csd.b > 0;
    let cw: int = if d { size.w + csd.l + csd.r } else { size.w - border.l - border.r };
    let ch: int = if d { size.h + csd.t + csd.b } else { size.h - border.t - border.b };
    assert(0 <= cw ==> cw * 99 / 100 <= cw) by (nonlinear_arith);
    assert(0 <= ch ==> ch * 99 / 100 <= ch) by (nonlinear_arith);
}

/// The half and full shapes size a window manager decorated window so that, with its borders,
/// it takes half or all of the work area; a client side decorated window gets its decorations
/// on top of that. Max maximizes (0 by 0), unmax and square change nothing, and a static shape
/// is taken as given.
pub proof fn lemma_area_shapes(size: Rect, border: Border, csd: Border, area: Rect, sw: u32, sh: u32)
    ensures
        ({
            let d = csd.l > 0 || csd.r > 0 || csd.t > 0 || csd.b > 0;
            let ew: int = if d { -(csd.l + csd.r) } else { border.l + border.r };
            let eh: int = if d { -(csd.t + csd.b) } else { border.t + border.b };
            &&& shape_size(size, border, csd, area, Shape::Halfw) matches (None, Some(w), Some(h)) && w + ew == area.w / 2 && h + eh == area.h
            &&& shape_size(size, border, csd, area, Shape::Halfh) matches (None, Some(w), Some(h)) && w + ew == area.w && h + eh == area.h / 2
            &&& shape_size(size, border, csd, area, Shape::Small) matches (None, Some(w), Some(h)) && w + ew == area.w / 2 && h + eh == area.h / 2
            &&& shape_size(size, border, csd, area, Shape::Static(sw, sh)) matches (None, Some(w), Some(h)) && w + ew == sw + (if d { 0int } else { border.l + border.r }) && h + eh == sh + (if d { 0int } else { border.t + border.b })
        }),
        shape_size(size, border, csd, area, Shape::Max) == (None::<u32>, Some(0int), Some(0int)),
        shape_size(size, border, csd, area, Shape::UnMax) == (None::<u32>, None::<int>, None::<int>),
        shape_size(size, border, csd, area, Shape::Square) == (None::<u32>, None::<int>, None::<int>),
{
}

/// The medium and large shapes keep to the short side of the work area: landscape windows get
/// the full height for large and 3/4 of it (rounded down) as height for medium, with the full
/// height as width; portrait windows the same with width and height swapped.
pub proof fn lemma_medium_large_sizes(size: Rect, border: Border, csd: Border, area: Rect)
    ensures
        ({
            let d = csd.l > 0 || csd.r > 0 || csd.t > 0 || csd.b > 0;
            let fw: int = if d { area.w + csd.l + csd.r } else { area.w - border.l - border.r };
            let fh: int = if d { area.h + csd.t + csd.b } else { area.h - border.t - border.b };
            &&& area.h < area.w ==> (shape_size(size, border, csd, area, Shape::Medium) matches (None, Some(w), Some(h)) && w == fh && 4 * h <= 3 * fh < 4 * h + 4)
            &&& area.h >= area.w ==> (shape_size(size, border, csd, area, Shape::Medium) matches (None, Some(w), Some(h)) && h == fw && 4 * w <= 3 * fw < 4 * w + 4)
            &&& area.h < area.w ==> (shape_size(size, border, csd, area, Shape::Large) matches (None, Some(_w), Some(h)) && h == fh)
            &&& area.h >= area.w ==> (shape_size(size, border, csd, area, Shape::Large) matches (None, Some(w), Some(_h)) && w == fw)
        }),
{
}

/// Without a position directive a placement never moves the window: its x and y are left
/// alone, and the size and gravity are the shape's. Without a shape directive it never
/// resizes the window.
pub proof fn lemma_placement_without_directive(size: Rect, border: Border, csd: Border, area: Rect, shape: Option<Shape>, pos: Option<Position>)
    ensures
        pos is None ==> placement_of(size, border, csd, area, shape, pos).1 is None && placement_of(size, border, csd, area, shape, pos).2 is None,
        pos is None ==> (shape matches Some(s) ==> ({
            let (g, w, h) = shape_size(size, border, csd, area, s);
            let p = placement_of(size, border, csd, area, shape, pos);
            p.0 == g && p.3 == w && p.4 == h
        })),
        shape is None ==> placement_of(size, border, csd, area, shape, pos).0 is None
            && placement_of(size, border, csd, area, shape, pos).3 is None
            && placement_of(size, border, csd, area, shape, pos).4 is None,
{
}

} // verus!
