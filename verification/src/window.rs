//! A window to inspect or to shape and place
use vstd::prelude::*;

use crate::error::WmCtlError;
use crate::model::{Border, Position, Rect, Shape, State};
use crate::placement::{MoveResize, placement_inputs_ok, placement_of, move_resize_view, translate_placement};

verus! {

/// Window provides a higher level interface for manipulating windows: it carries the window's
/// id and the shape and position directives queued for it.
#[derive(Debug, Clone, Copy)]
pub struct Window {
    pub id: u32,

    // Directives
    shape: Option<Shape>,
    pos: Option<Position>,
}

impl View for Window {
    /// (id, queued shape, queued position)
    type V = (u32, Option<Shape>, Option<Position>);

    closed spec fn view(&self) -> Self::V {
        (self.id, self.shape, self.pos)
    }
}

/// True when the states hold a maximized one, horizontally or vertically.
pub open spec fn has_max_state(states: Seq<State>) -> bool {
    states.contains(State::MaxVert) || states.contains(State::MaxHorz)
}

impl Window {
    /// A window with the given id and no directives
    pub fn new(id: u32) -> (w: Self)
        ensures
            w@ == (id, None::<Shape>, None::<Position>),
    {
        Self { id, shape: None, pos: None }
    }

    /// Use the given window id or, when none is given, the id of the active window
    pub fn from(id: Option<u32>, active: u32) -> (w: Self)
        ensures
            w@ == (id.unwrap_or(active), None::<Shape>, None::<Position>),
    {
        let id = id.unwrap_or(active);
        Window::new(id)
    }

    /// True when the window's states, as read, include a horizontal or vertical maximization;
    /// false when they could not be read
    pub fn maximized(&self, states: &Option<Vec<State>>) -> (r: bool)
        ensures
            r == (states matches Some(v) && has_max_state(v@)),
    {
        match states {
            Some(states) => {
                let mut vert = false;
                let mut horz = false;
                let mut i: usize = 0;
                while i < states.len()
                    invariant
                        i <= states@.len(),
                        vert == states@.subrange(0, i as int).contains(State::MaxVert),
                        horz == states@.subrange(0, i as int).contains(State::MaxHorz),
                    decreases states@.len() - i,
                {
                    proof {
                        assert(states@.subrange(0, i + 1) == states@.subrange(0, i as int).push(states@[i as int]));
                        vstd::seq_lib::lemma_seq_contains_after_push(states@.subrange(0, i as int), states@[i as int], State::MaxVert);
                        vstd::seq_lib::lemma_seq_contains_after_push(states@.subrange(0, i as int), states@[i as int], State::MaxHorz);
                    }
                    if states[i] == State::MaxVert {
                        vert = true;
                    }
                    if states[i] == State::MaxHorz {
                        horz = true;
                    }
                    i += 1;
                }
                proof {
                    assert(states@.subrange(0, states@.len() as int) == states@);
                }
                vert || horz
            },
            None => false,
        }
    }

    /// True when the window is a GTK application, that is when its GTK frame extents could be
    /// read and are not all zero
    pub fn is_gtk(&self, gtk_borders: &Option<Border>) -> (r: bool)
        ensures
            r == (gtk_borders matches Some(b) && b.has_any()),
    {
        if let Some(b) = gtk_borders {
            let (l, r, t, bottom) = (b.l, b.r, b.t, b.b);
            let top_or_bottom = (t | 0 | bottom) > 0;
            assert(((t | 0 | bottom) > 0) == (t > 0 || bottom > 0)) by (bit_vector);
            if l > 0 || r > 0 || top_or_bottom {
                return true;
            }
        }
        false
    }

    /// Queue the shape the window should be. This will not take effect until the placement is
    /// applied.
    ///
    /// ### Arguments
    /// * `shape` - pre-defined shape to manipulate the window into
    pub fn shape(self, shape: Shape) -> (w: Self)
        ensures
            w@ == (self@.0, Some(shape), self@.2),
    {
        let mut w = self;
        w.shape = Some(shape);
        w
    }

    /// Queue the position the window should be. This will not take effect until the placement
    /// is applied.
    ///
    /// ### Arguments
    /// * `pos` - pre-defined position to move the window to
    pub fn pos(self, pos: Position) -> (w: Self)
        ensures
            w@ == (self@.0, self@.1, Some(pos)),
    {
        let mut w = self;
        w.pos = Some(pos);
        w
    }

    /// True when a shape or a position is queued, i.e. when placing the window has any effect
    pub fn has_directives(&self) -> (r: bool)
        ensures
            r == (self@.1 is Some || self@.2 is Some),
    {
        self.shape.is_some() || self.pos.is_some()
    }

    /// Check that the window's size and borders and the work area are within what placing the
    /// window with its queued directives can compute
    pub fn placement_fits(&self, size: &Rect, border: &Border, csd_border: &Border, area: &Rect) -> (r: bool)
        ensures
            r == placement_inputs_ok(*size, *border, *csd_border, *area, self@.1, self@.2),
    {
        crate::placement::placement_inputs_fit(size, border, csd_border, area, &self.shape, &self.pos)
    }

    /// The move and resize that the queued shape and position directives come to for the
    /// window's current size and borders in the given work area
    ///
    /// ### Arguments
    /// * `size` - Window's current width and height
    /// * `border` - Window's border left, right, top, and bottom
    /// * `csd_border` - Client side border left, right, top, and bottom
    /// * `area` - Window manager's work area width and height
    pub fn placement(&self, size: &Rect, border: &Border, csd_border: &Border, area: &Rect) -> (r: Result<MoveResize, WmCtlError>)
        requires
            placement_inputs_ok(*size, *border, *csd_border, *area, self@.1, self@.2),
        ensures
            r matches Ok(m) && move_resize_view(m) == placement_of(*size, *border, *csd_border, *area, self@.1, self@.2),
    {
        translate_placement(size, border, csd_border, area, &self.shape, &self.pos)
    }
}

} // verus!
