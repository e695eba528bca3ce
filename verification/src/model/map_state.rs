use vstd::prelude::*;

use crate::error::WmCtlError;
use crate::x11::{map_state_unmapped, map_state_unviewable, map_state_viewable};

verus! {

/// MapState provides an easy way to identify the different window map values
#[derive(Debug, Clone, Copy, PartialEq, Eq, Structural)]
pub enum MapState {
    Unmapped,
    Unviewable,
    Viewable,
}

/// The X11 number of a map state.
pub open spec fn map_state_number(m: MapState) -> u32 {
    match m {
        MapState::Unmapped => 0,
        MapState::Unviewable => 1,
        MapState::Viewable => 2,
    }
}

/// The map state that an X11 number stands for, or an error that reports the number.
pub open spec fn map_state_of(val: u32) -> Result<MapState, WmCtlError> {
    if val == 0 {
        Ok(MapState::Unmapped)
    } else if val == 1 {
        Ok(MapState::Unviewable)
    } else if val == 2 {
        Ok(MapState::Viewable)
    } else {
        Err(WmCtlError::InvalidWinMap(val))
    }
}

/// The lowercase name of a map state.
pub open spec fn map_state_text(m: MapState) -> Seq<char> {
    match m {
        MapState::Unmapped => "unmapped"@,
        MapState::Unviewable => "unviewable"@,
        MapState::Viewable => "viewable"@,
    }
}

impl MapState {
    /// Convert an X11 map state number into a map state
    pub fn from(val: u32) -> (r: Result<MapState, WmCtlError>)
        ensures
            r == map_state_of(val),
    {
        if val == map_state_unmapped() {
            Ok(MapState::Unmapped)
        } else if val == map_state_unviewable() {
            Ok(MapState::Unviewable)
        } else if val == map_state_viewable() {
            Ok(MapState::Viewable)
        } else {
            Err(WmCtlError::InvalidWinMap(val))
        }
    }

    /// Lowercase name of the map state
    pub fn to_string(&self) -> (r: String)
        ensures
            r@ == map_state_text(*self),
    {
        match self {
            MapState::Unmapped => "unmapped".to_owned(),
            MapState::Unviewable => "unviewable".to_owned(),
            MapState::Viewable => "viewable".to_owned(),
        }
    }
}

/// Converting the number of a map state gives back the map state.
pub proof fn lemma_map_state_round_trip(m: MapState)
    ensures
        map_state_of(map_state_number(m)) == Ok::<MapState, WmCtlError>(m),
{
}

} // verus!
