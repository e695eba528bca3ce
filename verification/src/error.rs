//! Errors of the library
use vstd::prelude::*;

use vstd::std_specs::convert::FromSpecImpl;

use crate::text::{nat_text, u32_text};

verus! {

/// Errors that the library itself detects
#[derive(Clone, Debug, Eq, Hash, Ord, PartialEq, PartialOrd)]
pub enum WmCtlError {
    ActiveWinNotFound,
    InvalidDesktopNum,
    InvalidPosition(String),
    InvalidShape(String),
    InvalidWinClass(u32),
    InvalidWinMap(u32),
    InvalidWinState(u32),
    InvalidWinType(u32),
    PropertyNotFound(String),
    TaskbarNotFound,
    TaskbarReservationNotFound,
    WinNameNotFound,
    WinTypeNotFound,
}

/// The message that describes an error.
pub open spec fn error_message(e: WmCtlError) -> Seq<char> {
    match e {
        WmCtlError::ActiveWinNotFound => "active window was not found"@,
        WmCtlError::InvalidDesktopNum => "invalid desktop number found"@,
        WmCtlError::InvalidPosition(s) => "invalid position was given: "@ + s@,
        WmCtlError::InvalidShape(s) => "invalid shape was given: "@ + s@,
        WmCtlError::InvalidWinClass(v) => "invalid class was given: "@ + nat_text(v as nat),
        WmCtlError::InvalidWinMap(v) => "invalid map state was given: "@ + nat_text(v as nat),
        WmCtlError::InvalidWinState(v) => "invalid state was given: "@ + nat_text(v as nat),
        WmCtlError::InvalidWinType(v) => "invalid type was given: "@ + nat_text(v as nat),
        WmCtlError::PropertyNotFound(s) => "property was not found: "@ + s@,
        WmCtlError::TaskbarNotFound => "taskbar not found"@,
        WmCtlError::TaskbarReservationNotFound => "taskbar reservation not found"@,
        WmCtlError::WinNameNotFound => "window name was not found"@,
        WmCtlError::WinTypeNotFound => "window type was not found"@,
    }
}

impl WmCtlError {
    /// The human readable message of the error
    pub fn to_string(&self) -> (r: String)
        ensures
            r@ == error_message(*self),
    {
        match self {
            WmCtlError::ActiveWinNotFound => "active window was not found".to_owned(),
            WmCtlError::InvalidDesktopNum => "invalid desktop number found".to_owned(),
            WmCtlError::InvalidPosition(s) => {
                let mut r = "invalid position was given: ".to_owned();
                r.append(s.as_str());
                r
            },
            WmCtlError::InvalidShape(s) => {
                let mut r = "invalid shape was given: ".to_owned();
                r.append(s.as_str());
                r
            },
            WmCtlError::InvalidWinClass(v) => {
                let mut r = "invalid class was given: ".to_owned();
                r.append(u32_text(*v).as_str());
                r
            },
            WmCtlError::InvalidWinMap(v) => {
                let mut r = "invalid map state was given: ".to_owned();
                r.append(u32_text(*v).as_str());
                r
            },
            WmCtlError::InvalidWinState(v) => {
                let mut r = "invalid state was given: ".to_owned();
                r.append(u32_text(*v).as_str());
                r
            },
            WmCtlError::InvalidWinType(v) => {
                let mut r = "invalid type was given: ".to_owned();
                r.append(u32_text(*v).as_str());
                r
            },
            WmCtlError::PropertyNotFound(s) => {
                let mut r = "property was not found: ".to_owned();
                r.append(s.as_str());
                r
            },
            WmCtlError::TaskbarNotFound => "taskbar not found".to_owned(),
            WmCtlError::TaskbarReservationNotFound => "taskbar reservation not found".to_owned(),
            WmCtlError::WinNameNotFound => "window name was not found".to_owned(),
            WmCtlError::WinTypeNotFound => "window type was not found".to_owned(),
        }
    }
}

/// Error of reading a position
#[derive(Clone, Debug, Eq, Hash, Ord, PartialEq, PartialOrd)]
pub enum PositionError {
    Invalid(String),
}

/// Error of reading a shape
#[derive(Clone, Debug, Eq, Hash, Ord, PartialEq, PartialOrd)]
pub enum ShapeError {
    Invalid(String),
}

/// Errors of locating the taskbar that a window's placement takes into account
#[derive(Clone, Copy, Debug, Eq, Hash, Ord, PartialEq, PartialOrd, Structural)]
pub enum WinError {
    TaskbarNotFound,
    TaskbarReservationNotFound,
}

impl PositionError {
    /// The message that describes the error
    pub fn to_string(&self) -> (r: String)
        ensures
            r@ == (match self {
                PositionError::Invalid(s) => "invalid position was given: "@ + s@,
            }),
    {
        match self {
            PositionError::Invalid(s) => {
                let mut r = "invalid position was given: ".to_owned();
                r.append(s.as_str());
                r
            },
        }
    }
}

impl ShapeError {
    /// The message that describes the error
    pub fn to_string(&self) -> (r: String)
        ensures
            r@ == (match self {
                ShapeError::Invalid(s) => "invalid shape was given: "@ + s@,
            }),
    {
        match self {
            ShapeError::Invalid(s) => {
                let mut r = "invalid shape was given: ".to_owned();
                r.append(s.as_str());
                r
            },
        }
    }
}

impl WinError {
    /// The message that describes the error
    pub fn to_string(&self) -> (r: String)
        ensures
            r@ == (match self {
                WinError::TaskbarNotFound => "taskbar not found"@,
                WinError::TaskbarReservationNotFound => "taskbar reservation not found"@,
            }),
    {
        match self {
            WinError::TaskbarNotFound => "taskbar not found".to_owned(),
            WinError::TaskbarReservationNotFound => "taskbar reservation not found".to_owned(),
        }
    }
}

impl From<PositionError> for WmCtlError {
    fn from(err: PositionError) -> (r: WmCtlError) {
        match err {
            PositionError::Invalid(s) => WmCtlError::InvalidPosition(s),
        }
    }
}

impl FromSpecImpl<PositionError> for WmCtlError {
    open spec fn obeys_from_spec() -> bool {
        true
    }

    open spec fn from_spec(err: PositionError) -> WmCtlError {
        match err {
            PositionError::Invalid(s) => WmCtlError::InvalidPosition(s),
        }
    }
}

impl From<ShapeError> for WmCtlError {
    fn from(err: ShapeError) -> (r: WmCtlError) {
        match err {
            ShapeError::Invalid(s) => WmCtlError::InvalidShape(s),
        }
    }
}

impl FromSpecImpl<ShapeError> for WmCtlError {
    open spec fn obeys_from_spec() -> bool {
        true
    }

    open spec fn from_spec(err: ShapeError) -> WmCtlError {
        match err {
            ShapeError::Invalid(s) => WmCtlError::InvalidShape(s),
        }
    }
}

impl From<WinError> for WmCtlError {
    fn from(err: WinError) -> (r: WmCtlError) {
        match err {
            WinError::TaskbarNotFound => WmCtlError::TaskbarNotFound,
            WinError::TaskbarReservationNotFound => WmCtlError::TaskbarReservationNotFound,
        }
    }
}

impl FromSpecImpl<WinError> for WmCtlError {
    open spec fn obeys_from_spec() -> bool {
        true
    }

    open spec fn from_spec(err: WinError) -> WmCtlError {
        match err {
            WinError::TaskbarNotFound => WmCtlError::TaskbarNotFound,
            WinError::TaskbarReservationNotFound => WmCtlError::TaskbarReservationNotFound,
        }
    }
}

} // verus!
