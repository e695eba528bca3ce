use vstd::prelude::*;

use crate::error::WmCtlError;
use crate::x11::{window_class_copy_from_parent, window_class_input_only, window_class_input_output};

verus! {

/// Class provides an easy way to identify the different window class types
#[derive(Debug, Clone, Copy, PartialEq, Eq, Structural)]
pub enum Class {
    CopyFromParent,
    InputOnly,
    InputOutput,
}

/// The X11 number of a window class.
pub open spec fn class_number(c: Class) -> u32 {
    match c {
        Class::CopyFromParent => 0,
        Class::InputOutput => 1,
        Class::InputOnly => 2,
    }
}

/// The window class that an X11 number stands for, or an error that reports the number.
pub open spec fn class_of(val: u32) -> Result<Class, WmCtlError> {
    if val == 0 {
        Ok(Class::CopyFromParent)
    } else if val == 2 {
        Ok(Class::InputOnly)
    } else if val == 1 {
        Ok(Class::InputOutput)
    } else {
        Err(WmCtlError::InvalidWinClass(val))
    }
}

/// The lowercase name of a window class.
pub open spec fn class_text(c: Class) -> Seq<char> {
    match c {
        Class::CopyFromParent => "copyfromparent"@,
        Class::InputOnly => "inputonly"@,
        Class::InputOutput => "inputoutput"@,
    }
}

impl Class {
    /// Convert an X11 window class number into a class
    pub fn from(val: u32) -> (r: Result<Class, WmCtlError>)
        ensures
            r == class_of(val),
    {
        if val == window_class_copy_from_parent() {
            Ok(Class::CopyFromParent)
        } else if val == window_class_input_only() {
            Ok(Class::InputOnly)
        } else if val == window_class_input_output() {
            Ok(Class::InputOutput)
        } else {
            Err(WmCtlError::InvalidWinClass(val))
        }
    }

    /// Lowercase name of the class
    pub fn to_string(&self) -> (r: String)
        ensures
            r@ == class_text(*self),
    {
        match self {
            Class::CopyFromParent => "copyfromparent".to_owned(),
            Class::InputOnly => "inputonly".to_owned(),
            Class::InputOutput => "inputoutput".to_owned(),
        }
    }
}

/// Converting the number of a class gives back the class.
pub proof fn lemma_class_round_trip(c: Class)
    ensures
        class_of(class_number(c)) == Ok::<Class, WmCtlError>(c),
{
}

} // verus!
