use vstd::prelude::*;

use crate::error::WmCtlError;
use crate::text::{i32_text, int_text, lowercase, str_eq, to_lowercase};

verus! {

/// Position provides a number of pre-defined positions on the screen to quickly and easily
/// move the window to taking into account borders and taskbars automatically.
#[derive(Debug, Clone, Copy, PartialEq, Eq, Structural)]
pub enum Position {
    Center,
    Left,
    Right,
    Top,
    Bottom,
    TopLeft,
    TopRight,
    BottomLeft,
    BottomRight,
    LeftCenter,
    RightCenter,
    TopCenter,
    BottomCenter,
    Static(i32, i32),
}

/// The position that a lowercase name stands for, if any.
pub open spec fn position_named(s: Seq<char>) -> Option<Position> {
    if s == "center"@ {
        Some(Position::Center)
    } else if s == "left"@ {
        Some(Position::Left)
    } else if s == "right"@ {
        Some(Position::Right)
    } else if s == "top"@ {
        Some(Position::Top)
    } else if s == "bottom"@ {
        Some(Position::Bottom)
    } else if s == "top-left"@ {
        Some(Position::TopLeft)
    } else if s == "top-right"@ {
        Some(Position::TopRight)
    } else if s == "bottom-left"@ {
        Some(Position::BottomLeft)
    } else if s == "bottom-right"@ {
        Some(Position::BottomRight)
    } else if s == "left-center"@ {
        Some(Position::LeftCenter)
    } else if s == "right-center"@ {
        Some(Position::RightCenter)
    } else if s == "top-center"@ {
        Some(Position::TopCenter)
    } else if s == "bottom-center"@ {
        Some(Position::BottomCenter)
    } else {
        None
    }
}

/// The text of a position: its variant name in lowercase, with the coordinates of a static
/// position in brackets.
pub open spec fn position_text(p: Position) -> Seq<char> {
    match p {
        Position::Center => "center"@,
        Position::Left => "left"@,
        Position::Right => "right"@,
        Position::Top => "top"@,
        Position::Bottom => "bottom"@,
        Position::TopLeft => "topleft"@,
        Position::TopRight => "topright"@,
        Position::BottomLeft => "bottomleft"@,
        Position::BottomRight => "bottomright"@,
        Position::LeftCenter => "leftcenter"@,
        Position::RightCenter => "rightcenter"@,
        Position::TopCenter => "topcenter"@,
        Position::BottomCenter => "bottomcenter"@,
        Position::Static(x, y) => "static("@ + int_text(x as int) + ", "@ + int_text(y as int) + ")"@,
    }
}

impl Position {
    /// Text of the position: the lowercase variant name, e.g. `topleft` or `static(10, 20)`
    pub fn to_string(&self) -> (r: String)
        ensures
            r@ == position_text(*self),
    {
        match self {
            Position::Center => "center".to_owned(),
            Position::Left => "left".to_owned(),
            Position::Right => "right".to_owned(),
            Position::Top => "top".to_owned(),
            Position::Bottom => "bottom".to_owned(),
            Position::TopLeft => "topleft".to_owned(),
            Position::TopRight => "topright".to_owned(),
            Position::BottomLeft => "bottomleft".to_owned(),
            Position::BottomRight => "bottomright".to_owned(),
            Position::LeftCenter => "leftcenter".to_owned(),
            Position::RightCenter => "rightcenter".to_owned(),
            Position::TopCenter => "topcenter".to_owned(),
            Position::BottomCenter => "bottomcenter".to_owned(),
            Position::Static(x, y) => {
                let mut r = "static(".to_owned();
                r.append(i32_text(*x).as_str());
                r.append(", ");
                r.append(i32_text(*y).as_str());
                r.append(")");
                r
            },
        }
    }

    /// Read a position from its already lowercased name; `original` is the text as the caller
    /// gave it, which an error reports.
    pub fn parse_lowercase(lower: &str, original: &str) -> (r: Result<Position, WmCtlError>)
        ensures
            match position_named(lower@) {
                Some(p) => r == Ok::<Position, WmCtlError>(p),
                None => r matches Err(WmCtlError::InvalidPosition(s)) && s@ == original@,
            },
    {
        if str_eq(lower, "center") {
            Ok(Position::Center)
        } else if str_eq(lower, "left") {
            Ok(Position::Left)
        } else if str_eq(lower, "right") {
            Ok(Position::Right)
        } else if str_eq(lower, "top") {
            Ok(Position::Top)
        } else if str_eq(lower, "bottom") {
            Ok(Position::Bottom)
        } else if str_eq(lower, "top-left") {
            Ok(Position::TopLeft)
        } else if str_eq(lower, "top-right") {
            Ok(Position::TopRight)
        } else if str_eq(lower, "bottom-left") {
            Ok(Position::BottomLeft)
        } else if str_eq(lower, "bottom-right") {
            Ok(Position::BottomRight)
        } else if str_eq(lower, "left-center") {
            Ok(Position::LeftCenter)
        } else if str_eq(lower, "right-center") {
            Ok(Position::RightCenter)
        } else if str_eq(lower, "top-center") {
            Ok(Position::TopCenter)
        } else if str_eq(lower, "bottom-center") {
            Ok(Position::BottomCenter)
        } else {
            Err(WmCtlError::InvalidPosition(original.to_owned()))
        }
    }

    /// Convert a position name, in any letter case, e.g. `Top-Left`, into a position
    pub fn try_from(val: &str) -> (r: Result<Position, WmCtlError>)
        ensures
            match position_named(lowercase(val@)) {
                Some(p) => r == Ok::<Position, WmCtlError>(p),
                None => r matches Err(WmCtlError::InvalidPosition(s)) && s@ == val@,
            },
    {
        let lower = to_lowercase(val);
        Position::parse_lowercase(lower.as_str(), val)
    }
}

/// The plain positions read back from their text: the text of `Center`, `Left`, `Right`,
/// `Top` and `Bottom` is the name the parser accepts for them.
pub proof fn lemma_position_text_round_trip(p: Position)
    requires
        p is Center || p is Left || p is Right || p is Top || p is Bottom,
    ensures
        position_named(position_text(p)) == Some(p),
{
    reveal_strlit("center");
    reveal_strlit("left");
    reveal_strlit("right");
    reveal_strlit("top");
    reveal_strlit("bottom");
    assert("center"@.len() == 6 && "center"@[0] == 'c');
    assert("left"@.len() == 4 && "left"@[0] == 'l');
    assert("right"@.len() == 5 && "right"@[0] == 'r');
    assert("top"@.len() == 3 && "top"@[0] == 't');
    assert("bottom"@.len() == 6 && "bottom"@[0] == 'b');
}

} // verus!
