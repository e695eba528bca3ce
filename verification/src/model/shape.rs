use vstd::prelude::*;

use crate::error::WmCtlError;
use crate::text::{lowercase, nat_text, str_eq, to_lowercase, u32_text};

verus! {

/// Shape provides a number of pre-defined shapes to manipulate the window into, taking into
/// account borders and taskbars automatically.
#[derive(Debug, Clone, Copy, PartialEq, Eq, Structural)]
pub enum Shape {
    Grow,
    Max,
    Halfw,
    Halfh,
    Small,
    Medium,
    Large,
    Shrink,
    Square,
    UnMax,
    Static(u32, u32),
}

/// The shape that a lowercase name stands for, if any.
pub open spec fn shape_named(s: Seq<char>) -> Option<Shape> {
    if s == "grow"@ {
        Some(Shape::Grow)
    } else if s == "max"@ {
        Some(Shape::Max)
    } else if s == "halfw"@ {
        Some(Shape::Halfw)
    } else if s == "halfh"@ {
        Some(Shape::Halfh)
    } else if s == "small"@ {
        Some(Shape::Small)
    } else if s == "medium"@ {
        Some(Shape::Medium)
    } else if s == "large"@ {
        Some(Shape::Large)
    } else if s == "shrink"@ {
        Some(Shape::Shrink)
    } else if s == "unmax"@ {
        Some(Shape::UnMax)
    } else {
        None
    }
}

/// The text of a shape: its variant name in lowercase, with the size of a static shape in
/// brackets.
pub open spec fn shape_text(s: Shape) -> Seq<char> {
    match s {
        Shape::Grow => "grow"@,
        Shape::Max => "max"@,
        Shape::Halfw => "halfw"@,
        Shape::Halfh => "halfh"@,
        Shape::Small => "small"@,
        Shape::Medium => "medium"@,
        Shape::Large => "large"@,
        Shape::Shrink => "shrink"@,
        Shape::Square => "square"@,
        Shape::UnMax => "unmax"@,
        Shape::Static(w, h) => "static("@ + nat_text(w as nat) + ", "@ + nat_text(h as nat) + ")"@,
    }
}

impl Shape {
    /// Text of the shape: the lowercase variant name, e.g. `halfw` or `static(800, 600)`
    pub fn to_string(&self) -> (r: String)
        ensures
            r@ == shape_text(*self),
    {
        match self {
            Shape::Grow => "grow".to_owned(),
            Shape::Max => "max".to_owned(),
            Shape::Halfw => "halfw".to_owned(),
            Shape::Halfh => "halfh".to_owned(),
            Shape::Small => "small".to_owned(),
            Shape::Medium => "medium".to_owned(),
            Shape::Large => "large".to_owned(),
            Shape::Shrink => "shrink".to_owned(),
            Shape::Square => "square".to_owned(),
            Shape::UnMax => "unmax".to_owned(),
            Shape::Static(w, h) => {
                let mut r = "static(".to_owned();
                r.append(u32_text(*w).as_str());
                r.append(", ");
                r.append(u32_text(*h).as_str());
                r.append(")");
                r
            },
        }
    }

    /// Read a shape from its already lowercased name; `original` is the text as the caller gave
    /// it, which an error reports.
    pub fn parse_lowercase(lower: &str, original: &str) -> (r: Result<Shape, WmCtlError>)
        ensures
            match shape_named(lower@) {
                Some(s) => r == Ok::<Shape, WmCtlError>(s),
                None => r matches Err(WmCtlError::InvalidShape(e)) && e@ == original@,
            },
    {
        if str_eq(lower, "grow") {
            Ok(Shape::Grow)
        } else if str_eq(lower, "max") {
            Ok(Shape::Max)
        } else if str_eq(lower, "halfw") {
            Ok(Shape::Halfw)
        } else if str_eq(lower, "halfh") {
            Ok(Shape::Halfh)
        } else if str_eq(lower, "small") {
            Ok(Shape::Small)
        } else if str_eq(lower, "medium") {
            Ok(Shape::Medium)
        } else if str_eq(lower, "large") {
            Ok(Shape::Large)
        } else if str_eq(lower, "shrink") {
            Ok(Shape::Shrink)
        } else if str_eq(lower, "unmax") {
            Ok(Shape::UnMax)
        } else {
            Err(WmCtlError::InvalidShape(original.to_owned()))
        }
    }

    /// Convert a shape name, in any letter case, e.g. `Small`, into a shape
    pub fn try_from(val: &str) -> (r: Result<Shape, WmCtlError>)
        ensures
            match shape_named(lowercase(val@)) {
                Some(s) => r == Ok::<Shape, WmCtlError>(s),
                None => r matches Err(WmCtlError::InvalidShape(e)) && e@ == val@,
            },
    {
        let lower = to_lowercase(val);
        Shape::parse_lowercase(lower.as_str(), val)
    }
}

/// Every shape that has a name reads back from its text: the text of each shape other than
/// `Square` and `Static` is the name the parser accepts for it.
pub proof fn lemma_shape_text_round_trip(s: Shape)
    requires
        !(s is Square),
        !(s is Static),
    ensures
        shape_named(shape_text(s)) == Some(s),
{
    reveal_strlit("grow");
    reveal_strlit("max");
    reveal_strlit("halfw");
    reveal_strlit("halfh");
    reveal_strlit("small");
    reveal_strlit("medium");
    reveal_strlit("large");
    reveal_strlit("shrink");
    reveal_strlit("unmax");
    assert("grow"@.len() == 4 && "grow"@[0] == 'g');
    assert("max"@.len() == 3 && "max"@[0] == 'm');
    assert("halfw"@.len() == 5 && "halfw"@[0] == 'h');
    assert("halfh"@.len() == 5 && "halfh"@[0] == 'h' && "halfh"@[4] == 'h');
    assert("halfw"@[4] == 'w');
    assert("small"@.len() == 5 && "small"@[0] == 's');
    assert("medium"@.len() == 6 && "medium"@[0] == 'm');
    assert("large"@.len() == 5 && "large"@[0] == 'l');
    assert("shrink"@.len() == 6 && "shrink"@[0] == 's');
    assert("unmax"@.len() == 5 && "unmax"@[0] == 'u');
}

} // verus!
