use libwmctl::{
    AtomCollection, Border, Class, Gravity, MapState, Position, PositionError, Property, Rect,
    Shape, ShapeError, State, WinError, WinKind, WmCtlError,
};

fn atoms() -> AtomCollection {
    AtomCollection {
        _NET_WM_STATE: 300,
        _NET_WM_STATE_ABOVE: 301,
        _NET_WM_STATE_BELOW: 302,
        _NET_WM_STATE_DEMANDS_ATTENTION: 303,
        _NET_WM_STATE_FOCUSED: 304,
        _NET_WM_STATE_FULLSCREEN: 305,
        _NET_WM_STATE_HIDDEN: 306,
        _NET_WM_STATE_MAXIMIZED_HORZ: 307,
        _NET_WM_STATE_MAXIMIZED_VERT: 308,
        _NET_WM_STATE_MODAL: 309,
        _NET_WM_STATE_SHADED: 310,
        _NET_WM_STATE_SKIP_PAGER: 311,
        _NET_WM_STATE_SKIP_TASKBAR: 312,
        _NET_WM_STATE_STICKY: 313,
        _NET_WM_WINDOW_TYPE_COMBO: 400,
        _NET_WM_WINDOW_TYPE_DESKTOP: 401,
        _NET_WM_WINDOW_TYPE_DIALOG: 402,
        _NET_WM_WINDOW_TYPE_DND: 403,
        _NET_WM_WINDOW_TYPE_DOCK: 404,
        _NET_WM_WINDOW_TYPE_DROPDOWN_MENU: 405,
        _NET_WM_WINDOW_TYPE_MENU: 406,
        _NET_WM_WINDOW_TYPE_NORMAL: 407,
        _NET_WM_WINDOW_TYPE_NOTIFICATION: 408,
        _NET_WM_WINDOW_TYPE_POPUP_MENU: 409,
        _NET_WM_WINDOW_TYPE_SPLASH: 410,
        _NET_WM_WINDOW_TYPE_TOOLBAR: 411,
        _NET_WM_WINDOW_TYPE_TOOLTIP: 412,
        _NET_WM_WINDOW_TYPE_UTILITY: 413,
    }
}

#[test]
fn border_sums_and_any() {
    let b = Border::new(1, 2, 3, 4);
    assert_eq!((b.l, b.r, b.t, b.b), (1, 2, 3, 4));
    assert_eq!(b.w(), 3);
    assert_eq!(b.h(), 7);
    assert!(b.any());
    assert!(!Border::default().any());
    assert!(Border::new(0, 0, 0, 9).any());
}

#[test]
fn rect_new_keeps_size() {
    let r = Rect::new(800, 600);
    assert_eq!((r.w, r.h), (800, 600));
    assert_eq!(Rect::default(), Rect::new(0, 0));
}

#[test]
fn property_new_has_empty_value() {
    let p = Property::new(42, "WM_NAME");
    assert_eq!(p.id, 42);
    assert_eq!(p.name, "WM_NAME");
    assert_eq!(p.value, "");
}

#[test]
fn gravity_numbers_round_trip() {
    assert_eq!(Gravity::from(5u32), Gravity::Center);
    assert_eq!(Gravity::from(0u32), Gravity::Unmap);
    assert_eq!(Gravity::from(7u32), Gravity::Unmap);
    assert_eq!(u32::from(Gravity::Center), 5);
    assert_eq!(u32::from(Gravity::Unmap), 0);
    for g in [Gravity::Center, Gravity::Unmap] {
        assert_eq!(Gravity::from(u32::from(g)), g);
    }
    assert_eq!(Gravity::Center.to_string(), "center");
    assert_eq!(Gravity::Unmap.to_string(), "unmap");
}

#[test]
fn position_names_parse() {
    let names = [
        ("center", Position::Center),
        ("left", Position::Left),
        ("right", Position::Right),
        ("top", Position::Top),
        ("bottom", Position::Bottom),
        ("top-left", Position::TopLeft),
        ("top-right", Position::TopRight),
        ("bottom-left", Position::BottomLeft),
        ("bottom-right", Position::BottomRight),
        ("left-center", Position::LeftCenter),
        ("right-center", Position::RightCenter),
        ("top-center", Position::TopCenter),
        ("bottom-center", Position::BottomCenter),
    ];
    for (name, pos) in names {
        assert_eq!(Position::try_from(name), Ok(pos));
    }
    assert_eq!(Position::try_from("Bottom-Left"), Ok(Position::BottomLeft));
    assert_eq!(Position::try_from("TOP"), Ok(Position::Top));
}

#[test]
fn position_unknown_name_is_an_error() {
    assert_eq!(Position::try_from("TopLeft"), Err(WmCtlError::InvalidPosition("TopLeft".to_string())));
    assert_eq!(Position::try_from(""), Err(WmCtlError::InvalidPosition("".to_string())));
    assert_eq!(
        Position::parse_lowercase("middle", "Middle"),
        Err(WmCtlError::InvalidPosition("Middle".to_string()))
    );
}

#[test]
fn position_text_is_lowercase_variant() {
    assert_eq!(Position::TopLeft.to_string(), "topleft");
    assert_eq!(Position::BottomCenter.to_string(), "bottomcenter");
    assert_eq!(Position::Static(10, -20).to_string(), "static(10, -20)");
}

#[test]
fn plain_position_text_reads_back() {
    for pos in [Position::Center, Position::Left, Position::Right, Position::Top, Position::Bottom] {
        assert_eq!(Position::try_from(pos.to_string().as_str()), Ok(pos));
    }
    assert_eq!(
        Position::try_from(Position::TopLeft.to_string().as_str()),
        Err(WmCtlError::InvalidPosition("topleft".to_string()))
    );
}

#[test]
fn shape_names_parse() {
    let names = [
        ("grow", Shape::Grow),
        ("max", Shape::Max),
        ("halfw", Shape::Halfw),
        ("halfh", Shape::Halfh),
        ("small", Shape::Small),
        ("medium", Shape::Medium),
        ("large", Shape::Large),
        ("shrink", Shape::Shrink),
        ("unmax", Shape::UnMax),
    ];
    for (name, shape) in names {
        assert_eq!(Shape::try_from(name), Ok(shape));
        assert_eq!(Shape::try_from(shape.to_string().as_str()), Ok(shape));
    }
    assert_eq!(Shape::try_from("Small"), Ok(Shape::Small));
    assert_eq!(Shape::try_from("square"), Err(WmCtlError::InvalidShape("square".to_string())));
    assert_eq!(Shape::Static(800, 600).to_string(), "static(800, 600)");
}

#[test]
fn class_numbers() {
    assert_eq!(Class::from(0), Ok(Class::CopyFromParent));
    assert_eq!(Class::from(1), Ok(Class::InputOutput));
    assert_eq!(Class::from(2), Ok(Class::InputOnly));
    assert_eq!(Class::from(3), Err(WmCtlError::InvalidWinClass(3)));
    assert_eq!(Class::InputOnly.to_string(), "inputonly");
}

#[test]
fn map_state_numbers() {
    assert_eq!(MapState::from(0), Ok(MapState::Unmapped));
    assert_eq!(MapState::from(1), Ok(MapState::Unviewable));
    assert_eq!(MapState::from(2), Ok(MapState::Viewable));
    assert_eq!(MapState::from(9), Err(WmCtlError::InvalidWinMap(9)));
    assert_eq!(MapState::Viewable.to_string(), "viewable");
}

#[test]
fn state_atoms_convert() {
    let a = atoms();
    assert_eq!(State::from(&a, 301), Ok(State::Above));
    assert_eq!(State::from(&a, 307), Ok(State::MaxHorz));
    assert_eq!(State::from(&a, 308), Ok(State::MaxVert));
    assert_eq!(State::from(&a, 313), Ok(State::Sticky));
    assert_eq!(State::from(&a, 300), Err(WmCtlError::InvalidWinState(300)));
    assert_eq!(State::DemandsAttention.to_string(), "demandsattention");
    assert_eq!(State::Invalid.to_string(), "");
}

#[test]
fn state_first_matching_atom_wins() {
    let mut a = atoms();
    a._NET_WM_STATE_BELOW = 301;
    assert_eq!(State::from(&a, 301), Ok(State::Above));
}

#[test]
fn kind_atoms_convert() {
    let a = atoms();
    assert_eq!(WinKind::from(&a, 400), Ok(WinKind::Combo));
    assert_eq!(WinKind::from(&a, 407), Ok(WinKind::Normal));
    assert_eq!(WinKind::from(&a, 413), Ok(WinKind::Utility));
    assert_eq!(WinKind::from(&a, 414), Err(WmCtlError::InvalidWinType(414)));
    assert_eq!(WinKind::DropDownMenu.to_string(), "dropdownmenu");
    assert_eq!(WinKind::Invalid.to_string(), "");
}

#[test]
fn error_messages() {
    assert_eq!(WmCtlError::ActiveWinNotFound.to_string(), "active window was not found");
    assert_eq!(
        WmCtlError::InvalidPosition("nowhere".to_string()).to_string(),
        "invalid position was given: nowhere"
    );
    assert_eq!(WmCtlError::InvalidWinClass(7).to_string(), "invalid class was given: 7");
    assert_eq!(WmCtlError::InvalidWinState(4294967295).to_string(), "invalid state was given: 4294967295");
    assert_eq!(
        WmCtlError::PropertyNotFound("_NET_WORKAREA".to_string()).to_string(),
        "property was not found: _NET_WORKAREA"
    );
    assert_eq!(WinError::TaskbarNotFound.to_string(), "taskbar not found");
    assert_eq!(PositionError::Invalid("x".to_string()).to_string(), "invalid position was given: x");
    assert_eq!(ShapeError::Invalid("y".to_string()).to_string(), "invalid shape was given: y");
}

#[test]
fn older_errors_convert() {
    assert_eq!(WmCtlError::from(PositionError::Invalid("a".to_string())), WmCtlError::InvalidPosition("a".to_string()));
    assert_eq!(WmCtlError::from(ShapeError::Invalid("b".to_string())), WmCtlError::InvalidShape("b".to_string()));
    assert_eq!(WmCtlError::from(WinError::TaskbarReservationNotFound), WmCtlError::TaskbarReservationNotFound);
}
