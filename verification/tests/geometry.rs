use libwmctl::{translate_placement, translate_pos, translate_shape, Border, Position, Rect, Shape, Window};

fn no_border() -> Border {
    Border::new(0, 0, 0, 0)
}

#[test]
fn pos_wide_window_stays_at_left_edge() {
    // a window as wide as the work area is placed at x = 0 for right and center
    let size = Rect::new(2560, 500);
    let area = Rect::new(2560, 1415);
    let border = Border::new(4, 4, 28, 4);
    let (x, _) = translate_pos(&size, &border, &no_border(), &area, &Position::Right).unwrap();
    assert_eq!(x, Some(0));
    let (x, y) = translate_pos(&size, &border, &no_border(), &area, &Position::Center).unwrap();
    assert_eq!(x, Some(0));
    assert_eq!(y, Some((1415 - 500 - 28) / 2));
}

#[test]
fn pos_csd_window() {
    // client side decorations: centering counts the decorations, right ignores them,
    // bottom moves the window up by its top decoration
    let size = Rect::new(1000, 700);
    let area = Rect::new(2560, 1415);
    let csd = Border::new(23, 23, 15, 31);
    let (x, y) = translate_pos(&size, &no_border(), &csd, &area, &Position::Center).unwrap();
    assert_eq!(x, Some((2560 - (1000 + 46)) / 2));
    assert_eq!(y, Some((1415 - (700 + 46)) / 2));
    let (x, y) = translate_pos(&size, &no_border(), &csd, &area, &Position::BottomRight).unwrap();
    assert_eq!(x, Some(1560));
    assert_eq!(y, Some(-15));
}

#[test]
fn pos_csd_centering_rounds_toward_zero() {
    // a decorated window larger than the area is centered at a negative x, halved toward zero
    let size = Rect::new(3001, 100);
    let area = Rect::new(2560, 1415);
    let csd = Border::new(1, 1, 1, 1);
    let (x, _) = translate_pos(&size, &no_border(), &csd, &area, &Position::TopCenter).unwrap();
    assert_eq!(x, Some(-221));
}

#[test]
fn pos_static_passes_through() {
    let (x, y) = translate_pos(&Rect::new(1, 1), &no_border(), &no_border(), &Rect::new(10, 10), &Position::Static(-5, 7)).unwrap();
    assert_eq!((x, y), (Some(-5), Some(7)));
}

#[test]
fn shape_max_and_unmax() {
    let area = Rect::new(2560, 1415);
    let size = Rect::new(500, 500);
    assert_eq!(translate_shape(&size, &no_border(), &no_border(), &area, &Shape::Max).unwrap(), (None, Some(0), Some(0)));
    assert_eq!(translate_shape(&size, &no_border(), &no_border(), &area, &Shape::UnMax).unwrap(), (None, None, None));
    assert_eq!(translate_shape(&size, &no_border(), &no_border(), &area, &Shape::Square).unwrap(), (None, None, None));
}

#[test]
fn shape_small_halfh() {
    let area = Rect::new(2560, 1415);
    let size = Rect::new(500, 500);
    let border = Border::new(5, 5, 10, 10);
    assert_eq!(translate_shape(&size, &border, &no_border(), &area, &Shape::Small).unwrap(), (None, Some(1270), Some(687)));
    assert_eq!(translate_shape(&size, &border, &no_border(), &area, &Shape::Halfh).unwrap(), (None, Some(2550), Some(687)));
}

#[test]
fn shape_grow_by_one_percent() {
    let area = Rect::new(2560, 1415);
    let border = Border::new(5, 5, 10, 10);
    // 1010 x 720 without borders: 1000 x 700 grows to 1010 x 707
    let r = translate_shape(&Rect::new(1010, 720), &border, &no_border(), &area, &Shape::Grow).unwrap();
    assert_eq!(r, (Some(5), Some(1010), Some(707)));
    // growing stops at the full size
    let r = translate_shape(&Rect::new(2560, 1415), &border, &no_border(), &area, &Shape::Grow).unwrap();
    assert_eq!(r, (Some(5), Some(2550), Some(1395)));
}

#[test]
fn shape_shrink_by_one_percent_down_to_100() {
    let area = Rect::new(2560, 1415);
    let r = translate_shape(&Rect::new(1000, 700), &no_border(), &no_border(), &area, &Shape::Shrink).unwrap();
    assert_eq!(r, (Some(5), Some(990), Some(693)));
    let r = translate_shape(&Rect::new(100, 50), &no_border(), &no_border(), &area, &Shape::Shrink).unwrap();
    assert_eq!(r, (Some(5), Some(100), Some(100)));
}

#[test]
fn shape_medium_and_large_are_four_by_three() {
    let area = Rect::new(2560, 1415);
    let size = Rect::new(500, 500);
    // landscape: medium is 3/4 of the full height, large the full height
    let r = translate_shape(&size, &no_border(), &no_border(), &area, &Shape::Medium).unwrap();
    assert_eq!(r, (None, Some(1415), Some(1061)));
    let r = translate_shape(&size, &no_border(), &no_border(), &area, &Shape::Large).unwrap();
    assert_eq!(r, (None, Some(1886), Some(1415)));
    // portrait
    let area = Rect::new(1200, 1920);
    let r = translate_shape(&size, &no_border(), &no_border(), &area, &Shape::Medium).unwrap();
    assert_eq!(r, (None, Some(900), Some(1200)));
    let r = translate_shape(&size, &no_border(), &no_border(), &area, &Shape::Large).unwrap();
    assert_eq!(r, (None, Some(1200), Some(1600)));
}

#[test]
fn shape_static_adds_csd() {
    let area = Rect::new(2560, 1415);
    let size = Rect::new(500, 500);
    let csd = Border::new(23, 23, 15, 31);
    assert_eq!(translate_shape(&size, &no_border(), &no_border(), &area, &Shape::Static(800, 600)).unwrap(), (None, Some(800), Some(600)));
    assert_eq!(translate_shape(&size, &no_border(), &csd, &area, &Shape::Static(800, 600)).unwrap(), (None, Some(846), Some(646)));
}

#[test]
fn placement_drops_gravity_when_positioned() {
    let area = Rect::new(2560, 1415);
    let size = Rect::new(1000, 700);
    let m = translate_placement(&size, &no_border(), &no_border(), &area, &Some(Shape::Grow), &None).unwrap();
    assert_eq!((m.gravity, m.x, m.y, m.w, m.h), (Some(5), None, None, Some(1010), Some(707)));
    let m = translate_placement(&size, &no_border(), &no_border(), &area, &Some(Shape::Grow), &Some(Position::TopLeft)).unwrap();
    assert_eq!((m.gravity, m.x, m.y, m.w, m.h), (None, Some(0), Some(0), Some(1010), Some(707)));
    let m = translate_placement(&size, &no_border(), &no_border(), &area, &None, &Some(Position::Right)).unwrap();
    assert_eq!((m.gravity, m.x, m.y, m.w, m.h), (None, Some(1560), None, None, None));
}

#[test]
fn window_directives_place() {
    let area = Rect::new(2560, 1415);
    let size = Rect::new(500, 500);
    let win = Window::new(7);
    assert!(!win.has_directives());
    let win = win.shape(Shape::Small).pos(Position::BottomLeft);
    assert_eq!(win.id, 7);
    assert!(win.has_directives());
    assert!(win.placement_fits(&size, &no_border(), &no_border(), &area));
    let m = win.placement(&size, &no_border(), &no_border(), &area).unwrap();
    assert_eq!((m.gravity, m.x, m.y, m.w, m.h), (None, Some(0), Some(915), Some(1280), Some(707)));
}

#[test]
fn placement_bounds_are_checked() {
    let area = Rect::new(100, 100);
    let size = Rect::new(50, 50);
    // borders wider than half the work area cannot be subtracted from it
    let border = Border::new(30, 30, 0, 0);
    assert!(!Window::new(1).shape(Shape::Small).placement_fits(&size, &border, &no_border(), &area));
    assert!(Window::new(1).shape(Shape::Max).placement_fits(&size, &border, &no_border(), &area));
    assert!(!libwmctl::placement::position_inputs_fit(&Rect::new(0x8000_0000, 1), &border, &no_border(), &area));
}
