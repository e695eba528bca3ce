use libwmctl::{translate_pos, translate_shape, Border, Position, Rect, Shape};

#[test]
fn test_translate_shape_halfw() {
    // No borders
    let size = Rect::default();
    let borders = Border::default();
    let csd = Border::default();
    let area = Rect { w: 2560, h: 1415 };
    let (g, _w, _h) = translate_shape(&size, &borders, &csd, &area, &Shape::Halfw).unwrap();
    let hw = (area.w as f32 / 2.0) as u32;
    let fh = (area.h) as u32;
    assert_eq!(g, None);
    assert_eq!(_w, Some(hw));
    assert_eq!(_h, Some(fh));

    // With window manager borders
    let borders = Border::new(5, 5, 10, 10);
    let area = Rect { w: 2560, h: 1415 };
    let (g, _w, _h) = translate_shape(&size, &borders, &csd, &area, &Shape::Halfw).unwrap();
    let hw = (area.w as f32 / 2.0) as u32 - borders.w();
    let fh = (area.h) as u32 - borders.h();
    assert_eq!(g, None);
    assert_eq!(_w, Some(hw));
    assert_eq!(_h, Some(fh));

    // With csd borders
    let csd = Border::new(5, 5, 10, 10);
    let area = Rect { w: 2560, h: 1415 };
    let (g, _w, _h) = translate_shape(&size, &borders, &csd, &area, &Shape::Halfw).unwrap();
    let hw = (area.w as f32 / 2.0) as u32 + csd.w();
    let fh = (area.h) as u32 + csd.h();
    assert_eq!(g, None);
    assert_eq!(_w, Some(hw));
    assert_eq!(_h, Some(fh));
}

#[test]
fn test_translate_pos_bottomcenter() {
    // No borders
    let (w, h, bw, bh, cw, ch, aw, ah) = (500.0, 500.0, 0.0, 0.0, 0.0, 0.0, 2560.0, 1415.0);
    let (x, y) = translate_pos(
        &Rect::new(w as u32, h as u32),
        &Border::new(bw as u32, bw as u32, bh as u32, bh as u32),
        &Border::new(cw as u32, cw as u32, ch as u32, ch as u32),
        &Rect::new(aw as u32, ah as u32),
        &Position::BottomCenter,
    )
    .unwrap();
    let cx = (aw / 2.0 - (w + bw) / 2.0) as i32;
    let ty = (ah - h - bh) as i32;
    assert_eq!(x, Some(cx));
    assert_eq!(y, Some(ty));

    // With borders
    let (w, h, bw, bh, aw, ah) = (500.0, 500.0, 10.0, 10.0, 2560.0, 1415.0);
    let (x, y) = translate_pos(
        &Rect::new(w as u32, h as u32),
        &Border::new(bw as u32, bw as u32, bh as u32, bh as u32),
        &Border::new(cw as u32, cw as u32, ch as u32, ch as u32),
        &Rect::new(aw as u32, ah as u32),
        &Position::BottomCenter,
    )
    .unwrap();
    let cx = (aw / 2.0 - (w + bw) / 2.0) as i32;
    let ty = (ah - h - bh) as i32;
    assert_eq!(x, Some(cx));
    assert_eq!(y, Some(ty));
}

#[test]
fn test_translate_pos_topcenter() {
    // No borders
    let (w, h, bw, bh, cw, ch, aw, ah) = (500.0, 500.0, 0.0, 0.0, 0.0, 0.0, 2560.0, 1415.0);
    let (x, y) = translate_pos(
        &Rect::new(w as u32, h as u32),
        &Border::new(bw as u32, bw as u32, bh as u32, bh as u32),
        &Border::new(cw as u32, cw as u32, ch as u32, ch as u32),
        &Rect::new(aw as u32, ah as u32),
        &Position::TopCenter,
    )
    .unwrap();
    let cx = (aw / 2.0 - (w + bw) / 2.0) as i32;
    assert_eq!(x, Some(cx));
    assert_eq!(y, Some(0));

    // With borders
    let (w, h, bw, bh, aw, ah) = (500.0, 500.0, 10.0, 10.0, 2560.0, 1415.0);
    let (x, y) = translate_pos(
        &Rect::new(w as u32, h as u32),
        &Border::new(bw as u32, bw as u32, bh as u32, bh as u32),
        &Border::new(cw as u32, cw as u32, ch as u32, ch as u32),
        &Rect::new(aw as u32, ah as u32),
        &Position::TopCenter,
    )
    .unwrap();
    let cx = (aw / 2.0 - (w + bw) / 2.0) as i32;
    assert_eq!(x, Some(cx));
    assert_eq!(y, Some(0));
}

#[test]
fn test_translate_pos_rightcenter() {
    // No borders
    let (w, h, bw, bh, cw, ch, aw, ah) = (500.0, 500.0, 0.0, 0.0, 0.0, 0.0, 2560.0, 1415.0);
    let (x, y) = translate_pos(
        &Rect::new(w as u32, h as u32),
        &Border::new(bw as u32, bw as u32, bh as u32, bh as u32),
        &Border::new(cw as u32, cw as u32, ch as u32, ch as u32),
        &Rect::new(aw as u32, ah as u32),
        &Position::RightCenter,
    )
    .unwrap();
    let lx = (aw - w - bw) as i32;
    let cy = (ah / 2.0 - (h + bh) / 2.0) as i32;
    assert_eq!(x, Some(lx));
    assert_eq!(y, Some(cy));

    // With borders
    let (w, h, bw, bh, aw, ah) = (500.0, 500.0, 10.0, 10.0, 2560.0, 1415.0);
    let (x, y) = translate_pos(
        &Rect::new(w as u32, h as u32),
        &Border::new(bw as u32, bw as u32, bh as u32, bh as u32),
        &Border::new(cw as u32, cw as u32, ch as u32, ch as u32),
        &Rect::new(aw as u32, ah as u32),
        &Position::RightCenter,
    )
    .unwrap();
    let lx = (aw - w - bw) as i32;
    let cy = (ah / 2.0 - (h + bh) / 2.0) as i32;
    assert_eq!(x, Some(lx));
    assert_eq!(y, Some(cy));
}

#[test]
fn test_translate_pos_leftcenter() {
    // No borders
    let (w, h, bw, bh, cw, ch, aw, ah) = (500.0, 500.0, 0.0, 0.0, 0.0, 0.0, 2560.0, 1415.0);
    let (x, y) = translate_pos(
        &Rect::new(w as u32, h as u32),
        &Border::new(bw as u32, bw as u32, bh as u32, bh as u32),
        &Border::new(cw as u32, cw as u32, ch as u32, ch as u32),
        &Rect::new(aw as u32, ah as u32),
        &Position::LeftCenter,
    )
    .unwrap();
    let cy = (ah / 2.0 - (h + bh) / 2.0) as i32;
    assert_eq!(x, Some(0));
    assert_eq!(y, Some(cy));

    // With borders
    let (w, h, bw, bh, aw, ah) = (500.0, 500.0, 10.0, 10.0, 2560.0, 1415.0);
    let (x, y) = translate_pos(
        &Rect::new(w as u32, h as u32),
        &Border::new(bw as u32, bw as u32, bh as u32, bh as u32),
        &Border::new(cw as u32, cw as u32, ch as u32, ch as u32),
        &Rect::new(aw as u32, ah as u32),
        &Position::LeftCenter,
    )
    .unwrap();
    let cy = (ah / 2.0 - (h + bh) / 2.0) as i32;
    assert_eq!(x, Some(0));
    assert_eq!(y, Some(cy));
}

#[test]
fn test_translate_pos_bottomright() {
    // No borders
    let (w, h, bw, bh, cw, ch, aw, ah) = (500.0, 500.0, 0.0, 0.0, 0.0, 0.0, 2560.0, 1415.0);
    let (x, y) = translate_pos(
        &Rect::new(w as u32, h as u32),
        &Border::new(bw as u32, bw as u32, bh as u32, bh as u32),
        &Border::new(cw as u32, cw as u32, ch as u32, ch as u32),
        &Rect::new(aw as u32, ah as u32),
        &Position::BottomRight,
    )
    .unwrap();
    let lx = (aw - w - bw) as i32;
    let ty = (ah - h - bh) as i32;
    assert_eq!(x, Some(lx));
    assert_eq!(y, Some(ty));

    // With borders
    let (w, h, bw, bh, aw, ah) = (500.0, 500.0, 10.0, 10.0, 2560.0, 1415.0);
    let (x, y) = translate_pos(
        &Rect::new(w as u32, h as u32),
        &Border::new(bw as u32, bw as u32, bh as u32, bh as u32),
        &Border::new(cw as u32, cw as u32, ch as u32, ch as u32),
        &Rect::new(aw as u32, ah as u32),
        &Position::BottomRight,
    )
    .unwrap();
    let lx = (aw - w - bw) as i32;
    let ty = (ah - h - bh) as i32;
    assert_eq!(x, Some(lx));
    assert_eq!(y, Some(ty));
}

#[test]
fn test_translate_pos_bottomleft() {
    // No borders
    let (w, h, bw, bh, cw, ch, aw, ah) = (500.0, 500.0, 0.0, 0.0, 0.0, 0.0, 2560.0, 1415.0);
    let (x, y) = translate_pos(
        &Rect::new(w as u32, h as u32),
        &Border::new(bw as u32, bw as u32, bh as u32, bh as u32),
        &Border::new(cw as u32, cw as u32, ch as u32, ch as u32),
        &Rect::new(aw as u32, ah as u32),
        &Position::BottomLeft,
    )
    .unwrap();
    let ty = (ah - h - bh) as i32;
    assert_eq!(x, Some(0));
    assert_eq!(y, Some(ty));

    // With borders
    let (w, h, bw, bh, aw, ah) = (500.0, 500.0, 10.0, 10.0, 2560.0, 1415.0);
    let (x, y) = translate_pos(
        &Rect::new(w as u32, h as u32),
        &Border::new(bw as u32, bw as u32, bh as u32, bh as u32),
        &Border::new(cw as u32, cw as u32, ch as u32, ch as u32),
        &Rect::new(aw as u32, ah as u32),
        &Position::BottomLeft,
    )
    .unwrap();
    let ty = (ah - h - bh) as i32;
    assert_eq!(x, Some(0));
    assert_eq!(y, Some(ty));
}

#[test]
fn test_translate_pos_topright() {
    // No borders
    let (w, h, bw, bh, cw, ch, aw, ah) = (500.0, 500.0, 0.0, 0.0, 0.0, 0.0, 2560.0, 1415.0);
    let (x, y) = translate_pos(
        &Rect::new(w as u32, h as u32),
        &Border::new(bw as u32, bw as u32, bh as u32, bh as u32),
        &Border::new(cw as u32, cw as u32, ch as u32, ch as u32),
        &Rect::new(aw as u32, ah as u32),
        &Position::TopRight,
    )
    .unwrap();
    let lx = (aw - w - bw) as i32;
    assert_eq!(x, Some(lx));
    assert_eq!(y, Some(0));

    // With borders
    let (w, h, bw, bh, aw, ah) = (500.0, 500.0, 10.0, 10.0, 2560.0, 1415.0);
    let (x, y) = translate_pos(
        &Rect::new(w as u32, h as u32),
        &Border::new(bw as u32, bw as u32, bh as u32, bh as u32),
        &Border::new(cw as u32, cw as u32, ch as u32, ch as u32),
        &Rect::new(aw as u32, ah as u32),
        &Position::TopRight,
    )
    .unwrap();
    let lx = (aw - w - bw) as i32;
    assert_eq!(x, Some(lx));
    assert_eq!(y, Some(0));
}

#[test]
fn test_translate_pos_topleft() {
    // No borders
    let (w, h, bw, bh, cw, ch, aw, ah) = (500.0, 500.0, 0.0, 0.0, 0.0, 0.0, 2560.0, 1415.0);
    let (x, y) = translate_pos(
        &Rect::new(w as u32, h as u32),
        &Border::new(bw as u32, bw as u32, bh as u32, bh as u32),
        &Border::new(cw as u32, cw as u32, ch as u32, ch as u32),
        &Rect::new(aw as u32, ah as u32),
        &Position::TopLeft,
    )
    .unwrap();
    assert_eq!(x, Some(0));
    assert_eq!(y, Some(0));

    // With borders
    let (w, h, bw, bh, aw, ah) = (500.0, 500.0, 10.0, 10.0, 2560.0, 1415.0);
    let (x, y) = translate_pos(
        &Rect::new(w as u32, h as u32),
        &Border::new(bw as u32, bw as u32, bh as u32, bh as u32),
        &Border::new(cw as u32, cw as u32, ch as u32, ch as u32),
        &Rect::new(aw as u32, ah as u32),
        &Position::TopLeft,
    )
    .unwrap();
    assert_eq!(x, Some(0));
    assert_eq!(y, Some(0));
}

#[test]
fn test_translate_pos_bottom() {
    // No borders
    let (w, h, bw, bh, cw, ch, aw, ah) = (500.0, 500.0, 0.0, 0.0, 0.0, 0.0, 2560.0, 1415.0);
    let (x, y) = translate_pos(
        &Rect::new(w as u32, h as u32),
        &Border::new(bw as u32, bw as u32, bh as u32, bh as u32),
        &Border::new(cw as u32, cw as u32, ch as u32, ch as u32),
        &Rect::new(aw as u32, ah as u32),
        &Position::Bottom,
    )
    .unwrap();
    let ty = (ah - h - bh) as i32;
    assert_eq!(x, None);
    assert_eq!(y, Some(ty));

    // With borders
    let (w, h, bw, bh, aw, ah) = (500.0, 500.0, 10.0, 10.0, 2560.0, 1415.0);
    let (x, y) = translate_pos(
        &Rect::new(w as u32, h as u32),
        &Border::new(bw as u32, bw as u32, bh as u32, bh as u32),
        &Border::new(cw as u32, cw as u32, ch as u32, ch as u32),
        &Rect::new(aw as u32, ah as u32),
        &Position::Bottom,
    )
    .unwrap();
    let ty = (ah - h - bh) as i32;
    assert_eq!(x, None);
    assert_eq!(y, Some(ty));
}

#[test]
fn test_translate_pos_top() {
    // No borders
    let (w, h, bw, bh, cw, ch, aw, ah) = (500.0, 500.0, 0.0, 0.0, 0.0, 0.0, 2560.0, 1415.0);
    let (x, y) = translate_pos(
        &Rect::new(w as u32, h as u32),
        &Border::new(bw as u32, bw as u32, bh as u32, bh as u32),
        &Border::new(cw as u32, cw as u32, ch as u32, ch as u32),
        &Rect::new(aw as u32, ah as u32),
        &Position::Top,
    )
    .unwrap();
    assert_eq!(x, None);
    assert_eq!(y, Some(0));

    // With borders
    let (w, h, bw, bh, aw, ah) = (500.0, 500.0, 10.0, 10.0, 2560.0, 1415.0);
    let (x, y) = translate_pos(
        &Rect::new(w as u32, h as u32),
        &Border::new(bw as u32, bw as u32, bh as u32, bh as u32),
        &Border::new(cw as u32, cw as u32, ch as u32, ch as u32),
        &Rect::new(aw as u32, ah as u32),
        &Position::Top,
    )
    .unwrap();
    assert_eq!(x, None);
    assert_eq!(y, Some(0));
}

#[test]
fn test_translate_pos_right() {
    // No borders
    let (w, h, bw, bh, cw, ch, aw, ah) = (500.0, 500.0, 0.0, 0.0, 0.0, 0.0, 2560.0, 1415.0);
    let (x, y) = translate_pos(
        &Rect::new(w as u32, h as u32),
        &Border::new(bw as u32, bw as u32, bh as u32, bh as u32),
        &Border::new(cw as u32, cw as u32, ch as u32, ch as u32),
        &Rect::new(aw as u32, ah as u32),
        &Position::Right,
    )
    .unwrap();
    let lx = (aw - w - bw) as i32;
    assert_eq!(x, Some(lx));
    assert_eq!(y, None);

    // With borders
    let (w, h, bw, bh, aw, ah) = (500.0, 500.0, 10.0, 10.0, 2560.0, 1415.0);
    let (x, y) = translate_pos(
        &Rect::new(w as u32, h as u32),
        &Border::new(bw as u32, bw as u32, bh as u32, bh as u32),
        &Border::new(cw as u32, cw as u32, ch as u32, ch as u32),
        &Rect::new(aw as u32, ah as u32),
        &Position::Right,
    )
    .unwrap();
    let lx = (aw - w - bw) as i32;
    assert_eq!(x, Some(lx));
    assert_eq!(y, None);
}

#[test]
fn test_translate_pos_left() {
    // No borders
    let (w, h, bw, bh, cw, ch, aw, ah) = (500.0, 500.0, 0.0, 0.0, 0.0, 0.0, 2560.0, 1415.0);
    let (x, y) = translate_pos(
        &Rect::new(w as u32, h as u32),
        &Border::new(bw as u32, bw as u32, bh as u32, bh as u32),
        &Border::new(cw as u32, cw as u32, ch as u32, ch as u32),
        &Rect::new(aw as u32, ah as u32),
        &Position::Left,
    )
    .unwrap();
    assert_eq!(x, Some(0));
    assert_eq!(y, None);

    // With borders
    let (w, h, bw, bh, aw, ah) = (500.0, 500.0, 10.0, 10.0, 2560.0, 1415.0);
    let (x, y) = translate_pos(
        &Rect::new(w as u32, h as u32),
        &Border::new(bw as u32, bw as u32, bh as u32, bh as u32),
        &Border::new(cw as u32, cw as u32, ch as u32, ch as u32),
        &Rect::new(aw as u32, ah as u32),
        &Position::Left,
    )
    .unwrap();
    assert_eq!(x, Some(0));
    assert_eq!(y, None);
}

#[test]
fn test_translate_pos_center() {
    // No borders
    let (w, h, bw, bh, cw, ch, aw, ah) = (500.0, 500.0, 0.0, 0.0, 0.0, 0.0, 2560.0, 1415.0);
    let (x, y) = translate_pos(
        &Rect::new(w as u32, h as u32),
        &Border::new(bw as u32, bw as u32, bh as u32, bh as u32),
        &Border::new(cw as u32, cw as u32, ch as u32, ch as u32),
        &Rect::new(aw as u32, ah as u32),
        &Position::Center,
    )
    .unwrap();
    let cx = (aw / 2.0 - (w + bw) / 2.0) as i32;
    let cy = (ah / 2.0 - (h + bh) / 2.0) as i32;
    assert_eq!(x, Some(cx));
    assert_eq!(y, Some(cy));

    // With borders
    let (w, h, bw, bh, aw, ah) = (500.0, 500.0, 10.0, 10.0, 2560.0, 1415.0);
    let (x, y) = translate_pos(
        &Rect::new(w as u32, h as u32),
        &Border::new(bw as u32, bw as u32, bh as u32, bh as u32),
        &Border::new(cw as u32, cw as u32, ch as u32, ch as u32),
        &Rect::new(aw as u32, ah as u32),
        &Position::Center,
    )
    .unwrap();
    let cx = (aw / 2.0 - (w + bw) / 2.0) as i32;
    let cy = (ah / 2.0 - (h + bh) / 2.0) as i32;
    assert_eq!(x, Some(cx));
    assert_eq!(y, Some(cy));
}
